use vstd::prelude::*;

use crate::pager::{
    after_event, after_page, next_request_of, outcome_of, page_size_for, run, start,
    FetchError, PageEvent, SessionState, MAX_PAGE_SIZE,
};

verus! {

/// The number of records that the answers in `events` carry.
pub open spec fn total_count(events: Seq<PageEvent>) -> nat
    decreases events.len(),
{
    if events.len() == 0 {
        0
    } else {
        let here: nat = match events[0] {
            PageEvent::Received { count, .. } => count,
            PageEvent::Failed(_) => 0,
        };
        here + total_count(events.drop_first())
    }
}

/// The sum of a sequence of page sizes.
pub open spec fn sum_of(xs: Seq<nat>) -> nat
    decreases xs.len(),
{
    if xs.len() == 0 {
        0
    } else {
        xs[0] + sum_of(xs.drop_first())
    }
}

/// The answer holds records and a continuation cursor.
pub open spec fn continues(ev: PageEvent) -> bool {
    ev matches PageEvent::Received { cursor: Some(_), .. }
}

/// The answer holds records and no continuation cursor.
pub open spec fn closes(ev: PageEvent) -> bool {
    ev matches PageEvent::Received { cursor: None, .. }
}

proof fn unlimited_from(s: SessionState, events: Seq<PageEvent>, k: nat)
    requires
        s.limit is None,
        !s.ended,
        s.failure is None,
        k < events.len(),
        closes(events[k as int]),
        forall|i: int| 0 <= i < k ==> continues(#[trigger] events[i]),
    ensures
        run(s, events).requests =~= Seq::new((k + 1) as nat, |i: int| MAX_PAGE_SIZE as nat),
        run(s, events).last.so_far == s.so_far + total_count(events.take((k + 1) as int)),
        run(s, events).last.ended,
        run(s, events).last.failure is None,
    decreases k,
{
    let s1 = after_event(s, events[0]);
    let rest = events.drop_first();
    assert(events.take((k + 1) as int)[0] == events[0]);
    assert(events.take((k + 1) as int).drop_first() =~= rest.take(k as int));
    assert(total_count(events.take((k + 1) as int)) == s1.so_far - s.so_far + total_count(
        rest.take(k as int),
    ));
    if k == 0 {
        assert(rest.take(0) =~= Seq::<PageEvent>::empty());
        assert(total_count(rest.take(0)) == 0);
        assert(run(s1, rest).requests =~= Seq::<nat>::empty());
    } else {
        assert(continues(events[0]));
        assert forall|i: int| 0 <= i < k - 1 implies continues(#[trigger] rest[i]) by {
            assert(continues(events[i + 1]));
        }
        unlimited_from(s1, rest, (k - 1) as nat);
    }
}

/// Without a limit every request asks for a full page, and the run stops at
/// the first answer without a continuation cursor: one request per answer up
/// to that one, and the count is the sum of their record counts.
pub proof fn lemma_unlimited_run(events: Seq<PageEvent>, k: nat)
    requires
        k < events.len(),
        closes(events[k as int]),
        forall|i: int| 0 <= i < k ==> continues(#[trigger] events[i]),
    ensures
        run(start(None), events).requests =~= Seq::new((k + 1) as nat, |i: int| MAX_PAGE_SIZE as nat),
        outcome_of(run(start(None), events).last) == Ok::<nat, FetchError>(
            total_count(events.take((k + 1) as int)),
        ),
        next_request_of(run(start(None), events).last) is None,
{
    unlimited_from(start(None), events, k);
}

proof fn requests_within(s: SessionState, events: Seq<PageEvent>)
    ensures
        run(s, events).requests.len() <= events.len(),
    decreases events.len(),
{
    if next_request_of(s) is Some && events.len() > 0 {
        requests_within(after_event(s, events[0]), events.drop_first());
    }
}

proof fn capped_from(s: SessionState, events: Seq<PageEvent>, l: u32)
    requires
        s.limit == Some(l),
        s.so_far <= l,
        !s.ended,
        s.failure is None,
        events.len() * (MAX_PAGE_SIZE as int) >= l - s.so_far,
        forall|i: int|
            0 <= i < run(s, events).requests.len() ==> continues(#[trigger] events[i])
                && events[i]->count == run(s, events).requests[i],
    ensures
        run(s, events).last.so_far == l,
        run(s, events).last.failure is None,
        next_request_of(run(s, events).last) is None,
        s.so_far + sum_of(run(s, events).requests) == l,
        run(s, events).requests.len() == (l - s.so_far + 4999) / 5000,
    decreases events.len(),
{
    let n = page_size_for(s.limit, s.so_far);
    if n == 0 {
        assert(run(s, events).requests =~= Seq::<nat>::empty());
    } else {
        let r = run(s, events);
        let s1 = after_event(s, events[0]);
        let rest = events.drop_first();
        assert(r.requests[0] == n);
        assert(continues(events[0]));
        assert(r.requests.drop_first() =~= run(s1, rest).requests);
        assert(sum_of(r.requests) == n + sum_of(run(s1, rest).requests));
        if s1.ended {
            assert(run(s1, rest).requests =~= Seq::<nat>::empty());
            assert((l - s.so_far + 4999) / 5000 == 1);
        } else {
            assert(n == MAX_PAGE_SIZE);
            requests_within(s1, rest);
            assert forall|i: int|
                0 <= i < run(s1, rest).requests.len() implies continues(#[trigger] rest[i])
                && rest[i]->count == run(s1, rest).requests[i] by {
                assert(r.requests[i + 1] == run(s1, rest).requests[i]);
                assert(rest[i] == events[i + 1]);
                assert(continues(events[i + 1]) && events[i + 1]->count == r.requests[i + 1]);
            }
            capped_from(s1, rest, l);
            assert((l - s.so_far + 4999) / 5000 == (l - s1.so_far + 4999) / 5000 + 1);
        }
    }
}

/// With a limit `l` and a fetcher that fills every page it is asked for and
/// always hands back a cursor, the run ends with exactly `l` records after
/// `l / 5000` requests, rounded up; the requests add up to `l`, so none of them
/// asks beyond the limit.
pub proof fn lemma_capped_full_pages(events: Seq<PageEvent>, l: u32)
    requires
        events.len() * (MAX_PAGE_SIZE as int) >= l,
        forall|i: int|
            0 <= i < run(start(Some(l)), events).requests.len() ==> continues(
                #[trigger] events[i],
            ) && events[i]->count == run(start(Some(l)), events).requests[i],
    ensures
        outcome_of(run(start(Some(l)), events).last) == Ok::<nat, FetchError>(l as nat),
        sum_of(run(start(Some(l)), events).requests) == l,
        run(start(Some(l)), events).requests.len() == (l + 4999) / 5000,
        next_request_of(run(start(Some(l)), events).last) is None,
{
    capped_from(start(Some(l)), events, l);
}

/// When the first answer has no continuation cursor, exactly one fetch is
/// made, whatever the limit (a limit of zero makes none).
pub proof fn lemma_first_page_last(limit: Option<u32>, events: Seq<PageEvent>)
    requires
        events.len() >= 1,
        closes(events[0]),
        limit != Some(0u32),
    ensures
        run(start(limit), events).requests.len() == 1,
{
    let s1 = after_event(start(limit), events[0]);
    assert(run(s1, events.drop_first()).requests =~= Seq::<nat>::empty());
}

/// A limit of zero makes no fetch and a count of zero.
pub proof fn lemma_zero_limit(events: Seq<PageEvent>)
    ensures
        run(start(Some(0u32)), events).requests.len() == 0,
        outcome_of(run(start(Some(0u32)), events).last) == Ok::<nat, FetchError>(0),
{
}

/// When the second fetch fails, the run stops there with that error; the
/// first page's records had been taken in before.
pub proof fn lemma_second_fetch_fails(
    limit: Option<u32>,
    events: Seq<PageEvent>,
    count: nat,
    c: Seq<char>,
    e: FetchError,
)
    requires
        events.len() >= 2,
        events[0] == (PageEvent::Received { count, cursor: Some(c) }),
        events[1] == PageEvent::Failed(e),
        limit matches Some(l) ==> count < l,
    ensures
        run(start(limit), events).requests.len() == 2,
        outcome_of(run(start(limit), events).last) == Err::<nat, FetchError>(e),
        run(start(limit), events).last.so_far == count,
{
    let s1 = after_event(start(limit), events[0]);
    let s2 = after_event(s1, events[1]);
    let rest = events.drop_first();
    assert(rest[0] == events[1]);
    assert(next_request_of(s1) is Some);
    assert(next_request_of(s2) is None);
    assert(run(s2, rest.drop_first()).requests =~= Seq::<nat>::empty());
    assert(run(s1, rest).requests.len() == 1);
}

/// An empty page with a continuation cursor does not end the session; an
/// empty page without one ends it and adds no records.
pub proof fn lemma_empty_page(s: SessionState, c: Seq<char>)
    requires
        next_request_of(s) is Some,
    ensures
        next_request_of(after_page(s, 0, Some(c))) is Some,
        next_request_of(after_page(s, 0, None)) is None,
        after_page(s, 0, None).so_far == s.so_far,
{
}

} // verus!
