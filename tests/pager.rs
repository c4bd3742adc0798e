use ddog::pager::{gather, into_batch, page_size, FetchError, FetchSession, MAX_PAGE_SIZE};

/// One scripted answer: a page of `count` records with an optional cursor, or an error.
type Answer = Result<(usize, Option<String>), FetchError>;

struct Trace {
    requests: Vec<(u32, Option<String>)>,
    delivered: Vec<usize>,
    outcome: Result<usize, FetchError>,
}

/// Drives a session against answers given in advance, the way a client does
/// against the service; records arrive at the sink before the session sees them.
fn drive(limit: Option<u32>, answers: Vec<Answer>) -> Trace {
    let mut session = FetchSession::new(limit);
    let mut requests = Vec::new();
    let mut delivered = Vec::new();
    let mut answers = answers.into_iter();
    while let Some(size) = session.next_request() {
        requests.push((size, session.cursor().clone()));
        match answers.next().expect("the session asked for more pages than scripted") {
            Ok((count, cursor)) => {
                delivered.push(count);
                session.record_page(count, cursor);
            }
            Err(e) => session.record_failure(e),
        }
    }
    Trace { requests, delivered, outcome: session.finish() }
}

fn page(count: usize, cursor: Option<&str>) -> Answer {
    Ok((count, cursor.map(|c| c.to_string())))
}

#[test]
fn page_size_policy() {
    assert_eq!(page_size(None, 0), 5000);
    assert_eq!(page_size(None, 123456), 5000);
    assert_eq!(page_size(Some(12000), 0), 5000);
    assert_eq!(page_size(Some(7), 3), 4);
    assert_eq!(page_size(Some(3), 7), 0);
    assert_eq!(page_size(Some(10000), 10000), 0);
    assert_eq!(MAX_PAGE_SIZE, 5000);
}

#[test]
fn unlimited_asks_full_pages_until_no_cursor() {
    let t = drive(
        None,
        vec![page(5000, Some("a")), page(4999, Some("b")), page(12, Some("c")), page(7, None)],
    );
    let sizes: Vec<u32> = t.requests.iter().map(|r| r.0).collect();
    assert_eq!(sizes, vec![5000, 5000, 5000, 5000]);
    assert_eq!(t.outcome, Ok(5000 + 4999 + 12 + 7));
}

#[test]
fn capped_full_pages_stop_at_limit() {
    let limit: u32 = 12345;
    // A full-page fetcher: each answer holds exactly what was asked.
    let mut session = FetchSession::new(Some(limit));
    let mut asked = Vec::new();
    let mut n = 0;
    while let Some(size) = session.next_request() {
        asked.push(size);
        assert!(session.records_so_far() + size as usize <= limit as usize);
        session.record_page(size as usize, Some(format!("c{}", n)));
        n += 1;
    }
    assert_eq!(asked, vec![5000, 5000, 2345]);
    assert_eq!(n, 3);
    assert_eq!(session.finish(), Ok(12345));
}

#[test]
fn first_page_without_cursor_is_the_only_fetch() {
    for limit in [None, Some(1), Some(100), Some(7000)] {
        let t = drive(limit, vec![page(1, None), page(5, Some("never"))]);
        assert_eq!(t.requests.len(), 1);
        assert_eq!(t.outcome, Ok(1));
    }
}

#[test]
fn zero_limit_fetches_nothing() {
    let t = drive(Some(0), vec![]);
    assert!(t.requests.is_empty());
    assert_eq!(t.outcome, Ok(0));
}

#[test]
fn three_pages_without_limit() {
    let t = drive(None, vec![page(5000, Some("c1")), page(5000, Some("c2")), page(3, None)]);
    assert_eq!(
        t.requests,
        vec![
            (5000, None),
            (5000, Some("c1".to_string())),
            (5000, Some("c2".to_string())),
        ]
    );
    assert_eq!(t.outcome, Ok(10003));
}

#[test]
fn three_pages_capped_at_ten_thousand() {
    let t = drive(
        Some(10000),
        vec![page(5000, Some("c1")), page(5000, Some("c2")), page(3, None)],
    );
    let sizes: Vec<u32> = t.requests.iter().map(|r| r.0).collect();
    assert_eq!(sizes, vec![5000, 5000]);
    assert_eq!(page_size(Some(10000), 10000), 0);
    assert_eq!(t.outcome, Ok(10000));
}

#[test]
fn second_fetch_failure_is_returned() {
    let err = FetchError::Service {
        status: 500,
        reason: "Internal Server Error".to_string(),
        body: "boom".to_string(),
    };
    let t = drive(None, vec![page(40, Some("c1")), Err(err.clone()), page(3, None)]);
    assert_eq!(t.requests.len(), 2);
    // Stream mode: the first page had reached the sink.
    assert_eq!(t.delivered, vec![40]);
    assert_eq!(t.outcome, Err(err.clone()));
    // Accumulate mode: only the error comes back.
    let mut acc: Vec<u32> = Vec::new();
    gather(&mut acc, vec![1; 40]);
    assert_eq!(into_batch(t.outcome, acc), Err(err));
}

#[test]
fn empty_page_with_cursor_keeps_going() {
    let t = drive(None, vec![page(0, Some("c1")), page(0, Some("c2")), page(2, None)]);
    assert_eq!(t.requests.len(), 3);
    assert_eq!(t.outcome, Ok(2));
    let t = drive(Some(50), vec![page(0, Some("c1")), page(0, None)]);
    assert_eq!(t.requests.len(), 2);
    assert_eq!(t.outcome, Ok(0));
}

#[test]
fn empty_page_without_cursor_ends() {
    let mut session = FetchSession::new(None);
    assert_eq!(session.next_request(), Some(5000));
    session.record_page(0, None);
    assert!(session.is_ended());
    assert_eq!(session.next_request(), None);
    assert_eq!(session.finish(), Ok(0));
}

#[test]
fn overshooting_page_ends_capped_session() {
    let t = drive(Some(10), vec![page(25, Some("c1"))]);
    assert_eq!(t.requests, vec![(10, None)]);
    assert_eq!(t.outcome, Ok(25));
}

#[test]
fn gather_keeps_arrival_order() {
    let mut acc = vec![1, 2];
    gather(&mut acc, vec![3, 4]);
    gather(&mut acc, vec![]);
    gather(&mut acc, vec![5]);
    assert_eq!(acc, vec![1, 2, 3, 4, 5]);
    assert_eq!(into_batch(Ok(5), acc), Ok(Some(vec![1, 2, 3, 4, 5])));
    assert_eq!(into_batch::<u8>(Ok(0), vec![]), Ok(None));
}

#[test]
fn error_messages() {
    assert_eq!(FetchError::Transport("timed out".to_string()).message(), "Request failed: timed out");
    assert_eq!(
        FetchError::Service { status: 404, reason: "Not Found".to_string(), body: "{}".to_string() }.message(),
        "API error (404 Not Found): {}"
    );
    assert_eq!(FetchError::Decode("eof".to_string()).message(), "Failed to parse response: eof");
}

#[test]
fn full_pages_take_rounded_up_requests() {
    for (limit, expected) in [(1u32, 1usize), (5000, 1), (5001, 2), (10000, 2), (12345, 3)] {
        let mut session = FetchSession::new(Some(limit));
        let mut n = 0;
        while let Some(size) = session.next_request() {
            session.record_page(size as usize, Some(format!("c{}", n)));
            n += 1;
        }
        assert_eq!(n, expected);
        assert_eq!(session.finish(), Ok(limit as usize));
    }
}
