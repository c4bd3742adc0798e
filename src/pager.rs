use vstd::prelude::*;
use vstd::string::*;

use crate::request::{decimal, decimal_text};

verus! {

/// The largest page the search services hand out in one response.
pub const MAX_PAGE_SIZE: u32 = 5000;

/// Why one page could not be fetched.
#[derive(Debug, Clone, PartialEq, Eq)]
pub enum FetchError {
    /// The request could not be sent, or its response not received.
    Transport(String),
    /// The service answered with a non-success status.
    Service { status: u16, reason: String, body: String },
    /// The response body is not a page of the expected shape.
    Decode(String),
}

/// The text an error is reported with.
pub open spec fn error_message(e: FetchError) -> Seq<char> {
    match e {
        FetchError::Transport(m) => "Request failed: "@ + m@,
        FetchError::Service { status, reason, body } => "API error ("@ + decimal(status as nat)
            + " "@ + reason@ + "): "@ + body@,
        FetchError::Decode(m) => "Failed to parse response: "@ + m@,
    }
}

impl FetchError {
    /// The text this error is reported with: what failed, and for a service
    /// error its status code, reason and the body it sent.
    pub fn message(&self) -> (r: String)
        ensures
            r@ == error_message(*self),
    {
        match self {
            FetchError::Transport(m) => String::from_str("Request failed: ").concat(m.as_str()),
            FetchError::Service { status, reason, body } => {
                let r = String::from_str("API error (").concat(
                    decimal_text(*status as u32).as_str(),
                ).concat(" ").concat(reason.as_str()).concat("): ").concat(body.as_str());
                assert(r@ =~= error_message(*self));
                r
            },
            FetchError::Decode(m) => String::from_str("Failed to parse response: ").concat(
                m.as_str(),
            ),
        }
    }
}

/// How many records the next request asks for: what is left of the limit,
/// at most one full page; a full page when there is no limit.
pub open spec fn page_size_for(limit: Option<u32>, so_far: nat) -> nat {
    match limit {
        None => MAX_PAGE_SIZE as nat,
        Some(l) => {
            let remaining: nat = if so_far <= l { (l - so_far) as nat } else { 0 };
            if remaining < MAX_PAGE_SIZE { remaining } else { MAX_PAGE_SIZE as nat }
        },
    }
}

/// The page size policy, computed with saturating subtraction.
pub fn page_size(limit: Option<u32>, so_far: usize) -> (r: u32)
    ensures
        r == page_size_for(limit, so_far as nat),
        r <= MAX_PAGE_SIZE,
{
    match limit {
        None => MAX_PAGE_SIZE,
        Some(l) => {
            let remaining: u32 = if so_far <= l as usize { l - so_far as u32 } else { 0 };
            if remaining < MAX_PAGE_SIZE { remaining } else { MAX_PAGE_SIZE }
        },
    }
}


/// What a fetch session is, as a mathematical value.
pub struct SessionState {
    /// The cap on the number of records, if any.
    pub limit: Option<u32>,
    /// How many records have been received so far.
    pub so_far: nat,
    /// The cursor that the next request carries.
    pub cursor: Option<Seq<char>>,
    /// The session asks for no more pages.
    pub ended: bool,
    /// The error that ended the session, if one did.
    pub failure: Option<FetchError>,
}

/// One answer of the page fetcher, as the session sees it: how many records
/// came and the continuation cursor, or the error.
pub enum PageEvent {
    Received { count: nat, cursor: Option<Seq<char>> },
    Failed(FetchError),
}

/// A session before its first request.
pub open spec fn start(limit: Option<u32>) -> SessionState {
    SessionState { limit, so_far: 0, cursor: None, ended: false, failure: None }
}

/// The page size of the next request, or `None` once the session is over:
/// it ended, or what is left of the limit is zero.
pub open spec fn next_request_of(s: SessionState) -> Option<nat> {
    if s.ended || page_size_for(s.limit, s.so_far) == 0 {
        None
    } else {
        Some(page_size_for(s.limit, s.so_far))
    }
}

/// The session after a page of `count` records with continuation `cursor`:
/// a missing cursor ends it, and so does reaching the limit.
pub open spec fn after_page(s: SessionState, count: nat, cursor: Option<Seq<char>>) -> SessionState {
    let so_far = s.so_far + count;
    match cursor {
        None => SessionState { so_far, ended: true, ..s },
        Some(c) => SessionState {
            so_far,
            cursor: Some(c),
            ended: match s.limit {
                Some(l) => so_far >= l,
                None => false,
            },
            ..s
        },
    }
}

/// The session after a failed fetch: it ends with that error.
pub open spec fn after_failure(s: SessionState, e: FetchError) -> SessionState {
    SessionState { ended: true, failure: Some(e), ..s }
}

/// The session after one answer of the fetcher.
pub open spec fn after_event(s: SessionState, ev: PageEvent) -> SessionState {
    match ev {
        PageEvent::Received { count, cursor } => after_page(s, count, cursor),
        PageEvent::Failed(e) => after_failure(s, e),
    }
}

/// What a session returns: the record count, or the error that ended it.
pub open spec fn outcome_of(s: SessionState) -> Result<nat, FetchError> {
    match s.failure {
        Some(e) => Err(e),
        None => Ok(s.so_far),
    }
}

/// A whole run: the requests that were issued and the final session.
pub struct Run {
    pub requests: Seq<nat>,
    pub last: SessionState,
}

/// The run of session `s` against a fetcher whose answers, in the order they
/// arrive, are `events`. Each request takes the next answer; the run stops when
/// the session asks for nothing more or the answers are used up.
pub open spec fn run(s: SessionState, events: Seq<PageEvent>) -> Run
    decreases events.len(),
{
    match next_request_of(s) {
        None => Run { requests: Seq::empty(), last: s },
        Some(n) => if events.len() == 0 {
            Run { requests: Seq::empty(), last: s }
        } else {
            let rest = run(after_event(s, events[0]), events.drop_first());
            Run { requests: seq![n].add(rest.requests), last: rest.last }
        },
    }
}


/// The state of one paginated fetch: it decides the size and cursor of each
/// request and when to stop; the caller performs the fetches.
pub struct FetchSession {
    limit: Option<u32>,
    records_so_far: usize,
    cursor: Option<String>,
    ended: bool,
    failure: Option<FetchError>,
}

impl View for FetchSession {
    type V = SessionState;

    closed spec fn view(&self) -> SessionState {
        SessionState {
            limit: self.limit,
            so_far: self.records_so_far as nat,
            cursor: match self.cursor {
                Some(c) => Some(c@),
                None => None,
            },
            ended: self.ended,
            failure: self.failure,
        }
    }
}

impl FetchSession {
    /// A session for a query capped at `limit` records (`None`: no cap).
    pub fn new(limit: Option<u32>) -> (r: FetchSession)
        ensures
            r@ == start(limit),
    {
        FetchSession { limit, records_so_far: 0, cursor: None, ended: false, failure: None }
    }

    /// The page size to request next, or `None` when the session is over.
    pub fn next_request(&self) -> (r: Option<u32>)
        ensures
            match r {
                Some(n) => next_request_of(self@) == Some(n as nat),
                None => next_request_of(self@) is None,
            },
            r matches Some(n) ==> (self@.limit matches Some(l) ==> self@.so_far + n <= l),
    {
        if self.ended {
            return None;
        }
        let n = page_size(self.limit, self.records_so_far);
        if n == 0 {
            None
        } else {
            Some(n)
        }
    }

    /// The cursor that the next request carries.
    pub fn cursor(&self) -> (r: &Option<String>)
        ensures
            match r {
                Some(c) => self@.cursor == Some(c@),
                None => self@.cursor is None,
            },
    {
        &self.cursor
    }

    /// How many records have been received so far.
    pub fn records_so_far(&self) -> (r: usize)
        ensures
            r as nat == self@.so_far,
    {
        self.records_so_far
    }

    /// The session asks for no more pages.
    pub fn is_ended(&self) -> (r: bool)
        ensures
            r == (next_request_of(self@) is None),
    {
        self.next_request().is_none()
    }

    /// Takes in a page of `count` records whose continuation is `next_cursor`.
    pub fn record_page(&mut self, count: usize, next_cursor: Option<String>)
        requires
            old(self)@.so_far + count <= usize::MAX,
        ensures
            final(self)@ == after_page(old(self)@, count as nat, match next_cursor {
                Some(c) => Some(c@),
                None => None,
            }),
    {
        self.records_so_far = self.records_so_far + count;
        match next_cursor {
            None => {
                self.ended = true;
            },
            Some(c) => {
                self.cursor = Some(c);
                self.ended = match self.limit {
                    Some(l) => self.records_so_far >= l as usize,
                    None => false,
                };
            },
        }
    }

    /// Takes in a failed fetch: the session ends with that error.
    pub fn record_failure(&mut self, err: FetchError)
        ensures
            final(self)@ == after_failure(old(self)@, err),
    {
        self.ended = true;
        self.failure = Some(err);
    }

    /// The result of the session: the number of records received, or the
    /// error that ended it.
    pub fn finish(self) -> (r: Result<usize, FetchError>)
        ensures
            match r {
                Ok(n) => outcome_of(self@) == Ok::<nat, FetchError>(n as nat),
                Err(e) => outcome_of(self@) == Err::<nat, FetchError>(e),
            },
    {
        match self.failure {
            Some(e) => Err(e),
            None => Ok(self.records_so_far),
        }
    }
}


/// Accumulate mode: appends a page's records, in order, to what was gathered.
pub fn gather<R>(acc: &mut Vec<R>, page: Vec<R>)
    ensures
        final(acc)@ == old(acc)@ + page@,
{
    let mut page = page;
    acc.append(&mut page);
}

/// Accumulate mode, at the end of a session: the error if the session failed
/// (nothing gathered is handed out then), no collection when nothing came, and
/// otherwise the records in arrival order.
pub fn into_batch<R>(outcome: Result<usize, FetchError>, records: Vec<R>) -> (r: Result<
    Option<Vec<R>>,
    FetchError,
>)
    ensures
        match outcome {
            Err(e) => r == Err::<Option<Vec<R>>, FetchError>(e),
            Ok(_) => match r {
                Ok(None) => records@.len() == 0,
                Ok(Some(v)) => records@.len() > 0 && v@ == records@,
                Err(_) => false,
            },
        },
{
    match outcome {
        Err(e) => Err(e),
        Ok(_) => if records.len() == 0 {
            Ok(None)
        } else {
            Ok(Some(records))
        },
    }
}

} // verus!
