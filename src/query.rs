use vstd::prelude::*;

verus! {

/// Parameters of a logs search.
#[derive(Debug, Clone)]
pub struct LogsQuery {
    pub query: String,
    pub from: String,
    pub to: String,
    /// The most logs to retrieve; `None` fetches all.
    pub limit: Option<u32>,
}

impl LogsQuery {
    pub fn new(query: String, from: String, to: String, limit: Option<u32>) -> (r: LogsQuery)
        ensures
            r.query@ == query@,
            r.from@ == from@,
            r.to@ == to@,
            r.limit == limit,
    {
        LogsQuery { query, from, to, limit }
    }
}

/// Parameters of an events search.
#[derive(Debug, Clone)]
pub struct EventsQuery {
    pub query: String,
    pub from: String,
    pub to: String,
    /// The most events to retrieve; `None` fetches all.
    pub limit: Option<u32>,
}

impl EventsQuery {
    pub fn new(query: String, from: String, to: String, limit: Option<u32>) -> (r: EventsQuery)
        ensures
            r.query@ == query@,
            r.from@ == from@,
            r.to@ == to@,
            r.limit == limit,
    {
        EventsQuery { query, from, to, limit }
    }
}

/// What a query description reads as: text, time bounds and limit.
pub struct QueryView {
    pub query: Seq<char>,
    pub from: Seq<char>,
    pub to: Seq<char>,
    pub limit: Option<u32>,
}

impl View for LogsQuery {
    type V = QueryView;

    open spec fn view(&self) -> QueryView {
        QueryView { query: self.query@, from: self.from@, to: self.to@, limit: self.limit }
    }
}

impl View for EventsQuery {
    type V = QueryView;

    open spec fn view(&self) -> QueryView {
        QueryView { query: self.query@, from: self.from@, to: self.to@, limit: self.limit }
    }
}

} // verus!
