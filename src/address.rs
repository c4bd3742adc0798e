use vstd::prelude::*;
use vstd::string::*;

use chrono::TimeZone;

use crate::entries::opt_text;
use crate::query::{EventsQuery, LogsQuery, QueryView};
use crate::text::{contains_text, i64_value, occurs_in, parse_i64, same_text};

verus! {

#[verifier::external_type_specification]
#[verifier::external_body]
pub struct ExUrlParseError(url::ParseError);

/// A search that a web-UI address stands for.
#[derive(Debug)]
pub enum DatadogResource {
    Logs(LogsQuery),
    Events(EventsQuery),
}

/// What a resource reads as.
pub enum ResourceView {
    Logs(QueryView),
    Events(QueryView),
}

impl View for DatadogResource {
    type V = ResourceView;

    open spec fn view(&self) -> ResourceView {
        match self {
            DatadogResource::Logs(q) => ResourceView::Logs(q@),
            DatadogResource::Events(q) => ResourceView::Events(q@),
        }
    }
}

/// The limit that a query read from an address gets.
pub const URL_QUERY_LIMIT: u32 = 100;

/// The text of the RFC 3339 form of the UTC instant `ms` milliseconds after
/// the Unix epoch, or `None` where that instant is out of range.
pub uninterp spec fn rfc3339_of_millis(ms: i64) -> Option<Seq<char>>;

/// Relies on chrono's `Utc.timestamp_millis_opt` (with `single`) and
/// `DateTime::to_rfc3339`: the text depends on `ms` alone.
#[verifier::external_body]
fn millis_to_rfc3339(ms: i64) -> (r: Option<String>)
    ensures
        match r {
            Some(t) => rfc3339_of_millis(ms) == Some(t@),
            None => rfc3339_of_millis(ms) is None,
        },
{
    chrono::Utc.timestamp_millis_opt(ms).single().map(|dt| dt.to_rfc3339())
}

/// What an address parses into: its host (if it has one), its path, and the
/// decoded name and value pairs of its query, in order; `None` where the text
/// is not an absolute URL.
pub uninterp spec fn url_parts_of(s: Seq<char>) -> Option<
    (Option<Seq<char>>, Seq<char>, Seq<(Seq<char>, Seq<char>)>),
>;

/// Relies on url's `Url::parse`, then `host_str`, `path` and `query_pairs`:
/// the parts depend on the text alone.
#[verifier::external_body]
fn url_parts(s: &str) -> (r: Result<(Option<String>, String, Vec<(String, String)>), url::ParseError>)
    ensures
        match r {
            Ok(t) => url_parts_of(s@) == Some((opt_text(t.0), t.1@, pairs_view(t.2@))),
            Err(_) => url_parts_of(s@) is None,
        },
{
    let u = url::Url::parse(s)?;
    let pairs = u.query_pairs().map(|(k, v)| (k.into_owned(), v.into_owned())).collect();
    Ok((u.host_str().map(|h| h.to_string()), u.path().to_string(), pairs))
}

/// The pairs as texts.
pub open spec fn pairs_view(pairs: Seq<(String, String)>) -> Seq<(Seq<char>, Seq<char>)> {
    pairs.map_values(|p: (String, String)| (p.0@, p.1@))
}

/// The value of the last pair named `key`: a later pair overrides an earlier one.
pub open spec fn param_value(pairs: Seq<(Seq<char>, Seq<char>)>, key: Seq<char>) -> Option<
    Seq<char>,
>
    decreases pairs.len(),
{
    if pairs.len() == 0 {
        None
    } else if pairs.last().0 == key {
        Some(pairs.last().1)
    } else {
        param_value(pairs.drop_last(), key)
    }
}

/// A time bound given in milliseconds since the epoch, as RFC 3339 text;
/// `fallback` where it is absent, not an integer, or out of range.
pub open spec fn time_bound(param: Option<Seq<char>>, fallback: Seq<char>) -> Seq<char> {
    match param {
        Some(t) => match i64_value(t) {
            Some(ms) => match rfc3339_of_millis(ms) {
                Some(x) => x,
                None => fallback,
            },
            None => fallback,
        },
        None => fallback,
    }
}

/// The search that an address with this host, path and query stands for, or
/// the error message.
pub open spec fn resource_of(
    host: Seq<char>,
    path: Seq<char>,
    pairs: Seq<(Seq<char>, Seq<char>)>,
) -> Result<ResourceView, Seq<char>> {
    let q = QueryView {
        query: match param_value(pairs, "query"@) {
            Some(v) => v,
            None => "*"@,
        },
        from: time_bound(param_value(pairs, "from_ts"@), "now-15m"@),
        to: time_bound(param_value(pairs, "to_ts"@), "now"@),
        limit: Some(URL_QUERY_LIMIT),
    };
    if !occurs_in("datadoghq.com"@, host) {
        Err("URL must be a Datadog URL (*.datadoghq.com)"@)
    } else if path == "/logs"@ {
        Ok(ResourceView::Logs(q))
    } else if path == "/event/explorer"@ {
        Ok(ResourceView::Events(q))
    } else {
        Err("Unsupported Datadog resource: "@ + path
            + ". Currently only /logs and /event/explorer are supported."@)
    }
}


/// The value of the last pair named `key`.
pub fn find_param<'a>(pairs: &'a Vec<(String, String)>, key: &str) -> (r: Option<&'a String>)
    ensures
        match r {
            Some(v) => param_value(pairs_view(pairs@), key@) == Some(v@),
            None => param_value(pairs_view(pairs@), key@) is None,
        },
{
    let ghost pv = pairs_view(pairs@);
    let n = pairs.len();
    let mut i: usize = n;
    assert(pv.take(n as int) =~= pv);
    while i > 0
        invariant
            i <= n,
            n == pairs@.len(),
            pv == pairs_view(pairs@),
            param_value(pv, key@) == param_value(pv.take(i as int), key@),
        decreases i,
    {
        let p = &pairs[i - 1];
        assert(pv.take(i as int).last() == (p.0@, p.1@));
        assert(pv.take(i as int).drop_last() =~= pv.take(i - 1));
        if same_text(p.0.as_str(), key) {
            return Some(&p.1);
        }
        i = i - 1;
    }
    None
}

/// A time bound from a milliseconds parameter, or `fallback`.
pub fn time_bound_text(param: Option<&String>, fallback: &str) -> (r: String)
    ensures
        r@ == time_bound(
            match param {
                Some(t) => Some(t@),
                None => None,
            },
            fallback@,
        ),
{
    match param {
        Some(t) => match parse_i64(t.as_str()) {
            Some(ms) => match millis_to_rfc3339(ms) {
                Some(x) => x,
                None => String::from_str(fallback),
            },
            None => String::from_str(fallback),
        },
        None => String::from_str(fallback),
    }
}

/// The search that an address with this host, path and decoded query pairs
/// stands for: a logs or events query with the address's `query` (else `*`),
/// its `from_ts` and `to_ts` as RFC 3339 (else `now-15m` and `now`) and a limit
/// of 100; an error for a host outside datadoghq.com or another path.
pub fn resource_from_parts(host: &str, path: &str, pairs: &Vec<(String, String)>) -> (r: Result<
    DatadogResource,
    String,
>)
    ensures
        match r {
            Ok(res) => resource_of(host@, path@, pairs_view(pairs@)) == Ok::<
                ResourceView,
                Seq<char>,
            >(res@),
            Err(m) => resource_of(host@, path@, pairs_view(pairs@)) == Err::<
                ResourceView,
                Seq<char>,
            >(m@),
        },
{
    if !contains_text(host, "datadoghq.com") {
        return Err(String::from_str("URL must be a Datadog URL (*.datadoghq.com)"));
    }
    let from = time_bound_text(find_param(pairs, "from_ts"), "now-15m");
    let to = time_bound_text(find_param(pairs, "to_ts"), "now");
    let query = match find_param(pairs, "query") {
        Some(v) => v.clone(),
        None => String::from_str("*"),
    };
    if same_text(path, "/logs") {
        Ok(DatadogResource::Logs(LogsQuery::new(query, from, to, Some(URL_QUERY_LIMIT))))
    } else if same_text(path, "/event/explorer") {
        Ok(DatadogResource::Events(EventsQuery::new(query, from, to, Some(URL_QUERY_LIMIT))))
    } else {
        Err(String::from_str("Unsupported Datadog resource: ").concat(path).concat(
            ". Currently only /logs and /event/explorer are supported.",
        ))
    }
}

/// The host of an address, empty where it has none.
pub open spec fn host_or_empty(h: Option<Seq<char>>) -> Seq<char> {
    match h {
        Some(x) => x,
        None => Seq::empty(),
    }
}

/// Reads a web-UI address as the search it shows: an error with the parser's
/// message when it is no address, and otherwise what `resource_from_parts`
/// gives for its host (empty if it has none), path and query pairs.
pub fn parse_datadog_url(url_str: &str) -> (r: Result<DatadogResource, String>)
    ensures
        match url_parts_of(url_str@) {
            None => r matches Err(m) && exists|t: Seq<char>| m@ == "Invalid URL: "@ + t,
            Some((h, p, q)) => match r {
                Ok(res) => resource_of(host_or_empty(h), p, q) == Ok::<ResourceView, Seq<char>>(
                    res@,
                ),
                Err(m) => resource_of(host_or_empty(h), p, q) == Err::<ResourceView, Seq<char>>(
                    m@,
                ),
            },
        },
{
    match url_parts(url_str) {
        Err(e) => {
            let text = e.to_string();
            let m = String::from_str("Invalid URL: ").concat(text.as_str());
            assert(m@ == "Invalid URL: "@ + text@);
            Err(m)
        },
        Ok((host, path, pairs)) => {
            let host_text = match &host {
                Some(h) => h.clone(),
                None => String::new(),
            };
            assert(host_text@ == host_or_empty(opt_text(host)));
            resource_from_parts(host_text.as_str(), path.as_str(), &pairs)
        },
    }
}

} // verus!
