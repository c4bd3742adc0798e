use vstd::prelude::*;
use vstd::string::*;
use vstd::utf8::encode_utf8;

use crate::query::{EventsQuery, QueryView};

verus! {

/// A byte that stands for itself in a query component: an ASCII letter or
/// digit, or one of `-`, `.`, `_`, `~`.
pub open spec fn unreserved(b: u8) -> bool {
    (48 <= b <= 57) || (65 <= b <= 90) || (97 <= b <= 122) || b == 45 || b == 46 || b == 95
        || b == 126
}

/// The upper-case hexadecimal digit of `n`, below 16.
pub open spec fn hex_digit(n: u8) -> char {
    "0123456789ABCDEF"@[n as int]
}

/// Bytes percent-encoded: an unreserved byte as its character, every other
/// byte as `%` and two upper-case hexadecimal digits.
pub open spec fn percent_encoded(bytes: Seq<u8>) -> Seq<char>
    decreases bytes.len(),
{
    if bytes.len() == 0 {
        Seq::empty()
    } else {
        let b = bytes[0];
        let head = if unreserved(b) {
            seq![(b as u32) as char]
        } else {
            seq!['%', hex_digit(b / 16), hex_digit(b % 16)]
        };
        head + percent_encoded(bytes.drop_first())
    }
}

/// The percent-encoded form of a text, for a URL query component: its UTF-8
/// bytes, percent-encoded.
pub open spec fn url_encoded(s: Seq<char>) -> Seq<char> {
    percent_encoded(encode_utf8(s))
}

/// Relies on `urlencoding::encode`: every UTF-8 byte but the unreserved ones
/// is written as `%XX`.
#[verifier::external_body]
fn encode_component(s: &str) -> (r: String)
    ensures
        r@ == url_encoded(s@),
{
    urlencoding::encode(s).into_owned()
}

/// The decimal digits.
pub open spec fn digits() -> Seq<char> {
    "0123456789"@
}

/// The decimal text of a number, without leading zeros.
pub open spec fn decimal(n: nat) -> Seq<char>
    decreases n,
{
    if n < 10 {
        seq![digits()[n as int]]
    } else {
        decimal(n / 10).push(digits()[(n % 10) as int])
    }
}

fn digit_text(d: u32) -> (r: &'static str)
    requires
        d < 10,
    ensures
        r@ == seq![digits()[d as int]],
{
    proof {
        reveal_strlit("0123456789");
        reveal_strlit("0");
        reveal_strlit("1");
        reveal_strlit("2");
        reveal_strlit("3");
        reveal_strlit("4");
        reveal_strlit("5");
        reveal_strlit("6");
        reveal_strlit("7");
        reveal_strlit("8");
        reveal_strlit("9");
    }
    let r = match d {
        0 => "0",
        1 => "1",
        2 => "2",
        3 => "3",
        4 => "4",
        5 => "5",
        6 => "6",
        7 => "7",
        8 => "8",
        _ => "9",
    };
    assert(r@ =~= seq![digits()[d as int]]);
    r
}

/// The decimal text of `n`.
pub fn decimal_text(n: u32) -> (r: String)
    ensures
        r@ == decimal(n as nat),
    decreases n,
{
    if n < 10 {
        String::from_str(digit_text(n))
    } else {
        let r = decimal_text(n / 10).concat(digit_text(n % 10));
        assert(r@ =~= decimal(n as nat));
        r
    }
}

/// The events search endpoint.
pub open spec fn events_endpoint() -> Seq<char> {
    "https://api.datadoghq.com/api/v2/events"@
}

/// The address of one events page: the query's text and time bounds, the page
/// size and, after the first page, the cursor, each value percent-encoded.
pub open spec fn events_page_url(q: QueryView, page_size: nat, cursor: Option<Seq<char>>) -> Seq<
    char,
> {
    let base = events_endpoint() + "?filter[query]="@ + url_encoded(q.query) + "&filter[from]="@
        + url_encoded(q.from) + "&filter[to]="@ + url_encoded(q.to) + "&page[limit]="@ + decimal(
        page_size,
    );
    match cursor {
        Some(c) => base + "&page[cursor]="@ + url_encoded(c),
        None => base,
    }
}

/// The address of one page of an events search.
pub fn events_request_url(query: &EventsQuery, page_size: u32, cursor: &Option<String>) -> (r:
    String)
    ensures
        r@ == events_page_url(
            query@,
            page_size as nat,
            match cursor {
                Some(c) => Some(c@),
                None => None,
            },
        ),
{
    let base = String::from_str("https://api.datadoghq.com/api/v2/events").concat(
        "?filter[query]=",
    ).concat(encode_component(query.query.as_str()).as_str()).concat("&filter[from]=").concat(
        encode_component(query.from.as_str()).as_str(),
    ).concat("&filter[to]=").concat(encode_component(query.to.as_str()).as_str()).concat(
        "&page[limit]=",
    ).concat(decimal_text(page_size).as_str());
    match cursor {
        Some(c) => {
            let r = base.concat("&page[cursor]=").concat(encode_component(c.as_str()).as_str());
            assert(r@ =~= events_page_url(query@, page_size as nat, Some(c@)));
            r
        },
        None => {
            assert(base@ =~= events_page_url(query@, page_size as nat, None));
            base
        },
    }
}

} // verus!
