use vstd::prelude::*;
use vstd::string::*;

use chrono::{DateTime, Utc};
use colored::Colorize;

use crate::entries::{opt_text, EventAttributes, EventEntry, LogEntry};
use crate::text::{occurs_in, same_text};

verus! {

/// The UTC `YYYY-MM-DD HH:MM:SS` form of an RFC 3339 timestamp, or `None`
/// where the text is not one.
pub uninterp spec fn utc_stamp_of(ts: Seq<char>) -> Option<Seq<char>>;

/// Relies on chrono's `DateTime::parse_from_rfc3339`, then `with_timezone(&Utc)`
/// and `format("%Y-%m-%d %H:%M:%S")`: the text depends on `ts` alone.
#[verifier::external_body]
fn utc_stamp(ts: &str) -> (r: Option<String>)
    ensures
        match r {
            Some(x) => utc_stamp_of(ts@) == Some(x@),
            None => utc_stamp_of(ts@) is None,
        },
{
    DateTime::parse_from_rfc3339(ts).ok().map(
        |dt| dt.with_timezone(&Utc).format("%Y-%m-%d %H:%M:%S").to_string(),
    )
}

/// The Unicode upper case of a text.
pub uninterp spec fn upper_of(s: Seq<char>) -> Seq<char>;

/// Relies on `str::to_uppercase`: the result depends on the characters alone.
#[verifier::external_body]
fn to_upper(s: &str) -> (r: String)
    ensures
        r@ == upper_of(s@),
{
    s.to_uppercase()
}

/// The Unicode lower case of a text.
pub uninterp spec fn lower_of(s: Seq<char>) -> Seq<char>;

/// Relies on `str::to_lowercase`: the result depends on the characters alone.
#[verifier::external_body]
fn to_lower(s: &str) -> (r: String)
    ensures
        r@ == lower_of(s@),
{
    s.to_lowercase()
}

/// The sequence that ends a styled run on a terminal.
pub open spec fn reset_code() -> Seq<char> {
    "\x1B[0m"@
}

/// `out` shows the text `s` in the style that `code` starts: `s` itself where
/// colour is off, else `code`, `s` and the reset sequence.
pub open spec fn styled(out: Seq<char>, s: Seq<char>, code: Seq<char>) -> bool {
    out == s || out == code + s + reset_code()
}

/// The sequence that starts the colour of a status.
pub open spec fn tint_code(t: Tint) -> Seq<char> {
    match t {
        Tint::RedBold => "\x1B[1;31m"@,
        Tint::Yellow => "\x1B[33m"@,
        Tint::Green => "\x1B[32m"@,
        Tint::Blue => "\x1B[34m"@,
        Tint::Cyan => "\x1B[36m"@,
        Tint::Plain => Seq::empty(),
    }
}

/// The sequence that starts the dimmed (bright black) style.
pub open spec fn dim_code() -> Seq<char> {
    "\x1B[90m"@
}

/// `out` shows `s` in the colour `t`; a plain text is shown as it is.
pub open spec fn painted(out: Seq<char>, s: Seq<char>, t: Tint) -> bool {
    if t == Tint::Plain {
        out == s
    } else {
        styled(out, s, tint_code(t))
    }
}

/// Relies on colored's `red` and `bold`, and the `Display` of its strings:
/// where colour is on, the text comes between `ESC[1;31m` and the reset;
/// whether it is on depends on the terminal and the environment.
#[verifier::external_body]
fn paint_red_bold(s: &str) -> (r: String)
    ensures
        !occurs_in(reset_code(), s@) ==> styled(r@, s@, tint_code(Tint::RedBold)),
{
    s.red().bold().to_string()
}

/// Relies on colored's `yellow`: where colour is on, the text comes between
/// `ESC[33m` and the reset; whether it is on depends on the environment.
#[verifier::external_body]
fn paint_yellow(s: &str) -> (r: String)
    ensures
        !occurs_in(reset_code(), s@) ==> styled(r@, s@, tint_code(Tint::Yellow)),
{
    s.yellow().to_string()
}

/// Relies on colored's `green`: where colour is on, the text comes between
/// `ESC[32m` and the reset; whether it is on depends on the environment.
#[verifier::external_body]
fn paint_green(s: &str) -> (r: String)
    ensures
        !occurs_in(reset_code(), s@) ==> styled(r@, s@, tint_code(Tint::Green)),
{
    s.green().to_string()
}

/// Relies on colored's `blue`: where colour is on, the text comes between
/// `ESC[34m` and the reset; whether it is on depends on the environment.
#[verifier::external_body]
fn paint_blue(s: &str) -> (r: String)
    ensures
        !occurs_in(reset_code(), s@) ==> styled(r@, s@, tint_code(Tint::Blue)),
{
    s.blue().to_string()
}

/// Relies on colored's `cyan`: where colour is on, the text comes between
/// `ESC[36m` and the reset; whether it is on depends on the environment.
#[verifier::external_body]
fn paint_cyan(s: &str) -> (r: String)
    ensures
        !occurs_in(reset_code(), s@) ==> styled(r@, s@, tint_code(Tint::Cyan)),
{
    s.cyan().to_string()
}

/// Relies on colored's `bright_black`: where colour is on, the text comes between
/// `ESC[90m` and the reset; whether it is on depends on the environment.
#[verifier::external_body]
fn paint_dim(s: &str) -> (r: String)
    ensures
        !occurs_in(reset_code(), s@) ==> styled(r@, s@, dim_code()),
{
    s.bright_black().to_string()
}

/// Relies on colored's `normal`: a string without style displays as its text.
#[verifier::external_body]
fn paint_plain(s: &str) -> (r: String)
    ensures
        r@ == s@,
{
    s.normal().to_string()
}

/// The colour a status is shown in.
#[derive(Debug, Clone, Copy, PartialEq, Eq)]
pub enum Tint {
    RedBold,
    Yellow,
    Green,
    Blue,
    Cyan,
    Plain,
}

/// The pieces of one output line, before colour is applied.
pub struct LineParts {
    /// The time, shown dimmed.
    pub stamp: String,
    /// The status, padded to five characters.
    pub status: String,
    pub tint: Tint,
    /// The message of a log, or the title of an event.
    pub text: String,
    /// An event's message, shown dimmed after the title; empty for none.
    pub note: String,
}

/// What stands in place of a missing or unreadable timestamp.
pub open spec fn no_stamp() -> Seq<char> {
    "--------------------"@
}

/// The time column of a line.
pub open spec fn stamp_text(ts: Option<Seq<char>>) -> Seq<char> {
    match ts {
        Some(t) => match utc_stamp_of(t) {
            Some(x) => x,
            None => no_stamp(),
        },
        None => no_stamp(),
    }
}

/// A text padded with spaces on the right to five characters.
pub open spec fn padded(s: Seq<char>) -> Seq<char> {
    if s.len() >= 5 {
        s
    } else {
        s + Seq::new((5 - s.len()) as nat, |i: int| ' ')
    }
}

/// A log's status in upper case, or dashes.
pub open spec fn log_status(status: Option<Seq<char>>) -> Seq<char> {
    match status {
        Some(s) => upper_of(s),
        None => "-----"@,
    }
}

/// The colour of an upper-case log status.
pub open spec fn log_tint(u: Seq<char>) -> Tint {
    if u == "ERROR"@ || u == "CRITICAL"@ || u == "EMERGENCY"@ || u == "ALERT"@ {
        Tint::RedBold
    } else if u == "WARN"@ || u == "WARNING"@ {
        Tint::Yellow
    } else if u == "INFO"@ {
        Tint::Green
    } else if u == "DEBUG"@ {
        Tint::Blue
    } else if u == "TRACE"@ {
        Tint::Cyan
    } else {
        Tint::Plain
    }
}

/// An event's title, else the event's name, else a stock title.
pub open spec fn event_title(a: EventAttributes) -> Seq<char> {
    match a.attributes {
        Some(inner) => match inner.title {
            Some(t) => t@,
            None => match inner.evt {
                Some(e) => match e.name {
                    Some(n) => n@,
                    None => "Untitled Event"@,
                },
                None => "Untitled Event"@,
            },
        },
        None => "Untitled Event"@,
    }
}

/// An event's status, else `info`.
pub open spec fn event_status(a: EventAttributes) -> Seq<char> {
    match a.attributes {
        Some(inner) => match inner.status {
            Some(s) => s@,
            None => "info"@,
        },
        None => "info"@,
    }
}

/// The colour of a lower-case event status.
pub open spec fn event_tint(l: Seq<char>) -> Tint {
    if l == "error"@ {
        Tint::RedBold
    } else if l == "warning"@ || l == "warn"@ {
        Tint::Yellow
    } else if l == "success"@ || l == "ok"@ {
        Tint::Green
    } else if l == "info"@ {
        Tint::Blue
    } else {
        Tint::Plain
    }
}

/// An optional text, empty when absent.
pub open spec fn text_or_empty(s: Option<Seq<char>>) -> Seq<char> {
    match s {
        Some(t) => t,
        None => Seq::empty(),
    }
}


/// Pads a text with spaces on the right to five characters.
pub fn pad_status(s: String) -> (r: String)
    ensures
        r@ == padded(s@),
{
    let n = s.as_str().unicode_len();
    let mut r = s;
    let mut k: usize = n;
    while k < 5
        invariant
            n == s@.len(),
            k >= n,
            n < 5 ==> k <= 5,
            n >= 5 ==> k == n,
            r@ == s@ + Seq::new((k - n) as nat, |i: int| ' '),
        decreases 5 - k,
    {
        proof {
            reveal_strlit(" ");
        }
        r.append(" ");
        assert(Seq::new((k + 1 - n) as nat, |i: int| ' ') =~= Seq::new(
            (k - n) as nat,
            |i: int| ' ',
        ).push(' '));
        assert(r@ =~= s@ + Seq::new((k + 1 - n) as nat, |i: int| ' '));
        k = k + 1;
    }
    r
}

/// The time column for an optional timestamp.
fn stamp_column(ts: &Option<String>) -> (r: String)
    ensures
        r@ == stamp_text(opt_text(*ts)),
{
    match ts {
        Some(t) => match utc_stamp(t.as_str()) {
            Some(x) => x,
            None => String::from_str("--------------------"),
        },
        None => String::from_str("--------------------"),
    }
}

/// An optional text, or an empty one.
fn text_or_blank(s: &Option<String>) -> (r: String)
    ensures
        r@ == text_or_empty(opt_text(*s)),
{
    match s {
        Some(t) => t.clone(),
        None => String::new(),
    }
}

/// The colour of an upper-case log status.
pub fn log_tint_of(u: &str) -> (r: Tint)
    ensures
        r == log_tint(u@),
{
    if same_text(u, "ERROR") || same_text(u, "CRITICAL") || same_text(u, "EMERGENCY")
        || same_text(u, "ALERT") {
        Tint::RedBold
    } else if same_text(u, "WARN") || same_text(u, "WARNING") {
        Tint::Yellow
    } else if same_text(u, "INFO") {
        Tint::Green
    } else if same_text(u, "DEBUG") {
        Tint::Blue
    } else if same_text(u, "TRACE") {
        Tint::Cyan
    } else {
        Tint::Plain
    }
}

/// The colour of a lower-case event status.
pub fn event_tint_of(l: &str) -> (r: Tint)
    ensures
        r == event_tint(l@),
{
    if same_text(l, "error") {
        Tint::RedBold
    } else if same_text(l, "warning") || same_text(l, "warn") {
        Tint::Yellow
    } else if same_text(l, "success") || same_text(l, "ok") {
        Tint::Green
    } else if same_text(l, "info") {
        Tint::Blue
    } else {
        Tint::Plain
    }
}

/// The pieces of a log's line: its UTC time, its status in upper case (dashes
/// without one) padded to five, that status's colour, and its message.
pub fn log_line_parts(entry: &LogEntry) -> (r: LineParts)
    ensures
        r.stamp@ == stamp_text(opt_text(entry.attributes.timestamp)),
        r.status@ == padded(log_status(opt_text(entry.attributes.status))),
        r.tint == log_tint(log_status(opt_text(entry.attributes.status))),
        r.text@ == text_or_empty(opt_text(entry.attributes.message)),
        r.note@ == Seq::<char>::empty(),
{
    let stamp = stamp_column(&entry.attributes.timestamp);
    let upper = match &entry.attributes.status {
        Some(s) => to_upper(s.as_str()),
        None => String::from_str("-----"),
    };
    let tint = log_tint_of(upper.as_str());
    let status = pad_status(upper);
    let text = text_or_blank(&entry.attributes.message);
    LineParts { stamp, status, tint, text, note: String::new() }
}

/// The title of an event: its title, else its event name, else a stock one.
fn title_of(a: &EventAttributes) -> (r: String)
    ensures
        r@ == event_title(*a),
{
    match &a.attributes {
        Some(inner) => match &inner.title {
            Some(t) => t.clone(),
            None => match &inner.evt {
                Some(e) => match &e.name {
                    Some(n) => n.clone(),
                    None => String::from_str("Untitled Event"),
                },
                None => String::from_str("Untitled Event"),
            },
        },
        None => String::from_str("Untitled Event"),
    }
}

/// The status of an event, else `info`.
fn status_of(a: &EventAttributes) -> (r: String)
    ensures
        r@ == event_status(*a),
{
    match &a.attributes {
        Some(inner) => match &inner.status {
            Some(s) => s.clone(),
            None => String::from_str("info"),
        },
        None => String::from_str("info"),
    }
}

/// The pieces of an event's line: its UTC time, its status in upper case
/// padded to five, the colour that the lower-case status gets, its title and
/// its message.
pub fn event_line_parts(entry: &EventEntry) -> (r: LineParts)
    ensures
        r.stamp@ == stamp_text(opt_text(entry.attributes.timestamp)),
        r.status@ == padded(upper_of(event_status(entry.attributes))),
        r.tint == event_tint(lower_of(event_status(entry.attributes))),
        r.text@ == event_title(entry.attributes),
        r.note@ == text_or_empty(opt_text(entry.attributes.message)),
{
    let stamp = stamp_column(&entry.attributes.timestamp);
    let status = status_of(&entry.attributes);
    let lower = to_lower(status.as_str());
    let tint = event_tint_of(lower.as_str());
    let upper = to_upper(status.as_str());
    let padded_status = pad_status(upper);
    let text = title_of(&entry.attributes);
    let note = text_or_blank(&entry.attributes.message);
    LineParts { stamp, status: padded_status, tint, text, note }
}

/// A text in the colour `tint`.
fn paint(s: &str, tint: Tint) -> (r: String)
    ensures
        tint == Tint::Plain ==> r@ == s@,
        !occurs_in(reset_code(), s@) ==> painted(r@, s@, tint),
{
    match tint {
        Tint::RedBold => paint_red_bold(s),
        Tint::Yellow => paint_yellow(s),
        Tint::Green => paint_green(s),
        Tint::Blue => paint_blue(s),
        Tint::Cyan => paint_cyan(s),
        Tint::Plain => paint_plain(s),
    }
}

/// A log as one line: `[time] STATUS | message`, the time dimmed and the
/// status in its colour.
pub fn format_log_entry(entry: &LogEntry) -> (r: String)
    ensures
        exists|time: Seq<char>, status: Seq<char>|
            r@ == #[trigger] line_of(time, status, text_or_empty(opt_text(entry.attributes.message)))
                && shows_stamp(time, opt_text(entry.attributes.timestamp)) && shows_status(
                status,
                padded(log_status(opt_text(entry.attributes.status))),
                log_tint(log_status(opt_text(entry.attributes.status))),
            ),
{
    let parts = log_line_parts(entry);
    let time = paint_dim(parts.stamp.as_str());
    let status = paint(parts.status.as_str(), parts.tint);
    let r = String::from_str("[").concat(time.as_str()).concat("] ").concat(status.as_str()).concat(
        " | ",
    ).concat(parts.text.as_str());
    assert(r@ =~= line_of(time@, status@, parts.text@));
    r
}

/// The time column shows the line's time, dimmed.
pub open spec fn shows_stamp(time: Seq<char>, ts: Option<Seq<char>>) -> bool {
    !occurs_in(reset_code(), stamp_text(ts)) ==> styled(time, stamp_text(ts), dim_code())
}

/// The status column shows the padded status `text` in the colour `t`.
pub open spec fn shows_status(status: Seq<char>, text: Seq<char>, t: Tint) -> bool {
    !occurs_in(reset_code(), text) ==> painted(status, text, t)
}

/// `[time] status | text`.
pub open spec fn line_of(time: Seq<char>, status: Seq<char>, text: Seq<char>) -> Seq<char> {
    "["@ + time + "] "@ + status + " | "@ + text
}

/// `[time] status | text - note`.
pub open spec fn noted_line_of(
    time: Seq<char>,
    status: Seq<char>,
    text: Seq<char>,
    note: Seq<char>,
) -> Seq<char> {
    line_of(time, status, text) + " - "@ + note
}

/// An event as one line: `[time] STATUS | title`, followed by ` - message`
/// when it has a non-empty message; the time and message dimmed, the status
/// in its colour.
pub fn format_event_entry(entry: &EventEntry) -> (r: String)
    ensures
        text_or_empty(opt_text(entry.attributes.message)).len() == 0 ==> exists|
            time: Seq<char>,
            status: Seq<char>,
        | r@ == #[trigger] line_of(time, status, event_title(entry.attributes)) && shows_stamp(
            time,
            opt_text(entry.attributes.timestamp),
        ) && shows_status(
            status,
            padded(upper_of(event_status(entry.attributes))),
            event_tint(lower_of(event_status(entry.attributes))),
        ),
        text_or_empty(opt_text(entry.attributes.message)).len() > 0 ==> exists|
            time: Seq<char>,
            status: Seq<char>,
            note: Seq<char>,
        | r@ == #[trigger] noted_line_of(time, status, event_title(entry.attributes), note)
            && shows_stamp(time, opt_text(entry.attributes.timestamp)) && shows_status(
            status,
            padded(upper_of(event_status(entry.attributes))),
            event_tint(lower_of(event_status(entry.attributes))),
        ) && (!occurs_in(reset_code(), text_or_empty(opt_text(entry.attributes.message)))
            ==> styled(note, text_or_empty(opt_text(entry.attributes.message)), dim_code())),
{
    let parts = event_line_parts(entry);
    let time = paint_dim(parts.stamp.as_str());
    let status = paint(parts.status.as_str(), parts.tint);
    let line = String::from_str("[").concat(time.as_str()).concat("] ").concat(status.as_str()).concat(
        " | ",
    ).concat(parts.text.as_str());
    assert(line@ =~= line_of(time@, status@, parts.text@));
    if parts.note.as_str().unicode_len() == 0 {
        line
    } else {
        let note = paint_dim(parts.note.as_str());
        let r = line.concat(" - ").concat(note.as_str());
        assert(r@ =~= noted_line_of(time@, status@, parts.text@, note@));
        r
    }
}

} // verus!
