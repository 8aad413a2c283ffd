//! What the panes and overlays draw: the dashboard table's cells, the
//! cursor column of a one-line input popup, the streaming indicator's label
//! and the picker footers' texts. The terminal layer lays these out.

use vstd::prelude::*;
use vstd::string::*;
use crate::clock::{is_timestamp_ns, now_nanos};
use crate::dashboard::{DashboardState, EntryView};
use crate::line_input::LineInput;
use crate::lifecycle::ActorLifecycle;
use crate::session::ChatSessionState;

verus! {

/// The State column's text for a lifecycle.
pub open spec fn spec_lifecycle_label(lc: ActorLifecycle) -> Seq<char> {
    match lc {
        ActorLifecycle::Starting => "Starting"@,
        ActorLifecycle::Running => "Running"@,
        ActorLifecycle::Dead => "Dead"@,
    }
}

/// The State column's text for a lifecycle.
pub fn lifecycle_label(lc: ActorLifecycle) -> (r: &'static str)
    ensures
        r@ == spec_lifecycle_label(lc),
{
    match lc {
        ActorLifecycle::Starting => "Starting",
        ActorLifecycle::Running => "Running",
        ActorLifecycle::Dead => "Dead",
    }
}

/// The cells of one dashboard table row.
#[derive(Debug)]
pub struct DashboardRowText {
    pub name: String,
    pub description: String,
    pub state: &'static str,
    pub notes: String,
}

/// An optional text, empty when absent.
pub open spec fn or_empty(s: Option<Seq<char>>) -> Seq<char> {
    match s {
        Some(t) => t,
        None => Seq::empty(),
    }
}

/// Whether `row` holds the cells drawn for the dashboard entry `e`: its
/// name, its description (empty when absent), its lifecycle's label and its
/// status message (empty when absent).
pub open spec fn row_shows(row: DashboardRowText, e: EntryView) -> bool {
    &&& row.name@ == e.name
    &&& row.description@ == or_empty(e.description)
    &&& row.state@ == spec_lifecycle_label(e.lifecycle)
    &&& row.notes@ == or_empty(e.status_message)
}

/// An optional string's text, empty when absent.
fn text_or_empty(s: &Option<String>) -> (r: String)
    ensures
        r@ == or_empty(s.deep_view()),
{
    match s {
        Some(t) => t.clone(),
        None => String::new(),
    }
}

/// The dashboard table's rows, one per actor in display order.
pub fn dashboard_rows(dashboard: &DashboardState) -> (r: Vec<DashboardRowText>)
    ensures
        r@.len() == dashboard@.entries.len(),
        forall|i: int| 0 <= i < r@.len() ==> row_shows(#[trigger] r@[i], dashboard@.entries[i]),
{
    let actors = dashboard.actors();
    let mut rows: Vec<DashboardRowText> = Vec::new();
    let mut i: usize = 0;
    while i < actors.len()
        invariant
            i <= actors@.len(),
            actors@.len() == dashboard@.entries.len(),
            forall|k: int| 0 <= k < actors@.len() ==> #[trigger] actors@[k]@ == dashboard@.entries[k],
            rows@.len() == i,
            forall|k: int| 0 <= k < i ==> row_shows(#[trigger] rows@[k], dashboard@.entries[k]),
        decreases actors.len() - i,
    {
        let entry = actors[i];
        let row = DashboardRowText {
            name: entry.name.clone(),
            description: text_or_empty(&entry.description),
            state: lifecycle_label(entry.lifecycle),
            notes: text_or_empty(&entry.status_message),
        };
        assert(entry@ == dashboard@.entries[i as int]);
        assert(row_shows(row, dashboard@.entries[i as int]));
        rows.push(row);
        i += 1;
    }
    rows
}

/// The number of extended grapheme clusters in `s`, as the
/// unicode-segmentation crate segments it.
pub uninterp spec fn extended_grapheme_count(s: Seq<char>) -> nat;

/// Counts the extended grapheme clusters of `s` with
/// `UnicodeSegmentation::graphemes(s, true)`; the result is the crate's
/// segmentation of `s`, named by [`extended_grapheme_count`].
#[verifier::external_body]
fn grapheme_count(s: &str) -> (r: usize)
    ensures
        r == extended_grapheme_count(s@),
{
    unicode_segmentation::UnicodeSegmentation::graphemes(s, true).count()
}

/// The cursor column inside a popup input line: past the `"> "` prompt
/// and the `graphemes` clusters before the cursor, held inside the line's
/// `inner_width` cells (at most its last cell).
pub open spec fn spec_cursor_column(graphemes: nat, inner_width: u16) -> int {
    let last: int = if inner_width > 0 { inner_width - 1 } else { 0 };
    if graphemes + 2 < last { graphemes + 2int } else { last }
}

/// The cursor column for `graphemes` clusters before the cursor.
pub fn cursor_column(graphemes: usize, inner_width: u16) -> (r: u16)
    ensures
        r == spec_cursor_column(graphemes as nat, inner_width),
{
    let last: u16 = if inner_width > 0 { inner_width - 1 } else { 0 };
    if graphemes < (last as usize) && 2 < (last as usize) - graphemes {
        (graphemes + 2) as u16
    } else {
        last
    }
}

/// The cursor column of a popup input line showing `text` behind the
/// `"> "` prompt: two cells for the prompt plus the grapheme clusters before
/// the cursor, held inside the line's `inner_width` cells. A cursor past the
/// end of the text counts no clusters.
pub fn input_cursor_x(text: &LineInput, inner_width: u16) -> (r: u16)
    ensures
        text.cursor_pos <= text.input@.len() ==> r == spec_cursor_column(
            extended_grapheme_count(text.input@.subrange(0, text.cursor_pos as int)),
            inner_width,
        ),
        text.cursor_pos > text.input@.len() ==> r == spec_cursor_column(0, inner_width),
{
    let count = if text.cursor_pos <= text.input.as_str().unicode_len() {
        let before = text.input.as_str().substring_char(0, text.cursor_pos);
        grapheme_count(before)
    } else {
        0
    };
    cursor_column(count, inner_width)
}

/// What the project-add input resolved to, against the active session's
/// working directory.
#[derive(Debug, PartialEq, Eq)]
pub enum CwdResolution {
    /// The input names this existing directory.
    Valid(String),
    /// The input resolves to this path, which is not a directory.
    NotADir(String),
    /// Nothing has been typed.
    Empty,
}

/// How a validation footer is styled.
#[derive(Debug, Clone, Copy, PartialEq, Eq)]
pub enum FooterTone {
    Success,
    Error,
    Muted,
}

/// The live-validation footer under the project-add input.
#[derive(Debug)]
pub struct ValidationFooter {
    pub tone: FooterTone,
    pub text: String,
}

/// The footer's text for a resolution: a check mark and the resolved path,
/// a cross and the offending path, or a hint while the input is empty.
pub open spec fn spec_footer_text(res: CwdResolution) -> Seq<char> {
    match res {
        CwdResolution::Valid(path) => "\u{2713} "@ + path@,
        CwdResolution::NotADir(path) => "\u{2717} "@ + "not a directory: "@ + path@,
        CwdResolution::Empty => "type a path (use ~ or a relative path)"@,
    }
}

/// The footer's tone for a resolution.
pub open spec fn spec_footer_tone(res: CwdResolution) -> FooterTone {
    match res {
        CwdResolution::Valid(_) => FooterTone::Success,
        CwdResolution::NotADir(_) => FooterTone::Error,
        CwdResolution::Empty => FooterTone::Muted,
    }
}

/// The live-validation footer for `resolution`.
pub fn validation_footer(resolution: &CwdResolution) -> (r: ValidationFooter)
    ensures
        r.tone == spec_footer_tone(*resolution),
        r.text@ == spec_footer_text(*resolution),
{
    match resolution {
        CwdResolution::Valid(path) => ValidationFooter {
            tone: FooterTone::Success,
            text: String::from_str("\u{2713} ").concat(path.as_str()),
        },
        CwdResolution::NotADir(path) => ValidationFooter {
            tone: FooterTone::Error,
            text: String::from_str("\u{2717} ").concat("not a directory: ").concat(path.as_str()),
        },
        CwdResolution::Empty => ValidationFooter {
            tone: FooterTone::Muted,
            text: String::from_str("type a path (use ~ or a relative path)"),
        },
    }
}

/// The streaming indicator's label: `" Working..."` while a background
/// operation runs, `" Streaming..."` while a response streams, nothing when
/// idle.
pub fn streaming_indicator_label(session: &ChatSessionState) -> (r: Option<&'static str>)
    ensures
        session@.busy ==> (r matches Some(l) && l@ == " Working..."@),
        !session@.busy && session@.streaming ==> (r matches Some(l) && l@ == " Streaming..."@),
        !session@.busy && !session@.streaming ==> r is None,
{
    if session.is_busy() {
        Some(" Working...")
    } else if session.streaming {
        Some(" Streaming...")
    } else {
        None
    }
}

/// The decimal digits of `n`, most significant first.
pub open spec fn spec_decimal(n: nat) -> Seq<char>
    decreases n,
{
    let d = ((n % 10) + 48) as char;
    if n < 10 {
        seq![d]
    } else {
        spec_decimal(n / 10).push(d)
    }
}

/// The digit `d` as a one-character string.
fn digit_str(d: u64) -> (r: &'static str)
    requires
        d < 10,
    ensures
        r@ == seq![((d + 48) as char)],
{
    match d {
        0 => {
            proof {
                reveal_strlit("0");
            }
            "0"
        },
        1 => {
            proof {
                reveal_strlit("1");
            }
            "1"
        },
        2 => {
            proof {
                reveal_strlit("2");
            }
            "2"
        },
        3 => {
            proof {
                reveal_strlit("3");
            }
            "3"
        },
        4 => {
            proof {
                reveal_strlit("4");
            }
            "4"
        },
        5 => {
            proof {
                reveal_strlit("5");
            }
            "5"
        },
        6 => {
            proof {
                reveal_strlit("6");
            }
            "6"
        },
        7 => {
            proof {
                reveal_strlit("7");
            }
            "7"
        },
        8 => {
            proof {
                reveal_strlit("8");
            }
            "8"
        },
        _ => {
            proof {
                reveal_strlit("9");
            }
            "9"
        },
    }
}

/// Writes `n` in decimal, most significant digit first.
fn decimal(n: u64) -> (r: String)
    ensures
        r@ == spec_decimal(n as nat),
{
    let mut acc = String::from_str(digit_str(n % 10));
    let mut rest: u64 = n / 10;
    proof {
        if rest > 0 {
            assert(spec_decimal(n as nat) =~= spec_decimal(rest as nat) + acc@);
        }
    }
    while rest > 0
        invariant
            rest > 0 ==> spec_decimal(n as nat) == spec_decimal(rest as nat) + acc@,
            rest == 0 ==> spec_decimal(n as nat) == acc@,
        decreases rest,
    {
        let ghost before = acc@;
        let ghost r0 = rest;
        acc = String::from_str(digit_str(rest % 10)).concat(acc.as_str());
        rest = rest / 10;
        proof {
            let d = ((r0 % 10) + 48) as char;
            if rest > 0 {
                assert(spec_decimal(r0 as nat) == spec_decimal(rest as nat).push(d));
                assert(spec_decimal(rest as nat).push(d) + before =~= spec_decimal(rest as nat) + acc@);
            } else {
                assert(spec_decimal(r0 as nat) == seq![d]);
                assert(seq![d] + before =~= acc@);
            }
        }
    }
    acc
}

/// The coarse age of a cache populated `secs` seconds ago: under a minute
/// in seconds (`"Xs ago"`), under an hour in minutes (`"Xm ago"`), else in
/// hours (`"Xh ago"`).
pub open spec fn spec_age_label(secs: nat) -> Seq<char> {
    if secs < 60 {
        spec_decimal(secs) + "s ago"@
    } else if secs < 3600 {
        spec_decimal(secs / 60) + "m ago"@
    } else {
        spec_decimal(secs / 3600) + "h ago"@
    }
}

/// The coarse age of a cache populated `secs` seconds ago.
pub fn age_label(secs: u64) -> (r: String)
    ensures
        r@ == spec_age_label(secs as nat),
{
    if secs < 60 {
        decimal(secs).concat("s ago")
    } else if secs < 3600 {
        decimal(secs / 60).concat("m ago")
    } else {
        decimal(secs / 3600).concat("h ago")
    }
}

/// Whole seconds from `then_ns` to `now_ns` (nanoseconds), truncated;
/// none when `then_ns` is in the future.
pub open spec fn spec_elapsed_secs(now_ns: i128, then_ns: i128) -> nat {
    if now_ns > then_ns {
        ((now_ns - then_ns) / 1_000_000_000int) as nat
    } else {
        0
    }
}

/// The age of a cache populated at `fetched_at_ns`, seen at `now_ns` (both
/// timestamps, in nanoseconds).
pub fn age_at(now_ns: i128, fetched_at_ns: i128) -> (r: String)
    requires
        is_timestamp_ns(now_ns),
        is_timestamp_ns(fetched_at_ns),
    ensures
        r@ == spec_age_label(spec_elapsed_secs(now_ns, fetched_at_ns)),
{
    let secs: u64 = if now_ns > fetched_at_ns {
        ((now_ns - fetched_at_ns) / 1_000_000_000) as u64
    } else {
        0
    };
    age_label(secs)
}

/// The age of a cache populated at `fetched_at_ns`, by the system clock;
/// none when the clock reads a time no timestamp can hold.
pub fn format_age(fetched_at_ns: i128) -> (r: Option<String>)
    requires
        is_timestamp_ns(fetched_at_ns),
    ensures
        r matches Some(s) ==> exists|now: i128|
            is_timestamp_ns(now) && s@ == #[trigger] spec_age_label(spec_elapsed_secs(now, fetched_at_ns)),
{
    match now_nanos() {
        Some(now) => Some(age_at(now, fetched_at_ns)),
        None => None,
    }
}

/// A row of the endpoint picker, as its footer reads it.
#[derive(Debug)]
pub struct EndpointEntry {
    pub provider_name: String,
    /// Whether this endpoint is the pinned one.
    pub is_active: bool,
}

/// The name shown as the endpoint routing: the first pinned entry's
/// provider, else `auto-route`.
pub open spec fn spec_pinned_endpoint(items: Seq<EndpointEntry>) -> Seq<char>
    decreases items.len(),
{
    if items.len() == 0 {
        "auto-route"@
    } else if items[0].is_active {
        items[0].provider_name@
    } else {
        spec_pinned_endpoint(items.drop_first())
    }
}

/// The name shown as the endpoint routing.
pub fn pinned_endpoint_name(items: &Vec<EndpointEntry>) -> (r: String)
    ensures
        r@ == spec_pinned_endpoint(items@),
{
    let mut i: usize = 0;
    assert(items@.subrange(0, items@.len() as int) =~= items@);
    while i < items.len()
        invariant
            i <= items@.len(),
            spec_pinned_endpoint(items@) == spec_pinned_endpoint(items@.subrange(i as int, items@.len() as int)),
        decreases items.len() - i,
    {
        let ghost rest = items@.subrange(i as int, items@.len() as int);
        assert(rest[0] == items@[i as int]);
        assert(rest.drop_first() =~= items@.subrange(i + 1, items@.len() as int));
        if items[i].is_active {
            return items[i].provider_name.clone();
        }
        i += 1;
    }
    String::from_str("auto-route")
}

/// The number of `true` flags.
pub open spec fn count_true(flags: Seq<bool>) -> nat
    decreases flags.len(),
{
    if flags.len() == 0 {
        0
    } else {
        count_true(flags.drop_last()) + if flags.last() { 1nat } else { 0nat }
    }
}

/// The number of enabled entries, from their `enabled` flags.
pub fn count_enabled(flags: &Vec<bool>) -> (r: usize)
    ensures
        r == count_true(flags@),
{
    let mut n: usize = 0;
    let mut i: usize = 0;
    while i < flags.len()
        invariant
            i <= flags@.len(),
            n == count_true(flags@.subrange(0, i as int)),
            n <= i,
        decreases flags.len() - i,
    {
        assert(flags@.subrange(0, i + 1).drop_last() =~= flags@.subrange(0, i as int));
        if flags[i] {
            n += 1;
        }
        i += 1;
    }
    assert(flags@.subrange(0, flags@.len() as int) =~= flags@);
    n
}

/// The tool picker's footer for the entries' `enabled` flags.
pub open spec fn spec_tool_footer(flags: Seq<bool>) -> Seq<char> {
    " TAB toggle · "@ + spec_decimal(count_true(flags)) + "/"@ + spec_decimal(flags.len())
        + " enabled · Enter confirm · ESC cancel "@
}

/// The tool picker's footer: how many tools are enabled out of how many.
pub fn tool_picker_footer(flags: &Vec<bool>) -> (r: String)
    ensures
        r@ == spec_tool_footer(flags@),
{
    let enabled = count_enabled(flags);
    let total = flags.len();
    String::from_str(" TAB toggle · ").concat(decimal(enabled as u64).as_str()).concat("/").concat(
        decimal(total as u64).as_str(),
    ).concat(" enabled · Enter confirm · ESC cancel ")
}

/// The skill picker footer's counting part.
pub open spec fn spec_skill_footer_tail(flags: Seq<bool>) -> Seq<char> {
    "refresh · "@ + spec_decimal(count_true(flags)) + "/"@ + spec_decimal(flags.len())
        + " enabled · Enter confirm · ESC cancel"@
}

/// The skill picker footer's counting part: how many skills are enabled out
/// of how many.
pub fn skill_picker_footer_tail(flags: &Vec<bool>) -> (r: String)
    ensures
        r@ == spec_skill_footer_tail(flags@),
{
    let enabled = count_enabled(flags);
    let total = flags.len();
    String::from_str("refresh · ").concat(decimal(enabled as u64).as_str()).concat("/").concat(
        decimal(total as u64).as_str(),
    ).concat(" enabled · Enter confirm · ESC cancel")
}


/// How a span of a picker footer is styled.
#[derive(Debug, Clone, Copy, PartialEq, Eq, Structural)]
pub enum SpanTone {
    /// Muted text.
    Muted,
    /// The primary text colour.
    Primary,
    /// The accent of a key or an action.
    Action,
}

/// A styled span of a picker footer.
#[derive(Debug)]
pub struct FooterSpan {
    pub tone: SpanTone,
    pub text: String,
}

/// A footer span as a tone and its text.
pub open spec fn span_view(s: FooterSpan) -> (SpanTone, Seq<char>) {
    (s.tone, s.text@)
}

/// The endpoint picker's footer line: the routing (the pinned endpoint, or
/// `auto-route`), the key hints, then `fetching…` while a fetch is in
/// flight, else the cache's age when it was ever populated.
pub open spec fn spec_endpoint_footer(
    items: Seq<EndpointEntry>,
    loading: bool,
    fetched_at_ns: Option<i128>,
    now_ns: i128,
) -> Seq<(SpanTone, Seq<char>)> {
    let base = seq![
        (SpanTone::Muted, "Routing: "@),
        (SpanTone::Primary, spec_pinned_endpoint(items)),
        (SpanTone::Muted, "  "@),
        (SpanTone::Action, "Enter "@),
        (SpanTone::Muted, "pin \u{b7} "@),
        (SpanTone::Action, "ESC "@),
        (SpanTone::Muted, "cancel"@),
    ];
    if loading {
        base + seq![(SpanTone::Muted, "  "@), (SpanTone::Action, "fetching\u{2026}"@)]
    } else {
        match fetched_at_ns {
            Some(t) => base + seq![
                (SpanTone::Muted, "  "@),
                (SpanTone::Muted, "fetched "@ + spec_age_label(spec_elapsed_secs(now_ns, t))),
            ],
            None => base,
        }
    }
}

/// A footer span of tone `tone` and text `text`.
fn span(tone: SpanTone, text: &str) -> (r: FooterSpan)
    ensures
        span_view(r) == (tone, text@),
{
    FooterSpan { tone, text: String::from_str(text) }
}

/// The endpoint picker's footer line, seen at `now_ns`.
pub fn endpoint_footer_spans(
    items: &Vec<EndpointEntry>,
    loading: bool,
    fetched_at_ns: Option<i128>,
    now_ns: i128,
) -> (r: Vec<FooterSpan>)
    requires
        is_timestamp_ns(now_ns),
        fetched_at_ns matches Some(t) ==> is_timestamp_ns(t),
    ensures
        r@.map_values(|s: FooterSpan| span_view(s)) == spec_endpoint_footer(items@, loading, fetched_at_ns, now_ns),
{
    let mut spans: Vec<FooterSpan> = Vec::new();
    spans.push(span(SpanTone::Muted, "Routing: "));
    spans.push(FooterSpan { tone: SpanTone::Primary, text: pinned_endpoint_name(items) });
    spans.push(span(SpanTone::Muted, "  "));
    spans.push(span(SpanTone::Action, "Enter "));
    spans.push(span(SpanTone::Muted, "pin \u{b7} "));
    spans.push(span(SpanTone::Action, "ESC "));
    spans.push(span(SpanTone::Muted, "cancel"));
    if loading {
        spans.push(span(SpanTone::Muted, "  "));
        spans.push(span(SpanTone::Action, "fetching\u{2026}"));
    } else {
        match fetched_at_ns {
            Some(t) => {
                spans.push(span(SpanTone::Muted, "  "));
                let age = age_at(now_ns, t);
                spans.push(FooterSpan { tone: SpanTone::Muted, text: String::from_str("fetched ").concat(age.as_str()) });
            },
            None => {},
        }
    }
    assert(spans@.map_values(|s: FooterSpan| span_view(s)) =~= spec_endpoint_footer(items@, loading, fetched_at_ns, now_ns));
    spans
}

} // verus!
