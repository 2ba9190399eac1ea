//! What a stream's pane shows: the columns of each log line, the filter
//! buttons, and the text pieces they are made of.
use chrono::{DateTime, NaiveDateTime, Utc};
use vstd::prelude::*;
use vstd::string::StrSliceExecFns;

use crate::backend::LogCounts;
use crate::data::{DisplaySettings, Level};
use crate::event::DashboardEvent;
use crate::frontend::ScopedUIEvent;
use crate::text::{chars_of, decimal, decimal_string, push_decimal, push_str};

verus! {

/// The marker that separates a crate's directory from a file inside it.
pub open spec fn src_marker() -> Seq<char> {
    seq!['/', 's', 'r', 'c', '/']
}

/// The marker starts at position `i` of `s`.
pub open spec fn marker_at(s: Seq<char>, i: int) -> bool {
    0 <= i && i + 5 <= s.len() && s.subrange(i, i + 5) == src_marker()
}

/// The part of `s` after its last '/', or all of `s` when it has none.
pub open spec fn last_component(s: Seq<char>) -> Seq<char>
    decreases s.len(),
{
    if s.len() == 0 {
        s
    } else if s.last() == '/' {
        Seq::empty()
    } else {
        last_component(s.drop_last()).push(s.last())
    }
}

/// A source path split for display: the crate's directory name and the
/// path of the file inside its `src` directory.
pub struct PathParts<'a> {
    pub project: &'a str,
    pub file: &'a str,
}

fn marker_matches(cs: &Vec<char>, i: usize) -> (b: bool)
    requires
        i + 5 <= cs.len(),
    ensures
        b == marker_at(cs@, i as int),
{
    let b = cs[i] == '/' && cs[i + 1] == 's' && cs[i + 2] == 'r' && cs[i + 3] == 'c' && cs[i + 4] == '/';
    assert(b ==> cs@.subrange(i as int, i + 5) =~= src_marker());
    assert(cs@.subrange(i as int, i + 5) =~= src_marker() ==> cs@.subrange(i as int, i + 5)[0] == '/' && cs@.subrange(i as int, i + 5)[4] == '/');
    b
}

/// Position just after the last '/' among the first `end` characters of
/// `cs`, or 0 when there is none.
fn after_last_slash(cs: &Vec<char>, end: usize) -> (start: usize)
    requires
        end <= cs@.len(),
    ensures
        start <= end,
        cs@.subrange(start as int, end as int) == last_component(cs@.subrange(0, end as int)),
{
    let mut k = end;
    while k > 0 && cs[k - 1] != '/'
        invariant
            k <= end <= cs@.len(),
            last_component(cs@.subrange(0, end as int)) == last_component(cs@.subrange(0, k as int)) + cs@.subrange(k as int, end as int),
        decreases k,
    {
        let ghost pre = cs@.subrange(0, k as int);
        assert(pre.drop_last() =~= cs@.subrange(0, k - 1));
        assert(cs@.subrange(k - 1, end as int) =~= seq![cs@[k - 1]] + cs@.subrange(k as int, end as int));
        assert(last_component(pre) == last_component(pre.drop_last()).push(pre.last()));
        assert(last_component(pre.drop_last()).push(pre.last()) + cs@.subrange(k as int, end as int)
            =~= last_component(pre.drop_last()) + cs@.subrange(k - 1, end as int));
        k = k - 1;
    }
    if k > 0 {
        assert(last_component(cs@.subrange(0, k as int)) =~= Seq::<char>::empty());
    } else {
        assert(last_component(cs@.subrange(0, 0)) =~= Seq::<char>::empty());
    }
    assert(Seq::<char>::empty() + cs@.subrange(k as int, end as int) =~= cs@.subrange(k as int, end as int));
    k
}

/// Where the last marker of `cs` starts, if it has one.
fn find_last_marker(cs: &Vec<char>) -> (found: Option<usize>)
    ensures
        found matches Some(i) ==> marker_at(cs@, i as int) && forall|j: int| marker_at(cs@, j) ==> j <= i,
        found is None ==> forall|j: int| !marker_at(cs@, j),
{
    let n = cs.len();
    if n < 5 {
        return None;
    }
    let mut i = n - 5;
    loop
        invariant
            n == cs@.len(),
            i + 5 <= n,
            forall|j: int| i < j ==> !#[trigger] marker_at(cs@, j),
        decreases i,
    {
        if marker_matches(cs, i) {
            return Some(i);
        }
        if i == 0 {
            assert forall|j: int| !#[trigger] marker_at(cs@, j) by {
                if j == 0 {
                    assert(!marker_at(cs@, 0));
                }
            }
            return None;
        }
        i = i - 1;
    }
}

/// Splits a source path at its last "/src/": the file is what follows it,
/// the project is the last path component before it. A path without
/// "/src/" has an empty project and is the file as a whole.
pub fn path_parts(path: &str) -> (parts: PathParts<'_>)
    ensures
        (exists|i: int| marker_at(path@, i)) ==> exists|i: int| {
            &&& marker_at(path@, i)
            &&& (forall|j: int| marker_at(path@, j) ==> j <= i)
            &&& parts.file@ == path@.subrange(i + 5, path@.len() as int)
            &&& parts.project@ == last_component(path@.subrange(0, i))
        },
        !(exists|i: int| marker_at(path@, i)) ==> parts.project@.len() == 0 && parts.file@ == path@,
{
    let cs = chars_of(path);
    let n = cs.len();
    match find_last_marker(&cs) {
        Some(i) => {
            let start = after_last_slash(&cs, i);
            let project = path.substring_char(start, i);
            let file = path.substring_char(i + 5, n);
            assert(path@.subrange(0, i as int).subrange(start as int, i as int) =~= path@.subrange(start as int, i as int));
            assert(marker_at(path@, i as int));
            PathParts { project, file }
        },
        None => {
            let project = path.substring_char(0, 0);
            let file = path.substring_char(0, n);
            assert(path@.subrange(0, n as int) =~= path@);
            PathParts { project, file }
        },
    }
}

/// One field of an event as shown: key, '=', value.
pub open spec fn field_text(f: (String, String)) -> Seq<char> {
    f.0@ + seq!['='] + f.1@
}

/// The fields as shown, separated by ", ".
pub open spec fn joined_fields(fs: Seq<(String, String)>) -> Seq<char>
    decreases fs.len(),
{
    if fs.len() == 0 {
        Seq::empty()
    } else if fs.len() == 1 {
        field_text(fs[0])
    } else {
        joined_fields(fs.drop_last()) + seq![',', ' '] + field_text(fs.last())
    }
}

/// The text appended to a message for its fields: nothing when there are
/// none, else " {" and the fields and "}".
pub open spec fn fields_text(fs: Seq<(String, String)>) -> Seq<char> {
    if fs.len() == 0 {
        Seq::empty()
    } else {
        seq![' ', '{'] + joined_fields(fs) + seq!['}']
    }
}

/// How the fields text grows: one field reads " {key=value}", and each
/// further field adds ", key=value" before the closing brace.
pub proof fn lemma_fields_text_grows(fs: Seq<(String, String)>, f: (String, String))
    ensures
        fields_text(seq![f]) == seq![' ', '{'] + f.0@ + seq!['='] + f.1@ + seq!['}'],
        fs.len() > 0 ==> fields_text(fs.push(f)) == fields_text(fs).drop_last() + seq![',', ' '] + f.0@ + seq!['='] + f.1@ + seq!['}'],
{
    assert(seq![f][0] == f);
    assert(seq![' ', '{'] + field_text(f) + seq!['}'] =~= seq![' ', '{'] + f.0@ + seq!['='] + f.1@ + seq!['}']);
    if fs.len() > 0 {
        let g = fs.push(f);
        assert(g.drop_last() =~= fs);
        assert(g.last() == f);
        assert((seq![' ', '{'] + joined_fields(fs) + seq!['}']).drop_last() =~= seq![' ', '{'] + joined_fields(fs));
        assert(fields_text(g) =~= fields_text(fs).drop_last() + seq![',', ' '] + f.0@ + seq!['='] + f.1@ + seq!['}']);
    }
}

/// Formats an event's fields, in the order given, as " {key=value, ...}";
/// no fields give the empty string.
pub fn format_fields(fields: &Vec<(String, String)>) -> (formatted: String)
    ensures
        formatted@ == fields_text(fields@),
{
    let mut formatted = String::new();
    let n = fields.len();
    if n == 0 {
        return formatted;
    }
    proof { reveal_strlit(" {"); reveal_strlit(", "); reveal_strlit("="); reveal_strlit("}"); }
    push_str(&mut formatted, " {");
    let mut i: usize = 0;
    while i < n
        invariant
            n == fields@.len(),
            n > 0,
            i <= n,
            formatted@ == seq![' ', '{'] + joined_fields(fields@.take(i as int)),
        decreases n - i,
    {
        proof { reveal_strlit(", "); reveal_strlit("="); }
        let ghost before = formatted@;
        let ghost f = fields@[i as int];
        if i > 0 {
            push_str(&mut formatted, ", ");
        }
        let ghost mid = formatted@;
        push_str(&mut formatted, fields[i].0.as_str());
        push_str(&mut formatted, "=");
        push_str(&mut formatted, fields[i].1.as_str());
        assert(formatted@ =~= mid + field_text(f));
        let ghost next = fields@.take(i + 1);
        assert(next.drop_last() =~= fields@.take(i as int));
        assert(next.last() == f);
        if i == 0 {
            assert(mid =~= seq![' ', '{']);
            assert(joined_fields(next) == field_text(f));
        } else {
            assert(mid =~= before + seq![',', ' ']);
            assert(joined_fields(next) == joined_fields(fields@.take(i as int)) + seq![',', ' '] + field_text(f));
        }
        assert(formatted@ =~= seq![' ', '{'] + joined_fields(next));
        i = i + 1;
    }
    assert(fields@.take(n as int) =~= fields@);
    push_str(&mut formatted, "}");
    formatted
}

#[verifier::external_type_specification]
#[verifier::external_body]
pub struct ExNaiveDateTime(NaiveDateTime);

/// How an instant was made: from milliseconds since the Unix epoch, or
/// from seconds and nanoseconds since it.
#[derive(Debug, Clone, Copy, PartialEq, Eq, Structural)]
pub enum InstantOrigin {
    Millis(i64),
    Seconds(i64, u32),
}

/// A UTC date and time, with the numbers it was made from.
pub struct UtcInstant {
    dt: NaiveDateTime,
    origin: InstantOrigin,
}

impl UtcInstant {
    /// The numbers the instant was made from.
    pub closed spec fn origin(&self) -> InstantOrigin {
        self.origin
    }
}

/// Whether chrono can represent the instant `millis` milliseconds after
/// the Unix epoch: chrono's dates run from January 1 of the year -262143 to
/// December 31 of the year 262142, so the first millisecond in range is
/// -262143-01-01 00:00:00.000 and the last 262142-12-31 23:59:59.999.
pub open spec fn chrono_millis_in_range(millis: i64) -> bool {
    -8_334_601_228_800_000 <= millis <= 8_210_266_876_799_999
}

/// Whether chrono can represent the instant `secs` seconds and `nsecs`
/// nanoseconds after the Unix epoch.
pub uninterp spec fn chrono_seconds_in_range(secs: i64, nsecs: u32) -> bool;

/// The text chrono writes for the instant made from `origin` under the
/// format string `fmt`.
pub uninterp spec fn chrono_format(origin: InstantOrigin, fmt: Seq<char>) -> Seq<char>;

/// The format of timestamps in the log table: day/month/two-digit year,
/// then hours:minutes:seconds.
pub open spec fn dmy_hms_format() -> Seq<char> {
    seq!['%', 'd', '/', '%', 'm', '/', '%', 'y', ' ', '%', 'H', ':', '%', 'M', ':', '%', 'S']
}

/// Calls `chrono::DateTime::<Utc>::from_timestamp_millis`, which returns
/// `None` exactly when the number of milliseconds is out of chrono's date
/// range, and keeps the UTC date and time. The contract states that range
/// and records which number the instant was made from.
#[verifier::external_body]
fn instant_from_millis(millis: i64) -> (r: Option<UtcInstant>)
    ensures
        r is Some <==> chrono_millis_in_range(millis),
        r matches Some(u) ==> u.origin() == InstantOrigin::Millis(millis),
{
    match DateTime::<Utc>::from_timestamp_millis(millis) {
        Some(dt) => Some(UtcInstant { dt: dt.naive_utc(), origin: InstantOrigin::Millis(millis) }),
        None => None,
    }
}

/// Calls `chrono::DateTime::<Utc>::from_timestamp`, which returns `None`
/// exactly when the seconds are out of chrono's range or the nanoseconds
/// are invalid; the epoch itself (0, 0) is in range, as its source shows.
#[verifier::external_body]
fn instant_from_seconds(secs: i64, nsecs: u32) -> (r: Option<UtcInstant>)
    ensures
        r is Some <==> chrono_seconds_in_range(secs, nsecs),
        secs == 0 && nsecs == 0 ==> r is Some,
        r matches Some(u) ==> u.origin() == InstantOrigin::Seconds(secs, nsecs),
{
    match DateTime::<Utc>::from_timestamp(secs, nsecs) {
        Some(dt) => Some(UtcInstant { dt: dt.naive_utc(), origin: InstantOrigin::Seconds(secs, nsecs) }),
        None => None,
    }
}

/// Calls chrono's `format` on the UTC date and time and writes the result
/// to a string; the text is named by the instant's origin and the format. Only the log
/// table's format is admitted, which chrono always renders without error.
#[verifier::external_body]
fn format_instant(instant: &UtcInstant, fmt: &str) -> (text: String)
    requires
        fmt@ == dmy_hms_format(),
    ensures
        text@ == chrono_format(instant.origin(), fmt@),
{
    instant.dt.format(fmt).to_string()
}

/// The instant a timestamp of `timestamp_ms` milliseconds is shown as: the
/// timestamp read as a signed number of milliseconds when chrono can
/// represent it, the Unix epoch otherwise.
pub open spec fn displayed_origin(timestamp_ms: u64) -> InstantOrigin {
    if chrono_millis_in_range(timestamp_ms as i64) {
        InstantOrigin::Millis(timestamp_ms as i64)
    } else {
        InstantOrigin::Seconds(0, 0)
    }
}

/// Formats a timestamp in milliseconds since the Unix epoch as UTC
/// "dd/mm/yy HH:MM:SS"; a timestamp out of range shows the epoch.
pub fn format_timestamp_utc(timestamp_ms: u64) -> (text: String)
    ensures
        text@ == chrono_format(displayed_origin(timestamp_ms), dmy_hms_format()),
{
    let millis = timestamp_ms as i64;
    let instant = match instant_from_millis(millis) {
        Some(u) => u,
        None => match instant_from_seconds(0, 0) {
            Some(u) => u,
            None => vstd::pervasive::unreached(),
        },
    };
    let fmt = "%d/%m/%y %H:%M:%S";
    proof {
        reveal_strlit("%d/%m/%y %H:%M:%S");
        assert(fmt@ =~= dmy_hms_format());
    }
    format_instant(&instant, fmt)
}

/// A colour, as red, green and blue intensities.
#[derive(Debug, Clone, Copy, PartialEq, Eq, Structural)]
pub struct Rgb {
    pub r: u8,
    pub g: u8,
    pub b: u8,
}

pub open spec fn rgb(r: u8, g: u8, b: u8) -> Rgb {
    Rgb { r, g, b }
}

/// The colour of each level in a pane: soft red, amber, neon green, cyan
/// and light purple from `Error` down to `Trace`.
pub open spec fn level_color(level: Level) -> Rgb {
    match level {
        Level::Trace => rgb(189, 147, 249),
        Level::Debug => rgb(139, 233, 253),
        Level::Info => rgb(80, 250, 123),
        Level::Warn => rgb(255, 204, 0),
        Level::Error => rgb(255, 85, 85),
    }
}

/// Grey, for timestamps.
pub open spec fn gray() -> Rgb { rgb(160, 160, 160) }
/// Light blue, for targets and source links.
pub open spec fn light_blue() -> Rgb { rgb(173, 216, 230) }
/// Yellow, for spans.
pub open spec fn yellow() -> Rgb { rgb(255, 255, 0) }
/// Light magenta, for project names.
pub open spec fn light_magenta() -> Rgb { rgb(255, 121, 198) }
/// White, for messages.
pub open spec fn white() -> Rgb { rgb(255, 255, 255) }
/// Light grey, for fields.
pub open spec fn light_gray() -> Rgb { rgb(220, 220, 220) }
/// Black, for text on coloured buttons.
pub open spec fn text_inv() -> Rgb { rgb(0, 0, 0) }

/// The colour of `level` in a pane.
pub fn color_for_log_level(level: &Level) -> (c: Rgb)
    ensures
        c == level_color(*level),
{
    match level {
        Level::Trace => Rgb { r: 189, g: 147, b: 249 },
        Level::Debug => Rgb { r: 139, g: 233, b: 253 },
        Level::Info => Rgb { r: 80, g: 250, b: 123 },
        Level::Warn => Rgb { r: 255, g: 204, b: 0 },
        Level::Error => Rgb { r: 255, g: 85, b: 85 },
    }
}

/// A level's name in capitals.
pub open spec fn level_name(level: Level) -> Seq<char> {
    match level {
        Level::Trace => seq!['T', 'R', 'A', 'C', 'E'],
        Level::Debug => seq!['D', 'E', 'B', 'U', 'G'],
        Level::Info => seq!['I', 'N', 'F', 'O'],
        Level::Warn => seq!['W', 'A', 'R', 'N'],
        Level::Error => seq!['E', 'R', 'R', 'O', 'R'],
    }
}

/// A level's name in capitals.
pub fn level_text(level: &Level) -> (name: &'static str)
    ensures
        name@ == level_name(*level),
{
    match level {
        Level::Trace => {
            proof { reveal_strlit("TRACE"); }
            "TRACE"
        },
        Level::Debug => {
            proof { reveal_strlit("DEBUG"); }
            "DEBUG"
        },
        Level::Info => {
            proof { reveal_strlit("INFO"); }
            "INFO"
        },
        Level::Warn => {
            proof { reveal_strlit("WARN"); }
            "WARN"
        },
        Level::Error => {
            proof { reveal_strlit("ERROR"); }
            "ERROR"
        },
    }
}

/// A piece of text as shown: its characters, colour, monospace font size
/// in points, and whether it is underlined.
#[derive(Debug)]
pub struct TextPiece {
    pub text: String,
    pub color: Rgb,
    pub size: u8,
    pub underline: bool,
}

/// `p` shows `text` in `color` at `size` points, not underlined.
pub open spec fn plain_piece(p: TextPiece, text: Seq<char>, color: Rgb, size: u8) -> bool {
    p.text@ == text && p.color == color && p.size == size && !p.underline
}

/// The columns of the log table.
#[derive(Debug, Clone, Copy, PartialEq, Eq, Structural)]
pub enum LogColumn {
    Timestamp,
    Level,
    Target,
    SpanInfo,
    FileInfo,
    Message,
}

/// The columns that `settings` show, left to right: the timestamp if shown,
/// the level, the target, span and source location if shown, the message.
pub open spec fn columns_shown(settings: DisplaySettings) -> Seq<LogColumn> {
    (if settings.show_timestamps { seq![LogColumn::Timestamp] } else { Seq::empty() })
        + seq![LogColumn::Level]
        + (if settings.show_targets { seq![LogColumn::Target] } else { Seq::empty() })
        + (if settings.show_span_info { seq![LogColumn::SpanInfo] } else { Seq::empty() })
        + (if settings.show_file_info { seq![LogColumn::FileInfo] } else { Seq::empty() })
        + seq![LogColumn::Message]
}

/// Each optional column is shown exactly when its setting is on, and the
/// level and message columns always are.
pub proof fn lemma_columns_follow_settings(settings: DisplaySettings)
    ensures
        columns_shown(settings).contains(LogColumn::Timestamp) <==> settings.show_timestamps,
        columns_shown(settings).contains(LogColumn::Target) <==> settings.show_targets,
        columns_shown(settings).contains(LogColumn::SpanInfo) <==> settings.show_span_info,
        columns_shown(settings).contains(LogColumn::FileInfo) <==> settings.show_file_info,
        columns_shown(settings).contains(LogColumn::Level),
        columns_shown(settings).contains(LogColumn::Message),
        columns_shown(settings)[0] == (if settings.show_timestamps { LogColumn::Timestamp } else { LogColumn::Level }),
        columns_shown(settings).last() == LogColumn::Message,
{
    broadcast use vstd::seq_lib::lemma_seq_concat_contains_all_elements, vstd::seq_lib::lemma_seq_contains,
        vstd::seq_lib::lemma_seq_empty_contains_nothing;
    assert forall|x: LogColumn, y: LogColumn| #[trigger] seq![x].contains(y) <==> x == y by {
        assert(seq![x][0] == x);
    }
}

/// The name in a column's header.
pub open spec fn column_header(c: LogColumn) -> Seq<char> {
    match c {
        LogColumn::Timestamp => seq!['T', 'i', 'm', 'e', 's', 't', 'a', 'm', 'p'],
        LogColumn::Level => seq!['L', 'e', 'v', 'e', 'l'],
        LogColumn::Target => seq!['T', 'a', 'r', 'g', 'e', 't'],
        LogColumn::SpanInfo => seq!['S', 'p', 'a', 'n', ' ', 'I', 'n', 'f', 'o'],
        LogColumn::FileInfo => seq!['F', 'i', 'l', 'e', ' ', 'I', 'n', 'f', 'o'],
        LogColumn::Message => seq!['M', 'e', 's', 's', 'a', 'g', 'e'],
    }
}

/// The columns of the log table under `settings`, left to right.
pub fn visible_columns(settings: &DisplaySettings) -> (cols: Vec<LogColumn>)
    ensures
        cols@ == columns_shown(*settings),
{
    let mut cols: Vec<LogColumn> = Vec::new();
    if settings.show_timestamps {
        cols.push(LogColumn::Timestamp);
    }
    cols.push(LogColumn::Level);
    if settings.show_targets {
        cols.push(LogColumn::Target);
    }
    if settings.show_span_info {
        cols.push(LogColumn::SpanInfo);
    }
    if settings.show_file_info {
        cols.push(LogColumn::FileInfo);
    }
    cols.push(LogColumn::Message);
    assert(cols@ =~= columns_shown(*settings));
    cols
}

/// The name in the header of column `c`.
pub fn column_header_text(c: LogColumn) -> (name: &'static str)
    ensures
        name@ == column_header(c),
{
    match c {
        LogColumn::Timestamp => {
            proof { reveal_strlit("Timestamp"); }
            "Timestamp"
        },
        LogColumn::Level => {
            proof { reveal_strlit("Level"); }
            "Level"
        },
        LogColumn::Target => {
            proof { reveal_strlit("Target"); }
            "Target"
        },
        LogColumn::SpanInfo => {
            proof { reveal_strlit("Span Info"); }
            "Span Info"
        },
        LogColumn::FileInfo => {
            proof { reveal_strlit("File Info"); }
            "File Info"
        },
        LogColumn::Message => {
            proof { reveal_strlit("Message"); }
            "Message"
        },
    }
}

fn piece(text: String, color: Rgb, size: u8) -> (p: TextPiece)
    ensures
        plain_piece(p, text@, color, size),
{
    TextPiece { text, color, size, underline: false }
}

/// The timestamp cell: the event's time in UTC, grey, 12 points.
pub fn timestamp_cell(event: &DashboardEvent) -> (p: TextPiece)
    ensures
        plain_piece(p, chrono_format(displayed_origin(event.timestamp), dmy_hms_format()), gray(), 12),
{
    piece(format_timestamp_utc(event.timestamp), Rgb { r: 160, g: 160, b: 160 }, 12)
}

/// The level cell: the level's name in capitals, in the level's colour,
/// 12 points.
pub fn level_cell(event: &DashboardEvent) -> (p: TextPiece)
    ensures
        plain_piece(p, level_name(event.level), level_color(event.level), 12),
{
    let mut text = String::new();
    push_str(&mut text, level_text(&event.level));
    piece(text, color_for_log_level(&event.level), 12)
}

/// The target cell: the event's target, light blue, 12 points.
pub fn target_cell(event: &DashboardEvent) -> (p: TextPiece)
    ensures
        plain_piece(p, event.target@, light_blue(), 12),
{
    let mut text = String::new();
    push_str(&mut text, event.target.as_str());
    piece(text, Rgb { r: 173, g: 216, b: 230 }, 12)
}

/// The text of the span cell: the span's name, after its parent's id and
/// an arrow when the event has a parent span.
pub open spec fn span_text(parent: Option<u64>, name: Seq<char>) -> Seq<char> {
    match parent {
        Some(p) => decimal(p as nat) + seq!['\u{2192}'] + name,
        None => name,
    }
}

/// The span cell: empty when the event is outside any span, else the span
/// text in yellow, 12 points.
pub fn span_cell(event: &DashboardEvent) -> (p: Option<TextPiece>)
    ensures
        event.span_meta is None ==> p is None,
        event.span_meta matches Some(m) ==> p matches Some(q) && plain_piece(
            q,
            span_text(event.parent_span_id, m.name@),
            yellow(),
            12,
        ),
{
    match &event.span_meta {
        Some(meta) => {
            let mut text = String::new();
            match event.parent_span_id {
                Some(parent) => {
                    push_decimal(&mut text, parent);
                    proof { reveal_strlit("\u{2192}"); }
                    push_str(&mut text, "\u{2192}");
                },
                None => {},
            }
            push_str(&mut text, meta.name.as_str());
            assert(text@ =~= span_text(event.parent_span_id, meta.name@));
            Some(piece(text, Rgb { r: 255, g: 255, b: 0 }, 12))
        },
        None => None,
    }
}

/// The source location cell: the project name in light magenta, then a
/// light blue underlined link "file:line", both 10 points; clicking the
/// link opens `path` at `line` in the editor.
pub struct FileCell {
    pub project: TextPiece,
    pub link: TextPiece,
    pub path: String,
    pub line: u32,
}

/// The text of a source link: the file inside `src`, ':', the line.
pub open spec fn link_text(file: Seq<char>, line: u32) -> Seq<char> {
    file + seq![':'] + decimal(line as nat)
}

/// The source location cell, present when the event has both a file and
/// a line.
pub fn file_cell(event: &DashboardEvent) -> (c: Option<FileCell>)
    ensures
        !(event.file is Some && event.line is Some) ==> c is None,
        event.file matches Some(path) ==> event.line matches Some(line) ==> c matches Some(cell) && {
            &&& cell.path@ == path@
            &&& cell.line == line
            &&& plain_piece(cell.project, cell.project.text@, light_magenta(), 10)
            &&& cell.link.color == light_blue() && cell.link.size == 10 && cell.link.underline
            &&& ((exists|i: int| marker_at(path@, i)) ==> exists|i: int| {
                &&& marker_at(path@, i)
                &&& (forall|j: int| marker_at(path@, j) ==> j <= i)
                &&& cell.link.text@ == link_text(path@.subrange(i + 5, path@.len() as int), line)
                &&& cell.project.text@ == last_component(path@.subrange(0, i))
            })
            &&& (!(exists|i: int| marker_at(path@, i)) ==> cell.project.text@.len() == 0 && cell.link.text@ == link_text(path@, line))
        },
{
    match (&event.file, event.line) {
        (Some(path), Some(line)) => {
            let parts = path_parts(path.as_str());
            let mut project = String::new();
            push_str(&mut project, parts.project);
            let mut link = String::new();
            push_str(&mut link, parts.file);
            proof { reveal_strlit(":"); }
            push_str(&mut link, ":");
            push_decimal(&mut link, line as u64);
            let mut owned = String::new();
            push_str(&mut owned, path.as_str());
            Some(FileCell {
                project: piece(project, Rgb { r: 255, g: 121, b: 198 }, 10),
                link: TextPiece { text: link, color: Rgb { r: 173, g: 216, b: 230 }, size: 10, underline: true },
                path: owned,
                line,
            })
        },
        _ => None,
    }
}

/// What clicking the source link of a cell asks of the data side.
pub fn open_in_editor_event(cell: &FileCell) -> (e: ScopedUIEvent)
    ensures
        e matches ScopedUIEvent::OpenInEditor { path, line } && path@ == cell.path@ && line == cell.line,
{
    let mut path = String::new();
    push_str(&mut path, cell.path.as_str());
    ScopedUIEvent::OpenInEditor { path, line: cell.line }
}

/// The message cell: the message in white, then the fields in light grey
/// when there are any, both 12 points.
pub fn message_cell(event: &DashboardEvent) -> (pieces: Vec<TextPiece>)
    ensures
        event.fields@.len() == 0 ==> pieces@.len() == 1,
        event.fields@.len() > 0 ==> pieces@.len() == 2 && plain_piece(pieces@[1], fields_text(event.fields@), light_gray(), 12),
        plain_piece(pieces@[0], event.message@, white(), 12),
{
    let mut pieces: Vec<TextPiece> = Vec::new();
    let mut message = String::new();
    push_str(&mut message, event.message.as_str());
    pieces.push(piece(message, Rgb { r: 255, g: 255, b: 255 }, 12));
    if event.fields.len() > 0 {
        pieces.push(piece(format_fields(&event.fields), Rgb { r: 220, g: 220, b: 220 }, 12));
    }
    pieces
}

/// A level filter button: its label "Name: count", its fill colour, the
/// level it selects, and whether that level is the current filter.
#[derive(Debug)]
pub struct FilterButton {
    pub label: String,
    pub fill: Rgb,
    pub level: Level,
    pub active: bool,
}

/// The name on a level's filter button.
pub open spec fn button_name(level: Level) -> Seq<char> {
    match level {
        Level::Trace => seq!['T', 'r', 'a', 'c', 'e'],
        Level::Debug => seq!['D', 'e', 'b', 'u', 'g'],
        Level::Info => seq!['I', 'n', 'f', 'o'],
        Level::Warn => seq!['W', 'a', 'r', 'n'],
        Level::Error => seq!['E', 'r', 'r', 'o', 'r'],
    }
}

/// The count of `level` in `counts`.
pub open spec fn count_of(counts: LogCounts, level: Level) -> usize {
    match level {
        Level::Trace => counts.trace,
        Level::Debug => counts.debug,
        Level::Info => counts.info,
        Level::Warn => counts.warn,
        Level::Error => counts.error,
    }
}

/// The button of `level` describes it under `counts` and filter `current`.
pub open spec fn describes_level(b: FilterButton, level: Level, counts: LogCounts, current: Level) -> bool {
    &&& b.label@ == button_name(level) + seq![':', ' '] + decimal(count_of(counts, level) as nat)
    &&& b.fill == level_color(level)
    &&& b.level == level
    &&& b.active == (current == level)
}

/// The order of the filter buttons, most severe first.
pub open spec fn button_levels() -> Seq<Level> {
    seq![Level::Error, Level::Warn, Level::Info, Level::Debug, Level::Trace]
}

fn button_name_text(level: Level) -> (name: &'static str)
    ensures
        name@ == button_name(level),
{
    match level {
        Level::Trace => {
            proof { reveal_strlit("Trace"); }
            "Trace"
        },
        Level::Debug => {
            proof { reveal_strlit("Debug"); }
            "Debug"
        },
        Level::Info => {
            proof { reveal_strlit("Info"); }
            "Info"
        },
        Level::Warn => {
            proof { reveal_strlit("Warn"); }
            "Warn"
        },
        Level::Error => {
            proof { reveal_strlit("Error"); }
            "Error"
        },
    }
}

fn count_for(counts: &LogCounts, level: Level) -> (n: usize)
    ensures
        n == count_of(*counts, level),
{
    match level {
        Level::Trace => counts.trace,
        Level::Debug => counts.debug,
        Level::Info => counts.info,
        Level::Warn => counts.warn,
        Level::Error => counts.error,
    }
}

/// The filter button of `level` under `counts` and filter `current`.
pub fn filter_button(level: Level, counts: &LogCounts, current: Level) -> (b: FilterButton)
    ensures
        describes_level(b, level, *counts, current),
{
    let mut label = String::new();
    push_str(&mut label, button_name_text(level));
    proof { reveal_strlit(": "); }
    push_str(&mut label, ": ");
    let n = count_for(counts, level);
    push_decimal(&mut label, n as u64);
    let active = current == level;
    assert(active == (current == level));
    assert(label@ =~= button_name(level) + seq![':', ' '] + decimal(count_of(*counts, level) as nat));
    FilterButton { label, fill: color_for_log_level(&level), level, active }
}

/// The filter buttons of a pane, most severe level first.
pub fn filter_buttons(counts: &LogCounts, current: Level) -> (buttons: Vec<FilterButton>)
    ensures
        buttons@.len() == 5,
        forall|i: int| 0 <= i < 5 ==> describes_level(#[trigger] buttons@[i], button_levels()[i], *counts, current),
{
    let mut buttons: Vec<FilterButton> = Vec::new();
    buttons.push(filter_button(Level::Error, counts, current));
    buttons.push(filter_button(Level::Warn, counts, current));
    buttons.push(filter_button(Level::Info, counts, current));
    buttons.push(filter_button(Level::Debug, counts, current));
    buttons.push(filter_button(Level::Trace, counts, current));
    buttons
}

/// The label before the buttons: "Total: " and the number of events.
pub fn total_label(counts: &LogCounts) -> (label: String)
    ensures
        label@ == seq!['T', 'o', 't', 'a', 'l', ':', ' '] + decimal(counts.total as nat),
{
    let mut label = String::new();
    proof { reveal_strlit("Total: "); }
    push_str(&mut label, "Total: ");
    push_decimal(&mut label, counts.total as u64);
    label
}

/// A click on the filter button of `level`: when it is not the current
/// filter it becomes it, and the data side is sent the new settings;
/// otherwise nothing changes and nothing is sent.
pub fn select_level_filter(settings: &mut DisplaySettings, level: Level) -> (sent: Option<ScopedUIEvent>)
    ensures
        old(settings).level_filter == level ==> sent is None && *final(settings) == *old(settings),
        old(settings).level_filter != level ==> {
            &&& *final(settings) == (DisplaySettings { level_filter: level, ..*old(settings) })
            &&& sent matches Some(ScopedUIEvent::LogDisplaySettingsChanged(s)) && s == *final(settings)
        },
{
    if settings.level_filter != level {
        settings.level_filter = level;
        Some(ScopedUIEvent::LogDisplaySettingsChanged(settings.snapshot()))
    } else {
        None
    }
}

} // verus!
