//! The single-stream viewer: its display settings, the events its view
//! sends, and the one-line layout of each event.
use vstd::prelude::*;

use crate::data::Level;
use crate::event::DashboardEvent;
pub use crate::frontend::pane::format_fields;
use crate::frontend::pane::{
    fields_text, gray, light_blue, light_gray, plain_piece, rgb, white, yellow, Rgb,
    TextPiece,
};
use crate::text::{decimal, decimal_string, push_decimal, push_str};

verus! {

/// The lowest level the view shows.
#[derive(Debug, Clone, Copy, PartialEq, Eq, Structural, Hash)]
pub enum LogLevelFilter {
    Trace,
    Debug,
    Info,
    Warn,
    Error,
}

/// The level a filter stands for.
pub open spec fn filter_level(f: LogLevelFilter) -> Level {
    match f {
        LogLevelFilter::Trace => Level::Trace,
        LogLevelFilter::Debug => Level::Debug,
        LogLevelFilter::Info => Level::Info,
        LogLevelFilter::Warn => Level::Warn,
        LogLevelFilter::Error => Level::Error,
    }
}

/// Converting a filter to a level keeps its name: each filter stands for
/// the level of the same name, and no two filters for the same level.
pub proof fn lemma_filter_level_keeps_name()
    ensures
        filter_level(LogLevelFilter::Trace) == Level::Trace,
        filter_level(LogLevelFilter::Debug) == Level::Debug,
        filter_level(LogLevelFilter::Info) == Level::Info,
        filter_level(LogLevelFilter::Warn) == Level::Warn,
        filter_level(LogLevelFilter::Error) == Level::Error,
        forall|f: LogLevelFilter, g: LogLevelFilter| #[trigger] filter_level(f) == #[trigger] filter_level(g) ==> f == g,
{
}

impl From<LogLevelFilter> for Level {
    fn from(val: LogLevelFilter) -> (l: Level) {
        match val {
            LogLevelFilter::Trace => Level::Trace,
            LogLevelFilter::Debug => Level::Debug,
            LogLevelFilter::Info => Level::Info,
            LogLevelFilter::Warn => Level::Warn,
            LogLevelFilter::Error => Level::Error,
        }
    }
}

impl vstd::std_specs::convert::FromSpecImpl<LogLevelFilter> for Level {
    open spec fn obeys_from_spec() -> bool {
        true
    }

    open spec fn from_spec(val: LogLevelFilter) -> Level {
        filter_level(val)
    }
}

/// Which parts of each log line the view shows, whether it follows new
/// events, and the lowest level shown.
#[derive(Debug, Clone, Copy, PartialEq, Eq, Structural)]
pub struct LogDisplaySettings {
    pub show_timestamps: bool,
    pub show_targets: bool,
    pub show_file_info: bool,
    pub show_span_info: bool,
    pub auto_scroll: bool,
    pub level_filter: LogLevelFilter,
}

impl Default for LogDisplaySettings {
    fn default() -> (s: LogDisplaySettings)
        ensures
            s == (LogDisplaySettings {
                show_timestamps: false,
                show_targets: false,
                show_file_info: false,
                show_span_info: false,
                auto_scroll: true,
                level_filter: LogLevelFilter::Trace,
            }),
    {
        LogDisplaySettings {
            show_timestamps: false,
            show_targets: false,
            show_file_info: false,
            show_span_info: false,
            auto_scroll: true,
            level_filter: LogLevelFilter::Trace,
        }
    }
}

/// What the view sends to the data task.
#[derive(Debug, Clone, Copy)]
pub enum UiEvent {
    LogDisplaySettingsChanged(LogDisplaySettings),
}

/// A timestamp as shown: its number of milliseconds in decimal.
pub fn format_timestamp(timestamp: u64) -> (text: String)
    ensures
        text@ == decimal(timestamp as nat),
{
    decimal_string(timestamp)
}

/// The colour of each level in this view: soft red, amber, neon green,
/// cyan and medium grey from `Error` down to `Trace`.
pub open spec fn level_color(level: Level) -> Rgb {
    match level {
        Level::Trace => rgb(128, 128, 128),
        Level::Debug => rgb(139, 233, 253),
        Level::Info => rgb(80, 250, 123),
        Level::Warn => rgb(255, 204, 0),
        Level::Error => rgb(255, 85, 85),
    }
}

/// The colour of `level` in this view.
pub fn color_for_log_level(level: &Level) -> (c: Rgb)
    ensures
        c == level_color(*level),
{
    match level {
        Level::Trace => Rgb { r: 128, g: 128, b: 128 },
        Level::Debug => Rgb { r: 139, g: 233, b: 253 },
        Level::Info => Rgb { r: 80, g: 250, b: 123 },
        Level::Warn => Rgb { r: 255, g: 204, b: 0 },
        Level::Error => Rgb { r: 255, g: 85, b: 85 },
    }
}

/// A level's name in capitals, right-aligned in five columns, then a space.
pub open spec fn padded_level(level: Level) -> Seq<char> {
    match level {
        Level::Trace => seq!['T', 'R', 'A', 'C', 'E', ' '],
        Level::Debug => seq!['D', 'E', 'B', 'U', 'G', ' '],
        Level::Info => seq![' ', 'I', 'N', 'F', 'O', ' '],
        Level::Warn => seq![' ', 'W', 'A', 'R', 'N', ' '],
        Level::Error => seq!['E', 'R', 'R', 'O', 'R', ' '],
    }
}

fn padded_level_text(level: &Level) -> (t: &'static str)
    ensures
        t@ == padded_level(*level),
{
    match level {
        Level::Trace => {
            proof { reveal_strlit("TRACE "); }
            "TRACE "
        },
        Level::Debug => {
            proof { reveal_strlit("DEBUG "); }
            "DEBUG "
        },
        Level::Info => {
            proof { reveal_strlit(" INFO "); }
            " INFO "
        },
        Level::Warn => {
            proof { reveal_strlit(" WARN "); }
            " WARN "
        },
        Level::Error => {
            proof { reveal_strlit("ERROR "); }
            "ERROR "
        },
    }
}

/// A piece of a layout as text, colour, font size and underlining.
pub open spec fn piece_view(p: TextPiece) -> (Seq<char>, Rgb, u8, bool) {
    (p.text@, p.color, p.size, p.underline)
}

/// The span part of a line: the span id in brackets, after the parent's id
/// and an arrow when there is a parent, then a space.
pub open spec fn bracketed_span(parent: Option<u64>, span: u64) -> Seq<char> {
    seq!['['] + match parent {
        Some(p) => decimal(p as nat) + seq!['\u{2192}'],
        None => Seq::empty(),
    } + decimal(span as nat) + seq![']', ' ']
}

/// The pieces of an event's line under `settings`, left to right: the
/// timestamp (grey), the padded level (in its colour), the target (light
/// blue), the span (yellow), the source location (grey, 10 points), the
/// message (white) and the fields (light grey); each optional part only
/// when shown and present. All but the location are 12 points, and none
/// is underlined.
pub open spec fn layout_spec(e: DashboardEvent, s: LogDisplaySettings) -> Seq<(Seq<char>, Rgb, u8, bool)> {
    (if s.show_timestamps { seq![(decimal(e.timestamp as nat) + seq![' '], gray(), 12u8, false)] } else { Seq::empty() })
        + seq![(padded_level(e.level), level_color(e.level), 12u8, false)]
        + (if s.show_targets { seq![(e.target@ + seq![' '], light_blue(), 12u8, false)] } else { Seq::empty() })
        + (if s.show_span_info && e.span_id is Some {
            seq![(bracketed_span(e.parent_span_id, e.span_id->0), yellow(), 12u8, false)]
        } else {
            Seq::empty()
        })
        + (if s.show_file_info && e.file is Some && e.line is Some {
            seq![(e.file->0@ + seq![':'] + decimal(e.line->0 as nat) + seq![' '], gray(), 10u8, false)]
        } else {
            Seq::empty()
        })
        + seq![(e.message@, white(), 12u8, false)]
        + (if e.fields@.len() > 0 { seq![(fields_text(e.fields@), light_gray(), 12u8, false)] } else { Seq::empty() })
}

/// An event's line ends with its fields exactly when it has any: with at
/// least one field, the last piece is the fields' text in light grey at 12
/// points; without fields, the last piece is the message in white.
pub proof fn lemma_fields_end_the_line(e: DashboardEvent, s: LogDisplaySettings)
    ensures
        e.fields@.len() > 0 ==> layout_spec(e, s).last() == (fields_text(e.fields@), light_gray(), 12u8, false),
        e.fields@.len() == 0 ==> layout_spec(e, s).last() == (e.message@, white(), 12u8, false),
        layout_spec(e, s).len() >= 2,
{
}

fn push_piece(job: &mut Vec<TextPiece>, text: String, color: Rgb, size: u8)
    ensures
        final(job)@.map_values(|p: TextPiece| piece_view(p)) == old(job)@.map_values(|p: TextPiece| piece_view(p)).push((text@, color, size, false)),
{
    let ghost before = old(job)@;
    job.push(TextPiece { text, color, size, underline: false });
    assert(job@.map_values(|p: TextPiece| piece_view(p)) =~= before.map_values(|p: TextPiece| piece_view(p)).push((text@, color, size, false)));
}

/// Lays out an event's line as coloured pieces of text under `settings`.
pub fn create_layout_job(event: &DashboardEvent, settings: LogDisplaySettings) -> (job: Vec<TextPiece>)
    ensures
        job@.map_values(|p: TextPiece| piece_view(p)) == layout_spec(*event, settings),
{
    let mut job: Vec<TextPiece> = Vec::new();
    let ghost e = *event;
    let ghost s = settings;
    proof { reveal_strlit(" "); reveal_strlit("["); reveal_strlit("] "); reveal_strlit(":"); reveal_strlit("\u{2192}"); }
    assert(job@.map_values(|p: TextPiece| piece_view(p)) =~= Seq::<(Seq<char>, Rgb, u8, bool)>::empty());
    let ghost part1: Seq<(Seq<char>, Rgb, u8, bool)> = if s.show_timestamps { seq![(decimal(e.timestamp as nat) + seq![' '], gray(), 12u8, false)] } else { Seq::empty() };
    if settings.show_timestamps {
        let mut t = format_timestamp(event.timestamp);
        push_str(&mut t, " ");
        assert(t@ =~= decimal(e.timestamp as nat) + seq![' ']);
        push_piece(&mut job, t, Rgb { r: 160, g: 160, b: 160 }, 12);
        assert(job@.map_values(|p: TextPiece| piece_view(p)) =~= part1);
    }
    assert(job@.map_values(|p: TextPiece| piece_view(p)) =~= part1);
    let mut level_text = String::new();
    push_str(&mut level_text, padded_level_text(&event.level));
    push_piece(&mut job, level_text, color_for_log_level(&event.level), 12);
    let ghost part2 = part1 + seq![(padded_level(e.level), level_color(e.level), 12u8, false)];
    assert(job@.map_values(|p: TextPiece| piece_view(p)) =~= part2);
    if settings.show_targets {
        let mut t = String::new();
        push_str(&mut t, event.target.as_str());
        push_str(&mut t, " ");
        assert(t@ =~= e.target@ + seq![' ']);
        push_piece(&mut job, t, Rgb { r: 173, g: 216, b: 230 }, 12);
    }
    let ghost part3 = part2 + (if s.show_targets { seq![(e.target@ + seq![' '], light_blue(), 12u8, false)] } else { Seq::empty() });
    assert(job@.map_values(|p: TextPiece| piece_view(p)) =~= part3);
    if settings.show_span_info {
        if let Some(span_id) = event.span_id {
            let mut t = String::new();
            push_str(&mut t, "[");
            if let Some(parent_id) = event.parent_span_id {
                push_decimal(&mut t, parent_id);
                push_str(&mut t, "\u{2192}");
            }
            push_decimal(&mut t, span_id);
            push_str(&mut t, "] ");
            assert(t@ =~= bracketed_span(e.parent_span_id, span_id));
            push_piece(&mut job, t, Rgb { r: 255, g: 255, b: 0 }, 12);
        }
    }
    let ghost part4 = part3 + (if s.show_span_info && e.span_id is Some {
        seq![(bracketed_span(e.parent_span_id, e.span_id->0), yellow(), 12u8, false)]
    } else {
        Seq::empty()
    });
    assert(job@.map_values(|p: TextPiece| piece_view(p)) =~= part4);
    if settings.show_file_info {
        if let (Some(file), Some(line)) = (&event.file, event.line) {
            let mut t = String::new();
            push_str(&mut t, file.as_str());
            push_str(&mut t, ":");
            push_decimal(&mut t, line as u64);
            push_str(&mut t, " ");
            assert(t@ =~= file@ + seq![':'] + decimal(line as nat) + seq![' ']);
            push_piece(&mut job, t, Rgb { r: 160, g: 160, b: 160 }, 10);
        }
    }
    let ghost part5 = part4 + (if s.show_file_info && e.file is Some && e.line is Some {
        seq![(e.file->0@ + seq![':'] + decimal(e.line->0 as nat) + seq![' '], gray(), 10u8, false)]
    } else {
        Seq::empty()
    });
    assert(job@.map_values(|p: TextPiece| piece_view(p)) =~= part5);
    let mut m = String::new();
    push_str(&mut m, event.message.as_str());
    push_piece(&mut job, m, Rgb { r: 255, g: 255, b: 255 }, 12);
    let ghost part6 = part5 + seq![(e.message@, white(), 12u8, false)];
    assert(job@.map_values(|p: TextPiece| piece_view(p)) =~= part6);
    if event.fields.len() > 0 {
        push_piece(&mut job, format_fields(&event.fields), Rgb { r: 220, g: 220, b: 220 }, 12);
    }
    let ghost part7 = part6 + (if e.fields@.len() > 0 { seq![(fields_text(e.fields@), light_gray(), 12u8, false)] } else { Seq::empty() });
    assert(job@.map_values(|p: TextPiece| piece_view(p)) =~= part7);
    assert(part7 =~= layout_spec(e, s));
    job
}

/// A click on a level's button in the view: that level becomes the filter,
/// whether or not it already was, and the settings are sent.
pub fn choose_level_filter(settings: &mut LogDisplaySettings, level: LogLevelFilter) -> (sent: UiEvent)
    ensures
        *final(settings) == (LogDisplaySettings { level_filter: level, ..*old(settings) }),
        sent matches UiEvent::LogDisplaySettingsChanged(s) && s == *final(settings),
{
    settings.level_filter = level;
    UiEvent::LogDisplaySettingsChanged(*settings)
}

} // verus!
