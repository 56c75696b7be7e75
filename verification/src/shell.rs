//! Rules of the supervising user-interface shell that do not touch a window
//! or a process: what a line of the receiver's log means, what a click on a
//! button leads to, and how colours and points are reckoned.

use vstd::prelude::*;

use crate::text::{
    contains_text, find_text, first_occurrence, lemma_first_occurrence, text_contains, trim_text,
    trimmed,
};

verus! {

/// Background of the window.
pub const COLOR_BG_DARK: u32 = 0x0D1117;

/// Background of a card.
pub const COLOR_BG_MEDIUM: u32 = 0x161B22;

/// Accent colour.
pub const COLOR_ACCENT_BLUE: u32 = 0x58A6FF;

/// Colour of the start button and of a good state.
pub const COLOR_GREEN: u32 = 0x3FB950;

/// Colour of the stop button and of a bad state.
pub const COLOR_RED: u32 = 0xF85149;

/// Colour of ordinary text.
pub const COLOR_TEXT_PRIMARY: u32 = 0xFFFFFF;

/// Colour of muted text.
pub const COLOR_TEXT_SECONDARY: u32 = 0x8B949E;

/// Colour of borders and of buttons that cannot be used.
pub const COLOR_BORDER: u32 = 0x30363D;

/// A colour `0x00RRGGBB` with red and blue exchanged, `0x00BBGGRR`, as the
/// windowing system wants it. Bits above the 24th are dropped.
pub open spec fn colorref_of(rgb: u32) -> u32 {
    ((rgb as int % 0x100) * 0x1_0000 + (rgb as int / 0x100 % 0x100) * 0x100 + (rgb as int
        / 0x1_0000 % 0x100)) as u32
}

/// Converts a colour from `0x00RRGGBB` to `0x00BBGGRR`.
pub fn rgb_to_colorref(rgb: u32) -> (bgr: u32)
    ensures
        bgr == colorref_of(rgb),
{
    let r: u32 = (rgb >> 16) & 0xFF;
    let g: u32 = (rgb >> 8) & 0xFF;
    let b: u32 = rgb & 0xFF;
    assert(((rgb & 0xFF) << 16 | ((rgb >> 8) & 0xFF) << 8 | ((rgb >> 16) & 0xFF)) == (rgb % 0x100)
        * 0x1_0000 + (rgb / 0x100 % 0x100) * 0x100 + (rgb / 0x1_0000 % 0x100)) by (bit_vector);
    b << 16 | g << 8 | r
}

/// A rectangle: left and top edges belong to it, right and bottom do not.
#[derive(Debug, Clone, Copy, PartialEq, Eq, Structural)]
pub struct Rect {
    /// The left edge.
    pub left: i32,
    /// The top edge.
    pub top: i32,
    /// The right edge.
    pub right: i32,
    /// The bottom edge.
    pub bottom: i32,
}

/// Whether the point lies in the rectangle.
pub fn point_in_rect(x: i32, y: i32, rect: &Rect) -> (inside: bool)
    ensures
        inside == (rect.left <= x < rect.right && rect.top <= y < rect.bottom),
{
    x >= rect.left && x < rect.right && y >= rect.top && y < rect.bottom
}

/// What the shell knows of the receiver's connection.
#[derive(Debug, Clone, Copy, PartialEq, Eq, Structural)]
pub enum ConnectionStatus {
    /// No sender is connected.
    Disconnected,
    /// The receiver listens for a sender.
    Listening,
    /// A sender is connected.
    Connected,
    /// The receiver reported an error.
    Error,
}

impl ConnectionStatus {
    /// The status as shown to the user.
    pub fn label(self) -> (s: &'static str)
        ensures
            s@ == match self {
                ConnectionStatus::Disconnected => "Disconnected"@,
                ConnectionStatus::Listening => "Listening"@,
                ConnectionStatus::Connected => "Connected"@,
                ConnectionStatus::Error => "Error"@,
            },
    {
        match self {
            ConnectionStatus::Disconnected => "Disconnected",
            ConnectionStatus::Listening => "Listening",
            ConnectionStatus::Connected => "Connected",
            ConnectionStatus::Error => "Error",
        }
    }

    /// The colour of the status dot.
    pub fn color(self) -> (c: u32)
        ensures
            c == match self {
                ConnectionStatus::Connected => COLOR_GREEN,
                ConnectionStatus::Listening => COLOR_ACCENT_BLUE,
                ConnectionStatus::Error => COLOR_RED,
                ConnectionStatus::Disconnected => COLOR_TEXT_SECONDARY,
            },
    {
        match self {
            ConnectionStatus::Connected => COLOR_GREEN,
            ConnectionStatus::Listening => COLOR_ACCENT_BLUE,
            ConnectionStatus::Error => COLOR_RED,
            ConnectionStatus::Disconnected => COLOR_TEXT_SECONDARY,
        }
    }
}

/// What a line of the receiver's log tells the shell.
#[derive(Debug)]
pub enum LogLineEvent {
    /// The connection is in a new state.
    Connection(ConnectionStatus),
    /// A line of statistics to show.
    Stats(String),
}

/// What a line of the receiver's log means.
pub enum LogLineMeaning {
    /// Nothing that the shell shows.
    Nothing,
    /// The connection is in a new state.
    Connection(ConnectionStatus),
    /// A line of statistics to show.
    Stats(Seq<char>),
}

/// What stands between the first occurrence of `mark` in `line` and the next
/// one after it, or the end of the line.
pub open spec fn after_mark(line: Seq<char>, mark: Seq<char>) -> Option<Seq<char>> {
    match first_occurrence(line, mark, 0) {
        None => None,
        Some(at) => {
            let start = at + mark.len();
            match first_occurrence(line, mark, start) {
                Some(next) => Some(line.subrange(start, next)),
                None => Some(line.subrange(start, line.len() as int)),
            }
        },
    }
}

/// What a line means. The first of these that holds decides: the line tells
/// of an accepted connection; of a closed one; it carries statistics, which
/// are what follows `Stats: `, without the white space around it; it tells
/// that the server listens; it tells of an error of the server or of a
/// connection.
pub open spec fn meaning_of(line: Seq<char>) -> LogLineMeaning {
    if contains_text(line, "Connection accepted from"@) {
        LogLineMeaning::Connection(ConnectionStatus::Connected)
    } else if contains_text(line, "Connection closed"@) {
        LogLineMeaning::Connection(ConnectionStatus::Disconnected)
    } else if let Some(stats) = after_mark(line, "Stats: "@) {
        LogLineMeaning::Stats(trimmed(stats))
    } else if contains_text(line, "QUIC server listening"@) {
        LogLineMeaning::Connection(ConnectionStatus::Listening)
    } else if contains_text(line, "QUIC server error"@) || contains_text(
        line,
        "Connection error"@,
    ) {
        LogLineMeaning::Connection(ConnectionStatus::Error)
    } else {
        LogLineMeaning::Nothing
    }
}

impl LogLineEvent {
    /// The event as a mathematical value.
    pub open spec fn meaning(self) -> LogLineMeaning {
        match self {
            LogLineEvent::Connection(status) => LogLineMeaning::Connection(status),
            LogLineEvent::Stats(text) => LogLineMeaning::Stats(text@),
        }
    }
}

/// What stands between the first occurrence of `mark` in `line` and the next
/// one after it, or the end of the line.
fn text_after_mark<'a>(line: &'a str, mark: &str) -> (part: Option<&'a str>)
    ensures
        match after_mark(line@, mark@) {
            Some(text) => part is Some && part->Some_0@ == text,
            None => part is None,
        },
{
    let end: usize = line.unicode_len();
    let mark_len: usize = mark.unicode_len();
    proof {
        lemma_first_occurrence(line@, mark@, 0);
    }
    match find_text(line, mark, 0) {
        None => None,
        Some(at) => {
            let start: usize = at + mark_len;
            proof {
                lemma_first_occurrence(line@, mark@, start as int);
            }
            match find_text(line, mark, start) {
                Some(next) => Some(line.substring_char(start, next)),
                None => Some(line.substring_char(start, end)),
            }
        },
    }
}

/// Reads a line of the receiver's log.
pub fn classify_log_line(line: &str) -> (event: Option<LogLineEvent>)
    ensures
        match event {
            Some(e) => e.meaning() == meaning_of(line@),
            None => meaning_of(line@) is Nothing,
        },
{
    if text_contains(line, "Connection accepted from") {
        return Some(LogLineEvent::Connection(ConnectionStatus::Connected));
    }
    if text_contains(line, "Connection closed") {
        return Some(LogLineEvent::Connection(ConnectionStatus::Disconnected));
    }
    if let Some(stats) = text_after_mark(line, "Stats: ") {
        return Some(LogLineEvent::Stats(trim_text(stats)));
    }
    if text_contains(line, "QUIC server listening") {
        return Some(LogLineEvent::Connection(ConnectionStatus::Listening));
    }
    if text_contains(line, "QUIC server error") || text_contains(line, "Connection error") {
        return Some(LogLineEvent::Connection(ConnectionStatus::Error));
    }
    None
}

/// The buttons of the shell.
#[derive(Debug, Clone, Copy, PartialEq, Eq, Structural)]
pub enum Button {
    /// Starts the receiver.
    Start,
    /// Stops the receiver.
    Stop,
    /// Switches fullscreen on or off.
    Fullscreen,
}

/// The identifier of the start button.
pub const ID_BTN_START: usize = 1001;

/// The identifier of the stop button.
pub const ID_BTN_STOP: usize = 1002;

/// The identifier of the fullscreen button.
pub const ID_BTN_FULLSCREEN: usize = 1003;

/// The button with the given identifier, if there is one.
pub fn button_from_id(id: usize) -> (button: Option<Button>)
    ensures
        button == if id == ID_BTN_START {
            Some(Button::Start)
        } else if id == ID_BTN_STOP {
            Some(Button::Stop)
        } else if id == ID_BTN_FULLSCREEN {
            Some(Button::Fullscreen)
        } else {
            None
        },
{
    if id == ID_BTN_START {
        Some(Button::Start)
    } else if id == ID_BTN_STOP {
        Some(Button::Stop)
    } else if id == ID_BTN_FULLSCREEN {
        Some(Button::Fullscreen)
    } else {
        None
    }
}

/// What a click leads to.
#[derive(Debug, Clone, Copy, PartialEq, Eq, Structural)]
pub struct ButtonPlan {
    /// Whether the running receiver is stopped first.
    pub stop: bool,
    /// Whether a receiver is started then.
    pub start: bool,
    /// Whether the receiver is to run fullscreen from now on.
    pub fullscreen: bool,
}

/// What a click on `button` leads to, given whether a receiver runs and
/// whether fullscreen is on. Start starts a receiver unless one runs. Stop
/// stops the one that runs. Fullscreen switches fullscreen over and, where a
/// receiver runs, starts it anew.
pub open spec fn plan_of(button: Button, running: bool, fullscreen: bool) -> ButtonPlan {
    match button {
        Button::Start => ButtonPlan { stop: false, start: !running, fullscreen },
        Button::Stop => ButtonPlan { stop: running, start: false, fullscreen },
        Button::Fullscreen => ButtonPlan { stop: running, start: running, fullscreen: !fullscreen },
    }
}

/// Decides what a click leads to.
pub fn plan_click(button: Button, running: bool, fullscreen: bool) -> (plan: ButtonPlan)
    ensures
        plan == plan_of(button, running, fullscreen),
{
    match button {
        Button::Start => ButtonPlan { stop: false, start: !running, fullscreen },
        Button::Stop => ButtonPlan { stop: running, start: false, fullscreen },
        Button::Fullscreen => ButtonPlan { stop: running, start: running, fullscreen: !fullscreen },
    }
}

} // verus!
