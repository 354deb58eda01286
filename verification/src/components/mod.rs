//! What the widgets decide: which message an event leads to, and what a
//! widget shows of the data it is given. Drawing is left to the renderer.

use vstd::prelude::*;
use crate::constants::{Key, UserEventIter, UserEventView};

pub mod container;
pub mod input;
pub mod label;
pub mod list;
pub mod paragraph;
pub mod phantom;
pub mod table;

verus! {

/// What a widget is told of.
#[derive(Debug, Clone)]
pub enum Event {
    /// A key was pressed.
    Keyboard(Key),
    /// Time has passed.
    Tick,
    /// The task queue handed over a batch.
    User(UserEventIter),
    /// Anything else.
    Other,
}

pub enum EventView {
    Keyboard(Key),
    Tick,
    User(Seq<UserEventView>),
    Other,
}

impl View for Event {
    type V = EventView;

    open spec fn view(&self) -> EventView {
        match self {
            Event::Keyboard(key) => EventView::Keyboard(*key),
            Event::Tick => EventView::Tick,
            Event::User(batch) => EventView::User(batch@),
            Event::Other => EventView::Other,
        }
    }
}

/// The way a selection or a cursor moves.
#[derive(Debug, Clone, Copy, PartialEq, Eq, Structural)]
pub enum Direction {
    Down,
    Left,
    Right,
    Up,
}

/// An end of a list or of a line.
#[derive(Debug, Clone, Copy, PartialEq, Eq, Structural)]
pub enum Position {
    Begin,
    End,
}

/// What a widget's inner part is told to do.
#[derive(Debug, Clone, Copy, PartialEq, Eq, Structural)]
pub enum Cmd {
    /// Type a character.
    Type(char),
    /// Move the cursor or the selection by one.
    Move(Direction),
    /// Move the selection by a page.
    Scroll(Direction),
    /// Go to an end.
    GoTo(Position),
    /// Remove the character under the cursor.
    Cancel,
    /// Remove the character before the cursor.
    Delete,
    /// What is shown has changed.
    Change,
    /// Nothing.
    Idle,
}

/// How a piece of text is set off.
#[derive(Debug, Clone, Copy, PartialEq, Eq, Structural)]
pub enum Tone {
    Plain,
    Bold,
    /// The colour of what is well.
    Good,
    /// The colour of what needs attention.
    Warn,
}

/// A piece of text and how it is set off.
#[derive(Debug, Clone, PartialEq, Eq)]
pub struct Span {
    pub text: String,
    pub tone: Tone,
}

pub struct SpanView {
    pub text: Seq<char>,
    pub tone: Tone,
}

impl View for Span {
    type V = SpanView;

    open spec fn view(&self) -> SpanView {
        SpanView { text: self.text@, tone: self.tone }
    }
}

/// The views of the pieces of a line, in order.
pub open spec fn line_view(line: Seq<Span>) -> Seq<SpanView> {
    Seq::new(line.len(), |i: int| line[i]@)
}

/// The views of the lines of a text, in order.
pub open spec fn lines_view(lines: Seq<Vec<Span>>) -> Seq<Seq<SpanView>> {
    Seq::new(lines.len(), |i: int| line_view(lines[i]@))
}

/// A piece of plain text.
pub open spec fn plain(text: Seq<char>) -> SpanView {
    SpanView { text, tone: Tone::Plain }
}

/// A piece of text.
pub fn span(text: String, tone: Tone) -> (made: Span)
    ensures
        made@ == (SpanView { text: text@, tone }),
{
    Span { text, tone }
}

/// A piece of plain text.
pub fn plain_span(text: &str) -> (made: Span)
    ensures
        made@ == plain(text@),
{
    Span { text: text.to_owned(), tone: Tone::Plain }
}

} // verus!
