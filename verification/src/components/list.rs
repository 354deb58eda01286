//! The plain server list, which scrolls and selects and tells nothing.

use vstd::prelude::*;
use crate::components::{Cmd, Direction, Event, EventView, Position};
use crate::constants::{Key, Msg, MsgView};

verus! {

/// What a key does to a list: the arrows move the selection by one, the
/// page keys by a page, home and end go to an end.
pub open spec fn list_command(event: EventView) -> Cmd {
    match event {
        EventView::Keyboard(Key::Down) => Cmd::Move(Direction::Down),
        EventView::Keyboard(Key::Up) => Cmd::Move(Direction::Up),
        EventView::Keyboard(Key::PageDown) => Cmd::Scroll(Direction::Down),
        EventView::Keyboard(Key::PageUp) => Cmd::Scroll(Direction::Up),
        EventView::Keyboard(Key::Home) => Cmd::GoTo(Position::Begin),
        EventView::Keyboard(Key::End) => Cmd::GoTo(Position::End),
        _ => Cmd::Idle,
    }
}

/// What a key does to a list.
pub fn key_command(event: &Event) -> (cmd: Cmd)
    ensures
        cmd == list_command(event@),
{
    match event {
        Event::Keyboard(Key::Down) => Cmd::Move(Direction::Down),
        Event::Keyboard(Key::Up) => Cmd::Move(Direction::Up),
        Event::Keyboard(Key::PageDown) => Cmd::Scroll(Direction::Down),
        Event::Keyboard(Key::PageUp) => Cmd::Scroll(Direction::Up),
        Event::Keyboard(Key::Home) => Cmd::GoTo(Position::Begin),
        Event::Keyboard(Key::End) => Cmd::GoTo(Position::End),
        _ => Cmd::Idle,
    }
}

/// The plain server list.
#[derive(Debug, Clone, Copy, Default)]
pub struct ServerList {}

impl ServerList {
    /// Takes an event: says what the list is to do, and answers with an
    /// idle message whatever the event was.
    pub fn on(&self, event: &Event) -> (done: (Cmd, Option<Msg>))
        ensures
            done.0 == list_command(event@),
            done.1 is Some && done.1->Some_0@ == MsgView::Nop(0),
    {
        (key_command(event), Some(Msg::Nop(0)))
    }
}

} // verus!
