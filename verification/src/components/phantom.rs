//! The invisible widget that listens for the keys of the whole screen.

use vstd::prelude::*;
use crate::app::interface::{mounting, Command, Interface};
use crate::components::{Event, EventView};
use crate::constants::{msg_of, Components, ComponentsView, Id, Key, Msg, MsgView};

verus! {

/// The listener for the keys that work everywhere.
#[derive(Debug, Clone, Copy, Default)]
pub struct PhantomHandler {}

impl PhantomHandler {
    /// The command that mounts the listener, subscribed to its two keys.
    pub fn mount() -> (command: Command)
        ensures
            command@ == mounting(Id::Phantom, ComponentsView::Phantom),
    {
        Interface::Status.mount(Id::Phantom, Components::Phantom)
    }

    /// The message that a key leads to: escape closes the dashboard, tab
    /// moves focus on, and nothing else is answered.
    pub open spec fn spec_on(event: EventView) -> Option<MsgView> {
        match event {
            EventView::Keyboard(Key::Esc) => Some(MsgView::AppClose),
            EventView::Keyboard(Key::Tab) => Some(MsgView::ChangeFocus),
            _ => None,
        }
    }

    /// Takes an event and answers with a message, or with none.
    pub fn on(&self, event: &Event) -> (msg: Option<Msg>)
        ensures
            msg_of(msg) == Self::spec_on(event@),
    {
        match event {
            Event::Keyboard(Key::Esc) => Some(Msg::AppClose),
            Event::Keyboard(Key::Tab) => Some(Msg::ChangeFocus),
            _ => None,
        }
    }
}

} // verus!
