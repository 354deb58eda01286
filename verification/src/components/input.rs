//! A one-line text input of the form for a new server.

use vstd::prelude::*;
use crate::components::{Cmd, Direction, Event, EventView, Position};
use crate::constants::{msg_of, Id, Key, Msg, MsgView, text_of};
use crate::text::same_text;

verus! {

/// What the input keeps: the field of the form that it is.
#[derive(Debug, Clone, Copy)]
pub struct TextInput {
    pub id: Option<Id>,
}

/// What a key does to an input: the arrows move the cursor, home and end
/// go to an end, delete and backspace remove a character, and a character
/// typed with no modifier is entered.
pub open spec fn input_command(event: EventView) -> Cmd {
    match event {
        EventView::Keyboard(Key::Left) => Cmd::Move(Direction::Left),
        EventView::Keyboard(Key::Right) => Cmd::Move(Direction::Right),
        EventView::Keyboard(Key::Home) => Cmd::GoTo(Position::Begin),
        EventView::Keyboard(Key::End) => Cmd::GoTo(Position::End),
        EventView::Keyboard(Key::Delete) => Cmd::Cancel,
        EventView::Keyboard(Key::Backspace) => Cmd::Delete,
        EventView::Keyboard(Key::Char(c)) => Cmd::Type(c),
        _ => Cmd::Idle,
    }
}

/// The place of the first colon of a text at or after `from`; the length
/// of the text where there is none.
pub open spec fn colon_from(text: Seq<char>, from: int) -> int
    decreases text.len() - from,
{
    if from < 0 || from >= text.len() {
        text.len() as int
    } else if text[from] == ':' {
        from
    } else {
        colon_from(text, from + 1)
    }
}

/// The word before the first colon of a request.
pub open spec fn action_of(request: Seq<char>) -> Seq<char> {
    request.subrange(0, colon_from(request, 0))
}

/// The word between the first colon of a request and the second, or the
/// end where there is no second.
pub open spec fn target_of(request: Seq<char>) -> Seq<char> {
    let first = colon_from(request, 0);
    request.subrange(first + 1, colon_from(request, first + 1))
}

/// What a request asks of an input: `focus:` and a name ask the input of
/// that name to show focus and every other named input to drop it. Any
/// other request, and any request to an input without a name, asks nothing.
pub open spec fn focus_asked(id: Option<Id>, request: Seq<char>) -> Option<bool> {
    match id {
        Some(id) => if action_of(request) == "focus"@ {
            Some(id.spec_name() == target_of(request))
        } else {
            None
        },
        None => None,
    }
}

fn find_colon(text: &str, from: usize) -> (at: usize)
    requires
        from <= text@.len(),
    ensures
        at == colon_from(text@, from as int),
        from <= at <= text@.len() <= usize::MAX,
{
    let n: usize = text.unicode_len();
    let mut i: usize = from;
    while i < n
        invariant
            from <= i <= n,
            n == text@.len(),
            colon_from(text@, i as int) == colon_from(text@, from as int),
        decreases n - i,
    {
        if text.get_char(i) == ':' {
            return i;
        }
        i += 1;
    }
    i
}

impl TextInput {
    /// The input of a field.
    pub fn new(id: Id) -> (made: Self)
        ensures
            made.id == Some(id),
    {
        TextInput { id: Some(id) }
    }

    /// What a key does to the input.
    pub fn command(&self, event: &Event) -> (cmd: Cmd)
        ensures
            cmd == input_command(event@),
    {
        match event {
            Event::Keyboard(Key::Left) => Cmd::Move(Direction::Left),
            Event::Keyboard(Key::Right) => Cmd::Move(Direction::Right),
            Event::Keyboard(Key::Home) => Cmd::GoTo(Position::Begin),
            Event::Keyboard(Key::End) => Cmd::GoTo(Position::End),
            Event::Keyboard(Key::Delete) => Cmd::Cancel,
            Event::Keyboard(Key::Backspace) => Cmd::Delete,
            Event::Keyboard(Key::Char(c)) => Cmd::Type(*c),
            _ => Cmd::Idle,
        }
    }

    /// The message for what became of the input's text: a changed text is
    /// told with the field's name, and nothing is told where it did not
    /// change. Only an input that is a field can have its text changed.
    pub fn on(&self, changed: Option<String>) -> (msg: Option<Msg>)
        requires
            changed is Some ==> self.id is Some,
        ensures
            msg_of(msg) == match text_of(changed) {
                Some(text) => Some(MsgView::Input(self.id->Some_0, text)),
                None => None,
            },
    {
        match changed {
            Some(text) => match self.id {
                Some(id) => Some(Msg::Input(id, text)),
                None => None,
            },
            None => None,
        }
    }

    /// Reads a request made of an action, a colon and a target, and says
    /// whether the input is to show focus, to drop it, or to do neither.
    pub fn perform(&self, request: &str) -> (focus: Option<bool>)
        requires
            colon_from(request@, 0) < request@.len(),
        ensures
            focus == focus_asked(self.id, request@),
    {
        let first = find_colon(request, 0);
        let second = find_colon(request, first + 1);
        let action = request.substring_char(0, first);
        let target = request.substring_char(first + 1, second);
        match self.id {
            Some(id) => {
                if same_text(action, "focus") {
                    Some(same_text(id.name().as_str(), target))
                } else {
                    None
                }
            },
            None => None,
        }
    }
}

impl Default for TextInput {
    fn default() -> (made: Self)
        ensures
            made.id is None,
    {
        TextInput { id: None }
    }
}

} // verus!
