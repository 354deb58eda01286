//! The status label: one line of text at the foot of the screen.

use vstd::prelude::*;
use crate::components::{Event, EventView};
use crate::constants::{Msg, UserEvent, UserEventView};

verus! {

/// What the label keeps: the text it shows.
#[derive(Debug, Clone)]
pub struct TextLabel {
    pub text: String,
}

/// The text that the label shows after a batch: the message of the last
/// error that the batch brought, and the text it showed where the batch
/// brought none.
pub open spec fn label_text(shown: Seq<char>, events: Seq<UserEventView>) -> Seq<char>
    decreases events.len(),
{
    if events.len() == 0 {
        shown
    } else {
        match events.last() {
            UserEventView::Error(message) => message,
            _ => label_text(shown, events.drop_last()),
        }
    }
}

impl Default for TextLabel {
    fn default() -> (made: Self)
        ensures
            made.text@ == "Waiting for a Msg..."@,
    {
        TextLabel { text: "Waiting for a Msg...".to_owned() }
    }
}

impl TextLabel {
    /// Takes an event. The label shows the last error of a batch and leaves
    /// every other event alone; it answers with no message.
    pub fn on(&mut self, event: &Event) -> (msg: Option<Msg>)
        ensures
            msg is None,
            final(self).text@ == match event@ {
                EventView::User(events) => label_text(old(self).text@, events),
                _ => old(self).text@,
            },
    {
        match event {
            Event::User(batch) => {
                let mut i: usize = 0;
                while i < batch.events.len()
                    invariant
                        i <= batch.events.len(),
                        self.text@ == label_text(old(self).text@, batch@.take(i as int)),
                    decreases batch.events.len() - i,
                {
                    proof {
                        let seen = batch@.take(i as int);
                        let more = batch@.take(i + 1);
                        assert(more.drop_last() =~= seen);
                        assert(more.last() == batch.events[i as int]@);
                    }
                    match &batch.events[i] {
                        UserEvent::Error(message) => {
                            self.text = message.clone();
                        },
                        _ => {},
                    }
                    i += 1;
                }
                assert(batch@.take(i as int) =~= batch@);
            },
            _ => {},
        }
        None
    }
}

} // verus!
