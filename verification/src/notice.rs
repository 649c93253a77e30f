//! The one error notice that a channel may show at a time.

use twilight_model::id::marker::MessageMarker;
use twilight_model::id::Id;
use vstd::prelude::*;

use crate::completion::CompletionError;

verus! {

/// The text of the notice that reports `error` in the channel.
pub open spec fn notice_text_of(error: CompletionError) -> Seq<char> {
    "Something went wrong while generating a response\n```\n"@ + error.description_text()
        + "\n```"@
}

/// The text of the notice that reports `error` in the channel.
pub fn notice_text(error: CompletionError) -> (text: String)
    ensures
        text@ == notice_text_of(error),
{
    let mut text = String::from_str("Something went wrong while generating a response\n```\n");
    let description = error.description();
    text.append(description.as_str());
    text.append("\n```");
    text
}

/// Keeps track of the error notice that is on show, if any. There is never
/// more than one: whenever a tracked notice makes way, its id is handed to the
/// caller, who deletes the message.
#[derive(Debug)]
pub struct ErrorAnnouncer {
    live: Option<Id<MessageMarker>>,
}

impl View for ErrorAnnouncer {
    type V = Option<Id<MessageMarker>>;

    closed spec fn view(&self) -> Option<Id<MessageMarker>> {
        self.live
    }
}

impl ErrorAnnouncer {
    /// An announcer with no notice on show.
    pub fn new() -> (announcer: Self)
        ensures
            announcer@ is None,
    {
        ErrorAnnouncer { live: None }
    }

    /// The notice on show, if any.
    pub fn live(&self) -> (id: Option<Id<MessageMarker>>)
        ensures
            id == self@,
    {
        self.live
    }

    /// Stops tracking the notice on show and hands out its id for deletion.
    pub fn retire(&mut self) -> (stale: Option<Id<MessageMarker>>)
        ensures
            stale == old(self)@,
            final(self)@ is None,
    {
        let stale = self.live;
        self.live = None;
        stale
    }

    /// Tracks the notice that was just posted, or none where posting failed,
    /// and hands out the id of the notice that it replaces.
    pub fn track(&mut self, posted: Option<Id<MessageMarker>>) -> (stale: Option<Id<MessageMarker>>)
        ensures
            stale == old(self)@,
            final(self)@ == posted,
    {
        let stale = self.live;
        self.live = posted;
        stale
    }
}

} // verus!
