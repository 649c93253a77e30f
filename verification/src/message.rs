//! Role-tagged conversation entries.

use vstd::prelude::*;

verus! {

/// Who is speaking in one entry of a conversation.
#[derive(Clone, Copy, Debug, PartialEq, Eq, Structural)]
pub enum Role {
    /// Instructions that frame the conversation.
    System,
    /// Something a participant of the channel wrote.
    User,
    /// Something the model answered.
    Assistant,
}

/// The mathematical value of a [`RoleTaggedMessage`]: its role and the
/// characters of its content.
pub struct MessageView {
    pub role: Role,
    pub content: Seq<char>,
}

/// One entry of a conversation. An entry is never changed once it exists.
#[derive(Debug, PartialEq, Eq)]
pub struct RoleTaggedMessage {
    pub role: Role,
    pub content: String,
}

impl View for RoleTaggedMessage {
    type V = MessageView;

    open spec fn view(&self) -> MessageView {
        MessageView { role: self.role, content: self.content@ }
    }
}

/// The values of a sequence of entries, in the same order.
pub open spec fn message_views(entries: Seq<RoleTaggedMessage>) -> Seq<MessageView> {
    entries.map_values(|entry: RoleTaggedMessage| entry@)
}

impl Clone for RoleTaggedMessage {
    fn clone(&self) -> (copy: Self)
        ensures
            copy == *self,
    {
        RoleTaggedMessage { role: self.role, content: self.content.clone() }
    }
}

impl RoleTaggedMessage {
    /// An entry with the given role and content.
    pub fn new(role: Role, content: String) -> (message: Self)
        ensures
            message.role == role,
            message.content == content,
    {
        RoleTaggedMessage { role, content }
    }

    /// An entry that frames the conversation.
    pub fn system(content: String) -> (message: Self)
        ensures
            message@ == (MessageView { role: Role::System, content: content@ }),
    {
        RoleTaggedMessage { role: Role::System, content }
    }

    /// An entry for something a participant wrote.
    pub fn user(content: String) -> (message: Self)
        ensures
            message@ == (MessageView { role: Role::User, content: content@ }),
    {
        RoleTaggedMessage { role: Role::User, content }
    }

    /// An entry for something the model answered.
    pub fn assistant(content: String) -> (message: Self)
        ensures
            message@ == (MessageView { role: Role::Assistant, content: content@ }),
    {
        RoleTaggedMessage { role: Role::Assistant, content }
    }
}

} // verus!
