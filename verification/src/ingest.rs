//! Which events of the platform become messages for the model.

use twilight_model::id::marker::ChannelMarker;
use twilight_model::id::Id;
use vstd::prelude::*;

use crate::config::Configuration;
use crate::message::{MessageView, Role, RoleTaggedMessage};
use crate::platform::same_channel;

verus! {

/// Whether a message is relayed: it was written in the relayed channel and is
/// a plain message of a participant.
pub open spec fn relayed(
    channel: Id<ChannelMarker>,
    origin: Id<ChannelMarker>,
    plain_user_message: bool,
) -> bool {
    origin == channel && plain_user_message
}

/// Decides what a message of the platform adds to the queue: a user entry with
/// its content where the message is relayed, nothing otherwise.
pub fn ingest(
    config: &Configuration,
    origin: &Id<ChannelMarker>,
    plain_user_message: bool,
    content: String,
) -> (queued: Option<RoleTaggedMessage>)
    ensures
        match queued {
            Some(message) => relayed(config@.channel_id, *origin, plain_user_message) && message@
                == (MessageView { role: Role::User, content: content@ }),
            None => !relayed(config@.channel_id, *origin, plain_user_message),
        },
{
    if plain_user_message && same_channel(origin, config.get_channel_id()) {
        Some(RoleTaggedMessage::user(content))
    } else {
        None
    }
}

} // verus!
