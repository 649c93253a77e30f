//! Identifiers of the chat platform, as the platform's own model types.
//!
//! The values are carried through unchanged: nothing in this crate looks
//! inside one, and two of them are only ever compared for equality.

use twilight_model::id::marker::ChannelMarker;
use twilight_model::id::Id;
use vstd::prelude::*;

verus! {

/// An identifier of the platform, tagged with the kind of thing it names.
#[verifier::external_type_specification]
#[verifier::external_body]
#[verifier::reject_recursive_types(T)]
pub struct ExId<T>(twilight_model::id::Id<T>);

/// The tag of identifiers that name channels.
#[verifier::external_type_specification]
#[verifier::external_body]
pub struct ExChannelMarker(twilight_model::id::marker::ChannelMarker);

/// The tag of identifiers that name messages.
#[verifier::external_type_specification]
#[verifier::external_body]
pub struct ExMessageMarker(twilight_model::id::marker::MessageMarker);

/// A location in the file system.
#[verifier::external_type_specification]
#[verifier::external_body]
pub struct ExPath(std::path::Path);

/// `PartialEq` of two channel identifiers, which compares the numbers they
/// wrap: they are equal exactly when they name the same channel.
#[verifier::external_body]
pub(crate) fn same_channel(left: &Id<ChannelMarker>, right: &Id<ChannelMarker>) -> (same: bool)
    ensures
        same == (*left == *right),
{
    left == right
}

} // verus!
