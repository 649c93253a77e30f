//! Decision logic for relaying a chat channel to a conversational language
//! model.
//!
//! Messages of one channel are collected in batches, joined to a bounded
//! history and sent to the model together with a prompt; the model's reply, or
//! a notice that it failed, goes back to the channel. This crate decides and
//! proves; it performs no input or output. What it decides:
//!
//! - [`history`]: how the bounded history grows and is trimmed;
//! - [`text`]: how a reply is cut to what the channel displays, and when the
//!   model has chosen not to reply;
//! - [`completion`]: what is asked of the model, and how its answer is read;
//! - [`notice`]: which error notice is on show, and what it says;
//! - [`pacing`]: when the next request may start;
//! - [`ingest`]: which messages of the platform are relayed;
//! - [`orchestrator`]: the loop that ties these together, as a state machine
//!   from events to directives;
//! - [`config`], [`message`], [`platform`]: the values that the others work on.

pub mod completion;
pub mod config;
pub mod history;
pub mod ingest;
pub mod message;
pub mod notice;
pub mod orchestrator;
pub mod pacing;
pub mod platform;
pub mod text;
