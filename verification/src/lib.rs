//! A lazily evaluated getter for responses of a content-addressed data network.

pub mod data;
pub mod errors;
pub mod laws;
pub mod message_queue;
pub mod response_getter;
pub mod sync;
pub mod translated_events;
