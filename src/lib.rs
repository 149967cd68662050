//! Turns a raw keyboard input-event stream into typed text: fixed-size event
//! records are decoded, key events are planned into layout updates, and the
//! outcome of the compose state machine decides which text is emitted.
pub mod compose;
pub mod event;
pub mod keys;
