//! Chat commands turned into timed key presses.
//!
//! The crate is the decision core of a chat-driven input controller. It
//! resolves key names, builds the table of actions from a configuration
//! document, tracks which inputs are in flight, and decides for every chat
//! message and every observed control key what has to happen next. Emitting
//! input events, waiting, talking to the chat server and ending the process
//! are left to the caller, who is told what to do by plain values.
//!
//! - [`keyboard`]: keys, their names, and the listener for the exit and the
//!   pause key.
//! - [`input`]: inputs and chords such as `ctrl+shift+f5`.
//! - [`debounce`]: the set of inputs in flight.
//! - [`actions`]: the action table and the dispatch of chat messages.
//! - [`config`]: the configuration document and the reasons to refuse it.
//! - [`exit_on_error`]: fatal conditions.
//! - [`text`]: the text primitives that the others share.
pub mod actions;
pub mod config;
pub mod debounce;
pub mod exit_on_error;
pub mod input;
pub mod keyboard;
pub mod text;
