//! Decision logic of global keyboard shortcuts.
//!
//! The operating system delivers key events or key states, and an application
//! reacts when a shortcut is pressed or released. This crate holds what lies in
//! between: how keys are identified, when a shortcut counts as pressed, how
//! presses are debounced, and which shortcut an observation triggers.
//!
//! Where key events are reported, [`input`] names the keys and [`processor`]
//! handles the events. Where the keyboard is polled, [`layout_query`] asks for the
//! characters of the keys, [`keyboard`] tells which keys are down by the tables of
//! [`keymap`], and [`poller`] looks at the keyboard. Both keep the shortcuts in a
//! [`tracker`].
//!
//! What holds of all this is stated and proved beside it: [`laws`] and
//! [`outcome_laws`] of the shortcuts, [`key_laws`] and [`table_laws`] of the keys,
//! and [`query_laws`] of the layout question.

pub mod binding;
mod clock;
pub mod input;
pub mod key_laws;
pub mod keyboard;
pub mod keymap;
pub mod laws;
pub mod layout_query;
pub mod outcome_laws;
pub mod poller;
pub mod processor;
pub mod query_laws;
pub mod table_laws;
pub mod tracker;
