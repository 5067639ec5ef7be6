//! A stack of screens driven by one update per frame.
//!
//! The host captures input into an [`event::EventQueue`]; once per frame the
//! active state on the [`transition::StateStack`] is offered the queued events
//! and then an update, and whatever it answers is followed until the stack
//! has settled.

pub mod driver;
pub mod event;
pub mod rem;
pub mod state;
pub mod storage;
pub mod transition;
pub mod ui;
