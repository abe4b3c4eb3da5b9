//! The core of an interactive terminal browser: a selection list with
//! wraparound navigation, leaf items that fire an action on activation, and a
//! dispatcher that routes input events to registered receivers and swaps the
//! visible widget set when an action completes.
//!
//! The library reads no keyboard, no disk and no screen. Its caller reads
//! one input event and hands it to [`app::App::propagate_events`]; where
//! that returns an action, the caller reads what the action names and hands
//! the result to [`app::App::complete`]; and it paints what
//! [`app::App::render`] lays out.

pub mod app;
pub mod draw;
pub mod error;
pub mod event;
pub mod handle;
pub mod layout;
pub mod listing;
pub mod style;
pub mod widgets;
