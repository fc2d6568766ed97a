//! A terminal menu-navigation engine.
//!
//! The crate holds the state of a menu-driven session and the rules that
//! move it: wraparound lists, a catalog of menus whose entries carry
//! actions, the view and popup state machine that key presses drive, and
//! the mapping from a session to the widgets that show it. Drawing,
//! reading the keyboard and running tasks are left to the caller, which
//! hands the session plain values and acts on what it gets back.

pub mod actions;
pub mod app;
pub mod components;
pub mod event;
pub mod keys;
pub mod layout;
pub mod text_input;
pub mod ui;
pub mod wrap;
