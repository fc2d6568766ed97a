//! Reusable building blocks of the interface.

pub mod stateful_list;
