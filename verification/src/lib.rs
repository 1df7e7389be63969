//! The decision core of a clipboard paste utility.
//!
//! The utility toggles a window with a global hotkey, remembers which
//! application had the input focus before the window took it, and later sends
//! a paste keystroke to that application. Every call to the operating system
//! or to the window host is made by the caller: the functions here say which
//! call comes next and what to do with its answer.

pub mod platform;
pub mod toggle;
pub mod tracker;
pub mod paste;
pub mod commands;
