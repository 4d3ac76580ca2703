//! Taskbar badge logic for a desktop shell wrapper.
//!
//! An unread count is shown on a window's taskbar button as a small overlay
//! icon. This crate holds the decisions behind that:
//!
//! - `glyph`: which badge a count stands for, and the paths of its glyph;
//! - `search`: the order in which candidate icon files are looked for;
//! - `update`: the sequence of shell calls that one badge update makes;
//! - `command`: the command by which a badge is asked for;
//! - `shell`: the identifier of the shell's taskbar class;
//! - `handle`: the native handles that are carried from call to call.
//!
//! Nothing here touches the operating system. The two state machines,
//! `search::IconSearch` and `update::BadgeUpdate`, say which call is due next;
//! the caller makes it and reports what came back. What the machines do on
//! every disk and every shell is stated and proved beside them.

pub mod command;
pub mod glyph;
pub mod handle;
pub mod search;
pub mod shell;
pub mod update;
