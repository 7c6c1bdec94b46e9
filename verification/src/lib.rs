//! The core of a terminal file browser.
//!
//! The library holds what the browser decides: how permission bits are
//! written and read, how a cursor moves over a list, how a directory is
//! listed, what is shown of an entry, and how keys change the state of the
//! application. It never reads or writes the disk or the terminal. Whoever
//! drives it does that, hands in what was found and carries out what the
//! library asks for.

pub mod app;
pub mod entry;
pub mod events;
pub mod keys;
pub mod listing;
pub mod mode;
pub mod permissions;
pub mod screen;
pub mod stateful_list;
pub mod text;
