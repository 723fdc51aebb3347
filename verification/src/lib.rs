//! The interactive core of a terminal dashboard for server maintenance.
//!
//! The crate holds the decisions of the dashboard and none of its input or
//! output: a wrap-around selection cursor, the ordering and filtering of a
//! directory listing, the table that maps a menu line to what it starts, the
//! state machine that interprets keys and scheduler ticks, and the projection
//! of a state to the screen that shows it. A driver owns the terminal, reads
//! directories and runs the long operations; it hands their results in as
//! plain values and receives an [`machine::Action`] that names what to do next.

pub mod selection;
pub mod text;
pub mod listing;
pub mod menu;
pub mod keys;
pub mod machine;
pub mod screen;
pub mod location;
