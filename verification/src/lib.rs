//! Core of a terminal file browser: a selectable list with a cyclic cursor,
//! path computations on directory strings, and the navigation state machine
//! that applies directory listings and file-operation outcomes to the state.

pub mod input;
pub mod list;
pub mod nav;
pub mod path;
