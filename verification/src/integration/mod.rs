//! The services that hold the lists.

pub mod ms_todo;
