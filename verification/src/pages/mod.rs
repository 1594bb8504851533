//! What passes between the application and its pages.

pub mod content;
pub mod details;
