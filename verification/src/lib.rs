//! A task manager that keeps its lists in Microsoft To Do.

pub mod app;
pub mod clock;
pub mod integration;
pub mod pages;
pub mod startup;
pub mod storage;
pub mod text;
