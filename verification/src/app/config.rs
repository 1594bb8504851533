//! The settings of the application.

use vstd::prelude::*;

verus! {

/// The looks that are offered for choice.
#[derive(Clone, Copy, Debug, PartialEq, Eq, Structural)]
pub enum AppTheme {
    /// The look of the desktop.
    System,
    Dark,
    Light,
}

impl AppTheme {
    /// The look at the given place among those that are offered; that of the desktop elsewhere.
    pub open spec fn spec_at(position: usize) -> AppTheme {
        if position == 1 {
            AppTheme::Dark
        } else if position == 2 {
            AppTheme::Light
        } else {
            AppTheme::System
        }
    }

    /// The look at the given place among those that are offered; that of the desktop elsewhere.
    pub fn at(position: usize) -> (theme: AppTheme)
        ensures
            theme == AppTheme::spec_at(position),
    {
        if position == 1 {
            AppTheme::Dark
        } else if position == 2 {
            AppTheme::Light
        } else {
            AppTheme::System
        }
    }

    /// The place of the look among those that are offered.
    pub fn position(self) -> (position: usize)
        ensures
            position < 3,
            AppTheme::spec_at(position) == self,
    {
        match self {
            AppTheme::System => 0,
            AppTheme::Dark => 1,
            AppTheme::Light => 2,
        }
    }
}

/// The settings of the application.
#[derive(Clone, Copy, Debug, PartialEq, Eq, Structural)]
pub struct TasksConfig {
    pub app_theme: AppTheme,
    pub hide_completed: bool,
}

/// The looks are offered in the order of the desktop's own, the dark and the light one. Any other place
/// stands for the desktop's own.
pub proof fn looks_are_offered_in_order(position: usize)
    ensures
        AppTheme::spec_at(0) == AppTheme::System,
        AppTheme::spec_at(position) == AppTheme::Dark <==> position == 1,
        AppTheme::spec_at(position) == AppTheme::Light <==> position == 2,
{
}

} // verus!
