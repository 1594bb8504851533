//! The dialogs in front of the tasks.

use vstd::prelude::*;

use crate::clock;

verus! {

/// A day, and a time of that day.
#[derive(Clone, Copy, Debug, PartialEq, Eq, Structural)]
pub struct DateTimeInfo {
    /// The number of the day.
    pub day: i32,
    /// The seconds of the day that have passed.
    pub second_of_day: u32,
}

impl DateTimeInfo {
    /// The point in time, in seconds since the Unix epoch.
    pub open spec fn spec_seconds(self) -> int {
        (self.day - clock::EPOCH_DAY) * 86400 + self.second_of_day
    }

    /// The first second of a day.
    pub fn new(day: i32) -> (info: DateTimeInfo)
        ensures
            info == (DateTimeInfo { day, second_of_day: 0 }),
    {
        DateTimeInfo { day, second_of_day: 0 }
    }

    /// The point in time, in seconds since the Unix epoch.
    pub fn to_naive_datetime(&self) -> (seconds: i64)
        ensures
            seconds == self.spec_seconds(),
    {
        (self.day as i64 - clock::EPOCH_DAY as i64) * 86400 + self.second_of_day as i64
    }
}

/// A dialog in front of the tasks.
#[derive(Debug)]
pub enum DialogPage {
    /// Asks for the name of a new list.
    New(String),
    /// Asks for another name of a list: that of an item, or the one that is chosen.
    Rename(Option<u64>, String),
    /// Asks whether to delete a list: that of an item, or the one that is chosen.
    Delete(Option<u64>),
    /// Asks when a task is due.
    Calendar(DateTimeInfo),
    /// Asks when to be reminded of a task.
    ReminderCalendar(DateTimeInfo),
    /// Shows the text of a list.
    Export(String),
}

/// What a [`DialogPage`] says.
pub enum DialogPageView {
    New(Seq<char>),
    Rename(Option<u64>, Seq<char>),
    Delete(Option<u64>),
    Calendar(DateTimeInfo),
    ReminderCalendar(DateTimeInfo),
    Export(Seq<char>),
}

impl DeepView for DialogPage {
    type V = DialogPageView;

    open spec fn deep_view(&self) -> DialogPageView {
        match self {
            DialogPage::New(name) => DialogPageView::New(name@),
            DialogPage::Rename(entity, name) => DialogPageView::Rename(*entity, name@),
            DialogPage::Delete(entity) => DialogPageView::Delete(*entity),
            DialogPage::Calendar(info) => DialogPageView::Calendar(*info),
            DialogPage::ReminderCalendar(info) => DialogPageView::ReminderCalendar(*info),
            DialogPage::Export(text) => DialogPageView::Export(text@),
        }
    }
}

impl View for DialogPage {
    type V = DialogPageView;

    open spec fn view(&self) -> DialogPageView {
        self.deep_view()
    }
}

/// What is done with the dialogs.
#[derive(Debug)]
pub enum DialogAction {
    Open(DialogPage),
    Update(DialogPage),
    Close,
    Complete,
    Nothing,
}

/// What a [`DialogAction`] says.
pub enum DialogActionView {
    Open(DialogPageView),
    Update(DialogPageView),
    Close,
    Complete,
    Nothing,
}

impl View for DialogAction {
    type V = DialogActionView;

    open spec fn view(&self) -> DialogActionView {
        match self {
            DialogAction::Open(page) => DialogActionView::Open(page@),
            DialogAction::Update(page) => DialogActionView::Update(page@),
            DialogAction::Close => DialogActionView::Close,
            DialogAction::Complete => DialogActionView::Complete,
            DialogAction::Nothing => DialogActionView::Nothing,
        }
    }
}

impl Clone for DialogPage {
    fn clone(&self) -> (r: DialogPage)
        ensures
            r@ == self@,
    {
        match self {
            DialogPage::New(name) => DialogPage::New(name.clone()),
            DialogPage::Rename(entity, name) => DialogPage::Rename(*entity, name.clone()),
            DialogPage::Delete(entity) => DialogPage::Delete(*entity),
            DialogPage::Calendar(info) => DialogPage::Calendar(*info),
            DialogPage::ReminderCalendar(info) => DialogPage::ReminderCalendar(*info),
            DialogPage::Export(text) => DialogPage::Export(text.clone()),
        }
    }
}

impl Clone for DialogAction {
    fn clone(&self) -> (r: DialogAction)
        ensures
            r@ == self@,
    {
        match self {
            DialogAction::Open(page) => DialogAction::Open(page.clone()),
            DialogAction::Update(page) => DialogAction::Update(page.clone()),
            DialogAction::Close => DialogAction::Close,
            DialogAction::Complete => DialogAction::Complete,
            DialogAction::Nothing => DialogAction::Nothing,
        }
    }
}

/// A day and a time stand for the second of that day: in UTC it lies on the day, as many seconds after
/// its beginning, and the beginning of January 1, 1970 is second zero.
pub proof fn day_and_time_are_read_back(info: DateTimeInfo)
    requires
        clock::FIRST_DAY <= info.day <= clock::LAST_DAY,
        info.second_of_day < 86400,
    ensures
        clock::day_of(info.spec_seconds()) == Some(info.day as int),
        info.spec_seconds() % 86400 == info.second_of_day,
        (DateTimeInfo { day: 719163, second_of_day: 0 }).spec_seconds() == 0,
{
    clock::day_holds_its_seconds(info.spec_seconds(), info.day as int);
}

} // verus!
