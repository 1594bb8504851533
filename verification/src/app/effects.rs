//! What the application asks of the world around it.

use vstd::prelude::*;

use crate::app::config::AppTheme;
use crate::app::operations::{StorageOperation, StorageOperationView};
use crate::app::{Message, MessageView};
use crate::pages::{content, details};

verus! {

/// What the application asks of the world around it.
#[derive(Debug)]
pub enum Effect {
    /// To begin an operation of the storage.
    Spawn(StorageOperation),
    /// To count the tasks of the lists anew after so many milliseconds.
    RefreshCountsAfter(u64),
    /// To tell the page that shows the tasks.
    UpdateContent(content::Message),
    /// To tell the page that shows the details of a task.
    UpdateDetails(details::Message),
    /// To handle a message.
    Dispatch(Message),
    /// To find the messages that a key is bound to, with the keys that were held down beside it, and to
    /// hand them back.
    FindBindings(u32, u32),
    /// To choose the priority at a place among those that are offered.
    ActivatePriority(u16),
    CloseWindow(u64),
    /// To start the program once more.
    OpenWindow,
    /// To write the look to the settings.
    StoreTheme(AppTheme),
    /// To write to the settings whether completed tasks are hidden.
    StoreHideCompleted(bool),
    SetTheme(AppTheme),
    /// To put the focus on a widget.
    Focus(u64),
    OpenUrl(String),
    CopyToClipboard(String),
    /// To give a window a title.
    SetWindowTitle(u64, String),
    /// To fold or unfold the lists of a narrow window.
    ToggleNavBar,
}

/// What an [`Effect`] says.
pub enum EffectView {
    Spawn(StorageOperationView),
    RefreshCountsAfter(u64),
    UpdateContent(content::MessageView),
    UpdateDetails(details::Message),
    Dispatch(MessageView),
    FindBindings(u32, u32),
    ActivatePriority(u16),
    CloseWindow(u64),
    OpenWindow,
    StoreTheme(AppTheme),
    StoreHideCompleted(bool),
    SetTheme(AppTheme),
    Focus(u64),
    OpenUrl(Seq<char>),
    CopyToClipboard(Seq<char>),
    SetWindowTitle(u64, Seq<char>),
    ToggleNavBar,
}

impl DeepView for Effect {
    type V = EffectView;

    open spec fn deep_view(&self) -> EffectView {
        match self {
            Effect::Spawn(operation) => EffectView::Spawn(operation@),
            Effect::RefreshCountsAfter(delay_ms) => EffectView::RefreshCountsAfter(*delay_ms),
            Effect::UpdateContent(message) => EffectView::UpdateContent(message@),
            Effect::UpdateDetails(message) => EffectView::UpdateDetails(*message),
            Effect::Dispatch(message) => EffectView::Dispatch(message@),
            Effect::FindBindings(modifiers, key) => EffectView::FindBindings(*modifiers, *key),
            Effect::ActivatePriority(position) => EffectView::ActivatePriority(*position),
            Effect::CloseWindow(window_id) => EffectView::CloseWindow(*window_id),
            Effect::OpenWindow => EffectView::OpenWindow,
            Effect::StoreTheme(theme) => EffectView::StoreTheme(*theme),
            Effect::StoreHideCompleted(hidden) => EffectView::StoreHideCompleted(*hidden),
            Effect::SetTheme(theme) => EffectView::SetTheme(*theme),
            Effect::Focus(id) => EffectView::Focus(*id),
            Effect::OpenUrl(url) => EffectView::OpenUrl(url@),
            Effect::CopyToClipboard(text) => EffectView::CopyToClipboard(text@),
            Effect::SetWindowTitle(window_id, title) => {
                EffectView::SetWindowTitle(*window_id, title@)
            },
            Effect::ToggleNavBar => EffectView::ToggleNavBar,
        }
    }
}

impl View for Effect {
    type V = EffectView;

    open spec fn view(&self) -> EffectView {
        self.deep_view()
    }
}

/// Nothing to ask for.
pub(crate) fn nothing() -> (effects: Vec<Effect>)
    ensures
        effects.deep_view() == Seq::<EffectView>::empty(),
{
    let effects: Vec<Effect> = Vec::new();
    assert(effects.deep_view() =~= Seq::empty());
    effects
}

/// One thing to ask for.
pub(crate) fn only(effect: Effect) -> (effects: Vec<Effect>)
    ensures
        effects.deep_view() == seq![effect@],
{
    let mut effects: Vec<Effect> = Vec::new();
    effects.push(effect);
    assert(effects.deep_view() =~= seq![effect@]);
    effects
}

/// Two things to ask for.
pub(crate) fn both(first: Effect, second: Effect) -> (effects: Vec<Effect>)
    ensures
        effects.deep_view() == seq![first@, second@],
{
    let mut effects: Vec<Effect> = Vec::new();
    effects.push(first);
    effects.push(second);
    assert(effects.deep_view() =~= seq![first@, second@]);
    effects
}

/// Puts `more` behind `effects`.
pub(crate) fn append(effects: &mut Vec<Effect>, more: Vec<Effect>)
    ensures
        final(effects).deep_view() == old(effects).deep_view() + more.deep_view(),
{
    let ghost before = effects.deep_view();
    let ghost behind = more.deep_view();
    let mut more = more;
    effects.append(&mut more);
    assert(effects.deep_view() =~= before + behind);
}

} // verus!
