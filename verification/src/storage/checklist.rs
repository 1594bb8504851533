//! The steps of a task.

use vstd::prelude::*;

use crate::storage::models::{ChecklistItem, ChecklistItemView};

verus! {

/// What is to become of a step.
#[derive(Debug)]
pub enum ItemChange {
    /// It gets another title.
    Rename(String),
    /// It is checked if it was not, and the other way round.
    Toggle,
}

/// What an [`ItemChange`] says.
pub enum ItemChangeView {
    Rename(Seq<char>),
    Toggle,
}

impl View for ItemChange {
    type V = ItemChangeView;

    open spec fn view(&self) -> ItemChangeView {
        match self {
            ItemChange::Rename(title) => ItemChangeView::Rename(title@),
            ItemChange::Toggle => ItemChangeView::Toggle,
        }
    }
}

/// The place of the first step with the id `item_id`.
pub open spec fn item_place(items: Seq<ChecklistItemView>, item_id: Seq<char>) -> Option<int>
    decreases items.len(),
{
    if items.len() == 0 {
        None
    } else if items[0].id == item_id {
        Some(0)
    } else {
        match item_place(items.drop_first(), item_id) {
            Some(i) => Some(i + 1),
            None => None,
        }
    }
}

/// `items` with `item` in the place of the first step with its id, if there is one.
pub open spec fn with_item(
    items: Seq<ChecklistItemView>,
    item: ChecklistItemView,
) -> Seq<ChecklistItemView> {
    match item_place(items, item.id) {
        Some(i) => items.update(i, item),
        None => items,
    }
}

/// `items` without the steps with the id `item_id`.
pub open spec fn without_item(items: Seq<ChecklistItemView>, item_id: Seq<char>) -> Seq<
    ChecklistItemView,
> {
    items.filter(|item: ChecklistItemView| item.id != item_id)
}

/// `item` after `change`.
pub open spec fn changed(item: ChecklistItemView, change: ItemChangeView) -> ChecklistItemView {
    match change {
        ItemChangeView::Rename(title) => ChecklistItemView { display_name: title, ..item },
        ItemChangeView::Toggle => ChecklistItemView { is_checked: !item.is_checked, ..item },
    }
}

/// Finds the first step with the id `item_id`.
pub fn find_item(items: &Vec<ChecklistItem>, item_id: &String) -> (place: Option<usize>)
    ensures
        match place {
            Some(i) => i < items@.len() && item_place(items.deep_view(), item_id@) == Some(i as int),
            None => item_place(items.deep_view(), item_id@) is None,
        },
{
    let ghost all = items.deep_view();
    let mut i: usize = 0;
    assert(all.skip(0) =~= all);
    while i < items.len()
        invariant
            i <= items@.len(),
            all == items.deep_view(),
            item_place(all, item_id@) == (match item_place(all.skip(i as int), item_id@) {
                Some(j) => Some(i + j),
                None => None,
            }),
        decreases items@.len() - i,
    {
        assert(all.skip(i as int).drop_first() =~= all.skip(i + 1));
        if items[i].id == *item_id {
            return Some(i);
        }
        i += 1;
    }
    None
}

/// Gives `item` after `change`.
pub fn change_item(item: &ChecklistItem, change: &ItemChange) -> (r: ChecklistItem)
    ensures
        r@ == changed(item@, change@),
{
    let mut item = item.clone();
    match change {
        ItemChange::Rename(title) => {
            item.display_name = title.clone();
        },
        ItemChange::Toggle => {
            item.is_checked = !item.is_checked;
        },
    }
    item
}

/// A step that is found has the id that was looked for, and no step before it has.
proof fn lemma_item_place(items: Seq<ChecklistItemView>, item_id: Seq<char>)
    ensures
        match item_place(items, item_id) {
            Some(i) => 0 <= i < items.len() && items[i].id == item_id && forall|j: int|
                0 <= j < i ==> (#[trigger] items[j]).id != item_id,
            None => forall|j: int| 0 <= j < items.len() ==> (#[trigger] items[j]).id != item_id,
        },
    decreases items.len(),
{
    if items.len() > 0 && items[0].id != item_id {
        let rest = items.drop_first();
        lemma_item_place(rest, item_id);
        let n = match item_place(items, item_id) {
            Some(i) => i,
            None => items.len() as int,
        };
        assert forall|j: int| 0 <= j < n implies (#[trigger] items[j]).id != item_id by {
            if j > 0 {
                assert(rest[j - 1] == items[j]);
            }
        }
    }
}

/// Changing a step changes no other step: the steps stay as many, and keep their order and ids.
pub proof fn changed_item_stays_in_place(
    items: Seq<ChecklistItemView>,
    item: ChecklistItemView,
    i: int,
)
    requires
        0 <= i < items.len(),
    ensures
        with_item(items, item).len() == items.len(),
        with_item(items, item)[i].id == items[i].id,
        with_item(items, item)[i] == items[i] || with_item(items, item)[i] == item,
        (exists|j: int| 0 <= j < items.len() && (#[trigger] items[j]).id == item.id)
            ==> with_item(items, item).contains(item),
{
    lemma_item_place(items, item.id);
    if let Some(j) = item_place(items, item.id) {
        assert(with_item(items, item)[j] == item);
    }
}

/// A step that was deleted is gone, and every step with another id stays.
pub proof fn deleted_item_is_gone(
    items: Seq<ChecklistItemView>,
    item_id: Seq<char>,
    item: ChecklistItemView,
)
    ensures
        without_item(items, item_id).contains(item) <==> items.contains(item) && item.id != item_id,
{
    broadcast use vstd::seq_lib::group_filter_ensures;

    let stays = |item: ChecklistItemView| item.id != item_id;
    if without_item(items, item_id).contains(item) {
        let i = choose|i: int|
            0 <= i < without_item(items, item_id).len() && without_item(items, item_id)[i] == item;
        items.lemma_filter_pred(stays, i);
        items.lemma_filter_contains_rev(stays, item);
    }
    if items.contains(item) && stays(item) {
        let i = choose|i: int| 0 <= i < items.len() && items[i] == item;
        items.lemma_filter_contains(stays, i);
    }
}

/// Toggling a step twice leaves it as it was.
pub proof fn toggling_is_undone(item: ChecklistItemView)
    ensures
        changed(changed(item, ItemChangeView::Toggle), ItemChangeView::Toggle) == item,
{
}

/// Of the steps with the id of a step that has changed, the first gets its new state. Every other step
/// stays as it is, and so do all where there is none with that id.
pub proof fn first_step_with_the_id_is_changed(
    items: Seq<ChecklistItemView>,
    item: ChecklistItemView,
    i: int,
)
    ensures
        0 <= i < items.len() && items[i].id == item.id && (forall|j: int|
            0 <= j < i ==> (#[trigger] items[j]).id != item.id) ==> with_item(items, item)
            == items.update(i, item),
        (forall|j: int| 0 <= j < items.len() ==> (#[trigger] items[j]).id != item.id) ==> with_item(
            items,
            item,
        ) == items,
{
    lemma_item_place(items, item.id);
}

/// A step is found by its id: the first with that id, and none if and only if no step has it.
pub proof fn first_step_with_the_id_is_found(items: Seq<ChecklistItemView>, item_id: Seq<char>, i: int)
    ensures
        item_place(items, item_id) == Some(i) <==> 0 <= i < items.len() && items[i].id == item_id && (
        forall|j: int| 0 <= j < i ==> (#[trigger] items[j]).id != item_id),
        item_place(items, item_id) is None <==> (forall|j: int|
            0 <= j < items.len() ==> (#[trigger] items[j]).id != item_id),
{
    lemma_item_place(items, item_id);
}

/// Another title changes nothing but the title, and a toggle nothing but whether the step is checked.
pub proof fn change_is_what_was_asked_for(item: ChecklistItemView, title: Seq<char>)
    ensures
        ({
            let renamed = changed(item, ItemChangeView::Rename(title));
            let toggled = changed(item, ItemChangeView::Toggle);
            &&& renamed.display_name == title
            &&& renamed.is_checked == item.is_checked
            &&& renamed.id == item.id
            &&& toggled.is_checked != item.is_checked
            &&& toggled.display_name == item.display_name
            &&& toggled.id == item.id
        }),
{
}

/// Deleting a step leaves the steps with other ids in their order: one that stands behind all others
/// stays behind them, or goes where it has the id.
pub proof fn remaining_steps_keep_their_order(
    items: Seq<ChecklistItemView>,
    last: ChecklistItemView,
    item_id: Seq<char>,
)
    ensures
        without_item(Seq::empty(), item_id).len() == 0,
        last.id != item_id ==> without_item(items.push(last), item_id) == without_item(
            items,
            item_id,
        ).push(last),
        last.id == item_id ==> without_item(items.push(last), item_id) == without_item(items, item_id),
{
    reveal(Seq::filter);
    assert(items.push(last).drop_last() =~= items);
}

} // verus!
