//! The lists that are offered for choice, and the one that is chosen.

use vstd::prelude::*;
use vstd::string::*;

use crate::storage::filters;
use crate::storage::models::{List, ListView, Task, TaskView};
use crate::text;

verus! {

/// A list that is offered for choice.
#[derive(Debug)]
pub struct NavItem {
    /// The number by which the item is known.
    pub entity: u64,
    pub text: String,
    pub icon: String,
    /// Whether a line is drawn above the item.
    pub divider_above: bool,
    pub list: List,
}

/// The lists that are offered for choice, in the order in which they are shown.
#[derive(Debug)]
pub struct NavModel {
    items: Vec<NavItem>,
    active: Option<u64>,
    next_entity: u64,
}

/// What a [`NavItem`] says.
pub struct NavItemView {
    pub entity: u64,
    pub text: Seq<char>,
    pub icon: Seq<char>,
    pub divider_above: bool,
    pub list: ListView,
}

/// What a [`NavModel`] says.
pub struct NavView {
    pub items: Seq<NavItemView>,
    /// The item that is chosen.
    pub active: Option<u64>,
    /// The number that the next item gets.
    pub next_entity: u64,
}

impl DeepView for NavItem {
    type V = NavItemView;

    open spec fn deep_view(&self) -> NavItemView {
        NavItemView {
            entity: self.entity,
            text: self.text@,
            icon: self.icon@,
            divider_above: self.divider_above,
            list: self.list@,
        }
    }
}

impl View for NavItem {
    type V = NavItemView;

    open spec fn view(&self) -> NavItemView {
        self.deep_view()
    }
}

impl View for NavModel {
    type V = NavView;

    closed spec fn view(&self) -> NavView {
        NavView {
            items: self.items.deep_view(),
            active: self.active,
            next_entity: self.next_entity,
        }
    }
}

/// The text of an item: the name of its list, behind the number of its tasks if it has any.
pub open spec fn label(count: nat, name: Seq<char>) -> Seq<char> {
    if count > 0 {
        "("@ + text::decimal_digits(count) + ") "@ + name
    } else {
        name
    }
}

/// The icon of a list.
pub open spec fn icon_of(list: ListView) -> Seq<char> {
    match list.icon {
        Some(icon) => icon,
        None => "view-list-symbolic"@,
    }
}

/// The place of the item `entity`.
pub open spec fn place_of(items: Seq<NavItemView>, entity: u64) -> Option<int>
    decreases items.len(),
{
    if items.len() == 0 {
        None
    } else if items.last().entity == entity {
        Some(items.len() - 1)
    } else {
        place_of(items.drop_last(), entity)
    }
}

/// The place of the last item whose list has the id `list_id`.
pub open spec fn place_of_list(items: Seq<NavItemView>, list_id: Seq<char>) -> Option<int>
    decreases items.len(),
{
    if items.len() == 0 {
        None
    } else if items.last().list.id == list_id {
        Some(items.len() - 1)
    } else {
        place_of_list(items.drop_last(), list_id)
    }
}

/// The id of the first list that the service gives the role of the default list.
pub open spec fn default_list_id(items: Seq<NavItemView>) -> Option<Seq<char>>
    decreases items.len(),
{
    if items.len() == 0 {
        None
    } else if items[0].list.well_known_list_name == Some("defaultList"@) {
        Some(items[0].list.id)
    } else {
        default_list_id(items.drop_first())
    }
}

impl NavView {
    /// No lists.
    pub open spec fn empty() -> NavView {
        NavView { items: Seq::empty(), active: None, next_entity: 0 }
    }

    /// Every item has a number of its own, and the item that is chosen is there.
    pub open spec fn well_formed(self) -> bool {
        &&& forall|i: int|
            0 <= i < self.items.len() ==> (#[trigger] self.items[i]).entity < self.next_entity
        &&& forall|i: int, j: int|
            0 <= i < j < self.items.len() ==> (#[trigger] self.items[i]).entity != (
            #[trigger] self.items[j]).entity
        &&& self.active matches Some(entity) ==> place_of(self.items, entity) is Some
    }

    /// The list of the item `entity`.
    pub open spec fn data(self, entity: u64) -> Option<ListView> {
        match place_of(self.items, entity) {
            Some(i) => Some(self.items[i].list),
            None => None,
        }
    }

    /// The list that is chosen.
    pub open spec fn active_data(self) -> Option<ListView> {
        match self.active {
            Some(entity) => self.data(entity),
            None => None,
        }
    }

    /// The list of the item `entity`, or the list that is chosen where no item is given.
    pub open spec fn data_or_active(self, entity: Option<u64>) -> Option<ListView> {
        match entity {
            Some(entity) => self.data(entity),
            None => self.active_data(),
        }
    }

    /// The item that stands for `list`, if it is added next.
    pub open spec fn new_item(self, list: ListView, divider_above: bool) -> NavItemView {
        NavItemView {
            entity: self.next_entity,
            text: label(list.number_of_tasks as nat, list.name),
            icon: icon_of(list),
            divider_above,
            list,
        }
    }

    /// With an item for `list` behind the others.
    pub open spec fn inserted(self, list: ListView, divider_above: bool) -> NavView {
        NavView {
            items: self.items.push(self.new_item(list, divider_above)),
            next_entity: (self.next_entity + 1) as u64,
            ..self
        }
    }

    /// With `text` as the text of the item `entity`, if it is there.
    pub open spec fn text_set(self, entity: u64, text: Seq<char>) -> NavView {
        match place_of(self.items, entity) {
            Some(i) => NavView {
                items: self.items.update(i, NavItemView { text, ..self.items[i] }),
                ..self
            },
            None => self,
        }
    }

    /// With `list` as the list of the item `entity`, if it is there.
    pub open spec fn data_set(self, entity: u64, list: ListView) -> NavView {
        match place_of(self.items, entity) {
            Some(i) => NavView {
                items: self.items.update(i, NavItemView { list, ..self.items[i] }),
                ..self
            },
            None => self,
        }
    }

    /// With the item `entity` chosen, if it is there.
    pub open spec fn activated(self, entity: u64) -> NavView {
        if place_of(self.items, entity) is Some {
            NavView { active: Some(entity), ..self }
        } else {
            self
        }
    }

    /// Without the item `entity`. If it was chosen, no item is chosen afterwards.
    pub open spec fn removed(self, entity: u64) -> NavView {
        match place_of(self.items, entity) {
            Some(i) => NavView {
                items: self.items.remove(i),
                active: if self.active == Some(entity) {
                    None
                } else {
                    self.active
                },
                ..self
            },
            None => self,
        }
    }

    /// With `list` at the place `n` of the lists that are to be shown: an item that stands for it is
    /// brought up to date, else one is added, with a line above it at the fourth and sixth place.
    pub open spec fn with_list(self, list: ListView, n: int) -> NavView {
        match place_of_list(self.items, list.id) {
            Some(i) => NavView {
                items: self.items.update(
                    i,
                    NavItemView {
                        text: label(list.number_of_tasks as nat, list.name),
                        icon: icon_of(list),
                        ..self.items[i]
                    },
                ),
                ..self
            },
            None => self.inserted(list, n == 3 || n == 5),
        }
    }

    /// With all of `lists`, one after the other.
    pub open spec fn with_lists(self, lists: Seq<ListView>) -> NavView
        decreases lists.len(),
    {
        if lists.len() == 0 {
            self
        } else {
            self.with_lists(lists.drop_last()).with_list(lists.last(), lists.len() - 1)
        }
    }

    /// With the numbers of the tasks that each list shows of `tasks` on the day `today`.
    pub open spec fn counted(self, tasks: Seq<TaskView>, today: int) -> NavView {
        NavView {
            items: self.items.map_values(
                |item: NavItemView|
                    NavItemView {
                        text: label(filters::task_count(item.list, tasks, today), item.list.name),
                        ..item
                    },
            ),
            ..self
        }
    }

    /// `task`, in the default list if the list that is chosen is a virtual one.
    pub open spec fn routed(self, task: TaskView) -> TaskView {
        match self.active_data() {
            Some(list) if list.is_virtual => match default_list_id(self.items) {
                Some(list_id) => TaskView { list_id: Some(list_id), ..task },
                None => task,
            },
            _ => task,
        }
    }
}

/// Writes the text of an item.
pub fn label_text(count: u64, name: &str) -> (s: String)
    ensures
        s@ == label(count as nat, name@),
{
    if count > 0 {
        let mut s = text::join("(", text::decimal(count).as_str());
        s.append(") ");
        s.append(name);
        s
    } else {
        name.to_string()
    }
}

/// Gives the icon of a list.
pub fn icon_name(list: &List) -> (s: String)
    ensures
        s@ == icon_of(list@),
{
    match &list.icon {
        Some(icon) => icon.clone(),
        None => "view-list-symbolic".to_string(),
    }
}

/// A place that is found is a place of the item.
proof fn lemma_place_of(items: Seq<NavItemView>, entity: u64)
    ensures
        match place_of(items, entity) {
            Some(i) => 0 <= i < items.len() && items[i].entity == entity,
            None => forall|i: int| 0 <= i < items.len() ==> (#[trigger] items[i]).entity != entity,
        },
    decreases items.len(),
{
    if items.len() > 0 && items.last().entity != entity {
        lemma_place_of(items.drop_last(), entity);
        if place_of(items, entity) is None {
            assert forall|i: int| 0 <= i < items.len() implies (#[trigger] items[i]).entity
                != entity by {
                if i < items.len() - 1 {
                    assert(items.drop_last()[i].entity != entity);
                }
            }
        }
    }
}

/// A place that is found is the last place of the list.
proof fn lemma_place_of_list(items: Seq<NavItemView>, list_id: Seq<char>)
    ensures
        match place_of_list(items, list_id) {
            Some(i) => 0 <= i < items.len() && items[i].list.id == list_id,
            None => forall|i: int| 0 <= i < items.len() ==> (#[trigger] items[i]).list.id != list_id,
        },
    decreases items.len(),
{
    if items.len() > 0 && items.last().list.id != list_id {
        lemma_place_of_list(items.drop_last(), list_id);
        if place_of_list(items, list_id) is None {
            assert forall|i: int| 0 <= i < items.len() implies (#[trigger] items[i]).list.id
                != list_id by {
                if i < items.len() - 1 {
                    assert(items.drop_last()[i].list.id != list_id);
                }
            }
        }
    }
}

/// Items with the same numbers have the same places.
proof fn lemma_same_places(a: Seq<NavItemView>, b: Seq<NavItemView>, entity: u64)
    requires
        a.len() == b.len(),
        forall|i: int| 0 <= i < a.len() ==> (#[trigger] a[i]).entity == b[i].entity,
    ensures
        place_of(a, entity) == place_of(b, entity),
    decreases a.len(),
{
    if a.len() > 0 {
        assert(a[a.len() - 1].entity == b[b.len() - 1].entity);
        lemma_same_places(a.drop_last(), b.drop_last(), entity);
    }
}

impl NavModel {
    pub fn new() -> (nav: NavModel)
        ensures
            nav@ == NavView::empty(),
            nav@.well_formed(),
    {
        let nav = NavModel { items: Vec::new(), active: None, next_entity: 0 };
        assert(nav.items.deep_view() =~= Seq::empty());
        nav
    }

    /// The items, in the order in which they are shown.
    pub fn items(&self) -> (items: &Vec<NavItem>)
        ensures
            items.deep_view() == self@.items,
    {
        &self.items
    }

    /// The item that is chosen.
    pub fn active(&self) -> (entity: Option<u64>)
        ensures
            entity == self@.active,
    {
        self.active
    }

    /// Tells whether `n` more items can be numbered.
    pub fn has_room_for(&self, n: usize) -> (b: bool)
        ensures
            b == (self@.next_entity + n <= u64::MAX),
    {
        n as u64 <= u64::MAX - self.next_entity
    }

    fn find(&self, entity: u64) -> (place: Option<usize>)
        ensures
            match place {
                Some(i) => i < self.items@.len() && place_of(self@.items, entity) == Some(i as int),
                None => place_of(self@.items, entity) is None,
            },
    {
        let ghost items = self@.items;
        let mut i: usize = self.items.len();
        assert(items.take(i as int) =~= items);
        while i > 0
            invariant
                i <= self.items@.len(),
                items == self@.items,
                place_of(items, entity) == place_of(items.take(i as int), entity),
            decreases i,
        {
            i -= 1;
            assert(items.take(i + 1).drop_last() =~= items.take(i as int));
            if self.items[i].entity == entity {
                return Some(i);
            }
        }
        None
    }

    fn find_list(&self, list_id: &String) -> (place: Option<usize>)
        ensures
            match place {
                Some(i) => i < self.items@.len() && place_of_list(self@.items, list_id@) == Some(
                    i as int,
                ),
                None => place_of_list(self@.items, list_id@) is None,
            },
    {
        let ghost items = self@.items;
        let mut i: usize = self.items.len();
        assert(items.take(i as int) =~= items);
        while i > 0
            invariant
                i <= self.items@.len(),
                items == self@.items,
                place_of_list(items, list_id@) == place_of_list(items.take(i as int), list_id@),
            decreases i,
        {
            i -= 1;
            assert(items.take(i + 1).drop_last() =~= items.take(i as int));
            if self.items[i].list.id == *list_id {
                return Some(i);
            }
        }
        None
    }

    /// The list of the item `entity`.
    pub fn data(&self, entity: u64) -> (list: Option<List>)
        ensures
            list.deep_view() == self@.data(entity),
    {
        match self.find(entity) {
            Some(i) => Some(self.items[i].list.clone()),
            None => None,
        }
    }

    /// The list that is chosen.
    pub fn active_data(&self) -> (list: Option<List>)
        ensures
            list.deep_view() == self@.active_data(),
    {
        match self.active {
            Some(entity) => self.data(entity),
            None => None,
        }
    }

    /// The list of the item `entity`, or the list that is chosen where no item is given.
    pub fn data_or_active(&self, entity: Option<u64>) -> (list: Option<List>)
        ensures
            list.deep_view() == self@.data_or_active(entity),
    {
        match entity {
            Some(entity) => self.data(entity),
            None => self.active_data(),
        }
    }

    /// Adds an item for `list` behind the others and gives its number.
    pub fn insert(&mut self, list: &List, divider_above: bool) -> (entity: u64)
        requires
            old(self)@.next_entity < u64::MAX,
        ensures
            entity == old(self)@.next_entity,
            final(self)@ == old(self)@.inserted(list@, divider_above),
            old(self)@.well_formed() ==> final(self)@.well_formed(),
    {
        let ghost before = self@;
        let entity = self.next_entity;
        let item = NavItem {
            entity,
            text: label_text(list.number_of_tasks as u64, list.name.as_str()),
            icon: icon_name(list),
            divider_above,
            list: list.clone(),
        };
        assert(item@ == before.new_item(list@, divider_above));
        self.items.push(item);
        self.next_entity = entity + 1;
        assert(self@.items =~= before.inserted(list@, divider_above).items);
        proof {
            if before.well_formed() {
                lemma_inserted_well_formed(before, list@, divider_above);
            }
        }
        entity
    }

    /// Sets the text of the item `entity`, if it is there.
    pub fn text_set(&mut self, entity: u64, text: String)
        ensures
            final(self)@ == old(self)@.text_set(entity, text@),
            old(self)@.well_formed() ==> final(self)@.well_formed(),
    {
        if let Some(i) = self.find(entity) {
            self.set_item(
                i,
                NavItem {
                    entity: self.items[i].entity,
                    text,
                    icon: self.items[i].icon.clone(),
                    divider_above: self.items[i].divider_above,
                    list: self.items[i].list.clone(),
                },
            );
        }
    }

    /// Sets the list of the item `entity`, if it is there.
    pub fn data_set(&mut self, entity: u64, list: List)
        ensures
            final(self)@ == old(self)@.data_set(entity, list@),
            old(self)@.well_formed() ==> final(self)@.well_formed(),
    {
        if let Some(i) = self.find(entity) {
            self.set_item(
                i,
                NavItem {
                    entity: self.items[i].entity,
                    text: self.items[i].text.clone(),
                    icon: self.items[i].icon.clone(),
                    divider_above: self.items[i].divider_above,
                    list,
                },
            );
        }
    }

    /// Puts `item` in the place of one with the same number.
    fn set_item(&mut self, i: usize, item: NavItem)
        requires
            i < old(self)@.items.len(),
            item.entity == old(self)@.items[i as int].entity,
        ensures
            final(self)@ == (NavView {
                items: old(self)@.items.update(i as int, item@),
                ..old(self)@
            }),
            old(self)@.well_formed() ==> final(self)@.well_formed(),
    {
        let ghost before = self@;
        self.items.set(i, item);
        assert(self@.items =~= before.items.update(i as int, item@));
        proof {
            if let Some(entity) = before.active {
                lemma_same_places(before.items, self@.items, entity);
            }
            assert forall|a: int, b: int|
                before.well_formed() && 0 <= a < b < self@.items.len() implies (
            #[trigger] self@.items[a]).entity != (#[trigger] self@.items[b]).entity by {
                assert(before.items[a].entity != before.items[b].entity);
            }
        }
    }

    /// Chooses the item `entity`, if it is there.
    pub fn activate(&mut self, entity: u64)
        ensures
            final(self)@ == old(self)@.activated(entity),
            old(self)@.well_formed() ==> final(self)@.well_formed(),
    {
        if self.find(entity).is_some() {
            self.active = Some(entity);
        }
    }

    /// Takes the item `entity` away, if it is there.
    pub fn remove(&mut self, entity: u64)
        ensures
            final(self)@ == old(self)@.removed(entity),
            old(self)@.well_formed() ==> final(self)@.well_formed(),
    {
        let ghost before = self@;
        if let Some(i) = self.find(entity) {
            self.items.remove(i);
            assert(self.items.deep_view() =~= before.items.remove(i as int));
            if let Some(active) = self.active {
                if active == entity {
                    self.active = None;
                }
            }
            assert(self@ == before.removed(entity));
            proof {
                if before.well_formed() {
                    lemma_removed_well_formed(before, entity);
                }
            }
        }
    }

    /// Shows `list`, which is at the place `n` of the lists that are to be shown.
    fn show(&mut self, list: &List, n: usize)
        requires
            place_of_list(old(self)@.items, list@.id) is None ==> old(self)@.next_entity < u64::MAX,
        ensures
            final(self)@ == old(self)@.with_list(list@, n as int),
            old(self)@.well_formed() ==> final(self)@.well_formed(),
    {
        match self.find_list(&list.id) {
            Some(i) => {
                self.set_item(
                    i,
                    NavItem {
                        entity: self.items[i].entity,
                        text: label_text(list.number_of_tasks as u64, list.name.as_str()),
                        icon: icon_name(list),
                        divider_above: self.items[i].divider_above,
                        list: self.items[i].list.clone(),
                    },
                );
            },
            None => {
                self.insert(list, n == 3 || n == 5);
            },
        }
    }

    /// Shows all of `lists`.
    pub fn show_all(&mut self, lists: &Vec<List>)
        requires
            has_numbers_for(old(self)@, lists.deep_view()),
        ensures
            final(self)@ == old(self)@.with_lists(lists.deep_view()),
            old(self)@.well_formed() ==> final(self)@.well_formed(),
            has_distinct_lists(old(self)@) ==> adds_lists(
                old(self)@,
                lists.deep_view(),
                final(self)@,
            ),
            has_distinct_lists(old(self)@) ==> has_numbers_for(final(self)@, lists.deep_view())
                && final(self)@.with_lists(lists.deep_view()) == final(self)@,
    {
        let ghost before = self@;
        let ghost all = lists.deep_view();
        let mut n: usize = 0;
        while n < lists.len()
            invariant
                n <= lists@.len(),
                before == old(self)@,
                all == lists.deep_view(),
                self@ == before.with_lists(all.take(n as int)),
                before.well_formed() ==> self@.well_formed(),
                has_numbers_for(before, all),
            decreases lists@.len() - n,
        {
            proof {
                assert(all.take(n + 1).drop_last() =~= all.take(n as int));
                assert(all.take(n + 1).last() == all[n as int]);
                lemma_new_lists_grow(before, all, n as int);
                lemma_new_lists_grow(before, all, n + 1);
                lemma_numbers_are_used_by_new_lists(before, all.take(n as int));
                lemma_place_of_list(self@.items, all[n as int].id);
                assert(is_offered(self@, all[n as int].id) <==> is_offered(before, all[n as int].id)
                    || is_among(all.take(n as int), all[n as int].id));
            }
            self.show(&lists[n], n);
            n += 1;
        }
        assert(all.take(n as int) =~= all);
        proof {
            if has_distinct_lists(before) {
                shown_lists_are_added_in_order(before, all);
                showing_again_changes_nothing(before, all);
                lemma_nothing_is_new(self@, all);
            }
        }
    }

    /// Tells whether there are numbers for the items that `lists` lead to.
    pub fn has_room_for_lists(&self, lists: &Vec<List>) -> (b: bool)
        ensures
            b == has_numbers_for(self@, lists.deep_view()),
    {
        let ghost all = lists.deep_view();
        let mut found: usize = 0;
        let mut n: usize = 0;
        while n < lists.len()
            invariant
                n <= lists@.len(),
                all == lists.deep_view(),
                found <= n,
                found == new_lists(self@, all.take(n as int)).len(),
            decreases lists@.len() - n,
        {
            proof {
                assert(all.take(n + 1).drop_last() =~= all.take(n as int));
                assert(all.take(n + 1).last() == all[n as int]);
                lemma_place_of_list(self@.items, all[n as int].id);
            }
            let is_there = self.find_list(&lists[n].id).is_some();
            if !is_there && !occurs_before(lists, n) {
                found += 1;
            }
            n += 1;
        }
        assert(all.take(n as int) =~= all);
        self.has_room_for(found)
    }

    /// Shows beside each list how many of `tasks` it shows on the day `today`.
    pub fn count(&mut self, tasks: &[Task], today: i32)
        ensures
            final(self)@ == old(self)@.counted(tasks.deep_view(), today as int),
            old(self)@.well_formed() ==> final(self)@.well_formed(),
    {
        let ghost before = self@;
        let ghost after = before.counted(tasks.deep_view(), today as int);
        let mut i: usize = 0;
        while i < self.items.len()
            invariant
                i <= self@.items.len(),
                before == old(self)@,
                after == before.counted(tasks.deep_view(), today as int),
                self@.items.len() == before.items.len(),
                self@.items.len() == self.items@.len(),
                self@.active == before.active,
                self@.next_entity == before.next_entity,
                forall|j: int| 0 <= j < i ==> #[trigger] self@.items[j] == after.items[j],
                forall|j: int|
                    i <= j < self@.items.len() ==> #[trigger] self@.items[j] == before.items[j],
                before.well_formed() ==> self@.well_formed(),
            decreases self@.items.len() - i,
        {
            let count = filters::count(&self.items[i].list, tasks, today);
            let text = label_text(count as u64, self.items[i].list.name.as_str());
            assert(self@.items[i as int] == before.items[i as int]);
            self.set_item(
                i,
                NavItem {
                    entity: self.items[i].entity,
                    text,
                    icon: self.items[i].icon.clone(),
                    divider_above: self.items[i].divider_above,
                    list: self.items[i].list.clone(),
                },
            );
            i += 1;
        }
        assert(self@.items =~= after.items);
    }

    /// Gives the id of the first list that the service gives the role of the default list.
    fn default_list(&self) -> (list_id: Option<String>)
        ensures
            list_id.deep_view() == default_list_id(self@.items),
    {
        let ghost items = self@.items;
        let default_list = "defaultList".to_string();
        let mut i: usize = 0;
        assert(items.skip(0) =~= items);
        while i < self.items.len()
            invariant
                i <= self.items@.len(),
                items == self@.items,
                default_list@ == "defaultList"@,
                default_list_id(items) == default_list_id(items.skip(i as int)),
            decreases self.items@.len() - i,
        {
            assert(items.skip(i as int).drop_first() =~= items.skip(i + 1));
            if let Some(name) = &self.items[i].list.well_known_list_name {
                if *name == default_list {
                    return Some(self.items[i].list.id.clone());
                }
            }
            i += 1;
        }
        None
    }

    /// Puts `task` into the default list if the list that is chosen is a virtual one.
    pub fn route(&self, task: Task) -> (routed: Task)
        ensures
            routed@ == self@.routed(task@),
    {
        let mut task = task;
        if let Some(list) = self.active_data() {
            if list.is_virtual {
                if let Some(list_id) = self.default_list() {
                    task.list_id = Some(list_id);
                }
            }
        }
        task
    }
}

proof fn lemma_inserted_well_formed(nav: NavView, list: ListView, divider_above: bool)
    requires
        nav.well_formed(),
        nav.next_entity < u64::MAX,
    ensures
        nav.inserted(list, divider_above).well_formed(),
{
    let after = nav.inserted(list, divider_above);
    if let Some(entity) = nav.active {
        assert(after.items.drop_last() =~= nav.items);
    }
}

proof fn lemma_removed_well_formed(nav: NavView, entity: u64)
    requires
        nav.well_formed(),
    ensures
        nav.removed(entity).well_formed(),
{
    let after = nav.removed(entity);
    lemma_place_of(nav.items, entity);
    if let Some(i) = place_of(nav.items, entity) {
        assert forall|a: int, b: int| 0 <= a < b < after.items.len() implies (
        #[trigger] after.items[a]).entity != (#[trigger] after.items[b]).entity by {
            let c = if a < i { a } else { a + 1 };
            let d = if b < i { b } else { b + 1 };
            assert(nav.items[c].entity != nav.items[d].entity);
        }
        if let Some(active) = after.active {
            lemma_place_of(nav.items, active);
            lemma_place_of(after.items, active);
            let c = place_of(nav.items, active)->0;
            let d = if c < i { c } else { c - 1 };
            assert(after.items[d].entity == active);
        }
    }
}

/// Whether `after` begins with the items of `before`, with the same numbers and lists.
pub open spec fn keeps_items(before: NavView, after: NavView) -> bool {
    &&& before.items.len() <= after.items.len()
    &&& forall|i: int|
        0 <= i < before.items.len() ==> (#[trigger] after.items[i]).entity == before.items[i].entity
            && after.items[i].list == before.items[i].list
}

/// Whether there is an item for the list with the id `list_id`.
pub open spec fn is_offered(nav: NavView, list_id: Seq<char>) -> bool {
    exists|i: int| 0 <= i < nav.items.len() && (#[trigger] nav.items[i]).list.id == list_id
}

proof fn lemma_with_list(nav: NavView, list: ListView, n: int)
    ensures
        keeps_items(nav, nav.with_list(list, n)),
        nav.with_list(list, n).active == nav.active,
        is_offered(nav.with_list(list, n), list.id),
        is_offered(nav, list.id) ==> nav.with_list(list, n).items.len() == nav.items.len(),
        !is_offered(nav, list.id) ==> nav.with_list(list, n).items.len() == nav.items.len() + 1,
{
    lemma_place_of_list(nav.items, list.id);
    let after = nav.with_list(list, n);
    match place_of_list(nav.items, list.id) {
        Some(i) => {
            assert(after.items[i].list.id == list.id);
        },
        None => {
            assert(after.items[nav.items.len() as int].list.id == list.id);
        },
    }
}

proof fn lemma_still_offered(before: NavView, after: NavView, list_id: Seq<char>)
    requires
        keeps_items(before, after),
        is_offered(before, list_id),
    ensures
        is_offered(after, list_id),
{
    let i = choose|i: int|
        0 <= i < before.items.len() && (#[trigger] before.items[i]).list.id == list_id;
    assert(after.items[i].list.id == list_id);
}

/// Showing lists takes no item away and changes neither the choice nor the number or list of an item.
/// Afterwards there is an item for each of the lists.
pub proof fn shown_lists_are_offered(nav: NavView, lists: Seq<ListView>)
    ensures
        keeps_items(nav, nav.with_lists(lists)),
        nav.with_lists(lists).active == nav.active,
        forall|i: int|
            0 <= i < lists.len() ==> is_offered(nav.with_lists(lists), (#[trigger] lists[i]).id),
    decreases lists.len(),
{
    if lists.len() > 0 {
        let rest = lists.drop_last();
        let before = nav.with_lists(rest);
        let after = nav.with_lists(lists);
        shown_lists_are_offered(nav, rest);
        lemma_with_list(before, lists.last(), lists.len() - 1);
        assert forall|i: int| 0 <= i < lists.len() implies is_offered(
            after,
            (#[trigger] lists[i]).id,
        ) by {
            if i < lists.len() - 1 {
                assert(is_offered(before, rest[i].id));
                lemma_still_offered(before, after, lists[i].id);
            }
        }
        assert forall|i: int| 0 <= i < nav.items.len() implies (#[trigger] after.items[i]).entity
            == nav.items[i].entity && after.items[i].list == nav.items[i].list by {
            assert(before.items[i].entity == nav.items[i].entity);
        }
    }
}

/// Showing lists for which there are items already adds none.
pub proof fn shown_lists_are_offered_once(nav: NavView, lists: Seq<ListView>)
    requires
        forall|i: int| 0 <= i < lists.len() ==> is_offered(nav, (#[trigger] lists[i]).id),
    ensures
        nav.with_lists(lists).items.len() == nav.items.len(),
    decreases lists.len(),
{
    if lists.len() > 0 {
        let rest = lists.drop_last();
        assert forall|i: int| 0 <= i < rest.len() implies is_offered(nav, (#[trigger] rest[i]).id) by {
            assert(rest[i] == lists[i]);
        }
        shown_lists_are_offered_once(nav, rest);
        shown_lists_are_offered(nav, rest);
        assert(is_offered(nav, lists[lists.len() - 1].id));
        lemma_still_offered(nav, nav.with_lists(rest), lists.last().id);
        lemma_with_list(nav.with_lists(rest), lists.last(), lists.len() - 1);
    }
}

/// Whether no two items have lists with the same id.
pub open spec fn has_distinct_lists(nav: NavView) -> bool {
    forall|i: int, j: int|
        0 <= i < j < nav.items.len() ==> (#[trigger] nav.items[i]).list.id != (
        #[trigger] nav.items[j]).list.id
}

/// Whether a list with the id `list_id` is among `lists`.
pub open spec fn is_among(lists: Seq<ListView>, list_id: Seq<char>) -> bool {
    exists|i: int| 0 <= i < lists.len() && (#[trigger] lists[i]).id == list_id
}

/// The lists for which there is no item yet, in the order in which they occur first; of lists with the
/// same id only the first.
pub open spec fn new_lists(nav: NavView, lists: Seq<ListView>) -> Seq<ListView>
    decreases lists.len(),
{
    if lists.len() == 0 {
        Seq::empty()
    } else {
        let rest = new_lists(nav, lists.drop_last());
        if is_offered(nav, lists.last().id) || is_among(lists.drop_last(), lists.last().id) {
            rest
        } else {
            rest.push(lists.last())
        }
    }
}

/// The last of `lists` with the id `list_id`.
pub open spec fn last_with_id(lists: Seq<ListView>, list_id: Seq<char>) -> Option<ListView>
    decreases lists.len(),
{
    if lists.len() == 0 {
        None
    } else if lists.last().id == list_id {
        Some(lists.last())
    } else {
        last_with_id(lists.drop_last(), list_id)
    }
}

/// Whether the item at the place `p` of `after` has text and icon of the last of `lists` with its id,
/// or where there is none, those that it had in `before`.
pub open spec fn is_labelled(before: NavView, lists: Seq<ListView>, after: NavView, p: int) -> bool {
    match last_with_id(lists, after.items[p].list.id) {
        Some(list) => {
            &&& after.items[p].text == label(list.number_of_tasks as nat, list.name)
            &&& after.items[p].icon == icon_of(list)
        },
        None => {
            &&& p < before.items.len()
            &&& after.items[p] == before.items[p]
        },
    }
}

/// Whether `after` is `before` with `lists` added: no item is taken away, moved or given another list;
/// one item is added for each new list, in the order in which they occur first; no two items have the
/// same list; and each list gives text and icon to its item where it occurs last.
pub open spec fn adds_lists(before: NavView, lists: Seq<ListView>, after: NavView) -> bool {
    let new = new_lists(before, lists);
    &&& keeps_items(before, after)
    &&& has_distinct_lists(after)
    &&& after.items.len() == before.items.len() + new.len()
    &&& forall|k: int|
        0 <= k < new.len() ==> after.items[before.items.len() + k].list == #[trigger] new[k]
    &&& forall|id: Seq<char>| #[trigger]
        is_offered(after, id) <==> is_offered(before, id) || is_among(lists, id)
    &&& forall|p: int|
        0 <= p < after.items.len() ==> #[trigger] is_labelled(before, lists, after, p)
}

/// Whether there are numbers for the items that `lists` lead to.
pub open spec fn has_numbers_for(nav: NavView, lists: Seq<ListView>) -> bool {
    nav.next_entity + new_lists(nav, lists).len() <= u64::MAX
}

/// Showing lists takes no item away, moves none and gives none another list. One item is added for
/// each list for which there was none, in the order in which they occur first, so that no two items
/// have the same list. The text and icon of each item are those of the last list with its id. All
/// other items stay as they are.
pub proof fn shown_lists_are_added_in_order(nav: NavView, lists: Seq<ListView>)
    requires
        has_distinct_lists(nav),
    ensures
        adds_lists(nav, lists, nav.with_lists(lists)),
    decreases lists.len(),
{
    let after = nav.with_lists(lists);
    shown_lists_are_offered(nav, lists);
    if lists.len() == 0 {
        assert forall|p: int| 0 <= p < after.items.len() implies #[trigger] is_labelled(
            nav,
            lists,
            after,
            p,
        ) by {}
    } else {
        let rest = lists.drop_last();
        let list = lists.last();
        let before = nav.with_lists(rest);
        shown_lists_are_added_in_order(nav, rest);
        lemma_with_list(before, list, lists.len() - 1);
        lemma_place_of_list(before.items, list.id);
        assert forall|id: Seq<char>| #[trigger] is_offered(after, id) <==> is_offered(nav, id)
            || is_among(lists, id) by {
            lemma_among_last(lists, id);
            assert(is_offered(before, id) <==> is_offered(nav, id) || is_among(rest, id));
            if is_offered(before, id) {
                lemma_still_offered(before, after, id);
            }
            if is_offered(after, id) {
                let p = choose|p: int|
                    0 <= p < after.items.len() && (#[trigger] after.items[p]).list.id == id;
                if p < before.items.len() {
                    assert(before.items[p].list == after.items[p].list);
                }
            }
        }
        assert(is_offered(before, list.id) <==> is_offered(nav, list.id) || is_among(
            rest,
            list.id,
        ));
        assert forall|p: int| 0 <= p < after.items.len() implies #[trigger] is_labelled(
            nav,
            lists,
            after,
            p,
        ) by {
            if p < before.items.len() {
                assert(is_labelled(nav, rest, before, p));
                if let Some(i) = place_of_list(before.items, list.id) {
                    if p < i {
                        assert(before.items[p].list.id != before.items[i].list.id);
                    } else if i < p {
                        assert(before.items[i].list.id != before.items[p].list.id);
                    }
                }
            }
        }
        assert forall|i: int, j: int| 0 <= i < j < after.items.len() implies (
        #[trigger] after.items[i]).list.id != (#[trigger] after.items[j]).list.id by {
            assert(before.items[i].list == after.items[i].list);
            if j < before.items.len() {
                assert(before.items[j].list == after.items[j].list);
            }
        }
        let new = new_lists(nav, lists);
        assert forall|k: int| 0 <= k < new.len() implies after.items[nav.items.len() + k].list
            == #[trigger] new[k] by {
            if k < new_lists(nav, rest).len() {
                assert(new[k] == new_lists(nav, rest)[k]);
                assert(before.items[nav.items.len() + k].list == new_lists(nav, rest)[k]);
            }
        }
    }
}

proof fn lemma_among_last(lists: Seq<ListView>, id: Seq<char>)
    requires
        lists.len() > 0,
    ensures
        is_among(lists, id) <==> is_among(lists.drop_last(), id) || lists.last().id == id,
{
    let rest = lists.drop_last();
    if is_among(lists, id) {
        let i = choose|i: int| 0 <= i < lists.len() && (#[trigger] lists[i]).id == id;
        if i < rest.len() {
            assert(rest[i].id == id);
        }
    }
    if is_among(rest, id) {
        let i = choose|i: int| 0 <= i < rest.len() && (#[trigger] rest[i]).id == id;
        assert(lists[i].id == id);
    }
    if lists.last().id == id {
        assert(lists[lists.len() - 1].id == id);
    }
}

/// The new lists among the first `n` are among all new lists.
proof fn lemma_new_lists_grow(nav: NavView, lists: Seq<ListView>, n: int)
    requires
        0 <= n <= lists.len(),
    ensures
        new_lists(nav, lists.take(n)).len() <= new_lists(nav, lists).len(),
    decreases lists.len() - n,
{
    if n < lists.len() {
        lemma_new_lists_grow(nav, lists, n + 1);
        assert(lists.take(n + 1).drop_last() =~= lists.take(n));
    } else {
        assert(lists.take(n) =~= lists);
    }
}

/// Showing lists uses a number for each new list.
proof fn lemma_numbers_are_used_by_new_lists(nav: NavView, lists: Seq<ListView>)
    requires
        has_numbers_for(nav, lists),
    ensures
        nav.with_lists(lists).next_entity == nav.next_entity + new_lists(nav, lists).len(),
        forall|id: Seq<char>| #[trigger]
            is_offered(nav.with_lists(lists), id) <==> is_offered(nav, id) || is_among(lists, id),
    decreases lists.len(),
{
    if lists.len() > 0 {
        let rest = lists.drop_last();
        let before = nav.with_lists(rest);
        let after = nav.with_lists(lists);
        assert(lists.take(lists.len() - 1) =~= rest);
        lemma_new_lists_grow(nav, lists, lists.len() - 1);
        lemma_numbers_are_used_by_new_lists(nav, rest);
        lemma_with_list(before, lists.last(), lists.len() - 1);
        lemma_place_of_list(before.items, lists.last().id);
        assert(is_offered(before, lists.last().id) <==> is_offered(nav, lists.last().id) || is_among(
            rest,
            lists.last().id,
        ));
        assert forall|id: Seq<char>| #[trigger] is_offered(after, id) <==> is_offered(nav, id)
            || is_among(lists, id) by {
            lemma_among_last(lists, id);
            assert(is_offered(before, id) <==> is_offered(nav, id) || is_among(rest, id));
            if is_offered(before, id) {
                lemma_still_offered(before, after, id);
            }
            if is_offered(after, id) {
                let p = choose|p: int|
                    0 <= p < after.items.len() && (#[trigger] after.items[p]).list.id == id;
                if p < before.items.len() {
                    assert(before.items[p].list == after.items[p].list);
                }
            }
        }
    }
}

/// Of lists for which there are items, none is new.
proof fn lemma_nothing_is_new(nav: NavView, lists: Seq<ListView>)
    requires
        forall|i: int| 0 <= i < lists.len() ==> is_offered(nav, (#[trigger] lists[i]).id),
    ensures
        new_lists(nav, lists).len() == 0,
    decreases lists.len(),
{
    if lists.len() > 0 {
        let rest = lists.drop_last();
        assert forall|i: int| 0 <= i < rest.len() implies is_offered(nav, (#[trigger] rest[i]).id) by {
            assert(rest[i] == lists[i]);
        }
        lemma_nothing_is_new(nav, rest);
        assert(is_offered(nav, lists[lists.len() - 1].id));
    }
}

/// Tells whether the id of the list at the place `n` occurs before that place.
fn occurs_before(lists: &Vec<List>, n: usize) -> (b: bool)
    requires
        n < lists@.len(),
    ensures
        b == is_among(lists.deep_view().take(n as int), lists.deep_view()[n as int].id),
{
    let ghost earlier = lists.deep_view().take(n as int);
    let ghost id = lists.deep_view()[n as int].id;
    let mut i: usize = 0;
    while i < n
        invariant
            i <= n < lists@.len(),
            earlier == lists.deep_view().take(n as int),
            id == lists.deep_view()[n as int].id,
            forall|j: int| 0 <= j < i ==> (#[trigger] earlier[j]).id != id,
        decreases n - i,
    {
        assert(earlier[i as int] == lists.deep_view()[i as int]);
        if lists[i].id == lists[n].id {
            assert(earlier[i as int].id == id);
            return true;
        }
        i += 1;
    }
    false
}

/// Showing the same lists once more changes nothing.
pub proof fn showing_again_changes_nothing(nav: NavView, lists: Seq<ListView>)
    requires
        has_distinct_lists(nav),
    ensures
        nav.with_lists(lists).with_lists(lists) == nav.with_lists(lists),
{
    let once = nav.with_lists(lists);
    let twice = once.with_lists(lists);
    shown_lists_are_added_in_order(nav, lists);
    shown_lists_are_added_in_order(once, lists);
    shown_lists_are_offered(nav, lists);
    shown_lists_are_offered(once, lists);
    shown_lists_are_offered_once(once, lists);
    lemma_numbering_follows_items(once, lists);
    assert forall|p: int| 0 <= p < once.items.len() implies #[trigger] twice.items[p]
        == once.items[p] by {
        assert(is_labelled(nav, lists, once, p));
        assert(is_labelled(once, lists, twice, p));
        assert(twice.items[p].list == once.items[p].list);
        lemma_dividers_stay(once, lists, p);
    }
    assert(twice.items =~= once.items);
}

/// Showing lists leaves the lines above the items that were there.
proof fn lemma_dividers_stay(nav: NavView, lists: Seq<ListView>, p: int)
    requires
        0 <= p < nav.items.len(),
    ensures
        p < nav.with_lists(lists).items.len(),
        nav.with_lists(lists).items[p].divider_above == nav.items[p].divider_above,
    decreases lists.len(),
{
    if lists.len() > 0 {
        let before = nav.with_lists(lists.drop_last());
        lemma_dividers_stay(nav, lists.drop_last(), p);
        lemma_place_of_list(before.items, lists.last().id);
    }
}

/// A number is used up for each item that is added, and for nothing else.
proof fn lemma_numbering_follows_items(nav: NavView, lists: Seq<ListView>)
    ensures
        nav.items.len() <= nav.with_lists(lists).items.len(),
        nav.with_lists(lists).items.len() == nav.items.len() ==> nav.with_lists(lists).next_entity
            == nav.next_entity,
    decreases lists.len(),
{
    if lists.len() > 0 {
        lemma_numbering_follows_items(nav, lists.drop_last());
        lemma_with_list(
            nav.with_lists(lists.drop_last()),
            lists.last(),
            lists.len() - 1,
        );
    }
}

/// An item that was removed is gone, and is not chosen. All other items stay.
pub proof fn removed_item_is_gone(nav: NavView, entity: u64, other: u64)
    requires
        nav.well_formed(),
    ensures
        nav.removed(entity).data(entity) is None,
        nav.removed(entity).active != Some(entity),
        other != entity ==> nav.removed(entity).data(other) == nav.data(other),
{
    let after = nav.removed(entity);
    lemma_place_of(nav.items, entity);
    lemma_place_of(after.items, entity);
    lemma_place_of(nav.items, other);
    lemma_place_of(after.items, other);
    if let Some(i) = place_of(nav.items, entity) {
        if let Some(j) = place_of(after.items, entity) {
            let k = if j < i { j } else { j + 1 };
            assert(nav.items[k].entity != nav.items[i].entity);
        }
        if other != entity {
            match (place_of(nav.items, other), place_of(after.items, other)) {
                (Some(j), Some(k)) => {
                    let l = if k < i { k } else { k + 1 };
                    assert(nav.items[l].entity == other);
                    assert(l == j);
                },
                (Some(j), None) => {
                    let k = if j < i { j } else { j - 1 };
                    assert(after.items[k].entity == other);
                },
                (None, Some(k)) => {
                    let l = if k < i { k } else { k + 1 };
                    assert(nav.items[l].entity == other);
                },
                (None, None) => {},
            }
        }
    }
}

/// An item that was chosen is the one whose list is worked on.
pub proof fn activated_item_is_active(nav: NavView, entity: u64)
    requires
        nav.data(entity) is Some,
    ensures
        nav.activated(entity).active == Some(entity),
        nav.activated(entity).active_data() == nav.data(entity),
{
}

/// A task that is made while a virtual list is chosen goes to a list with the role of the default
/// list, if there is one. A task that is made while a regular list is chosen stays as it is.
pub proof fn routed_task_has_a_home(nav: NavView, task: TaskView)
    ensures
        nav.active_data() matches Some(list) && !list.is_virtual ==> nav.routed(task) == task,
        nav.active_data() is None ==> nav.routed(task) == task,
        nav.active_data() matches Some(list) && list.is_virtual && nav.routed(task) != task ==> (
        exists|i: int|
            0 <= i < nav.items.len() && (#[trigger] nav.items[i]).list.well_known_list_name == Some(
                "defaultList"@,
            ) && nav.routed(task) == (TaskView { list_id: Some(nav.items[i].list.id), ..task })),
        nav.active_data() matches Some(list) && list.is_virtual && (exists|i: int|
            0 <= i < nav.items.len() && (#[trigger] nav.items[i]).list.well_known_list_name == Some(
                "defaultList"@,
            )) ==> nav.routed(task).list_id == default_list_id(nav.items) && default_list_id(
            nav.items,
        ) is Some,
{
    lemma_default_list(nav.items);
    if let Some(i) = first_default(nav.items) {
        assert(nav.items[i].list.well_known_list_name == Some("defaultList"@));
    }
}

/// The place of the first list with the role of the default list.
spec fn first_default(items: Seq<NavItemView>) -> Option<int>
    decreases items.len(),
{
    if items.len() == 0 {
        None
    } else if items[0].list.well_known_list_name == Some("defaultList"@) {
        Some(0)
    } else {
        match first_default(items.drop_first()) {
            Some(i) => Some(i + 1),
            None => None,
        }
    }
}

proof fn lemma_default_list(items: Seq<NavItemView>)
    ensures
        match first_default(items) {
            Some(i) => 0 <= i < items.len() && items[i].list.well_known_list_name == Some(
                "defaultList"@,
            ) && default_list_id(items) == Some(items[i].list.id),
            None => default_list_id(items) is None && forall|i: int|
                0 <= i < items.len() ==> (#[trigger] items[i]).list.well_known_list_name != Some(
                    "defaultList"@,
                ),
        },
    decreases items.len(),
{
    if items.len() > 0 {
        lemma_default_list(items.drop_first());
        if first_default(items) is None {
            assert forall|i: int| 0 <= i < items.len() implies (
            #[trigger] items[i]).list.well_known_list_name != Some("defaultList"@) by {
                if i > 0 {
                    assert(items.drop_first()[i - 1] == items[i]);
                }
            }
        }
    }
}

/// The list that was put into an item is what the item gives back. Other items give back what they
/// gave before.
pub proof fn set_data_is_read_back(nav: NavView, entity: u64, list: ListView)
    ensures
        nav.data(entity) is Some ==> nav.data_set(entity, list).data(entity) == Some(list),
        forall|other: u64|
            other != entity ==> #[trigger] nav.data_set(entity, list).data(other) == nav.data(other),
        nav.data_set(entity, list).active == nav.active,
{
    let after = nav.data_set(entity, list);
    lemma_place_of(nav.items, entity);
    lemma_same_places(nav.items, after.items, entity);
    assert forall|other: u64| other != entity implies #[trigger] after.data(other) == nav.data(
        other,
    ) by {
        lemma_same_places(nav.items, after.items, other);
        lemma_place_of(nav.items, other);
    }
}

/// Setting the text of an item changes no list.
pub proof fn text_is_no_data(nav: NavView, entity: u64, text: Seq<char>, other: u64)
    ensures
        nav.text_set(entity, text).data(other) == nav.data(other),
        nav.text_set(entity, text).active == nav.active,
{
    let after = nav.text_set(entity, text);
    lemma_place_of(nav.items, entity);
    lemma_place_of(nav.items, other);
    lemma_same_places(nav.items, after.items, other);
}

/// The first item is found by its number.
pub(crate) proof fn first_item_is_found(nav: NavView)
    requires
        nav.items.len() > 0,
    ensures
        nav.data(nav.items[0].entity) is Some,
{
    lemma_place_of(nav.items, nav.items[0].entity);
}

/// An item is found by its number, and gives its own list. A number that no item has finds nothing.
pub proof fn items_are_found_by_their_numbers(nav: NavView, p: int, entity: u64)
    requires
        nav.well_formed(),
    ensures
        0 <= p < nav.items.len() ==> {
            &&& place_of(nav.items, nav.items[p].entity) == Some(p)
            &&& nav.data(nav.items[p].entity) == Some(nav.items[p].list)
            &&& nav.data_or_active(Some(nav.items[p].entity)) == Some(nav.items[p].list)
            &&& nav.active == Some(nav.items[p].entity) ==> nav.active_data() == Some(
                nav.items[p].list,
            ) && nav.data_or_active(None) == Some(nav.items[p].list)
        },
        (forall|i: int| 0 <= i < nav.items.len() ==> (#[trigger] nav.items[i]).entity != entity) ==> {
            &&& place_of(nav.items, entity) is None
            &&& nav.data(entity) is None
            &&& nav.data_or_active(Some(entity)) is None
        },
        nav.active is None ==> nav.active_data() is None && nav.data_or_active(None) is None,
{
    if 0 <= p < nav.items.len() {
        lemma_place_of(nav.items, nav.items[p].entity);
        let q = place_of(nav.items, nav.items[p].entity)->0;
        if p < q {
            assert(nav.items[p].entity != nav.items[q].entity);
        } else if q < p {
            assert(nav.items[q].entity != nav.items[p].entity);
        }
    }
    lemma_place_of(nav.items, entity);
}

/// What is done with an item is done with that item alone: its text or list is set, it is chosen, or it
/// goes, and no item is chosen any more if it was.
pub proof fn items_change_one_at_a_time(nav: NavView, p: int, text: Seq<char>, list: ListView)
    requires
        nav.well_formed(),
        0 <= p < nav.items.len(),
    ensures
        ({
            let entity = nav.items[p].entity;
            &&& nav.text_set(entity, text) == (NavView {
                items: nav.items.update(p, NavItemView { text, ..nav.items[p] }),
                ..nav
            })
            &&& nav.data_set(entity, list) == (NavView {
                items: nav.items.update(p, NavItemView { list, ..nav.items[p] }),
                ..nav
            })
            &&& nav.activated(entity) == (NavView { active: Some(entity), ..nav })
            &&& nav.removed(entity) == (NavView {
                items: nav.items.remove(p),
                active: if nav.active == Some(entity) {
                    None
                } else {
                    nav.active
                },
                ..nav
            })
        }),
{
    items_are_found_by_their_numbers(nav, p, 0);
}

/// What is done with a number that no item has is not done.
pub proof fn unknown_numbers_change_nothing(nav: NavView, entity: u64, text: Seq<char>, list: ListView)
    requires
        nav.well_formed(),
        forall|i: int| 0 <= i < nav.items.len() ==> (#[trigger] nav.items[i]).entity != entity,
    ensures
        nav.text_set(entity, text) == nav,
        nav.data_set(entity, list) == nav,
        nav.activated(entity) == nav,
        nav.removed(entity) == nav,
{
    items_are_found_by_their_numbers(nav, 0, entity);
}

/// The text of an item is the name of its list, behind the number in brackets where there is anything to
/// count. Its icon is that of the list, or the usual one.
pub proof fn items_are_labelled_by_name_and_number(count: nat, name: Seq<char>, list: ListView)
    ensures
        label(0, name) == name,
        count > 0 ==> label(count, name) == seq!['('] + text::decimal_digits(count) + seq![')', ' ']
            + name,
        list.icon is Some ==> icon_of(list) == list.icon->0,
        list.icon is None ==> icon_of(list) == "view-list-symbolic"@,
{
    reveal_strlit("(");
    reveal_strlit(") ");
    assert("("@ =~= seq!['(']);
    assert(") "@ =~= seq![')', ' ']);
}

/// A list that is shown behind others gets an item at the end if there is none for it, with the next
/// number, its own name, count and icon, and a line above it where it is the fourth or sixth to be shown.
pub proof fn new_lists_are_shown_last(nav: NavView, lists: Seq<ListView>, list: ListView)
    requires
        nav.with_lists(lists).next_entity < u64::MAX,
    ensures
        nav.with_lists(Seq::empty()) == nav,
        !is_offered(nav.with_lists(lists), list.id) ==> nav.with_lists(lists.push(list)) == (NavView {
            items: nav.with_lists(lists).items.push(
                NavItemView {
                    entity: nav.with_lists(lists).next_entity,
                    text: label(list.number_of_tasks as nat, list.name),
                    icon: icon_of(list),
                    divider_above: lists.len() == 3 || lists.len() == 5,
                    list,
                },
            ),
            next_entity: (nav.with_lists(lists).next_entity + 1) as u64,
            active: nav.active,
        }),
{
    assert(lists.push(list).drop_last() =~= lists);
    lemma_place_of_list(nav.with_lists(lists).items, list.id);
    shown_lists_are_offered(nav, lists);
    if let Some(i) = place_of_list(nav.with_lists(lists).items, list.id) {
        assert(is_offered(nav.with_lists(lists), list.id));
    }
}

/// A task that is made while a virtual list is chosen goes to the first list with the role of the default
/// list, and is otherwise as it was; where there is no such list, or a regular list is chosen, or none, it
/// stays as it is.
pub proof fn task_goes_to_the_first_default_list(nav: NavView, p: int, d: int, task: TaskView)
    requires
        nav.well_formed(),
    ensures
        0 <= p < nav.items.len() && nav.active == Some(nav.items[p].entity)
            && nav.items[p].list.is_virtual && 0 <= d < nav.items.len()
            && nav.items[d].list.well_known_list_name == Some("defaultList"@) && (forall|i: int|
            0 <= i < d ==> (#[trigger] nav.items[i]).list.well_known_list_name != Some(
                "defaultList"@,
            )) ==> nav.routed(task) == (TaskView { list_id: Some(nav.items[d].list.id), ..task }),
        (forall|i: int|
            0 <= i < nav.items.len() ==> (#[trigger] nav.items[i]).list.well_known_list_name != Some(
                "defaultList"@,
            )) ==> nav.routed(task) == task,
        0 <= p < nav.items.len() && nav.active == Some(nav.items[p].entity)
            && !nav.items[p].list.is_virtual ==> nav.routed(task) == task,
        nav.active is None ==> nav.routed(task) == task,
{
    items_are_found_by_their_numbers(nav, p, 0);
    lemma_first_default_list(nav.items, d);
    lemma_default_list(nav.items);
}

proof fn lemma_first_default_list(items: Seq<NavItemView>, d: int)
    ensures
        0 <= d < items.len() && items[d].list.well_known_list_name == Some("defaultList"@) && (forall|
            i: int,
        |
            0 <= i < d ==> (#[trigger] items[i]).list.well_known_list_name != Some("defaultList"@))
            ==> default_list_id(items) == Some(items[d].list.id),
    decreases items.len(),
{
    if 0 < d < items.len() {
        let rest = items.drop_first();
        lemma_first_default_list(rest, d - 1);
        assert forall|i: int| 0 <= i < rest.len() implies #[trigger] rest[i] == items[i + 1] by {}
    }
}

/// Showing a list that is new leaves every item with a number of its own.
pub(crate) proof fn offered_list_is_well_formed(nav: NavView, list: ListView, divider_above: bool)
    requires
        nav.well_formed(),
        nav.next_entity < u64::MAX,
    ensures
        nav.inserted(list, divider_above).well_formed(),
{
    lemma_inserted_well_formed(nav, list, divider_above);
}

/// Showing lists leaves every item with a number of its own.
pub(crate) proof fn shown_lists_are_well_formed(nav: NavView, lists: Seq<ListView>)
    requires
        nav.well_formed(),
        has_numbers_for(nav, lists),
    ensures
        nav.with_lists(lists).well_formed(),
    decreases lists.len(),
{
    if lists.len() > 0 {
        let rest = lists.drop_last();
        let before = nav.with_lists(rest);
        let after = nav.with_lists(lists);
        let list = lists.last();
        assert(lists.take(lists.len() - 1) =~= rest);
        lemma_new_lists_grow(nav, lists, lists.len() - 1);
        shown_lists_are_well_formed(nav, rest);
        lemma_numbers_are_used_by_new_lists(nav, rest);
        lemma_numbers_are_used_by_new_lists(nav, lists);
        lemma_place_of_list(before.items, list.id);
        match place_of_list(before.items, list.id) {
            Some(i) => {
                if let Some(entity) = before.active {
                    lemma_same_places(before.items, after.items, entity);
                }
                assert forall|a: int, b: int| 0 <= a < b < after.items.len() implies (
                #[trigger] after.items[a]).entity != (#[trigger] after.items[b]).entity by {
                    assert(before.items[a].entity != before.items[b].entity);
                }
            },
            None => {
                assert(is_offered(before, list.id) <==> is_offered(nav, list.id) || is_among(
                    rest,
                    list.id,
                ));
                lemma_inserted_well_formed(before, list, lists.len() - 1 == 3 || lists.len() - 1 == 5);
            },
        }
    }
}

/// There are no more new lists than lists.
pub(crate) proof fn lemma_new_lists_are_few(nav: NavView, lists: Seq<ListView>)
    ensures
        new_lists(nav, lists).len() <= lists.len(),
    decreases lists.len(),
{
    if lists.len() > 0 {
        lemma_new_lists_are_few(nav, lists.drop_last());
    }
}

/// Setting the list of an item leaves every item with a number of its own.
pub(crate) proof fn set_list_is_well_formed(nav: NavView, p: int, list: ListView)
    requires
        nav.well_formed(),
        0 <= p < nav.items.len(),
    ensures
        nav.data_set(nav.items[p].entity, list).well_formed(),
{
    let after = nav.data_set(nav.items[p].entity, list);
    items_change_one_at_a_time(nav, p, Seq::empty(), list);
    if let Some(entity) = nav.active {
        lemma_same_places(nav.items, after.items, entity);
    }
    assert forall|a: int, b: int| 0 <= a < b < after.items.len() implies (
    #[trigger] after.items[a]).entity != (#[trigger] after.items[b]).entity by {
        assert(nav.items[a].entity != nav.items[b].entity);
    }
}

/// A list for which there are items already brings the last of them up to date: it gets the name, count and
/// icon of the list, and keeps its number, its line and the list that it stands for. No other item changes.
pub proof fn known_lists_are_brought_up_to_date(
    nav: NavView,
    lists: Seq<ListView>,
    list: ListView,
    i: int,
)
    requires
        0 <= i < nav.with_lists(lists).items.len(),
        nav.with_lists(lists).items[i].list.id == list.id,
        forall|j: int|
            i < j < nav.with_lists(lists).items.len() ==> (#[trigger] nav.with_lists(
                lists,
            ).items[j]).list.id != list.id,
    ensures
        nav.with_lists(lists.push(list)) == (NavView {
            items: nav.with_lists(lists).items.update(
                i,
                NavItemView {
                    text: label(list.number_of_tasks as nat, list.name),
                    icon: icon_of(list),
                    ..nav.with_lists(lists).items[i]
                },
            ),
            ..nav.with_lists(lists)
        }),
{
    assert(lists.push(list).drop_last() =~= lists);
    lemma_last_place_of_list(nav.with_lists(lists).items, list.id, i);
}

proof fn lemma_last_place_of_list(items: Seq<NavItemView>, list_id: Seq<char>, i: int)
    requires
        0 <= i < items.len(),
        items[i].list.id == list_id,
        forall|j: int| i < j < items.len() ==> (#[trigger] items[j]).list.id != list_id,
    ensures
        place_of_list(items, list_id) == Some(i),
    decreases items.len(),
{
    if i < items.len() - 1 {
        assert(items[items.len() - 1].list.id != list_id);
        lemma_last_place_of_list(items.drop_last(), list_id, i);
    }
}

} // verus!
