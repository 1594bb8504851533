//! The order in which lists are shown.

use vstd::prelude::*;

use crate::storage::models::{List, ListView};
use crate::text;

verus! {

/// Whether `a` comes before `b`, where nothing comes before something.
pub open spec fn role_before(a: Option<Seq<char>>, b: Option<Seq<char>>) -> bool {
    match (a, b) {
        (None, Some(_)) => true,
        (Some(a), Some(b)) => text::text_before(a, b),
        _ => false,
    }
}

/// Whether the list `a` has to be shown before the list `b`: virtual lists come first and go by their
/// sort order; regular lists go by their role, and lists of one role by their name.
pub open spec fn list_before(a: ListView, b: ListView) -> bool {
    if a.is_virtual != b.is_virtual {
        a.is_virtual
    } else if a.is_virtual {
        a.sort_order < b.sort_order
    } else if role_before(a.well_known_list_name, b.well_known_list_name) {
        true
    } else if role_before(b.well_known_list_name, a.well_known_list_name) {
        false
    } else {
        text::text_before(a.name, b.name)
    }
}

/// Whether, of the lists at the places `i` and `j`, the one at `i` is shown first: it has to be, or
/// neither has to be and it stood first.
pub open spec fn is_shown_first(lists: Seq<ListView>, i: int, j: int) -> bool {
    list_before(lists[i], lists[j]) || (!list_before(lists[j], lists[i]) && i < j)
}

/// Whether `arranged` holds the lists of `lists`, where `places` tells for each the place that it had
/// in `lists`, in the order in which they are shown.
pub open spec fn is_arranged_by(
    lists: Seq<ListView>,
    arranged: Seq<ListView>,
    places: Seq<int>,
) -> bool {
    &&& places.len() == lists.len()
    &&& arranged.len() == lists.len()
    &&& forall|i: int| 0 <= i < places.len() ==> 0 <= #[trigger] places[i] < lists.len()
    &&& forall|i: int, j: int|
        0 <= i < j < places.len() ==> #[trigger] places[i] != #[trigger] places[j]
    &&& forall|i: int| 0 <= i < places.len() ==> #[trigger] arranged[i] == lists[places[i]]
    &&& forall|i: int, j: int|
        0 <= i < j < places.len() ==> is_shown_first(lists, #[trigger] places[i], #[trigger] places[j])
}

/// Whether `arranged` holds the lists of `lists` in the order in which they are shown.
pub open spec fn is_arranged(lists: Seq<ListView>, arranged: Seq<ListView>) -> bool {
    exists|places: Seq<int>| is_arranged_by(lists, arranged, places)
}

/// Of two roles that differ exactly one comes first.
proof fn lemma_role_before_total(a: Option<Seq<char>>, b: Option<Seq<char>>)
    ensures
        !role_before(a, a),
        role_before(a, b) ==> !role_before(b, a),
{
    if a is Some && b is Some {
        text::bytes_before_is_total(
            vstd::utf8::encode_utf8(a->0),
            vstd::utf8::encode_utf8(b->0),
        );
    }
    if a is Some {
        text::bytes_before_is_total(
            vstd::utf8::encode_utf8(a->0),
            vstd::utf8::encode_utf8(a->0),
        );
    }
}

/// What does not come after something does not come after what that does not come after.
proof fn lemma_text_not_after(a: Seq<char>, b: Seq<char>, c: Seq<char>)
    requires
        !text::text_before(b, a),
        !text::text_before(c, b),
    ensures
        !text::text_before(c, a),
        text::text_before(a, b) || text::text_before(b, c) ==> text::text_before(a, c),
{
    let x = vstd::utf8::encode_utf8(a);
    let y = vstd::utf8::encode_utf8(b);
    let z = vstd::utf8::encode_utf8(c);
    text::bytes_before_is_total(x, y);
    text::bytes_before_is_total(y, z);
    text::bytes_before_is_total(x, z);
    if x != y && y != z {
        text::bytes_before_is_transitive(x, y, z);
    }
}

proof fn lemma_role_not_after(a: Option<Seq<char>>, b: Option<Seq<char>>, c: Option<Seq<char>>)
    requires
        !role_before(b, a),
        !role_before(c, b),
    ensures
        !role_before(c, a),
        role_before(a, b) || role_before(b, c) ==> role_before(a, c),
{
    if a is Some && b is Some && c is Some {
        lemma_text_not_after(a->0, b->0, c->0);
    }
}

/// The order of lists is consistent: no list has to be shown before itself, of two lists at most one
/// has to be shown before the other, and a list that need not be shown after a second one, which need
/// not be shown after a third, need not be shown after the third either.
pub proof fn list_order_is_consistent(a: ListView, b: ListView, c: ListView)
    ensures
        !list_before(a, a),
        list_before(a, b) ==> !list_before(b, a),
        !list_before(b, a) && !list_before(c, b) ==> !list_before(c, a),
        list_before(a, b) && list_before(b, c) ==> list_before(a, c),
        list_before(a, b) && !list_before(c, b) ==> list_before(a, c),
        !list_before(b, a) && list_before(b, c) ==> list_before(a, c),
{
    let (ra, rb, rc) = (a.well_known_list_name, b.well_known_list_name, c.well_known_list_name);
    lemma_role_before_total(ra, rb);
    lemma_role_before_total(rb, rc);
    lemma_role_before_total(ra, rc);
    text::bytes_before_is_total(vstd::utf8::encode_utf8(a.name), vstd::utf8::encode_utf8(b.name));
    text::bytes_before_is_total(vstd::utf8::encode_utf8(b.name), vstd::utf8::encode_utf8(c.name));
    text::bytes_before_is_total(vstd::utf8::encode_utf8(a.name), vstd::utf8::encode_utf8(c.name));
    if !role_before(rb, ra) && !role_before(rc, rb) {
        lemma_role_not_after(ra, rb, rc);
    }
    if !role_before(rb, rc) && !role_before(ra, rb) {
        lemma_role_not_after(rc, rb, ra);
    }
    if !text::text_before(b.name, a.name) && !text::text_before(c.name, b.name) {
        lemma_text_not_after(a.name, b.name, c.name);
    }
}

/// Tells whether `a` comes before `b`, where nothing comes before something.
fn role_comes_first(a: &Option<String>, b: &Option<String>) -> (r: bool)
    ensures
        r == role_before(a.deep_view(), b.deep_view()),
{
    match (a, b) {
        (None, Some(_)) => true,
        (Some(a), Some(b)) => text::before(a.as_str(), b.as_str()),
        _ => false,
    }
}

/// Tells whether the list `a` has to be shown before the list `b`.
pub fn comes_first(a: &List, b: &List) -> (r: bool)
    ensures
        r == list_before(a@, b@),
{
    if a.is_virtual && !b.is_virtual {
        true
    } else if !a.is_virtual && b.is_virtual {
        false
    } else if a.is_virtual && b.is_virtual {
        a.sort_order < b.sort_order
    } else if role_comes_first(&a.well_known_list_name, &b.well_known_list_name) {
        true
    } else if role_comes_first(&b.well_known_list_name, &a.well_known_list_name) {
        false
    } else {
        text::before(a.name.as_str(), b.name.as_str())
    }
}

/// Puts the list at the place `places.len()` of `lists` among the arranged ones, at the place `k`.
proof fn lemma_insert(
    lists: Seq<ListView>,
    arranged: Seq<ListView>,
    places: Seq<int>,
    k: int,
)
    requires
        places.len() < lists.len(),
        is_arranged_by(lists.take(places.len() as int), arranged, places),
        0 <= k <= places.len(),
        k > 0 ==> !list_before(lists[places.len() as int], arranged[k - 1]),
        k < places.len() ==> list_before(lists[places.len() as int], arranged[k]),
    ensures
        is_arranged_by(
            lists.take(places.len() as int + 1),
            arranged.insert(k, lists[places.len() as int]),
            places.insert(k, places.len() as int),
        ),
{
    let n = places.len() as int;
    let new = lists[n];
    let old_lists = lists.take(n);
    let new_lists = lists.take(n + 1);
    let new_places = places.insert(k, n);
    assert forall|i: int, j: int|
        0 <= i < j < new_places.len() implies is_shown_first(
        new_lists,
        #[trigger] new_places[i],
        #[trigger] new_places[j],
    ) by {
        if i == k {
            let other = new_lists[new_places[j]];
            assert(other == arranged[j - 1]);
            if j - 1 > k {
                assert(is_shown_first(old_lists, places[k], places[j - 1]));
                list_order_is_consistent(new, arranged[k], other);
            }
        } else if j == k {
            let other = new_lists[new_places[i]];
            assert(other == arranged[i]);
            if i < k - 1 {
                assert(is_shown_first(old_lists, places[i], places[k - 1]));
                list_order_is_consistent(other, arranged[k - 1], new);
                list_order_is_consistent(other, arranged[k - 1], other);
            }
        } else {
            let i0 = if i < k { i } else { i - 1 };
            let j0 = if j < k { j } else { j - 1 };
            assert(is_shown_first(old_lists, places[i0], places[j0]));
        }
    }
    assert forall|i: int| 0 <= i < new_places.len() implies #[trigger] arranged.insert(k, new)[i]
        == new_lists[new_places[i]] by {
        if i < k {
            assert(arranged[i] == old_lists[places[i]]);
        } else if i > k {
            assert(arranged[i - 1] == old_lists[places[i - 1]]);
        }
    }
}

/// Arranges the lists in the order in which they are shown.
pub fn arrange(lists: Vec<List>) -> (arranged: Vec<List>)
    ensures
        is_arranged(lists.deep_view(), arranged.deep_view()),
{
    let ghost all = lists.deep_view();
    let mut lists = lists;
    let mut arranged: Vec<List> = Vec::new();
    let ghost mut places: Seq<int> = Seq::empty();
    assert(lists.deep_view() =~= all.skip(0));
    assert(is_arranged_by(all.take(0), arranged.deep_view(), places));
    while lists.len() > 0
        invariant
            places.len() + lists@.len() == all.len(),
            lists.deep_view() == all.skip(places.len() as int),
            is_arranged_by(all.take(places.len() as int), arranged.deep_view(), places),
        decreases lists@.len(),
    {
        let ghost n = places.len() as int;
        let ghost rest = lists.deep_view();
        let list = lists.remove(0);
        assert(list@ == rest[0]);
        assert forall|i: int| 0 <= i < lists@.len() implies #[trigger] lists.deep_view()[i] == rest[i
            + 1] by {}
        assert(lists.deep_view() =~= all.skip(n + 1));
        let ghost before = arranged.deep_view();
        let mut k: usize = arranged.len();
        while k > 0 && comes_first(&list, &arranged[k - 1])
            invariant
                k <= arranged@.len(),
                before == arranged.deep_view(),
                k < before.len() ==> list_before(list@, before[k as int]),
            decreases k,
        {
            k -= 1;
        }
        let ghost new = list@;
        arranged.insert(k, list);
        proof {
            assert(arranged.deep_view() =~= before.insert(k as int, new));
            lemma_insert(all, before, places, k as int);
            places = places.insert(k as int, n);
        }
    }
    assert(all.take(places.len() as int) =~= all);
    arranged
}

/// The order in which lists are shown is a matter of the lists alone: there is one way to arrange
/// them.
pub proof fn arrangement_is_unique(
    lists: Seq<ListView>,
    one: Seq<ListView>,
    other: Seq<ListView>,
)
    requires
        is_arranged(lists, one),
        is_arranged(lists, other),
    ensures
        one == other,
{
    let p = choose|places: Seq<int>| is_arranged_by(lists, one, places);
    let q = choose|places: Seq<int>| is_arranged_by(lists, other, places);
    assert forall|i: int| 0 <= i < lists.len() implies p[i] == q[i] by {
        lemma_same_places(lists, one, p, other, q, i);
    }
    assert(one =~= other);
}

/// Two ways to arrange the lists agree on the first `i + 1` places.
proof fn lemma_same_places(
    lists: Seq<ListView>,
    one: Seq<ListView>,
    p: Seq<int>,
    other: Seq<ListView>,
    q: Seq<int>,
    i: int,
)
    requires
        is_arranged_by(lists, one, p),
        is_arranged_by(lists, other, q),
        0 <= i < lists.len(),
    ensures
        forall|j: int| 0 <= j <= i ==> #[trigger] p[j] == q[j],
    decreases i,
{
    if i > 0 {
        lemma_same_places(lists, one, p, other, q, i - 1);
    }
    if p[i] != q[i] {
        lemma_place_is_taken(p, q[i]);
        lemma_place_is_taken(q, p[i]);
        let j = choose|j: int| 0 <= j < p.len() && p[j] == q[i];
        let k = choose|k: int| 0 <= k < q.len() && q[k] == p[i];
        if j < i {
            assert(p[j] == q[j]);
        }
        if k < i {
            assert(p[k] == q[k]);
        }
        assert(is_shown_first(lists, p[i], p[j]));
        assert(is_shown_first(lists, q[i], q[k]));
        list_order_is_consistent(lists[p[i]], lists[q[i]], lists[p[i]]);
    }
}

/// As many different places as there are take up every place.
pub(crate) proof fn lemma_place_is_taken(places: Seq<int>, place: int)
    requires
        0 <= place < places.len(),
        forall|i: int| 0 <= i < places.len() ==> 0 <= #[trigger] places[i] < places.len(),
        forall|i: int, j: int|
            0 <= i < j < places.len() ==> #[trigger] places[i] != #[trigger] places[j],
    ensures
        exists|i: int| 0 <= i < places.len() && places[i] == place,
{
    let taken = places.to_set();
    let all = vstd::set_lib::set_int_range(0, places.len() as int);
    vstd::set_lib::lemma_int_range(0, places.len() as int);
    assert(places.no_duplicates());
    places.unique_seq_to_set();
    assert(taken.subset_of(all));
    vstd::set_lib::lemma_subset_equality(taken, all);
    assert(taken.contains(place));
}

/// Arranging loses no list and adds none.
pub proof fn arrangement_holds_the_lists(lists: Seq<ListView>, arranged: Seq<ListView>, list: ListView)
    requires
        is_arranged(lists, arranged),
    ensures
        arranged.len() == lists.len(),
        arranged.contains(list) <==> lists.contains(list),
{
    let places = choose|places: Seq<int>| is_arranged_by(lists, arranged, places);
    if arranged.contains(list) {
        let i = choose|i: int| 0 <= i < arranged.len() && arranged[i] == list;
        assert(lists[places[i]] == list);
    }
    if lists.contains(list) {
        let place = choose|place: int| 0 <= place < lists.len() && lists[place] == list;
        lemma_place_is_taken(places, place);
        let i = choose|i: int| 0 <= i < places.len() && places[i] == place;
        assert(arranged[i] == list);
    }
}

/// Of two lists that are shown, the one that is shown first has a right to be: a virtual list comes
/// before a regular one, and of two virtual lists the one with the smaller sort order comes first. Of
/// two regular lists a list without a role comes first, else the one whose role is smaller in the order
/// of texts; and of two lists of one role, whatever it is, the one whose name is smaller.
pub proof fn lists_are_shown_in_order(
    lists: Seq<ListView>,
    arranged: Seq<ListView>,
    i: int,
    j: int,
)
    requires
        is_arranged(lists, arranged),
        0 <= i < j < arranged.len(),
    ensures
        ({
            let a = arranged[i];
            let b = arranged[j];
            &&& b.is_virtual ==> a.is_virtual
            &&& a.is_virtual && b.is_virtual ==> a.sort_order <= b.sort_order
            &&& !a.is_virtual && a.well_known_list_name is Some ==> b.well_known_list_name is Some
            &&& !a.is_virtual && a.well_known_list_name is Some ==> !text::text_before(
                b.well_known_list_name->0,
                a.well_known_list_name->0,
            )
            &&& !a.is_virtual && a.well_known_list_name == b.well_known_list_name
                ==> !text::text_before(b.name, a.name)
        }),
{
    let a = arranged[i];
    let b = arranged[j];
    let places = choose|places: Seq<int>| is_arranged_by(lists, arranged, places);
    assert(is_shown_first(lists, places[i], places[j]));
    list_order_is_consistent(a, b, a);
    text::bytes_before_is_total(vstd::utf8::encode_utf8(a.name), vstd::utf8::encode_utf8(b.name));
    if a.well_known_list_name is Some && b.well_known_list_name is Some {
        text::bytes_before_is_total(
            vstd::utf8::encode_utf8(a.well_known_list_name->0),
            vstd::utf8::encode_utf8(b.well_known_list_name->0),
        );
    }
}

/// Whether nothing tells which of two lists is to be shown first: they are virtual and have the same
/// sort order, or regular and have the same role and name.
pub open spec fn is_tie(a: ListView, b: ListView) -> bool {
    &&& a.is_virtual == b.is_virtual
    &&& a.is_virtual ==> a.sort_order == b.sort_order
    &&& !a.is_virtual ==> a.well_known_list_name == b.well_known_list_name && a.name == b.name
}

/// Whether `places` tells where each of `arranged` stood in `lists`: each list stands once in `arranged`,
/// and lists that nothing tells apart keep their order.
pub open spec fn keeps_ties(lists: Seq<ListView>, arranged: Seq<ListView>, places: Seq<int>) -> bool {
    &&& arranged.len() == lists.len()
    &&& places.len() == lists.len()
    &&& forall|i: int|
        0 <= i < places.len() ==> 0 <= #[trigger] places[i] < lists.len() && arranged[i]
            == lists[places[i]]
    &&& forall|i: int, j: int|
        0 <= i < j < places.len() ==> #[trigger] places[i] != #[trigger] places[j]
    &&& forall|i: int, j: int|
        0 <= i < j < places.len() && is_tie(arranged[i], arranged[j]) ==> #[trigger] places[i]
            < #[trigger] places[j]
}

/// Every list is shown as often as it is there, as it is, and lists that nothing tells apart are shown in
/// the order in which they came.
pub proof fn ties_keep_their_order(lists: Seq<ListView>, arranged: Seq<ListView>)
    requires
        is_arranged(lists, arranged),
    ensures
        exists|places: Seq<int>| #[trigger] keeps_ties(lists, arranged, places),
{
    let places = choose|places: Seq<int>| is_arranged_by(lists, arranged, places);
    assert forall|i: int, j: int|
        0 <= i < j < places.len() && is_tie(arranged[i], arranged[j]) implies #[trigger] places[i]
        < #[trigger] places[j] by {
        let a = arranged[i];
        let b = arranged[j];
        assert(is_shown_first(lists, places[i], places[j]));
        lemma_role_before_total(a.well_known_list_name, a.well_known_list_name);
        text::bytes_before_is_total(vstd::utf8::encode_utf8(a.name), vstd::utf8::encode_utf8(a.name));
    }
    assert forall|i: int| 0 <= i < places.len() implies 0 <= #[trigger] places[i] < lists.len()
        && arranged[i] == lists[places[i]] by {
        assert(arranged[i] == lists[places[i]]);
    }
    assert(keeps_ties(lists, arranged, places));
}

} // verus!
