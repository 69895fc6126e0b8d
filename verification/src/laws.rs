//! What holds of the store's operations taken together, stated over the
//! store's mathematical value.

use crate::book::{Fields, Record, Timestamp};
use crate::store::{
    after_create, after_delete, after_update, created, edited, has_id, ids_distinct,
    is_first_with_id, lemma_has_first, lemma_place_of, lookup, place_of,
};
use vstd::prelude::*;

verus! {

/// Each record of `added` carries an id that neither a record of `s` nor an
/// earlier record of `added` carries.
pub open spec fn each_id_new(s: Seq<Record>, added: Seq<Record>) -> bool {
    forall|k: int| 0 <= k < added.len() ==> !has_id(s + added.take(k), (#[trigger] added[k]).id)
}

/// Uniqueness, one step: a creation under an id that no record carries
/// keeps the ids pairwise distinct.
pub proof fn lemma_create_keeps_ids_distinct(
    s: Seq<Record>,
    id: Seq<char>,
    fields: Fields,
    added_at: Timestamp,
)
    requires
        ids_distinct(s),
        !has_id(s, id),
    ensures
        ids_distinct(after_create(s, id, fields, added_at)),
{
    let t = after_create(s, id, fields, added_at);
    assert forall|i: int, j: int| 0 <= i < j < t.len() implies (#[trigger] t[i]).id != (
    #[trigger] t[j]).id by {
        if j < s.len() {
            assert(t[i] == s[i] && t[j] == s[j]);
        } else {
            assert(t[i] == s[i]);
        }
    }
}

/// Uniqueness, any number of steps: when every creation draws an id that no
/// record carries at that moment, the records of a store that started with
/// distinct ids, and so the created ones among themselves, carry pairwise
/// distinct ids.
pub proof fn lemma_creations_have_distinct_ids(s: Seq<Record>, added: Seq<Record>)
    requires
        ids_distinct(s),
        each_id_new(s, added),
    ensures
        ids_distinct(s + added),
        ids_distinct(added),
{
    let t = s + added;
    assert forall|i: int, j: int| 0 <= i < j < t.len() implies (#[trigger] t[i]).id != (
    #[trigger] t[j]).id by {
        if j < s.len() {
            assert(t[i] == s[i] && t[j] == s[j]);
        } else {
            let k = j - s.len();
            let before = s + added.take(k);
            assert(t[j] == added[k]);
            assert(!has_id(before, added[k].id));
            assert(before[i] == t[i]);
        }
    }
    assert forall|i: int, j: int| 0 <= i < j < added.len() implies (#[trigger] added[i]).id != (
    #[trigger] added[j]).id by {
        assert(t[s.len() + i] == added[i] && t[s.len() + j] == added[j]);
    }
}

/// An edit keeps the ids pairwise distinct.
pub proof fn lemma_update_keeps_ids_distinct(s: Seq<Record>, id: Seq<char>, fields: Fields)
    requires
        ids_distinct(s),
        has_id(s, id),
    ensures
        ids_distinct(after_update(s, id, fields).unwrap()),
{
    lemma_has_first(s, id);
    let t = after_update(s, id, fields).unwrap();
    assert forall|i: int, j: int| 0 <= i < j < t.len() implies (#[trigger] t[i]).id != (
    #[trigger] t[j]).id by {
        assert(t[i].id == s[i].id && t[j].id == s[j].id);
    }
}

/// A deletion keeps the ids pairwise distinct.
pub proof fn lemma_delete_keeps_ids_distinct(s: Seq<Record>, id: Seq<char>)
    requires
        ids_distinct(s),
        has_id(s, id),
    ensures
        ids_distinct(after_delete(s, id).unwrap()),
{
    lemma_has_first(s, id);
    let p = place_of(s, id);
    let t = after_delete(s, id).unwrap();
    assert forall|i: int, j: int| 0 <= i < j < t.len() implies (#[trigger] t[i]).id != (
    #[trigger] t[j]).id by {
        let i0 = if i < p { i } else { i + 1 };
        let j0 = if j < p { j } else { j + 1 };
        assert(t[i] == s[i0] && t[j] == s[j0]);
    }
}

/// Round trip: a record created under an id that no record carried is the
/// one found under that id, with the fields it was created from.
pub proof fn lemma_get_after_create(
    s: Seq<Record>,
    id: Seq<char>,
    fields: Fields,
    added_at: Timestamp,
)
    requires
        !has_id(s, id),
    ensures
        lookup(after_create(s, id, fields, added_at), id) == Some(created(id, fields, added_at)),
{
    let t = after_create(s, id, fields, added_at);
    let last = s.len() as int;
    assert forall|j: int| 0 <= j < last implies (#[trigger] t[j]).id != id by {
        assert(t[j] == s[j]);
    }
    assert(is_first_with_id(t, id, last));
    lemma_place_of(t, id, last);
}

/// An edit keeps identity: the record found under the id afterwards is the
/// one found before, with the same id and creation time and with the new
/// fields. The store keeps its length and every other record.
pub proof fn lemma_get_after_update(s: Seq<Record>, id: Seq<char>, fields: Fields)
    requires
        has_id(s, id),
    ensures
        after_update(s, id, fields) is Some,
        lookup(after_update(s, id, fields).unwrap(), id) == Some(
            edited(lookup(s, id).unwrap(), fields),
        ),
        edited(lookup(s, id).unwrap(), fields).id == id,
        edited(lookup(s, id).unwrap(), fields).added_at == lookup(s, id).unwrap().added_at,
        after_update(s, id, fields).unwrap().len() == s.len(),
        forall|i: int|
            0 <= i < s.len() && i != place_of(s, id) ==> (#[trigger] after_update(
                s,
                id,
                fields,
            ).unwrap()[i]) == s[i],
{
    lemma_has_first(s, id);
    let p = place_of(s, id);
    let t = after_update(s, id, fields).unwrap();
    assert forall|j: int| 0 <= j < p implies (#[trigger] t[j]).id != id by {
        assert(t[j] == s[j]);
    }
    assert(is_first_with_id(t, id, p));
    lemma_place_of(t, id, p);
}

/// A deletion removes exactly one record, and in a store whose ids are
/// pairwise distinct nothing is found under the id afterwards.
pub proof fn lemma_delete_removes_one(s: Seq<Record>, id: Seq<char>)
    requires
        has_id(s, id),
    ensures
        after_delete(s, id) is Some,
        after_delete(s, id).unwrap().len() == s.len() - 1,
        ids_distinct(s) ==> lookup(after_delete(s, id).unwrap(), id).is_none(),
{
    lemma_has_first(s, id);
    let p = place_of(s, id);
    let t = after_delete(s, id).unwrap();
    if ids_distinct(s) && has_id(t, id) {
        let k = choose|k: int| 0 <= k < t.len() && (#[trigger] t[k]).id == id;
        let k0 = if k < p { k } else { k + 1 };
        assert(t[k] == s[k0]);
        if k0 < p {
            assert(s[k0].id != s[p].id);
        } else {
            assert(s[p].id != s[k0].id);
        }
    }
}

/// A deletion leaves the survivors in their old order: it splits the store
/// at the deleted record and joins the two parts.
pub proof fn lemma_delete_keeps_order(s: Seq<Record>, id: Seq<char>)
    requires
        has_id(s, id),
    ensures
        after_delete(s, id) == Some(
            s.take(place_of(s, id)) + s.skip(place_of(s, id) + 1),
        ),
{
    lemma_has_first(s, id);
    let p = place_of(s, id);
    assert(s.remove(p) =~= s.take(p) + s.skip(p + 1));
}

/// Nothing is found, edited or deleted under an id that no record carries.
pub proof fn lemma_unknown_id(s: Seq<Record>, id: Seq<char>, fields: Fields)
    requires
        !has_id(s, id),
    ensures
        lookup(s, id).is_none(),
        after_update(s, id, fields).is_none(),
        after_delete(s, id).is_none(),
{
}

/// Creating two records in an empty store and deleting by the id of the
/// first leaves exactly the second.
pub proof fn lemma_delete_first_of_two(
    first_id: Seq<char>,
    first: Fields,
    first_at: Timestamp,
    second_id: Seq<char>,
    second: Fields,
    second_at: Timestamp,
)
    ensures
        after_delete(
            after_create(
                after_create(Seq::empty(), first_id, first, first_at),
                second_id,
                second,
                second_at,
            ),
            first_id,
        ) == Some(seq![created(second_id, second, second_at)]),
{
    let s = after_create(
        after_create(Seq::empty(), first_id, first, first_at),
        second_id,
        second,
        second_at,
    );
    assert(s[0] == created(first_id, first, first_at));
    assert(is_first_with_id(s, first_id, 0));
    lemma_place_of(s, first_id, 0);
    assert(s.remove(0) =~= seq![created(second_id, second, second_at)]);
}

} // verus!
