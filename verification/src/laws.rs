use vstd::prelude::*;

use crate::ingest::{ingest_fold, item_create_args};
use crate::json::JsonValue;
use crate::store::{
    create_allowed, create_next, delete_next, delete_rows, has_id, id_index, lemma_create_next_wf,
    lemma_delete_next_wf, lemma_id_index_finds, lemma_update_next_wf, new_record, spec_projection,
    update_allowed, update_next, CreateArgs, StoreModel, UpdateArgs,
};

verus! {

/// A committed create assigns the store's next id, which no existing row
/// carries, and stamps `time_created` and `updated_date` to the same value.
pub proof fn law_create_fresh_id(s: StoreModel, a: CreateArgs)
    requires
        s.wf(),
        create_allowed(s, a),
    ensures
        new_record(s, a).id == s.next_id,
        forall|i: int|
            0 <= i < s.records.len() ==> (#[trigger] s.records[i]).id != new_record(s, a).id,
        new_record(s, a).time_created == new_record(s, a).updated_date,
        create_next(s, a).wf(),
{
    lemma_create_next_wf(s, a);
    assert forall|i: int| 0 <= i < s.records.len() implies (#[trigger] s.records[i]).id
        != new_record(s, a).id by {
        assert(s.record_wf(s.records[i]));
    }
}

/// No step of the store ever lowers `next_id`, and only a committed create
/// raises it: an id handed out once is therefore never assigned again,
/// whatever mix of creates, updates and deletes follows.
pub proof fn law_next_id_monotone(s: StoreModel, a: CreateArgs, u: UpdateArgs, id: int)
    ensures
        create_next(s, a).next_id == s.next_id + 1,
        update_next(s, id, u).next_id == s.next_id,
        delete_next(s, id).next_id == s.next_id,
{
}

/// Two creates at different points of one session return different ids: the
/// later store's `next_id` has moved past the earlier create's id.
pub proof fn law_created_ids_distinct(s1: StoreModel, a1: CreateArgs, s2: StoreModel, a2: CreateArgs)
    requires
        create_next(s1, a1).next_id <= s2.next_id,
    ensures
        new_record(s2, a2).id != new_record(s1, a1).id,
{
}

/// An update with every optional field absent changes nothing of the row but
/// `updated_date`, which strictly increases; every other row is untouched.
pub proof fn law_update_refreshes_only_timestamp(s: StoreModel, id: int)
    requires
        s.wf(),
        update_allowed(s, id),
    ensures
        ({
            let a = UpdateArgs { image: None, ipfs_image_url: None, category: None };
            let i = id_index(s.records, id);
            let pre = s.records[i];
            let post = update_next(s, id, a).records[i];
            &&& post.id == pre.id
            &&& post.image == pre.image
            &&& post.ipfs_image_url == pre.ipfs_image_url
            &&& post.category == pre.category
            &&& post.width == pre.width
            &&& post.height == pre.height
            &&& post.prompt == pre.prompt
            &&& post.hash_id == pre.hash_id
            &&& post.time_created == pre.time_created
            &&& pre.updated_date matches Some(before) && post.updated_date matches Some(after)
                && before < after
            &&& forall|j: int|
                0 <= j < s.records.len() && j != i ==> update_next(s, id, a).records[j]
                    == #[trigger] s.records[j]
            &&& update_next(s, id, a).records.len() == s.records.len()
        }),
{
    lemma_id_index_finds(s.records, id);
    let i = id_index(s.records, id);
    assert(s.record_wf(s.records[i]));
}

/// The coalesce law of updates: each present field's stored value equals the
/// supplied value afterwards, each absent field keeps its stored value, no
/// other column of the row moves, and no other row moves at all.
pub proof fn law_update_coalesce(s: StoreModel, id: int, a: UpdateArgs)
    requires
        s.wf(),
        update_allowed(s, id),
    ensures
        ({
            let i = id_index(s.records, id);
            let pre = s.records[i];
            let post = update_next(s, id, a).records[i];
            &&& a.image matches Some(v) ==> post.image == v
            &&& a.image is None ==> post.image == pre.image
            &&& a.ipfs_image_url matches Some(v) ==> post.ipfs_image_url == v
            &&& a.ipfs_image_url is None ==> post.ipfs_image_url == pre.ipfs_image_url
            &&& a.category matches Some(v) ==> post.category == Some(v)
            &&& a.category is None ==> post.category == pre.category
            &&& post.id == pre.id
            &&& post.width == pre.width
            &&& post.height == pre.height
            &&& post.prompt == pre.prompt
            &&& post.hash_id == pre.hash_id
            &&& post.time_created == pre.time_created
            &&& forall|j: int|
                0 <= j < s.records.len() && j != i ==> update_next(s, id, a).records[j]
                    == #[trigger] s.records[j]
        }),
        update_next(s, id, a).wf(),
{
    lemma_id_index_finds(s.records, id);
    lemma_update_next_wf(s, id, a);
}

/// Deleting an existing id affects exactly one row and leaves no row with
/// that id behind; deleting an absent id affects zero rows, changes nothing,
/// and is an answer rather than an error.
pub proof fn law_delete_removes_id(s: StoreModel, id: int)
    requires
        s.wf(),
    ensures
        has_id(s.records, id) ==> delete_rows(s, id) == 1,
        !has_id(s.records, id) ==> delete_rows(s, id) == 0 && delete_next(s, id) == s,
        !has_id(delete_next(s, id).records, id),
        forall|i: int|
            0 <= i < delete_next(s, id).records.len() ==> spec_projection(
                #[trigger] delete_next(s, id).records[i],
            ).id != id,
        delete_next(s, id).wf(),
{
    lemma_delete_next_wf(s, id);
}

/// Deleting the same existing id twice affects one row, then zero: the
/// second delete finds nothing and leaves the store as the first left it.
pub proof fn law_delete_idempotent(s: StoreModel, id: int)
    requires
        s.wf(),
        has_id(s.records, id),
    ensures
        delete_rows(s, id) == 1,
        delete_rows(delete_next(s, id), id) == 0,
        delete_next(delete_next(s, id), id) == delete_next(s, id),
{
    lemma_delete_next_wf(s, id);
}

/// Batch ingestion accounts for every item exactly once: the inserted and
/// failed tallies are non-negative and add up to the number of items, and the
/// store stays well-formed throughout.
pub proof fn law_ingest_totals(s: StoreModel, items: Seq<JsonValue>, category: Option<Seq<char>>)
    requires
        s.wf(),
    ensures
        ingest_fold(s, items, category).inserted + ingest_fold(s, items, category).failed
            == items.len(),
        ingest_fold(s, items, category).inserted >= 0,
        ingest_fold(s, items, category).failed >= 0,
        ingest_fold(s, items, category).store.wf(),
    decreases items.len(),
{
    if items.len() > 0 {
        law_ingest_totals(s, items.drop_last(), category);
        let prev = ingest_fold(s, items.drop_last(), category);
        let a = item_create_args(items.last(), category);
        if create_allowed(prev.store, a) {
            lemma_create_next_wf(prev.store, a);
        }
    }
}

} // verus!
