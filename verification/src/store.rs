use vstd::prelude::*;

use crate::error::Error;

verus! {

/// One stored row of the artwork table: the write-side schema.
///
/// `id` is store-assigned, unique and immutable. `time_created` is set once at
/// insert; `updated_date` is set at insert and refreshed on every update. The
/// store stamps both from its own logical clock, so rows it created always
/// carry them; the fields stay optional because the read projection must
/// render an absent timestamp as absent.
#[derive(Debug, PartialEq)]
pub struct StoredRecord {
    pub id: i32,
    pub image: String,
    pub ipfs_image_url: String,
    pub category: Option<String>,
    pub width: i32,
    pub height: i32,
    pub prompt: Option<String>,
    pub hash_id: String,
    pub time_created: Option<u64>,
    pub updated_date: Option<u64>,
}

/// The mathematical shape of a [`StoredRecord`].
#[verifier::ext_equal]
pub ghost struct RecordModel {
    pub id: int,
    pub image: Seq<char>,
    pub ipfs_image_url: Seq<char>,
    pub category: Option<Seq<char>>,
    pub width: int,
    pub height: int,
    pub prompt: Option<Seq<char>>,
    pub hash_id: Seq<char>,
    pub time_created: Option<int>,
    pub updated_date: Option<int>,
}

/// The view of an optional text value.
pub open spec fn opt_view(o: Option<String>) -> Option<Seq<char>> {
    match o {
        Some(s) => Some(s@),
        None => None,
    }
}

/// The view of an optional timestamp.
pub open spec fn opt_time_view(o: Option<u64>) -> Option<int> {
    match o {
        Some(t) => Some(t as int),
        None => None,
    }
}

impl View for StoredRecord {
    type V = RecordModel;

    open spec fn view(&self) -> RecordModel {
        RecordModel {
            id: self.id as int,
            image: self.image@,
            ipfs_image_url: self.ipfs_image_url@,
            category: opt_view(self.category),
            width: self.width as int,
            height: self.height as int,
            prompt: opt_view(self.prompt),
            hash_id: self.hash_id@,
            time_created: opt_time_view(self.time_created),
            updated_date: opt_time_view(self.updated_date),
        }
    }
}

/// The read-side projection of a stored record: the subset of columns exposed
/// to callers, with both timestamps rendered as text. An absent timestamp
/// projects to an absent text, never to an empty one.
#[derive(Debug, PartialEq)]
pub struct ReturnJson {
    pub id: i32,
    pub image: String,
    pub ipfs_image_url: String,
    pub category: Option<String>,
    pub created: Option<String>,
    pub updated_date: Option<String>,
}

/// The mathematical shape of a [`ReturnJson`].
#[verifier::ext_equal]
pub ghost struct ReturnJsonModel {
    pub id: int,
    pub image: Seq<char>,
    pub ipfs_image_url: Seq<char>,
    pub category: Option<Seq<char>>,
    pub created: Option<Seq<char>>,
    pub updated_date: Option<Seq<char>>,
}

impl View for ReturnJson {
    type V = ReturnJsonModel;

    open spec fn view(&self) -> ReturnJsonModel {
        ReturnJsonModel {
            id: self.id as int,
            image: self.image@,
            ipfs_image_url: self.ipfs_image_url@,
            category: opt_view(self.category),
            created: opt_view(self.created),
            updated_date: opt_view(self.updated_date),
        }
    }
}

/// The RFC 3339 text of the instant `secs` seconds after the Unix epoch, in
/// UTC, or `None` where the instant is out of the renderer's range.
pub uninterp spec fn rfc3339_of(secs: u64) -> Option<Seq<char>>;

/// Relies on chrono's `DateTime::<Utc>::from_timestamp`, which returns `None`
/// exactly on an out-of-range number of seconds, and `DateTime::to_rfc3339`,
/// whose text depends on the instant alone.
#[verifier::external_body]
fn rfc3339_text(secs: u64) -> (r: Option<String>)
    ensures
        opt_view(r) == rfc3339_of(secs),
{
    let signed = i64::try_from(secs).ok()?;
    let instant = chrono::DateTime::<chrono::Utc>::from_timestamp(signed, 0)?;
    Some(instant.to_rfc3339())
}

/// What the write-to-read projection yields on one record.
pub open spec fn spec_projection(r: RecordModel) -> ReturnJsonModel {
    ReturnJsonModel {
        id: r.id,
        image: r.image,
        ipfs_image_url: r.ipfs_image_url,
        category: r.category,
        created: match r.time_created {
            Some(t) => rfc3339_of(t as u64),
            None => None,
        },
        updated_date: match r.updated_date {
            Some(t) => rfc3339_of(t as u64),
            None => None,
        },
    }
}

pub(crate) fn clone_opt_text(o: &Option<String>) -> (r: Option<String>)
    ensures
        r == *o,
{
    match o {
        Some(s) => Some(s.clone()),
        None => None,
    }
}

/// The read projection of one record.
pub fn project_record(r: &StoredRecord) -> (p: ReturnJson)
    ensures
        p@ == spec_projection(r@),
{
    ReturnJson {
        id: r.id,
        image: r.image.clone(),
        ipfs_image_url: r.ipfs_image_url.clone(),
        category: clone_opt_text(&r.category),
        created: match r.time_created {
            Some(t) => rfc3339_text(t),
            None => None,
        },
        updated_date: match r.updated_date {
            Some(t) => rfc3339_text(t),
            None => None,
        },
    }
}

impl StoredRecord {
    /// A field-for-field copy.
    pub fn duplicate(&self) -> (r: StoredRecord)
        ensures
            r@ == self@,
    {
        StoredRecord {
            id: self.id,
            image: self.image.clone(),
            ipfs_image_url: self.ipfs_image_url.clone(),
            category: clone_opt_text(&self.category),
            width: self.width,
            height: self.height,
            prompt: clone_opt_text(&self.prompt),
            hash_id: self.hash_id.clone(),
            time_created: self.time_created,
            updated_date: self.updated_date,
        }
    }
}

/// The mathematical state of the record store: the rows in insertion order,
/// the next id the store will assign, and its logical clock.
#[verifier::ext_equal]
pub ghost struct StoreModel {
    pub records: Seq<RecordModel>,
    pub next_id: int,
    pub clock: int,
}

impl StoreModel {
    /// A row the store could have produced in state `self`: its id was
    /// assigned below `next_id`, its dimensions are non-negative, and both of
    /// its timestamps were stamped from the clock, created no later than
    /// updated.
    pub open spec fn record_wf(self, r: RecordModel) -> bool {
        &&& 1 <= r.id < self.next_id
        &&& 0 <= r.width
        &&& 0 <= r.height
        &&& r.time_created matches Some(created) && r.updated_date matches Some(updated)
            && 1 <= created <= updated <= self.clock
    }

    /// Well-formedness of the whole store: bounded counters, well-formed rows,
    /// and pairwise-distinct ids.
    pub open spec fn wf(self) -> bool {
        &&& 1 <= self.next_id <= i32::MAX as int + 1
        &&& 0 <= self.clock <= u64::MAX as int
        &&& forall|i: int| 0 <= i < self.records.len() ==> self.record_wf(#[trigger] self.records[i])
        &&& forall|i: int, j: int|
            0 <= i < j < self.records.len() ==> #[trigger] self.records[i].id
                != #[trigger] self.records[j].id
    }
}

/// Whether some row carries `id`.
pub open spec fn has_id(records: Seq<RecordModel>, id: int) -> bool {
    exists|i: int| 0 <= i < records.len() && (#[trigger] records[i]).id == id
}

/// The index of the first row carrying `id` (the length where none does).
pub open spec fn id_index(records: Seq<RecordModel>, id: int) -> int
    decreases records.len(),
{
    if records.len() == 0 {
        0
    } else if records[0].id == id {
        0
    } else {
        1 + id_index(records.drop_first(), id)
    }
}

pub proof fn lemma_id_index_skip(records: Seq<RecordModel>, id: int, i: int)
    requires
        0 <= i <= records.len(),
        forall|j: int| 0 <= j < i ==> (#[trigger] records[j]).id != id,
    ensures
        id_index(records, id) == i + id_index(records.skip(i), id),
    decreases i,
{
    if i > 0 {
        lemma_id_index_skip(records.drop_first(), id, i - 1);
        assert(records.drop_first().skip(i - 1) =~= records.skip(i));
    } else {
        assert(records.skip(0) =~= records);
    }
}

/// Where `id` occurs, `id_index` lands on a row that carries it.
pub proof fn lemma_id_index_finds(records: Seq<RecordModel>, id: int)
    requires
        has_id(records, id),
    ensures
        0 <= id_index(records, id) < records.len(),
        records[id_index(records, id)].id == id,
    decreases records.len(),
{
    if records[0].id != id {
        let w = choose|i: int| 0 <= i < records.len() && (#[trigger] records[i]).id == id;
        assert(records.drop_first()[w - 1] == records[w]);
        lemma_id_index_finds(records.drop_first(), id);
    }
}

/// The arguments of one create call, in mathematical shape.
#[verifier::ext_equal]
pub ghost struct CreateArgs {
    pub image: Seq<char>,
    pub ipfs_image_url: Seq<char>,
    pub category: Option<Seq<char>>,
    pub width: int,
    pub height: int,
    pub prompt: Option<Seq<char>>,
    pub hash_id: Seq<char>,
}

/// Whether a create in state `s` commits: the dimensions satisfy the schema
/// constraint and neither the id sequence nor the clock is exhausted.
pub open spec fn create_allowed(s: StoreModel, a: CreateArgs) -> bool {
    &&& 0 <= a.width
    &&& 0 <= a.height
    &&& s.next_id <= i32::MAX as int
    &&& s.clock < u64::MAX as int
}

/// The row a create in state `s` inserts: the next id, the caller's fields,
/// and both timestamps set to the same fresh clock value.
pub open spec fn new_record(s: StoreModel, a: CreateArgs) -> RecordModel {
    RecordModel {
        id: s.next_id,
        image: a.image,
        ipfs_image_url: a.ipfs_image_url,
        category: a.category,
        width: a.width,
        height: a.height,
        prompt: a.prompt,
        hash_id: a.hash_id,
        time_created: Some(s.clock + 1),
        updated_date: Some(s.clock + 1),
    }
}

/// The store state after a committed create.
pub open spec fn create_next(s: StoreModel, a: CreateArgs) -> StoreModel {
    StoreModel {
        records: s.records.push(new_record(s, a)),
        next_id: s.next_id + 1,
        clock: s.clock + 1,
    }
}

/// The full contract of one create call: success exactly when the create is
/// allowed; on success the state advances by `create_next` and the returned
/// row echoes the assigned id and the inserted fields; on failure the state is
/// unchanged and the error is `Persistence`.
pub open spec fn create_post(
    pre: StoreModel,
    post: StoreModel,
    r: Result<(i32, String, String, Option<String>, String), Error>,
    a: CreateArgs,
) -> bool {
    &&& (r is Ok <==> create_allowed(pre, a))
    &&& (r matches Ok(c) ==> {
        &&& post == create_next(pre, a)
        &&& c.0 as int == pre.next_id
        &&& c.1@ == a.image
        &&& c.2@ == a.ipfs_image_url
        &&& opt_view(c.3) == a.category
        &&& c.4@ == a.hash_id
    })
    &&& (r is Err ==> post == pre)
    &&& (r matches Err(e) ==> e == Error::Persistence)
}

/// A committed create keeps the store well-formed: the fresh row's id is
/// `next_id`, above every existing id, and its timestamps sit at the fresh
/// clock value.
pub proof fn lemma_create_next_wf(s: StoreModel, a: CreateArgs)
    requires
        s.wf(),
        create_allowed(s, a),
    ensures
        create_next(s, a).wf(),
{
    let post = create_next(s, a);
    assert forall|i: int| 0 <= i < post.records.len() implies post.record_wf(
        #[trigger] post.records[i],
    ) by {
        if i < s.records.len() {
            assert(s.record_wf(s.records[i]));
        }
    }
}

/// The arguments of one coalescing update, in mathematical shape.
#[verifier::ext_equal]
pub ghost struct UpdateArgs {
    pub image: Option<Seq<char>>,
    pub ipfs_image_url: Option<Seq<char>>,
    pub category: Option<Seq<char>>,
}

/// Field-level coalesce: a present value overwrites, an absent one keeps the
/// current value.
pub open spec fn coalesce(new: Option<Seq<char>>, cur: Seq<char>) -> Seq<char> {
    match new {
        Some(s) => s,
        None => cur,
    }
}

/// Coalesce for a column that is itself optional: a present value overwrites,
/// an absent one keeps the current value (which may stay absent).
pub open spec fn coalesce_opt(new: Option<Seq<char>>, cur: Option<Seq<char>>) -> Option<Seq<char>> {
    match new {
        Some(s) => Some(s),
        None => cur,
    }
}

/// The row an update turns `r` into: coalesced text columns, untouched
/// dimensions, prompt, hash and creation time, and a refreshed update time.
pub open spec fn updated_record(r: RecordModel, a: UpdateArgs, now: int) -> RecordModel {
    RecordModel {
        id: r.id,
        image: coalesce(a.image, r.image),
        ipfs_image_url: coalesce(a.ipfs_image_url, r.ipfs_image_url),
        category: coalesce_opt(a.category, r.category),
        width: r.width,
        height: r.height,
        prompt: r.prompt,
        hash_id: r.hash_id,
        time_created: r.time_created,
        updated_date: Some(now),
    }
}

/// Whether an update of `id` in state `s` commits: the row exists and the
/// clock is not exhausted.
pub open spec fn update_allowed(s: StoreModel, id: int) -> bool {
    has_id(s.records, id) && s.clock < u64::MAX as int
}

/// The store state after a committed update.
pub open spec fn update_next(s: StoreModel, id: int, a: UpdateArgs) -> StoreModel {
    let i = id_index(s.records, id);
    StoreModel {
        records: s.records.update(i, updated_record(s.records[i], a, s.clock + 1)),
        next_id: s.next_id,
        clock: s.clock + 1,
    }
}

/// The full contract of one update call: success exactly when the row exists
/// and the clock can advance; on success the state advances by `update_next`
/// and the projection of the refreshed row is returned; a missing row fails
/// with `NotFound`, an exhausted clock with `Persistence`, and failure leaves
/// the state unchanged.
pub open spec fn update_post(
    pre: StoreModel,
    post: StoreModel,
    r: Result<ReturnJson, Error>,
    id: int,
    a: UpdateArgs,
) -> bool {
    &&& (r is Ok <==> update_allowed(pre, id))
    &&& (r matches Ok(p) ==> {
        &&& post == update_next(pre, id, a)
        &&& p@ == spec_projection(
            updated_record(pre.records[id_index(pre.records, id)], a, pre.clock + 1),
        )
    })
    &&& (r is Err ==> post == pre)
    &&& (r matches Err(e) ==> (e == Error::NotFound <==> !has_id(pre.records, id)) && (e
        == Error::NotFound || e == Error::Persistence))
}

/// A committed update keeps the store well-formed: it touches one row, keeps
/// every id in place, and moves only that row's `updated_date`, to the fresh
/// clock value.
pub proof fn lemma_update_next_wf(s: StoreModel, id: int, a: UpdateArgs)
    requires
        s.wf(),
        update_allowed(s, id),
    ensures
        update_next(s, id, a).wf(),
{
    lemma_id_index_finds(s.records, id);
    let post = update_next(s, id, a);
    assert forall|i: int| 0 <= i < post.records.len() implies post.record_wf(
        #[trigger] post.records[i],
    ) by {
        assert(s.record_wf(s.records[i]));
    }
    assert forall|i: int, j: int| 0 <= i < j < post.records.len() implies #[trigger] post.records[i].id
        != #[trigger] post.records[j].id by {
        assert(post.records[i].id == s.records[i].id);
        assert(post.records[j].id == s.records[j].id);
    }
}

/// The store state after a delete: the first (and only) row carrying `id` is
/// removed; deleting an absent id changes nothing.
pub open spec fn delete_next(s: StoreModel, id: int) -> StoreModel {
    if has_id(s.records, id) {
        StoreModel {
            records: s.records.remove(id_index(s.records, id)),
            next_id: s.next_id,
            clock: s.clock,
        }
    } else {
        s
    }
}

/// How many rows a delete of `id` affects: one where the row exists, zero
/// where it is already absent. Zero is an answer, not an error.
pub open spec fn delete_rows(s: StoreModel, id: int) -> int {
    if has_id(s.records, id) {
        1
    } else {
        0
    }
}

/// A delete keeps the store well-formed, and because ids are pairwise
/// distinct, removing the one row that carried `id` leaves no row with it.
pub proof fn lemma_delete_next_wf(s: StoreModel, id: int)
    requires
        s.wf(),
    ensures
        delete_next(s, id).wf(),
        !has_id(delete_next(s, id).records, id),
{
    let post = delete_next(s, id);
    if has_id(s.records, id) {
        lemma_id_index_finds(s.records, id);
        let idx = id_index(s.records, id);
        assert forall|i: int| 0 <= i < post.records.len() implies post.record_wf(
            #[trigger] post.records[i],
        ) by {
            if i < idx {
                assert(s.record_wf(s.records[i]));
            } else {
                assert(s.record_wf(s.records[i + 1]));
            }
        }
        assert forall|i: int, j: int|
            0 <= i < j < post.records.len() implies #[trigger] post.records[i].id
            != #[trigger] post.records[j].id by {
            let oi: int = if i < idx {
                i
            } else {
                i + 1
            };
            let oj: int = if j < idx {
                j
            } else {
                j + 1
            };
            assert(post.records[i] == s.records[oi]);
            assert(post.records[j] == s.records[oj]);
        }
        assert forall|i: int| 0 <= i < post.records.len() implies (#[trigger] post.records[i]).id
            != id by {
            let oi: int = if i < idx {
                i
            } else {
                i + 1
            };
            assert(post.records[i] == s.records[oi]);
            if oi < idx {
                assert(s.records[oi].id != s.records[idx].id);
            } else {
                assert(s.records[idx].id != s.records[oi].id);
            }
        }
    }
}

/// The record store: rows in insertion order, the next id to assign, and a
/// logical clock from which both timestamps are stamped. Creation and update
/// each combine their write with reading back the server-assigned values, as
/// one atomic step.
#[derive(Debug)]
pub struct RecordStore {
    records: Vec<StoredRecord>,
    next_id: i64,
    clock: u64,
}

impl View for RecordStore {
    type V = StoreModel;

    closed spec fn view(&self) -> StoreModel {
        StoreModel {
            records: self.records@.map_values(|r: StoredRecord| r@),
            next_id: self.next_id as int,
            clock: self.clock as int,
        }
    }
}

impl RecordStore {
    /// An empty store: no rows, ids starting at 1, clock at 0.
    pub fn new() -> (s: RecordStore)
        ensures
            s@.wf(),
            s@.records.len() == 0,
            s@.next_id == 1,
            s@.clock == 0,
    {
        RecordStore { records: Vec::new(), next_id: 1, clock: 0 }
    }

    /// The index of the row carrying `id`, where one does.
    #[verifier::loop_isolation(false)]
    fn find_index(&self, id: i32) -> (r: Option<usize>)
        ensures
            match r {
                Some(i) => has_id(self@.records, id as int) && i as int == id_index(
                    self@.records,
                    id as int,
                ) && i < self@.records.len(),
                None => !has_id(self@.records, id as int),
            },
    {
        let n = self.records.len();
        let mut i: usize = 0;
        while i < n
            invariant
                0 <= i <= n,
                forall|j: int| 0 <= j < i ==> (#[trigger] self@.records[j]).id != id as int,
            decreases n - i,
        {
            if self.records[i].id == id {
                proof {
                    lemma_id_index_skip(self@.records, id as int, i as int);
                }
                return Some(i);
            }
            i += 1;
        }
        None
    }

    /// Inserts one row inside one transaction and echoes the assigned id and
    /// the stored fields back, or fails with `Persistence` where the schema
    /// constraint or a counter refuses the insert.
    pub fn create_row(
        &mut self,
        image: String,
        ipfs_image_url: String,
        category: Option<String>,
        width: i32,
        height: i32,
        prompt: Option<String>,
        hash_id: String,
    ) -> (r: Result<(i32, String, String, Option<String>, String), Error>)
        requires
            old(self)@.wf(),
        ensures
            final(self)@.wf(),
            create_post(
                old(self)@,
                final(self)@,
                r,
                (CreateArgs {
                    image: image@,
                    ipfs_image_url: ipfs_image_url@,
                    category: opt_view(category),
                    width: width as int,
                    height: height as int,
                    prompt: opt_view(prompt),
                    hash_id: hash_id@,
                }),
            ),
    {
        let ghost a = CreateArgs {
            image: image@,
            ipfs_image_url: ipfs_image_url@,
            category: opt_view(category),
            width: width as int,
            height: height as int,
            prompt: opt_view(prompt),
            hash_id: hash_id@,
        };
        if !(width >= 0 && height >= 0 && self.next_id <= i32::MAX as i64 && self.clock
            < u64::MAX) {
            return Err(Error::Persistence);
        }
        let id = self.next_id as i32;
        let stamp = self.clock + 1;
        let rec = StoredRecord {
            id,
            image: image.clone(),
            ipfs_image_url: ipfs_image_url.clone(),
            category: clone_opt_text(&category),
            width,
            height,
            prompt,
            hash_id: hash_id.clone(),
            time_created: Some(stamp),
            updated_date: Some(stamp),
        };
        self.records.push(rec);
        self.next_id = self.next_id + 1;
        self.clock = stamp;
        proof {
            assert(self@.records =~= create_next(old(self)@, a).records);
            assert(self@ =~= create_next(old(self)@, a));
            lemma_create_next_wf(old(self)@, a);
        }
        Ok((id, image, ipfs_image_url, category, hash_id))
    }

    /// All rows, in insertion order, in the full write-side schema.
    #[verifier::loop_isolation(false)]
    pub fn read_all(&self) -> (r: Vec<StoredRecord>)
        requires
            self@.wf(),
        ensures
            r@.len() == self@.records.len(),
            forall|i: int| 0 <= i < r@.len() ==> (#[trigger] r@[i])@ == self@.records[i],
    {
        let n = self.records.len();
        let mut out: Vec<StoredRecord> = Vec::new();
        let mut i: usize = 0;
        while i < n
            invariant
                0 <= i <= n,
                out@.len() == i,
                forall|j: int| 0 <= j < i ==> (#[trigger] out@[j])@ == self@.records[j],
            decreases n - i,
        {
            out.push(self.records[i].duplicate());
            i += 1;
        }
        out
    }

    /// All rows, in insertion order, mapped through the write-to-read
    /// projection.
    #[verifier::loop_isolation(false)]
    pub fn read_all_projected(&self) -> (r: Vec<ReturnJson>)
        requires
            self@.wf(),
        ensures
            r@.len() == self@.records.len(),
            forall|i: int|
                0 <= i < r@.len() ==> (#[trigger] r@[i])@ == spec_projection(self@.records[i]),
    {
        let n = self.records.len();
        let mut out: Vec<ReturnJson> = Vec::new();
        let mut i: usize = 0;
        while i < n
            invariant
                0 <= i <= n,
                out@.len() == i,
                forall|j: int| 0 <= j < i ==> (#[trigger] out@[j])@ == spec_projection(
                    self@.records[j],
                ),
            decreases n - i,
        {
            out.push(project_record(&self.records[i]));
            i += 1;
        }
        out
    }

    /// Coalescing update of one row: each present field overwrites its column,
    /// each absent field leaves the column untouched, and `updated_date` is
    /// always refreshed. Fails with `NotFound` where no row carries `id` —
    /// zero rows back from the write is the signal, never a silent no-op.
    pub fn update(
        &mut self,
        id: i32,
        image: Option<String>,
        ipfs_image_url: Option<String>,
        category: Option<String>,
    ) -> (r: Result<ReturnJson, Error>)
        requires
            old(self)@.wf(),
        ensures
            final(self)@.wf(),
            update_post(
                old(self)@,
                final(self)@,
                r,
                id as int,
                (UpdateArgs {
                    image: opt_view(image),
                    ipfs_image_url: opt_view(ipfs_image_url),
                    category: opt_view(category),
                }),
            ),
    {
        let ghost a = UpdateArgs {
            image: opt_view(image),
            ipfs_image_url: opt_view(ipfs_image_url),
            category: opt_view(category),
        };
        let idx = match self.find_index(id) {
            Some(i) => i,
            None => {
                return Err(Error::NotFound);
            },
        };
        if self.clock == u64::MAX {
            return Err(Error::Persistence);
        }
        proof {
            lemma_id_index_finds(old(self)@.records, id as int);
        }
        let stamp = self.clock + 1;
        let old_rec = self.records.remove(idx);
        let new_rec = StoredRecord {
            id: old_rec.id,
            image: match image {
                Some(s) => s,
                None => old_rec.image,
            },
            ipfs_image_url: match ipfs_image_url {
                Some(s) => s,
                None => old_rec.ipfs_image_url,
            },
            category: match category {
                Some(s) => Some(s),
                None => old_rec.category,
            },
            width: old_rec.width,
            height: old_rec.height,
            prompt: old_rec.prompt,
            hash_id: old_rec.hash_id,
            time_created: old_rec.time_created,
            updated_date: Some(stamp),
        };
        let ret = project_record(&new_rec);
        self.records.insert(idx, new_rec);
        self.clock = stamp;
        proof {
            assert(self@.records =~= update_next(old(self)@, id as int, a).records);
            assert(self@ =~= update_next(old(self)@, id as int, a));
            lemma_update_next_wf(old(self)@, id as int, a);
        }
        Ok(ret)
    }

    /// Deletes the row carrying `id` inside one transaction and reports how
    /// many rows were affected. A zero count means the row was already absent;
    /// that is an answer, not an error.
    pub fn delete_by_id(&mut self, id: i32) -> (rows: i32)
        requires
            old(self)@.wf(),
        ensures
            final(self)@.wf(),
            final(self)@ == delete_next(old(self)@, id as int),
            rows as int == delete_rows(old(self)@, id as int),
    {
        let idx = match self.find_index(id) {
            Some(i) => i,
            None => {
                return 0;
            },
        };
        proof {
            lemma_id_index_finds(old(self)@.records, id as int);
        }
        let _removed = self.records.remove(idx);
        proof {
            assert(self@.records =~= delete_next(old(self)@, id as int).records);
            assert(self@ =~= delete_next(old(self)@, id as int));
            lemma_delete_next_wf(old(self)@, id as int);
        }
        1
    }
}

} // verus!
