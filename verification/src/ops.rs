use vstd::prelude::*;

use crate::error::Error;
use crate::store::{
    clone_opt_text, create_allowed, create_next, delete_next, delete_rows, has_id, id_index, opt_view,
    spec_projection, update_allowed, update_next, updated_record, CreateArgs, RecordStore,
    ReturnJson, StoreModel, StoredRecord, UpdateArgs,
};

verus! {

/// One call of the operation layer: the closed set of variants the service
/// dispatches on. `Read` returns rows in the full write-side schema; `Fetch`
/// returns them through the read projection.
pub enum Operation {
    Create {
        image: String,
        ipfs_image_url: String,
        category: Option<String>,
        width: i32,
        height: i32,
        prompt: Option<String>,
        hash_id: String,
    },
    Read,
    Fetch,
    Update(i32, Option<String>, Option<String>, Option<String>),
    Delete(i32),
}

/// The two shapes a row listing can take: projected rows or full-schema rows.
#[derive(Debug)]
pub enum ArrStructData {
    ReturnJsonEnum(Vec<ReturnJson>),
    SchemaEnum(Vec<StoredRecord>),
}

/// What one dispatched operation hands back, one variant per operation kind.
#[derive(Debug)]
pub enum OperationResult {
    DataStruct(i32, String, String, Option<String>, String),
    UpdateStruct(ReturnJson),
    ArrStruct(ArrStructData),
    Deleted(i32),
    Error,
}

/// The full contract of one dispatch: each variant delegates to exactly one
/// store primitive and reshapes its result, and every store error propagates
/// unchanged — the dispatcher never swallows one into a default success.
pub open spec fn execute_post(
    op: Operation,
    pre: StoreModel,
    post: StoreModel,
    r: Result<OperationResult, Error>,
) -> bool {
    match op {
        Operation::Create { image, ipfs_image_url, category, width, height, prompt, hash_id } => {
            let a = CreateArgs {
                image: image@,
                ipfs_image_url: ipfs_image_url@,
                category: opt_view(category),
                width: width as int,
                height: height as int,
                prompt: opt_view(prompt),
                hash_id: hash_id@,
            };
            &&& (r is Ok <==> create_allowed(pre, a))
            &&& (r matches Ok(res) ==> res matches OperationResult::DataStruct(
                id,
                im,
                ip,
                cat,
                hid,
            ) && {
                &&& post == create_next(pre, a)
                &&& id as int == pre.next_id
                &&& im@ == a.image
                &&& ip@ == a.ipfs_image_url
                &&& opt_view(cat) == a.category
                &&& hid@ == a.hash_id
            })
            &&& (r is Err ==> post == pre)
            &&& (r matches Err(e) ==> e == Error::Persistence)
        },
        Operation::Read => {
            &&& post == pre
            &&& r matches Ok(res) && res matches OperationResult::ArrStruct(
                ArrStructData::SchemaEnum(rows),
            ) && rows@.len() == pre.records.len() && (forall|i: int|
                0 <= i < rows@.len() ==> (#[trigger] rows@[i])@ == pre.records[i])
        },
        Operation::Fetch => {
            &&& post == pre
            &&& r matches Ok(res) && res matches OperationResult::ArrStruct(
                ArrStructData::ReturnJsonEnum(rows),
            ) && rows@.len() == pre.records.len() && (forall|i: int|
                0 <= i < rows@.len() ==> (#[trigger] rows@[i])@ == spec_projection(pre.records[i]))
        },
        Operation::Update(id, image, ipfs_image_url, category) => {
            let a = UpdateArgs {
                image: opt_view(image),
                ipfs_image_url: opt_view(ipfs_image_url),
                category: opt_view(category),
            };
            &&& (r is Ok <==> update_allowed(pre, id as int))
            &&& (r matches Ok(res) ==> res matches OperationResult::UpdateStruct(p) && {
                &&& post == update_next(pre, id as int, a)
                &&& p@ == spec_projection(
                    updated_record(pre.records[id_index(pre.records, id as int)], a, pre.clock + 1),
                )
            })
            &&& (r is Err ==> post == pre)
            &&& (r matches Err(e) ==> (e == Error::NotFound <==> !has_id(pre.records, id as int))
                && (e == Error::NotFound || e == Error::Persistence))
        },
        Operation::Delete(id) => {
            &&& post == delete_next(pre, id as int)
            &&& r matches Ok(res) && res matches OperationResult::Deleted(n) && n as int
                == delete_rows(pre, id as int)
        },
    }
}

impl Operation {
    /// Routes one operation to its store primitive and reshapes the result.
    /// All side effects live in the store; any store error propagates
    /// unchanged to the caller.
    pub fn execute(&self, store: &mut RecordStore) -> (r: Result<OperationResult, Error>)
        requires
            old(store)@.wf(),
        ensures
            final(store)@.wf(),
            execute_post(*self, old(store)@, final(store)@, r),
    {
        match self {
            Operation::Create { image, ipfs_image_url, category, width, height, prompt, hash_id } => {
                let inserted = store.create_row(
                    image.clone(),
                    ipfs_image_url.clone(),
                    clone_opt_text(category),
                    *width,
                    *height,
                    clone_opt_text(prompt),
                    hash_id.clone(),
                )?;
                let (id, image, ipfs_image_url, category, hash_id) = inserted;
                Ok(OperationResult::DataStruct(id, image, ipfs_image_url, category, hash_id))
            },
            Operation::Read => {
                let all_data = store.read_all();
                Ok(OperationResult::ArrStruct(ArrStructData::SchemaEnum(all_data)))
            },
            Operation::Fetch => {
                let returned_arr = store.read_all_projected();
                Ok(OperationResult::ArrStruct(ArrStructData::ReturnJsonEnum(returned_arr)))
            },
            Operation::Update(id, image, ipfs_image_url, category) => {
                let updated = store.update(
                    *id,
                    clone_opt_text(image),
                    clone_opt_text(ipfs_image_url),
                    clone_opt_text(category),
                )?;
                Ok(OperationResult::UpdateStruct(updated))
            },
            Operation::Delete(id) => {
                let rows = store.delete_by_id(*id);
                Ok(OperationResult::Deleted(rows))
            },
        }
    }
}

/// The body of a create request, as the routing layer hands it over.
pub struct CreatePayload {
    pub image: String,
    pub ipfs_image_url: String,
    pub category: Option<String>,
    pub width: i32,
    pub height: i32,
    pub prompt: Option<String>,
    pub hash_id: String,
}

impl CreatePayload {
    /// The create operation this payload asks for, field for field.
    pub fn into_operation(self) -> (op: Operation)
        ensures
            op == (Operation::Create {
                image: self.image,
                ipfs_image_url: self.ipfs_image_url,
                category: self.category,
                width: self.width,
                height: self.height,
                prompt: self.prompt,
                hash_id: self.hash_id,
            }),
    {
        Operation::Create {
            image: self.image,
            ipfs_image_url: self.ipfs_image_url,
            category: self.category,
            width: self.width,
            height: self.height,
            prompt: self.prompt,
            hash_id: self.hash_id,
        }
    }
}

/// The body of a coalescing update request: absent fields leave the stored
/// values untouched.
pub struct UpdatePayload {
    pub image: Option<String>,
    pub ipfs_image_url: Option<String>,
    pub category: Option<String>,
}

impl UpdatePayload {
    /// The update operation this payload asks for on row `id`.
    pub fn into_operation(self, id: i32) -> (op: Operation)
        ensures
            op == Operation::Update(id, self.image, self.ipfs_image_url, self.category),
    {
        Operation::Update(id, self.image, self.ipfs_image_url, self.category)
    }
}

/// A contact-form submission, echoed back verbatim by the routing layer.
pub struct FormContact {
    pub name: String,
    pub email: String,
    pub phone: String,
    pub message: String,
}

/// The first projected row carrying `id`, where one does.
#[verifier::loop_isolation(false)]
pub fn find_return_json<'a>(rows: &'a Vec<ReturnJson>, id: i32) -> (r: Option<&'a ReturnJson>)
    ensures
        match r {
            Some(p) => exists|i: int|
                0 <= i < rows@.len() && rows@[i] == *p && (#[trigger] rows@[i])@.id == id as int
                    && (forall|j: int| 0 <= j < i ==> (#[trigger] rows@[j])@.id != id as int),
            None => forall|i: int| 0 <= i < rows@.len() ==> (#[trigger] rows@[i])@.id != id as int,
        },
{
    let n = rows.len();
    let mut i: usize = 0;
    while i < n
        invariant
            0 <= i <= n,
            forall|j: int| 0 <= j < i ==> (#[trigger] rows@[j])@.id != id as int,
        decreases n - i,
    {
        if rows[i].id == id {
            return Some(&rows[i]);
        }
        i += 1;
    }
    None
}

} // verus!
