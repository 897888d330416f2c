use vstd::prelude::*;
use vstd::string::StringSliceAdditionalSpecFns;

use crate::error::Error;
use crate::extract::{extract_item, spec_extract};
use crate::json::{spec_get2, JsonValue};
use crate::store::{
    clone_opt_text, create_allowed, create_next, opt_view, CreateArgs, RecordStore, StoreModel,
};

verus! {

/// The placeholder mirror location a freshly ingested row carries until the
/// artwork is actually mirrored.
pub const NOT_MIRRORED: &'static str = "NO_IPFS";

/// The body of one upstream search call. The service always asks for the
/// community feed, ordered by popularity, sixty items a page.
pub struct SearchRequest {
    pub keyword: String,
    pub order_by: String,
    pub page: u16,
    pub page_size: u16,
    pub tags: Vec<String>,
    pub search_type: String,
}

/// `'+'` separators of a query string become spaces; every other character
/// stays.
pub open spec fn space_for_plus(c: char) -> char {
    if c == '+' {
        ' '
    } else {
        c
    }
}

/// Relies on `str::replace`: with a one-character pattern and a one-character
/// replacement, the result replaces each occurrence in place, so it maps the
/// characters of the input one for one.
#[verifier::external_body]
fn replace_plus(s: &str) -> (r: String)
    ensures
        r@ == s@.map_values(|c: char| space_for_plus(c)),
{
    s.replace('+', " ")
}

/// The search request for one keyword query: `'+'` separators become spaces,
/// the page is the caller's, and the remaining fields are the service's fixed
/// choices.
pub fn build_search_request(query_search: &str, page: u16, tags: Vec<String>) -> (r: SearchRequest)
    ensures
        r.keyword@ == query_search@.map_values(|c: char| space_for_plus(c)),
        r.order_by@ == "hot"@,
        r.page == page,
        r.page_size == 60,
        r.tags == tags,
        r.search_type@ == "community"@,
{
    SearchRequest {
        keyword: replace_plus(query_search),
        order_by: "hot".to_owned(),
        page,
        page_size: 60,
        tags,
        search_type: "community".to_owned(),
    }
}

/// What one page of batch ingestion tallies: rows inserted and items whose
/// insert failed. The two always add up to the number of items on the page.
#[derive(Debug, PartialEq, Eq, Structural)]
pub struct IngestSummary {
    pub inserted: usize,
    pub failed: usize,
}

/// The mathematical outcome of a batch: the store afterwards and the tallies.
#[verifier::ext_equal]
pub ghost struct IngestModel {
    pub store: StoreModel,
    pub inserted: int,
    pub failed: int,
}

/// The create call one item turns into: the extracted metadata, the
/// not-yet-mirrored placeholder, and the batch-level category (never one
/// taken from the item).
pub open spec fn item_create_args(item: JsonValue, category: Option<Seq<char>>) -> CreateArgs {
    let e = spec_extract(item);
    CreateArgs {
        image: e.image,
        ipfs_image_url: NOT_MIRRORED@,
        category,
        width: e.width,
        height: e.height,
        prompt: Some(e.prompt),
        hash_id: e.hash_id,
    }
}

/// The outcome of ingesting `items` in order into store `s`: each item whose
/// create commits advances the store and the inserted tally, each item whose
/// create fails leaves the store as it was and advances the failed tally —
/// one item's failure never aborts the remaining items.
pub open spec fn ingest_fold(
    s: StoreModel,
    items: Seq<JsonValue>,
    category: Option<Seq<char>>,
) -> IngestModel
    decreases items.len(),
{
    if items.len() == 0 {
        IngestModel { store: s, inserted: 0, failed: 0 }
    } else {
        let prev = ingest_fold(s, items.drop_last(), category);
        let a = item_create_args(items.last(), category);
        if create_allowed(prev.store, a) {
            IngestModel {
                store: create_next(prev.store, a),
                inserted: prev.inserted + 1,
                failed: prev.failed,
            }
        } else {
            IngestModel { store: prev.store, inserted: prev.inserted, failed: prev.failed + 1 }
        }
    }
}

/// Ingests one page of already-decoded search-result items: extracts each
/// item's metadata (which never fails) and executes one create per item,
/// tallying successes and failures independently.
#[verifier::loop_isolation(false)]
pub fn ingest_items(
    items: &Vec<JsonValue>,
    category: &Option<String>,
    store: &mut RecordStore,
) -> (sum: IngestSummary)
    requires
        old(store)@.wf(),
    ensures
        final(store)@.wf(),
        ({
            let m = ingest_fold(old(store)@, items@, opt_view(*category));
            final(store)@ == m.store && sum.inserted as int == m.inserted && sum.failed as int
                == m.failed
        }),
        sum.inserted + sum.failed == items@.len(),
{
    let n = items.len();
    let mut inserted: usize = 0;
    let mut failed: usize = 0;
    let mut i: usize = 0;
    while i < n
        invariant
            0 <= i <= n,
            inserted + failed == i,
            store@.wf(),
            ({
                let m = ingest_fold(old(store)@, items@.subrange(0, i as int), opt_view(*category));
                store@ == m.store && inserted as int == m.inserted && failed as int == m.failed
            }),
        decreases n - i,
    {
        let e = extract_item(&items[i]);
        let res = store.create_row(
            e.image,
            NOT_MIRRORED.to_owned(),
            clone_opt_text(category),
            e.width,
            e.height,
            Some(e.prompt),
            e.hash_id,
        );
        match res {
            Ok(_) => {
                inserted = inserted + 1;
            },
            Err(_) => {
                failed = failed + 1;
            },
        }
        i = i + 1;
        proof {
            assert(items@.subrange(0, i as int).drop_last() =~= items@.subrange(0, i - 1));
            assert(items@.subrange(0, i as int).last() == items@[i - 1]);
        }
    }
    proof {
        assert(items@.subrange(0, n as int) =~= items@);
    }
    IngestSummary { inserted, failed }
}

/// Whether a raw search response has the expected envelope: an array under
/// `data.items`.
pub open spec fn has_items(resp: JsonValue) -> bool {
    spec_get2(resp, "data"@, "items"@) matches Some(v) && v is Array
}

/// The items under `data.items`, where the envelope has them.
pub open spec fn items_of(resp: JsonValue) -> Seq<JsonValue> {
    match spec_get2(resp, "data"@, "items"@) {
        Some(JsonValue::Array(elems)) => elems@,
        _ => Seq::empty(),
    }
}

/// Ingests one raw search response. A response whose `data.items` path is
/// missing or not an array aborts the whole batch with `Extraction` and
/// performs no insert at all; otherwise every item is processed independently
/// and only the aggregate tallies come back.
pub fn ingest_response(
    resp: &JsonValue,
    category: &Option<String>,
    store: &mut RecordStore,
) -> (r: Result<IngestSummary, Error>)
    requires
        old(store)@.wf(),
    ensures
        final(store)@.wf(),
        r is Ok <==> has_items(*resp),
        r matches Ok(sum) ==> ({
            let m = ingest_fold(old(store)@, items_of(*resp), opt_view(*category));
            &&& final(store)@ == m.store
            &&& sum.inserted as int == m.inserted
            &&& sum.failed as int == m.failed
            &&& sum.inserted + sum.failed == items_of(*resp).len()
        }),
        r is Err ==> final(store)@ == old(store)@,
        r matches Err(e) ==> e == Error::Extraction,
{
    let items = match resp.get2("data", "items") {
        Some(v) => match v.as_array() {
            Some(elems) => elems,
            None => {
                return Err(Error::Extraction);
            },
        },
        None => {
            return Err(Error::Extraction);
        },
    };
    Ok(ingest_items(items, category, store))
}

/// Digit bytes read as a decimal number.
pub open spec fn digits_value(bytes: Seq<u8>) -> int
    decreases bytes.len(),
{
    if bytes.len() == 0 {
        0
    } else {
        digits_value(bytes.drop_last()) * 10 + (bytes.last() - 0x30)
    }
}

/// Whether every byte is an ASCII digit.
pub open spec fn all_digits(bytes: Seq<u8>) -> bool {
    forall|i: int| 0 <= i < bytes.len() ==> 0x30 <= #[trigger] bytes[i] <= 0x39
}

/// The page a query-string value selects: its decimal value where the text is
/// a number that fits a `u16` (an optional leading `'+'` allowed), and the
/// first page otherwise.
pub open spec fn spec_parse_page(bytes: Seq<u8>) -> int {
    let digits = if bytes.len() >= 1 && bytes[0] == 0x2b {
        bytes.drop_first()
    } else {
        bytes
    };
    if digits.len() > 0 && all_digits(digits) && digits_value(digits) <= u16::MAX {
        digits_value(digits)
    } else {
        1
    }
}

proof fn lemma_digits_value_nonneg(bytes: Seq<u8>)
    requires
        all_digits(bytes),
    ensures
        digits_value(bytes) >= 0,
    decreases bytes.len(),
{
    if bytes.len() > 0 {
        lemma_digits_value_nonneg(bytes.drop_last());
    }
}

proof fn lemma_digits_value_prefix(bytes: Seq<u8>, k: int)
    requires
        0 <= k <= bytes.len(),
        all_digits(bytes),
    ensures
        digits_value(bytes.subrange(0, k)) <= digits_value(bytes),
    decreases bytes.len() - k,
{
    if k == bytes.len() {
        assert(bytes.subrange(0, k) =~= bytes);
    } else {
        lemma_digits_value_prefix(bytes, k + 1);
        assert(bytes.subrange(0, k + 1).drop_last() =~= bytes.subrange(0, k));
        lemma_digits_value_nonneg(bytes.subrange(0, k));
    }
}

/// The page number in a query-string value, with the first page as the
/// fallback for anything that does not parse as a `u16`.
#[verifier::loop_isolation(false)]
pub fn parse_page(text: &str) -> (page: u16)
    ensures
        page as int == spec_parse_page(text.spec_bytes()),
{
    let bytes = text.as_bytes();
    let n = bytes.len();
    let start: usize = if n >= 1 && bytes[0] == 0x2b {
        1
    } else {
        0
    };
    let ghost digits = if text.spec_bytes().len() >= 1 && text.spec_bytes()[0] == 0x2b {
        text.spec_bytes().drop_first()
    } else {
        text.spec_bytes()
    };
    proof {
        assert(digits =~= text.spec_bytes().skip(start as int));
    }
    if start >= n {
        return 1;
    }
    let mut acc: u32 = 0;
    let mut i: usize = start;
    while i < n
        invariant
            start <= i <= n,
            n == text.spec_bytes().len(),
            start == 1 ==> n >= 1,
            digits == text.spec_bytes().skip(start as int),
            acc <= 0xFFFF,
            all_digits(digits.subrange(0, i - start)),
            acc as int == digits_value(digits.subrange(0, i - start)),
        decreases n - i,
    {
        let b: u8 = bytes[i];
        if b < 0x30 || b > 0x39 {
            assert(digits[i - start] == b);
            return 1;
        }
        acc = acc * 10 + (b - 0x30) as u32;
        i = i + 1;
        proof {
            assert(digits.subrange(0, i - start).drop_last() =~= digits.subrange(0, i - 1 - start));
            assert(digits.subrange(0, i - start).last() == digits[i - 1 - start]);
        }
        if acc > 0xFFFF {
            proof {
                if all_digits(digits) {
                    lemma_digits_value_prefix(digits, i - start);
                }
            }
            return 1;
        }
    }
    proof {
        assert(digits.subrange(0, n - start) =~= digits);
    }
    acc as u16
}

} // verus!
