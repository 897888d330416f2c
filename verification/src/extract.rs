use vstd::prelude::*;

use crate::json::{int_or_zero, spec_get, spec_get2, text_or_empty, JsonValue};

verus! {

/// The metadata the ingestion pipeline reads from one search-result item.
///
/// Every field is optional at the source: a missing or non-text string field
/// degrades to the empty string, and a missing, non-numeric or out-of-range
/// numeric field degrades to `0`. A malformed item therefore never aborts a
/// batch; it only yields placeholder values.
pub struct Extracted {
    pub image: String,
    pub hash_id: String,
    pub prompt: String,
    pub width: i32,
    pub height: i32,
}

/// The mathematical shape of an [`Extracted`] value.
pub ghost struct ExtractedModel {
    pub image: Seq<char>,
    pub hash_id: Seq<char>,
    pub prompt: Seq<char>,
    pub width: int,
    pub height: int,
}

impl View for Extracted {
    type V = ExtractedModel;

    open spec fn view(&self) -> ExtractedModel {
        ExtractedModel {
            image: self.image@,
            hash_id: self.hash_id@,
            prompt: self.prompt@,
            width: self.width as int,
            height: self.height as int,
        }
    }
}

/// What extraction yields on `item`: `banner.url`, `id` and `prompt` as text
/// with the empty string for a missing field, and `banner.width` and
/// `banner.height` as integers with `0` for a missing field.
pub open spec fn spec_extract(item: JsonValue) -> ExtractedModel {
    ExtractedModel {
        image: text_or_empty(spec_get2(item, "banner"@, "url"@)),
        hash_id: text_or_empty(spec_get(item, "id"@)),
        prompt: text_or_empty(spec_get(item, "prompt"@)),
        width: int_or_zero(spec_get2(item, "banner"@, "width"@)),
        height: int_or_zero(spec_get2(item, "banner"@, "height"@)),
    }
}

fn text_of(v: Option<&JsonValue>) -> (r: String)
    ensures
        r@ == text_or_empty(
            match v {
                Some(inner) => Some(*inner),
                None => None,
            },
        ),
{
    match v {
        Some(inner) => match inner.as_text() {
            Some(s) => s.clone(),
            None => String::new(),
        },
        None => String::new(),
    }
}

fn int_of(v: Option<&JsonValue>) -> (r: i32)
    ensures
        r as int == int_or_zero(
            match v {
                Some(inner) => Some(*inner),
                None => None,
            },
        ),
{
    match v {
        Some(inner) => match inner.as_int() {
            Some(i) => if i32::MIN as i64 <= i && i <= i32::MAX as i64 {
                i as i32
            } else {
                0
            },
            None => 0,
        },
        None => 0,
    }
}

/// Pulls `banner.url`, `id`, `prompt`, `banner.width` and `banner.height` out
/// of one opaque search-result item, degrading each missing field to its
/// placeholder. This function never fails.
pub fn extract_item(item: &JsonValue) -> (r: Extracted)
    ensures
        r@ == spec_extract(*item),
{
    Extracted {
        image: text_of(item.get2("banner", "url")),
        hash_id: text_of(item.get("id")),
        prompt: text_of(item.get("prompt")),
        width: int_of(item.get2("banner", "width")),
        height: int_of(item.get2("banner", "height")),
    }
}

} // verus!
