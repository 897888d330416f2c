use ipfs_ingest::error::Error;
use ipfs_ingest::ingest::{build_search_request, ingest_response, parse_page};
use ipfs_ingest::json::JsonValue;
use ipfs_ingest::store::RecordStore;

fn text(t: &str) -> JsonValue {
    JsonValue::Text(t.to_string())
}

fn entry(key: &str, value: JsonValue) -> (String, JsonValue) {
    (key.to_string(), value)
}

fn item(hash_id: &str, url: &str, width: i64, height: i64) -> JsonValue {
    JsonValue::Object(vec![
        entry("id", text(hash_id)),
        entry("prompt", text("p")),
        entry(
            "banner",
            JsonValue::Object(vec![
                entry("url", text(url)),
                entry("width", JsonValue::Int(width)),
                entry("height", JsonValue::Int(height)),
            ]),
        ),
    ])
}

fn response_with(items: Vec<JsonValue>) -> JsonValue {
    JsonValue::Object(vec![entry(
        "data",
        JsonValue::Object(vec![entry("items", JsonValue::Array(items))]),
    )])
}

#[test]
fn ingest_counts_one_constraint_violation_without_aborting() {
    // Five items; the third violates the schema constraint (a negative
    // width), which is fatal to that item alone.
    let resp = response_with(vec![
        item("h1", "u1.png", 10, 10),
        item("h2", "u2.png", 10, 10),
        item("h3", "u3.png", -1, 10),
        item("h4", "u4.png", 10, 10),
        item("h5", "u5.png", 10, 10),
    ]);
    let mut store = RecordStore::new();
    let summary = ingest_response(&resp, &Some("cat".to_string()), &mut store).unwrap();
    assert_eq!(summary.inserted, 4);
    assert_eq!(summary.failed, 1);

    // A fetch afterwards contains exactly the successfully inserted items.
    let hash_ids: Vec<String> = store.read_all().into_iter().map(|r| r.hash_id).collect();
    assert_eq!(hash_ids, vec!["h1", "h2", "h4", "h5"]);
    for row in store.read_all() {
        assert_eq!(row.ipfs_image_url, "NO_IPFS");
        assert_eq!(row.category, Some("cat".to_string()));
    }
}

#[test]
fn ingest_control_case_inserts_every_item() {
    let resp = response_with(vec![
        item("h1", "u1.png", 10, 10),
        item("h2", "u2.png", 10, 10),
        item("h3", "u3.png", 10, 10),
        item("h4", "u4.png", 10, 10),
        item("h5", "u5.png", 10, 10),
    ]);
    let mut store = RecordStore::new();
    let summary = ingest_response(&resp, &None, &mut store).unwrap();
    assert_eq!(summary.inserted, 5);
    assert_eq!(summary.failed, 0);
    assert_eq!(store.read_all().len(), 5);
}

#[test]
fn ingest_without_items_path_fails_whole_batch() {
    let resp = JsonValue::Object(vec![entry("data", JsonValue::Object(vec![]))]);
    let mut store = RecordStore::new();
    let err = ingest_response(&resp, &None, &mut store).unwrap_err();
    assert_eq!(err, Error::Extraction);
    // Zero inserts were performed.
    assert!(store.read_all().is_empty());
}

#[test]
fn ingest_with_non_array_items_fails_whole_batch() {
    let resp = JsonValue::Object(vec![entry(
        "data",
        JsonValue::Object(vec![entry("items", text("not an array"))]),
    )]);
    let mut store = RecordStore::new();
    assert_eq!(ingest_response(&resp, &None, &mut store).unwrap_err(), Error::Extraction);
    assert!(store.read_all().is_empty());
}

#[test]
fn ingest_of_empty_page_counts_nothing() {
    let resp = response_with(vec![]);
    let mut store = RecordStore::new();
    let summary = ingest_response(&resp, &None, &mut store).unwrap();
    assert_eq!(summary.inserted, 0);
    assert_eq!(summary.failed, 0);
}

#[test]
fn malformed_items_degrade_to_placeholders_and_still_insert() {
    // A batch item with nothing usable inside still inserts a row of
    // placeholder values; degradation is not a failure.
    let resp = response_with(vec![JsonValue::Object(vec![])]);
    let mut store = RecordStore::new();
    let summary = ingest_response(&resp, &None, &mut store).unwrap();
    assert_eq!(summary.inserted, 1);
    assert_eq!(summary.failed, 0);
    let rows = store.read_all();
    assert_eq!(rows[0].image, "");
    assert_eq!(rows[0].hash_id, "");
    assert_eq!(rows[0].width, 0);
    assert_eq!(rows[0].prompt, Some(String::new()));
}

#[test]
fn search_request_replaces_plus_with_space() {
    let request = build_search_request(
        "8K+gundam+mecha+artstation+unreal+engine",
        2,
        vec!["tag1".to_string()],
    );
    assert_eq!(request.keyword, "8K gundam mecha artstation unreal engine");
    assert_eq!(request.order_by, "hot");
    assert_eq!(request.page, 2);
    assert_eq!(request.page_size, 60);
    assert_eq!(request.tags, vec!["tag1".to_string()]);
    assert_eq!(request.search_type, "community");
}

#[test]
fn parse_page_takes_digits_and_falls_back_to_one() {
    assert_eq!(parse_page("3"), 3);
    assert_eq!(parse_page("+12"), 12);
    assert_eq!(parse_page("65535"), 65535);
    assert_eq!(parse_page(""), 1);
    assert_eq!(parse_page("abc"), 1);
    assert_eq!(parse_page("12x"), 1);
    assert_eq!(parse_page("65536"), 1);
    assert_eq!(parse_page("999999999999"), 1);
    assert_eq!(parse_page("+"), 1);
    assert_eq!(parse_page("-2"), 1);
}
