use ipfs_ingest::error::Error;
use ipfs_ingest::ops::{
    find_return_json, ArrStructData, CreatePayload, Operation, OperationResult, UpdatePayload,
};
use ipfs_ingest::store::RecordStore;

fn create_op(image: &str, category: Option<&str>, hash_id: &str) -> Operation {
    Operation::Create {
        image: image.to_string(),
        ipfs_image_url: "https://ipfs.io/ipfs/Qm...".to_string(),
        category: category.map(|c| c.to_string()),
        width: 640,
        height: 480,
        prompt: Some("a prompt".to_string()),
        hash_id: hash_id.to_string(),
    }
}

#[test]
fn create_echoes_id_and_fields() {
    let mut store = RecordStore::new();
    let result = create_op("image1.jpg", Some("category1"), "h1")
        .execute(&mut store)
        .unwrap();
    match result {
        OperationResult::DataStruct(id, image, ipfs_image_url, category, hash_id) => {
            assert_eq!(id, 1);
            assert_eq!(image, "image1.jpg");
            assert_eq!(ipfs_image_url, "https://ipfs.io/ipfs/Qm...");
            assert_eq!(category, Some("category1".to_string()));
            assert_eq!(hash_id, "h1");
        }
        other => panic!("expected DataStruct, got {other:?}"),
    }
}

#[test]
fn created_ids_are_unique_and_timestamps_agree() {
    let mut store = RecordStore::new();
    let mut ids = Vec::new();
    for i in 0..4 {
        match create_op("img.jpg", None, &format!("h{i}")).execute(&mut store).unwrap() {
            OperationResult::DataStruct(id, ..) => ids.push(id),
            other => panic!("expected DataStruct, got {other:?}"),
        }
    }
    // Every id handed out in the session is distinct.
    for a in 0..ids.len() {
        for b in 0..a {
            assert_ne!(ids[a], ids[b]);
        }
    }
    // Immediately after creation both timestamps carry the same instant.
    for row in store.read_all() {
        assert!(row.time_created.is_some());
        assert_eq!(row.time_created, row.updated_date);
    }
}

#[test]
fn fetch_projects_rows_with_rfc3339_timestamps() {
    let mut store = RecordStore::new();
    create_op("image1.jpg", Some("category1"), "h1").execute(&mut store).unwrap();
    let result = Operation::Fetch.execute(&mut store).unwrap();
    let rows = match result {
        OperationResult::ArrStruct(ArrStructData::ReturnJsonEnum(rows)) => rows,
        other => panic!("expected projected rows, got {other:?}"),
    };
    assert_eq!(rows.len(), 1);
    assert_eq!(rows[0].id, 1);
    assert_eq!(rows[0].image, "image1.jpg");
    assert_eq!(rows[0].ipfs_image_url, "https://ipfs.io/ipfs/Qm...");
    assert_eq!(rows[0].category, Some("category1".to_string()));
    // The store's first clock tick is one second past the epoch; the
    // projection renders it in RFC 3339.
    assert_eq!(rows[0].created, Some("1970-01-01T00:00:01+00:00".to_string()));
    assert_eq!(rows[0].updated_date, Some("1970-01-01T00:00:01+00:00".to_string()));
}

#[test]
fn fetch_lists_every_stored_record_in_insertion_order() {
    let mut store = RecordStore::new();
    create_op("image1.jpg", Some("category1"), "h1").execute(&mut store).unwrap();
    create_op("image2.jpg", Some("category2"), "h2").execute(&mut store).unwrap();
    create_op("image3.jpg", Some("category3"), "h3").execute(&mut store).unwrap();
    create_op("image4.jpg", None, "h4").execute(&mut store).unwrap();

    let rows = match Operation::Fetch.execute(&mut store).unwrap() {
        OperationResult::ArrStruct(ArrStructData::ReturnJsonEnum(rows)) => rows,
        other => panic!("expected projected rows, got {other:?}"),
    };
    assert_eq!(rows.len(), 4);
    let images: Vec<&str> = rows.iter().map(|r| r.image.as_str()).collect();
    assert_eq!(images, vec!["image1.jpg", "image2.jpg", "image3.jpg", "image4.jpg"]);
    assert_eq!(rows[2].category, Some("category3".to_string()));
    assert_eq!(rows[3].category, None);
    assert_eq!(rows[3].ipfs_image_url, "https://ipfs.io/ipfs/Qm...");
}

#[test]
fn read_returns_full_schema_rows() {
    let mut store = RecordStore::new();
    create_op("image1.jpg", None, "h1").execute(&mut store).unwrap();
    let result = Operation::Read.execute(&mut store).unwrap();
    match result {
        OperationResult::ArrStruct(ArrStructData::SchemaEnum(rows)) => {
            assert_eq!(rows.len(), 1);
            assert_eq!(rows[0].id, 1);
            assert_eq!(rows[0].width, 640);
            assert_eq!(rows[0].height, 480);
            assert_eq!(rows[0].prompt, Some("a prompt".to_string()));
            assert_eq!(rows[0].hash_id, "h1");
        }
        other => panic!("expected schema rows, got {other:?}"),
    }
}

#[test]
fn update_with_all_fields_absent_only_refreshes_updated_date() {
    let mut store = RecordStore::new();
    create_op("image1.jpg", Some("category1"), "h1").execute(&mut store).unwrap();
    let before = store.read_all().remove(0);
    let result = Operation::Update(1, None, None, None).execute(&mut store).unwrap();
    match result {
        OperationResult::UpdateStruct(row) => assert_eq!(row.id, 1),
        other => panic!("expected UpdateStruct, got {other:?}"),
    }
    let after = store.read_all().remove(0);
    assert_eq!(after.image, before.image);
    assert_eq!(after.ipfs_image_url, before.ipfs_image_url);
    assert_eq!(after.category, before.category);
    assert_eq!(after.width, before.width);
    assert_eq!(after.height, before.height);
    assert_eq!(after.prompt, before.prompt);
    assert_eq!(after.hash_id, before.hash_id);
    assert_eq!(after.time_created, before.time_created);
    assert!(after.updated_date.unwrap() > before.updated_date.unwrap());
}

#[test]
fn update_coalesces_present_fields_and_keeps_absent_ones() {
    let mut store = RecordStore::new();
    create_op("image1.jpg", Some("category1"), "h1").execute(&mut store).unwrap();
    let result = Operation::Update(1, None, None, Some("category2".to_string()))
        .execute(&mut store)
        .unwrap();
    match result {
        OperationResult::UpdateStruct(row) => {
            assert_eq!(row.image, "image1.jpg");
            assert_eq!(row.category, Some("category2".to_string()));
        }
        other => panic!("expected UpdateStruct, got {other:?}"),
    }
    let after = store.read_all().remove(0);
    assert_eq!(after.image, "image1.jpg");
    assert_eq!(after.ipfs_image_url, "https://ipfs.io/ipfs/Qm...");
    assert_eq!(after.category, Some("category2".to_string()));

    // A second update overwrites the image and keeps the fresh category.
    Operation::Update(1, Some("image2.jpg".to_string()), None, None)
        .execute(&mut store)
        .unwrap();
    let last = store.read_all().remove(0);
    assert_eq!(last.image, "image2.jpg");
    assert_eq!(last.category, Some("category2".to_string()));
}

#[test]
fn update_of_missing_id_fails_with_not_found() {
    let mut store = RecordStore::new();
    let result = Operation::Update(42, None, None, None).execute(&mut store);
    assert_eq!(result.unwrap_err(), Error::NotFound);
}

#[test]
fn create_with_negative_dimensions_fails_with_persistence() {
    let mut store = RecordStore::new();
    let op = Operation::Create {
        image: "x.jpg".to_string(),
        ipfs_image_url: "NO_IPFS".to_string(),
        category: None,
        width: -5,
        height: 10,
        prompt: None,
        hash_id: "h".to_string(),
    };
    assert_eq!(op.execute(&mut store).unwrap_err(), Error::Persistence);
    // The failed insert left nothing behind.
    assert!(store.read_all().is_empty());
}

#[test]
fn delete_existing_then_absent_yields_one_then_zero() {
    let mut store = RecordStore::new();
    create_op("image1.jpg", None, "h1").execute(&mut store).unwrap();
    create_op("image2.jpg", None, "h2").execute(&mut store).unwrap();

    match Operation::Delete(1).execute(&mut store).unwrap() {
        OperationResult::Deleted(rows) => assert_eq!(rows, 1),
        other => panic!("expected Deleted, got {other:?}"),
    }
    // A subsequent fetch no longer includes the deleted id.
    match Operation::Fetch.execute(&mut store).unwrap() {
        OperationResult::ArrStruct(ArrStructData::ReturnJsonEnum(rows)) => {
            assert_eq!(rows.len(), 1);
            assert!(rows.iter().all(|r| r.id != 1));
        }
        other => panic!("expected projected rows, got {other:?}"),
    }
    // Repeating the identical delete affects zero rows and is not an error.
    match Operation::Delete(1).execute(&mut store).unwrap() {
        OperationResult::Deleted(rows) => assert_eq!(rows, 0),
        other => panic!("expected Deleted, got {other:?}"),
    }
}

#[test]
fn delete_of_never_created_id_yields_zero() {
    let mut store = RecordStore::new();
    match Operation::Delete(9).execute(&mut store).unwrap() {
        OperationResult::Deleted(rows) => assert_eq!(rows, 0),
        other => panic!("expected Deleted, got {other:?}"),
    }
}

#[test]
fn find_return_json_picks_the_row_with_the_id() {
    let mut store = RecordStore::new();
    create_op("image1.jpg", None, "h1").execute(&mut store).unwrap();
    create_op("image2.jpg", None, "h2").execute(&mut store).unwrap();
    let rows = match Operation::Fetch.execute(&mut store).unwrap() {
        OperationResult::ArrStruct(ArrStructData::ReturnJsonEnum(rows)) => rows,
        other => panic!("expected projected rows, got {other:?}"),
    };
    let found = find_return_json(&rows, 2).expect("row 2 exists");
    assert_eq!(found.image, "image2.jpg");
    assert!(find_return_json(&rows, 3).is_none());
}

#[test]
fn payloads_turn_into_their_operations() {
    let create = CreatePayload {
        image: "i.jpg".to_string(),
        ipfs_image_url: "u".to_string(),
        category: None,
        width: 1,
        height: 2,
        prompt: None,
        hash_id: "h".to_string(),
    };
    match create.into_operation() {
        Operation::Create { image, width, .. } => {
            assert_eq!(image, "i.jpg");
            assert_eq!(width, 1);
        }
        _ => panic!("expected a create operation"),
    }
    let update = UpdatePayload {
        image: None,
        ipfs_image_url: Some("u2".to_string()),
        category: None,
    };
    match update.into_operation(7) {
        Operation::Update(id, image, ipfs_image_url, category) => {
            assert_eq!(id, 7);
            assert_eq!(image, None);
            assert_eq!(ipfs_image_url, Some("u2".to_string()));
            assert_eq!(category, None);
        }
        _ => panic!("expected an update operation"),
    }
}
