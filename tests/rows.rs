use entity_schema::codec::{EntityStatus, KeyAlgo};
use entity_schema::error::DecodeError;
use entity_schema::schema::{
    Certifier, ColumnKind, Device, Entity, EntityType, Key, Reference, Signature, SqlValue,
    Timestamp,
};

fn text(s: &str) -> SqlValue {
    SqlValue::Text(s.to_string())
}

#[test]
fn device_row_decodes_to_reference() {
    let row = vec![SqlValue::Integer(7), SqlValue::Null];
    let device = Device::from_row(&row).unwrap();
    assert_eq!(
        device,
        Device {
            key: Reference { key: 7 },
            address: None
        }
    );
    let row = vec![SqlValue::Integer(7), text("10.0.0.1")];
    assert_eq!(
        Device::from_row(&row).unwrap().address,
        Some("10.0.0.1".to_string())
    );
}

#[test]
fn key_row_decodes() {
    let row = vec![SqlValue::Integer(3), text("abcd"), text("BAR")];
    assert_eq!(
        Key::from_row(&row),
        Ok(Key {
            id: 3,
            data: "abcd".to_string(),
            algo: KeyAlgo::BAR
        })
    );
}

#[test]
fn key_row_with_unknown_algo_is_rejected() {
    let row = vec![SqlValue::Integer(3), text("abcd"), text("bar")];
    assert_eq!(
        Key::from_row(&row),
        Err(DecodeError::InvalidEnumValue("bar".to_string()))
    );
}

#[test]
fn entity_row_decodes() {
    let ts = Timestamp {
        secs: 1_600_000_000,
        nanos: 5,
    };
    let row = vec![
        text("h1"),
        text("h0"),
        SqlValue::Integer(2),
        SqlValue::Timestamp(ts),
        text("CURRENT"),
        text("alice"),
        SqlValue::Null,
    ];
    assert_eq!(
        Entity::from_row(&row),
        Ok(Entity {
            hash: "h1".to_string(),
            parent: "h0".to_string(),
            revision: 2,
            timestamp: ts,
            status: EntityStatus::CURRENT,
            name: "alice".to_string(),
            info: None,
        })
    );
}

#[test]
fn entity_row_with_unknown_status_is_rejected() {
    let row = vec![
        text("h1"),
        text("h0"),
        SqlValue::Integer(2),
        SqlValue::Timestamp(Timestamp { secs: 0, nanos: 0 }),
        text("draft"),
        text("alice"),
        text("note"),
    ];
    assert_eq!(
        Entity::from_row(&row),
        Err(DecodeError::InvalidEnumValue("draft".to_string()))
    );
}

#[test]
fn wrong_column_count_is_a_structural_error() {
    let row = vec![SqlValue::Integer(7)];
    assert_eq!(Device::from_row(&row), Err(DecodeError::ColumnCount(1)));
    let row: Vec<SqlValue> = Vec::new();
    assert_eq!(Key::from_row(&row), Err(DecodeError::ColumnCount(0)));
}

#[test]
fn wrong_column_type_names_the_first_bad_column() {
    let row = vec![SqlValue::Integer(1), SqlValue::Integer(2), SqlValue::Null];
    assert_eq!(Key::from_row(&row), Err(DecodeError::ColumnType(1)));
    let row = vec![text("7"), SqlValue::Null];
    assert_eq!(Device::from_row(&row), Err(DecodeError::ColumnType(0)));
    let row = vec![text("a"), SqlValue::Null];
    assert_eq!(Certifier::from_row(&row), Err(DecodeError::ColumnType(1)));
}

#[test]
fn signature_and_certifier_rows_decode() {
    let row = vec![SqlValue::Integer(4), text("h1"), text("sig"), text("h2")];
    assert_eq!(
        Signature::from_row(&row),
        Ok(Signature {
            key: Reference { key: 4 },
            hash: Reference {
                key: "h1".to_string()
            },
            data: "sig".to_string(),
            by: Some(Reference {
                key: "h2".to_string()
            }),
        })
    );
    let row = vec![text("h1"), text("h2")];
    assert_eq!(
        Certifier::from_row(&row),
        Ok(Certifier {
            certifier: Reference {
                key: "h1".to_string()
            },
            entity: Reference {
                key: "h2".to_string()
            },
        })
    );
}

#[test]
fn signature_rows_are_kept_one_for_one() {
    let row = vec![SqlValue::Integer(4), text("h1"), text("sig"), SqlValue::Null];
    let rows = vec![row.clone(), row.clone()];
    let sigs = Signature::from_rows(&rows).unwrap();
    assert_eq!(sigs.len(), 2);
    assert_eq!(sigs[0], sigs[1]);
    let bad = vec![row.clone(), vec![SqlValue::Integer(4)], vec![text("x")]];
    assert_eq!(Signature::from_rows(&bad), Err(DecodeError::ColumnCount(1)));
    let empty: Vec<Vec<SqlValue>> = Vec::new();
    assert_eq!(Signature::from_rows(&empty), Ok(Vec::new()));
}

#[test]
fn table_declarations() {
    assert_eq!(EntityType::Entity.table_name(), "entities");
    assert_eq!(EntityType::Key.table_name(), "keys");
    assert_eq!(EntityType::Device.table_name(), "devices");
    assert_eq!(EntityType::Signature.table_name(), "signatures");
    assert_eq!(EntityType::Certifier.table_name(), "certifiers");
    assert_eq!(EntityType::Entity.column_kinds().len(), 7);
    assert_eq!(
        EntityType::Device.column_kinds(),
        vec![ColumnKind::Integer, ColumnKind::NullableText]
    );
    assert_eq!(EntityType::Signature.primary_key_len(), 2);
    assert_eq!(EntityType::Certifier.primary_key_len(), 2);
    assert_eq!(EntityType::Key.primary_key_len(), 1);
}

#[test]
fn timestamps_allow_a_leap_second_and_no_more() {
    assert_eq!(
        Timestamp::new(10, 1_999_999_999),
        Some(Timestamp {
            secs: 10,
            nanos: 1_999_999_999
        })
    );
    assert_eq!(Timestamp::new(10, 2_000_000_000), None);
    let row = vec![
        text("h1"),
        text("h0"),
        SqlValue::Integer(2),
        SqlValue::Timestamp(Timestamp {
            secs: 0,
            nanos: 2_000_000_000,
        }),
        text("OLD"),
        text("alice"),
        SqlValue::Null,
    ];
    assert_eq!(Entity::from_row(&row), Err(DecodeError::ColumnType(3)));
}

#[test]
fn signature_rows_with_distinct_keys_stay_distinct() {
    let rows = vec![
        vec![SqlValue::Integer(4), text("h1"), text("a"), SqlValue::Null],
        vec![SqlValue::Integer(4), text("h2"), text("a"), SqlValue::Null],
        vec![SqlValue::Integer(5), text("h1"), text("a"), SqlValue::Null],
    ];
    let sigs = Signature::from_rows(&rows).unwrap();
    assert_eq!(sigs.len(), 3);
    for i in 0..3 {
        for j in (i + 1)..3 {
            assert!(sigs[i].key != sigs[j].key || sigs[i].hash != sigs[j].hash);
        }
    }
}
