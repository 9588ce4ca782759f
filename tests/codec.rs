use entity_schema::codec::{EntityStatus, KeyAlgo};
use entity_schema::error::DecodeError;

#[test]
fn key_algo_parses_canonical_name() {
    assert_eq!(KeyAlgo::from_str("FOO"), Some(KeyAlgo::FOO));
    assert_eq!(KeyAlgo::FOO.to_str(), "FOO");
    assert_eq!(KeyAlgo::from_str("BAR"), Some(KeyAlgo::BAR));
    assert_eq!(KeyAlgo::BAR.to_str(), "BAR");
}

#[test]
fn key_algo_parse_is_case_sensitive() {
    assert_eq!(KeyAlgo::from_str("foo"), None);
    assert_eq!(KeyAlgo::from_str("Foo"), None);
    assert_eq!(KeyAlgo::from_str(" FOO"), None);
    assert_eq!(KeyAlgo::from_str("FOO "), None);
    assert_eq!(KeyAlgo::from_str(""), None);
    assert_eq!(KeyAlgo::from_str("BAZ"), None);
}

#[test]
fn key_algo_round_trips() {
    for v in [KeyAlgo::FOO, KeyAlgo::BAR] {
        assert_eq!(KeyAlgo::from_str(v.to_str()), Some(v));
        assert_eq!(KeyAlgo::decode(&v.encode()), Ok(v));
    }
    assert_ne!(KeyAlgo::FOO.to_str(), KeyAlgo::BAR.to_str());
}

#[test]
fn entity_status_parses_canonical_names() {
    assert_eq!(EntityStatus::from_str("OLD"), Some(EntityStatus::OLD));
    assert_eq!(EntityStatus::from_str("CURRENT"), Some(EntityStatus::CURRENT));
    assert_eq!(EntityStatus::from_str("DRAFT"), Some(EntityStatus::DRAFT));
    assert_eq!(EntityStatus::CURRENT.to_str(), "CURRENT");
    assert_eq!(EntityStatus::DRAFT.encode(), "DRAFT".to_string());
}

#[test]
fn entity_status_rejects_other_text() {
    assert_eq!(EntityStatus::from_str("current"), None);
    assert_eq!(EntityStatus::from_str("CURREN"), None);
    assert_eq!(EntityStatus::from_str("CURRENTS"), None);
    assert_eq!(EntityStatus::from_str("FOO"), None);
}

#[test]
fn entity_status_round_trips_and_is_injective() {
    let all = [EntityStatus::OLD, EntityStatus::CURRENT, EntityStatus::DRAFT];
    for v in all {
        assert_eq!(EntityStatus::from_str(v.to_str()), Some(v));
        assert_eq!(EntityStatus::decode(&v.encode()), Ok(v));
        for w in all {
            if v != w {
                assert_ne!(v.to_str(), w.to_str());
            }
        }
    }
}

#[test]
fn decoding_unknown_text_is_an_integrity_error() {
    assert_eq!(
        KeyAlgo::decode("foo"),
        Err(DecodeError::InvalidEnumValue("foo".to_string()))
    );
    assert_eq!(
        EntityStatus::decode("ARCHIVED"),
        Err(DecodeError::InvalidEnumValue("ARCHIVED".to_string()))
    );
}
