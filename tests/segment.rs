use chroma_segment::{
    metadata_try_from_update, ErrorCodes, Identifier, MetadataValue, MetadataValueConversionError,
    Segment, SegmentConversionError, SegmentDescriptor, SegmentScope, SegmentScopeConversionError,
    SegmentType, StrMap, UpdateMetadata,
};

const NIL: &str = "00000000-0000-0000-0000-000000000000";
const HNSW: &str = "urn:chroma:segment/vector/hnsw-distributed";

fn descriptor() -> SegmentDescriptor {
    SegmentDescriptor {
        id: NIL.to_string(),
        segment_type: HNSW.to_string(),
        scope: SegmentScope::VECTOR.code(),
        collection: Some(NIL.to_string()),
        metadata: None,
        file_paths: StrMap::new(),
        configuration_json_str: None,
    }
}

fn paths(items: &[&str]) -> Vec<String> {
    items.iter().map(|p| p.to_string()).collect()
}

#[test]
fn test_segment_try_from() {
    let mut metadata: UpdateMetadata = StrMap::new();
    metadata.insert("foo".to_string(), Some(MetadataValue::Int(42)));

    let configuration_json = r#"{"M": 16, "ef_construction": 200, "ef_search": 200}"#;

    let proto_segment = SegmentDescriptor {
        id: "00000000-0000-0000-0000-000000000000".to_string(),
        segment_type: "urn:chroma:segment/vector/hnsw-distributed".to_string(),
        scope: SegmentScope::VECTOR.code(),
        collection: Some("00000000-0000-0000-0000-000000000000".to_string()),
        metadata: Some(metadata),
        file_paths: StrMap::new(),
        configuration_json_str: Some(configuration_json.to_string()),
    };
    let converted_segment = Segment::try_from(proto_segment).unwrap();
    assert_eq!(converted_segment.id, Identifier::nil());
    assert_eq!(uuid::Uuid::from_u128(converted_segment.id.value), uuid::Uuid::nil());
    assert_eq!(converted_segment.segment_type, SegmentType::HnswDistributed);
    assert_eq!(converted_segment.scope, SegmentScope::VECTOR);
    assert_eq!(converted_segment.collection, Some(Identifier::nil()));
    let metadata = converted_segment.metadata.unwrap();
    assert_eq!(metadata.len(), 1);
    assert_eq!(metadata.get("foo").unwrap(), &MetadataValue::Int(42));
    assert_eq!(
        converted_segment.configuration_json.unwrap(),
        serde_json::from_str::<serde_json::Value>(configuration_json).unwrap(),
    );
}

#[test]
fn malformed_id_is_invalid_identifier() {
    let mut d = descriptor();
    d.id = "not-a-uuid".to_string();
    assert!(matches!(Segment::try_from(d), Err(SegmentConversionError::InvalidUuid)));
}

#[test]
fn malformed_collection_is_invalid_identifier() {
    let mut d = descriptor();
    d.collection = Some("00000000-0000-0000-0000-00000000000g".to_string());
    assert!(matches!(Segment::try_from(d), Err(SegmentConversionError::InvalidUuid)));
}

#[test]
fn absent_collection_is_invalid_identifier() {
    let mut d = descriptor();
    d.collection = None;
    assert!(matches!(Segment::try_from(d), Err(SegmentConversionError::InvalidUuid)));
}

#[test]
fn unknown_type_is_invalid_segment_type() {
    let mut d = descriptor();
    d.segment_type = "urn:chroma:segment/unknown".to_string();
    assert!(matches!(Segment::try_from(d), Err(SegmentConversionError::InvalidSegmentType)));
}

#[test]
fn malformed_configuration_is_parse_failure() {
    let mut d = descriptor();
    d.configuration_json_str = Some("{not json".to_string());
    let err = Segment::try_from(d).unwrap_err();
    assert!(matches!(err, SegmentConversionError::SerdeJsonError(_)));
    assert_eq!(err.code(), ErrorCodes::InvalidArgument);
}

#[test]
fn absent_configuration_stays_absent() {
    let segment = Segment::try_from(descriptor()).unwrap();
    assert!(segment.configuration_json.is_none());
    assert!(segment.metadata.is_none());
}

#[test]
fn file_paths_are_carried_over_in_order() {
    let mut d = descriptor();
    d.file_paths.insert("a".to_string(), paths(&["p1", "p2"]));
    d.file_paths.insert("b".to_string(), paths(&["p3"]));
    let segment = Segment::try_from(d).unwrap();
    assert_eq!(segment.file_path.len(), 2);
    assert_eq!(segment.file_path.get("a").unwrap(), &paths(&["p1", "p2"]));
    assert_eq!(segment.file_path.get("b").unwrap(), &paths(&["p3"]));
    let entries = segment.file_path.into_entries();
    assert_eq!(entries[0].0, "a");
    assert_eq!(entries[1].0, "b");
}

#[test]
fn every_segment_type_round_trips() {
    for t in [
        SegmentType::HnswDistributed,
        SegmentType::BlockfileRecord,
        SegmentType::Sqlite,
        SegmentType::BlockfileMetadata,
    ] {
        let wire = t.to_canonical_string();
        assert_eq!(SegmentType::try_from(wire.as_str()).unwrap(), t);
    }
}

#[test]
fn canonical_strings_are_exact() {
    assert_eq!(SegmentType::HnswDistributed.to_canonical_string(), HNSW);
    assert_eq!(
        SegmentType::BlockfileRecord.to_canonical_string(),
        "urn:chroma:segment/record/blockfile"
    );
    assert_eq!(SegmentType::Sqlite.to_canonical_string(), "urn:chroma:segment/metadata/sqlite");
    assert_eq!(
        SegmentType::BlockfileMetadata.to_canonical_string(),
        "urn:chroma:segment/metadata/blockfile"
    );
}

#[test]
fn strings_outside_the_canonical_set_are_rejected() {
    for s in ["", "urn:chroma:segment/unknown", "URN:CHROMA:SEGMENT/METADATA/SQLITE", "urn:chroma:segment/record/blockfile "] {
        assert!(matches!(SegmentType::try_from(s), Err(SegmentConversionError::InvalidSegmentType)));
    }
}

#[test]
fn unknown_scope_code_is_scope_failure() {
    let mut d = descriptor();
    d.scope = 7;
    let err = Segment::try_from(d).unwrap_err();
    assert!(matches!(
        err,
        SegmentConversionError::SegmentScopeConversionError(SegmentScopeConversionError::InvalidScope)
    ));
    assert_eq!(err.code(), ErrorCodes::InvalidArgument);
}

#[test]
fn scope_codes_resolve() {
    assert_eq!(SegmentScope::try_from_code(0), Ok(SegmentScope::VECTOR));
    assert_eq!(SegmentScope::try_from_code(1), Ok(SegmentScope::METADATA));
    assert_eq!(SegmentScope::try_from_code(2), Ok(SegmentScope::RECORD));
    assert_eq!(SegmentScope::try_from_code(3), Ok(SegmentScope::SQLITE));
    assert_eq!(SegmentScope::try_from_code(-1), Err(SegmentScopeConversionError::InvalidScope));
}

#[test]
fn metadata_entry_without_value_is_metadata_failure() {
    let mut metadata: UpdateMetadata = StrMap::new();
    metadata.insert("foo".to_string(), Some(MetadataValue::Int(1)));
    metadata.insert("bar".to_string(), None);
    let mut d = descriptor();
    d.metadata = Some(metadata);
    let err = Segment::try_from(d).unwrap_err();
    assert!(matches!(
        err,
        SegmentConversionError::MetadataValueConversionError(MetadataValueConversionError::InvalidValue)
    ));
    assert_eq!(err.code(), ErrorCodes::InvalidArgument);
}

#[test]
fn metadata_keeps_keys_and_order() {
    let mut metadata: UpdateMetadata = StrMap::new();
    metadata.insert("s".to_string(), Some(MetadataValue::Str("x".to_string())));
    metadata.insert("f".to_string(), Some(MetadataValue::Float(1.5f64.to_bits())));
    metadata.insert("i".to_string(), Some(MetadataValue::Int(-3)));
    let converted = metadata_try_from_update(metadata).unwrap().into_entries();
    assert_eq!(
        converted,
        vec![
            ("s".to_string(), MetadataValue::Str("x".to_string())),
            ("f".to_string(), MetadataValue::Float(1.5f64.to_bits())),
            ("i".to_string(), MetadataValue::Int(-3)),
        ]
    );
}

#[test]
fn first_invalid_field_decides_the_error() {
    let mut d = descriptor();
    d.collection = None;
    d.segment_type = "bogus".to_string();
    d.configuration_json_str = Some("{".to_string());
    assert!(matches!(Segment::try_from(d), Err(SegmentConversionError::InvalidUuid)));

    let mut d = descriptor();
    d.scope = 99;
    d.segment_type = "bogus".to_string();
    assert!(matches!(
        Segment::try_from(d),
        Err(SegmentConversionError::SegmentScopeConversionError(_))
    ));

    let mut d = descriptor();
    d.segment_type = "bogus".to_string();
    d.configuration_json_str = Some("{".to_string());
    assert!(matches!(Segment::try_from(d), Err(SegmentConversionError::InvalidSegmentType)));
}

#[test]
fn error_codes_of_local_failures() {
    assert_eq!(SegmentConversionError::InvalidUuid.code(), ErrorCodes::InvalidArgument);
    assert_eq!(SegmentConversionError::InvalidSegmentType.code(), ErrorCodes::InvalidArgument);
}

#[test]
fn identifier_parses_every_uuid_form() {
    let expected = Identifier { value: 0x67e5_5044_10b1_426f_9247_bb68_0e5f_e0c8 };
    assert_eq!(Identifier::parse("67e55044-10b1-426f-9247-bb680e5fe0c8"), Some(expected));
    assert_eq!(Identifier::parse("67e5504410b1426f9247bb680e5fe0c8"), Some(expected));
    assert_eq!(Identifier::parse("{67e55044-10b1-426f-9247-bb680e5fe0c8}"), Some(expected));
    assert_eq!(Identifier::parse("urn:uuid:67e55044-10b1-426f-9247-bb680e5fe0c8"), Some(expected));
    assert_eq!(Identifier::parse("67e55044-10b1-426f-9247"), None);
    assert_eq!(Identifier::parse(NIL), Some(Identifier::nil()));
}

#[test]
fn segment_ids_are_the_parsed_values() {
    let mut d = descriptor();
    d.id = "67e55044-10b1-426f-9247-bb680e5fe0c8".to_string();
    d.collection = Some("00000000-0000-0000-0000-000000000001".to_string());
    let segment = Segment::try_from(d).unwrap();
    assert_eq!(segment.id.value, 0x67e5_5044_10b1_426f_9247_bb68_0e5f_e0c8);
    assert_eq!(segment.collection, Some(Identifier { value: 1 }));
}

#[test]
fn insert_replaces_in_place_and_appends_new_keys() {
    let mut m: StrMap<u32> = StrMap::new();
    assert!(m.is_empty());
    m.insert("a".to_string(), 1);
    m.insert("b".to_string(), 2);
    m.insert("a".to_string(), 3);
    assert_eq!(m.len(), 2);
    assert_eq!(m.get("a"), Some(&3));
    assert_eq!(m.get("c"), None);
    assert_eq!(m.into_entries(), vec![("a".to_string(), 3), ("b".to_string(), 2)]);
}
