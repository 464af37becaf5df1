use tales_tree::commons::id::{Id, IdError, IdGenerator, StdIdGenerator};

const VERSION_MASK: u128 = 0x0000_0000_0000_F000_C000_0000_0000_0000;
const VERSION_BITS: u128 = 0x0000_0000_0000_4000_8000_0000_0000_0000;

#[test]
fn new_ids_are_random_version_4_uuids() {
    let a = Id::new();
    let b = StdIdGenerator.new_id();
    let c = Id::default();
    for id in [a, b, c] {
        assert_eq!(id.as_u128() & VERSION_MASK, VERSION_BITS);
    }
    assert_ne!(a, b);
}

#[test]
fn id_text_is_hyphenated_lower_case() {
    let id = Id::from_u128(0xa1a2a3a4_b1b2_c1c2_d1d2_d3d4d5d6d7d8);
    assert_eq!(id.to_string(), "a1a2a3a4-b1b2-c1c2-d1d2-d3d4d5d6d7d8");
    assert_eq!(Id::from_u128(0).to_string(), "00000000-0000-0000-0000-000000000000");
}

#[test]
fn id_text_parses_back_to_the_id() {
    for _ in 0..20 {
        let id = Id::new();
        assert_eq!(Id::from_str(&id.to_string()), Ok(id));
        assert_eq!(Id::try_from(id.to_string().as_str()), Ok(id));
    }
}

#[test]
fn id_parses_every_uuid_form() {
    let expected = Ok(Id::from_u128(0x550e8400_e29b_41d4_a716_446655440000));
    assert_eq!(Id::from_str("550e8400-e29b-41d4-a716-446655440000"), expected);
    assert_eq!(Id::from_str("550E8400-E29B-41D4-A716-446655440000"), expected);
    assert_eq!(Id::from_str("550e8400e29b41d4a716446655440000"), expected);
    assert_eq!(Id::from_str("{550e8400-e29b-41d4-a716-446655440000}"), expected);
    assert_eq!(Id::from_str("urn:uuid:550e8400-e29b-41d4-a716-446655440000"), expected);
}

#[test]
fn id_rejects_other_texts() {
    assert_eq!(Id::from_str(""), Err(IdError::InvalidUuid));
    assert_eq!(Id::from_str("not a uuid"), Err(IdError::InvalidUuid));
    assert_eq!(Id::from_str("550e8400-e29b-41d4-a716-44665544000g"), Err(IdError::InvalidUuid));
    assert_eq!(Id::try_from("550e8400-e29b-41d4-a716"), Err(IdError::InvalidUuid));
}

#[test]
fn id_layouts_are_exact() {
    let expected = Ok(Id::from_u128(0x550e8400_e29b_41d4_a716_446655440000));
    assert_eq!(Id::from_str("URN:UUID:550e8400-e29b-41d4-a716-446655440000"), expected);
    assert_eq!(Id::from_str("(550e8400-e29b-41d4-a716-446655440000)"), Err(IdError::InvalidUuid));
    assert_eq!(Id::from_str("urn:uid::550e8400-e29b-41d4-a716-446655440000"), Err(IdError::InvalidUuid));
    assert_eq!(Id::from_str("550e8400e29b-41d4-a716-4466554400000"), Err(IdError::InvalidUuid));
    assert_eq!(Id::from_str("550e8400e29b41d4a716446655440é"), Err(IdError::InvalidUuid));
}
