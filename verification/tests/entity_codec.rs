use saferoute::vault::codec::{decode_entities, encode_entities};
use saferoute::vault::entity::Entity;

fn entity(original: &str, token: &str, entity_type: &str, position: usize) -> Entity {
    Entity {
        original: original.to_string(),
        token: token.to_string(),
        entity_type: entity_type.to_string(),
        position,
    }
}

#[test]
fn empty_sequence_is_eight_zero_bytes() {
    assert_eq!(encode_entities(&vec![]), vec![0u8; 8]);
    assert_eq!(decode_entities(&[0u8; 8]), Some(vec![]));
}

#[test]
fn encoding_of_one_entity() {
    let bytes = encode_entities(&vec![entity("ab", "T", "", 258)]);
    let expected: Vec<u8> = vec![
        1, 0, 0, 0, 0, 0, 0, 0, // one entity
        2, 0, 0, 0, 0, 0, 0, 0, b'a', b'b', // original
        1, 0, 0, 0, 0, 0, 0, 0, b'T', // token
        0, 0, 0, 0, 0, 0, 0, 0, // type
        2, 1, 0, 0, 0, 0, 0, 0, // position
    ];
    assert_eq!(bytes, expected);
    assert_eq!(decode_entities(&expected), Some(vec![entity("ab", "T", "", 258)]));
}

#[test]
fn round_trip_keeps_order_and_text() {
    let entities = vec![
        entity("john@x.com", "[EMAIL_1]", "EMAIL", 0),
        entity("Zoë Müller", "[NAME_1]", "NAME", 12),
        entity("東京都", "[CITY_1]", "CITY", usize::MAX),
        entity("", "", "", 7),
        entity("a\u{0}b\u{10ffff}", "🔑", "KEY", 1),
        entity("john@x.com", "[EMAIL_1]", "EMAIL", 0),
    ];
    let bytes = encode_entities(&entities);
    assert_eq!(decode_entities(&bytes), Some(entities));
}

#[test]
fn text_length_counts_bytes() {
    let bytes = encode_entities(&vec![entity("é", "", "", 0)]);
    assert_eq!(&bytes[8..18], &[2, 0, 0, 0, 0, 0, 0, 0, 0xc3, 0xa9]);
}

#[test]
fn truncated_or_extended_encodings_are_refused() {
    let bytes = encode_entities(&vec![entity("john@x.com", "[EMAIL_1]", "EMAIL", 4)]);
    for len in 0..bytes.len() {
        assert_eq!(decode_entities(&bytes[..len]), None);
    }
    let mut longer = bytes.clone();
    longer.push(0);
    assert_eq!(decode_entities(&longer), None);
    assert!(decode_entities(&bytes).is_some());
}

#[test]
fn wrong_count_is_refused() {
    let mut bytes = encode_entities(&vec![entity("a", "b", "c", 1)]);
    bytes[0] = 2;
    assert_eq!(decode_entities(&bytes), None);
    bytes[0] = 0;
    assert_eq!(decode_entities(&bytes), None);
    let huge = [0xffu8; 8];
    assert_eq!(decode_entities(&huge), None);
}

#[test]
fn text_that_is_not_utf8_is_refused() {
    let mut bytes = encode_entities(&vec![entity("ab", "", "", 0)]);
    bytes[16] = 0xff;
    assert_eq!(decode_entities(&bytes), None);
    // An overlong form and a lone surrogate.
    let mut bytes = encode_entities(&vec![entity("ab", "", "", 0)]);
    bytes[16] = 0xc0;
    bytes[17] = 0x80;
    assert_eq!(decode_entities(&bytes), None);
    let mut bytes = encode_entities(&vec![entity("abc", "", "", 0)]);
    bytes[16] = 0xed;
    bytes[17] = 0xa0;
    bytes[18] = 0x80;
    assert_eq!(decode_entities(&bytes), None);
}

#[test]
fn text_length_beyond_the_input_is_refused() {
    let mut bytes = encode_entities(&vec![entity("ab", "", "", 0)]);
    bytes[8] = 200;
    assert_eq!(decode_entities(&bytes), None);
    bytes[8] = 2;
    bytes[15] = 0x80;
    assert_eq!(decode_entities(&bytes), None);
}
