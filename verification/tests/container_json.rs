//! The binary container reader/writer and the JSON parser.

use vrm_scene::container::{parse_container, Container};
use vrm_scene::error::VrmError;
use vrm_scene::json::{parse_json, JsonValue};

fn glb_bytes(json: &[u8], bin: Option<&[u8]>) -> Vec<u8> {
    let mut out = Vec::new();
    out.extend_from_slice(b"glTF");
    out.extend_from_slice(&2u32.to_le_bytes());
    let total = 12 + 8 + json.len() + match bin {
        Some(b) => 8 + b.len(),
        None => 0,
    };
    out.extend_from_slice(&(total as u32).to_le_bytes());
    out.extend_from_slice(&(json.len() as u32).to_le_bytes());
    out.extend_from_slice(&0x4E4F534Au32.to_le_bytes());
    out.extend_from_slice(json);
    if let Some(b) = bin {
        out.extend_from_slice(&(b.len() as u32).to_le_bytes());
        out.extend_from_slice(&0x004E4942u32.to_le_bytes());
        out.extend_from_slice(b);
    }
    out
}

#[test]
fn container_binary_split() {
    let bytes = glb_bytes(b"{\"x\":1}\x20", Some(&[1, 2, 3, 4]));
    let c = parse_container(&bytes).unwrap();
    assert!(c.binary);
    assert_eq!(c.version, 2);
    assert_eq!(c.json, b"{\"x\":1}\x20".to_vec());
    assert_eq!(c.bin, Some(vec![1, 2, 3, 4]));
    // The length law: json + bin + headers equals the declared total.
    assert_eq!(
        c.declared_length as usize,
        c.json.len() + c.bin.as_ref().unwrap().len() + 28
    );
}

#[test]
fn container_without_blob() {
    let bytes = glb_bytes(b"{}\x20\x20", None);
    let c = parse_container(&bytes).unwrap();
    assert!(c.binary);
    assert!(c.bin.is_none());
    assert_eq!(c.declared_length as usize, c.json.len() + 20);
}

#[test]
fn container_round_trip() {
    let bytes = glb_bytes(b"{\"a\":[1,2]}\x20", Some(&[9, 8, 7, 6, 5, 4, 3, 2]));
    let c = parse_container(&bytes).unwrap();
    let encoded = c.encode();
    assert_eq!(encoded, bytes);
    let again = parse_container(&encoded).unwrap();
    assert_eq!(again, c);
}

#[test]
fn container_bare_json_fallback() {
    let bytes = b"{\"scenes\":[]}".to_vec();
    let c = parse_container(&bytes).unwrap();
    assert!(!c.binary);
    assert_eq!(c.json, bytes);
    assert!(c.bin.is_none());
    assert_eq!(c.version, 0);
}

#[test]
fn container_malformed_lengths() {
    // Declared total disagrees with the chunks.
    let mut bytes = glb_bytes(b"{}\x20\x20", None);
    bytes[8] = 0xFF;
    assert_eq!(parse_container(&bytes), Err(VrmError::MalformedContainer));
    // Chunk length exceeding the input.
    let mut bytes2 = glb_bytes(b"{}\x20\x20", None);
    bytes2[12] = 0xEE;
    assert_eq!(parse_container(&bytes2), Err(VrmError::MalformedContainer));
    // Wrong first chunk type.
    let mut bytes3 = glb_bytes(b"{}\x20\x20", None);
    bytes3[16] = 0;
    assert_eq!(parse_container(&bytes3), Err(VrmError::MalformedContainer));
}

#[test]
fn json_values_parse() {
    let text = b" {\"a\": [1, 2.5, -3], \"b\": {\"c\": true, \"d\": null}, \"e\": \"hi\\n\"} "
        .to_vec();
    let v = parse_json(&text).unwrap();
    let a = v.get(b"a").unwrap();
    let items = a.as_array().unwrap();
    assert_eq!(items.len(), 3);
    assert_eq!(items[0].as_int(), Some(1));
    assert_eq!(items[1].as_fx(), Some(163840));
    assert_eq!(items[2].as_int(), Some(-3));
    let b = v.get(b"b").unwrap();
    assert_eq!(b.get(b"c").unwrap().as_bool(), Some(true));
    assert!(matches!(b.get(b"d"), Some(JsonValue::Null)));
    assert_eq!(v.get(b"e").unwrap().as_str_bytes().unwrap(), &b"hi\n".to_vec());
    assert!(v.get(b"missing").is_none());
}

#[test]
fn json_numbers_with_exponents() {
    let v = parse_json(&b"[1e3, 2.5e-1, 0.125]".to_vec()).unwrap();
    let items = v.as_array().unwrap();
    // 1e3 scales to 1000 in whole units.
    assert_eq!(items[0].as_fx(), Some(1000 * 65536));
    // 0.25 is 16384 in Q47.16.
    assert_eq!(items[1].as_fx(), Some(16384));
    assert_eq!(items[2].as_fx(), Some(8192));
}

#[test]
fn json_unicode_escapes() {
    let v = parse_json(&b"\"A\\u00e9\\u0041\"".to_vec()).unwrap();
    assert_eq!(v.as_str_bytes().unwrap(), &"A\u{e9}A".as_bytes().to_vec());
}

#[test]
fn json_rejects_garbage() {
    assert!(parse_json(&b"{\"a\": }".to_vec()).is_err());
    assert!(parse_json(&b"[1, 2".to_vec()).is_err());
    assert!(parse_json(&b"tru".to_vec()).is_err());
    assert!(parse_json(&b"{} extra".to_vec()).is_err());
}

#[test]
fn encode_requires_consistent_lengths() {
    // A well-formed container encodes to exactly its parsed source.
    let bytes = glb_bytes(b"{\"k\":0}\x20", None);
    let c: Container = parse_container(&bytes).unwrap();
    assert_eq!(c.encode(), bytes);
}
