use bloombuild::filter::{Filter, FilterParameters};
use bloombuild::metadata::MetadataRecord;

#[test]
fn json_document_is_exact() {
    let md = MetadataRecord {
        content_digest: vec![0xabu8; 32],
        bitmap_bits: 32,
        hash_function_count: 7,
        seeds: ((1, 2), (3, 4)),
    };
    let expected = format!(
        "{{\"bitmap_bits\":32,\"k_num\":7,\"sha256sum\":\"{}\",\"sip_keys\":[[\"1\",\"2\"],[\"3\",\"4\"]]}}",
        "ab".repeat(32)
    );
    assert_eq!(md.to_json(), expected);
}

#[test]
fn json_seed_words_keep_full_precision() {
    let md = MetadataRecord {
        content_digest: vec![0u8; 32],
        bitmap_bits: 18446744073709551615,
        hash_function_count: 4294967295,
        seeds: ((18446744073709551615, 0), (1, 10000000000000000000)),
    };
    let json = md.to_json();
    assert!(json.contains("\"bitmap_bits\":18446744073709551615"));
    assert!(json.contains("\"k_num\":4294967295"));
    assert!(json.contains("[\"18446744073709551615\",\"0\"]"));
    assert!(json.contains("[\"1\",\"10000000000000000000\"]"));
}

#[test]
fn json_parses_and_matches_the_original_digest_pipeline() {
    let params = FilterParameters { bitmap_bits: 29, hash_function_count: 7 };
    let mut f = Filter::new_with_seeds(&params, ((11, 22), (33, 44)));
    f.insert("apple");
    f.insert("banana");
    let (bytes, md) = f.freeze_and_serialize();
    let json = md.to_json();

    let v: serde_json::Value = serde_json::from_str(&json).expect("metadata must be valid JSON");
    assert_eq!(v.get("bitmap_bits").unwrap().as_u64(), Some(29));
    assert_eq!(v.get("k_num").unwrap().as_u64(), Some(7));

    let expected_hex = hex::encode(ring::digest::digest(&ring::digest::SHA256, &bytes).as_ref());
    assert_eq!(v.get("sha256sum").unwrap().as_str(), Some(expected_hex.as_str()));

    let keys = v.get("sip_keys").unwrap().as_array().unwrap();
    assert_eq!(keys[0].as_array().unwrap()[0].as_str(), Some("11"));
    assert_eq!(keys[0].as_array().unwrap()[1].as_str(), Some("22"));
    assert_eq!(keys[1].as_array().unwrap()[0].as_str(), Some("33"));
    assert_eq!(keys[1].as_array().unwrap()[1].as_str(), Some("44"));
}

#[test]
fn digest_matches_bitmap_bytes_and_detects_corruption() {
    let params = FilterParameters { bitmap_bits: 64, hash_function_count: 3 };
    let mut f = Filter::new_with_seeds(&params, ((5, 6), (7, 8)));
    f.insert("apple");
    let (bytes, md) = f.freeze_and_serialize();

    let expected = ring::digest::digest(&ring::digest::SHA256, &bytes);
    assert_eq!(md.content_digest.as_slice(), expected.as_ref());
    assert!(md.matches_bitmap(&bytes));

    for i in 0..bytes.len() {
        let mut corrupted = bytes.clone();
        corrupted[i] ^= 0x01;
        assert!(!md.matches_bitmap(&corrupted));
    }

    let mut truncated = bytes.clone();
    truncated.pop();
    assert!(!md.matches_bitmap(&truncated));
}

#[test]
fn for_bitmap_copies_sizing_and_seeds_verbatim() {
    let bytes: Vec<u8> = vec![0xde, 0xad, 0xbe, 0xef];
    let md = MetadataRecord::for_bitmap(&bytes, 29, 7, ((9, 8), (7, 6)));
    assert_eq!(md.bitmap_bits, 29);
    assert_eq!(md.hash_function_count, 7);
    assert_eq!(md.seeds, ((9, 8), (7, 6)));
    assert_eq!(md.content_digest.len(), 32);
    assert_eq!(
        hex::encode(&md.content_digest),
        hex::encode(ring::digest::digest(&ring::digest::SHA256, &bytes).as_ref())
    );
}
