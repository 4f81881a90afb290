use gxhash_py::hashlib::{gxhash128, gxhash32, gxhash64, GxHashLib};
use gxhash_py::registry::{new, FileDigest};

fn hex_of_bytes(bytes: &[u8]) -> String {
    bytes.iter().map(|b| format!("{b:02x}")).collect()
}

/// Drains `stream` from `position` on, in chunks of at most `chunk` bytes.
fn drain(stream: &[u8], position: usize, chunk: usize, mut fd: FileDigest) -> GxHashLib {
    let mut at = position;
    loop {
        let end = if at + chunk < stream.len() { at + chunk } else { stream.len() };
        if !fd.feed(&stream[at..end]) {
            break;
        }
        at = end;
    }
    fd.finish()
}

#[test]
fn test_hashlib_gxhash32_name() {
    let hasher = gxhash32(None, 0, false);
    assert_eq!(hasher.name(), "gxhash32");
}

#[test]
fn test_hashlib_gxhash32_block_size() {
    let hasher = gxhash32(None, 0, false);
    assert_eq!(hasher.block_size(), 1);
}

#[test]
fn test_hashlib_gxhash32_digest_size() {
    let hasher = gxhash32(None, 0, false);
    assert_eq!(hasher.digest_size(), 4);
}

#[test]
fn test_hashlib_gxhash32_digest() {
    let hasher = gxhash32(Some(b"hello"), 0, false);
    let digest = hasher.digest();
    assert_eq!(digest.len(), 4);
}

#[test]
fn test_hashlib_gxhash32_hexdigest() {
    let hasher = gxhash32(Some(b"hello"), 0, false);
    let hexdigest = hasher.hexdigest();
    assert_eq!(hexdigest.len(), 8);
}

#[test]
fn test_hashlib_gxhash32_update() {
    let mut hasher = gxhash32(Some(b"hello "), 0, false);
    hasher.update(b"world");
    let hexdigest = hasher.hexdigest();
    let combined_hexdigest = gxhash32(Some(b"hello world"), 0, false).hexdigest();
    assert_eq!(hexdigest, combined_hexdigest);
}

#[test]
fn test_hashlib_gxhash32_copy() {
    let hasher1 = gxhash32(Some(b"hello"), 0, false);
    let hasher2 = hasher1.copy();
    assert_eq!(hasher1.hexdigest(), hasher2.hexdigest());
}

#[test]
fn test_hashlib_gxhash32_seed() {
    let seed = 42;
    let hasher1 = gxhash32(Some(b"hello"), seed, false);
    let hasher2 = gxhash32(Some(b"hello"), seed + 1, false);
    assert_ne!(hasher1.hexdigest(), hasher2.hexdigest());
}

#[test]
fn test_hashlib_gxhash32_hexdigest_determinism() {
    let hasher = gxhash32(Some(b"hello"), 0, false);
    assert_eq!(hasher.hexdigest(), "9470c7ff");
}

#[test]
fn test_hashlib_gxhash32_digest_determinism() {
    let expected_digest = [148, 112, 199, 255];
    let hasher = gxhash32(Some(b"hello"), 0, false);
    assert_eq!(hasher.digest(), expected_digest);
}

#[test]
fn hexdigest_is_hex_of_digest_32() {
    for data in [&b""[..], &b"hello"[..], &[0u8, 255, 16, 1][..]] {
        let hasher = gxhash32(Some(data), 7, false);
        assert_eq!(hasher.hexdigest(), hex_of_bytes(&hasher.digest()));
    }
}

#[test]
fn new_matches_direct_constructor_32() {
    let by_name = new("gxhash32", Some(b"some bytes"), 11).unwrap();
    let direct = gxhash32(Some(b"some bytes"), 11, false);
    assert_eq!(by_name.hexdigest(), direct.hexdigest());
    assert_eq!(by_name.name(), "gxhash32");
}

#[test]
fn test_hashlib_gxhash64_name() {
    let hasher = gxhash64(None, 0, false);
    assert_eq!(hasher.name(), "gxhash64");
}

#[test]
fn test_hashlib_gxhash64_block_size() {
    let hasher = gxhash64(None, 0, false);
    assert_eq!(hasher.block_size(), 1);
}

#[test]
fn test_hashlib_gxhash64_digest_size() {
    let hasher = gxhash64(None, 0, false);
    assert_eq!(hasher.digest_size(), 8);
}

#[test]
fn test_hashlib_gxhash64_digest() {
    let hasher = gxhash64(Some(b"hello"), 0, false);
    let digest = hasher.digest();
    assert_eq!(digest.len(), 8);
}

#[test]
fn test_hashlib_gxhash64_hexdigest() {
    let hasher = gxhash64(Some(b"hello"), 0, false);
    let hexdigest = hasher.hexdigest();
    assert_eq!(hexdigest.len(), 16);
}

#[test]
fn test_hashlib_gxhash64_update() {
    let mut hasher = gxhash64(Some(b"hello "), 0, false);
    hasher.update(b"world");
    let hexdigest = hasher.hexdigest();
    let combined_hexdigest = gxhash64(Some(b"hello world"), 0, false).hexdigest();
    assert_eq!(hexdigest, combined_hexdigest);
}

#[test]
fn test_hashlib_gxhash64_copy() {
    let hasher1 = gxhash64(Some(b"hello"), 0, false);
    let hasher2 = hasher1.copy();
    assert_eq!(hasher1.hexdigest(), hasher2.hexdigest());
}

#[test]
fn test_hashlib_gxhash64_seed() {
    let seed = 42;
    let hasher1 = gxhash64(Some(b"hello"), seed, false);
    let hasher2 = gxhash64(Some(b"hello"), seed + 1, false);
    assert_ne!(hasher1.hexdigest(), hasher2.hexdigest());
}

#[test]
fn test_hashlib_gxhash64_hexdigest_determinism() {
    let hasher = gxhash64(Some(b"hello"), 0, false);
    assert_eq!(hasher.hexdigest(), "9470c7ff1bf0b0ee");
}

#[test]
fn test_hashlib_gxhash64_digest_determinism() {
    let expected_digest = [148, 112, 199, 255, 27, 240, 176, 238];
    let hasher = gxhash64(Some(b"hello"), 0, false);
    assert_eq!(hasher.digest(), expected_digest);
}

#[test]
fn hexdigest_is_hex_of_digest_64() {
    for data in [&b""[..], &b"hello"[..], &[0u8, 255, 16, 1][..]] {
        let hasher = gxhash64(Some(data), 7, false);
        assert_eq!(hasher.hexdigest(), hex_of_bytes(&hasher.digest()));
    }
}

#[test]
fn new_matches_direct_constructor_64() {
    let by_name = new("gxhash64", Some(b"some bytes"), 11).unwrap();
    let direct = gxhash64(Some(b"some bytes"), 11, false);
    assert_eq!(by_name.hexdigest(), direct.hexdigest());
    assert_eq!(by_name.name(), "gxhash64");
}

#[test]
fn test_hashlib_gxhash128_name() {
    let hasher = gxhash128(None, 0, false);
    assert_eq!(hasher.name(), "gxhash128");
}

#[test]
fn test_hashlib_gxhash128_block_size() {
    let hasher = gxhash128(None, 0, false);
    assert_eq!(hasher.block_size(), 1);
}

#[test]
fn test_hashlib_gxhash128_digest_size() {
    let hasher = gxhash128(None, 0, false);
    assert_eq!(hasher.digest_size(), 16);
}

#[test]
fn test_hashlib_gxhash128_digest() {
    let hasher = gxhash128(Some(b"hello"), 0, false);
    let digest = hasher.digest();
    assert_eq!(digest.len(), 16);
}

#[test]
fn test_hashlib_gxhash128_hexdigest() {
    let hasher = gxhash128(Some(b"hello"), 0, false);
    let hexdigest = hasher.hexdigest();
    assert_eq!(hexdigest.len(), 32);
}

#[test]
fn test_hashlib_gxhash128_update() {
    let mut hasher = gxhash128(Some(b"hello "), 0, false);
    hasher.update(b"world");
    let hexdigest = hasher.hexdigest();
    let combined_hexdigest = gxhash128(Some(b"hello world"), 0, false).hexdigest();
    assert_eq!(hexdigest, combined_hexdigest);
}

#[test]
fn test_hashlib_gxhash128_copy() {
    let hasher1 = gxhash128(Some(b"hello"), 0, false);
    let hasher2 = hasher1.copy();
    assert_eq!(hasher1.hexdigest(), hasher2.hexdigest());
}

#[test]
fn test_hashlib_gxhash128_seed() {
    let seed = 42;
    let hasher1 = gxhash128(Some(b"hello"), seed, false);
    let hasher2 = gxhash128(Some(b"hello"), seed + 1, false);
    assert_ne!(hasher1.hexdigest(), hasher2.hexdigest());
}

#[test]
fn test_hashlib_gxhash128_hexdigest_determinism() {
    let hasher = gxhash128(Some(b"hello"), 0, false);
    assert_eq!(hasher.hexdigest(), "9470c7ff1bf0b0ee455b4d92b9ef3160");
}

#[test]
fn test_hashlib_gxhash128_digest_determinism() {
    let expected_digest = [148, 112, 199, 255, 27, 240, 176, 238, 69, 91, 77, 146, 185, 239, 49, 96];
    let hasher = gxhash128(Some(b"hello"), 0, false);
    assert_eq!(hasher.digest(), expected_digest);
}

#[test]
fn hexdigest_is_hex_of_digest_128() {
    for data in [&b""[..], &b"hello"[..], &[0u8, 255, 16, 1][..]] {
        let hasher = gxhash128(Some(data), 7, false);
        assert_eq!(hasher.hexdigest(), hex_of_bytes(&hasher.digest()));
    }
}

#[test]
fn new_matches_direct_constructor_128() {
    let by_name = new("gxhash128", Some(b"some bytes"), 11).unwrap();
    let direct = gxhash128(Some(b"some bytes"), 11, false);
    assert_eq!(by_name.hexdigest(), direct.hexdigest());
    assert_eq!(by_name.name(), "gxhash128");
}

#[test]
fn test_hashlib_new_no_data() {
    let new_digest = new("gxhash32", None, 0).unwrap().hexdigest();
    let direct_digest = gxhash32(None, 0, false).hexdigest();
    assert_eq!(new_digest, direct_digest);
}

#[test]
fn test_hashlib_new_invalid_name() {
    let error = new("invalid", None, 0).unwrap_err();
    assert_eq!(error.name, "invalid");
    assert_eq!(error.message(), "unsupported hash type invalid");
}

#[test]
fn test_hashlib_file_digest_real_file_partial_seek() {
    let stream = b"hello world";
    let fd = FileDigest::for_name("gxhash64", 0).unwrap();
    let file_digest = drain(stream, 5, 4, fd).hexdigest();
    let direct_digest = gxhash64(Some(b" world"), 0, false).hexdigest();
    assert_eq!(file_digest, direct_digest);
}

#[test]
fn file_digest_with_a_constructed_hasher() {
    let stream: Vec<u8> = (0u8..=255).collect();
    let fd = FileDigest::from_hasher(gxhash32(None, 3, false));
    let file_digest = drain(&stream, 0, 7, fd).hexdigest();
    assert_eq!(file_digest, gxhash32(Some(&stream), 3, false).hexdigest());
}

#[test]
fn file_digest_unknown_name() {
    let error = FileDigest::for_name("md5", 0).unwrap_err();
    assert_eq!(error.name, "md5");
}

#[test]
fn file_digest_feed_reports_end_of_stream() {
    let mut fd = FileDigest::for_name("gxhash128", 0).unwrap();
    assert!(fd.feed(b"abc"));
    assert!(!fd.feed(b""));
    assert_eq!(fd.finish().hexdigest(), gxhash128(Some(b"abc"), 0, false).hexdigest());
}

#[test]
fn update_law_with_empty_parts() {
    let mut hasher = gxhash64(None, -1, false);
    hasher.update(b"");
    hasher.update(b"xy");
    hasher.update(b"");
    assert_eq!(hasher.digest(), gxhash64(Some(b"xy"), -1, false).digest());
}

#[test]
fn copy_is_independent() {
    let hasher1 = gxhash128(Some(b"hello"), 0, false);
    let before = hasher1.digest();
    let mut hasher2 = hasher1.copy();
    hasher2.update(b" world");
    assert_eq!(hasher1.digest(), before);
    assert_ne!(hasher2.digest(), before);
    assert_eq!(hasher2.digest(), gxhash128(Some(b"hello world"), 0, false).digest());
}

#[test]
fn digest_leaves_state_unchanged() {
    let hasher = gxhash32(Some(b"hello"), 0, false);
    assert_eq!(hasher.digest(), hasher.digest());
    assert_eq!(hasher.seed(), 0);
}

#[test]
fn used_for_security_changes_nothing() {
    let a = gxhash64(Some(b"hello"), 5, true);
    let b = gxhash64(Some(b"hello"), 5, false);
    assert_eq!(a.digest(), b.digest());
}

#[test]
fn digest_is_little_endian_hash() {
    let hasher = gxhash64(Some(b"hello"), 42, false);
    assert_eq!(hasher.digest(), 10922345113571621535u64.to_le_bytes().to_vec());
}
