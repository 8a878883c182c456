use debug_serialization::hash::{seq_h256_encode, H256};
use debug_serialization::hexfmt::bytes_0x_encode;
use debug_serialization::numeric::U256;
use debug_serialization::text::{opcode_encode, string_encode};

fn sample_hash(first: u8) -> H256 {
    let mut bytes = [0u8; 32];
    bytes[0] = first;
    bytes[31] = 0x9c;
    H256::new(bytes)
}

#[test]
fn prefixed_hex_of_empty_buffer_is_bare_prefix() {
    let r = bytes_0x_encode(&[]);
    assert_eq!(r, "0x");
    assert_eq!(r.len(), 2);
}

#[test]
fn prefixed_hex_is_prefix_plus_lowercase_hex() {
    let bytes = [0x00u8, 0xab, 0xff, 0x10];
    let r = bytes_0x_encode(&bytes);
    assert_eq!(r, "0x00abff10");
    assert_eq!(r.len(), 2 * bytes.len() + 2);
    assert!(r.starts_with("0x"));
    assert!(r[2..].chars().all(|c| c.is_ascii_hexdigit() && !c.is_ascii_uppercase()));
}

#[test]
fn single_byte_is_not_handed_back_unchanged() {
    // 0xab must come out as the two digits "ab", not as the raw byte.
    assert_eq!(bytes_0x_encode(&[0xab]), "0xab");
}

#[test]
fn bare_hash_has_no_prefix_and_matches_stripped_prefixed_form() {
    let h = sample_hash(0x0f);
    let bare = h.bare_hex();
    let prefixed = h.prefixed_hex();
    assert_eq!(bare.len(), 64);
    assert_eq!(prefixed.len(), 66);
    assert!(!bare.starts_with("0x"));
    assert!(prefixed.starts_with("0x"));
    assert_eq!(&prefixed[2..], bare.as_str());
    assert_eq!(
        bare,
        "0f0000000000000000000000000000000000000000000000000000000000009c"
    );
}

#[test]
fn hash_sequence_keeps_length_and_order() {
    let hashes = vec![sample_hash(0x01), sample_hash(0xee), sample_hash(0x00)];
    let encoded = seq_h256_encode(&hashes);
    assert_eq!(encoded.len(), 3);
    for (i, h) in hashes.iter().enumerate() {
        assert_eq!(encoded[i], h.bare_hex());
    }
    assert!(encoded[1].starts_with("ee"));
}

#[test]
fn empty_hash_sequence_encodes_to_empty_sequence() {
    let hashes: Vec<H256> = vec![];
    let encoded = seq_h256_encode(&hashes);
    assert_eq!(encoded.len(), 0);
}

#[test]
fn truncation_keeps_the_low_64_bits_only() {
    // 2^64 itself: limbs are [0, 1, 0, 0], so the low word is zero.
    assert_eq!(U256::from_limbs([0, 1, 0, 0]).low_u64(), 0);
    assert_eq!(U256::from_limbs([5, 0, 0, 0]).low_u64(), 5);
    assert_eq!(
        U256::from_limbs([0xdead_beef, u64::MAX, 7, 1]).low_u64(),
        0xdead_beef
    );
    assert_eq!(
        U256::from_limbs([u64::MAX, 0, 0, 0]).low_u64(),
        u64::MAX
    );
}

#[test]
fn opcode_buffer_is_uppercased() {
    assert_eq!(opcode_encode(b"push1"), "PUSH1");
    assert_eq!(opcode_encode(b"SsTorE"), "SSTORE");
    assert_eq!(opcode_encode(b""), "");
}

#[test]
fn plain_string_buffer_is_kept_unchanged() {
    assert_eq!(string_encode(b"push1"), "push1");
    assert_eq!(string_encode(b"Hello, world"), "Hello, world");
    assert_eq!(string_encode(b""), "");
}

#[test]
fn invalid_utf8_renders_as_empty_string_not_error() {
    let invalid = [0xffu8, 0xfe];
    assert_eq!(opcode_encode(&invalid), "");
    assert_eq!(string_encode(&invalid), "");
    // The same bytes buried inside otherwise fine text still spoil the
    // whole buffer.
    let buried = [b'a', b'b', 0xff, 0xfe, b'c'];
    assert_eq!(opcode_encode(&buried), "");
    assert_eq!(string_encode(&buried), "");
}

#[test]
fn encoding_is_deterministic_across_repeated_calls() {
    let bytes = [0x01u8, 0x02, 0xfe];
    assert_eq!(bytes_0x_encode(&bytes), bytes_0x_encode(&bytes));
    let h = sample_hash(0x42);
    assert_eq!(h.bare_hex(), h.bare_hex());
    assert_eq!(h.prefixed_hex(), h.prefixed_hex());
    let hashes = vec![sample_hash(0x42)];
    assert_eq!(seq_h256_encode(&hashes), seq_h256_encode(&hashes));
    assert_eq!(opcode_encode(b"dup3"), opcode_encode(b"dup3"));
    assert_eq!(string_encode(b"dup3"), string_encode(b"dup3"));
    let x = U256::from_limbs([9, 9, 9, 9]);
    assert_eq!(x.low_u64(), x.low_u64());
}
