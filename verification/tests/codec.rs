use zkp_explorer::codec::bytes_to_bigint;
use zkp_explorer::codec::bytes_to_hex_chunks;
use zkp_explorer::codec::bytes_to_num_string;
use zkp_explorer::codec::chunk_roundtrip;
use zkp_explorer::codec::hex_encode;
use zkp_explorer::codec::hex_to_num_string;

#[test]
fn chunk_roundtrip_reproduces_blob() {
    let data: Vec<u8> = (0u16..600).map(|i| (i % 251) as u8).collect();
    for chunk in [1usize, 2, 7, 8, 32, 599, 600, 1000] {
        let out = chunk_roundtrip(&data, chunk);
        assert_eq!(out, data, "chunk size {chunk}");
    }
}

#[test]
fn chunk_roundtrip_keeps_trailing_zeros() {
    let data: Vec<u8> = vec![0, 0, 1, 0, 0, 0, 0, 0, 0];
    assert_eq!(chunk_roundtrip(&data, 4), data);
    assert_eq!(chunk_roundtrip(&data, 32), data);
    let zeros: Vec<u8> = vec![0; 70];
    assert_eq!(chunk_roundtrip(&zeros, 32), zeros);
}

#[test]
fn chunk_roundtrip_empty_blob() {
    let data: Vec<u8> = Vec::new();
    assert_eq!(chunk_roundtrip(&data, 8), data);
}

#[test]
fn bigint_chunk_count() {
    let data = [0u8; 65];
    assert_eq!(bytes_to_bigint(&data, None).len(), 3);
    assert_eq!(bytes_to_bigint(&data, Some(8)).len(), 9);
    assert_eq!(bytes_to_bigint(&[], None).len(), 0);
}

#[test]
fn hex_chunks_render_little_endian_uppercase() {
    // 0x1A00 little-endian is [0x00, 0x1A]; one chunk of 8 covers it.
    let cells = bytes_to_hex_chunks(&[0x00, 0x1A], Some(8));
    assert_eq!(cells, vec!["0x1A00".to_string()]);
    // Two single-byte chunks.
    let cells = bytes_to_hex_chunks(&[0xFF, 0x00], Some(1));
    assert_eq!(cells, vec!["0xFF".to_string(), "0x0".to_string()]);
}

#[test]
fn num_string_decodes_little_endian() {
    assert_eq!(bytes_to_num_string(Some(vec![0])), Some("0".to_string()));
    assert_eq!(bytes_to_num_string(Some(vec![1, 1])), Some("257".to_string()));
    assert_eq!(
        bytes_to_num_string(Some(vec![0xE8, 0x03])),
        Some("1000".to_string())
    );
    assert_eq!(bytes_to_num_string(None), None);
}

#[test]
fn hex_quantity_parses_to_decimal() {
    assert_eq!(hex_to_num_string("0xff"), Some("255".to_string()));
    assert_eq!(hex_to_num_string("0xDE"), Some("222".to_string()));
    assert_eq!(hex_to_num_string("0x0"), Some("0".to_string()));
    assert_eq!(
        hex_to_num_string("0x10000000000000000"),
        Some("18446744073709551616".to_string())
    );
}

#[test]
fn hex_quantity_rejects_other_shapes() {
    assert_eq!(hex_to_num_string(""), None);
    assert_eq!(hex_to_num_string("0x"), None);
    assert_eq!(hex_to_num_string("ff"), None);
    assert_eq!(hex_to_num_string("0xzz"), None);
    assert_eq!(hex_to_num_string("0x12g4"), None);
}

#[test]
fn hex_encode_is_two_lowercase_digits_per_byte() {
    assert_eq!(hex_encode(&[]), "");
    assert_eq!(hex_encode(&[0xAB, 0x01, 0xFF]), "ab01ff");
}
