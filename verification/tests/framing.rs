use ruspiro_push::Arch;
use ruspiro_push::chunk_at;
use ruspiro_push::chunk_count_exec;
use ruspiro_push::encode_header;
use ruspiro_push::is_ack;
use ruspiro_push::token_bytes;

#[test]
fn token_is_deadbeef() {
    assert_eq!(token_bytes(), b"DEADBEEF".to_vec());
}

#[test]
fn ack_match() {
    assert!(is_ack(0x41, 0x43, 0x4B));
    assert!(is_ack(b'A', b'C', b'K'));
}

#[test]
fn ack_mismatch() {
    assert!(!is_ack(b'N', b'C', b'K'));
    assert!(!is_ack(b'A', b'C', b'k'));
    assert!(!is_ack(0, 0, 0));
}

#[test]
fn header_ten_bytes_aarch64() {
    assert_eq!(encode_header(10, Arch::AArch64), vec![0x0A, 0x00, 0x00, 0x00, 0x40]);
}

#[test]
fn header_empty_payload_aarch32() {
    assert_eq!(encode_header(0, Arch::AArch32), vec![0x00, 0x00, 0x00, 0x00, 0x20]);
}

#[test]
fn header_is_little_endian() {
    assert_eq!(encode_header(0x0403_0201, Arch::AArch64), vec![0x01, 0x02, 0x03, 0x04, 0x40]);
}

#[test]
fn header_max_length() {
    assert_eq!(encode_header(u32::MAX, Arch::AArch32), vec![0xFF, 0xFF, 0xFF, 0xFF, 0x20]);
}

#[test]
fn chunk_count_values() {
    assert_eq!(chunk_count_exec(0), 0);
    assert_eq!(chunk_count_exec(1), 1);
    assert_eq!(chunk_count_exec(255), 1);
    assert_eq!(chunk_count_exec(256), 1);
    assert_eq!(chunk_count_exec(257), 2);
    assert_eq!(chunk_count_exec(512), 2);
    assert_eq!(chunk_count_exec(600), 3);
}

#[test]
fn chunks_cover_payload_in_order() {
    let data: Vec<u8> = (0..600u32).map(|i| (i % 251) as u8).collect();
    let n = chunk_count_exec(data.len());
    assert_eq!(n, 3);
    let mut rebuilt: Vec<u8> = Vec::new();
    for i in 0..n {
        let chunk = chunk_at(&data, i);
        if i + 1 < n {
            assert_eq!(chunk.len(), 256);
        } else {
            assert_eq!(chunk.len(), 88);
        }
        rebuilt.extend_from_slice(&chunk);
    }
    assert_eq!(rebuilt, data);
}

#[test]
fn exact_boundary_is_one_chunk() {
    let data: Vec<u8> = vec![7u8; 256];
    assert_eq!(chunk_count_exec(data.len()), 1);
    assert_eq!(chunk_at(&data, 0), data);
}
