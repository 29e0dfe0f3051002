use crabby_patty_formula::handshake::contains_marker;

#[test]
fn marker_alone_is_found() {
    assert!(contains_marker(&b"order up".to_vec()));
}

#[test]
fn marker_embedded_is_found() {
    assert!(contains_marker(&b"hello order up friend".to_vec()));
    assert!(contains_marker(&b"order up and more".to_vec()));
    assert!(contains_marker(&b"prefix order up".to_vec()));
}

#[test]
fn marker_in_zero_padded_datagram_is_found() {
    // a receive buffer is zero-filled past the datagram's bytes
    let mut buffer = vec![0u8; 2048];
    buffer[..8].copy_from_slice(b"order up");
    assert!(contains_marker(&buffer));
}

#[test]
fn payload_without_marker_is_refused() {
    assert!(!contains_marker(&Vec::new()));
    assert!(!contains_marker(&b"order u".to_vec()));
    assert!(!contains_marker(&b"orderup".to_vec()));
    assert!(!contains_marker(&b"ORDER UP".to_vec()));
    assert!(!contains_marker(&vec![0u8; 2048]));
}

#[test]
fn near_misses_are_refused() {
    // every 8-byte window differs from the marker in at least one byte
    assert!(!contains_marker(&b"rder uporder u".to_vec()));
    assert!(!contains_marker(&b"xrder upx".to_vec()));
}
