use listclip::binary::{is_binary, PROBE_LEN};

#[test]
fn probe_length_is_1024() {
    assert_eq!(PROBE_LEN, 1024);
}

#[test]
fn empty_input_is_text() {
    assert!(!is_binary(&[]));
}

#[test]
fn text_without_zero_is_text() {
    assert!(!is_binary(b"fn main() {}\n"));
}

#[test]
fn zero_byte_makes_binary() {
    assert!(is_binary(&[0]));
    assert!(is_binary(b"abc\0def"));
    assert!(is_binary(&[0x7f, b'E', b'L', b'F', 2, 1, 1, 0]));
}

#[test]
fn zero_at_last_probed_index_is_seen() {
    let mut bytes = vec![b'a'; 2000];
    bytes[1023] = 0;
    assert!(is_binary(&bytes));
}

#[test]
fn zero_past_the_probe_is_not_seen() {
    let mut bytes = vec![b'a'; 2000];
    bytes[1024] = 0;
    bytes[1999] = 0;
    assert!(!is_binary(&bytes));
}

#[test]
fn full_probe_without_zero_is_text() {
    let bytes = vec![0xffu8; 1024];
    assert!(!is_binary(&bytes));
}
