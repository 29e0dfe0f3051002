use crabby_patty_formula::mailbox::SharedBuffer;

#[test]
fn new_mailbox_is_empty() {
    let sb = SharedBuffer::new();
    assert_eq!(sb.cc, 0);
    assert!(sb.buff.is_empty());
    assert!(sb.response.is_empty());
}

#[test]
fn read_returns_the_pair_of_one_write() {
    let mut sb = SharedBuffer::new();
    sb.write_command(4, b"whoami".to_vec());
    let (code, payload) = sb.read_command();
    assert_eq!(code, 4);
    assert_eq!(payload, b"whoami".to_vec());
}

#[test]
fn later_write_replaces_the_whole_pair() {
    let mut sb = SharedBuffer::new();
    sb.write_command(4, b"whoami".to_vec());
    sb.write_command(3, Vec::new());
    let (code, payload) = sb.read_command();
    assert_eq!(code, 3);
    assert!(payload.is_empty());
}

#[test]
fn response_slot_is_separate_from_command_slot() {
    let mut sb = SharedBuffer::new();
    sb.write_command(4, b"payload".to_vec());
    sb.write_response(b"ack".to_vec());
    // the answer did not overwrite the queued payload
    let (code, payload) = sb.read_command();
    assert_eq!(code, 4);
    assert_eq!(payload, b"payload".to_vec());
    assert_eq!(sb.read_response(), b"ack".to_vec());
    // and a new command does not disturb the pending answer
    sb.write_command(5, Vec::new());
    assert_eq!(sb.read_response(), b"ack".to_vec());
}

#[test]
fn take_command_payload_empties_the_slot() {
    let mut sb = SharedBuffer::new();
    sb.write_command(4, b"id".to_vec());
    let taken = sb.take_command_payload();
    assert_eq!(taken, b"id".to_vec());
    assert!(sb.buff.is_empty());
    assert_eq!(sb.cc, 4);
}
