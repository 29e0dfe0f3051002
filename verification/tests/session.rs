use crabby_patty_formula::mailbox::SharedBuffer;
use crabby_patty_formula::session::action_wire;
use crabby_patty_formula::session::new_session;
use crabby_patty_formula::session::session_step;
use crabby_patty_formula::session::SessionAction;
use crabby_patty_formula::session::SessionMode;

#[test]
fn release_code_prescribes_one_release_signal() {
    let mut sess = new_session();
    let mut sb = SharedBuffer::new();
    sb.write_command(3, Vec::new());
    let action = session_step(&mut sess, 3, &mut sb);
    assert_eq!(action, SessionAction::Release);
    assert_eq!(sess.mode, SessionMode::Passive);
    assert_eq!(action_wire(&action), vec![vec![69u8]]);
}

#[test]
fn send_code_with_empty_slot_polls_again() {
    let mut sess = new_session();
    let mut sb = SharedBuffer::new();
    sb.write_command(4, vec![0u8; 2048]);
    let action = session_step(&mut sess, 4, &mut sb);
    assert_eq!(action, SessionAction::AwaitPayload);
    assert!(action_wire(&action).is_empty());
    // nothing was consumed: the slot still waits for a payload
    assert_eq!(sb.buff, vec![0u8; 2048]);
}

#[test]
fn send_code_with_payload_sends_signal_then_exact_bytes() {
    let mut sess = new_session();
    let mut sb = SharedBuffer::new();
    sb.write_command(4, b"id".to_vec());
    let action = session_step(&mut sess, 4, &mut sb);
    assert_eq!(action, SessionAction::SendQueued(b"id".to_vec()));
    assert_eq!(action_wire(&action), vec![vec![1u8], b"id".to_vec()]);
    // the slot was emptied: the same payload cannot go out twice
    assert!(sb.buff.is_empty());
    let again = session_step(&mut sess, 4, &mut sb);
    assert_eq!(again, SessionAction::AwaitPayload);
}

#[test]
fn shell_codes_switch_modes() {
    let mut sess = new_session();
    let mut sb = SharedBuffer::new();
    let action = session_step(&mut sess, 5, &mut sb);
    assert_eq!(action, SessionAction::EnterShell);
    assert_eq!(sess.mode, SessionMode::Interactive);
    assert_eq!(action_wire(&action), vec![vec![2u8]]);
    let action = session_step(&mut sess, 6, &mut sb);
    assert_eq!(action, SessionAction::ExitShell);
    assert_eq!(sess.mode, SessionMode::Passive);
    assert!(action_wire(&action).is_empty());
}

#[test]
fn interactive_relay_fails_explicitly() {
    let mut sess = new_session();
    let mut sb = SharedBuffer::new();
    session_step(&mut sess, 5, &mut sb);
    assert_eq!(sess.mode, SessionMode::Interactive);
    let action = session_step(&mut sess, 4, &mut sb);
    assert_eq!(action, SessionAction::RelayUnavailable);
    assert_eq!(sess.mode, SessionMode::Interactive);
    assert!(action_wire(&action).is_empty());
}

#[test]
fn unrecognized_code_is_reported_not_fatal() {
    let mut sess = new_session();
    let mut sb = SharedBuffer::new();
    for code in [0u8, 1, 2, 7, 255] {
        let action = session_step(&mut sess, code, &mut sb);
        assert_eq!(action, SessionAction::Unknown(code));
        assert_eq!(sess.mode, SessionMode::Passive);
        assert!(action_wire(&action).is_empty());
    }
}
