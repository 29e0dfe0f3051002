//! The end-to-end exchange, driven at the state-machine level: every decision
//! the listener thread would take between socket calls, in order, with the
//! exact bytes that would cross the wire.

use crabby_patty_formula::listener::listen_poll;
use crabby_patty_formula::listener::new_lsn;
use crabby_patty_formula::listener::rcv_client_command;
use crabby_patty_formula::listener::ListenOutcome;
use crabby_patty_formula::listener::Status;
use crabby_patty_formula::listener::TransportKind;
use crabby_patty_formula::mailbox::SharedBuffer;
use crabby_patty_formula::session::action_wire;
use crabby_patty_formula::session::new_session;
use crabby_patty_formula::session::session_step;
use crabby_patty_formula::session::SessionAction;

#[test]
fn full_exchange_bind_handshake_send_release() {
    // bind a UDP listener
    let mut lsn = new_lsn(69);
    let mut sb = SharedBuffer::new();
    lsn.start_listening(TransportKind::Udp);
    assert_eq!(lsn.status, Status::Listening);

    // a datagram containing the marker arrives: status becomes Bound
    let code = rcv_client_command(&mut lsn, &mut sb);
    let datagram = b"order up".to_vec();
    let outcome = listen_poll(&mut lsn, code, Some(&datagram));
    assert_eq!(outcome, ListenOutcome::Accepted);
    assert_eq!(lsn.status, Status::Bound);

    // the operator queues control code 4 with payload "id"
    let mut sess = new_session();
    sb.write_command(4, b"id".to_vec());
    let code = rcv_client_command(&mut lsn, &mut sb);
    assert_eq!(code, 4);
    let action = session_step(&mut sess, code, &mut sb);
    // the peer receives [1], then exactly "id"
    let wire = action_wire(&action);
    assert_eq!(wire, vec![vec![1u8], b"id".to_vec()]);

    // the operator writes control code 3
    sb.write_command(3, Vec::new());
    let code = rcv_client_command(&mut lsn, &mut sb);
    let action = session_step(&mut sess, code, &mut sb);
    assert_eq!(action, SessionAction::Release);
    // the peer receives [69] and status returns to Listening
    assert_eq!(action_wire(&action), vec![vec![69u8]]);
    lsn.end_session();
    assert_eq!(lsn.status, Status::Listening);
}

#[test]
fn stop_after_release_goes_idle() {
    let mut lsn = new_lsn(1);
    let mut sb = SharedBuffer::new();
    lsn.start_listening(TransportKind::Udp);
    listen_poll(&mut lsn, 0, Some(&b"order up".to_vec()));
    lsn.end_session();
    sb.write_command(2, Vec::new());
    let code = rcv_client_command(&mut lsn, &mut sb);
    let outcome = listen_poll(&mut lsn, code, None);
    assert_eq!(outcome, ListenOutcome::Stopped);
    assert_eq!(lsn.status, Status::Idle);
    assert_eq!(lsn.transport, None);
}
