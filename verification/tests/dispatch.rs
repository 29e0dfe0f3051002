use crabby_patty_formula::codec::decode_dns;
use crabby_patty_formula::codec::decode_http;
use crabby_patty_formula::codec::encode_dns;
use crabby_patty_formula::codec::encode_http;
use crabby_patty_formula::dispatch;
use crabby_patty_formula::vec_is_zero;
use crabby_patty_formula::ControlCommand;
use crabby_patty_formula::CoreError;
use crabby_patty_formula::SystemInfo;

#[test]
fn dispatch_table_is_exact() {
    assert_eq!(dispatch(1), ControlCommand::StatusInfo);
    assert_eq!(dispatch(2), ControlCommand::StopListening);
    assert_eq!(dispatch(3), ControlCommand::ReleasePeer);
    assert_eq!(dispatch(4), ControlCommand::SendQueued);
    assert_eq!(dispatch(5), ControlCommand::StartShell);
    assert_eq!(dispatch(6), ControlCommand::EndShell);
}

#[test]
fn dispatch_unrecognized_is_named_not_fatal() {
    assert_eq!(dispatch(0), ControlCommand::Unknown(0));
    assert_eq!(dispatch(7), ControlCommand::Unknown(7));
    assert_eq!(dispatch(69), ControlCommand::Unknown(69));
    assert_eq!(dispatch(255), ControlCommand::Unknown(255));
}

#[test]
fn vec_is_zero_on_empty_and_zeros() {
    assert!(vec_is_zero(&Vec::new()));
    assert!(vec_is_zero(&vec![0u8; 2048]));
}

#[test]
fn vec_is_zero_spots_any_nonzero_byte() {
    assert!(!vec_is_zero(&vec![1u8]));
    let mut buffer = vec![0u8; 2048];
    buffer[2047] = 9;
    assert!(!vec_is_zero(&buffer));
}

#[test]
fn codec_hooks_fail_explicitly() {
    let payload = vec![1u8, 2, 3];
    assert_eq!(encode_dns(&payload), Err(CoreError::NotSupported));
    assert_eq!(encode_http(&payload), Err(CoreError::NotSupported));
    assert_eq!(decode_dns(&payload), Err(CoreError::NotSupported));
    assert_eq!(decode_http(&payload), Err(CoreError::NotSupported));
}

#[test]
fn system_info_keeps_its_fields() {
    let info = SystemInfo::new(
        String::from("x86_64"),
        String::from("linux"),
        String::from("krusty-krab"),
    );
    assert_eq!(info.arch, "x86_64");
    assert_eq!(info.os, "linux");
    assert_eq!(info.hostname, "krusty-krab");
}
