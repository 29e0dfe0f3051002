//! Steganographic transport hooks. The DNS and HTTP adapters are declared
//! surfaces that frame a control-code/payload pair inside protocol-specific
//! structure; no codec is provided here, so every call answers with an
//! explicit `NotSupported` — a caller can never mistake the declared surface
//! for a working one.

use vstd::prelude::*;
use crate::CoreError;

verus! {

/// Frames a payload inside a DNS packet. No DNS codec is provided: every call
/// fails with `NotSupported`.
pub fn encode_dns(payload: &Vec<u8>) -> (r: Result<Vec<u8>, CoreError>)
    ensures
        r == Err::<Vec<u8>, CoreError>(CoreError::NotSupported),
{
    let _ = payload;
    Err(CoreError::NotSupported)
}

/// Frames a payload inside an HTTP message. No HTTP codec is provided: every
/// call fails with `NotSupported`.
pub fn encode_http(payload: &Vec<u8>) -> (r: Result<Vec<u8>, CoreError>)
    ensures
        r == Err::<Vec<u8>, CoreError>(CoreError::NotSupported),
{
    let _ = payload;
    Err(CoreError::NotSupported)
}

/// Recovers a payload from a DNS packet. No DNS codec is provided: every call
/// fails with `NotSupported`.
pub fn decode_dns(packet: &Vec<u8>) -> (r: Result<Vec<u8>, CoreError>)
    ensures
        r == Err::<Vec<u8>, CoreError>(CoreError::NotSupported),
{
    let _ = packet;
    Err(CoreError::NotSupported)
}

/// Recovers a payload from an HTTP message. No HTTP codec is provided: every
/// call fails with `NotSupported`.
pub fn decode_http(packet: &Vec<u8>) -> (r: Result<Vec<u8>, CoreError>)
    ensures
        r == Err::<Vec<u8>, CoreError>(CoreError::NotSupported),
{
    let _ = packet;
    Err(CoreError::NotSupported)
}

} // verus!
