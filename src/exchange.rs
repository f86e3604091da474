//! The command exchange: the request frame of each command, and how the
//! bytes of one read are turned into a reply.

use vstd::prelude::*;

use crate::frame::{decoded, encoding, SocketData, State};

verus! {

/// Capacity of the buffer that one reply is read into.
pub const REPLY_CAPACITY: usize = 1024;

/// How long a command waits for its reply, in milliseconds.
pub const REPLY_TIMEOUT_MS: i32 = 1000;

/// Payload of an actuator pulse pattern; the device takes the interval
/// before the duration, both in units of 50 ms.
pub open spec fn control_payload(switch: u8, times: u8, duration: u8, interval: u8) -> Seq<u8> {
    seq![switch, times, interval, duration, 0x00u8]
}

/// Payload that turns the indicator light on or off.
pub open spec fn light_payload(status: bool) -> Seq<u8> {
    if status {
        seq![0x01u8]
    } else {
        seq![0x00u8]
    }
}

/// Payload that turns scanning on or off: the device reads 0 as on.
pub open spec fn scan_payload(status: bool) -> Seq<u8> {
    if status {
        seq![0x00u8]
    } else {
        seq![0x01u8]
    }
}

/// Request bytes for an actuator pulse pattern (`switch` 0x08 is the buzzer).
pub fn control_request(switch: u8, times: u8, duration: u8, interval: u8) -> (r: Vec<u8>)
    ensures
        r@ == encoding(State::Control, control_payload(switch, times, duration, interval)),
{
    let payload = [switch, times, interval, duration, 0x00];
    let mut frame = SocketData::new(State::Control, payload.as_slice());
    assert(frame.data@ =~= control_payload(switch, times, duration, interval));
    frame.build()
}

/// Request bytes that turn the indicator light on or off.
pub fn light_request(status: bool) -> (r: Vec<u8>)
    ensures
        r@ == encoding(State::LED, light_payload(status)),
{
    let payload = if status {
        [0x01u8]
    } else {
        [0x00u8]
    };
    let mut frame = SocketData::new(State::LED, payload.as_slice());
    assert(frame.data@ =~= light_payload(status));
    frame.build()
}

/// Request bytes that turn scanning on or off.
pub fn scan_request(status: bool) -> (r: Vec<u8>)
    ensures
        r@ == encoding(State::Scan, scan_payload(status)),
{
    let payload = if status {
        [0x00u8]
    } else {
        [0x01u8]
    };
    let mut frame = SocketData::new(State::Scan, payload.as_slice());
    assert(frame.data@ =~= scan_payload(status));
    frame.build()
}

/// The frame in the first `count` bytes of a read buffer, that is, in the
/// bytes that one read delivered.
pub fn received_frame(buf: &[u8], count: usize) -> (r: Option<SocketData>)
    requires
        count <= buf@.len(),
    ensures
        match r {
            Some(f) => decoded(buf@.take(count as int)) == Some(f.model()),
            None => decoded(buf@.take(count as int)) is None,
        },
        count == 0 ==> r is None,
{
    let got = vstd::slice::slice_subrange(buf, 0, count);
    assert(got@ =~= buf@.take(count as int));
    SocketData::parse(got)
}

/// Whether a command was acknowledged: a frame of any kind came back in the
/// `count` bytes read. A read that timed out with no data is no
/// acknowledgement.
pub fn acknowledged(buf: &[u8], count: usize) -> (r: bool)
    requires
        count <= buf@.len(),
    ensures
        r == decoded(buf@.take(count as int)) is Some,
        count == 0 ==> !r,
{
    match received_frame(buf, count) {
        Some(_) => true,
        None => false,
    }
}

} // verus!
