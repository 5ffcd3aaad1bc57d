//! The command catalog: every request frame the accessory understands, byte
//! for byte, and the size of the response that each request draws.
//!
//! The frames, their trailing two check bytes included, are fixed per
//! operation, so they are held as constants rather than assembled.
use crate::anc::AncMode;
use vstd::prelude::*;

verus! {

/// Bytes in the response to the mode query.
pub const ANC_STATUS_LEN: usize = 16;

/// Bytes in the first part of the response to the firmware query.
pub const FIRMWARE_HEADER_LEN: usize = 8;

/// Offset, in the firmware header, of the firmware string's length.
pub const FIRMWARE_LENGTH_OFFSET: usize = 5;

/// Bytes that follow the firmware string in the response (not interpreted).
pub const FIRMWARE_TRAILER_LEN: usize = 2;

/// Bytes in the response to the serial-number query.
pub const SERIAL_RESPONSE_LEN: usize = 47;

/// Offset of the status code in the response to the mode query.
pub const ANC_STATUS_OFFSET: usize = 9;

/// Offset of the serial number in its response; it runs to the end.
pub const SERIAL_OFFSET: usize = 31;

/// The frame that asks for the current mode.
pub open spec fn query_anc_frame() -> Seq<u8> {
    seq![0x55u8, 0x60, 0x01, 0x1e, 0xc0, 0x01, 0x00, 0x0c, 0x03, 0x98, 0x19]
}

/// The frame that asks for the firmware version.
pub open spec fn query_firmware_frame() -> Seq<u8> {
    seq![0x55u8, 0x60, 0x01, 0x42, 0xc0, 0x00, 0x00, 0x03, 0xe0, 0xd1]
}

/// The frame that asks for the serial number.
pub open spec fn query_serial_frame() -> Seq<u8> {
    seq![0x55u8, 0x60, 0x01, 0x06, 0xc0, 0x00, 0x00, 0x05, 0x90, 0xdc]
}

/// The frame that switches the accessory to `mode`.
pub open spec fn set_anc_frame(mode: AncMode) -> Seq<u8> {
    match mode {
        AncMode::High => seq![0x55u8, 0x60, 0x01, 0x0f, 0xf0, 0x03, 0x00, 0xed, 0x01, 0x01, 0x00, 0xcd, 0x47],
        AncMode::Mid => seq![0x55u8, 0x60, 0x01, 0x0f, 0xf0, 0x03, 0x00, 0x56, 0x01, 0x02, 0x00, 0xe9, 0x53],
        AncMode::Low => seq![0x55u8, 0x60, 0x01, 0x0f, 0xf0, 0x03, 0x00, 0x67, 0x01, 0x03, 0x00, 0xe6, 0x3f],
        AncMode::Adaptive => seq![0x55u8, 0x60, 0x01, 0x0f, 0xf0, 0x03, 0x00, 0x76, 0x01, 0x04, 0x00, 0xe1, 0x33],
        AncMode::Off => seq![0x55u8, 0x60, 0x01, 0x0f, 0xf0, 0x03, 0x00, 0x04, 0x01, 0x05, 0x00, 0xfb, 0xdb],
        AncMode::Transparency => seq![0x55u8, 0x60, 0x01, 0x0f, 0xf0, 0x03, 0x00, 0x61, 0x01, 0x07, 0x00, 0xe4, 0x77],
    }
}

/// The frame that switches the accessory to `mode`.
pub fn encode_set_anc(mode: AncMode) -> (r: [u8; 13])
    ensures
        r@ == set_anc_frame(mode),
{
    let r: [u8; 13] = match mode {
        AncMode::High => [0x55, 0x60, 0x01, 0x0f, 0xf0, 0x03, 0x00, 0xed, 0x01, 0x01, 0x00, 0xcd, 0x47],
        AncMode::Mid => [0x55, 0x60, 0x01, 0x0f, 0xf0, 0x03, 0x00, 0x56, 0x01, 0x02, 0x00, 0xe9, 0x53],
        AncMode::Low => [0x55, 0x60, 0x01, 0x0f, 0xf0, 0x03, 0x00, 0x67, 0x01, 0x03, 0x00, 0xe6, 0x3f],
        AncMode::Adaptive => [0x55, 0x60, 0x01, 0x0f, 0xf0, 0x03, 0x00, 0x76, 0x01, 0x04, 0x00, 0xe1, 0x33],
        AncMode::Off => [0x55, 0x60, 0x01, 0x0f, 0xf0, 0x03, 0x00, 0x04, 0x01, 0x05, 0x00, 0xfb, 0xdb],
        AncMode::Transparency => [0x55, 0x60, 0x01, 0x0f, 0xf0, 0x03, 0x00, 0x61, 0x01, 0x07, 0x00, 0xe4, 0x77],
    };
    assert(r@ =~= set_anc_frame(mode));
    r
}

/// The frame that asks for the current mode.
pub fn encode_query_anc() -> (r: [u8; 11])
    ensures
        r@ == query_anc_frame(),
{
    let r: [u8; 11] = [0x55, 0x60, 0x01, 0x1e, 0xc0, 0x01, 0x00, 0x0c, 0x03, 0x98, 0x19];
    assert(r@ =~= query_anc_frame());
    r
}

/// The frame that asks for the firmware version.
pub fn encode_query_firmware() -> (r: [u8; 10])
    ensures
        r@ == query_firmware_frame(),
{
    let r: [u8; 10] = [0x55, 0x60, 0x01, 0x42, 0xc0, 0x00, 0x00, 0x03, 0xe0, 0xd1];
    assert(r@ =~= query_firmware_frame());
    r
}

/// The frame that asks for the serial number.
pub fn encode_query_serial() -> (r: [u8; 10])
    ensures
        r@ == query_serial_frame(),
{
    let r: [u8; 10] = [0x55, 0x60, 0x01, 0x06, 0xc0, 0x00, 0x00, 0x05, 0x90, 0xdc];
    assert(r@ =~= query_serial_frame());
    r
}

/// Each mode's frame is thirteen bytes long and carries, at the offset where a
/// status response carries it, the code by which the accessory reports that
/// mode; decoding that byte gives the mode back.
pub proof fn lemma_set_frame_carries_code(mode: AncMode)
    ensures
        set_anc_frame(mode).len() == 13,
        set_anc_frame(mode)[ANC_STATUS_OFFSET as int] == mode.code(),
        crate::anc::mode_result(set_anc_frame(mode)[ANC_STATUS_OFFSET as int])
            == Ok::<AncMode, crate::anc::ProtocolError>(mode),
{
    crate::anc::lemma_code_round_trip(mode, mode.code());
}

} // verus!
