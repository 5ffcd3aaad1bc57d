//! Decoding of response frames: fixed-offset fields and lossy text.
//!
//! Response check bytes are not verified; only sizes and field domains are.
use crate::anc::{mode_result, AncMode, ProtocolError};
use crate::frames::{
    ANC_STATUS_LEN, ANC_STATUS_OFFSET, FIRMWARE_HEADER_LEN, FIRMWARE_LENGTH_OFFSET,
    FIRMWARE_TRAILER_LEN, SERIAL_OFFSET, SERIAL_RESPONSE_LEN,
};
use vstd::prelude::*;
use vstd::slice::slice_subrange;

verus! {

/// The text that lossy UTF-8 decoding makes of `b`: valid sequences become
/// their characters, each malformed one a replacement character.
pub uninterp spec fn lossy_text(b: Seq<u8>) -> Seq<char>;

/// Relies on `String::from_utf8_lossy`, which never fails, depends on the bytes
/// alone, and turns no bytes into the empty string.
#[verifier::external_body]
fn text_from_bytes(b: &[u8]) -> (r: String)
    ensures
        r@ == lossy_text(b@),
        b@.len() == 0 ==> r@.len() == 0,
{
    String::from_utf8_lossy(b).into_owned()
}

/// The firmware version carried by a continuation read of `buf.len()` bytes:
/// all but the two trailing bytes, as text.
pub open spec fn firmware_text(buf: Seq<u8>) -> Seq<char> {
    lossy_text(buf.subrange(0, buf.len() - FIRMWARE_TRAILER_LEN))
}

/// The serial number carried by a serial-number response: its last sixteen
/// bytes, as text.
pub open spec fn serial_text(buf: Seq<u8>) -> Seq<char> {
    lossy_text(buf.subrange(SERIAL_OFFSET as int, SERIAL_RESPONSE_LEN as int))
}

/// The mode reported by a status response, from the code at its status offset.
pub fn decode_anc_status(buf: &[u8]) -> (r: Result<AncMode, ProtocolError>)
    requires
        buf@.len() == ANC_STATUS_LEN,
    ensures
        r == mode_result(buf@[ANC_STATUS_OFFSET as int]),
{
    AncMode::try_from(buf[ANC_STATUS_OFFSET])
}

/// The length of the firmware string, declared in the header of its response.
pub fn decode_firmware_length(buf: &[u8]) -> (r: usize)
    requires
        buf@.len() == FIRMWARE_HEADER_LEN,
    ensures
        r == buf@[FIRMWARE_LENGTH_OFFSET as int],
        r <= 255,
{
    buf[FIRMWARE_LENGTH_OFFSET] as usize
}

/// The firmware version in a continuation read: the declared number of bytes
/// as text, then two bytes that are not interpreted.
pub fn decode_firmware_string(buf: &[u8]) -> (r: String)
    requires
        buf@.len() >= FIRMWARE_TRAILER_LEN,
    ensures
        r@ == firmware_text(buf@),
{
    let text = slice_subrange(buf, 0, buf.len() - FIRMWARE_TRAILER_LEN);
    text_from_bytes(text)
}

/// The serial number in a serial-number response.
pub fn decode_serial(buf: &[u8]) -> (r: String)
    requires
        buf@.len() == SERIAL_RESPONSE_LEN,
    ensures
        r@ == serial_text(buf@),
{
    let text = slice_subrange(buf, SERIAL_OFFSET, SERIAL_RESPONSE_LEN);
    text_from_bytes(text)
}

/// A status response whose status byte is the code of a mode decodes to that
/// mode, whatever its other bytes; one whose status byte is the code of no
/// mode is an invalid response.
pub proof fn lemma_status_decodes_to_mode(buf: Seq<u8>, mode: AncMode)
    requires
        buf.len() == ANC_STATUS_LEN,
    ensures
        buf[ANC_STATUS_OFFSET as int] == mode.code() ==> mode_result(buf[ANC_STATUS_OFFSET as int])
            == Ok::<AncMode, ProtocolError>(mode),
        (forall|m: AncMode| m.code() != buf[ANC_STATUS_OFFSET as int]) ==> mode_result(
            buf[ANC_STATUS_OFFSET as int],
        ) == Err::<AncMode, ProtocolError>(ProtocolError::InvalidResponse),
{
    crate::anc::lemma_code_round_trip(mode, buf[ANC_STATUS_OFFSET as int]);
}

/// Two serial-number responses that agree on the serial field give the same
/// serial number: no other byte is read.
pub proof fn lemma_serial_reads_only_its_field(a: Seq<u8>, b: Seq<u8>)
    requires
        a.len() == SERIAL_RESPONSE_LEN,
        b.len() == SERIAL_RESPONSE_LEN,
        forall|i: int| SERIAL_OFFSET <= i < SERIAL_RESPONSE_LEN ==> a[i] == b[i],
    ensures
        serial_text(a) == serial_text(b),
{
    assert(a.subrange(SERIAL_OFFSET as int, SERIAL_RESPONSE_LEN as int) =~= b.subrange(
        SERIAL_OFFSET as int,
        SERIAL_RESPONSE_LEN as int,
    ));
}

/// The firmware string is read from the declared number of bytes only: two
/// continuation reads that agree there give the same version, whatever their
/// trailing bytes.
pub proof fn lemma_firmware_ignores_trailer(a: Seq<u8>, b: Seq<u8>)
    requires
        a.len() == b.len(),
        a.len() >= FIRMWARE_TRAILER_LEN,
        forall|i: int| 0 <= i < a.len() - FIRMWARE_TRAILER_LEN ==> a[i] == b[i],
    ensures
        firmware_text(a) == firmware_text(b),
{
    assert(a.subrange(0, a.len() - FIRMWARE_TRAILER_LEN) =~= b.subrange(
        0,
        b.len() - FIRMWARE_TRAILER_LEN,
    ));
}

} // verus!
