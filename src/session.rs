//! The exchange that carries out one operation over a byte channel.
//!
//! The channel itself lives with the caller. An [`Exchange`] is started for an
//! operation and yields an [`Action`]: write a frame and read a given number of
//! bytes, read more bytes, or finish with a result. The caller performs the
//! action and hands back what the channel delivered as an [`Event`], until the
//! action is [`Action::Finish`]. Every read must deliver exactly the number of
//! bytes asked for: anything else, like a failed write or read, ends the
//! operation with a transport error and is never retried.
use crate::anc::{mode_result, AncMode, ProtocolError};
use crate::codec::{
    decode_anc_status, decode_firmware_length, decode_firmware_string, decode_serial,
    firmware_text, serial_text,
};
use crate::frames::{
    encode_query_anc, encode_query_firmware, encode_query_serial, encode_set_anc,
    query_anc_frame, query_firmware_frame, query_serial_frame, set_anc_frame, ANC_STATUS_LEN,
    ANC_STATUS_OFFSET, FIRMWARE_HEADER_LEN, FIRMWARE_LENGTH_OFFSET, FIRMWARE_TRAILER_LEN,
    SERIAL_RESPONSE_LEN,
};
use vstd::prelude::*;
use vstd::slice::slice_to_vec;

verus! {

/// What the caller asks of the accessory.
#[derive(Debug, Clone, Copy, PartialEq, Eq, Structural)]
pub enum Operation {
    /// Ask for the current noise-cancellation mode.
    QueryAnc,
    /// Switch to the given mode; the accessory sends no answer.
    SetAnc(AncMode),
    /// Ask for the firmware version and the serial number.
    QueryDeviceInfo,
}

/// Identification data of the accessory.
#[derive(Debug)]
pub struct DeviceInfo {
    pub firmware: String,
    pub serial: String,
}

/// The result of an operation that succeeded.
#[derive(Debug)]
pub enum Report {
    /// The mode the accessory reported.
    Anc(AncMode),
    /// The new mode was sent.
    AncSet,
    /// The identification data the accessory reported.
    Info(DeviceInfo),
}

/// What the caller does next on the channel.
#[derive(Debug)]
pub enum Action {
    /// Write `frame` whole, then read exactly `then_read` bytes (nothing when
    /// it is zero) and hand them back.
    Write { frame: Vec<u8>, then_read: usize },
    /// Read exactly `len` more bytes and hand them back.
    Read { len: usize },
    /// The operation is over, with this result.
    Finish(Result<Report, ProtocolError>),
}

/// What the channel did with the last action.
#[derive(Debug)]
pub enum Event {
    /// The write, if any, completed and these bytes were read.
    Received(Vec<u8>),
    /// The write or the read failed, or the channel closed.
    Failed,
}

/// Where an operation stands: which response it waits for.
#[derive(Debug)]
pub enum Exchange {
    /// The response to the mode query.
    AwaitAncStatus,
    /// Completion of the write that sets the mode.
    AwaitSetAnc,
    /// The header of the response to the firmware query.
    AwaitFirmwareHeader,
    /// The firmware string of `len` bytes and its two trailing bytes.
    AwaitFirmwareText { len: usize },
    /// The response to the serial query, the firmware version already known.
    AwaitSerial { firmware: String },
    /// The operation is over.
    Finished,
}

/// `a` writes `frame` and then reads `then_read` bytes.
pub open spec fn is_write(a: Action, frame: Seq<u8>, then_read: nat) -> bool {
    a matches Action::Write { frame: f, then_read: n } && f@ == frame && n == then_read
}

/// `a` reads `len` bytes.
pub open spec fn is_read(a: Action, len: nat) -> bool {
    a matches Action::Read { len: n } && n == len
}

/// `a` ends the operation with the error `e`.
pub open spec fn is_failure(a: Action, e: ProtocolError) -> bool {
    a matches Action::Finish(r) && r == Err::<Report, ProtocolError>(e)
}

/// `a` ends the operation with this firmware version and serial number.
pub open spec fn is_info(a: Action, firmware: Seq<char>, serial: Seq<char>) -> bool {
    a matches Action::Finish(Ok(Report::Info(d))) && d.firmware@ == firmware && d.serial@ == serial
}

/// The result of a mode query whose status byte is `c`.
pub open spec fn anc_report(c: u8) -> Result<Report, ProtocolError> {
    match mode_result(c) {
        Ok(m) => Ok(Report::Anc(m)),
        Err(e) => Err(e),
    }
}

impl Exchange {
    /// How many bytes the exchange waits for; none once it is over.
    pub open spec fn awaited_len(self) -> Option<nat> {
        match self {
            Exchange::AwaitAncStatus => Some(ANC_STATUS_LEN as nat),
            Exchange::AwaitSetAnc => Some(0),
            Exchange::AwaitFirmwareHeader => Some(FIRMWARE_HEADER_LEN as nat),
            Exchange::AwaitFirmwareText { len } => Some((len + FIRMWARE_TRAILER_LEN) as nat),
            Exchange::AwaitSerial { .. } => Some(SERIAL_RESPONSE_LEN as nat),
            Exchange::Finished => None,
        }
    }

    /// How the exchange goes on from `self` when exactly the awaited bytes `b`
    /// arrive: to `next`, with the action `a`.
    pub open spec fn advances(self, b: Seq<u8>, next: Exchange, a: Action) -> bool {
        match self {
            Exchange::AwaitAncStatus => next is Finished && a == Action::Finish(
                anc_report(b[ANC_STATUS_OFFSET as int]),
            ),
            Exchange::AwaitSetAnc => next is Finished && a == Action::Finish(
                Ok::<Report, ProtocolError>(Report::AncSet),
            ),
            Exchange::AwaitFirmwareHeader => next == (Exchange::AwaitFirmwareText {
                len: b[FIRMWARE_LENGTH_OFFSET as int] as usize,
            }) && is_read(a, (b[FIRMWARE_LENGTH_OFFSET as int] + FIRMWARE_TRAILER_LEN) as nat),
            Exchange::AwaitFirmwareText { .. } => next matches Exchange::AwaitSerial { firmware }
                && firmware@ == firmware_text(b) && is_write(
                a,
                query_serial_frame(),
                SERIAL_RESPONSE_LEN as nat,
            ),
            Exchange::AwaitSerial { firmware } => next is Finished && is_info(
                a,
                firmware@,
                serial_text(b),
            ),
            Exchange::Finished => false,
        }
    }

    /// Starts `op`: the first action writes the operation's request frame and
    /// reads the size of its response.
    pub fn start(op: Operation) -> (r: (Exchange, Action))
        ensures
            match op {
                Operation::QueryAnc => r.0 is AwaitAncStatus && is_write(
                    r.1,
                    query_anc_frame(),
                    ANC_STATUS_LEN as nat,
                ),
                Operation::SetAnc(m) => r.0 is AwaitSetAnc && is_write(r.1, set_anc_frame(m), 0),
                Operation::QueryDeviceInfo => r.0 is AwaitFirmwareHeader && is_write(
                    r.1,
                    query_firmware_frame(),
                    FIRMWARE_HEADER_LEN as nat,
                ),
            },
    {
        match op {
            Operation::QueryAnc => {
                let frame = encode_query_anc();
                (
                    Exchange::AwaitAncStatus,
                    Action::Write { frame: slice_to_vec(frame.as_slice()), then_read: ANC_STATUS_LEN },
                )
            },
            Operation::SetAnc(m) => {
                let frame = encode_set_anc(m);
                (Exchange::AwaitSetAnc, Action::Write { frame: slice_to_vec(frame.as_slice()), then_read: 0 })
            },
            Operation::QueryDeviceInfo => {
                let frame = encode_query_firmware();
                (
                    Exchange::AwaitFirmwareHeader,
                    Action::Write {
                        frame: slice_to_vec(frame.as_slice()),
                        then_read: FIRMWARE_HEADER_LEN,
                    },
                )
            },
        }
    }

    /// Takes in what the channel did with the last action and says what to do
    /// next. A failure, a read of any other size than the one awaited, or any
    /// event once the exchange is over ends it with a transport error.
    pub fn step(&mut self, event: Event) -> (r: Action)
        ensures
            match event {
                Event::Failed => *final(self) is Finished && is_failure(
                    r,
                    ProtocolError::TransportError,
                ),
                Event::Received(b) => if old(self).awaited_len() == Some(b@.len()) {
                    old(self).advances(b@, *final(self), r)
                } else {
                    *final(self) is Finished && is_failure(r, ProtocolError::TransportError)
                },
            },
    {
        let mut prev = Exchange::Finished;
        std::mem::swap(self, &mut prev);
        let bytes = match event {
            Event::Failed => {
                return Action::Finish(Err(ProtocolError::TransportError));
            },
            Event::Received(bytes) => bytes,
        };
        let n = bytes.len();
        match prev {
            Exchange::AwaitAncStatus => {
                if n != ANC_STATUS_LEN {
                    return Action::Finish(Err(ProtocolError::TransportError));
                }
                match decode_anc_status(bytes.as_slice()) {
                    Ok(m) => Action::Finish(Ok(Report::Anc(m))),
                    Err(e) => Action::Finish(Err(e)),
                }
            },
            Exchange::AwaitSetAnc => {
                if n != 0 {
                    return Action::Finish(Err(ProtocolError::TransportError));
                }
                Action::Finish(Ok(Report::AncSet))
            },
            Exchange::AwaitFirmwareHeader => {
                if n != FIRMWARE_HEADER_LEN {
                    return Action::Finish(Err(ProtocolError::TransportError));
                }
                let len = decode_firmware_length(bytes.as_slice());
                *self = Exchange::AwaitFirmwareText { len };
                Action::Read { len: len + FIRMWARE_TRAILER_LEN }
            },
            Exchange::AwaitFirmwareText { len } => {
                if n < FIRMWARE_TRAILER_LEN || n - FIRMWARE_TRAILER_LEN != len {
                    return Action::Finish(Err(ProtocolError::TransportError));
                }
                let firmware = decode_firmware_string(bytes.as_slice());
                *self = Exchange::AwaitSerial { firmware };
                let frame = encode_query_serial();
                Action::Write { frame: slice_to_vec(frame.as_slice()), then_read: SERIAL_RESPONSE_LEN }
            },
            Exchange::AwaitSerial { firmware } => {
                if n != SERIAL_RESPONSE_LEN {
                    return Action::Finish(Err(ProtocolError::TransportError));
                }
                let serial = decode_serial(bytes.as_slice());
                Action::Finish(Ok(Report::Info(DeviceInfo { firmware, serial })))
            },
            Exchange::Finished => Action::Finish(Err(ProtocolError::TransportError)),
        }
    }
}

} // verus!
