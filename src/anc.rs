//! Noise-cancellation modes, their wire codes and the protocol's error kinds.
use vstd::prelude::*;

verus! {

/// One of the six noise-cancellation modes that the accessory knows.
#[derive(Debug, Clone, Copy, PartialEq, Eq, Structural)]
pub enum AncMode {
    High,
    Mid,
    Low,
    Adaptive,
    Off,
    Transparency,
}

/// Why an operation on the accessory failed.
#[derive(Debug, Clone, Copy, PartialEq, Eq, Structural)]
pub enum ProtocolError {
    /// A write or read on the channel failed or delivered the wrong number of bytes.
    TransportError,
    /// A response field holds a value outside its defined domain.
    InvalidResponse,
}

impl AncMode {
    /// The byte by which the accessory reports this mode (code 6 is unused).
    pub open spec fn code(self) -> u8 {
        match self {
            AncMode::High => 1,
            AncMode::Mid => 2,
            AncMode::Low => 3,
            AncMode::Adaptive => 4,
            AncMode::Off => 5,
            AncMode::Transparency => 7,
        }
    }

    /// Reads a mode from its status code; any byte that is not the code of a
    /// mode is an invalid response.
    pub fn try_from(value: u8) -> (r: Result<AncMode, ProtocolError>)
        ensures
            r == mode_result(value),
    {
        match value {
            1 => Ok(AncMode::High),
            2 => Ok(AncMode::Mid),
            3 => Ok(AncMode::Low),
            4 => Ok(AncMode::Adaptive),
            5 => Ok(AncMode::Off),
            7 => Ok(AncMode::Transparency),
            _ => Err(ProtocolError::InvalidResponse),
        }
    }
}

/// The mode whose code is `c`, if there is one.
pub open spec fn mode_of_code(c: u8) -> Option<AncMode> {
    match c {
        1 => Some(AncMode::High),
        2 => Some(AncMode::Mid),
        3 => Some(AncMode::Low),
        4 => Some(AncMode::Adaptive),
        5 => Some(AncMode::Off),
        7 => Some(AncMode::Transparency),
        _ => None,
    }
}

/// What decoding the status code `c` yields.
pub open spec fn mode_result(c: u8) -> Result<AncMode, ProtocolError> {
    match mode_of_code(c) {
        Some(m) => Ok(m),
        None => Err(ProtocolError::InvalidResponse),
    }
}

/// Decoding the code of a mode gives that mode back; every other byte is refused.
pub proof fn lemma_code_round_trip(m: AncMode, c: u8)
    ensures
        mode_result(m.code()) == Ok::<AncMode, ProtocolError>(m),
        (forall|k: AncMode| k.code() != c) ==> mode_result(c) == Err::<AncMode, ProtocolError>(
            ProtocolError::InvalidResponse,
        ),
{
    if (forall|k: AncMode| k.code() != c) {
        if let Some(k) = mode_of_code(c) {
            assert(k.code() == c);
        }
    }
}

} // verus!
