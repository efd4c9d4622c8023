//! Library for querying solar-inverter telemetry over a byte-stream
//! transport using a fixed, unframed, CRC-protected binary wire format.
//!
//! The response payload layout is determined not by a tag in the response
//! itself but by which request is outstanding, so the codec carries session
//! state across calls. Around the codec, a polling orchestrator turns the
//! single-request/single-response transport into a rate-limited,
//! timeout-bounded stream of derived measurements.

use vstd::prelude::*;

pub mod codec;
pub mod orchestrator;
pub mod state_codes;

pub use codec::AuroraCodec;
pub use codec::CumulativeDuration;
pub use codec::ProtocolError;
pub use codec::Request;
pub use codec::Response;
pub use state_codes::DcDcState;
pub use state_codes::GlobalState;
pub use state_codes::InverterState;
pub use state_codes::MeasurementType;
pub use state_codes::TransmissionState;

verus! {

/// Low byte of a 16-bit word, as appended to the wire after the payload.
pub fn lo(val: u16) -> (r: u8)
    ensures
        r == val % 256,
{
    proof {
        assert((val & 0xFF) == val % 256) by (bit_vector);
    }
    (val & 0xFF) as u8
}

/// High byte of a 16-bit word, as appended to the wire after the low byte.
pub fn hi(val: u16) -> (r: u8)
    ensures
        r == val / 256,
{
    proof {
        assert(((val >> 8) & 0xFF) == val / 256) by (bit_vector);
    }
    ((val >> 8) & 0xFF) as u8
}

} // verus!
