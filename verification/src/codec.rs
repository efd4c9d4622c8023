//! Frame codec for the inverter protocol.
//!
//! Requests are encoded into fixed 10-byte frames and responses decoded
//! from 8-byte frames, both protected by a trailing CRC sent low byte
//! first. A response frame carries no tag of its own: its payload layout
//! is fixed by the request that is outstanding, so the codec records the
//! last encoded request and interprets the next response against it.

use vstd::prelude::*;
use vstd::slice::slice_subrange;

use crate::hi;
use crate::lo;
use crate::state_codes::DcDcState;
use crate::state_codes::GlobalState;
use crate::state_codes::InverterState;
use crate::state_codes::MeasurementType;
use crate::state_codes::TransmissionState;

verus! {

/// Aggregation window of a `CumulativeEnergy` request. Code 2 is
/// intentionally unassigned: the protocol reserves it.
#[derive(Clone, Copy, Debug, PartialEq, Eq, Structural)]
pub enum CumulativeDuration {
    Daily,
    Weekly,
    Monthly,
    Yearly,
    Total,
    SinceReset,
}

impl CumulativeDuration {
    /// The raw wire code of this duration.
    pub open spec fn as_code(self) -> u8 {
        match self {
            CumulativeDuration::Daily => 0,
            CumulativeDuration::Weekly => 1,
            CumulativeDuration::Monthly => 3,
            CumulativeDuration::Yearly => 4,
            CumulativeDuration::Total => 5,
            CumulativeDuration::SinceReset => 6,
        }
    }

    /// The raw wire code of this duration, sent in byte 2 of a
    /// `CumulativeEnergy` request frame.
    pub fn code(&self) -> (r: u8)
        ensures
            r == self.as_code(),
    {
        match self {
            CumulativeDuration::Daily => 0,
            CumulativeDuration::Weekly => 1,
            CumulativeDuration::Monthly => 3,
            CumulativeDuration::Yearly => 4,
            CumulativeDuration::Total => 5,
            CumulativeDuration::SinceReset => 6,
        }
    }
}

/// A query sent to the device. Immutable once constructed; its variant
/// alone fixes the command code and the layout of the matching response.
#[derive(Clone, Copy, Debug, PartialEq, Eq, Structural)]
pub enum Request {
    State,
    PartNumber,
    Version,
    Measure { type_: MeasurementType, global: bool },
    SerialNumber,
    ManufactureDate,
    CumulativeEnergy(CumulativeDuration),
}

/// A decoded reply. A `Response` is only ever produced by decoding wire
/// bytes against a known pending `Request`.
///
/// A measured value arrives on the wire as a big-endian IEEE-754 number;
/// `Measure::val_bits` holds those 32 bits uninterpreted, so an unverified
/// caller can view them as a float while the codec stays free of
/// floating-point arithmetic.
#[derive(Clone, Copy, Debug, PartialEq, Eq)]
pub enum Response {
    State {
        trans: TransmissionState,
        global: GlobalState,
        inverter: InverterState,
        dc1: DcDcState,
        dc2: DcDcState,
        alarm: u8,
    },
    PartNumber([u8; 6]),
    Version {
        trans: TransmissionState,
        global: GlobalState,
        par1: u8,
        par2: u8,
        par3: u8,
        par4: u8,
    },
    Measure {
        trans: TransmissionState,
        global: GlobalState,
        val_bits: u32,
        type_: MeasurementType,
    },
    SerialNumber([u8; 6]),
    ManufactureDate {
        trans: TransmissionState,
        global: GlobalState,
        week: [u8; 2],
        year: [u8; 2],
    },
    CumulativeEnergy {
        trans: TransmissionState,
        global: GlobalState,
        value: u32,
        duration: CumulativeDuration,
    },
}

/// Failure conditions of the protocol session. None of them is retried:
/// each one terminates the operation that raised it.
#[derive(Clone, Copy, Debug, PartialEq, Eq, Structural)]
pub enum ProtocolError {
    /// A decoded frame's checksum does not match the computed checksum.
    CrcMismatch,
    /// A response frame arrived with no pending request recorded.
    UnexpectedResponse,
    /// A status byte outside the enumerated legal set.
    UnknownStateCode { raw: u8 },
    /// Underlying transport read/write error.
    IoFailure,
    /// No response within the configured timeout window.
    Timeout,
}

/// The CRC-16/X-25 checksum of a byte sequence, as the device computes it.
pub uninterp spec fn crc_x25(data: Seq<u8>) -> u16;

/// Relies on crc16::State::<X_25>::calculate: the CRC-16/X-25 checksum,
/// a function of the input bytes alone.
#[verifier::external_body]
fn crc16_x25(data: &[u8]) -> (r: u16)
    ensures
        r == crc_x25(data@),
{
    crc16::State::<crc16::X_25>::calculate(data)
}

/// The command code of a request, sent in byte 1 of its frame.
pub open spec fn command_code(req: Request) -> u8 {
    match req {
        Request::State => 50,
        Request::PartNumber => 52,
        Request::Version => 58,
        Request::Measure { .. } => 59,
        Request::SerialNumber => 63,
        Request::ManufactureDate => 65,
        Request::CumulativeEnergy(_) => 78,
    }
}

/// Byte 2 of a request frame: the measurement-type code for `Measure`,
/// the duration code for `CumulativeEnergy`, zero otherwise.
pub open spec fn request_byte2(req: Request) -> u8 {
    match req {
        Request::Measure { type_, .. } => type_.as_code(),
        Request::CumulativeEnergy(d) => d.as_code(),
        _ => 0,
    }
}

/// Byte 3 of a request frame: the global flag for `Measure`, zero
/// otherwise.
pub open spec fn request_byte3(req: Request) -> u8 {
    match req {
        Request::Measure { global, .. } => if global { 1 } else { 0 },
        _ => 0,
    }
}

/// The 8 payload bytes of a request frame, before the CRC is appended.
pub open spec fn request_payload(addr: u8, req: Request) -> Seq<u8> {
    seq![addr, command_code(req), request_byte2(req), request_byte3(req), 0, 0, 0, 0]
}

/// The full 10-byte request frame: payload, then the CRC of the payload,
/// low byte first.
pub open spec fn request_frame(addr: u8, req: Request) -> Seq<u8> {
    let payload = request_payload(addr, req);
    let crc = crc_x25(payload);
    payload + seq![(crc % 256) as u8, (crc / 256) as u8]
}

/// Whether an 8-byte response frame's trailing CRC matches the CRC
/// computed over its 6 payload bytes.
pub open spec fn checksum_ok(frame: Seq<u8>) -> bool
    recommends
        frame.len() == 8,
{
    let crc = crc_x25(frame.take(6));
    frame[6] == (crc % 256) as u8 && frame[7] == (crc / 256) as u8
}

/// The well-formed 8-byte response frame carrying 6 payload bytes: the
/// payload followed by its CRC, low byte first.
pub open spec fn response_frame(data: Seq<u8>) -> Seq<u8>
    recommends
        data.len() == 6,
{
    let crc = crc_x25(data);
    data + seq![(crc % 256) as u8, (crc / 256) as u8]
}

/// A well-formed response frame always passes the checksum comparison, so
/// decoding it reaches the payload interpretation.
pub proof fn lemma_response_frame_checksum_ok(data: Seq<u8>)
    requires
        data.len() == 6,
    ensures
        checksum_ok(response_frame(data)),
        response_frame(data).take(6) == data,
        response_frame(data).len() == 8,
{
    assert(response_frame(data).take(6) =~= data);
}

/// The big-endian 32-bit value read from four bytes.
pub open spec fn be_u32(b0: u8, b1: u8, b2: u8, b3: u8) -> u32 {
    ((b0 as int) * 0x1000000 + (b1 as int) * 0x10000 + (b2 as int) * 0x100 + (b3 as int)) as u32
}

/// Read a big-endian 32-bit value from four bytes.
pub fn read_be_u32(b0: u8, b1: u8, b2: u8, b3: u8) -> (r: u32)
    ensures
        r == be_u32(b0, b1, b2, b3),
{
    (b0 as u32) * 0x1000000 + (b1 as u32) * 0x10000 + (b2 as u32) * 0x100 + (b3 as u32)
}

/// How the 6 payload bytes of a response frame are interpreted against the
/// pending request. The only possible failure is a status byte outside its
/// enumerated legal set, reported with the first offending raw byte.
pub open spec fn parse_response(req: Request, data: Seq<u8>) -> Result<Response, ProtocolError>
    recommends
        data.len() == 6,
{
    match req {
        Request::State => match (
            TransmissionState::from_code(data[0]),
            GlobalState::from_code(data[1]),
            InverterState::from_code(data[2]),
            DcDcState::from_code(data[3]),
            DcDcState::from_code(data[4]),
        ) {
            (None, _, _, _, _) => Err(ProtocolError::UnknownStateCode { raw: data[0] }),
            (Some(_), None, _, _, _) => Err(ProtocolError::UnknownStateCode { raw: data[1] }),
            (Some(_), Some(_), None, _, _) => Err(ProtocolError::UnknownStateCode { raw: data[2] }),
            (Some(_), Some(_), Some(_), None, _) => Err(
                ProtocolError::UnknownStateCode { raw: data[3] },
            ),
            (Some(_), Some(_), Some(_), Some(_), None) => Err(
                ProtocolError::UnknownStateCode { raw: data[4] },
            ),
            (Some(trans), Some(global), Some(inverter), Some(dc1), Some(dc2)) => Ok(
                Response::State { trans, global, inverter, dc1, dc2, alarm: data[5] },
            ),
        },
        Request::PartNumber => Ok(
            Response::PartNumber([data[0], data[1], data[2], data[3], data[4], data[5]]),
        ),
        Request::Version => match (
            TransmissionState::from_code(data[0]),
            GlobalState::from_code(data[1]),
        ) {
            (None, _) => Err(ProtocolError::UnknownStateCode { raw: data[0] }),
            (Some(_), None) => Err(ProtocolError::UnknownStateCode { raw: data[1] }),
            (Some(trans), Some(global)) => Ok(
                Response::Version {
                    trans,
                    global,
                    par1: data[2],
                    par2: data[3],
                    par3: data[4],
                    par4: data[5],
                },
            ),
        },
        Request::Measure { type_, .. } => match (
            TransmissionState::from_code(data[0]),
            GlobalState::from_code(data[1]),
        ) {
            (None, _) => Err(ProtocolError::UnknownStateCode { raw: data[0] }),
            (Some(_), None) => Err(ProtocolError::UnknownStateCode { raw: data[1] }),
            (Some(trans), Some(global)) => Ok(
                Response::Measure {
                    trans,
                    global,
                    val_bits: be_u32(data[2], data[3], data[4], data[5]),
                    type_,
                },
            ),
        },
        Request::SerialNumber => Ok(
            Response::SerialNumber([data[0], data[1], data[2], data[3], data[4], data[5]]),
        ),
        Request::ManufactureDate => match (
            TransmissionState::from_code(data[0]),
            GlobalState::from_code(data[1]),
        ) {
            (None, _) => Err(ProtocolError::UnknownStateCode { raw: data[0] }),
            (Some(_), None) => Err(ProtocolError::UnknownStateCode { raw: data[1] }),
            (Some(trans), Some(global)) => Ok(
                Response::ManufactureDate {
                    trans,
                    global,
                    week: [data[2], data[3]],
                    year: [data[4], data[5]],
                },
            ),
        },
        Request::CumulativeEnergy(duration) => match (
            TransmissionState::from_code(data[0]),
            GlobalState::from_code(data[1]),
        ) {
            (None, _) => Err(ProtocolError::UnknownStateCode { raw: data[0] }),
            (Some(_), None) => Err(ProtocolError::UnknownStateCode { raw: data[1] }),
            (Some(trans), Some(global)) => Ok(
                Response::CumulativeEnergy {
                    trans,
                    global,
                    value: be_u32(data[2], data[3], data[4], data[5]),
                    duration,
                },
            ),
        },
    }
}

/// Interpret the 6 payload bytes of a CRC-checked response frame against
/// the request they answer.
pub fn parse_payload(req: Request, data: &[u8]) -> (r: Result<Response, ProtocolError>)
    requires
        data@.len() == 6,
    ensures
        r == parse_response(req, data@),
{
    let d0 = data[0];
    let d1 = data[1];
    let d2 = data[2];
    let d3 = data[3];
    let d4 = data[4];
    let d5 = data[5];
    match req {
        Request::State => match TransmissionState::from_u8(d0) {
            None => Err(ProtocolError::UnknownStateCode { raw: d0 }),
            Some(trans) => match GlobalState::from_u8(d1) {
                None => Err(ProtocolError::UnknownStateCode { raw: d1 }),
                Some(global) => match InverterState::from_u8(d2) {
                    None => Err(ProtocolError::UnknownStateCode { raw: d2 }),
                    Some(inverter) => match DcDcState::from_u8(d3) {
                        None => Err(ProtocolError::UnknownStateCode { raw: d3 }),
                        Some(dc1) => match DcDcState::from_u8(d4) {
                            None => Err(ProtocolError::UnknownStateCode { raw: d4 }),
                            Some(dc2) => Ok(
                                Response::State { trans, global, inverter, dc1, dc2, alarm: d5 },
                            ),
                        },
                    },
                },
            },
        },
        Request::PartNumber => Ok(Response::PartNumber([d0, d1, d2, d3, d4, d5])),
        Request::Version => match TransmissionState::from_u8(d0) {
            None => Err(ProtocolError::UnknownStateCode { raw: d0 }),
            Some(trans) => match GlobalState::from_u8(d1) {
                None => Err(ProtocolError::UnknownStateCode { raw: d1 }),
                Some(global) => Ok(
                    Response::Version { trans, global, par1: d2, par2: d3, par3: d4, par4: d5 },
                ),
            },
        },
        Request::Measure { type_, .. } => match TransmissionState::from_u8(d0) {
            None => Err(ProtocolError::UnknownStateCode { raw: d0 }),
            Some(trans) => match GlobalState::from_u8(d1) {
                None => Err(ProtocolError::UnknownStateCode { raw: d1 }),
                Some(global) => Ok(
                    Response::Measure {
                        trans,
                        global,
                        val_bits: read_be_u32(d2, d3, d4, d5),
                        type_,
                    },
                ),
            },
        },
        Request::SerialNumber => Ok(Response::SerialNumber([d0, d1, d2, d3, d4, d5])),
        Request::ManufactureDate => match TransmissionState::from_u8(d0) {
            None => Err(ProtocolError::UnknownStateCode { raw: d0 }),
            Some(trans) => match GlobalState::from_u8(d1) {
                None => Err(ProtocolError::UnknownStateCode { raw: d1 }),
                Some(global) => Ok(
                    Response::ManufactureDate { trans, global, week: [d2, d3], year: [d4, d5] },
                ),
            },
        },
        Request::CumulativeEnergy(duration) => match TransmissionState::from_u8(d0) {
            None => Err(ProtocolError::UnknownStateCode { raw: d0 }),
            Some(trans) => match GlobalState::from_u8(d1) {
                None => Err(ProtocolError::UnknownStateCode { raw: d1 }),
                Some(global) => Ok(
                    Response::CumulativeEnergy {
                        trans,
                        global,
                        value: read_be_u32(d2, d3, d4, d5),
                        duration,
                    },
                ),
            },
        },
    }
}

/// Whether every status byte that the response layout for `req` reads out
/// of `data` lies in its enumerated legal set.
pub open spec fn response_codes_legal(req: Request, data: Seq<u8>) -> bool
    recommends
        data.len() == 6,
{
    match req {
        Request::State => {
            &&& TransmissionState::from_code(data[0]) is Some
            &&& GlobalState::from_code(data[1]) is Some
            &&& InverterState::from_code(data[2]) is Some
            &&& DcDcState::from_code(data[3]) is Some
            &&& DcDcState::from_code(data[4]) is Some
        },
        Request::PartNumber | Request::SerialNumber => true,
        _ => {
            &&& TransmissionState::from_code(data[0]) is Some
            &&& GlobalState::from_code(data[1]) is Some
        },
    }
}

/// Whether a decoded response's fields reproduce exactly the payload bytes
/// they were read from, answering `req`.
pub open spec fn response_matches_payload(req: Request, data: Seq<u8>, resp: Response) -> bool
    recommends
        data.len() == 6,
{
    match resp {
        Response::State { trans, global, inverter, dc1, dc2, alarm } => {
            &&& req == Request::State
            &&& trans.as_code() == data[0]
            &&& global.as_code() == data[1]
            &&& inverter.as_code() == data[2]
            &&& dc1.as_code() == data[3]
            &&& dc2.as_code() == data[4]
            &&& alarm == data[5]
        },
        Response::PartNumber(b) => {
            &&& req == Request::PartNumber
            &&& b[0] == data[0] && b[1] == data[1] && b[2] == data[2]
            &&& b[3] == data[3] && b[4] == data[4] && b[5] == data[5]
        },
        Response::Version { trans, global, par1, par2, par3, par4 } => {
            &&& req == Request::Version
            &&& trans.as_code() == data[0]
            &&& global.as_code() == data[1]
            &&& par1 == data[2] && par2 == data[3] && par3 == data[4] && par4 == data[5]
        },
        Response::Measure { trans, global, val_bits, type_ } => {
            &&& (req matches Request::Measure { type_: t, .. } && t == type_)
            &&& trans.as_code() == data[0]
            &&& global.as_code() == data[1]
            &&& val_bits == be_u32(data[2], data[3], data[4], data[5])
        },
        Response::SerialNumber(b) => {
            &&& req == Request::SerialNumber
            &&& b[0] == data[0] && b[1] == data[1] && b[2] == data[2]
            &&& b[3] == data[3] && b[4] == data[4] && b[5] == data[5]
        },
        Response::ManufactureDate { trans, global, week, year } => {
            &&& req == Request::ManufactureDate
            &&& trans.as_code() == data[0]
            &&& global.as_code() == data[1]
            &&& week[0] == data[2] && week[1] == data[3]
            &&& year[0] == data[4] && year[1] == data[5]
        },
        Response::CumulativeEnergy { trans, global, value, duration } => {
            &&& req == Request::CumulativeEnergy(duration)
            &&& trans.as_code() == data[0]
            &&& global.as_code() == data[1]
            &&& value == be_u32(data[2], data[3], data[4], data[5])
        },
    }
}

/// Round trip: for every request variant and every legal payload byte
/// combination, interpreting the payload against the request succeeds and
/// yields a response whose fields equal the original payload bytes.
pub proof fn lemma_parse_round_trip(req: Request, data: Seq<u8>)
    requires
        data.len() == 6,
        response_codes_legal(req, data),
    ensures
        parse_response(req, data) is Ok,
        response_matches_payload(req, data, parse_response(req, data)->Ok_0),
{
}

/// Unknown-code law: interpreting a payload fails exactly when some status
/// byte that its layout reads lies outside its legal set, the failure is
/// always `UnknownStateCode`, and it reports the first offending byte —
/// an illegal code is never silently replaced by a default.
pub proof fn lemma_parse_classifies(req: Request, data: Seq<u8>)
    requires
        data.len() == 6,
    ensures
        parse_response(req, data) is Ok <==> response_codes_legal(req, data),
        !response_codes_legal(req, data) ==> parse_response(req, data) matches Err(
            ProtocolError::UnknownStateCode { raw },
        ),
{
}

/// The protocol session: the frame codec together with the one pending
/// request that fixes how the next response frame is interpreted.
pub struct AuroraCodec {
    last_request: Option<Request>,
}

impl AuroraCodec {
    /// The request whose response is still owed, if any. At most one
    /// request is pending at any time.
    pub closed spec fn pending(&self) -> Option<Request> {
        self.last_request
    }

    /// A fresh session with no request pending.
    pub fn new() -> (r: AuroraCodec)
        ensures
            r.pending() is None,
    {
        AuroraCodec { last_request: None }
    }

    /// Encode a request into its 10-byte frame, appended to `buf`, and
    /// record it as the new pending request, replacing any previous one.
    pub fn encode(&mut self, addr: u8, msg: Request, buf: &mut Vec<u8>)
        ensures
            final(buf)@ == old(buf)@ + request_frame(addr, msg),
            final(self).pending() == Some(msg),
    {
        let mut frame: Vec<u8> = Vec::new();
        frame.push(addr);
        match msg {
            Request::State => {
                frame.push(50);
                frame.push(0);
                frame.push(0);
            },
            Request::PartNumber => {
                frame.push(52);
                frame.push(0);
                frame.push(0);
            },
            Request::Version => {
                frame.push(58);
                frame.push(0);
                frame.push(0);
            },
            Request::Measure { type_, global } => {
                frame.push(59);
                frame.push(type_.code());
                frame.push(if global { 1 } else { 0 });
            },
            Request::SerialNumber => {
                frame.push(63);
                frame.push(0);
                frame.push(0);
            },
            Request::ManufactureDate => {
                frame.push(65);
                frame.push(0);
                frame.push(0);
            },
            Request::CumulativeEnergy(duration) => {
                frame.push(78);
                frame.push(duration.code());
                frame.push(0);
            },
        }
        frame.push(0);
        frame.push(0);
        frame.push(0);
        frame.push(0);
        assert(frame@ =~= request_payload(addr, msg));
        let crc = crc16_x25(frame.as_slice());
        let crc_lo = lo(crc);
        let crc_hi = hi(crc);
        frame.push(crc_lo);
        frame.push(crc_hi);
        assert(frame@ =~= request_frame(addr, msg));
        self.last_request = Some(msg);
        buf.append(&mut frame);
    }

    /// Decode one response frame from the front of `buf`.
    ///
    /// With fewer than 8 bytes available nothing is consumed and `Ok(None)`
    /// is returned; the call is idempotent until more bytes arrive. Once 8
    /// bytes are available exactly 8 are consumed, whatever the outcome: a
    /// frame that fails its CRC check is discarded. On a CRC match the
    /// payload is interpreted against the pending request, which is cleared
    /// by the attempt; with no request pending the frame is a protocol
    /// desynchronization.
    pub fn decode(&mut self, buf: &mut Vec<u8>) -> (r: Result<Option<Response>, ProtocolError>)
        ensures
            old(buf)@.len() < 8 ==> {
                &&& r == Ok::<Option<Response>, ProtocolError>(None)
                &&& final(buf)@ == old(buf)@
                &&& final(self).pending() == old(self).pending()
            },
            old(buf)@.len() >= 8 ==> {
                let frame = old(buf)@.take(8);
                &&& final(buf)@ == old(buf)@.skip(8)
                &&& !checksum_ok(frame) ==> {
                    &&& r == Err::<Option<Response>, ProtocolError>(ProtocolError::CrcMismatch)
                    &&& final(self).pending() == old(self).pending()
                }
                &&& checksum_ok(frame) && old(self).pending() is None ==> r == Err::<
                    Option<Response>,
                    ProtocolError,
                >(ProtocolError::UnexpectedResponse)
                &&& (checksum_ok(frame) && old(self).pending() is Some) ==> {
                    let req = old(self).pending()->0;
                    &&& final(self).pending() is None
                    &&& match parse_response(req, frame.take(6)) {
                        Ok(resp) => r == Ok::<Option<Response>, ProtocolError>(Some(resp)),
                        Err(e) => r == Err::<Option<Response>, ProtocolError>(e),
                    }
                }
            },
    {
        if buf.len() < 8 {
            return Ok(None);
        }
        let ghost orig = buf@;
        let b6 = buf[6];
        let b7 = buf[7];
        let crc = crc16_x25(slice_subrange(buf.as_slice(), 0, 6));
        proof {
            assert(orig.subrange(0, 6) =~= orig.take(8).take(6));
        }
        let result: Result<Option<Response>, ProtocolError> = if b6 != lo(crc) || b7 != hi(crc) {
            Err(ProtocolError::CrcMismatch)
        } else {
            match self.last_request {
                None => Err(ProtocolError::UnexpectedResponse),
                Some(req) => {
                    self.last_request = None;
                    match parse_payload(req, slice_subrange(buf.as_slice(), 0, 6)) {
                        Ok(resp) => Ok(Some(resp)),
                        Err(e) => Err(e),
                    }
                },
            }
        };
        let mut rest: Vec<u8> = Vec::new();
        let mut i: usize = 8;
        while i < buf.len()
            invariant
                buf@ == orig,
                8 <= i <= orig.len(),
                rest@ == orig.subrange(8, i as int),
            decreases orig.len() - i,
        {
            rest.push(buf[i]);
            i += 1;
        }
        proof {
            assert(rest@ =~= orig.skip(8));
        }
        *buf = rest;
        result
    }
}

} // verus!
