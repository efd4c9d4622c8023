use aurora_rs::codec::parse_payload;
use aurora_rs::codec::read_be_u32;
use aurora_rs::hi;
use aurora_rs::lo;
use aurora_rs::AuroraCodec;
use aurora_rs::CumulativeDuration;
use aurora_rs::DcDcState;
use aurora_rs::GlobalState;
use aurora_rs::InverterState;
use aurora_rs::MeasurementType;
use aurora_rs::ProtocolError;
use aurora_rs::Request;
use aurora_rs::Response;
use aurora_rs::TransmissionState;

use byteorder::BigEndian;
use byteorder::ByteOrder;

fn crc(data: &[u8]) -> u16 {
    crc16::State::<crc16::X_25>::calculate(data)
}

/// An 8-byte response frame carrying the given 6 payload bytes.
fn response_frame(payload: [u8; 6]) -> Vec<u8> {
    let c = crc(&payload);
    let mut frame = payload.to_vec();
    frame.push((c & 0xFF) as u8);
    frame.push((c >> 8) as u8);
    frame
}

#[test]
fn it_works() {}

#[test]
fn lo_hi_split_a_word() {
    assert_eq!(lo(0xABCD), 0xCD);
    assert_eq!(hi(0xABCD), 0xAB);
    assert_eq!(lo(0x00FF), 0xFF);
    assert_eq!(hi(0x00FF), 0x00);
}

#[test]
fn encode_measure_wire_bytes() {
    let mut codec = AuroraCodec::new();
    let mut buf = Vec::new();
    codec.encode(
        2,
        Request::Measure { type_: MeasurementType::Input1Voltage, global: true },
        &mut buf,
    );
    let expected_payload = [2u8, 59, 23, 1, 0, 0, 0, 0];
    let c = crc(&expected_payload);
    let mut expected = expected_payload.to_vec();
    expected.push((c & 0xFF) as u8);
    expected.push((c >> 8) as u8);
    assert_eq!(buf, expected);
}

#[test]
fn end_to_end_measure_example() {
    let mut codec = AuroraCodec::new();
    let mut buf = Vec::new();
    codec.encode(
        2,
        Request::Measure { type_: MeasurementType::Input1Voltage, global: true },
        &mut buf,
    );
    assert_eq!(&buf[0..8], &[2, 59, 23, 1, 0, 0, 0, 0]);

    let mut wire = response_frame([6, 6, 0x41, 0x20, 0x00, 0x00]);
    let decoded = codec.decode(&mut wire).unwrap().unwrap();
    match decoded {
        Response::Measure { trans, global, val_bits, type_ } => {
            assert_eq!(trans, TransmissionState::Busy);
            assert_eq!(global, GlobalState::Run);
            assert_eq!(type_, MeasurementType::Input1Voltage);
            assert_eq!(val_bits, 0x41200000);
            assert_eq!(f32::from_bits(val_bits), 10.0);
        }
        other => panic!("wrong variant: {:?}", other),
    }
    assert!(wire.is_empty());
}

#[test]
fn round_trip_state() {
    let mut codec = AuroraCodec::new();
    let mut buf = Vec::new();
    codec.encode(1, Request::State, &mut buf);
    assert_eq!(&buf[0..8], &[1, 50, 0, 0, 0, 0, 0, 0]);

    let mut wire = response_frame([0, 6, 2, 2, 0, 17]);
    let decoded = codec.decode(&mut wire).unwrap().unwrap();
    assert_eq!(
        decoded,
        Response::State {
            trans: TransmissionState::Okay,
            global: GlobalState::Run,
            inverter: InverterState::Run,
            dc1: DcDcState::PowerOk,
            dc2: DcDcState::Off,
            alarm: 17,
        }
    );
}

#[test]
fn round_trip_part_number() {
    let mut codec = AuroraCodec::new();
    let mut buf = Vec::new();
    codec.encode(3, Request::PartNumber, &mut buf);
    assert_eq!(&buf[0..8], &[3, 52, 0, 0, 0, 0, 0, 0]);

    let mut wire = response_frame([b'-', b'3', b'G', b'7', b'6', b'-']);
    let decoded = codec.decode(&mut wire).unwrap().unwrap();
    assert_eq!(decoded, Response::PartNumber([b'-', b'3', b'G', b'7', b'6', b'-']));
}

#[test]
fn round_trip_version() {
    let mut codec = AuroraCodec::new();
    let mut buf = Vec::new();
    codec.encode(2, Request::Version, &mut buf);
    assert_eq!(&buf[0..8], &[2, 58, 0, 0, 0, 0, 0, 0]);

    let mut wire = response_frame([0, 6, b'i', b'o', b'n', b'n']);
    let decoded = codec.decode(&mut wire).unwrap().unwrap();
    assert_eq!(
        decoded,
        Response::Version {
            trans: TransmissionState::Okay,
            global: GlobalState::Run,
            par1: b'i',
            par2: b'o',
            par3: b'n',
            par4: b'n',
        }
    );
}

#[test]
fn round_trip_serial_number() {
    let mut codec = AuroraCodec::new();
    let mut buf = Vec::new();
    codec.encode(2, Request::SerialNumber, &mut buf);
    assert_eq!(&buf[0..8], &[2, 63, 0, 0, 0, 0, 0, 0]);

    let mut wire = response_frame([b'1', b'2', b'3', b'4', b'5', b'6']);
    let decoded = codec.decode(&mut wire).unwrap().unwrap();
    assert_eq!(decoded, Response::SerialNumber([b'1', b'2', b'3', b'4', b'5', b'6']));
}

#[test]
fn round_trip_manufacture_date() {
    let mut codec = AuroraCodec::new();
    let mut buf = Vec::new();
    codec.encode(2, Request::ManufactureDate, &mut buf);
    assert_eq!(&buf[0..8], &[2, 65, 0, 0, 0, 0, 0, 0]);

    let mut wire = response_frame([0, 6, b'2', b'4', b'1', b'9']);
    let decoded = codec.decode(&mut wire).unwrap().unwrap();
    assert_eq!(
        decoded,
        Response::ManufactureDate {
            trans: TransmissionState::Okay,
            global: GlobalState::Run,
            week: [b'2', b'4'],
            year: [b'1', b'9'],
        }
    );
}

#[test]
fn round_trip_cumulative_energy() {
    let mut codec = AuroraCodec::new();
    let mut buf = Vec::new();
    codec.encode(2, Request::CumulativeEnergy(CumulativeDuration::Daily), &mut buf);
    assert_eq!(&buf[0..8], &[2, 78, 0, 0, 0, 0, 0, 0]);

    let mut wire = response_frame([0, 6, 0x00, 0x01, 0xE2, 0x40]);
    let decoded = codec.decode(&mut wire).unwrap().unwrap();
    assert_eq!(
        decoded,
        Response::CumulativeEnergy {
            trans: TransmissionState::Okay,
            global: GlobalState::Run,
            value: 123456,
            duration: CumulativeDuration::Daily,
        }
    );
}

#[test]
fn duration_codes_on_the_wire() {
    let cases = [
        (CumulativeDuration::Daily, 0u8),
        (CumulativeDuration::Weekly, 1),
        (CumulativeDuration::Monthly, 3),
        (CumulativeDuration::Yearly, 4),
        (CumulativeDuration::Total, 5),
        (CumulativeDuration::SinceReset, 6),
    ];
    for (duration, code) in cases {
        let mut codec = AuroraCodec::new();
        let mut buf = Vec::new();
        codec.encode(2, Request::CumulativeEnergy(duration), &mut buf);
        assert_eq!(&buf[0..8], &[2, 78, code, 0, 0, 0, 0, 0]);
    }
}

#[test]
fn decode_needs_eight_bytes() {
    let mut codec = AuroraCodec::new();
    let mut sent = Vec::new();
    codec.encode(2, Request::PartNumber, &mut sent);

    let frame = response_frame([1, 2, 3, 4, 5, 6]);
    let mut buf = frame[0..7].to_vec();
    // Repeated calls on a short buffer consume nothing.
    assert_eq!(codec.decode(&mut buf), Ok(None));
    assert_eq!(codec.decode(&mut buf), Ok(None));
    assert_eq!(buf, &frame[0..7]);

    buf.push(frame[7]);
    let decoded = codec.decode(&mut buf).unwrap().unwrap();
    assert_eq!(decoded, Response::PartNumber([1, 2, 3, 4, 5, 6]));
    assert!(buf.is_empty());
}

#[test]
fn decode_consumes_exactly_eight_bytes() {
    let mut codec = AuroraCodec::new();
    let mut sent = Vec::new();
    codec.encode(2, Request::SerialNumber, &mut sent);

    let mut buf = response_frame([9, 9, 9, 9, 9, 9]);
    buf.push(0xAA);
    buf.push(0xBB);
    let decoded = codec.decode(&mut buf).unwrap().unwrap();
    assert_eq!(decoded, Response::SerialNumber([9, 9, 9, 9, 9, 9]));
    assert_eq!(buf, vec![0xAA, 0xBB]);
}

#[test]
fn crc_single_bit_flips_are_caught() {
    let payload = [0u8, 6, 0x41, 0x20, 0x00, 0x00];
    let frame = response_frame(payload);
    for bit in 0..48 {
        let mut codec = AuroraCodec::new();
        let mut sent = Vec::new();
        codec.encode(
            2,
            Request::Measure { type_: MeasurementType::Input1Voltage, global: true },
            &mut sent,
        );
        let mut corrupted = frame.clone();
        corrupted[bit / 8] ^= 1 << (bit % 8);
        let r = codec.decode(&mut corrupted);
        assert_eq!(r, Err(ProtocolError::CrcMismatch), "bit {} not caught", bit);
        assert!(corrupted.is_empty(), "corrupted frame was not discarded");
    }
}

#[test]
fn crc_mismatch_keeps_pending_request() {
    let mut codec = AuroraCodec::new();
    let mut sent = Vec::new();
    codec.encode(2, Request::PartNumber, &mut sent);

    let mut bad = response_frame([1, 2, 3, 4, 5, 6]);
    bad[6] ^= 0xFF;
    assert_eq!(codec.decode(&mut bad), Err(ProtocolError::CrcMismatch));

    // The pending request survives a CRC failure: a later good frame
    // still decodes against it.
    let mut good = response_frame([1, 2, 3, 4, 5, 6]);
    let decoded = codec.decode(&mut good).unwrap().unwrap();
    assert_eq!(decoded, Response::PartNumber([1, 2, 3, 4, 5, 6]));
}

#[test]
fn re_encode_silently_replaces_pending() {
    let mut codec = AuroraCodec::new();
    let mut buf = Vec::new();
    codec.encode(2, Request::PartNumber, &mut buf);
    codec.encode(2, Request::SerialNumber, &mut buf);

    // The next response is interpreted against the later request.
    let mut wire = response_frame([7, 7, 7, 7, 7, 7]);
    let decoded = codec.decode(&mut wire).unwrap().unwrap();
    assert_eq!(decoded, Response::SerialNumber([7, 7, 7, 7, 7, 7]));
}

#[test]
fn encode_measure_global_flag_false() {
    let mut codec = AuroraCodec::new();
    let mut buf = Vec::new();
    codec.encode(4, Request::Measure { type_: MeasurementType::GridVoltage, global: false }, &mut buf);
    assert_eq!(&buf[0..8], &[4, 59, 1, 0, 0, 0, 0, 0]);
}

#[test]
fn response_without_request_is_rejected() {
    let mut codec = AuroraCodec::new();
    let mut wire = response_frame([0, 6, 0, 0, 0, 0]);
    assert_eq!(codec.decode(&mut wire), Err(ProtocolError::UnexpectedResponse));
}

#[test]
fn one_encode_allows_exactly_one_decode() {
    let mut codec = AuroraCodec::new();
    let mut sent = Vec::new();
    codec.encode(2, Request::SerialNumber, &mut sent);

    let mut first = response_frame([1, 1, 1, 1, 1, 1]);
    assert!(codec.decode(&mut first).unwrap().is_some());

    // The pending slot was cleared by the successful decode.
    let mut second = response_frame([1, 1, 1, 1, 1, 1]);
    assert_eq!(codec.decode(&mut second), Err(ProtocolError::UnexpectedResponse));
}

#[test]
fn unknown_transmission_state_code_fails() {
    let mut codec = AuroraCodec::new();
    let mut sent = Vec::new();
    codec.encode(2, Request::Version, &mut sent);

    let mut wire = response_frame([200, 6, 0, 0, 0, 0]);
    assert_eq!(codec.decode(&mut wire), Err(ProtocolError::UnknownStateCode { raw: 200 }));
}

#[test]
fn unknown_global_state_code_fails() {
    let mut codec = AuroraCodec::new();
    let mut sent = Vec::new();
    codec.encode(2, Request::CumulativeEnergy(CumulativeDuration::Daily), &mut sent);

    let mut wire = response_frame([0, 99, 0, 0, 0, 0]);
    assert_eq!(codec.decode(&mut wire), Err(ProtocolError::UnknownStateCode { raw: 99 }));
}

#[test]
fn unknown_state_codes_fail_per_position() {
    // A `State` response reads five status bytes; an illegal code in any
    // of them is reported, first offender wins.
    let cases: [([u8; 6], u8); 5] = [
        ([255, 6, 2, 2, 2, 0], 255),
        ([0, 250, 2, 2, 2, 0], 250),
        ([0, 6, 60, 2, 2, 0], 60),
        ([0, 6, 2, 101, 2, 0], 101),
        ([0, 6, 2, 2, 102, 0], 102),
    ];
    for (payload, raw) in cases {
        let mut codec = AuroraCodec::new();
        let mut sent = Vec::new();
        codec.encode(2, Request::State, &mut sent);
        let mut wire = response_frame(payload);
        assert_eq!(codec.decode(&mut wire), Err(ProtocolError::UnknownStateCode { raw }));
    }
}

#[test]
fn state_decoders_accept_only_legal_codes() {
    assert_eq!(TransmissionState::from_u8(0), Some(TransmissionState::Okay));
    assert_eq!(TransmissionState::from_u8(6), Some(TransmissionState::Busy));
    assert_eq!(TransmissionState::from_u8(58), Some(TransmissionState::VariableNotAvailable));
    assert_eq!(TransmissionState::from_u8(1), None);
    assert_eq!(TransmissionState::from_u8(59), None);

    assert_eq!(GlobalState::from_u8(6), Some(GlobalState::Run));
    assert_eq!(GlobalState::from_u8(16), Some(GlobalState::WaitingForManualReset));
    assert_eq!(GlobalState::from_u8(17), None);

    assert_eq!(InverterState::from_u8(2), Some(InverterState::Run));
    assert_eq!(InverterState::from_u8(17), Some(InverterState::IldTemperatureFail));
    assert_eq!(InverterState::from_u8(18), None);

    assert_eq!(DcDcState::from_u8(2), Some(DcDcState::PowerOk));
    assert_eq!(DcDcState::from_u8(12), Some(DcDcState::CommunicationError));
    assert_eq!(DcDcState::from_u8(13), None);
}

#[test]
fn measurement_type_codes() {
    assert_eq!(MeasurementType::GridVoltage.code(), 1);
    assert_eq!(MeasurementType::Input1Voltage.code(), 23);
    assert_eq!(MeasurementType::Input2Voltage.code(), 26);
    assert_eq!(MeasurementType::VPanelMicro.code(), 60);
}

#[test]
fn read_be_u32_matches_byteorder() {
    let samples: [[u8; 4]; 4] = [
        [0, 0, 0, 0],
        [0x41, 0x20, 0x00, 0x00],
        [0xDE, 0xAD, 0xBE, 0xEF],
        [0xFF, 0xFF, 0xFF, 0xFF],
    ];
    for s in samples {
        assert_eq!(read_be_u32(s[0], s[1], s[2], s[3]), BigEndian::read_u32(&s));
    }
}

#[test]
fn parse_payload_measure_is_big_endian_float() {
    let r = parse_payload(
        Request::Measure { type_: MeasurementType::GridPower, global: false },
        &[0, 6, 0x43, 0x48, 0x00, 0x00],
    );
    match r {
        Ok(Response::Measure { val_bits, type_, .. }) => {
            assert_eq!(f32::from_bits(val_bits), 200.0);
            assert_eq!(type_, MeasurementType::GridPower);
        }
        other => panic!("wrong result: {:?}", other),
    }
}
