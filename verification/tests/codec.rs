use wrc::codec::{decode, encode, DecodeError, Decoded, Policy, FLAG_OFFSET, PACKET_SIZE, WIRE_SIZE};
use wrc::errors::WrcError;
use wrc::Packet;

fn sample() -> Packet {
    let mut p = Packet::default();
    p.packet_uid = 0x0102_0304_0506_0708;
    p.game_total_time = 1.0f32.to_bits();
    p.game_delta_time = 0.016f32.to_bits();
    p.game_frame_count = 4242;
    p.shiftlights_fraction = 0.75f32.to_bits();
    p.shiftlights_rpm_start = 5000.0f32.to_bits();
    p.shiftlights_rpm_end = 7000.0f32.to_bits();
    p.shiftlights_rpm_valid = true;
    p.vehicle_gear_index = 3;
    p.vehicle_gear_index_neutral = 0;
    p.vehicle_gear_index_reverse = 10;
    p.vehicle_gear_maximum = 6;
    p.vehicle_speed = 33.5f32.to_bits();
    p.vehicle_position_x = (-12.25f32).to_bits();
    p.vehicle_position_y = 104.0f32.to_bits();
    p.vehicle_position_z = 7.5f32.to_bits();
    p.vehicle_velocity_z = 30.0f32.to_bits();
    p.vehicle_brake_temperature_fr = 412.0f32.to_bits();
    p.vehicle_engine_rpm_max = 8000.0f32.to_bits();
    p.vehicle_engine_rpm_idle = 900.0f32.to_bits();
    p.vehicle_engine_rpm_current = 6100.0f32.to_bits();
    p.vehicle_throttle = 0.999f32.to_bits();
    p.vehicle_steering = (-0.25f32).to_bits();
    p.stage_current_time = 924.497f32.to_bits();
    p.stage_current_distance = 1234.5678f64.to_bits();
    p.stage_length = 9876.54321f64.to_bits();
    p
}

#[test]
fn wire_size_is_the_sum_of_the_field_widths() {
    assert_eq!(WIRE_SIZE, 2 * 8 + 50 * 4 + 5 + 2 * 8);
    assert_eq!(PACKET_SIZE, 240);
    assert_eq!(encode(&sample()).len(), WIRE_SIZE);
}

#[test]
fn default_is_all_zero() {
    let p = Packet::default();
    assert_eq!(p.packet_uid, 0);
    assert!(!p.shiftlights_rpm_valid);
    assert_eq!(p.stage_length, 0);
    assert_eq!(encode(&p), vec![0u8; WIRE_SIZE]);
}

#[test]
fn encode_lays_fields_out_little_endian() {
    let bytes = encode(&sample());
    assert_eq!(&bytes[0..8], &[0x08, 0x07, 0x06, 0x05, 0x04, 0x03, 0x02, 0x01]);
    assert_eq!(&bytes[8..12], &1.0f32.to_le_bytes());
    assert_eq!(&bytes[16..24], &4242u64.to_le_bytes());
    assert_eq!(bytes[FLAG_OFFSET], 1);
    assert_eq!(&bytes[37..41], &[3, 0, 10, 6]);
    assert_eq!(&bytes[49..53], &(-12.25f32).to_le_bytes());
    assert_eq!(&bytes[217..221], &924.497f32.to_le_bytes());
    assert_eq!(&bytes[221..229], &1234.5678f64.to_le_bytes());
    assert_eq!(&bytes[229..237], &9876.54321f64.to_le_bytes());
}

#[test]
fn decode_reads_fields_at_their_offsets() {
    let mut buf = vec![0u8; WIRE_SIZE];
    buf[0..8].copy_from_slice(&77u64.to_le_bytes());
    buf[36] = 1;
    buf[40] = 5;
    buf[193..197].copy_from_slice(&6100.0f32.to_le_bytes());
    buf[229..237].copy_from_slice(&2.5f64.to_le_bytes());
    let d = decode(&buf, Policy::Strict).unwrap();
    assert!(!d.malformed);
    assert_eq!(d.packet.packet_uid, 77);
    assert!(d.packet.shiftlights_rpm_valid);
    assert_eq!(d.packet.vehicle_gear_maximum, 5);
    assert_eq!(f32::from_bits(d.packet.vehicle_engine_rpm_current), 6100.0);
    assert_eq!(f64::from_bits(d.packet.stage_length), 2.5);
    assert_eq!(d.packet.vehicle_speed, 0);
}

#[test]
fn round_trip_strict_and_lenient() {
    let p = sample();
    let bytes = encode(&p);
    assert_eq!(decode(&bytes, Policy::Strict), Ok(Decoded { packet: p, malformed: false }));
    assert_eq!(decode(&bytes, Policy::Lenient), Ok(Decoded { packet: p, malformed: false }));
    assert_eq!(encode(&decode(&bytes, Policy::Strict).unwrap().packet), bytes);
}

#[test]
fn round_trip_of_the_empty_record() {
    let p = Packet::default();
    assert_eq!(decode(&encode(&p), Policy::Strict).unwrap().packet, p);
}

#[test]
fn short_buffers_are_truncated() {
    let bytes = encode(&sample());
    for n in [0usize, 1, 8, 36, 100, 236] {
        assert_eq!(decode(&bytes[..n], Policy::Strict), Err(DecodeError::Truncated));
        assert_eq!(decode(&bytes[..n], Policy::Lenient), Err(DecodeError::Truncated));
    }
    assert!(decode(&bytes[..237], Policy::Strict).is_ok());
}

#[test]
fn trailing_bytes_are_ignored() {
    let p = sample();
    let mut buf = [0xAAu8; PACKET_SIZE];
    buf[..WIRE_SIZE].copy_from_slice(&encode(&p));
    assert_eq!(decode(&buf, Policy::Strict).unwrap().packet, p);
    assert_eq!(Packet::try_from(&buf), Ok(p));
}

#[test]
fn nan_position_strict_and_lenient() {
    let mut p = sample();
    p.vehicle_position_y = f32::NAN.to_bits();
    let bytes = encode(&p);
    assert_eq!(decode(&bytes, Policy::Strict), Err(DecodeError::Malformed));
    assert_eq!(decode(&bytes, Policy::Lenient), Ok(Decoded { packet: p, malformed: true }));
    let mut buf = [0u8; PACKET_SIZE];
    buf[..WIRE_SIZE].copy_from_slice(&bytes);
    assert_eq!(Packet::try_from(&buf), Err(DecodeError::Malformed));
}

#[test]
fn infinite_velocity_and_rotation_rate_are_malformed() {
    let mut p = sample();
    p.vehicle_velocity_x = f32::INFINITY.to_bits();
    assert_eq!(decode(&encode(&p), Policy::Strict), Err(DecodeError::Malformed));
    let mut q = sample();
    q.vehicle_engine_rpm_idle = f32::NEG_INFINITY.to_bits();
    assert_eq!(decode(&encode(&q), Policy::Strict), Err(DecodeError::Malformed));
    assert!(!q.is_all_finite());
    assert!(sample().is_all_finite());
}

#[test]
fn nan_outside_the_finite_fields_passes() {
    let mut p = sample();
    p.vehicle_acceleration_x = f32::NAN.to_bits();
    p.vehicle_throttle = f32::INFINITY.to_bits();
    assert_eq!(
        decode(&encode(&p), Policy::Strict),
        Ok(Decoded { packet: p, malformed: false })
    );
}

#[test]
fn improper_flag_byte_is_malformed() {
    let mut bytes = encode(&sample());
    bytes[FLAG_OFFSET] = 2;
    assert_eq!(decode(&bytes, Policy::Strict), Err(DecodeError::Malformed));
    assert_eq!(decode(&bytes, Policy::Lenient), Err(DecodeError::Malformed));
    bytes[FLAG_OFFSET] = 0;
    assert!(!decode(&bytes, Policy::Strict).unwrap().packet.shiftlights_rpm_valid);
}

#[test]
fn error_wraps_the_codec_error() {
    let e = WrcError::decoding(DecodeError::Truncated);
    assert_eq!(e.message(), "Could not decode the packet.");
    assert_eq!(e.source(), DecodeError::Truncated);
    match e {
        WrcError::DecodingError { msg, source } => {
            assert_eq!(msg, "the buffer is shorter than one record");
            assert_eq!(source, DecodeError::Truncated);
        }
    }
    match WrcError::decoding(DecodeError::Malformed) {
        WrcError::DecodingError { msg, source } => {
            assert_eq!(msg, "a value that has to be finite is not, or the flag is not a flag");
            assert_eq!(source, DecodeError::Malformed);
        }
    }
}

#[test]
fn decoding_and_encoding_gives_the_bytes_back() {
    let mut state: u32 = 0x1234_5678;
    for _ in 0..50 {
        let mut buf = [0u8; PACKET_SIZE];
        for b in buf.iter_mut() {
            state = state.wrapping_mul(1_664_525).wrapping_add(1_013_904_223);
            *b = (state >> 24) as u8;
        }
        buf[FLAG_OFFSET] &= 1;
        let d = decode(&buf, Policy::Lenient).unwrap();
        assert_eq!(d.malformed, !d.packet.is_all_finite());
        assert_eq!(encode(&d.packet), &buf[..WIRE_SIZE]);
    }
}
