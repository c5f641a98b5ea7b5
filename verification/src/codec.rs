//! The binary codec: packed little-endian bytes to a record and back.
//!
//! Fields follow one another without padding or length prefixes, in the
//! order in which `Packet` declares them. Integers are little-endian, a
//! floating-point scalar is the little-endian image of its bit pattern, and
//! the validity flag is one byte holding zero or one.

use vstd::prelude::*;
use crate::record::Packet;
use crate::roundtrip::lemma_parse_wire;

verus! {

/// The number of bytes that one record occupies on the wire.
pub const WIRE_SIZE: usize = 237;

/// The size of the datagram buffer that carries one record.
pub const PACKET_SIZE: usize = 240;

/// The offset of the validity flag's byte.
pub const FLAG_OFFSET: usize = 36;

/// Why a buffer could not be decoded.
#[derive(Clone, Copy, Debug, PartialEq, Eq, Structural)]
pub enum DecodeError {
    /// The buffer holds fewer bytes than one record.
    Truncated,
    /// A scalar that has to be finite is not, or the validity flag's byte is
    /// neither zero nor one.
    Malformed,
}

/// What to do with a record in which a scalar that has to be finite is not.
#[derive(Clone, Copy, Debug, PartialEq, Eq, Structural)]
pub enum Policy {
    /// Reject the record.
    Strict,
    /// Hand the record on as it is, marked.
    Lenient,
}

/// A decoded record, and whether it is handed on in spite of a scalar that
/// is not finite.
#[derive(Clone, Copy, Debug, PartialEq, Eq)]
pub struct Decoded {
    pub packet: Packet,
    pub malformed: bool,
}

/// The little-endian image of a 32-bit integer.
#[verifier::opaque]
pub open spec fn u32_le(v: u32) -> Seq<u8> {
    seq![
        (v % 0x100) as u8,
        ((v / 0x100) % 0x100) as u8,
        ((v / 0x1_0000) % 0x100) as u8,
        ((v / 0x100_0000) % 0x100) as u8,
    ]
}

/// The little-endian image of a 64-bit integer: that of its low half, then
/// that of its high half.
pub open spec fn u64_le(v: u64) -> Seq<u8> {
    u32_le((v % 0x1_0000_0000) as u32) + u32_le((v / 0x1_0000_0000) as u32)
}

/// The byte of a flag.
pub open spec fn flag_le(v: bool) -> Seq<u8> {
    seq![if v { 1u8 } else { 0u8 }]
}

/// The 32-bit integer whose little-endian image starts at `at`.
#[verifier::opaque]
pub open spec fn u32_at(bytes: Seq<u8>, at: int) -> u32 {
    (bytes[at] as int + bytes[at + 1] as int * 0x100 + bytes[at + 2] as int * 0x1_0000 + bytes[at
        + 3] as int * 0x100_0000) as u32
}

/// The 64-bit integer whose little-endian image starts at `at`.
pub open spec fn u64_at(bytes: Seq<u8>, at: int) -> u64 {
    (u32_at(bytes, at) as int + u32_at(bytes, at + 4) as int * 0x1_0000_0000) as u64
}

/// The record that the first `WIRE_SIZE` bytes spell out.
pub open spec fn parse(bytes: Seq<u8>) -> Packet {
    Packet {
        packet_uid: u64_at(bytes, 0),
        game_total_time: u32_at(bytes, 8),
        game_delta_time: u32_at(bytes, 12),
        game_frame_count: u64_at(bytes, 16),
        shiftlights_fraction: u32_at(bytes, 24),
        shiftlights_rpm_start: u32_at(bytes, 28),
        shiftlights_rpm_end: u32_at(bytes, 32),
        shiftlights_rpm_valid: bytes[36] == 1,
        vehicle_gear_index: bytes[37],
        vehicle_gear_index_neutral: bytes[38],
        vehicle_gear_index_reverse: bytes[39],
        vehicle_gear_maximum: bytes[40],
        vehicle_speed: u32_at(bytes, 41),
        vehicle_transmission_speed: u32_at(bytes, 45),
        vehicle_position_x: u32_at(bytes, 49),
        vehicle_position_y: u32_at(bytes, 53),
        vehicle_position_z: u32_at(bytes, 57),
        vehicle_velocity_x: u32_at(bytes, 61),
        vehicle_velocity_y: u32_at(bytes, 65),
        vehicle_velocity_z: u32_at(bytes, 69),
        vehicle_acceleration_x: u32_at(bytes, 73),
        vehicle_acceleration_y: u32_at(bytes, 77),
        vehicle_acceleration_z: u32_at(bytes, 81),
        vehicle_left_direction_x: u32_at(bytes, 85),
        vehicle_left_direction_y: u32_at(bytes, 89),
        vehicle_left_direction_z: u32_at(bytes, 93),
        vehicle_forward_direction_x: u32_at(bytes, 97),
        vehicle_forward_direction_y: u32_at(bytes, 101),
        vehicle_forward_direction_z: u32_at(bytes, 105),
        vehicle_up_direction_x: u32_at(bytes, 109),
        vehicle_up_direction_y: u32_at(bytes, 113),
        vehicle_up_direction_z: u32_at(bytes, 117),
        vehicle_hub_position_bl: u32_at(bytes, 121),
        vehicle_hub_position_br: u32_at(bytes, 125),
        vehicle_hub_position_fl: u32_at(bytes, 129),
        vehicle_hub_position_fr: u32_at(bytes, 133),
        vehicle_hub_velocity_bl: u32_at(bytes, 137),
        vehicle_hub_velocity_br: u32_at(bytes, 141),
        vehicle_hub_velocity_fl: u32_at(bytes, 145),
        vehicle_hub_velocity_fr: u32_at(bytes, 149),
        vehicle_cp_forward_speed_bl: u32_at(bytes, 153),
        vehicle_cp_forward_speed_br: u32_at(bytes, 157),
        vehicle_cp_forward_speed_fl: u32_at(bytes, 161),
        vehicle_cp_forward_speed_fr: u32_at(bytes, 165),
        vehicle_brake_temperature_bl: u32_at(bytes, 169),
        vehicle_brake_temperature_br: u32_at(bytes, 173),
        vehicle_brake_temperature_fl: u32_at(bytes, 177),
        vehicle_brake_temperature_fr: u32_at(bytes, 181),
        vehicle_engine_rpm_max: u32_at(bytes, 185),
        vehicle_engine_rpm_idle: u32_at(bytes, 189),
        vehicle_engine_rpm_current: u32_at(bytes, 193),
        vehicle_throttle: u32_at(bytes, 197),
        vehicle_brake: u32_at(bytes, 201),
        vehicle_clutch: u32_at(bytes, 205),
        vehicle_steering: u32_at(bytes, 209),
        vehicle_handbrake: u32_at(bytes, 213),
        stage_current_time: u32_at(bytes, 217),
        stage_current_distance: u64_at(bytes, 221),
        stage_length: u64_at(bytes, 229),
    }
}

/// The bytes of a record: the images of its fields, one after the other.
pub open spec fn wire(p: Packet) -> Seq<u8> {
    Seq::<u8>::empty()
        + u64_le(p.packet_uid)
        + u32_le(p.game_total_time)
        + u32_le(p.game_delta_time)
        + u64_le(p.game_frame_count)
        + u32_le(p.shiftlights_fraction)
        + u32_le(p.shiftlights_rpm_start)
        + u32_le(p.shiftlights_rpm_end)
        + flag_le(p.shiftlights_rpm_valid)
        + seq![p.vehicle_gear_index]
        + seq![p.vehicle_gear_index_neutral]
        + seq![p.vehicle_gear_index_reverse]
        + seq![p.vehicle_gear_maximum]
        + u32_le(p.vehicle_speed)
        + u32_le(p.vehicle_transmission_speed)
        + u32_le(p.vehicle_position_x)
        + u32_le(p.vehicle_position_y)
        + u32_le(p.vehicle_position_z)
        + u32_le(p.vehicle_velocity_x)
        + u32_le(p.vehicle_velocity_y)
        + u32_le(p.vehicle_velocity_z)
        + u32_le(p.vehicle_acceleration_x)
        + u32_le(p.vehicle_acceleration_y)
        + u32_le(p.vehicle_acceleration_z)
        + u32_le(p.vehicle_left_direction_x)
        + u32_le(p.vehicle_left_direction_y)
        + u32_le(p.vehicle_left_direction_z)
        + u32_le(p.vehicle_forward_direction_x)
        + u32_le(p.vehicle_forward_direction_y)
        + u32_le(p.vehicle_forward_direction_z)
        + u32_le(p.vehicle_up_direction_x)
        + u32_le(p.vehicle_up_direction_y)
        + u32_le(p.vehicle_up_direction_z)
        + u32_le(p.vehicle_hub_position_bl)
        + u32_le(p.vehicle_hub_position_br)
        + u32_le(p.vehicle_hub_position_fl)
        + u32_le(p.vehicle_hub_position_fr)
        + u32_le(p.vehicle_hub_velocity_bl)
        + u32_le(p.vehicle_hub_velocity_br)
        + u32_le(p.vehicle_hub_velocity_fl)
        + u32_le(p.vehicle_hub_velocity_fr)
        + u32_le(p.vehicle_cp_forward_speed_bl)
        + u32_le(p.vehicle_cp_forward_speed_br)
        + u32_le(p.vehicle_cp_forward_speed_fl)
        + u32_le(p.vehicle_cp_forward_speed_fr)
        + u32_le(p.vehicle_brake_temperature_bl)
        + u32_le(p.vehicle_brake_temperature_br)
        + u32_le(p.vehicle_brake_temperature_fl)
        + u32_le(p.vehicle_brake_temperature_fr)
        + u32_le(p.vehicle_engine_rpm_max)
        + u32_le(p.vehicle_engine_rpm_idle)
        + u32_le(p.vehicle_engine_rpm_current)
        + u32_le(p.vehicle_throttle)
        + u32_le(p.vehicle_brake)
        + u32_le(p.vehicle_clutch)
        + u32_le(p.vehicle_steering)
        + u32_le(p.vehicle_handbrake)
        + u32_le(p.stage_current_time)
        + u64_le(p.stage_current_distance)
        + u64_le(p.stage_length)
}

/// What decoding `bytes` under `policy` gives.
pub open spec fn decoded(bytes: Seq<u8>, policy: Policy) -> Result<Decoded, DecodeError> {
    if bytes.len() < WIRE_SIZE {
        Err(DecodeError::Truncated)
    } else if bytes[FLAG_OFFSET as int] > 1 {
        Err(DecodeError::Malformed)
    } else if policy == Policy::Strict && !parse(bytes).all_finite() {
        Err(DecodeError::Malformed)
    } else {
        Ok(Decoded { packet: parse(bytes), malformed: !parse(bytes).all_finite() })
    }
}

fn read_u32(buf: &[u8], at: usize) -> (r: u32)
    requires
        at + 4 <= buf.len(),
    ensures
        r == u32_at(buf@, at as int),
{
    proof {
        reveal(u32_at);
    }
    let b0: u32 = buf[at] as u32;
    let b1: u32 = buf[at + 1] as u32;
    let b2: u32 = buf[at + 2] as u32;
    let b3: u32 = buf[at + 3] as u32;
    b0 + b1 * 0x100 + b2 * 0x1_0000 + b3 * 0x100_0000
}

fn read_u64(buf: &[u8], at: usize) -> (r: u64)
    requires
        at + 8 <= buf.len(),
    ensures
        r == u64_at(buf@, at as int),
{
    let lo: u64 = read_u32(buf, at) as u64;
    let hi: u64 = read_u32(buf, at + 4) as u64;
    lo + hi * 0x1_0000_0000
}

fn put_u8(out: &mut Vec<u8>, v: u8)
    ensures
        final(out)@ == old(out)@ + seq![v],
{
    out.push(v);
    assert(out@ =~= old(out)@ + seq![v]);
}

fn put_flag(out: &mut Vec<u8>, v: bool)
    ensures
        final(out)@ == old(out)@ + flag_le(v),
{
    out.push(if v { 1 } else { 0 });
    assert(out@ =~= old(out)@ + flag_le(v));
}

fn put_u32(out: &mut Vec<u8>, v: u32)
    ensures
        final(out)@ == old(out)@ + u32_le(v),
{
    out.push((v % 0x100) as u8);
    out.push(((v / 0x100) % 0x100) as u8);
    out.push(((v / 0x1_0000) % 0x100) as u8);
    out.push(((v / 0x100_0000) % 0x100) as u8);
    proof {
        reveal(u32_le);
    }
    assert(out@ =~= old(out)@ + u32_le(v));
}

fn put_u64(out: &mut Vec<u8>, v: u64)
    ensures
        final(out)@ == old(out)@ + u64_le(v),
{
    put_u32(out, (v % 0x1_0000_0000) as u32);
    put_u32(out, (v / 0x1_0000_0000) as u32);
    assert(out@ =~= old(out)@ + u64_le(v));
}

/// Decodes the record at the start of `buf`.
///
/// A buffer shorter than one record is `Truncated`. Bytes after the record
/// are not looked at. A flag byte other than zero or one is `Malformed`
/// under either policy, since no record spells it. A scalar that has to be
/// finite and is not is `Malformed` under `Strict`; under `Lenient` the
/// record comes back unchanged with `malformed` set.
pub fn decode(buf: &[u8], policy: Policy) -> (r: Result<Decoded, DecodeError>)
    ensures
        r == decoded(buf@, policy),
{
    if buf.len() < WIRE_SIZE {
        return Err(DecodeError::Truncated);
    }
    if buf[FLAG_OFFSET] > 1 {
        return Err(DecodeError::Malformed);
    }
    let packet = Packet {
        packet_uid: read_u64(buf, 0),
        game_total_time: read_u32(buf, 8),
        game_delta_time: read_u32(buf, 12),
        game_frame_count: read_u64(buf, 16),
        shiftlights_fraction: read_u32(buf, 24),
        shiftlights_rpm_start: read_u32(buf, 28),
        shiftlights_rpm_end: read_u32(buf, 32),
        shiftlights_rpm_valid: buf[36] == 1,
        vehicle_gear_index: buf[37],
        vehicle_gear_index_neutral: buf[38],
        vehicle_gear_index_reverse: buf[39],
        vehicle_gear_maximum: buf[40],
        vehicle_speed: read_u32(buf, 41),
        vehicle_transmission_speed: read_u32(buf, 45),
        vehicle_position_x: read_u32(buf, 49),
        vehicle_position_y: read_u32(buf, 53),
        vehicle_position_z: read_u32(buf, 57),
        vehicle_velocity_x: read_u32(buf, 61),
        vehicle_velocity_y: read_u32(buf, 65),
        vehicle_velocity_z: read_u32(buf, 69),
        vehicle_acceleration_x: read_u32(buf, 73),
        vehicle_acceleration_y: read_u32(buf, 77),
        vehicle_acceleration_z: read_u32(buf, 81),
        vehicle_left_direction_x: read_u32(buf, 85),
        vehicle_left_direction_y: read_u32(buf, 89),
        vehicle_left_direction_z: read_u32(buf, 93),
        vehicle_forward_direction_x: read_u32(buf, 97),
        vehicle_forward_direction_y: read_u32(buf, 101),
        vehicle_forward_direction_z: read_u32(buf, 105),
        vehicle_up_direction_x: read_u32(buf, 109),
        vehicle_up_direction_y: read_u32(buf, 113),
        vehicle_up_direction_z: read_u32(buf, 117),
        vehicle_hub_position_bl: read_u32(buf, 121),
        vehicle_hub_position_br: read_u32(buf, 125),
        vehicle_hub_position_fl: read_u32(buf, 129),
        vehicle_hub_position_fr: read_u32(buf, 133),
        vehicle_hub_velocity_bl: read_u32(buf, 137),
        vehicle_hub_velocity_br: read_u32(buf, 141),
        vehicle_hub_velocity_fl: read_u32(buf, 145),
        vehicle_hub_velocity_fr: read_u32(buf, 149),
        vehicle_cp_forward_speed_bl: read_u32(buf, 153),
        vehicle_cp_forward_speed_br: read_u32(buf, 157),
        vehicle_cp_forward_speed_fl: read_u32(buf, 161),
        vehicle_cp_forward_speed_fr: read_u32(buf, 165),
        vehicle_brake_temperature_bl: read_u32(buf, 169),
        vehicle_brake_temperature_br: read_u32(buf, 173),
        vehicle_brake_temperature_fl: read_u32(buf, 177),
        vehicle_brake_temperature_fr: read_u32(buf, 181),
        vehicle_engine_rpm_max: read_u32(buf, 185),
        vehicle_engine_rpm_idle: read_u32(buf, 189),
        vehicle_engine_rpm_current: read_u32(buf, 193),
        vehicle_throttle: read_u32(buf, 197),
        vehicle_brake: read_u32(buf, 201),
        vehicle_clutch: read_u32(buf, 205),
        vehicle_steering: read_u32(buf, 209),
        vehicle_handbrake: read_u32(buf, 213),
        stage_current_time: read_u32(buf, 217),
        stage_current_distance: read_u64(buf, 221),
        stage_length: read_u64(buf, 229),
    };
    let ok = packet.is_all_finite();
    if !ok && policy == Policy::Strict {
        return Err(DecodeError::Malformed);
    }
    Ok(Decoded { packet, malformed: !ok })
}

/// Encodes a record as its `WIRE_SIZE` bytes, which spell the record again.
pub fn encode(p: &Packet) -> (out: Vec<u8>)
    ensures
        out@ == wire(*p),
        out@.len() == WIRE_SIZE,
        parse(out@) == *p,
{
    let mut out: Vec<u8> = Vec::new();
    assert(out@ =~= Seq::<u8>::empty());
    proof {
        lemma_parse_wire(*p);
    }
    put_u64(&mut out, p.packet_uid);
    put_u32(&mut out, p.game_total_time);
    put_u32(&mut out, p.game_delta_time);
    put_u64(&mut out, p.game_frame_count);
    put_u32(&mut out, p.shiftlights_fraction);
    put_u32(&mut out, p.shiftlights_rpm_start);
    put_u32(&mut out, p.shiftlights_rpm_end);
    put_flag(&mut out, p.shiftlights_rpm_valid);
    put_u8(&mut out, p.vehicle_gear_index);
    put_u8(&mut out, p.vehicle_gear_index_neutral);
    put_u8(&mut out, p.vehicle_gear_index_reverse);
    put_u8(&mut out, p.vehicle_gear_maximum);
    put_u32(&mut out, p.vehicle_speed);
    put_u32(&mut out, p.vehicle_transmission_speed);
    put_u32(&mut out, p.vehicle_position_x);
    put_u32(&mut out, p.vehicle_position_y);
    put_u32(&mut out, p.vehicle_position_z);
    put_u32(&mut out, p.vehicle_velocity_x);
    put_u32(&mut out, p.vehicle_velocity_y);
    put_u32(&mut out, p.vehicle_velocity_z);
    put_u32(&mut out, p.vehicle_acceleration_x);
    put_u32(&mut out, p.vehicle_acceleration_y);
    put_u32(&mut out, p.vehicle_acceleration_z);
    put_u32(&mut out, p.vehicle_left_direction_x);
    put_u32(&mut out, p.vehicle_left_direction_y);
    put_u32(&mut out, p.vehicle_left_direction_z);
    put_u32(&mut out, p.vehicle_forward_direction_x);
    put_u32(&mut out, p.vehicle_forward_direction_y);
    put_u32(&mut out, p.vehicle_forward_direction_z);
    put_u32(&mut out, p.vehicle_up_direction_x);
    put_u32(&mut out, p.vehicle_up_direction_y);
    put_u32(&mut out, p.vehicle_up_direction_z);
    put_u32(&mut out, p.vehicle_hub_position_bl);
    put_u32(&mut out, p.vehicle_hub_position_br);
    put_u32(&mut out, p.vehicle_hub_position_fl);
    put_u32(&mut out, p.vehicle_hub_position_fr);
    put_u32(&mut out, p.vehicle_hub_velocity_bl);
    put_u32(&mut out, p.vehicle_hub_velocity_br);
    put_u32(&mut out, p.vehicle_hub_velocity_fl);
    put_u32(&mut out, p.vehicle_hub_velocity_fr);
    put_u32(&mut out, p.vehicle_cp_forward_speed_bl);
    put_u32(&mut out, p.vehicle_cp_forward_speed_br);
    put_u32(&mut out, p.vehicle_cp_forward_speed_fl);
    put_u32(&mut out, p.vehicle_cp_forward_speed_fr);
    put_u32(&mut out, p.vehicle_brake_temperature_bl);
    put_u32(&mut out, p.vehicle_brake_temperature_br);
    put_u32(&mut out, p.vehicle_brake_temperature_fl);
    put_u32(&mut out, p.vehicle_brake_temperature_fr);
    put_u32(&mut out, p.vehicle_engine_rpm_max);
    put_u32(&mut out, p.vehicle_engine_rpm_idle);
    put_u32(&mut out, p.vehicle_engine_rpm_current);
    put_u32(&mut out, p.vehicle_throttle);
    put_u32(&mut out, p.vehicle_brake);
    put_u32(&mut out, p.vehicle_clutch);
    put_u32(&mut out, p.vehicle_steering);
    put_u32(&mut out, p.vehicle_handbrake);
    put_u32(&mut out, p.stage_current_time);
    put_u64(&mut out, p.stage_current_distance);
    put_u64(&mut out, p.stage_length);
    out
}

impl Packet {
    /// Decodes a datagram buffer under the strict policy.
    pub fn try_from(value: &[u8; 240]) -> (r: Result<Packet, DecodeError>)
        ensures
            r == match decoded(value@, Policy::Strict) {
                Ok(d) => Ok::<Packet, DecodeError>(d.packet),
                Err(e) => Err(e),
            },
    {
        match decode(value.as_slice(), Policy::Strict) {
            Ok(d) => Ok(d.packet),
            Err(e) => Err(e),
        }
    }
}

} // verus!
