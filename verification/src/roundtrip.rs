//! Why the codec loses nothing: a record's bytes spell the record, and the
//! bytes of a buffer are those of the record that they spell.

use vstd::prelude::*;
use crate::codec::{decoded, flag_le, parse, u32_at, u32_le, u64_at, u64_le, wire};
use crate::codec::{DecodeError, Decoded, Policy, FLAG_OFFSET, WIRE_SIZE};
use crate::record::Packet;

verus! {

/// Bytes appended to a buffer leave every integer that lies within the
/// buffer as it was.
pub proof fn lemma_append(s: Seq<u8>, t: Seq<u8>)
    ensures
        (s + t).len() == s.len() + t.len(),
        forall|at: int| 0 <= at && at + 4 <= s.len() ==> #[trigger] u32_at(s + t, at) == u32_at(s, at),
{
    reveal(u32_at);
}

/// The image of a 32-bit integer, appended to a buffer, reads back as the
/// integer at the buffer's old end.
pub proof fn lemma_append_u32(s: Seq<u8>, v: u32)
    ensures
        (s + u32_le(v)).len() == s.len() + 4,
        u32_at(s + u32_le(v), s.len() as int) == v,
        forall|at: int| 0 <= at && at + 4 <= s.len() ==> #[trigger] u32_at(s + u32_le(v), at) == u32_at(s, at),
{
    reveal(u32_at);
    reveal(u32_le);
    lemma_sum_of_digits(v);
    let t = s + u32_le(v);
    let n = s.len() as int;
    assert(t[n] == u32_le(v)[0]);
    assert(t[n + 1] == u32_le(v)[1]);
    assert(t[n + 2] == u32_le(v)[2]);
    assert(t[n + 3] == u32_le(v)[3]);
}

/// The image of a 64-bit integer, appended to a buffer, reads back as the
/// integer at the buffer's old end.
pub proof fn lemma_append_u64(s: Seq<u8>, v: u64)
    ensures
        (s + u64_le(v)).len() == s.len() + 8,
        u64_at(s + u64_le(v), s.len() as int) == v,
        forall|at: int| 0 <= at && at + 4 <= s.len() ==> #[trigger] u32_at(s + u64_le(v), at) == u32_at(s, at),
{
    let lo = (v % 0x1_0000_0000) as u32;
    let hi = (v / 0x1_0000_0000) as u32;
    lemma_append_u32(s, lo);
    lemma_append_u32(s + u32_le(lo), hi);
    assert(s + u64_le(v) =~= (s + u32_le(lo)) + u32_le(hi));
}

/// A record's image has the wire size, holds a proper flag byte, and spells
/// the record.
#[verifier::rlimit(60)]
pub proof fn lemma_parse_wire(p: Packet)
    ensures
        wire(p).len() == WIRE_SIZE,
        wire(p)[FLAG_OFFSET as int] <= 1,
        parse(wire(p)) == p,
{
    let s = Seq::<u8>::empty();
    lemma_append_u64(s, p.packet_uid);
    let s = s + u64_le(p.packet_uid);
    lemma_append_u32(s, p.game_total_time);
    let s = s + u32_le(p.game_total_time);
    lemma_append_u32(s, p.game_delta_time);
    let s = s + u32_le(p.game_delta_time);
    lemma_append_u64(s, p.game_frame_count);
    let s = s + u64_le(p.game_frame_count);
    lemma_append_u32(s, p.shiftlights_fraction);
    let s = s + u32_le(p.shiftlights_fraction);
    lemma_append_u32(s, p.shiftlights_rpm_start);
    let s = s + u32_le(p.shiftlights_rpm_start);
    lemma_append_u32(s, p.shiftlights_rpm_end);
    let s = s + u32_le(p.shiftlights_rpm_end);
    lemma_append(s, flag_le(p.shiftlights_rpm_valid));
    let s = s + flag_le(p.shiftlights_rpm_valid);
    lemma_append(s, seq![p.vehicle_gear_index]);
    let s = s + seq![p.vehicle_gear_index];
    lemma_append(s, seq![p.vehicle_gear_index_neutral]);
    let s = s + seq![p.vehicle_gear_index_neutral];
    lemma_append(s, seq![p.vehicle_gear_index_reverse]);
    let s = s + seq![p.vehicle_gear_index_reverse];
    lemma_append(s, seq![p.vehicle_gear_maximum]);
    let s = s + seq![p.vehicle_gear_maximum];
    lemma_append_u32(s, p.vehicle_speed);
    let s = s + u32_le(p.vehicle_speed);
    lemma_append_u32(s, p.vehicle_transmission_speed);
    let s = s + u32_le(p.vehicle_transmission_speed);
    lemma_append_u32(s, p.vehicle_position_x);
    let s = s + u32_le(p.vehicle_position_x);
    lemma_append_u32(s, p.vehicle_position_y);
    let s = s + u32_le(p.vehicle_position_y);
    lemma_append_u32(s, p.vehicle_position_z);
    let s = s + u32_le(p.vehicle_position_z);
    lemma_append_u32(s, p.vehicle_velocity_x);
    let s = s + u32_le(p.vehicle_velocity_x);
    lemma_append_u32(s, p.vehicle_velocity_y);
    let s = s + u32_le(p.vehicle_velocity_y);
    lemma_append_u32(s, p.vehicle_velocity_z);
    let s = s + u32_le(p.vehicle_velocity_z);
    lemma_append_u32(s, p.vehicle_acceleration_x);
    let s = s + u32_le(p.vehicle_acceleration_x);
    lemma_append_u32(s, p.vehicle_acceleration_y);
    let s = s + u32_le(p.vehicle_acceleration_y);
    lemma_append_u32(s, p.vehicle_acceleration_z);
    let s = s + u32_le(p.vehicle_acceleration_z);
    lemma_append_u32(s, p.vehicle_left_direction_x);
    let s = s + u32_le(p.vehicle_left_direction_x);
    lemma_append_u32(s, p.vehicle_left_direction_y);
    let s = s + u32_le(p.vehicle_left_direction_y);
    lemma_append_u32(s, p.vehicle_left_direction_z);
    let s = s + u32_le(p.vehicle_left_direction_z);
    lemma_append_u32(s, p.vehicle_forward_direction_x);
    let s = s + u32_le(p.vehicle_forward_direction_x);
    lemma_append_u32(s, p.vehicle_forward_direction_y);
    let s = s + u32_le(p.vehicle_forward_direction_y);
    lemma_append_u32(s, p.vehicle_forward_direction_z);
    let s = s + u32_le(p.vehicle_forward_direction_z);
    lemma_append_u32(s, p.vehicle_up_direction_x);
    let s = s + u32_le(p.vehicle_up_direction_x);
    lemma_append_u32(s, p.vehicle_up_direction_y);
    let s = s + u32_le(p.vehicle_up_direction_y);
    lemma_append_u32(s, p.vehicle_up_direction_z);
    let s = s + u32_le(p.vehicle_up_direction_z);
    lemma_append_u32(s, p.vehicle_hub_position_bl);
    let s = s + u32_le(p.vehicle_hub_position_bl);
    lemma_append_u32(s, p.vehicle_hub_position_br);
    let s = s + u32_le(p.vehicle_hub_position_br);
    lemma_append_u32(s, p.vehicle_hub_position_fl);
    let s = s + u32_le(p.vehicle_hub_position_fl);
    lemma_append_u32(s, p.vehicle_hub_position_fr);
    let s = s + u32_le(p.vehicle_hub_position_fr);
    lemma_append_u32(s, p.vehicle_hub_velocity_bl);
    let s = s + u32_le(p.vehicle_hub_velocity_bl);
    lemma_append_u32(s, p.vehicle_hub_velocity_br);
    let s = s + u32_le(p.vehicle_hub_velocity_br);
    lemma_append_u32(s, p.vehicle_hub_velocity_fl);
    let s = s + u32_le(p.vehicle_hub_velocity_fl);
    lemma_append_u32(s, p.vehicle_hub_velocity_fr);
    let s = s + u32_le(p.vehicle_hub_velocity_fr);
    lemma_append_u32(s, p.vehicle_cp_forward_speed_bl);
    let s = s + u32_le(p.vehicle_cp_forward_speed_bl);
    lemma_append_u32(s, p.vehicle_cp_forward_speed_br);
    let s = s + u32_le(p.vehicle_cp_forward_speed_br);
    lemma_append_u32(s, p.vehicle_cp_forward_speed_fl);
    let s = s + u32_le(p.vehicle_cp_forward_speed_fl);
    lemma_append_u32(s, p.vehicle_cp_forward_speed_fr);
    let s = s + u32_le(p.vehicle_cp_forward_speed_fr);
    lemma_append_u32(s, p.vehicle_brake_temperature_bl);
    let s = s + u32_le(p.vehicle_brake_temperature_bl);
    lemma_append_u32(s, p.vehicle_brake_temperature_br);
    let s = s + u32_le(p.vehicle_brake_temperature_br);
    lemma_append_u32(s, p.vehicle_brake_temperature_fl);
    let s = s + u32_le(p.vehicle_brake_temperature_fl);
    lemma_append_u32(s, p.vehicle_brake_temperature_fr);
    let s = s + u32_le(p.vehicle_brake_temperature_fr);
    lemma_append_u32(s, p.vehicle_engine_rpm_max);
    let s = s + u32_le(p.vehicle_engine_rpm_max);
    lemma_append_u32(s, p.vehicle_engine_rpm_idle);
    let s = s + u32_le(p.vehicle_engine_rpm_idle);
    lemma_append_u32(s, p.vehicle_engine_rpm_current);
    let s = s + u32_le(p.vehicle_engine_rpm_current);
    lemma_append_u32(s, p.vehicle_throttle);
    let s = s + u32_le(p.vehicle_throttle);
    lemma_append_u32(s, p.vehicle_brake);
    let s = s + u32_le(p.vehicle_brake);
    lemma_append_u32(s, p.vehicle_clutch);
    let s = s + u32_le(p.vehicle_clutch);
    lemma_append_u32(s, p.vehicle_steering);
    let s = s + u32_le(p.vehicle_steering);
    lemma_append_u32(s, p.vehicle_handbrake);
    let s = s + u32_le(p.vehicle_handbrake);
    lemma_append_u32(s, p.stage_current_time);
    let s = s + u32_le(p.stage_current_time);
    lemma_append_u64(s, p.stage_current_distance);
    let s = s + u64_le(p.stage_current_distance);
    lemma_append_u64(s, p.stage_length);
    let s = s + u64_le(p.stage_length);
    assert(s == wire(p));
}

/// Encoding a record and decoding the bytes gives the record back, field
/// for field. Under the strict policy this holds of every record whose
/// position, velocity and engine rotation rate are finite; under the
/// lenient policy of every record, and the mark tells whether they are.
pub proof fn law_round_trip(p: Packet, policy: Policy)
    requires
        policy == Policy::Strict ==> p.all_finite(),
    ensures
        decoded(wire(p), policy) == Ok::<Decoded, DecodeError>(
            (Decoded { packet: p, malformed: !p.all_finite() }),
        ),
{
    lemma_parse_wire(p);
}

/// Fewer bytes than one record are always refused as truncated, whatever
/// they hold and whatever the policy.
pub proof fn law_short_buffer_truncated(bytes: Seq<u8>, policy: Policy)
    requires
        bytes.len() < WIRE_SIZE,
    ensures
        decoded(bytes, policy) == Err::<Decoded, DecodeError>(DecodeError::Truncated),
{
}

/// A full buffer with a proper flag byte whose record holds a scalar that
/// is not finite where it has to be is refused under the strict policy, and
/// under the lenient policy handed on marked, with every field as the bytes
/// spell it.
pub proof fn law_malformed_policy(bytes: Seq<u8>)
    requires
        bytes.len() >= WIRE_SIZE,
        bytes[FLAG_OFFSET as int] <= 1,
        !parse(bytes).all_finite(),
    ensures
        decoded(bytes, Policy::Strict) == Err::<Decoded, DecodeError>(DecodeError::Malformed),
        decoded(bytes, Policy::Lenient) == Ok::<Decoded, DecodeError>(
            (Decoded { packet: parse(bytes), malformed: true }),
        ),
{
}

/// Four bytes are the base-256 digits of the integer that they spell.
pub proof fn lemma_digits_of_sum(b0: u8, b1: u8, b2: u8, b3: u8)
    ensures
        ({
            let v = b0 as int + b1 as int * 0x100 + b2 as int * 0x1_0000 + b3 as int * 0x100_0000;
            &&& 0 <= v <= u32::MAX
            &&& v % 0x100 == b0
            &&& (v / 0x100) % 0x100 == b1
            &&& (v / 0x1_0000) % 0x100 == b2
            &&& (v / 0x100_0000) % 0x100 == b3
        }),
{
    let v = b0 as int + b1 as int * 0x100 + b2 as int * 0x1_0000 + b3 as int * 0x100_0000;
    assert(v / 0x100 == b1 as int + b2 as int * 0x100 + b3 as int * 0x1_0000);
    assert(v / 0x1_0000 == b2 as int + b3 as int * 0x100);
    assert(v / 0x100_0000 == b3 as int);
}

/// An integer is the sum of its base-256 digits, each at its weight.
pub proof fn lemma_sum_of_digits(v: u32)
    ensures
        v == v % 0x100 + ((v / 0x100) % 0x100) * 0x100 + ((v / 0x1_0000) % 0x100) * 0x1_0000 + ((v
            / 0x100_0000) % 0x100) * 0x100_0000,
{
    let a = v / 0x100;
    let b = v / 0x1_0000;
    let c = v / 0x100_0000;
    assert(v == a * 0x100 + v % 0x100);
    assert(a == b * 0x100 + a % 0x100);
    assert(b == c * 0x100 + b % 0x100);
    assert(c < 0x100);
}

/// The image of the integer read at `at` is the four bytes that stand
/// there.
pub proof fn lemma_image_u32(bytes: Seq<u8>, at: int)
    requires
        0 <= at,
        at + 4 <= bytes.len(),
    ensures
        bytes.subrange(0, at) + u32_le(u32_at(bytes, at)) == bytes.subrange(0, at + 4),
{
    reveal(u32_at);
    reveal(u32_le);
    lemma_digits_of_sum(bytes[at], bytes[at + 1], bytes[at + 2], bytes[at + 3]);
    let image = u32_le(u32_at(bytes, at));
    assert(image.len() == 4);
    assert(image[0] == bytes[at]);
    assert(image[1] == bytes[at + 1]);
    assert(image[2] == bytes[at + 2]);
    assert(image[3] == bytes[at + 3]);
    assert(bytes.subrange(0, at) + image =~= bytes.subrange(0, at + 4));
}

/// The image of the integer read at `at` is the eight bytes that stand
/// there.
pub proof fn lemma_image_u64(bytes: Seq<u8>, at: int)
    requires
        0 <= at,
        at + 8 <= bytes.len(),
    ensures
        bytes.subrange(0, at) + u64_le(u64_at(bytes, at)) == bytes.subrange(0, at + 8),
{
    let v = u64_at(bytes, at);
    let lo = u32_at(bytes, at);
    let hi = u32_at(bytes, at + 4);
    assert((v % 0x1_0000_0000) as u32 == lo);
    assert((v / 0x1_0000_0000) as u32 == hi);
    lemma_image_u32(bytes, at);
    lemma_image_u32(bytes, at + 4);
    assert(bytes.subrange(0, at) + u64_le(v) =~= (bytes.subrange(0, at) + u32_le(lo)) + u32_le(
        hi,
    ));
}

/// Decoding and encoding again gives the bytes of the record back: no two
/// buffers with a proper flag byte spell the same record.
#[verifier::rlimit(60)]
pub proof fn law_wire_of_parse(bytes: Seq<u8>)
    requires
        bytes.len() >= WIRE_SIZE,
        bytes[FLAG_OFFSET as int] <= 1,
    ensures
        wire(parse(bytes)) == bytes.subrange(0, WIRE_SIZE as int),
{
    assert(Seq::<u8>::empty() =~= bytes.subrange(0, 0));
    lemma_image_u64(bytes, 0);
    lemma_image_u32(bytes, 8);
    lemma_image_u32(bytes, 12);
    lemma_image_u64(bytes, 16);
    lemma_image_u32(bytes, 24);
    lemma_image_u32(bytes, 28);
    lemma_image_u32(bytes, 32);
    assert(bytes.subrange(0, 36) + flag_le(bytes[36] == 1) =~= bytes.subrange(0, 37));
    assert(bytes.subrange(0, 37) + seq![bytes[37]] =~= bytes.subrange(0, 38));
    assert(bytes.subrange(0, 38) + seq![bytes[38]] =~= bytes.subrange(0, 39));
    assert(bytes.subrange(0, 39) + seq![bytes[39]] =~= bytes.subrange(0, 40));
    assert(bytes.subrange(0, 40) + seq![bytes[40]] =~= bytes.subrange(0, 41));
    lemma_image_u32(bytes, 41);
    lemma_image_u32(bytes, 45);
    lemma_image_u32(bytes, 49);
    lemma_image_u32(bytes, 53);
    lemma_image_u32(bytes, 57);
    lemma_image_u32(bytes, 61);
    lemma_image_u32(bytes, 65);
    lemma_image_u32(bytes, 69);
    lemma_image_u32(bytes, 73);
    lemma_image_u32(bytes, 77);
    lemma_image_u32(bytes, 81);
    lemma_image_u32(bytes, 85);
    lemma_image_u32(bytes, 89);
    lemma_image_u32(bytes, 93);
    lemma_image_u32(bytes, 97);
    lemma_image_u32(bytes, 101);
    lemma_image_u32(bytes, 105);
    lemma_image_u32(bytes, 109);
    lemma_image_u32(bytes, 113);
    lemma_image_u32(bytes, 117);
    lemma_image_u32(bytes, 121);
    lemma_image_u32(bytes, 125);
    lemma_image_u32(bytes, 129);
    lemma_image_u32(bytes, 133);
    lemma_image_u32(bytes, 137);
    lemma_image_u32(bytes, 141);
    lemma_image_u32(bytes, 145);
    lemma_image_u32(bytes, 149);
    lemma_image_u32(bytes, 153);
    lemma_image_u32(bytes, 157);
    lemma_image_u32(bytes, 161);
    lemma_image_u32(bytes, 165);
    lemma_image_u32(bytes, 169);
    lemma_image_u32(bytes, 173);
    lemma_image_u32(bytes, 177);
    lemma_image_u32(bytes, 181);
    lemma_image_u32(bytes, 185);
    lemma_image_u32(bytes, 189);
    lemma_image_u32(bytes, 193);
    lemma_image_u32(bytes, 197);
    lemma_image_u32(bytes, 201);
    lemma_image_u32(bytes, 205);
    lemma_image_u32(bytes, 209);
    lemma_image_u32(bytes, 213);
    lemma_image_u32(bytes, 217);
    lemma_image_u64(bytes, 221);
    lemma_image_u64(bytes, 229);
}

} // verus!
