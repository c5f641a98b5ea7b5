//! The telemetry record: one sample of the simulation's state.

use vstd::prelude::*;
use crate::ieee::{is_finite, finite};

verus! {

/// One telemetry sample, field for field as it stands on the wire.
///
/// Scalars that the sender writes as binary floating-point numbers are kept
/// as their bit patterns. An all-zero record is the empty value: it is what
/// `default` gives and stands for no sample.
#[derive(Clone, Copy, Debug, PartialEq, Eq)]
pub struct Packet {
    /// A rolling unique identifier for the current packet. Can be used to order and drop received packets.
    pub packet_uid: u64,
    /// Time spent in game since boot (single-precision bit pattern).
    pub game_total_time: u32,
    /// Time spent since the last frame (single-precision bit pattern).
    pub game_delta_time: u32,
    /// Frame count in-game since boot.
    pub game_frame_count: u64,
    /// For shift lights, from 0 ('vehicle_engine_rpm_current'='shiftlights_rpm_start') to 1 ('vehicle_engine_rpm_current'='shiftlights_rpm_end') (single-precision bit pattern).
    pub shiftlights_fraction: u32,
    /// Shift lights start at 'vehicle_engine_rpm_current' value (single-precision bit pattern).
    pub shiftlights_rpm_start: u32,
    /// Shift lights end (i.e. optimal shift) at 'vehicle_engine_rpm_current' value (single-precision bit pattern).
    pub shiftlights_rpm_end: u32,
    /// Are shift lights RPM data valid: 'vehicle_engine_rpm_current', 'shiftlights_rpm_start', 'shiftlights_rpm_end'.
    pub shiftlights_rpm_valid: bool,
    /// Gear index or value of 'vehicle_gear_index_neutral' or 'vehicle_gear_index_reverse'.
    pub vehicle_gear_index: u8,
    /// 'vehicle_gear_index' if the gearbox is Neutral.
    pub vehicle_gear_index_neutral: u8,
    /// 'vehicle_gear_index' if the gearbox is Reverse.
    pub vehicle_gear_index_reverse: u8,
    /// Number of forward gears.
    pub vehicle_gear_maximum: u8,
    /// Car body speed (single-precision bit pattern).
    pub vehicle_speed: u32,
    /// Car speed at wheel/road due to transmission (for speedo use). NB. May differ from 'vehicle_speed' (single-precision bit pattern).
    pub vehicle_transmission_speed: u32,
    /// Car position X component, positive left (single-precision bit pattern).
    pub vehicle_position_x: u32,
    /// Car position Y component, positive up (single-precision bit pattern).
    pub vehicle_position_y: u32,
    /// Car position Z component, positive forward (single-precision bit pattern).
    pub vehicle_position_z: u32,
    /// Car velocity X component, positive left (single-precision bit pattern).
    pub vehicle_velocity_x: u32,
    /// Car velocity Y component, positive up (single-precision bit pattern).
    pub vehicle_velocity_y: u32,
    /// Car velocity Z component, positive forward (single-precision bit pattern).
    pub vehicle_velocity_z: u32,
    /// Car acceleration X component, positive left (single-precision bit pattern).
    pub vehicle_acceleration_x: u32,
    /// Car acceleration Y component, positive up (single-precision bit pattern).
    pub vehicle_acceleration_y: u32,
    /// Car acceleration Z component, positive forward (single-precision bit pattern).
    pub vehicle_acceleration_z: u32,
    /// Car left unit vector X component, positive left (single-precision bit pattern).
    pub vehicle_left_direction_x: u32,
    /// Car left unit vector Y component, positive up (single-precision bit pattern).
    pub vehicle_left_direction_y: u32,
    /// Car left unit vector Z component, positive forward (single-precision bit pattern).
    pub vehicle_left_direction_z: u32,
    /// Car forward unit vector X component, positive left (single-precision bit pattern).
    pub vehicle_forward_direction_x: u32,
    /// Car forward unit vector Y component, positive up (single-precision bit pattern).
    pub vehicle_forward_direction_y: u32,
    /// Car forward unit vector Z component, positive forward (single-precision bit pattern).
    pub vehicle_forward_direction_z: u32,
    /// Car up unit vector X component, positive left (single-precision bit pattern).
    pub vehicle_up_direction_x: u32,
    /// Car up unit vector Y component, positive up (single-precision bit pattern).
    pub vehicle_up_direction_y: u32,
    /// Car up unit vector Z component, positive forward (single-precision bit pattern).
    pub vehicle_up_direction_z: u32,
    /// Wheel hub height displacement, back left, positive up (single-precision bit pattern).
    pub vehicle_hub_position_bl: u32,
    /// Wheel hub height displacement, back right, positive up (single-precision bit pattern).
    pub vehicle_hub_position_br: u32,
    /// Wheel hub height displacement, front left, positive up (single-precision bit pattern).
    pub vehicle_hub_position_fl: u32,
    /// Wheel hub height displacement, front right, positive up (single-precision bit pattern).
    pub vehicle_hub_position_fr: u32,
    /// Wheel hub vertical velocity, back left, positive up (single-precision bit pattern).
    pub vehicle_hub_velocity_bl: u32,
    /// Wheel hub vertical velocity, back right, positive up (single-precision bit pattern).
    pub vehicle_hub_velocity_br: u32,
    /// Wheel hub vertical velocity, front left, positive up (single-precision bit pattern).
    pub vehicle_hub_velocity_fl: u32,
    /// Wheel hub vertical velocity, front right, positive up (single-precision bit pattern).
    pub vehicle_hub_velocity_fr: u32,
    /// Contact patch forward speed, back left (single-precision bit pattern).
    pub vehicle_cp_forward_speed_bl: u32,
    /// Contact patch forward speed, back right (single-precision bit pattern).
    pub vehicle_cp_forward_speed_br: u32,
    /// Contact patch forward speed, front left (single-precision bit pattern).
    pub vehicle_cp_forward_speed_fl: u32,
    /// Contact patch forward speed, front right (single-precision bit pattern).
    pub vehicle_cp_forward_speed_fr: u32,
    /// Brake temperature, back left (single-precision bit pattern).
    pub vehicle_brake_temperature_bl: u32,
    /// Brake temperature, back right (single-precision bit pattern).
    pub vehicle_brake_temperature_br: u32,
    /// Brake temperature, front left (single-precision bit pattern).
    pub vehicle_brake_temperature_fl: u32,
    /// Brake temperature, front right (single-precision bit pattern).
    pub vehicle_brake_temperature_fr: u32,
    /// Engine rotation rate, maximum (single-precision bit pattern).
    pub vehicle_engine_rpm_max: u32,
    /// Engine rotation rate, at idle (single-precision bit pattern).
    pub vehicle_engine_rpm_idle: u32,
    /// Engine rotation rate, current (single-precision bit pattern).
    pub vehicle_engine_rpm_current: u32,
    /// Throttle pedal after assists and overrides, 0 (off) to 1 (full) (single-precision bit pattern).
    pub vehicle_throttle: u32,
    /// Brake pedal after assists and overrides, 0 (off) to 1 (full) (single-precision bit pattern).
    pub vehicle_brake: u32,
    /// Clutch pedal after assists and overrides, 0 (off) to 1 (full) (single-precision bit pattern).
    pub vehicle_clutch: u32,
    /// Steering after assists and overrides, -1 (full left) to 1 (full right) (single-precision bit pattern).
    pub vehicle_steering: u32,
    /// Handbrake after assists and overrides, 0 (off) to 1 (full) (single-precision bit pattern).
    pub vehicle_handbrake: u32,
    /// Time spent on the current stage (single-precision bit pattern).
    pub stage_current_time: u32,
    /// Distance reached on the current stage (double-precision bit pattern).
    pub stage_current_distance: u64,
    /// Total length of the current stage (double-precision bit pattern).
    pub stage_length: u64,
}

impl Packet {
    /// The empty record: every number zero, the validity flag unset.
    pub open spec fn empty() -> Packet {
        Packet {
            packet_uid: 0,
            game_total_time: 0,
            game_delta_time: 0,
            game_frame_count: 0,
            shiftlights_fraction: 0,
            shiftlights_rpm_start: 0,
            shiftlights_rpm_end: 0,
            shiftlights_rpm_valid: false,
            vehicle_gear_index: 0,
            vehicle_gear_index_neutral: 0,
            vehicle_gear_index_reverse: 0,
            vehicle_gear_maximum: 0,
            vehicle_speed: 0,
            vehicle_transmission_speed: 0,
            vehicle_position_x: 0,
            vehicle_position_y: 0,
            vehicle_position_z: 0,
            vehicle_velocity_x: 0,
            vehicle_velocity_y: 0,
            vehicle_velocity_z: 0,
            vehicle_acceleration_x: 0,
            vehicle_acceleration_y: 0,
            vehicle_acceleration_z: 0,
            vehicle_left_direction_x: 0,
            vehicle_left_direction_y: 0,
            vehicle_left_direction_z: 0,
            vehicle_forward_direction_x: 0,
            vehicle_forward_direction_y: 0,
            vehicle_forward_direction_z: 0,
            vehicle_up_direction_x: 0,
            vehicle_up_direction_y: 0,
            vehicle_up_direction_z: 0,
            vehicle_hub_position_bl: 0,
            vehicle_hub_position_br: 0,
            vehicle_hub_position_fl: 0,
            vehicle_hub_position_fr: 0,
            vehicle_hub_velocity_bl: 0,
            vehicle_hub_velocity_br: 0,
            vehicle_hub_velocity_fl: 0,
            vehicle_hub_velocity_fr: 0,
            vehicle_cp_forward_speed_bl: 0,
            vehicle_cp_forward_speed_br: 0,
            vehicle_cp_forward_speed_fl: 0,
            vehicle_cp_forward_speed_fr: 0,
            vehicle_brake_temperature_bl: 0,
            vehicle_brake_temperature_br: 0,
            vehicle_brake_temperature_fl: 0,
            vehicle_brake_temperature_fr: 0,
            vehicle_engine_rpm_max: 0,
            vehicle_engine_rpm_idle: 0,
            vehicle_engine_rpm_current: 0,
            vehicle_throttle: 0,
            vehicle_brake: 0,
            vehicle_clutch: 0,
            vehicle_steering: 0,
            vehicle_handbrake: 0,
            stage_current_time: 0,
            stage_current_distance: 0,
            stage_length: 0,
        }
    }

    /// Whether every scalar that has to be finite (position, velocity and
    /// engine rotation rate) is neither an infinity nor a NaN.
    pub open spec fn all_finite(self) -> bool {
        &&& is_finite(self.vehicle_position_x)
        &&& is_finite(self.vehicle_position_y)
        &&& is_finite(self.vehicle_position_z)
        &&& is_finite(self.vehicle_velocity_x)
        &&& is_finite(self.vehicle_velocity_y)
        &&& is_finite(self.vehicle_velocity_z)
        &&& is_finite(self.vehicle_engine_rpm_max)
        &&& is_finite(self.vehicle_engine_rpm_idle)
        &&& is_finite(self.vehicle_engine_rpm_current)
    }

    /// Tests the finiteness of position, velocity and engine rotation rate.
    pub fn is_all_finite(&self) -> (r: bool)
        ensures
            r == self.all_finite(),
    {
        finite(self.vehicle_position_x) && finite(self.vehicle_position_y) && finite(
            self.vehicle_position_z,
        ) && finite(self.vehicle_velocity_x) && finite(self.vehicle_velocity_y) && finite(
            self.vehicle_velocity_z,
        ) && finite(self.vehicle_engine_rpm_max) && finite(self.vehicle_engine_rpm_idle)
            && finite(self.vehicle_engine_rpm_current)
    }
}

impl Default for Packet {
    fn default() -> (r: Self)
        ensures
            r == Packet::empty(),
    {
        Packet {
            packet_uid: 0,
            game_total_time: 0,
            game_delta_time: 0,
            game_frame_count: 0,
            shiftlights_fraction: 0,
            shiftlights_rpm_start: 0,
            shiftlights_rpm_end: 0,
            shiftlights_rpm_valid: false,
            vehicle_gear_index: 0,
            vehicle_gear_index_neutral: 0,
            vehicle_gear_index_reverse: 0,
            vehicle_gear_maximum: 0,
            vehicle_speed: 0,
            vehicle_transmission_speed: 0,
            vehicle_position_x: 0,
            vehicle_position_y: 0,
            vehicle_position_z: 0,
            vehicle_velocity_x: 0,
            vehicle_velocity_y: 0,
            vehicle_velocity_z: 0,
            vehicle_acceleration_x: 0,
            vehicle_acceleration_y: 0,
            vehicle_acceleration_z: 0,
            vehicle_left_direction_x: 0,
            vehicle_left_direction_y: 0,
            vehicle_left_direction_z: 0,
            vehicle_forward_direction_x: 0,
            vehicle_forward_direction_y: 0,
            vehicle_forward_direction_z: 0,
            vehicle_up_direction_x: 0,
            vehicle_up_direction_y: 0,
            vehicle_up_direction_z: 0,
            vehicle_hub_position_bl: 0,
            vehicle_hub_position_br: 0,
            vehicle_hub_position_fl: 0,
            vehicle_hub_position_fr: 0,
            vehicle_hub_velocity_bl: 0,
            vehicle_hub_velocity_br: 0,
            vehicle_hub_velocity_fl: 0,
            vehicle_hub_velocity_fr: 0,
            vehicle_cp_forward_speed_bl: 0,
            vehicle_cp_forward_speed_br: 0,
            vehicle_cp_forward_speed_fl: 0,
            vehicle_cp_forward_speed_fr: 0,
            vehicle_brake_temperature_bl: 0,
            vehicle_brake_temperature_br: 0,
            vehicle_brake_temperature_fl: 0,
            vehicle_brake_temperature_fr: 0,
            vehicle_engine_rpm_max: 0,
            vehicle_engine_rpm_idle: 0,
            vehicle_engine_rpm_current: 0,
            vehicle_throttle: 0,
            vehicle_brake: 0,
            vehicle_clutch: 0,
            vehicle_steering: 0,
            vehicle_handbrake: 0,
            stage_current_time: 0,
            stage_current_distance: 0,
            stage_length: 0,
        }
    }
}

} // verus!
