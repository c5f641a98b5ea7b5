use wrc::format::{format_duration, format_whole_seconds, percentage, truncate_seconds};
use wrc::Packet;

#[test]
fn duration_truncates_to_whole_seconds() {
    assert_eq!(format_duration(924.497f32.to_bits()), "00:15:24");
}

#[test]
fn duration_at_one_minute() {
    assert_eq!(format_duration(60.0f32.to_bits()), "00:01:00");
}

#[test]
fn duration_just_below_one_minute() {
    assert_eq!(format_duration(59.999f32.to_bits()), "00:00:59");
}

#[test]
fn duration_of_zero() {
    assert_eq!(format_duration(0.0f32.to_bits()), "00:00:00");
}

#[test]
fn duration_with_many_hours() {
    assert_eq!(format_whole_seconds(360_000 + 61), "100:01:01");
    assert_eq!(format_whole_seconds(3599), "00:59:59");
    assert_eq!(format_whole_seconds(3600), "01:00:00");
}

#[test]
fn duration_negative() {
    assert_eq!(format_duration((-61.5f32).to_bits()), "-00:01:01");
    assert_eq!(format_whole_seconds(i64::MIN), "-2562047788015215:30:08");
    assert_eq!(format_whole_seconds(i64::MAX), "2562047788015215:30:07");
}

#[test]
fn truncation_matches_the_machine() {
    let samples: [f32; 22] = [
        0.0, -0.0, 0.4, 0.999, 1.0, 1.5, -1.5, 59.999, 60.0, 924.497, 8388608.0, 8388609.0,
        16777216.0, 1.0e10, -1.0e10, 9.2e18, 9.3e18, -9.3e18, f32::MAX, f32::MIN,
        f32::MIN_POSITIVE, 1.0e-45,
    ];
    for x in samples {
        assert_eq!(truncate_seconds(x.to_bits()), x as i64, "{}", x);
    }
    assert_eq!(truncate_seconds(f32::NAN.to_bits()), 0);
    assert_eq!(truncate_seconds(f32::INFINITY.to_bits()), i64::MAX);
    assert_eq!(truncate_seconds(f32::NEG_INFINITY.to_bits()), i64::MIN);
}

#[test]
fn percentage_truncates() {
    assert_eq!(percentage(0.5f32.to_bits()), 50);
    assert_eq!(percentage(0.999f32.to_bits()), 99);
    assert_eq!(percentage(1.0f32.to_bits()), 100);
}

#[test]
fn percentage_edges() {
    assert_eq!(percentage(0.0f32.to_bits()), 0);
    assert_eq!(percentage((-0.0f32).to_bits()), 0);
    assert_eq!(percentage(0.009f32.to_bits()), 0);
    assert_eq!(percentage(0.01f32.to_bits()), 0);
    assert_eq!(percentage(0.25f32.to_bits()), 25);
    assert_eq!(percentage(1.5f32.to_bits()), 150);
    assert_eq!(percentage((-0.5f32).to_bits()), 0);
    assert_eq!(percentage(f32::NAN.to_bits()), 0);
    assert_eq!(percentage(f32::INFINITY.to_bits()), usize::MAX);
    assert_eq!(percentage(f32::MAX.to_bits()), usize::MAX);
}

#[test]
fn percentage_is_exact_not_rounded() {
    // The product of the nearest single-precision value to 0.29 with one
    // hundred lies just below 29.
    assert_eq!(percentage(0.29f32.to_bits()), 28);
}

#[test]
fn packet_views() {
    let mut p = Packet::default();
    p.stage_current_time = 924.497f32.to_bits();
    p.game_total_time = 3725.9f32.to_bits();
    p.vehicle_throttle = 0.999f32.to_bits();
    p.vehicle_brake = 0.5f32.to_bits();
    p.vehicle_clutch = 1.0f32.to_bits();
    p.vehicle_handbrake = 0.0f32.to_bits();
    assert_eq!(p.stage_time_pretty(), "00:15:24");
    assert_eq!(p.total_time_pretty(), "01:02:05");
    assert_eq!(p.throttle_percentage(), 99);
    assert_eq!(p.brake_percentage(), 50);
    assert_eq!(p.clutch_percentage(), 100);
    assert_eq!(p.handbrake_percentage(), 0);
}

#[test]
fn formatting_twice_gives_the_same_text() {
    let mut p = Packet::default();
    p.stage_current_time = 924.497f32.to_bits();
    p.game_total_time = 12.0f32.to_bits();
    let first = (p.stage_time_pretty(), p.total_time_pretty(), p.throttle_percentage());
    let second = (p.stage_time_pretty(), p.total_time_pretty(), p.throttle_percentage());
    assert_eq!(first, second);
    assert_eq!(first.0.as_bytes(), second.0.as_bytes());
}
