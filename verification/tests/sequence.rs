use wrc::sequence::{SequenceEvent, SequenceMonitor, DEFAULT_RESET_THRESHOLD, DEFAULT_WINDOW};

fn run(m: &mut SequenceMonitor, ids: &[u64]) -> Vec<SequenceEvent> {
    ids.iter().map(|id| m.observe(*id)).collect()
}

#[test]
fn classification_of_a_mixed_stream() {
    let mut m = SequenceMonitor::new();
    assert_eq!(
        run(&mut m, &[5, 6, 8, 7, 6, 2]),
        vec![
            SequenceEvent::InOrder,
            SequenceEvent::InOrder,
            SequenceEvent::Gap(2),
            SequenceEvent::Reordered,
            SequenceEvent::Duplicate,
            SequenceEvent::Reset,
        ]
    );
    assert_eq!(m.last_seen(), Some(2));
}

#[test]
fn defaults() {
    assert_eq!(DEFAULT_RESET_THRESHOLD, 5);
    assert_eq!(DEFAULT_WINDOW, 64);
    assert_eq!(SequenceMonitor::new().last_seen(), None);
}

#[test]
fn first_observation_is_in_order() {
    let mut m = SequenceMonitor::new();
    assert_eq!(m.observe(1000), SequenceEvent::InOrder);
    assert_eq!(m.last_seen(), Some(1000));
}

#[test]
fn reset_threshold_both_sides() {
    let mut m = SequenceMonitor::new();
    assert_eq!(m.observe(100), SequenceEvent::InOrder);
    assert_eq!(m.observe(96), SequenceEvent::Reordered);
    assert_eq!(m.last_seen(), Some(100));
    assert_eq!(m.observe(95), SequenceEvent::Reset);
    assert_eq!(m.last_seen(), Some(95));
}

#[test]
fn configured_threshold_both_sides() {
    let mut m = SequenceMonitor::with_config(8, 1000);
    assert_eq!(m.observe(5000), SequenceEvent::InOrder);
    assert_eq!(m.observe(4001), SequenceEvent::Reordered);
    assert_eq!(m.observe(4000), SequenceEvent::Reset);
    assert_eq!(m.observe(4001), SequenceEvent::InOrder);
}

#[test]
fn gap_counts_the_jump() {
    let mut m = SequenceMonitor::new();
    m.observe(10);
    assert_eq!(m.observe(15), SequenceEvent::Gap(5));
    assert_eq!(m.observe(16), SequenceEvent::InOrder);
    assert_eq!(m.observe(u64::MAX), SequenceEvent::Gap(u64::MAX - 16));
    assert_eq!(m.observe(0), SequenceEvent::Reset);
}

#[test]
fn repeat_is_duplicate() {
    let mut m = SequenceMonitor::new();
    for id in [7u64, 9, 8, 3] {
        m.observe(id);
        assert_eq!(m.observe(id), SequenceEvent::Duplicate);
    }
}

#[test]
fn duplicate_changes_nothing() {
    let mut m = SequenceMonitor::new();
    run(&mut m, &[1, 2, 3]);
    assert_eq!(m.observe(2), SequenceEvent::Duplicate);
    assert_eq!(m.last_seen(), Some(3));
    assert_eq!(m.observe(4), SequenceEvent::InOrder);
}

#[test]
fn window_forgets_the_oldest() {
    let mut m = SequenceMonitor::with_config(2, 100);
    run(&mut m, &[10, 12, 13]);
    // 10 has left the window of two, 12 has not.
    assert_eq!(m.observe(12), SequenceEvent::Duplicate);
    assert_eq!(m.observe(10), SequenceEvent::Reordered);
    assert_eq!(m.observe(11), SequenceEvent::Reordered);
}

#[test]
fn window_of_zero_knows_only_the_newest() {
    let mut m = SequenceMonitor::with_config(0, 100);
    run(&mut m, &[10, 11]);
    assert_eq!(m.observe(11), SequenceEvent::Duplicate);
    assert_eq!(m.observe(10), SequenceEvent::Reordered);
    assert_eq!(m.observe(10), SequenceEvent::Reordered);
}

#[test]
fn reset_forgets_the_window() {
    let mut m = SequenceMonitor::new();
    run(&mut m, &[1, 2, 3, 50]);
    assert_eq!(m.observe(1), SequenceEvent::Duplicate);
    assert_eq!(m.observe(4), SequenceEvent::Reset);
    assert_eq!(m.observe(3), SequenceEvent::Reordered);
    assert_eq!(m.observe(5), SequenceEvent::InOrder);
}

#[test]
fn threshold_of_zero_makes_every_step_back_a_reset() {
    let mut m = SequenceMonitor::with_config(4, 0);
    run(&mut m, &[10, 11]);
    assert_eq!(m.observe(9), SequenceEvent::Reset);
}
