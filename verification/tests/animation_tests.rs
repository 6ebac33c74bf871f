use orbit_billboard::animation::{Animation, AnimationError};

#[test]
fn empty_frames_rejected_at_construction() {
    let r = Animation::new(vec![], 100_000);
    assert!(matches!(r, Err(AnimationError::EmptyFrames)));
}

#[test]
fn zero_speed_rejected_at_construction() {
    let r = Animation::new(vec![1, 2, 3], 0);
    assert!(matches!(r, Err(AnimationError::ZeroSpeed)));
}

#[test]
fn empty_frames_reported_before_zero_speed() {
    let r = Animation::new(vec![], 0);
    assert!(matches!(r, Err(AnimationError::EmptyFrames)));
}

#[test]
fn new_animation_shows_first_frame() {
    let a = Animation::new(vec![7, 8, 9], 100_000).unwrap();
    assert_eq!(a.current_index(), 0);
    assert_eq!(a.current_sprite_index(), 7);
    assert_eq!(a.frame_count(), 3);
    assert_eq!(a.elapsed_us(), 0);
    assert_eq!(a.speed_us(), 100_000);
}

#[test]
fn advance_consumes_whole_steps_and_keeps_remainder() {
    // 0.1 s per frame, 4 frames, one 0.25 s advance: two whole steps taken,
    // 0.05 s retained.
    let mut a = Animation::new(vec![4, 5, 6, 7], 100_000).unwrap();
    a.advance(250_000);
    assert_eq!(a.current_index(), 2);
    assert_eq!(a.elapsed_us(), 50_000);
    assert_eq!(a.current_sprite_index(), 6);
}

#[test]
fn advance_wraps_at_end_of_sequence() {
    let mut a = Animation::new(vec![0, 1, 2, 3], 100_000).unwrap();
    a.advance(500_000);
    assert_eq!(a.current_index(), 1);
    assert_eq!(a.elapsed_us(), 0);
}

#[test]
fn advance_accumulates_partial_steps() {
    let mut a = Animation::new(vec![0, 1, 2, 3], 100_000).unwrap();
    a.advance(60_000);
    assert_eq!(a.current_index(), 0);
    assert_eq!(a.elapsed_us(), 60_000);
    a.advance(60_000);
    assert_eq!(a.current_index(), 1);
    assert_eq!(a.elapsed_us(), 20_000);
}

#[test]
fn single_frame_animation_stays_on_its_frame() {
    let mut a = Animation::new(vec![42], 100_000).unwrap();
    a.advance(1_000_000);
    assert_eq!(a.current_index(), 0);
    assert_eq!(a.current_sprite_index(), 42);
}

#[test]
fn reset_returns_to_start() {
    let mut a = Animation::new(vec![0, 1, 2, 3], 100_000).unwrap();
    a.advance(330_000);
    assert_eq!(a.current_index(), 3);
    a.reset();
    assert_eq!(a.current_index(), 0);
    assert_eq!(a.elapsed_us(), 0);
}

#[test]
fn rebind_keeps_in_bounds_phase_and_zeroes_the_rest() {
    let mut a = Animation::new(vec![0, 1, 2, 3], 100_000).unwrap();
    a.rebind_phase(2);
    assert_eq!(a.current_index(), 2);
    a.rebind_phase(9);
    assert_eq!(a.current_index(), 0);
}
