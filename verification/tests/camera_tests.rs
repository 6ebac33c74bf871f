use orbit_billboard::camera::{camera_control, camera_follow, tick_camera, CameraPose, FollowCamera};
use orbit_billboard::vec3::Vec3;

const TICK_MS: i64 = 16;

fn origin_pose() -> CameraPose {
    CameraPose { position: Vec3::new(0, 0, 0), yaw: 0, pitch: 0 }
}

#[test]
fn default_camera_is_within_limits() {
    let c = FollowCamera::default();
    assert!(c.zoom_limit_min <= c.zoom && c.zoom <= c.zoom_limit_max);
    assert!(
        c.rotation_vertical_limit_min <= c.rotation_vertical
            && c.rotation_vertical <= c.rotation_vertical_limit_max
    );
}

#[test]
fn scroll_zooms_by_the_scaled_delta() {
    // zoom 8.0, zoom_speed 30.0, dt 0.016 s, one line of scroll:
    // 8.0 - 1.0 * 30.0 * 0.016 = 7.52.
    let mut c = FollowCamera::default();
    camera_control(&mut c, &vec![1000], false, &vec![], TICK_MS);
    assert_eq!(c.zoom, 7520);
}

#[test]
fn scroll_clamps_at_the_near_limit() {
    let mut c = FollowCamera::default();
    camera_control(&mut c, &vec![2_000_000], false, &vec![], TICK_MS);
    assert_eq!(c.zoom, c.zoom_limit_min);
}

#[test]
fn scroll_clamps_at_the_far_limit() {
    let mut c = FollowCamera::default();
    camera_control(&mut c, &vec![-2_000_000], false, &vec![], TICK_MS);
    assert_eq!(c.zoom, c.zoom_limit_max);
}

#[test]
fn repeated_scrolls_stay_within_limits() {
    let mut c = FollowCamera::default();
    let script: Vec<i64> = vec![500_000, -900_000, 1_250_000, -30_000, 2_000_000];
    for delta in script {
        camera_control(&mut c, &vec![delta], false, &vec![], TICK_MS);
        assert!(c.zoom_limit_min <= c.zoom && c.zoom <= c.zoom_limit_max);
    }
}

#[test]
fn drag_rotates_both_axes_when_rotate_is_held() {
    // yaw 0.2 - 10.0 * 0.5 * 0.016 = 0.12; pitch -0.6 + 10.0 * 0.3 * 0.016 = -0.552.
    let mut c = FollowCamera::default();
    camera_control(&mut c, &vec![], true, &vec![(10_000, 10_000)], TICK_MS);
    assert_eq!(c.rotation_horizontal, 120);
    assert_eq!(c.rotation_vertical, -552);
}

#[test]
fn drag_is_ignored_without_the_rotate_condition() {
    let mut c = FollowCamera::default();
    camera_control(&mut c, &vec![], false, &vec![(10_000, 10_000)], TICK_MS);
    assert_eq!(c.rotation_horizontal, 200);
    assert_eq!(c.rotation_vertical, -600);
}

#[test]
fn pitch_clamps_at_both_limits() {
    let mut c = FollowCamera::default();
    camera_control(&mut c, &vec![], true, &vec![(0, 2_000_000)], TICK_MS);
    assert_eq!(c.rotation_vertical, c.rotation_vertical_limit_max);
    camera_control(&mut c, &vec![], true, &vec![(0, -2_000_000)], TICK_MS);
    assert_eq!(c.rotation_vertical, c.rotation_vertical_limit_min);
}

#[test]
fn mixed_input_sequences_never_leave_the_limits() {
    let mut c = FollowCamera::default();
    let script: Vec<(i64, i64, i64)> =
        vec![(700_000, 5_000, -90_000), (-1_500_000, -80_000, 70_000), (0, 2_000_000, 2_000_000)];
    for (scroll, dx, dy) in script {
        camera_control(&mut c, &vec![scroll], true, &vec![(dx, dy)], TICK_MS);
        assert!(c.zoom_limit_min <= c.zoom && c.zoom <= c.zoom_limit_max);
        assert!(
            c.rotation_horizontal_limit_min <= c.rotation_horizontal
                && c.rotation_horizontal <= c.rotation_horizontal_limit_max
        );
        assert!(
            c.rotation_vertical_limit_min <= c.rotation_vertical
                && c.rotation_vertical <= c.rotation_vertical_limit_max
        );
    }
}

#[test]
fn follow_moves_a_fraction_toward_the_target() {
    // speed_transition 10.0 over 0.016 s: fraction 0.16.
    let c = FollowCamera::default();
    let mut pose = origin_pose();
    camera_follow(&mut pose, &c, Some(Vec3::new(1000, 2000, 3000)), TICK_MS);
    assert_eq!(pose.position, Vec3::new(160, 320, 480));
    assert_eq!(pose.yaw, 32);
    assert_eq!(pose.pitch, -96);
}

#[test]
fn follow_never_overshoots_even_with_a_long_tick() {
    // speed_transition 10.0 over a full second clamps the fraction at one:
    // the pose lands exactly on the target pose.
    let c = FollowCamera::default();
    let mut pose = origin_pose();
    camera_follow(&mut pose, &c, Some(Vec3::new(1000, 2000, 3000)), 1000);
    assert_eq!(pose.position, Vec3::new(1000, 2000, 3000));
    assert_eq!(pose.yaw, c.rotation_horizontal);
    assert_eq!(pose.pitch, c.rotation_vertical);
}

#[test]
fn follow_converges_monotonically() {
    let c = FollowCamera::default();
    let mut pose = origin_pose();
    let target = Vec3::new(10_000, 0, 0);
    let mut last: i64 = 0;
    for _ in 0..50 {
        camera_follow(&mut pose, &c, Some(target), TICK_MS);
        assert!(last <= pose.position.x && pose.position.x <= target.x);
        last = pose.position.x;
    }
}

#[test]
fn follow_holds_the_pose_without_a_target() {
    let c = FollowCamera::default();
    let mut pose = CameraPose { position: Vec3::new(7, 8, 9), yaw: 10, pitch: -11 };
    camera_follow(&mut pose, &c, None, TICK_MS);
    assert_eq!(pose, CameraPose { position: Vec3::new(7, 8, 9), yaw: 10, pitch: -11 });
}

#[test]
fn tick_smooths_toward_the_post_update_camera() {
    // A drag during the tick moves the yaw target; with the fraction clamped
    // at one, the pose lands on the updated angles, not the previous tick's.
    let mut c = FollowCamera::default();
    let mut pose = origin_pose();
    tick_camera(
        &mut c,
        &mut pose,
        &vec![],
        true,
        &vec![(10_000, 10_000)],
        Some(Vec3::new(0, 0, 0)),
        1000,
    );
    // yaw 0.2 - 10.0 * 0.5 * 1.0 = -4.8; pitch clamps at its upper limit.
    assert_eq!(c.rotation_horizontal, -4800);
    assert_eq!(c.rotation_vertical, -50);
    assert_eq!(pose.yaw, -4800);
    assert_eq!(pose.pitch, -50);
}
