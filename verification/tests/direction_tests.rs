use orbit_billboard::animation::Direction;
use orbit_billboard::character::{get_character_direction, AnimatedCharacter};
use orbit_billboard::table::AnimationTable;
use orbit_billboard::vec3::Vec3;

fn character_heading(x: i64, y: i64, z: i64) -> AnimatedCharacter {
    AnimatedCharacter::new(Vec3::new(x, y, z), AnimationTable::new())
}

#[test]
fn zero_angle_classifies_down() {
    // Viewer offset parallel to the heading: the camera looks at the front.
    let c = character_heading(0, 0, 1000);
    let d = get_character_direction(&c, Vec3::new(0, 0, 1000));
    assert_eq!(d, Direction::Down);
}

#[test]
fn pi_angle_classifies_up() {
    // Viewer offset opposite the heading: the camera is behind.
    let c = character_heading(0, 0, 1000);
    let d = get_character_direction(&c, Vec3::new(0, 0, -1000));
    assert_eq!(d, Direction::Up);
}

#[test]
fn right_angle_with_negative_side_dot_classifies_right() {
    // heading (0,0,1): right(h) = (1,0,0); viewer (1,0,0) makes
    // dot(h - v, right(h)) = -1 < 0.
    let c = character_heading(0, 0, 1000);
    let d = get_character_direction(&c, Vec3::new(1000, 0, 0));
    assert_eq!(d, Direction::Right);
}

#[test]
fn right_angle_with_positive_side_dot_classifies_left() {
    let c = character_heading(0, 0, 1000);
    let d = get_character_direction(&c, Vec3::new(-1000, 0, 0));
    assert_eq!(d, Direction::Left);
}

#[test]
fn just_inside_front_cone_is_down() {
    // angle noticeably below pi/4: dot 2, |h|^2 = 2, |v|^2 = 1, and
    // 2*dot^2 = 8 > 2. Heading (1,1,0) against viewer (1,0,0) is exactly
    // pi/4, so nudge the viewer toward the heading.
    let c = character_heading(1000, 1000, 0);
    let d = get_character_direction(&c, Vec3::new(1000, 500, 0));
    assert_eq!(d, Direction::Down);
}

#[test]
fn exact_quarter_angle_falls_to_the_side_rule() {
    // Heading (1,1,0) and viewer (1,0,0) enclose exactly pi/4; the strict
    // front-cone test fails and the side rule decides.
    let c = character_heading(1000, 1000, 0);
    let d = get_character_direction(&c, Vec3::new(1000, 0, 0));
    assert!(d == Direction::Left || d == Direction::Right);
}

#[test]
fn degenerate_heading_holds_previous_direction() {
    let c = character_heading(0, 0, 0);
    let d = get_character_direction(&c, Vec3::new(1000, 0, 0));
    assert_eq!(d, c.direction());
}

#[test]
fn degenerate_viewer_holds_previous_direction() {
    let c = character_heading(0, 0, 1000);
    let d = get_character_direction(&c, Vec3::new(0, 0, 0));
    assert_eq!(d, c.direction());
}

#[test]
fn classification_is_pure() {
    let c = character_heading(300, 0, 700);
    let v = Vec3::new(-400, 0, 900);
    let d1 = get_character_direction(&c, v);
    let d2 = get_character_direction(&c, v);
    assert_eq!(d1, d2);
}
