use orbit_billboard::animation::{Animation, AnimationState, Direction};
use orbit_billboard::character::{
    animate_sprite_system, control_player, set_animation_state, set_character_direction,
    update_character_direction, AnimatedCharacter, SpriteState,
};
use orbit_billboard::table::AnimationTable;
use orbit_billboard::vec3::Vec3;

const FRAME_US: u64 = 100_000;

fn walk_and_idle_table() -> AnimationTable {
    let mut t = AnimationTable::new();
    t.insert(
        AnimationState::Idle,
        Direction::Down,
        Animation::new(vec![0], FRAME_US).unwrap(),
    );
    t.insert(
        AnimationState::Walk,
        Direction::Down,
        Animation::new(vec![3, 0, 6, 0], FRAME_US).unwrap(),
    );
    t.insert(
        AnimationState::Walk,
        Direction::Left,
        Animation::new(vec![4, 1, 7, 1], FRAME_US).unwrap(),
    );
    t
}

fn walking_down_character() -> AnimatedCharacter {
    let mut c = AnimatedCharacter::new(Vec3::new(0, 0, 1000), walk_and_idle_table());
    set_animation_state(&mut c, AnimationState::Walk);
    c
}

fn current_index_of(c: &AnimatedCharacter, s: AnimationState, d: Direction) -> usize {
    c.animation(s, d).unwrap().current_index()
}

#[test]
fn phase_carries_across_direction_change() {
    // (Walk, Down) at frame index 2 switches to (Walk, Left), also 4 frames
    // long: the new entry starts at index 2, mid-stride.
    let mut c = walking_down_character();
    let mut sprite = SpriteState { index: 0, flip_x: false };
    animate_sprite_system(&mut c, &mut sprite, 2 * FRAME_US);
    assert_eq!(current_index_of(&c, AnimationState::Walk, Direction::Down), 2);

    set_character_direction(&mut c, Direction::Left, &mut sprite);
    assert_eq!(c.direction(), Direction::Left);
    assert_eq!(current_index_of(&c, AnimationState::Walk, Direction::Left), 2);
    assert_eq!(sprite.index, 7);
    // The entry left behind was reset.
    assert_eq!(current_index_of(&c, AnimationState::Walk, Direction::Down), 0);
}

#[test]
fn oversized_phase_restarts_the_new_entry() {
    let mut t = walk_and_idle_table();
    t.insert(
        AnimationState::Walk,
        Direction::Up,
        Animation::new(vec![9, 10], FRAME_US).unwrap(),
    );
    let mut c = AnimatedCharacter::new(Vec3::new(0, 0, 1000), t);
    set_animation_state(&mut c, AnimationState::Walk);
    let mut sprite = SpriteState { index: 0, flip_x: false };
    animate_sprite_system(&mut c, &mut sprite, 3 * FRAME_US);
    assert_eq!(current_index_of(&c, AnimationState::Walk, Direction::Down), 3);

    // Index 3 does not fit a two-frame sequence: it restarts at 0.
    set_character_direction(&mut c, Direction::Up, &mut sprite);
    assert_eq!(current_index_of(&c, AnimationState::Walk, Direction::Up), 0);
    assert_eq!(sprite.index, 9);
}

#[test]
fn phase_resets_across_state_change() {
    // (Walk, Down) at frame index 3; switching to Idle starts (Idle, Down)
    // from 0, and the walk entry is reset too.
    let mut c = walking_down_character();
    let mut sprite = SpriteState { index: 0, flip_x: false };
    animate_sprite_system(&mut c, &mut sprite, 3 * FRAME_US);
    assert_eq!(current_index_of(&c, AnimationState::Walk, Direction::Down), 3);

    set_animation_state(&mut c, AnimationState::Idle);
    assert_eq!(c.animation_state(), AnimationState::Idle);
    assert_eq!(current_index_of(&c, AnimationState::Idle, Direction::Down), 0);
    assert_eq!(current_index_of(&c, AnimationState::Walk, Direction::Down), 0);
}

#[test]
fn repeated_state_is_a_no_op() {
    let mut c = walking_down_character();
    let mut sprite = SpriteState { index: 0, flip_x: false };
    animate_sprite_system(&mut c, &mut sprite, 2 * FRAME_US);
    set_animation_state(&mut c, AnimationState::Walk);
    // No reset: the phase is untouched.
    assert_eq!(current_index_of(&c, AnimationState::Walk, Direction::Down), 2);
}

#[test]
fn orientation_update_is_idempotent() {
    let mut c = walking_down_character();
    let mut sprite = SpriteState { index: 0, flip_x: false };
    animate_sprite_system(&mut c, &mut sprite, 2 * FRAME_US);

    // Viewer to the side: direction flips to Left once.
    let viewer = Vec3::new(-1000, 0, 0);
    update_character_direction(&mut c, &mut sprite, viewer);
    let direction = c.direction();
    let sprite_after = sprite;
    let walk_left = current_index_of(&c, AnimationState::Walk, Direction::Left);
    let walk_down = current_index_of(&c, AnimationState::Walk, Direction::Down);

    // A second update with an unchanged viewer offset changes nothing.
    update_character_direction(&mut c, &mut sprite, viewer);
    assert_eq!(c.direction(), direction);
    assert_eq!(sprite, sprite_after);
    assert_eq!(current_index_of(&c, AnimationState::Walk, Direction::Left), walk_left);
    assert_eq!(current_index_of(&c, AnimationState::Walk, Direction::Down), walk_down);
}

#[test]
fn mirror_flag_is_driven_purely_by_direction() {
    let mut t = walk_and_idle_table();
    t.insert(
        AnimationState::Walk,
        Direction::Right,
        Animation::new(vec![4, 1, 7, 1], FRAME_US).unwrap(),
    );
    let mut c = AnimatedCharacter::new(Vec3::new(0, 0, 1000), t);
    set_animation_state(&mut c, AnimationState::Walk);
    let mut sprite = SpriteState { index: 0, flip_x: false };

    set_character_direction(&mut c, Direction::Right, &mut sprite);
    assert!(sprite.flip_x);
    set_character_direction(&mut c, Direction::Left, &mut sprite);
    assert!(!sprite.flip_x);
    set_character_direction(&mut c, Direction::Right, &mut sprite);
    assert!(sprite.flip_x);
}

#[test]
fn missing_entry_holds_last_sprite() {
    // A minimal table with only (Idle, Down): classified Up, the character
    // has no entry to show, so the sprite index stays put and nothing faults.
    let mut t = AnimationTable::new();
    t.insert(
        AnimationState::Idle,
        Direction::Down,
        Animation::new(vec![0], FRAME_US).unwrap(),
    );
    let mut c = AnimatedCharacter::new(Vec3::new(1000, 0, 0), t);
    let mut sprite = SpriteState { index: 5, flip_x: false };

    // The viewer offset points directly behind the heading.
    update_character_direction(&mut c, &mut sprite, Vec3::new(-1000, 0, 0));
    assert_eq!(c.direction(), Direction::Up);
    assert_eq!(sprite.index, 5);

    // Playback also skips while the pair is unmapped.
    animate_sprite_system(&mut c, &mut sprite, 10 * FRAME_US);
    assert_eq!(sprite.index, 5);
}

#[test]
fn zero_movement_goes_idle_and_stays_put() {
    let mut c = walking_down_character();
    let mut position = Vec3::new(100, 0, 200);
    control_player(&mut c, &mut position, Vec3::new(0, 0, 0));
    assert_eq!(c.animation_state(), AnimationState::Idle);
    assert_eq!(position, Vec3::new(100, 0, 200));
}

#[test]
fn movement_walks_sets_heading_and_shifts_position() {
    let mut c = AnimatedCharacter::new(Vec3::new(0, 0, 1000), walk_and_idle_table());
    let mut position = Vec3::new(100, 0, 200);
    control_player(&mut c, &mut position, Vec3::new(30, 0, -40));
    assert_eq!(c.animation_state(), AnimationState::Walk);
    assert_eq!(c.heading(), Vec3::new(30, 0, -40));
    assert_eq!(position, Vec3::new(130, 0, 160));
}
