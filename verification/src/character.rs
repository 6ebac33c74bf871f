//! Animated billboard characters: direction classification from the viewing
//! angle, orientation changes that preserve animation phase, state-machine
//! transitions, per-tick playback, and movement application.
//!
//! The classifier's angular thresholds are stated exactly: for non-degenerate
//! vectors, `angle(h, v) < pi/4` holds if and only if `dot(h, v) > 0` and
//! `2 * dot(h, v)^2 > |h|^2 * |v|^2`, because `cos^2` of the angle then
//! exceeds one half; likewise `angle > 3*pi/4` with a negative dot. This lets
//! integer arithmetic decide the same predicate the continuous geometry does.

use vstd::prelude::*;

verus! {

use crate::animation::advance_model;
use crate::animation::rebind_model;
use crate::animation::reset_model;
use crate::animation::AnimModel;
use crate::animation::Animation;
use crate::animation::AnimationState;
use crate::animation::Direction;
use crate::animation::DT_MAX_US;
use crate::table::AnimKey;
use crate::table::AnimationTable;
use crate::vec3::dot;
use crate::vec3::dot_wide;
use crate::vec3::in_coord_range;
use crate::vec3::norm_sq;
use crate::vec3::Vec3;
use crate::vec3::COORD_MAX;

/// What the rendering layer reads for one character each tick: the sprite
/// atlas index to draw and whether to mirror it horizontally.
#[derive(Clone, Copy, PartialEq, Eq, Structural, Debug)]
pub struct SpriteState {
    pub index: usize,
    pub flip_x: bool,
}

/// Walking and running speeds of a movable character, in fixed-point units
/// per second.
#[derive(Clone, Copy, PartialEq, Eq, Structural, Debug)]
pub struct Movable {
    pub walk_speed: i64,
    pub run_speed: i64,
}

impl Default for Movable {
    /// Two units per second walking, five running.
    fn default() -> (r: Movable)
        ensures
            r == (Movable { walk_speed: 2000i64, run_speed: 5000i64 }),
    {
        Movable { walk_speed: 2000, run_speed: 5000 }
    }
}

/// The mathematical value of an `AnimatedCharacter`.
#[verifier::ext_equal]
pub struct CharModel {
    pub heading: Vec3,
    pub direction: Direction,
    pub state: AnimationState,
    pub table: Map<AnimKey, AnimModel>,
}

/// A billboard character: the world-space heading it faces, the discrete
/// direction and animation state it is shown in, and its animation table.
pub struct AnimatedCharacter {
    heading: Vec3,
    direction: Direction,
    state: AnimationState,
    animations: AnimationTable,
}

impl View for AnimatedCharacter {
    type V = CharModel;

    closed spec fn view(&self) -> CharModel {
        CharModel {
            heading: self.heading,
            direction: self.direction,
            state: self.state,
            table: self.animations@,
        }
    }
}

/// Every animation reachable through the character's table is well formed and
/// the heading is within the coordinate range the classifier accepts.
pub open spec fn wf_char(c: CharModel) -> bool {
    &&& forall|k: AnimKey| #[trigger] c.table.dom().contains(k) ==> crate::animation::wf_anim(
        c.table[k],
    )
    &&& in_coord_range(c.heading)
}

/// The discrete direction a sprite faces, classified from the character
/// heading `h` and the viewer offset `v`, with `prev` held when the geometry
/// is degenerate.
///
/// Within the middle band, the side is decided by the sign of
/// `dot(h - v, right(h))` where `right(h)` is `h` rotated a quarter turn
/// about the up axis; a negative sign maps to `Right`, the mirrored pose.
/// Which side the negative sign names is a fixed convention of this crate.
pub open spec fn classify_spec(h: Vec3, v: Vec3, prev: Direction) -> Direction {
    let hh = norm_sq(h);
    let vv = norm_sq(v);
    let d = dot(h, v);
    if hh == 0 || vv == 0 {
        prev
    } else if d > 0 && 2 * d * d > hh * vv {
        Direction::Down
    } else if d < 0 && 2 * d * d > hh * vv {
        Direction::Up
    } else {
        if side_sign(h, v) < 0 {
            Direction::Right
        } else {
            Direction::Left
        }
    }
}

/// `dot(h - v, right(h))`: the quantity whose sign picks the left or right
/// pose. `right(h)` is `(h.z, h.y, -h.x)`, the heading rotated a quarter turn
/// about the up axis.
pub open spec fn side_sign(h: Vec3, v: Vec3) -> int {
    (h.x - v.x) * h.z + (h.y - v.y) * h.y + (h.z - v.z) * (-h.x)
}

/// The phase the character's current animation entry is showing, or 0 when
/// the pair has no entry.
pub open spec fn phase_of(c: CharModel) -> nat {
    if c.table.dom().contains((c.state, c.direction)) {
        c.table[(c.state, c.direction)].current
    } else {
        0
    }
}

/// The character and sprite after the shown direction is set to `d`: a no-op
/// when `d` already holds; otherwise the old entry's phase is carried into
/// the new entry, the old entry is reset, the sprite shows the new entry's
/// frame (or holds its last one when the pair is unmapped), and the mirror
/// flag is driven purely by `d`.
pub open spec fn set_direction_model(c: CharModel, d: Direction, s: SpriteState) -> (
    CharModel,
    SpriteState,
) {
    if c.direction == d {
        (c, s)
    } else {
        let phase = phase_of(c);
        let old_key = (c.state, c.direction);
        let new_key = (c.state, d);
        let t1 = if c.table.dom().contains(old_key) {
            c.table.insert(old_key, reset_model(c.table[old_key]))
        } else {
            c.table
        };
        let t2 = if t1.dom().contains(new_key) {
            t1.insert(new_key, rebind_model(t1[new_key], phase))
        } else {
            t1
        };
        let index = if t1.dom().contains(new_key) {
            let a = rebind_model(t1[new_key], phase);
            a.frames[a.current as int]
        } else {
            s.index
        };
        (
            CharModel { direction: d, table: t2, ..c },
            SpriteState { index, flip_x: d == Direction::Right },
        )
    }
}

/// The character and sprite after one orientation update against viewer
/// offset `v`: the classified direction is applied by `set_direction_model`.
pub open spec fn update_direction_model(c: CharModel, s: SpriteState, v: Vec3) -> (
    CharModel,
    SpriteState,
) {
    set_direction_model(c, classify_spec(c.heading, v, c.direction), s)
}

/// The character after its animation state is set to `st`: a no-op when `st`
/// already holds; otherwise the entry of the old state is reset — phase is
/// not carried across a state change — and the state becomes `st`.
pub open spec fn set_state_model(c: CharModel, st: AnimationState) -> CharModel {
    if c.state == st {
        c
    } else {
        let old_key = (c.state, c.direction);
        let t1 = if c.table.dom().contains(old_key) {
            c.table.insert(old_key, reset_model(c.table[old_key]))
        } else {
            c.table
        };
        CharModel { state: st, table: t1, ..c }
    }
}

/// The character and sprite after `dt` microseconds of playback: the entry of
/// the current pair advances and the sprite shows its frame; without an entry
/// nothing moves and the sprite holds its last frame.
pub open spec fn animate_model(c: CharModel, s: SpriteState, dt: nat) -> (CharModel, SpriteState) {
    let k = (c.state, c.direction);
    if c.table.dom().contains(k) {
        let a = advance_model(c.table[k], dt);
        (
            CharModel { table: c.table.insert(k, a), ..c },
            SpriteState { index: a.frames[a.current as int], ..s },
        )
    } else {
        (c, s)
    }
}

impl AnimatedCharacter {
    pub open spec fn wf(&self) -> bool {
        wf_char(self@)
    }

    /// A character facing `heading`, shown walking toward the viewer comes
    /// later: it starts idle, facing down, with the given table.
    pub fn new(heading: Vec3, animations: AnimationTable) -> (r: AnimatedCharacter)
        requires
            in_coord_range(heading),
            animations.wf(),
        ensures
            r.wf(),
            r@ == (CharModel {
                heading,
                direction: Direction::Down,
                state: AnimationState::Idle,
                table: animations@,
            }),
    {
        AnimatedCharacter {
            heading,
            direction: Direction::Down,
            state: AnimationState::Idle,
            animations,
        }
    }

    /// The world-space heading the character faces.
    pub fn heading(&self) -> (r: Vec3)
        ensures
            r == self@.heading,
    {
        self.heading
    }
}

impl Default for AnimatedCharacter {
    /// A character facing along positive `z`, shown idle facing down, with an
    /// empty animation table (every lookup misses, so it renders frozen).
    fn default() -> (r: AnimatedCharacter)
        ensures
            r.wf(),
            r@ == (CharModel {
                heading: Vec3 { x: 0i64, y: 0i64, z: 1000i64 },
                direction: Direction::Down,
                state: AnimationState::Idle,
                table: Map::<AnimKey, AnimModel>::empty(),
            }),
    {
        let r = AnimatedCharacter {
            heading: Vec3 { x: 0, y: 0, z: 1000 },
            direction: Direction::Down,
            state: AnimationState::Idle,
            animations: AnimationTable::new(),
        };
        proof {
            assert(r@ =~= (CharModel {
                heading: Vec3 { x: 0i64, y: 0i64, z: 1000i64 },
                direction: Direction::Down,
                state: AnimationState::Idle,
                table: Map::<AnimKey, AnimModel>::empty(),
            }));
        }
        r
    }
}

impl AnimatedCharacter {
    /// The discrete direction the character is currently shown in.
    pub fn direction(&self) -> (r: Direction)
        ensures
            r == self@.direction,
    {
        self.direction
    }

    /// The animation state the character is currently performing.
    pub fn animation_state(&self) -> (r: AnimationState)
        ensures
            r == self@.state,
    {
        self.state
    }

    /// The animation bound to `(state, direction)`, if the table has one.
    pub fn animation(&self, state: AnimationState, direction: Direction) -> (r: Option<&Animation>)
        ensures
            r is Some <==> self@.table.dom().contains((state, direction)),
            r is Some ==> r->0@ == self@.table[(state, direction)],
    {
        self.animations.get(state, direction)
    }

    /// Replaces the heading the character faces.
    pub fn set_heading(&mut self, heading: Vec3)
        requires
            old(self).wf(),
            in_coord_range(heading),
        ensures
            final(self).wf(),
            final(self)@ == (CharModel { heading, ..old(self)@ }),
    {
        self.heading = heading;
        assert(self@ =~= (CharModel { heading, ..old(self)@ }));
    }
}

/// Classifies which discrete direction the character should be shown in, from
/// its heading and the viewer offset `viewing_position`. Pure: equal inputs
/// give equal directions, and degenerate geometry returns the direction the
/// character already shows.
pub fn get_character_direction(character: &AnimatedCharacter, viewing_position: Vec3) -> (r:
    Direction)
    requires
        character.wf(),
        in_coord_range(viewing_position),
    ensures
        r == classify_spec(character@.heading, viewing_position, character@.direction),
{
    let h = character.heading();
    let v = viewing_position;
    let hh: i128 = dot_wide(&h, &h);
    let vv: i128 = dot_wide(&v, &v);
    let d: i128 = dot_wide(&h, &v);
    if hh == 0 || vv == 0 {
        return character.direction();
    }
    proof {
        crate::vec3::lemma_norm_sq_nonneg(h);
        crate::vec3::lemma_norm_sq_nonneg(v);
        lemma_classifier_products(hh as int, vv as int, d as int);
    }
    let lhs: i128 = 2 * (d * d);
    let rhs: i128 = hh * vv;
    proof {
        assert(2 * (d as int * d as int) == 2 * (d as int) * (d as int)) by (nonlinear_arith);
    }
    if d > 0 && lhs > rhs {
        Direction::Down
    } else if d < 0 && lhs > rhs {
        Direction::Up
    } else {
        let rx: i64 = h.z;
        let ry: i64 = h.y;
        let rz: i64 = -h.x;
        proof {
            lemma_side_products(h, v);
        }
        let sx: i128 = (h.x - v.x) as i128 * rx as i128;
        let sy: i128 = (h.y - v.y) as i128 * ry as i128;
        let sz: i128 = (h.z - v.z) as i128 * rz as i128;
        let side: i128 = sx + sy + sz;
        if side < 0 {
            Direction::Right
        } else {
            Direction::Left
        }
    }
}

/// The squared-dot comparison stays inside `i128` for in-range inputs.
proof fn lemma_classifier_products(hh: int, vv: int, d: int)
    requires
        0 <= hh <= 0x3000_0000_0000_0000,
        0 <= vv <= 0x3000_0000_0000_0000,
        -0x3000_0000_0000_0000 <= d <= 0x3000_0000_0000_0000,
    ensures
        0 <= d * d <= 0x0900_0000_0000_0000_0000_0000_0000_0000,
        0 <= hh * vv <= 0x0900_0000_0000_0000_0000_0000_0000_0000,
{
    assert(0 <= d * d <= 0x0900_0000_0000_0000_0000_0000_0000_0000) by (nonlinear_arith)
        requires
            -0x3000_0000_0000_0000 <= d <= 0x3000_0000_0000_0000,
    ;
    assert(0 <= hh * vv <= 0x0900_0000_0000_0000_0000_0000_0000_0000) by (nonlinear_arith)
        requires
            0 <= hh <= 0x3000_0000_0000_0000,
            0 <= vv <= 0x3000_0000_0000_0000,
    ;
}

/// The side-sign products of in-range vectors stay inside `i128`.
proof fn lemma_side_products(h: Vec3, v: Vec3)
    requires
        in_coord_range(h),
        in_coord_range(v),
    ensures
        -0x4000_0000_0000_0000 <= (h.x - v.x) * h.z <= 0x4000_0000_0000_0000,
        -0x4000_0000_0000_0000 <= (h.y - v.y) * h.y <= 0x4000_0000_0000_0000,
        -0x4000_0000_0000_0000 <= (h.z - v.z) * (-h.x) <= 0x4000_0000_0000_0000,
{
    assert((-0x4000_0000_0000_0000 <= (h.x - v.x) * h.z <= 0x4000_0000_0000_0000) && (
    -0x4000_0000_0000_0000 <= (h.y - v.y) * h.y <= 0x4000_0000_0000_0000) && (
    -0x4000_0000_0000_0000 <= (h.z - v.z) * (-h.x) <= 0x4000_0000_0000_0000)) by (nonlinear_arith)
        requires
            -0x4000_0000 <= h.x <= 0x4000_0000,
            -0x4000_0000 <= h.y <= 0x4000_0000,
            -0x4000_0000 <= h.z <= 0x4000_0000,
            -0x4000_0000 <= v.x <= 0x4000_0000,
            -0x4000_0000 <= v.y <= 0x4000_0000,
            -0x4000_0000 <= v.z <= 0x4000_0000,
    ;
}

/// Shows the character in `direction`. A repeated direction changes nothing;
/// a new one carries the playback phase from the old entry into the new (when
/// it fits), resets the old entry, points the sprite at the new entry's frame
/// and mirrors the sprite exactly for the mirrored pose.
pub fn set_character_direction(
    character: &mut AnimatedCharacter,
    direction: Direction,
    sprite: &mut SpriteState,
)
    requires
        old(character).wf(),
    ensures
        final(character).wf(),
        (final(character)@, *final(sprite)) == set_direction_model(
            old(character)@,
            direction,
            *old(sprite),
        ),
{
    if character.direction == direction {
        return ;
    }
    let state = character.state;
    let prev_direction = character.direction;
    proof {
        lemma_table_wf_of_char(character);
    }
    let phase = character.animations.take_phase_and_reset(state, prev_direction);
    let rebound = character.animations.rebind_phase_at(state, direction, phase);
    if let Some(index) = rebound {
        sprite.index = index;
    }
    sprite.flip_x = direction == Direction::Right;
    character.direction = direction;
    proof {
        let m = set_direction_model(old(character)@, direction, *old(sprite));
        assert(character@ =~= m.0);
    }
}

/// The character after its current animation entry is reset: the entry of the
/// pair being shown returns to phase 0 with an empty timer; a missing entry
/// changes nothing.
pub open spec fn reset_animation_model(c: CharModel) -> CharModel {
    let k = (c.state, c.direction);
    if c.table.dom().contains(k) {
        CharModel { table: c.table.insert(k, reset_model(c.table[k])), ..c }
    } else {
        c
    }
}

/// Resets the animation entry the character is currently showing; a pair
/// without an entry changes nothing.
pub fn reset_animation(character: &mut AnimatedCharacter)
    requires
        old(character).wf(),
    ensures
        final(character).wf(),
        final(character)@ == reset_animation_model(old(character)@),
{
    proof {
        lemma_table_wf_of_char(character);
    }
    let state = character.state;
    let direction = character.direction;
    let _ = character.animations.take_phase_and_reset(state, direction);
    proof {
        lemma_char_wf_from_parts(character);
        assert(character@ =~= reset_animation_model(old(character)@));
    }
}

/// Puts the character into `animation_state`. A repeated state changes
/// nothing; a new one resets the entry of the old state first, so phase never
/// carries across a state change (only across direction changes).
pub fn set_animation_state(character: &mut AnimatedCharacter, animation_state: AnimationState)
    requires
        old(character).wf(),
    ensures
        final(character).wf(),
        final(character)@ == set_state_model(old(character)@, animation_state),
{
    if character.state == animation_state {
        return ;
    }
    reset_animation(character);
    character.state = animation_state;
    proof {
        assert(character@ =~= set_state_model(old(character)@, animation_state));
    }
}

/// One orientation update: classifies the direction against the viewer offset
/// and applies it. Camera state must already be updated for this tick, so the
/// classification reads the current viewer offset, not the previous tick's.
pub fn update_character_direction(
    character: &mut AnimatedCharacter,
    sprite: &mut SpriteState,
    viewing_position: Vec3,
)
    requires
        old(character).wf(),
        in_coord_range(viewing_position),
    ensures
        final(character).wf(),
        (final(character)@, *final(sprite)) == update_direction_model(
            old(character)@,
            *old(sprite),
            viewing_position,
        ),
{
    let direction = get_character_direction(character, viewing_position);
    set_character_direction(character, direction, sprite);
}

/// One playback update: advances the animation entry the character is showing
/// by `dt` microseconds and points the sprite at its frame. A pair without an
/// entry holds the last rendered sprite and skips playback.
pub fn animate_sprite_system(character: &mut AnimatedCharacter, sprite: &mut SpriteState, dt: u64)
    requires
        old(character).wf(),
        dt <= DT_MAX_US,
    ensures
        final(character).wf(),
        (final(character)@, *final(sprite)) == animate_model(old(character)@, *old(sprite), dt as nat),
{
    proof {
        lemma_table_wf_of_char(character);
    }
    let state = character.state;
    let direction = character.direction;
    match character.animations.advance_at(state, direction, dt) {
        Some(index) => {
            sprite.index = index;
        },
        None => {},
    }
    proof {
        lemma_char_wf_from_parts(character);
        assert(character@ =~= animate_model(old(character)@, *old(sprite), dt as nat).0);
    }
}

/// One whole character tick, in the fixed order the data flow demands: the
/// direction is classified against the viewer offset of the already-updated
/// camera and applied first, then the bound frame sequence advances by the
/// tick's elapsed time.
pub fn tick_character(
    character: &mut AnimatedCharacter,
    sprite: &mut SpriteState,
    viewing_position: Vec3,
    dt: u64,
)
    requires
        old(character).wf(),
        in_coord_range(viewing_position),
        dt <= DT_MAX_US,
    ensures
        final(character).wf(),
        ({
            let m = update_direction_model(old(character)@, *old(sprite), viewing_position);
            (final(character)@, *final(sprite)) == animate_model(m.0, m.1, dt as nat)
        }),
{
    update_character_direction(character, sprite, viewing_position);
    animate_sprite_system(character, sprite, dt);
}

/// Applies a movement impulse: the position shifts by `move_force`, the
/// heading becomes `move_force`, and the character walks (resetting the old
/// state's entry if it was not walking already).
pub fn move_character(character: &mut AnimatedCharacter, position: &mut Vec3, move_force: Vec3)
    requires
        old(character).wf(),
        in_coord_range(*old(position)),
        in_coord_range(move_force),
        -COORD_MAX <= old(position).x + move_force.x <= COORD_MAX,
        -COORD_MAX <= old(position).y + move_force.y <= COORD_MAX,
        -COORD_MAX <= old(position).z + move_force.z <= COORD_MAX,
    ensures
        final(character).wf(),
        in_coord_range(*final(position)),
        final(position).x == old(position).x + move_force.x,
        final(position).y == old(position).y + move_force.y,
        final(position).z == old(position).z + move_force.z,
        final(character)@ == set_state_model(
            CharModel { heading: move_force, ..old(character)@ },
            AnimationState::Walk,
        ),
{
    character.set_heading(move_force);
    set_animation_state(character, AnimationState::Walk);
    *position = position.plus(&move_force);
}

/// One tick of player control over an already-resolved world-space movement
/// intent: a zero intent sets the character idle and moves nothing; a nonzero
/// one becomes the heading, sets the character walking and shifts the
/// position. Input sampling and camera-relative resolution happen outside.
pub fn control_player(character: &mut AnimatedCharacter, position: &mut Vec3, movement: Vec3)
    requires
        old(character).wf(),
        in_coord_range(*old(position)),
        in_coord_range(movement),
        -COORD_MAX <= old(position).x + movement.x <= COORD_MAX,
        -COORD_MAX <= old(position).y + movement.y <= COORD_MAX,
        -COORD_MAX <= old(position).z + movement.z <= COORD_MAX,
    ensures
        final(character).wf(),
        in_coord_range(*final(position)),
        (movement.x == 0 && movement.y == 0 && movement.z == 0) ==> final(character)@
            == set_state_model(old(character)@, AnimationState::Idle) && *final(position) == *old(
            position,
        ),
        !(movement.x == 0 && movement.y == 0 && movement.z == 0) ==> final(character)@
            == set_state_model(
            CharModel { heading: movement, ..old(character)@ },
            AnimationState::Walk,
        ) && final(position).x == old(position).x + movement.x && final(position).y == old(
            position,
        ).y + movement.y && final(position).z == old(position).z + movement.z,
{
    if movement.is_zero() {
        set_animation_state(character, AnimationState::Idle);
    } else {
        move_character(character, position, movement);
    }
}

/// Law: one orientation update settles the character, so updating again with
/// an unchanged viewer offset changes nothing — direction, animation phase
/// and mirror flag all stay as the first update left them.
pub proof fn lemma_update_direction_idempotent(c: CharModel, s: SpriteState, v: Vec3)
    ensures
        update_direction_model(
            update_direction_model(c, s, v).0,
            update_direction_model(c, s, v).1,
            v,
        ) == update_direction_model(c, s, v),
{
    let c1 = update_direction_model(c, s, v).0;
    let d = classify_spec(c.heading, v, c.direction);
    assert(c1.heading == c.heading);
    assert(c1.direction == d);
    assert(classify_spec(c1.heading, v, c1.direction) == c1.direction);
}

/// A well-formed character holds a well-formed table.
proof fn lemma_table_wf_of_char(c: &AnimatedCharacter)
    requires
        c.wf(),
    ensures
        c.animations.wf(),
{
    assert forall|k: AnimKey| #[trigger] c.animations@.dom().contains(k) implies
        crate::animation::wf_anim(c.animations@[k]) by {
        assert(c@.table.dom().contains(k));
    }
}

/// A character over a well-formed table and an in-range heading is well
/// formed.
proof fn lemma_char_wf_from_parts(c: &AnimatedCharacter)
    requires
        c.animations.wf(),
        in_coord_range(c.heading),
    ensures
        c.wf(),
{
    assert forall|k: AnimKey| #[trigger] c@.table.dom().contains(k) implies
        crate::animation::wf_anim(c@.table[k]) by {
        assert(c.animations@.dom().contains(k));
    }
}

} // verus!
