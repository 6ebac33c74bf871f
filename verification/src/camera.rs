//! The orbital follow camera: a clamped spherical offset (yaw, pitch, zoom
//! radius) around a tracked target, driven by scroll and drag input, and a
//! camera pose smoothed toward the target pose each tick.
//!
//! Angles are fixed-point radians, distances fixed-point units, time deltas
//! fixed-point seconds (all `i64` multiples of `1/fixed::SCALE`).

use vstd::prelude::*;

verus! {

use crate::fixed::clamp_spec;
use crate::fixed::clamp_to_i64;
use crate::fixed::scaled_event;
use crate::fixed::smooth_spec;
use crate::fixed::smooth_step;
use crate::fixed::trunc_div;
use crate::fixed::EVENT_MAX;
use crate::fixed::SCALE;
use crate::fixed::SCALE_SQ;
use crate::fixed::VAL_MAX;
use crate::vec3::Vec3;

/// The mathematical value of a `FollowCamera`, over unbounded integers.
#[verifier::ext_equal]
pub struct CamModel {
    pub offset: Vec3,
    pub zoom: int,
    pub zoom_speed: int,
    pub zoom_limit_min: int,
    pub zoom_limit_max: int,
    pub speed_transition: int,
    pub rotation_horizontal: int,
    pub rotation_horizontal_speed: int,
    pub rotation_horizontal_limit_min: int,
    pub rotation_horizontal_limit_max: int,
    pub rotation_vertical: int,
    pub rotation_vertical_speed: int,
    pub rotation_vertical_limit_min: int,
    pub rotation_vertical_limit_max: int,
}

/// The orbital camera's state and configuration: an offset to the tracked
/// point, the zoom distance, the two orbit angles, their speeds and limits,
/// and the smoothing rate. Configuration is supplied at construction.
pub struct FollowCamera {
    /// Offset added to the tracked target's position.
    pub offset: Vec3,
    /// Distance toward the target, in fixed-point units.
    pub zoom: i64,
    pub zoom_speed: i64,
    pub zoom_limit_min: i64,
    pub zoom_limit_max: i64,
    /// Exponential smoothing rate for movement and rotation.
    pub speed_transition: i64,
    /// Orbit angle around the up axis, fixed-point radians.
    pub rotation_horizontal: i64,
    pub rotation_horizontal_speed: i64,
    pub rotation_horizontal_limit_min: i64,
    pub rotation_horizontal_limit_max: i64,
    /// Orbit angle up and down around the target, fixed-point radians.
    pub rotation_vertical: i64,
    pub rotation_vertical_speed: i64,
    pub rotation_vertical_limit_min: i64,
    pub rotation_vertical_limit_max: i64,
}

impl View for FollowCamera {
    type V = CamModel;

    open spec fn view(&self) -> CamModel {
        CamModel {
            offset: self.offset,
            zoom: self.zoom as int,
            zoom_speed: self.zoom_speed as int,
            zoom_limit_min: self.zoom_limit_min as int,
            zoom_limit_max: self.zoom_limit_max as int,
            speed_transition: self.speed_transition as int,
            rotation_horizontal: self.rotation_horizontal as int,
            rotation_horizontal_speed: self.rotation_horizontal_speed as int,
            rotation_horizontal_limit_min: self.rotation_horizontal_limit_min as int,
            rotation_horizontal_limit_max: self.rotation_horizontal_limit_max as int,
            rotation_vertical: self.rotation_vertical as int,
            rotation_vertical_speed: self.rotation_vertical_speed as int,
            rotation_vertical_limit_min: self.rotation_vertical_limit_min as int,
            rotation_vertical_limit_max: self.rotation_vertical_limit_max as int,
        }
    }
}

/// The camera's scalars lie within their configured limits.
pub open spec fn within_limits(c: CamModel) -> bool {
    &&& c.zoom_limit_min <= c.zoom <= c.zoom_limit_max
    &&& c.rotation_horizontal_limit_min <= c.rotation_horizontal
        <= c.rotation_horizontal_limit_max
    &&& c.rotation_vertical_limit_min <= c.rotation_vertical <= c.rotation_vertical_limit_max
}

/// Well-formedness: scalars within limits, limits within the value range, and
/// speeds non-negative and event-bounded.
pub open spec fn wf_cam(c: CamModel) -> bool {
    &&& within_limits(c)
    &&& -VAL_MAX <= c.zoom_limit_min <= c.zoom_limit_max <= VAL_MAX
    &&& -VAL_MAX <= c.rotation_horizontal_limit_min <= c.rotation_horizontal_limit_max <= VAL_MAX
    &&& -VAL_MAX <= c.rotation_vertical_limit_min <= c.rotation_vertical_limit_max <= VAL_MAX
    &&& 0 <= c.zoom_speed <= EVENT_MAX
    &&& 0 <= c.rotation_horizontal_speed <= EVENT_MAX
    &&& 0 <= c.rotation_vertical_speed <= EVENT_MAX
    &&& 0 <= c.speed_transition <= EVENT_MAX
}

/// One scroll event: the zoom shrinks by `delta * zoom_speed * dt` (rescaled)
/// and is clamped into its limits.
pub open spec fn scroll_step(c: CamModel, delta: int, dt: int) -> CamModel {
    CamModel {
        zoom: clamp_spec(
            c.zoom - trunc_div(delta * c.zoom_speed * dt, SCALE_SQ as int),
            c.zoom_limit_min,
            c.zoom_limit_max,
        ),
        ..c
    }
}

/// All scroll events of one tick, applied in order.
pub open spec fn scroll_fold(c: CamModel, deltas: Seq<i64>, dt: int) -> CamModel
    decreases deltas.len(),
{
    if deltas.len() == 0 {
        c
    } else {
        scroll_fold(scroll_step(c, deltas[0] as int, dt), deltas.skip(1), dt)
    }
}

/// One drag event: yaw shrinks by the scaled horizontal delta, pitch grows by
/// the scaled vertical delta, each clamped into its limits.
pub open spec fn drag_step(c: CamModel, dx: int, dy: int, dt: int) -> CamModel {
    CamModel {
        rotation_horizontal: clamp_spec(
            c.rotation_horizontal - trunc_div(
                dx * c.rotation_horizontal_speed * dt,
                SCALE_SQ as int,
            ),
            c.rotation_horizontal_limit_min,
            c.rotation_horizontal_limit_max,
        ),
        rotation_vertical: clamp_spec(
            c.rotation_vertical + trunc_div(dy * c.rotation_vertical_speed * dt, SCALE_SQ as int),
            c.rotation_vertical_limit_min,
            c.rotation_vertical_limit_max,
        ),
        ..c
    }
}

/// All drag events of one tick, applied in order.
pub open spec fn drag_fold(c: CamModel, deltas: Seq<(i64, i64)>, dt: int) -> CamModel
    decreases deltas.len(),
{
    if deltas.len() == 0 {
        c
    } else {
        drag_fold(drag_step(c, deltas[0].0 as int, deltas[0].1 as int, dt), deltas.skip(1), dt)
    }
}

/// One tick of camera input: scroll events always apply; drag events apply
/// only while the rotate input condition holds.
pub open spec fn control_model(
    c: CamModel,
    scrolls: Seq<i64>,
    rotate_held: bool,
    drags: Seq<(i64, i64)>,
    dt: int,
) -> CamModel {
    let c1 = scroll_fold(c, scrolls, dt);
    if rotate_held {
        drag_fold(c1, drags, dt)
    } else {
        c1
    }
}

impl FollowCamera {
    pub open spec fn wf(&self) -> bool {
        wf_cam(self@)
    }
}

impl Default for FollowCamera {
    /// The stock orbit configuration: zoom 8 within [2, 18], free yaw, pitch
    /// -0.6 within [-1.2, -0.05] radians, smoothing rate 10 per second.
    fn default() -> (r: FollowCamera)
        ensures
            r.wf(),
            r@ == (CamModel {
                offset: Vec3 { x: 0i64, y: 0i64, z: 0i64 },
                zoom: 8000,
                zoom_speed: 30000,
                zoom_limit_min: 2000,
                zoom_limit_max: 18000,
                speed_transition: 10000,
                rotation_horizontal: 200,
                rotation_horizontal_speed: 500,
                rotation_horizontal_limit_min: -VAL_MAX as int,
                rotation_horizontal_limit_max: VAL_MAX as int,
                rotation_vertical: -600,
                rotation_vertical_speed: 300,
                rotation_vertical_limit_min: -1200,
                rotation_vertical_limit_max: -50,
            }),
    {
        FollowCamera {
            offset: Vec3 { x: 0, y: 0, z: 0 },
            zoom: 8000,
            zoom_speed: 30000,
            zoom_limit_min: 2000,
            zoom_limit_max: 18000,
            speed_transition: 10000,
            rotation_horizontal: 200,
            rotation_horizontal_speed: 500,
            rotation_horizontal_limit_min: -VAL_MAX,
            rotation_horizontal_limit_max: VAL_MAX,
            rotation_vertical: -600,
            rotation_vertical_speed: 300,
            rotation_vertical_limit_min: -1200,
            rotation_vertical_limit_max: -50,
        }
    }
}

/// Applies one scroll event to the camera.
fn apply_scroll(camera: &mut FollowCamera, delta: i64, dt: i64)
    requires
        old(camera).wf(),
        -EVENT_MAX <= delta <= EVENT_MAX,
        0 <= dt <= EVENT_MAX,
    ensures
        final(camera).wf(),
        final(camera)@ == scroll_step(old(camera)@, delta as int, dt as int),
{
    let step: i128 = scaled_event(delta, camera.zoom_speed, dt);
    let z: i128 = camera.zoom as i128 - step;
    camera.zoom = clamp_to_i64(z, camera.zoom_limit_min, camera.zoom_limit_max);
    proof {
        assert(camera@ =~= scroll_step(old(camera)@, delta as int, dt as int));
    }
}

/// Applies one drag event to the camera.
fn apply_drag(camera: &mut FollowCamera, dx: i64, dy: i64, dt: i64)
    requires
        old(camera).wf(),
        -EVENT_MAX <= dx <= EVENT_MAX,
        -EVENT_MAX <= dy <= EVENT_MAX,
        0 <= dt <= EVENT_MAX,
    ensures
        final(camera).wf(),
        final(camera)@ == drag_step(old(camera)@, dx as int, dy as int, dt as int),
{
    let step_h: i128 = scaled_event(dx, camera.rotation_horizontal_speed, dt);
    let h: i128 = camera.rotation_horizontal as i128 - step_h;
    camera.rotation_horizontal = clamp_to_i64(
        h,
        camera.rotation_horizontal_limit_min,
        camera.rotation_horizontal_limit_max,
    );
    let step_v: i128 = scaled_event(dy, camera.rotation_vertical_speed, dt);
    let v: i128 = camera.rotation_vertical as i128 + step_v;
    camera.rotation_vertical = clamp_to_i64(
        v,
        camera.rotation_vertical_limit_min,
        camera.rotation_vertical_limit_max,
    );
    proof {
        assert(camera@ =~= drag_step(old(camera)@, dx as int, dy as int, dt as int));
    }
}

/// One tick of camera input: applies every scroll event to the zoom and —
/// while the rotate input condition holds — every drag event to the orbit
/// angles, each scaled by its speed and the tick's time delta and clamped
/// into its limits.
#[verifier::loop_isolation(false)]
pub fn camera_control(
    camera: &mut FollowCamera,
    scroll_deltas: &Vec<i64>,
    rotate_held: bool,
    drag_deltas: &Vec<(i64, i64)>,
    dt: i64,
)
    requires
        old(camera).wf(),
        0 <= dt <= EVENT_MAX,
        forall|i: int|
            0 <= i < scroll_deltas@.len() ==> -EVENT_MAX <= #[trigger] scroll_deltas@[i]
                <= EVENT_MAX,
        forall|i: int|
            0 <= i < drag_deltas@.len() ==> -EVENT_MAX <= (#[trigger] drag_deltas@[i]).0
                <= EVENT_MAX && -EVENT_MAX <= drag_deltas@[i].1 <= EVENT_MAX,
    ensures
        final(camera).wf(),
        final(camera)@ == control_model(
            old(camera)@,
            scroll_deltas@,
            rotate_held,
            drag_deltas@,
            dt as int,
        ),
{
    let ghost target: CamModel = scroll_fold(old(camera)@, scroll_deltas@, dt as int);
    proof {
        assert(scroll_deltas@.skip(0) =~= scroll_deltas@);
    }
    let n: usize = scroll_deltas.len();
    let mut i: usize = 0;
    while i < n
        invariant
            0 <= i <= n,
            camera.wf(),
            scroll_fold(camera@, scroll_deltas@.skip(i as int), dt as int) == target,
        decreases n - i,
    {
        proof {
            assert(scroll_deltas@.skip(i as int)[0] == scroll_deltas@[i as int]);
            assert(scroll_deltas@.skip(i as int).skip(1) =~= scroll_deltas@.skip(i as int + 1));
        }
        apply_scroll(camera, scroll_deltas[i], dt);
        i = i + 1;
    }
    proof {
        assert(scroll_deltas@.skip(n as int) =~= Seq::<i64>::empty());
    }
    if rotate_held {
        let ghost target2: CamModel = drag_fold(target, drag_deltas@, dt as int);
        proof {
            assert(drag_deltas@.skip(0) =~= drag_deltas@);
        }
        let m: usize = drag_deltas.len();
        let mut j: usize = 0;
        while j < m
            invariant
                0 <= j <= m,
                camera.wf(),
                drag_fold(camera@, drag_deltas@.skip(j as int), dt as int) == target2,
            decreases m - j,
        {
            proof {
                assert(drag_deltas@.skip(j as int)[0] == drag_deltas@[j as int]);
                assert(drag_deltas@.skip(j as int).skip(1) =~= drag_deltas@.skip(j as int + 1));
            }
            let d = drag_deltas[j];
            apply_drag(camera, d.0, d.1, dt);
            j = j + 1;
        }
        proof {
            assert(drag_deltas@.skip(m as int) =~= Seq::<(i64, i64)>::empty());
        }
    }
}

/// The smoothed transform the engine renders: a world position and the orbit
/// angles the rotation is built from.
#[derive(Clone, Copy, PartialEq, Eq, Structural, Debug)]
pub struct CameraPose {
    pub position: Vec3,
    pub yaw: i64,
    pub pitch: i64,
}

/// The pose's scalars lie within the camera value range.
pub open spec fn wf_pose(p: CameraPose) -> bool {
    &&& -VAL_MAX <= p.position.x <= VAL_MAX
    &&& -VAL_MAX <= p.position.y <= VAL_MAX
    &&& -VAL_MAX <= p.position.z <= VAL_MAX
    &&& -VAL_MAX <= p.yaw <= VAL_MAX
    &&& -VAL_MAX <= p.pitch <= VAL_MAX
}

/// The clamped interpolation fraction of one tick: `speed_transition * dt`,
/// held within `[0, 1]` so smoothing never overshoots.
pub open spec fn follow_alpha(speed_transition: int, dt: int) -> int {
    clamp_spec(trunc_div(speed_transition * dt, SCALE as int), 0, SCALE as int)
}

/// One smoothing tick: the pose moves toward the target camera position and
/// toward the camera's orbit angles by the clamped fraction `follow_alpha`.
/// Without a tracked target this tick, the pose holds its last transform.
pub fn camera_follow(
    pose: &mut CameraPose,
    camera: &FollowCamera,
    target_position: Option<Vec3>,
    dt: i64,
)
    requires
        camera.wf(),
        wf_pose(*old(pose)),
        0 <= dt <= EVENT_MAX,
        target_position matches Some(t) ==> -VAL_MAX <= t.x <= VAL_MAX && -VAL_MAX <= t.y
            <= VAL_MAX && -VAL_MAX <= t.z <= VAL_MAX,
    ensures
        wf_pose(*final(pose)),
        target_position is None ==> *final(pose) == *old(pose),
        target_position matches Some(t) ==> {
            let alpha = follow_alpha(camera@.speed_transition, dt as int);
            &&& final(pose).position.x == smooth_spec(old(pose).position.x as int, t.x as int, alpha)
            &&& final(pose).position.y == smooth_spec(old(pose).position.y as int, t.y as int, alpha)
            &&& final(pose).position.z == smooth_spec(old(pose).position.z as int, t.z as int, alpha)
            &&& final(pose).yaw == smooth_spec(
                old(pose).yaw as int,
                camera@.rotation_horizontal,
                alpha,
            )
            &&& final(pose).pitch == smooth_spec(
                old(pose).pitch as int,
                camera@.rotation_vertical,
                alpha,
            )
        },
{
    let t = match target_position {
        None => {
            return ;
        },
        Some(t) => t,
    };
    let alpha = follow_fraction(camera.speed_transition, dt);
    pose.position.x = smooth_step(pose.position.x, t.x, alpha);
    pose.position.y = smooth_step(pose.position.y, t.y, alpha);
    pose.position.z = smooth_step(pose.position.z, t.z, alpha);
    pose.yaw = smooth_step(pose.yaw, camera.rotation_horizontal, alpha);
    pose.pitch = smooth_step(pose.pitch, camera.rotation_vertical, alpha);
}

/// The clamped interpolation fraction for one tick.
fn follow_fraction(speed_transition: i64, dt: i64) -> (r: i64)
    requires
        0 <= speed_transition <= EVENT_MAX,
        0 <= dt <= EVENT_MAX,
    ensures
        r == follow_alpha(speed_transition as int, dt as int),
        0 <= r <= SCALE,
{
    proof {
        crate::fixed::lemma_event_alpha_bound(speed_transition as int, dt as int);
        crate::fixed::lemma_trunc_div_bounds(
            speed_transition as int * dt as int,
            SCALE as int,
        );
    }
    let prod: u128 = (speed_transition as u128) * (dt as u128);
    let q: u128 = prod / (SCALE as u128);
    clamp_to_i64(q as i128, 0, SCALE)
}

/// One whole camera tick: input is applied to the orbit state first, then the
/// pose is smoothed toward the updated state, so every reader of the pose in
/// the same tick observes the post-update camera.
pub fn tick_camera(
    camera: &mut FollowCamera,
    pose: &mut CameraPose,
    scroll_deltas: &Vec<i64>,
    rotate_held: bool,
    drag_deltas: &Vec<(i64, i64)>,
    target_position: Option<Vec3>,
    dt: i64,
)
    requires
        old(camera).wf(),
        wf_pose(*old(pose)),
        0 <= dt <= EVENT_MAX,
        forall|i: int|
            0 <= i < scroll_deltas@.len() ==> -EVENT_MAX <= #[trigger] scroll_deltas@[i]
                <= EVENT_MAX,
        forall|i: int|
            0 <= i < drag_deltas@.len() ==> -EVENT_MAX <= (#[trigger] drag_deltas@[i]).0
                <= EVENT_MAX && -EVENT_MAX <= drag_deltas@[i].1 <= EVENT_MAX,
        target_position matches Some(t) ==> -VAL_MAX <= t.x <= VAL_MAX && -VAL_MAX <= t.y
            <= VAL_MAX && -VAL_MAX <= t.z <= VAL_MAX,
    ensures
        final(camera).wf(),
        wf_pose(*final(pose)),
        final(camera)@ == control_model(
            old(camera)@,
            scroll_deltas@,
            rotate_held,
            drag_deltas@,
            dt as int,
        ),
        target_position is None ==> *final(pose) == *old(pose),
        target_position matches Some(t) ==> {
            let alpha = follow_alpha(final(camera)@.speed_transition, dt as int);
            &&& final(pose).position.x == smooth_spec(old(pose).position.x as int, t.x as int, alpha)
            &&& final(pose).position.y == smooth_spec(old(pose).position.y as int, t.y as int, alpha)
            &&& final(pose).position.z == smooth_spec(old(pose).position.z as int, t.z as int, alpha)
            &&& final(pose).yaw == smooth_spec(
                old(pose).yaw as int,
                final(camera)@.rotation_horizontal,
                alpha,
            )
            &&& final(pose).pitch == smooth_spec(
                old(pose).pitch as int,
                final(camera)@.rotation_vertical,
                alpha,
            )
        },
{
    camera_control(camera, scroll_deltas, rotate_held, drag_deltas, dt);
    camera_follow(pose, camera, target_position, dt);
}

/// One recorded tick of camera input, for stating laws over input histories.
pub struct InputBatch {
    pub scrolls: Seq<i64>,
    pub rotate_held: bool,
    pub drags: Seq<(i64, i64)>,
    pub dt: int,
}

/// The camera state after a history of input ticks.
pub open spec fn run_camera(c: CamModel, inputs: Seq<InputBatch>) -> CamModel
    decreases inputs.len(),
{
    if inputs.len() == 0 {
        c
    } else {
        run_camera(
            control_model(c, inputs[0].scrolls, inputs[0].rotate_held, inputs[0].drags, inputs[0].dt),
            inputs.skip(1),
        )
    }
}

/// One scroll event keeps the camera well formed.
proof fn lemma_scroll_step_wf(c: CamModel, delta: int, dt: int)
    requires
        wf_cam(c),
    ensures
        wf_cam(scroll_step(c, delta, dt)),
{
}

/// One drag event keeps the camera well formed.
proof fn lemma_drag_step_wf(c: CamModel, dx: int, dy: int, dt: int)
    requires
        wf_cam(c),
    ensures
        wf_cam(drag_step(c, dx, dy, dt)),
{
}

/// A tick's scroll events keep the camera well formed.
proof fn lemma_scroll_fold_wf(c: CamModel, deltas: Seq<i64>, dt: int)
    requires
        wf_cam(c),
    ensures
        wf_cam(scroll_fold(c, deltas, dt)),
    decreases deltas.len(),
{
    if deltas.len() > 0 {
        lemma_scroll_step_wf(c, deltas[0] as int, dt);
        lemma_scroll_fold_wf(scroll_step(c, deltas[0] as int, dt), deltas.skip(1), dt);
    }
}

/// A tick's drag events keep the camera well formed.
proof fn lemma_drag_fold_wf(c: CamModel, deltas: Seq<(i64, i64)>, dt: int)
    requires
        wf_cam(c),
    ensures
        wf_cam(drag_fold(c, deltas, dt)),
    decreases deltas.len(),
{
    if deltas.len() > 0 {
        lemma_drag_step_wf(c, deltas[0].0 as int, deltas[0].1 as int, dt);
        lemma_drag_fold_wf(
            drag_step(c, deltas[0].0 as int, deltas[0].1 as int, dt),
            deltas.skip(1),
            dt,
        );
    }
}

/// One tick of input keeps the camera well formed.
pub proof fn lemma_control_wf(
    c: CamModel,
    scrolls: Seq<i64>,
    rotate_held: bool,
    drags: Seq<(i64, i64)>,
    dt: int,
)
    requires
        wf_cam(c),
    ensures
        wf_cam(control_model(c, scrolls, rotate_held, drags, dt)),
{
    lemma_scroll_fold_wf(c, scrolls, dt);
    if rotate_held {
        lemma_drag_fold_wf(scroll_fold(c, scrolls, dt), drags, dt);
    }
}

/// A history of input ticks keeps the camera well formed.
proof fn lemma_run_camera_wf(c: CamModel, inputs: Seq<InputBatch>)
    requires
        wf_cam(c),
    ensures
        wf_cam(run_camera(c, inputs)),
    decreases inputs.len(),
{
    if inputs.len() > 0 {
        lemma_control_wf(
            c,
            inputs[0].scrolls,
            inputs[0].rotate_held,
            inputs[0].drags,
            inputs[0].dt,
        );
        lemma_run_camera_wf(
            control_model(c, inputs[0].scrolls, inputs[0].rotate_held, inputs[0].drags, inputs[0].dt),
            inputs.skip(1),
        );
    }
}

/// Law: for every sequence of scroll and drag inputs, after each tick the
/// zoom radius and both orbit angles lie within their configured limits.
pub proof fn lemma_camera_limits_invariant(c: CamModel, inputs: Seq<InputBatch>)
    requires
        wf_cam(c),
    ensures
        forall|i: int|
            0 <= i <= inputs.len() ==> within_limits(
                #[trigger] run_camera(c, inputs.take(i)),
            ),
{
    assert forall|i: int| 0 <= i <= inputs.len() implies within_limits(
        #[trigger] run_camera(c, inputs.take(i)),
    ) by {
        lemma_run_camera_wf(c, inputs.take(i));
    }
}

} // verus!
