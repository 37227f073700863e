//! The integrator and the moving-versus-static collision resolution
//! systems, each stated as a transformer on the world contents.

use vstd::prelude::*;

use crate::components::{
    box_edges, clamp_coord, clamp_coord_spec, colliding_axis, coord_in_range, overlaps,
    speed_in_range, CollisionAxis, Position, Rectangle, Velocity, BOUNCE_SCALE, SPEED_LIMIT,
    SUBUNITS,
};
use crate::ecs::{Ecs, WorldView};
use crate::player::Jump;
use crate::resources::MAX_DELTA_MILLIS;

verus! {

/// Fastest a body may fall or be thrown upward, in world units per second.
pub const PLAYER_MAX_VERTICAL_SPEED: i64 = 1500;

/// Fastest a body may move sideways, in world units per second.
pub const PLAYER_MAX_HORIZONTAL_SPEED: i64 = 900;

/// Downward acceleration, in world units per second per second.
pub const PLAYER_VERTICAL_ACCELERATION: i64 = 5000;

/// Sideways acceleration per input tick, in world units per second.
pub const PLAYER_HORIZONTAL_ACCELERATION: i64 = 60;

/// All tables except the velocity table agree.
pub open spec fn same_except_velocities(a: WorldView, b: WorldView) -> bool {
    b == (WorldView { velocities: b.velocities, ..a })
}

/// All tables except the position table agree.
pub open spec fn same_except_positions(a: WorldView, b: WorldView) -> bool {
    b == (WorldView { positions: b.positions, ..a })
}

/// All tables except positions, velocities and jump states agree.
pub open spec fn same_except_motion(a: WorldView, b: WorldView) -> bool {
    b == (WorldView { positions: b.positions, velocities: b.velocities, jumps: b.jumps, ..a })
}

/// How much speed one tick of gravity takes away, in world units per
/// second: the acceleration integrated over `delta` milliseconds.
pub open spec fn gravity_step(delta: int) -> int {
    delta * PLAYER_VERTICAL_ACCELERATION / 1000
}

/// What gravity does to one velocity slot: an entity with a velocity and
/// the gravity marker accelerates downward until terminal falling speed.
pub open spec fn gravitate_vel(w: WorldView, i: int, delta: int) -> Option<Velocity> {
    match w.velocities[i] {
        Some(v) => if w.gravitables[i] is Some && v.y > -PLAYER_MAX_VERTICAL_SPEED {
            Some(Velocity { x: v.x, y: (v.y - gravity_step(delta)) as i64 })
        } else {
            Some(v)
        },
        None => None,
    }
}

/// The world after one tick of gravity.
pub open spec fn gravitate_tr(w: WorldView, delta: int) -> WorldView {
    WorldView {
        velocities: Seq::new(w.velocities.len(), |i: int| gravitate_vel(w, i, delta)),
        ..w
    }
}

/// Applies gravity: every entity with a velocity and the gravity marker
/// whose fall is still slower than terminal speed loses
/// `PLAYER_VERTICAL_ACCELERATION` integrated over the delta.
pub fn gravitate(ecs: &mut Ecs, delta_ms: u64)
    requires
        old(ecs)@.wf(),
        delta_ms <= MAX_DELTA_MILLIS,
    ensures
        final(ecs)@ == gravitate_tr(old(ecs)@, delta_ms as int),
        final(ecs)@.wf(),
{
    let step = ((delta_ms * (PLAYER_VERTICAL_ACCELERATION as u64)) / 1000) as i64;
    let ghost w0 = ecs@;
    let n = ecs.velocities.len();
    let mut i: usize = 0;
    while i < n
        invariant
            w0.wf(),
            ecs@.len() == w0.len(),
            n == w0.velocities.len(),
            i <= n,
            delta_ms <= MAX_DELTA_MILLIS,
            step == gravity_step(delta_ms as int),
            0 <= step <= 250,
            same_except_velocities(w0, ecs@),
            ecs@.velocities.len() == n,
            forall|k: int|
                0 <= k < i ==> ecs@.velocities[k] == gravitate_vel(w0, k, delta_ms as int),
            forall|k: int| i <= k < n ==> ecs@.velocities[k] == w0.velocities[k],
            ecs@.wf(),
        decreases n - i,
    {
        let vo = ecs.velocities[i];
        if let Some(v) = vo {
            if ecs.gravitables[i].is_some() && v.y > -PLAYER_MAX_VERTICAL_SPEED {
                let nv = Velocity { x: v.x, y: v.y - step };
                ecs.velocities.set(i, Some(nv));
            }
        }
        i = i + 1;
    }
    proof {
        assert(ecs@.velocities =~= gravitate_tr(w0, delta_ms as int).velocities);
        assert(ecs@ =~= gravitate_tr(w0, delta_ms as int));
    }
}

/// One velocity component clamped into `[-limit, limit]`.
pub open spec fn clamp_speed(x: int, limit: int) -> int {
    if x >= limit {
        limit
    } else if x <= -limit {
        -limit
    } else {
        x
    }
}

/// What the speed limiter does to one velocity slot.
pub open spec fn limit_vel(w: WorldView, i: int) -> Option<Velocity> {
    match w.velocities[i] {
        Some(v) => Some(
            Velocity {
                x: clamp_speed(v.x as int, PLAYER_MAX_HORIZONTAL_SPEED as int) as i64,
                y: clamp_speed(v.y as int, PLAYER_MAX_VERTICAL_SPEED as int) as i64,
            },
        ),
        None => None,
    }
}

/// The world with every velocity clamped.
pub open spec fn limit_velocity_tr(w: WorldView) -> WorldView {
    WorldView { velocities: Seq::new(w.velocities.len(), |i: int| limit_vel(w, i)), ..w }
}

/// Clamps every entity's velocity components independently into the
/// horizontal and vertical speed ranges.
pub fn limit_velocity(ecs: &mut Ecs)
    requires
        old(ecs)@.wf(),
    ensures
        final(ecs)@ == limit_velocity_tr(old(ecs)@),
        final(ecs)@.wf(),
{
    let ghost w0 = ecs@;
    let n = ecs.velocities.len();
    let mut i: usize = 0;
    while i < n
        invariant
            w0.wf(),
            ecs@.len() == w0.len(),
            n == w0.velocities.len(),
            i <= n,
            same_except_velocities(w0, ecs@),
            ecs@.velocities.len() == n,
            forall|k: int| 0 <= k < i ==> ecs@.velocities[k] == limit_vel(w0, k),
            forall|k: int| i <= k < n ==> ecs@.velocities[k] == w0.velocities[k],
            ecs@.wf(),
        decreases n - i,
    {
        let vo = ecs.velocities[i];
        if let Some(v) = vo {
            let x = if v.x >= PLAYER_MAX_HORIZONTAL_SPEED {
                PLAYER_MAX_HORIZONTAL_SPEED
            } else if v.x <= -PLAYER_MAX_HORIZONTAL_SPEED {
                -PLAYER_MAX_HORIZONTAL_SPEED
            } else {
                v.x
            };
            let y = if v.y >= PLAYER_MAX_VERTICAL_SPEED {
                PLAYER_MAX_VERTICAL_SPEED
            } else if v.y <= -PLAYER_MAX_VERTICAL_SPEED {
                -PLAYER_MAX_VERTICAL_SPEED
            } else {
                v.y
            };
            ecs.velocities.set(i, Some(Velocity { x, y }));
        }
        i = i + 1;
    }
    proof {
        assert(ecs@.velocities =~= limit_velocity_tr(w0).velocities);
        assert(ecs@ =~= limit_velocity_tr(w0));
    }
}

/// What integration does to one position slot: an entity with both a
/// position and a velocity advances by exactly `velocity * delta` subunits,
/// saturating at the world boundary.
pub open spec fn move_pos(w: WorldView, i: int, delta: int) -> Option<Position> {
    match w.positions[i] {
        Some(p) => match w.velocities[i] {
            Some(v) => Some(
                Position {
                    x: clamp_coord_spec(p.x + v.x * delta) as i64,
                    y: clamp_coord_spec(p.y + v.y * delta) as i64,
                },
            ),
            None => Some(p),
        },
        None => None,
    }
}

/// The world after one tick of integration.
pub open spec fn move_tr(w: WorldView, delta: int) -> WorldView {
    WorldView {
        positions: Seq::new(w.positions.len(), |i: int| move_pos(w, i, delta)),
        ..w
    }
}

/// Advances every entity that has both a position and a velocity by
/// `velocity * delta`: with positions in subunits and velocities in world
/// units per second, one millisecond advances one subunit per unit of
/// speed, exactly.
pub fn move_system(ecs: &mut Ecs, delta_ms: u64)
    requires
        old(ecs)@.wf(),
        delta_ms <= MAX_DELTA_MILLIS,
    ensures
        final(ecs)@ == move_tr(old(ecs)@, delta_ms as int),
        final(ecs)@.wf(),
{
    let ghost w0 = ecs@;
    let n = ecs.positions.len();
    let mut i: usize = 0;
    while i < n
        invariant
            w0.wf(),
            ecs@.len() == w0.len(),
            n == w0.positions.len(),
            i <= n,
            delta_ms <= MAX_DELTA_MILLIS,
            same_except_positions(w0, ecs@),
            ecs@.positions.len() == n,
            forall|k: int| 0 <= k < i ==> ecs@.positions[k] == move_pos(w0, k, delta_ms as int),
            forall|k: int| i <= k < n ==> ecs@.positions[k] == w0.positions[k],
            ecs@.wf(),
        decreases n - i,
    {
        let po = ecs.positions[i];
        let vo = ecs.velocities[i];
        if let Some(p) = po {
            if let Some(v) = vo {
                proof {
                    assert(v.x * delta_ms <= SPEED_LIMIT * MAX_DELTA_MILLIS && v.x * delta_ms
                        >= -SPEED_LIMIT * MAX_DELTA_MILLIS && v.y * delta_ms <= SPEED_LIMIT
                        * MAX_DELTA_MILLIS && v.y * delta_ms >= -SPEED_LIMIT * MAX_DELTA_MILLIS)
                        by (nonlinear_arith)
                        requires
                            -SPEED_LIMIT <= v.x <= SPEED_LIMIT,
                            -SPEED_LIMIT <= v.y <= SPEED_LIMIT,
                            0 <= delta_ms <= MAX_DELTA_MILLIS,
                    ;
                }
                let np = Position {
                    x: clamp_coord(p.x + v.x * (delta_ms as i64)),
                    y: clamp_coord(p.y + v.y * (delta_ms as i64)),
                };
                ecs.positions.set(i, Some(np));
            }
        }
        i = i + 1;
    }
    proof {
        assert(ecs@.positions =~= move_tr(w0, delta_ms as int).positions);
        assert(ecs@ =~= move_tr(w0, delta_ms as int));
    }
}

/// The motion state of one moving solid: everything collision resolution
/// reads and writes about it.
#[verifier::ext_equal]
pub ghost struct MovingState {
    pub pos: Position,
    pub vel: Velocity,
    pub jump: Option<Jump>,
}

impl MovingState {
    /// Every held value inside its range.
    pub open spec fn wf(self) -> bool {
        &&& self.pos.wf()
        &&& self.vel.wf()
        &&& self.jump matches Some(j) ==> j.wf()
    }
}

/// A moving solid: a placed, solid shape that carries a velocity.
pub open spec fn is_moving(w: WorldView, i: int) -> bool {
    &&& 0 <= i < w.len()
    &&& w.positions[i] is Some
    &&& w.rects[i] is Some
    &&& w.velocities[i] is Some
    &&& w.solids[i] is Some
}

/// A static solid: a placed, solid shape without a velocity.
pub open spec fn is_static_solid(w: WorldView, i: int) -> bool {
    &&& 0 <= i < w.len()
    &&& w.positions[i] is Some
    &&& w.rects[i] is Some
    &&& w.solids[i] is Some
    &&& w.velocities[i] is None
}

/// The motion state a moving solid starts the sweep with.
pub open spec fn moving_state(w: WorldView, i: int) -> MovingState {
    MovingState { pos: w.positions[i]->0, vel: w.velocities[i]->0, jump: w.jumps[i] }
}

/// One pair resolved: on a detected axis the offending velocity component
/// is zeroed and the position snapped to the contact edge; on the `Down`
/// axis a jump-carrying entity becomes grounded.  Without overlap, or on an
/// exact depth tie, nothing changes.
pub open spec fn resolve_pair(
    m: MovingState,
    mrect: Rectangle,
    spos: Position,
    srect: Rectangle,
) -> MovingState {
    let a = box_edges(m.pos, mrect);
    let b = box_edges(spos, srect);
    match colliding_axis(a, b) {
        None => m,
        Some(CollisionAxis::Up) => MovingState {
            pos: Position {
                x: m.pos.x,
                y: clamp_coord_spec(b.bottom - mrect.height_sub()) as i64,
            },
            vel: Velocity { x: m.vel.x, y: 0 },
            jump: m.jump,
        },
        Some(CollisionAxis::Down) => MovingState {
            pos: Position { x: m.pos.x, y: clamp_coord_spec(b.top) as i64 },
            vel: Velocity { x: m.vel.x, y: 0 },
            jump: match m.jump {
                Some(j) => Some(Jump { grounded: true, ..j }),
                None => None,
            },
        },
        Some(CollisionAxis::Left) => MovingState {
            pos: Position { x: clamp_coord_spec(b.right) as i64, y: m.pos.y },
            vel: Velocity { x: 0, y: m.vel.y },
            jump: m.jump,
        },
        Some(CollisionAxis::Right) => MovingState {
            pos: Position {
                x: clamp_coord_spec(b.left - mrect.width_sub()) as i64,
                y: m.pos.y,
            },
            vel: Velocity { x: 0, y: m.vel.y },
            jump: m.jump,
        },
    }
}

/// The motion state of moving solid `i` after resolving against the static
/// solids among the first `n` entities, in index order.
pub open spec fn resolve_upto(w: WorldView, i: int, n: int) -> MovingState
    decreases n,
{
    if n <= 0 {
        moving_state(w, i)
    } else {
        let prev = resolve_upto(w, i, n - 1);
        if is_static_solid(w, n - 1) {
            resolve_pair(prev, w.rects[i]->0, w.positions[n - 1]->0, w.rects[n - 1]->0)
        } else {
            prev
        }
    }
}

/// The motion state of moving solid `i` after the whole sweep.
pub open spec fn collide_entity(w: WorldView, i: int) -> MovingState {
    resolve_upto(w, i, w.len() as int)
}

/// The world after the collision pass: every moving solid resolved against
/// every static solid; static solids and all other tables unchanged.
pub open spec fn collide_tr(w: WorldView) -> WorldView {
    WorldView {
        positions: Seq::new(
            w.positions.len(),
            |i: int|
                if is_moving(w, i) {
                    Some(collide_entity(w, i).pos)
                } else {
                    w.positions[i]
                },
        ),
        velocities: Seq::new(
            w.velocities.len(),
            |i: int|
                if is_moving(w, i) {
                    Some(collide_entity(w, i).vel)
                } else {
                    w.velocities[i]
                },
        ),
        jumps: Seq::new(
            w.jumps.len(),
            |i: int|
                if is_moving(w, i) {
                    collide_entity(w, i).jump
                } else {
                    w.jumps[i]
                },
        ),
        ..w
    }
}

/// Resolves every moving solid against every static solid: on a detected
/// axis the velocity component is zeroed, the position snapped to the
/// contact edge, and a jump-carrying entity grounded on `Down`.
#[verifier::loop_isolation(false)]
#[verifier::rlimit(60)]
pub fn handle_collision_moving_static(ecs: &mut Ecs)
    requires
        old(ecs)@.wf(),
    ensures
        final(ecs)@ == collide_tr(old(ecs)@),
        final(ecs)@.wf(),
{
    let ghost w0 = ecs@;
    let n = ecs.positions.len();
    let mut i: usize = 0;
    while i < n
        invariant
            i <= n,
            ecs@.len() == w0.len(),
            same_except_motion(w0, ecs@),
            ecs@.wf(),
            forall|k: int|
                0 <= k < n ==> (#[trigger] ecs@.positions[k]) == (if k < i && is_moving(w0, k) {
                    Some(collide_entity(w0, k).pos)
                } else {
                    w0.positions[k]
                }),
            forall|k: int|
                0 <= k < n ==> (#[trigger] ecs@.velocities[k]) == (if k < i && is_moving(w0, k) {
                    Some(collide_entity(w0, k).vel)
                } else {
                    w0.velocities[k]
                }),
            forall|k: int|
                0 <= k < n ==> (#[trigger] ecs@.jumps[k]) == (if k < i && is_moving(w0, k) {
                    collide_entity(w0, k).jump
                } else {
                    w0.jumps[k]
                }),
        decreases n - i,
    {
        let po = ecs.positions[i];
        let ro = ecs.rects[i];
        let vo = ecs.velocities[i];
        let so = ecs.solids[i];
        if po.is_some() && ro.is_some() && vo.is_some() && so.is_some() {
            proof {
                assert(is_moving(w0, i as int));
            }
            let mrect = ro.unwrap();
            let mut pos = po.unwrap();
            let mut vel = vo.unwrap();
            let mut jump = ecs.jumps[i];
            let mut j: usize = 0;
            while j < n
                invariant
                    j <= n,
                    (MovingState { pos, vel, jump }) == resolve_upto(w0, i as int, j as int),
                    pos.wf(),
                    vel.wf(),
                    jump matches Some(jj) ==> jj.wf(),
                decreases n - j,
            {
                let spo = ecs.positions[j];
                let sro = ecs.rects[j];
                let sso = ecs.solids[j];
                let svo = ecs.velocities[j];
                if spo.is_some() && sro.is_some() && sso.is_some() && svo.is_none() {
                    proof {
                        assert(is_static_solid(w0, j as int));
                        assert(spo == w0.positions[j as int]);
                        assert(sro == w0.rects[j as int]);
                    }
                    let spos = spo.unwrap();
                    let srect = sro.unwrap();
                    let moving_hb = mrect.on_position(&pos);
                    let static_hb = srect.on_position(&spos);
                    match moving_hb.colides_with_axis(&static_hb) {
                        Some(CollisionAxis::Up) => {
                            vel.y = 0;
                            pos.y = clamp_coord(spos.y - (mrect.height as i64) * SUBUNITS);
                        },
                        Some(CollisionAxis::Down) => {
                            vel.y = 0;
                            pos.y = clamp_coord(spos.y + (srect.height as i64) * SUBUNITS);
                            if let Some(mut jj) = jump {
                                jj.grounded = true;
                                jump = Some(jj);
                            }
                        },
                        Some(CollisionAxis::Left) => {
                            vel.x = 0;
                            pos.x = clamp_coord(spos.x + (srect.width as i64) * SUBUNITS);
                        },
                        Some(CollisionAxis::Right) => {
                            vel.x = 0;
                            pos.x = clamp_coord(spos.x - (mrect.width as i64) * SUBUNITS);
                        },
                        None => {},
                    }
                }
                j = j + 1;
            }
            ecs.positions.set(i, Some(pos));
            ecs.velocities.set(i, Some(vel));
            ecs.jumps.set(i, jump);
        }
        i = i + 1;
    }
    proof {
        assert(ecs@.positions =~= collide_tr(w0).positions);
        assert(ecs@.velocities =~= collide_tr(w0).velocities);
        assert(ecs@.jumps =~= collide_tr(w0).jumps);
        assert(ecs@ =~= collide_tr(w0));
    }
}

/// Resolving a pair that does not overlap changes nothing, and resolving a
/// pair twice is the same as resolving it once: a resolved axis snaps the
/// boxes into edge contact, which no longer counts as overlap.  Holds
/// wherever the four candidate contact edges lie inside the world range,
/// so that snapping to them does not saturate.
pub proof fn lemma_resolution_idempotent(
    m: MovingState,
    mrect: Rectangle,
    spos: Position,
    srect: Rectangle,
)
    requires
        coord_in_range(spos.y + srect.height_sub()),
        coord_in_range(spos.y - mrect.height_sub()),
        coord_in_range(spos.x + srect.width_sub()),
        coord_in_range(spos.x - mrect.width_sub()),
    ensures
        !overlaps(box_edges(m.pos, mrect), box_edges(spos, srect)) ==> resolve_pair(
            m,
            mrect,
            spos,
            srect,
        ) == m,
        resolve_pair(resolve_pair(m, mrect, spos, srect), mrect, spos, srect) == resolve_pair(
            m,
            mrect,
            spos,
            srect,
        ),
{
}

/// Resolution never creates or removes a jump state: the state after the
/// sweep is `Some` exactly when it started `Some`.
pub proof fn lemma_resolve_jump_some(w: WorldView, i: int, n: int)
    ensures
        (resolve_upto(w, i, n).jump is Some) == (moving_state(w, i).jump is Some),
    decreases n,
{
    if n > 0 {
        lemma_resolve_jump_some(w, i, n - 1);
    }
}

/// A velocity component after a bounce: negated and scaled by the
/// restitution coefficient in thousandths, rounding the magnitude down.
pub open spec fn scale_bounce(v: int, bounciness: int) -> int {
    if v >= 0 {
        -((v * bounciness) / 1000)
    } else {
        ((-v) * bounciness) / 1000
    }
}

/// Negates a velocity component and scales it by `bounciness` thousandths.
fn bounce_component(v: i64, bounciness: u32) -> (r: i64)
    requires
        speed_in_range(v as int),
        bounciness <= BOUNCE_SCALE,
    ensures
        r == scale_bounce(v as int, bounciness as int),
        speed_in_range(r as int),
{
    let mag: u64 = if v >= 0 {
        v as u64
    } else {
        (-v) as u64
    };
    proof {
        assert(mag * bounciness <= SPEED_LIMIT * (BOUNCE_SCALE as int) && (mag * bounciness)
            / 1000 <= mag) by (nonlinear_arith)
            requires
                0 <= mag <= SPEED_LIMIT,
                0 <= bounciness <= BOUNCE_SCALE,
        ;
    }
    let scaled = (mag * (bounciness as u64)) / 1000;
    if v >= 0 {
        -(scaled as i64)
    } else {
        scaled as i64
    }
}

/// A moving solid that opted into bounce semantics.
pub open spec fn is_bouncy(w: WorldView, i: int) -> bool {
    &&& is_moving(w, i)
    &&& w.bounces[i] matches Some(b) && b.enabled
}

/// One pair resolved with bounce semantics: the same axis detection and
/// position snapping as `resolve_pair`, but the offending velocity
/// component is negated and scaled instead of zeroed, and the jump state
/// is left alone.
pub open spec fn bounce_pair(
    m: MovingState,
    mrect: Rectangle,
    spos: Position,
    srect: Rectangle,
    bounciness: int,
) -> MovingState {
    let a = box_edges(m.pos, mrect);
    let b = box_edges(spos, srect);
    match colliding_axis(a, b) {
        None => m,
        Some(CollisionAxis::Up) => MovingState {
            pos: Position {
                x: m.pos.x,
                y: clamp_coord_spec(b.bottom - mrect.height_sub()) as i64,
            },
            vel: Velocity { x: m.vel.x, y: scale_bounce(m.vel.y as int, bounciness) as i64 },
            jump: m.jump,
        },
        Some(CollisionAxis::Down) => MovingState {
            pos: Position { x: m.pos.x, y: clamp_coord_spec(b.top) as i64 },
            vel: Velocity { x: m.vel.x, y: scale_bounce(m.vel.y as int, bounciness) as i64 },
            jump: m.jump,
        },
        Some(CollisionAxis::Left) => MovingState {
            pos: Position { x: clamp_coord_spec(b.right) as i64, y: m.pos.y },
            vel: Velocity { x: scale_bounce(m.vel.x as int, bounciness) as i64, y: m.vel.y },
            jump: m.jump,
        },
        Some(CollisionAxis::Right) => MovingState {
            pos: Position {
                x: clamp_coord_spec(b.left - mrect.width_sub()) as i64,
                y: m.pos.y,
            },
            vel: Velocity { x: scale_bounce(m.vel.x as int, bounciness) as i64, y: m.vel.y },
            jump: m.jump,
        },
    }
}

/// The motion state of bouncy solid `i` after bouncing off the static
/// solids among the first `n` entities, in index order.
pub open spec fn bounce_upto(w: WorldView, i: int, n: int) -> MovingState
    decreases n,
{
    if n <= 0 {
        moving_state(w, i)
    } else {
        let prev = bounce_upto(w, i, n - 1);
        if is_static_solid(w, n - 1) {
            bounce_pair(
                prev,
                w.rects[i]->0,
                w.positions[n - 1]->0,
                w.rects[n - 1]->0,
                w.bounces[i]->0.bounciness as int,
            )
        } else {
            prev
        }
    }
}

/// The motion state of bouncy solid `i` after the whole bounce sweep.
pub open spec fn bounce_entity(w: WorldView, i: int) -> MovingState {
    bounce_upto(w, i, w.len() as int)
}

/// The world after the bounce pass: every bounce-enabled moving solid
/// bounced off every static solid; everything else unchanged.
pub open spec fn bounce_tr(w: WorldView) -> WorldView {
    WorldView {
        positions: Seq::new(
            w.positions.len(),
            |i: int|
                if is_bouncy(w, i) {
                    Some(bounce_entity(w, i).pos)
                } else {
                    w.positions[i]
                },
        ),
        velocities: Seq::new(
            w.velocities.len(),
            |i: int|
                if is_bouncy(w, i) {
                    Some(bounce_entity(w, i).vel)
                } else {
                    w.velocities[i]
                },
        ),
        ..w
    }
}

/// Resolves every bounce-enabled moving solid against every static solid:
/// the same axis detection and snapping as the plain pass, with the
/// velocity component negated and scaled by the restitution coefficient.
#[verifier::loop_isolation(false)]
#[verifier::rlimit(60)]
pub fn handle_bounce_moving_static(ecs: &mut Ecs)
    requires
        old(ecs)@.wf(),
    ensures
        final(ecs)@ == bounce_tr(old(ecs)@),
        final(ecs)@.wf(),
{
    let ghost w0 = ecs@;
    let n = ecs.positions.len();
    let mut i: usize = 0;
    while i < n
        invariant
            i <= n,
            ecs@.len() == w0.len(),
            same_except_motion(w0, ecs@),
            ecs@.jumps == w0.jumps,
            ecs@.wf(),
            forall|k: int|
                0 <= k < n ==> (#[trigger] ecs@.positions[k]) == (if k < i && is_bouncy(w0, k) {
                    Some(bounce_entity(w0, k).pos)
                } else {
                    w0.positions[k]
                }),
            forall|k: int|
                0 <= k < n ==> (#[trigger] ecs@.velocities[k]) == (if k < i && is_bouncy(w0, k) {
                    Some(bounce_entity(w0, k).vel)
                } else {
                    w0.velocities[k]
                }),
        decreases n - i,
    {
        let po = ecs.positions[i];
        let ro = ecs.rects[i];
        let vo = ecs.velocities[i];
        let so = ecs.solids[i];
        let bo = ecs.bounces[i];
        let bouncy = match bo {
            Some(b) => b.enabled,
            None => false,
        };
        if po.is_some() && ro.is_some() && vo.is_some() && so.is_some() && bouncy {
            proof {
                assert(is_bouncy(w0, i as int));
            }
            let mrect = ro.unwrap();
            let bounciness = bo.unwrap().bounciness;
            let mut pos = po.unwrap();
            let mut vel = vo.unwrap();
            let mut j: usize = 0;
            while j < n
                invariant
                    j <= n,
                    (MovingState { pos, vel, jump: w0.jumps[i as int] }) == bounce_upto(
                        w0,
                        i as int,
                        j as int,
                    ),
                    pos.wf(),
                    vel.wf(),
                decreases n - j,
            {
                let spo = ecs.positions[j];
                let sro = ecs.rects[j];
                let sso = ecs.solids[j];
                let svo = ecs.velocities[j];
                if spo.is_some() && sro.is_some() && sso.is_some() && svo.is_none() {
                    proof {
                        assert(is_static_solid(w0, j as int));
                        assert(spo == w0.positions[j as int]);
                        assert(sro == w0.rects[j as int]);
                    }
                    let spos = spo.unwrap();
                    let srect = sro.unwrap();
                    let moving_hb = mrect.on_position(&pos);
                    let static_hb = srect.on_position(&spos);
                    match moving_hb.colides_with_axis(&static_hb) {
                        Some(CollisionAxis::Up) => {
                            vel.y = bounce_component(vel.y, bounciness);
                            pos.y = clamp_coord(spos.y - (mrect.height as i64) * SUBUNITS);
                        },
                        Some(CollisionAxis::Down) => {
                            vel.y = bounce_component(vel.y, bounciness);
                            pos.y = clamp_coord(spos.y + (srect.height as i64) * SUBUNITS);
                        },
                        Some(CollisionAxis::Left) => {
                            vel.x = bounce_component(vel.x, bounciness);
                            pos.x = clamp_coord(spos.x + (srect.width as i64) * SUBUNITS);
                        },
                        Some(CollisionAxis::Right) => {
                            vel.x = bounce_component(vel.x, bounciness);
                            pos.x = clamp_coord(spos.x - (mrect.width as i64) * SUBUNITS);
                        },
                        None => {},
                    }
                }
                j = j + 1;
            }
            ecs.positions.set(i, Some(pos));
            ecs.velocities.set(i, Some(vel));
        }
        i = i + 1;
    }
    proof {
        assert(ecs@.positions =~= bounce_tr(w0).positions);
        assert(ecs@.velocities =~= bounce_tr(w0).velocities);
        assert(ecs@ =~= bounce_tr(w0));
    }
}

} // verus!
