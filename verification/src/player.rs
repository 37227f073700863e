//! The jump state machine and the player-centred game-rule systems.

use vstd::prelude::*;

use crate::components::{
    area_collides, box_edges, clamp_coord, clamp_coord_spec, overlaps, Bounce, Bullet, Color,
    Colorable, ColorDrawType, Componentable, Position, Rectangle, Solid, Velocity, BOUNCE_SCALE,
    SUBUNITS,
};
use crate::camera::is_cam;
use crate::ecs::{Ecs, WorldView};
use crate::input::{Action, ActionMap, ActionState, InputEvent, InputState};
use crate::physics::{
    same_except_motion, PLAYER_HORIZONTAL_ACCELERATION, PLAYER_MAX_HORIZONTAL_SPEED,
    PLAYER_MAX_VERTICAL_SPEED, PLAYER_VERTICAL_ACCELERATION,
};
use crate::resources::{Spawn, MAX_DELTA_MILLIS};

verus! {

/// How long an ascent lasts, in milliseconds.
pub const JUMP_MILLIS: u64 = 500;

/// Per-entity jump state: `grounded` plus the time an ascent still has to
/// run.  `time_to_jump` is `Some` only while an ascent is in progress.
#[derive(Debug, Clone, Copy, PartialEq, Eq)]
pub struct Jump {
    pub time_to_jump: Option<u64>,
    pub grounded: bool,
}

impl Jump {
    /// True when the remaining ascent time never exceeds the full duration.
    pub open spec fn wf(self) -> bool {
        self.time_to_jump matches Some(t) ==> t <= JUMP_MILLIS
    }
}

impl Default for Jump {
    /// Airborne with no ascent in progress.
    fn default() -> (r: Jump)
        ensures
            r.time_to_jump is None,
            !r.grounded,
            r.wf(),
    {
        Jump { time_to_jump: None, grounded: false }
    }
}

/// The upward speed an ascent with `t` milliseconds left sustains: the
/// remaining half-duration in seconds times the acceleration constant, so
/// the thrust decays toward zero as the timer counts down.
pub open spec fn jump_velocity(t: int) -> int {
    t * PLAYER_VERTICAL_ACCELERATION / 2000
}

/// What one call of `do_jump` does: a grounded entity lifts off with the
/// full ascent duration; an airborne entity still ascending recomputes its
/// thrust from the time left; anything else is unchanged.
pub open spec fn do_jump_spec(j: Jump, v: Velocity) -> (Jump, Velocity) {
    if j.grounded && j.time_to_jump is None {
        (
            Jump { grounded: false, time_to_jump: Some(JUMP_MILLIS) },
            Velocity { x: v.x, y: jump_velocity(JUMP_MILLIS as int) as i64 },
        )
    } else if !j.grounded && (j.time_to_jump matches Some(t) && t > 0) {
        (j, Velocity { x: v.x, y: jump_velocity(j.time_to_jump->0 as int) as i64 })
    } else {
        (j, v)
    }
}

impl Jump {
    /// Starts or sustains an ascent: grounded entities lift off, ascending
    /// entities keep thrusting with decaying strength.
    pub fn do_jump(&mut self, vel: &mut Velocity)
        requires
            old(self).wf(),
            old(vel).wf(),
        ensures
            (*final(self), *final(vel)) == do_jump_spec(*old(self), *old(vel)),
            final(self).wf(),
            final(vel).wf(),
    {
        if self.grounded && self.time_to_jump.is_none() {
            self.grounded = false;
            self.time_to_jump = Some(JUMP_MILLIS);
            vel.y = ((JUMP_MILLIS * (PLAYER_VERTICAL_ACCELERATION as u64)) / 2000) as i64;
        } else if !self.grounded && self.time_to_jump.is_some() {
            let t = self.time_to_jump.unwrap();
            proof {
                assert(old(self).time_to_jump matches Some(tt) && tt == t);
                assert(t <= JUMP_MILLIS);
                assert(t * (PLAYER_VERTICAL_ACCELERATION as u64) <= JUMP_MILLIS
                    * (PLAYER_VERTICAL_ACCELERATION as u64)) by (nonlinear_arith)
                    requires
                        t <= JUMP_MILLIS,
                ;
            }
            if t > 0 {
                vel.y = ((t * (PLAYER_VERTICAL_ACCELERATION as u64)) / 2000) as i64;
            }
        }
    }

    /// Ends the ascent, leaving `grounded` alone.
    pub fn clear_jump(&mut self)
        ensures
            *final(self) == (Jump { time_to_jump: None, grounded: old(self).grounded }),
    {
        self.time_to_jump = None;
    }
}

/// The jump law: one `do_jump` from the grounded state lifts off with the
/// full duration and exactly half the ascent duration in seconds times the
/// acceleration constant as upward speed.
pub proof fn lemma_jump_law(j: Jump, v: Velocity)
    requires
        j.grounded,
        j.time_to_jump is None,
    ensures
        ({
            let (j2, v2) = do_jump_spec(j, v);
            &&& !j2.grounded
            &&& j2.time_to_jump == Some(JUMP_MILLIS)
            &&& v2.y == JUMP_MILLIS * PLAYER_VERTICAL_ACCELERATION / 2000
            &&& v2.y == 1250
            &&& v2.x == v.x
        }),
{
}

/// One jump timer ticked down: the remaining ascent time loses the delta,
/// saturating at zero and never going negative.
pub open spec fn jump_tick(j: Jump, delta: int) -> Jump {
    match j.time_to_jump {
        Some(t) => Jump {
            time_to_jump: Some(
                if t >= delta {
                    (t - delta) as u64
                } else {
                    0u64
                },
            ),
            grounded: j.grounded,
        },
        None => j,
    }
}

/// The world with every jump timer ticked down.
pub open spec fn jump_time_tr(w: WorldView, delta: int) -> WorldView {
    WorldView {
        jumps: Seq::new(
            w.jumps.len(),
            |i: int|
                match w.jumps[i] {
                    Some(j) => Some(jump_tick(j, delta)),
                    None => None,
                },
        ),
        ..w
    }
}

/// Ticks every running jump timer down by the delta, saturating at zero.
#[verifier::loop_isolation(false)]
pub fn update_jump_time(ecs: &mut Ecs, delta_ms: u64)
    requires
        old(ecs)@.wf(),
        delta_ms <= MAX_DELTA_MILLIS,
    ensures
        final(ecs)@ == jump_time_tr(old(ecs)@, delta_ms as int),
        final(ecs)@.wf(),
{
    let ghost w0 = ecs@;
    let n = ecs.jumps.len();
    let mut i: usize = 0;
    while i < n
        invariant
            i <= n,
            ecs@.len() == w0.len(),
            same_except_motion(w0, ecs@),
            ecs@.positions == w0.positions,
            ecs@.velocities == w0.velocities,
            ecs@.wf(),
            forall|k: int|
                0 <= k < n ==> (#[trigger] ecs@.jumps[k]) == (if k < i {
                    match w0.jumps[k] {
                        Some(j) => Some(jump_tick(j, delta_ms as int)),
                        None => None,
                    }
                } else {
                    w0.jumps[k]
                }),
        decreases n - i,
    {
        let jo = ecs.jumps[i];
        if let Some(j) = jo {
            if let Some(t) = j.time_to_jump {
                let left = if t >= delta_ms {
                    t - delta_ms
                } else {
                    0
                };
                ecs.jumps.set(i, Some(Jump { time_to_jump: Some(left), grounded: j.grounded }));
            }
        }
        i = i + 1;
    }
    proof {
        assert(ecs@.jumps =~= jump_time_tr(w0, delta_ms as int).jumps);
        assert(ecs@ =~= jump_time_tr(w0, delta_ms as int));
    }
}

/// A controlled entity: a player-marked entity with a velocity and a jump
/// state.
pub open spec fn is_controlled(w: WorldView, i: int) -> bool {
    &&& 0 <= i < w.len()
    &&& w.players[i] is Some
    &&& w.velocities[i] is Some
    &&& w.jumps[i] is Some
}

/// What one tick of player input does to a controlled entity: sideways
/// acceleration toward the held direction, symmetric decay toward zero
/// when neither is held (stopping at zero, never flipping the sign), the
/// jump machine driven by the up action, and a downward nudge from the
/// down action.
pub open spec fn player_input_step(v: Velocity, j: Jump, m: ActionMap) -> (Velocity, Jump) {
    let x1 = if m.left is Active && v.x >= -PLAYER_MAX_HORIZONTAL_SPEED {
        v.x - PLAYER_HORIZONTAL_ACCELERATION
    } else {
        v.x as int
    };
    let x2 = if m.right is Active && x1 <= PLAYER_MAX_HORIZONTAL_SPEED {
        x1 + PLAYER_HORIZONTAL_ACCELERATION
    } else {
        x1
    };
    let x3 = if !(m.left is Active) && !(m.right is Active) {
        if x2 >= PLAYER_HORIZONTAL_ACCELERATION {
            x2 - PLAYER_HORIZONTAL_ACCELERATION
        } else if x2 <= -PLAYER_HORIZONTAL_ACCELERATION {
            x2 + PLAYER_HORIZONTAL_ACCELERATION
        } else {
            0int
        }
    } else {
        x2
    };
    let vx = Velocity { x: x3 as i64, y: v.y };
    let jumped = if m.up is Active && v.y <= PLAYER_MAX_VERTICAL_SPEED {
        do_jump_spec(j, vx)
    } else {
        (Jump { time_to_jump: None, grounded: j.grounded }, vx)
    };
    let j2 = jumped.0;
    let v2 = jumped.1;
    let y2 = if m.down is Active && v2.y >= -PLAYER_MAX_VERTICAL_SPEED {
        v2.y - 10
    } else {
        v2.y as int
    };
    (Velocity { x: v2.x, y: y2 as i64 }, j2)
}

/// The world after one tick of player input on every controlled entity.
pub open spec fn player_input_tr(w: WorldView, m: ActionMap) -> WorldView {
    WorldView {
        velocities: Seq::new(
            w.velocities.len(),
            |i: int|
                if is_controlled(w, i) {
                    Some(player_input_step(w.velocities[i]->0, w.jumps[i]->0, m).0)
                } else {
                    w.velocities[i]
                },
        ),
        jumps: Seq::new(
            w.jumps.len(),
            |i: int|
                if is_controlled(w, i) {
                    Some(player_input_step(w.velocities[i]->0, w.jumps[i]->0, m).1)
                } else {
                    w.jumps[i]
                },
        ),
        ..w
    }
}

/// Applies the held actions to every controlled entity: acceleration and
/// decay sideways, the jump machine upward, a nudge downward.
#[verifier::loop_isolation(false)]
pub fn handle_player_input(ecs: &mut Ecs, inputs: &InputState)
    requires
        old(ecs)@.wf(),
    ensures
        final(ecs)@ == player_input_tr(old(ecs)@, inputs.state),
        final(ecs)@.wf(),
{
    let m = *inputs.state();
    let ghost w0 = ecs@;
    let n = ecs.players.len();
    let mut i: usize = 0;
    while i < n
        invariant
            i <= n,
            ecs@.len() == w0.len(),
            same_except_motion(w0, ecs@),
            ecs@.positions == w0.positions,
            ecs@.wf(),
            forall|k: int|
                0 <= k < n ==> (#[trigger] ecs@.velocities[k]) == (if k < i && is_controlled(
                    w0,
                    k,
                ) {
                    Some(player_input_step(w0.velocities[k]->0, w0.jumps[k]->0, m).0)
                } else {
                    w0.velocities[k]
                }),
            forall|k: int|
                0 <= k < n ==> (#[trigger] ecs@.jumps[k]) == (if k < i && is_controlled(w0, k) {
                    Some(player_input_step(w0.velocities[k]->0, w0.jumps[k]->0, m).1)
                } else {
                    w0.jumps[k]
                }),
        decreases n - i,
    {
        let po = ecs.players[i];
        let vo = ecs.velocities[i];
        let jo = ecs.jumps[i];
        if po.is_some() && vo.is_some() && jo.is_some() {
            let mut vel = vo.unwrap();
            let mut jump = jo.unwrap();
            if m.left.active() && vel.x >= -PLAYER_MAX_HORIZONTAL_SPEED {
                vel.x = vel.x - PLAYER_HORIZONTAL_ACCELERATION;
            }
            if m.right.active() && vel.x <= PLAYER_MAX_HORIZONTAL_SPEED {
                vel.x = vel.x + PLAYER_HORIZONTAL_ACCELERATION;
            }
            if !m.left.active() && !m.right.active() {
                if vel.x >= PLAYER_HORIZONTAL_ACCELERATION {
                    vel.x = vel.x - PLAYER_HORIZONTAL_ACCELERATION;
                } else if vel.x <= -PLAYER_HORIZONTAL_ACCELERATION {
                    vel.x = vel.x + PLAYER_HORIZONTAL_ACCELERATION;
                } else {
                    vel.x = 0;
                }
            }
            if m.up.active() && vel.y <= PLAYER_MAX_VERTICAL_SPEED {
                jump.do_jump(&mut vel);
            } else {
                jump.clear_jump();
            }
            if m.down.active() && vel.y >= -PLAYER_MAX_VERTICAL_SPEED {
                vel.y = vel.y - 10;
            }
            ecs.velocities.set(i, Some(vel));
            ecs.jumps.set(i, Some(jump));
        }
        i = i + 1;
    }
    proof {
        assert(ecs@.velocities =~= player_input_tr(w0, m).velocities);
        assert(ecs@.jumps =~= player_input_tr(w0, m).jumps);
        assert(ecs@ =~= player_input_tr(w0, m));
    }
}

/// A player-marked entity.
pub open spec fn is_player(w: WorldView, i: int) -> bool {
    0 <= i < w.len() && w.players[i] is Some
}

/// Exactly one entity carries the player marker.
pub open spec fn unique_player(w: WorldView) -> bool {
    &&& exists|i: int| is_player(w, i)
    &&& forall|i: int, j: int| is_player(w, i) && is_player(w, j) ==> i == j
}

/// The index of the player entity.
pub open spec fn player_ix(w: WorldView) -> int {
    choose|i: int| is_player(w, i)
}

/// The player carries a position, a shape and a velocity.
pub open spec fn player_equipped(w: WorldView) -> bool {
    &&& w.positions[player_ix(w)] is Some
    &&& w.rects[player_ix(w)] is Some
    &&& w.velocities[player_ix(w)] is Some
}

/// The edges the player's hitbox spans.
pub open spec fn player_box(w: WorldView) -> crate::components::BoxEdges {
    box_edges(w.positions[player_ix(w)]->0, w.rects[player_ix(w)]->0)
}

/// A coin: an entity other than the player with a coin effect, a position
/// and a shape.
pub open spec fn is_coin(w: WorldView, j: int) -> bool {
    &&& 0 <= j < w.len()
    &&& w.coin_kinds[j] is Some
    &&& w.positions[j] is Some
    &&& w.rects[j] is Some
    &&& w.players[j] is None
}

/// The player's face and velocity after testing the first `n` entities for
/// coin overlap, in index order: a recolour coin overwrites the draw
/// colour, an impulse coin sets the vertical speed to its magnitude.
pub open spec fn coin_upto(w: WorldView, n: int) -> (Colorable, Velocity)
    decreases n,
{
    if n <= 0 {
        (w.colors[player_ix(w)]->0, w.velocities[player_ix(w)]->0)
    } else {
        let prev = coin_upto(w, n - 1);
        if is_coin(w, n - 1) && overlaps(
            player_box(w),
            box_edges(w.positions[n - 1]->0, w.rects[n - 1]->0),
        ) {
            match w.coin_kinds[n - 1]->0 {
                crate::components::CoinKind::Color(c) => (
                    Colorable { color: c, draw_type: prev.0.draw_type },
                    prev.1,
                ),
                crate::components::CoinKind::Jump(amount) => (
                    prev.0,
                    Velocity { x: prev.1.x, y: amount as i64 },
                ),
            }
        } else {
            prev
        }
    }
}

/// The world after coin pickup: the player's face and velocity folded over
/// every overlapping coin; coins stay, so pickup is repeatable.
pub open spec fn coin_tr(w: WorldView) -> WorldView {
    let folded = coin_upto(w, w.len() as int);
    WorldView {
        colors: w.colors.update(player_ix(w), Some(folded.0)),
        velocities: w.velocities.update(player_ix(w), Some(folded.1)),
        ..w
    }
}

/// Tests the player against every coin: overlap with a recolour coin
/// overwrites the player's draw colour, overlap with an impulse coin sets
/// the vertical velocity to the carried magnitude.  Coins are not
/// despawned.
#[verifier::loop_isolation(false)]
pub fn player_collides_coin(ecs: &mut Ecs)
    requires
        old(ecs)@.wf(),
        unique_player(old(ecs)@),
        player_equipped(old(ecs)@),
        old(ecs)@.colors[player_ix(old(ecs)@)] is Some,
    ensures
        final(ecs)@ == coin_tr(old(ecs)@),
        final(ecs)@.wf(),
{
    let ghost w0 = ecs@;
    let n = ecs.players.len();
    let mut p: usize = 0;
    let mut found = false;
    let mut k: usize = 0;
    while k < n
        invariant
            k <= n,
            !found ==> forall|m: int| 0 <= m < k ==> w0.players[m] is None,
            found ==> (p < n && w0.players[p as int] is Some),
        decreases n - k,
    {
        if !found && ecs.players[k].is_some() {
            p = k;
            found = true;
        }
        k = k + 1;
    }
    proof {
        assert(is_player(w0, player_ix(w0)));
        assert(found);
        assert(is_player(w0, p as int));
        assert(p as int == player_ix(w0));
    }
    let ppos = ecs.positions[p].unwrap();
    let prect = ecs.rects[p].unwrap();
    let player_hb = prect.on_position(&ppos);
    let mut color = ecs.colors[p].unwrap();
    let mut vel = ecs.velocities[p].unwrap();
    let mut j: usize = 0;
    while j < n
        invariant
            j <= n,
            (color, vel) == coin_upto(w0, j as int),
            vel.wf(),
        decreases n - j,
    {
        let ko = ecs.coin_kinds[j];
        let po = ecs.positions[j];
        let ro = ecs.rects[j];
        let mo = ecs.players[j];
        if ko.is_some() && po.is_some() && ro.is_some() && mo.is_none() {
            let hb = ro.unwrap().on_position(&po.unwrap());
            if player_hb.colides_with(&hb) {
                match ko.unwrap() {
                    crate::components::CoinKind::Color(c) => {
                        color.color = c;
                    },
                    crate::components::CoinKind::Jump(amount) => {
                        vel.y = amount as i64;
                    },
                }
            }
        }
        j = j + 1;
    }
    ecs.colors.set(p, Some(color));
    ecs.velocities.set(p, Some(vel));
}

/// A finite kill-zone: a kill-marked entity other than the player with a
/// position and a shape.
pub open spec fn is_finite_zone(w: WorldView, j: int) -> bool {
    &&& 0 <= j < w.len()
    &&& w.kill_zones[j] is Some
    &&& w.positions[j] is Some
    &&& w.rects[j] is Some
    &&& w.players[j] is None
}

/// An infinite kill-zone: a kill-marked entity other than the player with
/// a half-plane region and no shape.
pub open spec fn is_infinite_zone(w: WorldView, j: int) -> bool {
    &&& 0 <= j < w.len()
    &&& w.kill_zones[j] is Some
    &&& w.infinite_areas[j] is Some
    &&& w.rects[j] is None
    &&& w.players[j] is None
}

/// Some finite kill-zone overlaps the player's hitbox.
pub open spec fn finite_zone_hits(w: WorldView) -> bool {
    exists|j: int|
        #[trigger] is_finite_zone(w, j) && overlaps(
            player_box(w),
            box_edges(w.positions[j]->0, w.rects[j]->0),
        )
}

/// Some infinite kill-zone reaches the player's shape placed at `pos`.
pub open spec fn infinite_zone_hits(w: WorldView, pos: Position) -> bool {
    exists|j: int|
        #[trigger] is_infinite_zone(w, j) && area_collides(
            w.infinite_areas[j]->0,
            box_edges(pos, w.rects[player_ix(w)]->0),
        )
}

/// The world after the kill-zone pass: a player touching a finite zone is
/// teleported to the spawn point with zeroed velocity, and the (possibly
/// already teleported) player touching an infinite zone likewise.
pub open spec fn kill_zone_tr(w: WorldView, spawn: Position) -> WorldView {
    let p = player_ix(w);
    let pos1 = if finite_zone_hits(w) {
        spawn
    } else {
        w.positions[p]->0
    };
    let vel1 = if finite_zone_hits(w) {
        Velocity { x: 0, y: 0 }
    } else {
        w.velocities[p]->0
    };
    let pos2 = if infinite_zone_hits(w, pos1) {
        spawn
    } else {
        pos1
    };
    let vel2 = if infinite_zone_hits(w, pos1) {
        Velocity { x: 0, y: 0 }
    } else {
        vel1
    };
    WorldView {
        positions: w.positions.update(p, Some(pos2)),
        velocities: w.velocities.update(p, Some(vel2)),
        ..w
    }
}

/// Tests the player against every kill-zone, finite rectangles first, then
/// infinite half-planes: on a hit the player is reset to the spawn point
/// and its velocity zeroed.
#[verifier::loop_isolation(false)]
pub fn player_enter_kill_zone(ecs: &mut Ecs, spawn: &Spawn)
    requires
        old(ecs)@.wf(),
        unique_player(old(ecs)@),
        player_equipped(old(ecs)@),
        spawn.wf(),
    ensures
        final(ecs)@ == kill_zone_tr(old(ecs)@, spawn.0),
        final(ecs)@.wf(),
{
    let ghost w0 = ecs@;
    let n = ecs.players.len();
    let mut p: usize = 0;
    let mut found = false;
    let mut k: usize = 0;
    while k < n
        invariant
            k <= n,
            !found ==> forall|m: int| 0 <= m < k ==> w0.players[m] is None,
            found ==> (p < n && w0.players[p as int] is Some),
        decreases n - k,
    {
        if !found && ecs.players[k].is_some() {
            p = k;
            found = true;
        }
        k = k + 1;
    }
    proof {
        assert(is_player(w0, player_ix(w0)));
        assert(found);
        assert(is_player(w0, p as int));
        assert(p as int == player_ix(w0));
    }
    let prect = ecs.rects[p].unwrap();
    let mut pos = ecs.positions[p].unwrap();
    let mut vel = ecs.velocities[p].unwrap();
    let player_hb = prect.on_position(&pos);

    let mut hit1 = false;
    let mut j: usize = 0;
    while j < n
        invariant
            j <= n,
            hit1 == exists|k: int|
                0 <= k < j && #[trigger] is_finite_zone(w0, k) && overlaps(
                    player_box(w0),
                    box_edges(w0.positions[k]->0, w0.rects[k]->0),
                ),
        decreases n - j,
    {
        let zo = ecs.kill_zones[j];
        let po = ecs.positions[j];
        let ro = ecs.rects[j];
        let mo = ecs.players[j];
        let mut this_hit = false;
        if zo.is_some() && po.is_some() && ro.is_some() && mo.is_none() {
            let hb = ro.unwrap().on_position(&po.unwrap());
            if player_hb.colides_with(&hb) {
                this_hit = true;
            }
        }
        proof {
            assert(this_hit == (is_finite_zone(w0, j as int) && overlaps(
                player_box(w0),
                box_edges(w0.positions[j as int]->0, w0.rects[j as int]->0),
            )));
        }
        hit1 = hit1 || this_hit;
        j = j + 1;
    }
    proof {
        assert(hit1 == finite_zone_hits(w0));
    }
    if hit1 {
        pos = spawn.0;
        vel = Velocity { x: 0, y: 0 };
    }

    let moved_hb = prect.on_position(&pos);
    let mut hit2 = false;
    let mut j2: usize = 0;
    while j2 < n
        invariant
            j2 <= n,
            hit2 == exists|k: int|
                0 <= k < j2 && #[trigger] is_infinite_zone(w0, k) && area_collides(
                    w0.infinite_areas[k]->0,
                    box_edges(pos, w0.rects[player_ix(w0)]->0),
                ),
            pos.wf(),
        decreases n - j2,
    {
        let zo = ecs.kill_zones[j2];
        let ao = ecs.infinite_areas[j2];
        let ro = ecs.rects[j2];
        let mo = ecs.players[j2];
        let mut this_hit = false;
        if zo.is_some() && ao.is_some() && ro.is_none() && mo.is_none() {
            if ao.unwrap().collides_with(&moved_hb) {
                this_hit = true;
            }
        }
        proof {
            assert(this_hit == (is_infinite_zone(w0, j2 as int) && area_collides(
                w0.infinite_areas[j2 as int]->0,
                box_edges(pos, w0.rects[player_ix(w0)]->0),
            )));
        }
        hit2 = hit2 || this_hit;
        j2 = j2 + 1;
    }
    proof {
        assert(hit2 == infinite_zone_hits(w0, pos));
    }
    if hit2 {
        pos = spawn.0;
        vel = Velocity { x: 0, y: 0 };
    }
    ecs.positions.set(p, Some(pos));
    ecs.velocities.set(p, Some(vel));
}

/// A world whose player table is untouched keeps its unique player and
/// its player index.
pub proof fn lemma_player_preserved(a: WorldView, b: WorldView)
    requires
        unique_player(a),
        b.players == a.players,
        b.positions.len() == a.positions.len(),
    ensures
        unique_player(b),
        player_ix(b) == player_ix(a),
{
    assert(is_player(a, player_ix(a)));
    assert(is_player(b, player_ix(a)));
    assert forall|i: int, j: int| is_player(b, i) && is_player(b, j) implies i == j by {
        assert(is_player(a, i));
        assert(is_player(a, j));
    };
    assert(unique_player(b));
    assert(is_player(b, player_ix(b)));
    assert(is_player(a, player_ix(b)));
}

/// An event that fires the attack action.
pub open spec fn is_attack_event(ev: InputEvent) -> bool {
    ev.state is Active && ev.action is Atack
}

/// Sanity of the single-projectile slot: when occupied it names a live
/// bullet entity, never the player.
pub open spec fn slot_ok(w: WorldView, slot: Option<usize>) -> bool {
    match slot {
        Some(b) => 0 <= b < w.len() && w.bullets[b as int] is Some && w.players[b as int]
            is None && w.camera_hitboxes[b as int] is None,
        None => true,
    }
}

/// Where a fresh projectile appears: thirty world units to the right of
/// the player's centre.
pub open spec fn bullet_spawn_pos(w: WorldView) -> Position {
    let p = player_ix(w);
    let pos = w.positions[p]->0;
    let rect = w.rects[p]->0;
    Position {
        x: clamp_coord_spec(pos.x + rect.width * 500 + 30 * SUBUNITS) as i64,
        y: clamp_coord_spec(pos.y + rect.height * 500) as i64,
    }
}

/// The world with a fresh projectile appended: a small, solid, perfectly
/// bouncy red block moving right.
pub open spec fn spawn_bullet_tr(w: WorldView) -> WorldView {
    WorldView {
        positions: w.positions.push(Some(bullet_spawn_pos(w))),
        velocities: w.velocities.push(Some(Velocity { x: 60, y: 0 })),
        rects: w.rects.push(Some(Rectangle { width: 10, height: 10 })),
        solids: w.solids.push(Some(Solid { up: true, down: true, left: true, right: true })),
        colors: w.colors.push(
            Some(
                Colorable {
                    color: Color { r: 255, g: 0, b: 0, a: 255 },
                    draw_type: ColorDrawType::Fill,
                },
            ),
        ),
        bounces: w.bounces.push(Some(Bounce { enabled: true, bounciness: BOUNCE_SCALE })),
        bullets: w.bullets.push(Some(Bullet)),
        coin_kinds: w.coin_kinds.push(None),
        jumps: w.jumps.push(None),
        margins: w.margins.push(None),
        infinite_areas: w.infinite_areas.push(None),
        gravitables: w.gravitables.push(None),
        players: w.players.push(None),
        kill_zones: w.kill_zones.push(None),
        camera_hitboxes: w.camera_hitboxes.push(None),
    }
}

/// The world with the live projectile detonated: the player takes the
/// blast impulse as its velocity when one is supplied, and the projectile
/// entity is cleared.
pub open spec fn detonate_tr(w: WorldView, b: int, impulse: Option<Velocity>) -> WorldView {
    let p = player_ix(w);
    let v1 = match impulse {
        Some(v) => v,
        None => w.velocities[p]->0,
    };
    WorldView {
        positions: w.positions.update(b, None),
        velocities: w.velocities.update(p, Some(v1)).update(b, None),
        rects: w.rects.update(b, None),
        colors: w.colors.update(b, None),
        coin_kinds: w.coin_kinds.update(b, None),
        solids: w.solids.update(b, None),
        bounces: w.bounces.update(b, None),
        jumps: w.jumps.update(b, None),
        margins: w.margins.update(b, None),
        infinite_areas: w.infinite_areas.update(b, None),
        gravitables: w.gravitables.update(b, None),
        players: w.players.update(b, None),
        bullets: w.bullets.update(b, None),
        kill_zones: w.kill_zones.update(b, None),
        camera_hitboxes: w.camera_hitboxes.update(b, None),
    }
}

/// One attack trigger handled: with the slot occupied the projectile
/// detonates; with it empty a fresh projectile spawns and occupies the
/// slot.
pub open spec fn attack_step(
    w: WorldView,
    slot: Option<usize>,
    impulse: Option<Velocity>,
) -> (WorldView, Option<usize>) {
    match slot {
        Some(b) => (detonate_tr(w, b as int, impulse), None),
        None => (spawn_bullet_tr(w), Some(w.len() as usize)),
    }
}

/// The world and slot after folding in the first `n` events: each attack
/// trigger spawns or detonates in turn.
pub open spec fn attack_upto(
    w: WorldView,
    slot: Option<usize>,
    events: Seq<InputEvent>,
    impulse: Option<Velocity>,
    n: int,
) -> (WorldView, Option<usize>)
    decreases n,
{
    if n <= 0 {
        (w, slot)
    } else {
        let prev = attack_upto(w, slot, events, impulse, n - 1);
        if is_attack_event(events[n - 1]) {
            attack_step(prev.0, prev.1, impulse)
        } else {
            prev
        }
    }
}

/// Handles this tick's attack triggers through the single-projectile slot:
/// spawning while a projectile lives detonates it instead, applying the
/// supplied blast impulse to the player.  The impulse itself is computed
/// by the caller from the two centres; this pass only applies it.
#[verifier::loop_isolation(false)]
#[verifier::rlimit(60)]
pub fn player_attack(
    ecs: &mut Ecs,
    slot: &mut Option<usize>,
    events: &Vec<InputEvent>,
    impulse: Option<Velocity>,
)
    requires
        old(ecs)@.wf(),
        unique_player(old(ecs)@),
        player_equipped(old(ecs)@),
        slot_ok(old(ecs)@, *old(slot)),
        impulse matches Some(v) ==> v.wf(),
    ensures
        final(ecs)@ == attack_upto(
            old(ecs)@,
            *old(slot),
            events@,
            impulse,
            events@.len() as int,
        ).0,
        *final(slot) == attack_upto(
            old(ecs)@,
            *old(slot),
            events@,
            impulse,
            events@.len() as int,
        ).1,
        final(ecs)@.wf(),
        unique_player(final(ecs)@),
        player_ix(final(ecs)@) == player_ix(old(ecs)@),
        player_equipped(final(ecs)@),
        slot_ok(final(ecs)@, *final(slot)),
        final(ecs)@.colors[player_ix(old(ecs)@)] == old(ecs)@.colors[player_ix(old(ecs)@)],
        final(ecs)@.jumps[player_ix(old(ecs)@)] == old(ecs)@.jumps[player_ix(old(ecs)@)],
        forall|i: int| (#[trigger] is_cam(final(ecs)@, i)) <==> is_cam(old(ecs)@, i),
{
    let ghost w0 = ecs@;
    let ghost slot0 = *slot;
    let n = events.len();
    let mut p: usize = 0;
    let mut found = false;
    let mut k: usize = 0;
    let pn = ecs.players.len();
    while k < pn
        invariant
            k <= pn,
            !found ==> forall|m: int| 0 <= m < k ==> w0.players[m] is None,
            found ==> (p < pn && w0.players[p as int] is Some),
        decreases pn - k,
    {
        if !found && ecs.players[k].is_some() {
            p = k;
            found = true;
        }
        k = k + 1;
    }
    proof {
        assert(is_player(w0, player_ix(w0)));
        assert(found);
        assert(is_player(w0, p as int));
        assert(p as int == player_ix(w0));
    }
    let mut e: usize = 0;
    while e < n
        invariant
            e <= n,
            n == events@.len(),
            ecs@ == attack_upto(w0, slot0, events@, impulse, e as int).0,
            *slot == attack_upto(w0, slot0, events@, impulse, e as int).1,
            ecs@.wf(),
            unique_player(ecs@),
            p as int == player_ix(ecs@),
            player_equipped(ecs@),
            slot_ok(ecs@, *slot),
            p < ecs@.len(),
            ecs@.colors[p as int] == w0.colors[p as int],
            ecs@.jumps[p as int] == w0.jumps[p as int],
            forall|i: int| (#[trigger] is_cam(ecs@, i)) <==> is_cam(w0, i),
        decreases n - e,
    {
        let ev = events[e];
        if ev.state.active() && matches!(ev.action, Action::Atack) {
            let ghost w_pre = ecs@;
            match *slot {
                Some(b) => {
                    if let Some(v) = impulse {
                        ecs.velocities.set(p, Some(v));
                    }
                    ecs.despawn(b);
                    *slot = None;
                    proof {
                        if impulse is None {
                            assert(ecs@.velocities =~= detonate_tr(
                                w_pre,
                                b as int,
                                impulse,
                            ).velocities);
                        }
                        assert(ecs@ =~= detonate_tr(w_pre, b as int, impulse));
                        assert(forall|i: int|
                            is_player(ecs@, i) ==> #[trigger] is_player(w_pre, i));
                        assert(is_player(ecs@, p as int));
                        assert forall|i: int, j: int|
                            is_player(ecs@, i) && is_player(ecs@, j) implies i == j by {
                            assert(is_player(w_pre, i));
                            assert(is_player(w_pre, j));
                        };
                        assert(unique_player(ecs@));
                        assert(is_player(ecs@, player_ix(ecs@)));
                        assert(p as int == player_ix(ecs@));
                        assert forall|i: int|
                            (#[trigger] is_cam(ecs@, i)) <==> is_cam(w_pre, i) by {
                            if is_cam(ecs@, i) {
                                assert(is_cam(w_pre, i));
                            }
                            if is_cam(w_pre, i) {
                                assert(is_cam(ecs@, i));
                            }
                        };
                    }
                },
                None => {
                    let ppos = ecs.positions[p].unwrap();
                    let prect = ecs.rects[p].unwrap();
                    let bullet_pos = Position {
                        x: clamp_coord(ppos.x + (prect.width as i64) * 500 + 30 * SUBUNITS),
                        y: clamp_coord(ppos.y + (prect.height as i64) * 500),
                    };
                    let new_ix = ecs.len();
                    ecs.create_entity();
                    ecs.with_position(bullet_pos);
                    ecs.with_velocity(Velocity { x: 60, y: 0 });
                    ecs.with_rect(Rectangle::new(10, 10));
                    ecs.with_solids(Solid::all());
                    ecs.with_color(Color::rgb(255, 0, 0).into_fill());
                    ecs.with_bounce(Bounce::new(true, BOUNCE_SCALE));
                    ecs.with_bullet(Bullet);
                    *slot = Some(new_ix);
                    proof {
                        assert(ecs@ =~= spawn_bullet_tr(w_pre));
                        assert(forall|i: int|
                            is_player(ecs@, i) ==> #[trigger] is_player(w_pre, i));
                        assert(is_player(ecs@, p as int));
                        assert forall|i: int, j: int|
                            is_player(ecs@, i) && is_player(ecs@, j) implies i == j by {
                            assert(is_player(w_pre, i));
                            assert(is_player(w_pre, j));
                        };
                        assert(unique_player(ecs@));
                        assert(is_player(ecs@, player_ix(ecs@)));
                        assert(p as int == player_ix(ecs@));
                        assert forall|i: int|
                            (#[trigger] is_cam(ecs@, i)) <==> is_cam(w_pre, i) by {
                            if is_cam(ecs@, i) {
                                assert(is_cam(w_pre, i));
                            }
                            if is_cam(w_pre, i) {
                                assert(is_cam(ecs@, i));
                            }
                        };
                    }
                },
            }
        }
        e = e + 1;
    }
}

} // verus!
