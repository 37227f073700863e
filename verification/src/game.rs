//! The game: the world store, its shared resources, and the fixed
//! per-tick pipeline of systems, run in one explicit order.

use vstd::prelude::*;

use crate::camera::{
    cam_ix, is_cam, lemma_cam_preserved, lemma_cam_same, move_camera, move_camera_tr, unique_cam,
    Camera, Margin,
};
use crate::components::{
    CameraHitbox, CoinKind, Color, Colorable, ColorDrawType, Componentable, Gravitable, Player,
    Position, Rectangle, Solid, Velocity, SUBUNITS,
};
use crate::ecs::{empty_world, Ecs, Entity, WorldView};
use crate::input::{apply_events, update_input_state, ActionMap, InputEvent, InputState};
use crate::map::{count_players, init_map_system, spawn_upto, MapError};
use crate::physics::{
    bounce_tr, collide_entity, collide_tr, gravitate, gravitate_tr, handle_bounce_moving_static,
    handle_collision_moving_static, is_moving, lemma_resolve_jump_some, limit_velocity,
    limit_velocity_tr, move_system, move_tr,
};
use crate::player::{
    attack_upto, coin_tr, handle_player_input, is_player, jump_time_tr, kill_zone_tr,
    lemma_player_preserved, player_attack, player_collides_coin, player_enter_kill_zone,
    player_equipped, player_input_tr, player_ix, slot_ok, unique_player, update_jump_time, Jump,
};
use crate::resources::{Spawn, Time, MAX_DELTA_MILLIS};

verus! {

/// Stage label: the per-tick update pipeline.
#[derive(Debug, Clone, Copy, PartialEq, Eq, Hash, Structural)]
pub struct Update;

/// Stage label: drawing, after all physics systems complete.
#[derive(Debug, Clone, Copy, PartialEq, Eq, Hash, Structural)]
pub struct Render;

/// Stage label: world construction before the first tick.
#[derive(Debug, Clone, Copy, PartialEq, Eq, Hash, Structural)]
pub struct Startup;

/// The world with the camera's deadzone entity appended: placed and
/// shaped by the default margins carved out of the window, green-outlined.
pub open spec fn camera_bundle_tr(w: WorldView, window: (u32, u32)) -> WorldView {
    WorldView {
        camera_hitboxes: w.camera_hitboxes.push(Some(CameraHitbox)),
        positions: w.positions.push(Some(Position { x: (10 * SUBUNITS) as i64, y: 0 })),
        rects: w.rects.push(
            Some(
                Rectangle {
                    width: (if 10 + window.0 / 2 <= window.0 {
                        window.0 - 10 - window.0 / 2
                    } else {
                        0int
                    }) as u32,
                    height: (if 10 <= window.1 {
                        window.1 - 10
                    } else {
                        0int
                    }) as u32,
                },
            ),
        ),
        margins: w.margins.push(
            Some(Margin { top: 10, right: (window.0 / 2) as u32, bottom: 0, left: 10 }),
        ),
        colors: w.colors.push(
            Some(
                Colorable {
                    color: Color { r: 0, g: 255, b: 0, a: 255 },
                    draw_type: ColorDrawType::Outline,
                },
            ),
        ),
        velocities: w.velocities.push(None),
        coin_kinds: w.coin_kinds.push(None),
        solids: w.solids.push(None),
        bounces: w.bounces.push(None),
        jumps: w.jumps.push(None),
        infinite_areas: w.infinite_areas.push(None),
        gravitables: w.gravitables.push(None),
        players: w.players.push(None),
        bullets: w.bullets.push(None),
        kill_zones: w.kill_zones.push(None),
    }
}

/// A world the pipeline can run on: well-formed, with exactly one player
/// carrying position, shape, velocity, face and jump state, and exactly
/// one camera deadzone.
pub open spec fn world_ok(w: WorldView) -> bool {
    &&& w.wf()
    &&& unique_player(w)
    &&& player_equipped(w)
    &&& w.colors[player_ix(w)] is Some
    &&& w.jumps[player_ix(w)] is Some
    &&& unique_cam(w)
}

/// The whole game state: the entity store and the per-tick resources.
pub struct Game {
    pub player_entity: Entity,
    pub ecs: Ecs,
    pub inputs: InputState,
    pub time: Time,
    pub spawn: Spawn,
    pub camera: Camera,
    pub bullet_slot: Option<usize>,
}

/// The world, slot and camera after one full tick of systems, in the
/// fixed pipeline order: player input, attack, gravity, speed limiting,
/// integration, bounce resolution, plain collision resolution, coin
/// pickup, jump timing, kill zones, camera follow.
pub open spec fn tick_tr(
    w: WorldView,
    m: ActionMap,
    slot: Option<usize>,
    events: Seq<InputEvent>,
    impulse: Option<Velocity>,
    delta: int,
    spawn: Position,
    cam: Camera,
) -> (WorldView, Option<usize>, Camera) {
    let w1 = player_input_tr(w, m);
    let a = attack_upto(w1, slot, events, impulse, events.len() as int);
    let w2 = gravitate_tr(a.0, delta);
    let w3 = limit_velocity_tr(w2);
    let w4 = move_tr(w3, delta);
    let w5 = bounce_tr(w4);
    let w6 = collide_tr(w5);
    let w7 = coin_tr(w6);
    let w8 = jump_time_tr(w7, delta);
    let w9 = kill_zone_tr(w8, spawn);
    let mc = move_camera_tr(w9, cam);
    (mc.0, a.1, mc.1)
}

impl Game {
    /// The game invariant: a runnable world, a sane projectile slot, the
    /// remembered player id, and well-formed resources.
    pub open spec fn wf(self) -> bool {
        &&& world_ok(self.ecs@)
        &&& slot_ok(self.ecs@, self.bullet_slot)
        &&& self.player_entity.0 == player_ix(self.ecs@)
        &&& self.time.wf()
        &&& self.spawn.wf()
        &&& self.camera.wf()
    }

    /// The built-in world: the player on the left, a long floor, two
    /// recolour coins and one impulse coin above it, the camera deadzone,
    /// and an 800 by 600 viewport.
    pub fn new() -> (r: Game)
        ensures
            r.wf(),
            r.ecs@ == (WorldView {
                positions: seq![
                    Some(Position { x: 150000, y: 600000 }),
                    Some(Position { x: 100000, y: 100000 }),
                    Some(Position { x: 120000, y: 115000 }),
                    Some(Position { x: 470000, y: 115000 }),
                    Some(Position { x: 300000, y: 115000 }),
                    Some(Position { x: 10000, y: 0 }),
                ],
                velocities: seq![
                    Some(Velocity { x: 0, y: 0 }),
                    None,
                    None,
                    None,
                    None,
                    None,
                ],
                rects: seq![
                    Some(Rectangle { width: 50, height: 50 }),
                    Some(Rectangle { width: 400, height: 10 }),
                    Some(Rectangle { width: 10, height: 10 }),
                    Some(Rectangle { width: 10, height: 10 }),
                    Some(Rectangle { width: 10, height: 10 }),
                    Some(Rectangle { width: 390, height: 590 }),
                ],
                colors: seq![
                    Some(
                        Colorable {
                            color: Color { r: 0, g: 0, b: 255, a: 255 },
                            draw_type: crate::components::ColorDrawType::Fill,
                        },
                    ),
                    Some(
                        Colorable {
                            color: Color { r: 0, g: 255, b: 0, a: 255 },
                            draw_type: crate::components::ColorDrawType::Fill,
                        },
                    ),
                    Some(
                        Colorable {
                            color: Color { r: 255, g: 0, b: 255, a: 255 },
                            draw_type: crate::components::ColorDrawType::Fill,
                        },
                    ),
                    Some(
                        Colorable {
                            color: Color { r: 255, g: 0, b: 0, a: 255 },
                            draw_type: crate::components::ColorDrawType::Fill,
                        },
                    ),
                    Some(
                        Colorable {
                            color: Color { r: 0, g: 255, b: 255, a: 255 },
                            draw_type: crate::components::ColorDrawType::Fill,
                        },
                    ),
                    Some(
                        Colorable {
                            color: Color { r: 0, g: 255, b: 0, a: 255 },
                            draw_type: crate::components::ColorDrawType::Outline,
                        },
                    ),
                ],
                coin_kinds: seq![
                    None,
                    None,
                    Some(CoinKind::Color(Color { r: 255, g: 0, b: 255, a: 255 })),
                    Some(CoinKind::Color(Color { r: 255, g: 0, b: 0, a: 255 })),
                    Some(CoinKind::Jump(20)),
                    None,
                ],
                solids: seq![
                    Some(Solid { up: true, down: true, left: true, right: true }),
                    Some(Solid { up: true, down: true, left: true, right: true }),
                    None,
                    None,
                    None,
                    None,
                ],
                bounces: seq![None, None, None, None, None, None],
                jumps: seq![
                    Some(Jump { time_to_jump: None, grounded: false }),
                    None,
                    None,
                    None,
                    None,
                    None,
                ],
                margins: seq![
                    None,
                    None,
                    None,
                    None,
                    None,
                    Some(Margin { top: 10, right: 400, bottom: 0, left: 10 }),
                ],
                infinite_areas: seq![None, None, None, None, None, None],
                gravitables: seq![Some(Gravitable), None, None, None, None, None],
                players: seq![Some(Player), None, None, None, None, None],
                bullets: seq![None, None, None, None, None, None],
                kill_zones: seq![None, None, None, None, None, None],
                camera_hitboxes: seq![None, None, None, None, None, Some(CameraHitbox)],
            }),
            r.camera == (Camera {
                pos: Position { x: 0, y: 0 },
                rect: Rectangle { width: 800, height: 600 },
            }),
            r.spawn.0 == (Position { x: 150000, y: 600000 }),
            r.time == (Time { last_update: 0, delta: 0, elapsed: 0 }),
            r.bullet_slot is None,
            r.player_entity.0 == 0,
    {
        let mut ecs = Ecs::new();

        ecs.create_entity();
        ecs.with_player(Player);
        ecs.with_velocity(Velocity::default());
        ecs.with_position(Position::new(150, 600));
        ecs.with_rect(Rectangle::new(50, 50));
        ecs.with_solids(Solid::all());
        ecs.with_color(Color::rgb(0, 0, 255).into_fill());
        ecs.with_jump(Jump::default());
        ecs.with_gravitable(Gravitable);
        let player_entity = ecs.entity();

        ecs.create_entity();
        ecs.with_position(Position::new(100, 100));
        ecs.with_rect(Rectangle::new(400, 10));
        ecs.with_color(Color::rgb(0, 255, 0).into_fill());
        ecs.with_solids(Solid::all());

        let coin_rect = Rectangle::new(10, 10);

        ecs.create_entity();
        ecs.with_rect(coin_rect);
        ecs.with_position(Position::new(120, 115));
        ecs.with_coin_kind(CoinKind::Color(Color::rgb(255, 0, 255)));

        ecs.create_entity();
        ecs.with_rect(coin_rect);
        ecs.with_position(Position::new(470, 115));
        ecs.with_coin_kind(CoinKind::Color(Color::rgb(255, 0, 0)));

        ecs.create_entity();
        ecs.with_rect(coin_rect);
        ecs.with_position(Position::new(300, 115));
        ecs.with_coin_kind(CoinKind::Jump(20));

        let margin = Margin { top: 10, right: 400, bottom: 0, left: 10 };
        let bundle = margin.into_bundle((800, 600));
        ecs.create_entity();
        ecs.with_camera_hitbox(CameraHitbox);
        ecs.with_position(bundle.0);
        ecs.with_rect(bundle.1);
        ecs.with_margin(bundle.2);
        ecs.with_color(Color::rgb(0, 255, 0).into_outline());

        let game = Game {
            player_entity,
            ecs,
            inputs: InputState::default(),
            time: Time::new(),
            spawn: Spawn(Position::new(150, 600)),
            camera: Camera { pos: Position::new(0, 0), rect: Rectangle::new(800, 600) },
            bullet_slot: None,
        };
        proof {
            let w = game.ecs@;
            assert(is_player(w, 0));
            assert(forall|i: int| is_player(w, i) ==> i == 0);
            assert(unique_player(w));
            assert(is_player(w, player_ix(w)));
            assert(player_ix(w) == 0);
            assert(is_cam(w, 5));
            assert(forall|i: int| is_cam(w, i) ==> i == 5);
            assert(unique_cam(w));
        }
        game
    }

    /// Builds a game from a world description and a window size: rejected
    /// unless the description names exactly one player; the spawn point is
    /// the player entry's position, and a camera deadzone with the default
    /// margins is added behind the described entities.
    pub fn from_map(entities: &Vec<crate::map::Entity>, window: (u32, u32)) -> (r: Result<
        Game,
        MapError,
    >)
        requires
            forall|k: int|
                0 <= k < entities@.len() ==> crate::map::entity_wf(#[trigger] entities@[k]),
        ensures
            (r is Ok) == (count_players(entities@, entities@.len() as int) == 1),
            r matches Err(e) ==> e == (if count_players(entities@, entities@.len() as int)
                == 0 {
                MapError::NoPlayer
            } else {
                MapError::MultiplePlayers
            }),
            r matches Ok(g) ==> g.wf(),
            r matches Ok(g) ==> Some(g.spawn.0) == crate::map::first_player_pos(
                entities@,
                entities@.len() as int,
            ),
            r matches Ok(g) ==> g.time == (Time { last_update: 0, delta: 0, elapsed: 0 })
                && g.bullet_slot is None && g.camera == (Camera {
                pos: Position { x: 0, y: 0 },
                rect: Rectangle { width: window.0, height: window.1 },
            }),
            r matches Ok(g) ==> g.ecs@ == camera_bundle_tr(
                spawn_upto(empty_world(), entities@, entities@.len() as int),
                window,
            ),
    {
        let mut ecs = Ecs::new();
        let mut spawn = Spawn::new();
        match init_map_system(&mut ecs, &mut spawn, entities) {
            Ok(()) => {},
            Err(e) => {
                return Err(e);
            },
        }
        proof {
            crate::map::lemma_count_monotone(entities@, 0, entities@.len() as int);
        }
        let ghost wm = ecs@;
        let margin = Margin { top: 10, right: window.0 / 2, bottom: 0, left: 10 };
        let bundle = margin.into_bundle(window);
        let cam_entity = ecs.len();
        ecs.create_entity();
        ecs.with_camera_hitbox(CameraHitbox);
        ecs.with_position(bundle.0);
        ecs.with_rect(bundle.1);
        ecs.with_margin(bundle.2);
        ecs.with_color(Color::rgb(0, 255, 0).into_outline());

        let mut p: usize = 0;
        let mut found = false;
        let mut k: usize = 0;
        let n = ecs.players.len();
        while k < n
            invariant
                k <= n,
                n == ecs@.len(),
                ecs@.wf(),
                !found ==> forall|m: int| 0 <= m < k ==> ecs@.players[m] is None,
                found ==> (p < n && ecs@.players[p as int] is Some),
            decreases n - k,
        {
            if !found && ecs.players[k].is_some() {
                p = k;
                found = true;
            }
            k = k + 1;
        }
        proof {
            let w = ecs@;
            assert(is_player(wm, player_ix(wm)));
            assert(is_player(w, player_ix(wm)));
            assert(found);
            assert(is_player(w, p as int));
            assert forall|i: int, j: int|
                is_player(w, i) && is_player(w, j) implies i == j by {
                assert(is_player(wm, i));
                assert(is_player(wm, j));
            };
            assert(unique_player(w));
            assert(is_player(w, player_ix(w)));
            assert(p as int == player_ix(w));
            assert(is_cam(w, cam_entity as int));
            assert(forall|i: int| is_cam(w, i) ==> i == cam_entity);
            assert(unique_cam(w));
            assert(w =~= camera_bundle_tr(wm, window));
        }
        Ok(
            Game {
                player_entity: Entity(p),
                ecs,
                inputs: InputState::default(),
                time: Time::new(),
                spawn,
                camera: Camera {
                    pos: Position { x: 0, y: 0 },
                    rect: Rectangle { width: window.0, height: window.1 },
                },
                bullet_slot: None,
            },
        )
    }

    /// Feeds one decoded event into the held-action state.
    pub fn handle_keypress(&mut self, input_event: InputEvent)
        requires
            old(self).wf(),
        ensures
            final(self).inputs.state == crate::input::map_set(
                old(self).inputs.state,
                input_event.action,
                input_event.state,
            ),
            final(self).ecs@ == old(self).ecs@,
            final(self).camera == old(self).camera,
            final(self).time == old(self).time,
            final(self).spawn == old(self).spawn,
            final(self).bullet_slot == old(self).bullet_slot,
            final(self).player_entity == old(self).player_entity,
            final(self).wf(),
    {
        self.inputs.state.set(input_event.action, input_event.state);
    }

    /// Runs one full tick: the clock is fed the current time, this tick's
    /// events refresh the held actions, and the systems run in the fixed
    /// pipeline order over the store.  The optional impulse is what the
    /// caller computed for a projectile detonation this tick.
    #[verifier::rlimit(100)]
    pub fn update(&mut self, now_millis: u64, events: &Vec<InputEvent>, impulse: Option<Velocity>)
        requires
            old(self).wf(),
            now_millis >= old(self).time.last_update,
            now_millis <= u64::MAX - MAX_DELTA_MILLIS,
            impulse matches Some(v) ==> v.wf(),
        ensures
            final(self).wf(),
            ({
                let m1 = apply_events(old(self).inputs.state, events@, events@.len() as int);
                let delta = if now_millis - old(self).time.last_update <= MAX_DELTA_MILLIS {
                    now_millis - old(self).time.last_update
                } else {
                    MAX_DELTA_MILLIS as int
                };
                let t = tick_tr(
                    old(self).ecs@,
                    m1,
                    old(self).bullet_slot,
                    events@,
                    impulse,
                    delta,
                    old(self).spawn.0,
                    old(self).camera,
                );
                &&& final(self).ecs@ == t.0
                &&& final(self).bullet_slot == t.1
                &&& final(self).camera == t.2
                &&& final(self).inputs.state == m1
                &&& final(self).time.delta == delta
                &&& final(self).time.last_update == now_millis
                &&& final(self).time.elapsed == old(self).time.elapsed + delta
                &&& final(self).spawn == old(self).spawn
                &&& final(self).player_entity == old(self).player_entity
            }),
    {
        let ghost w0 = self.ecs@;
        let ghost p = player_ix(w0);
        self.time.update(now_millis);
        let delta = self.time.delta();
        update_input_state(&mut self.inputs, events);
        handle_player_input(&mut self.ecs, &self.inputs);
        proof {
            let w1 = self.ecs@;
            lemma_player_preserved(w0, w1);
            assert(w1.velocities[p] is Some);
            assert(w1.jumps[p] is Some);
            lemma_cam_preserved(w0, w1);
        }
        player_attack(&mut self.ecs, &mut self.bullet_slot, events, impulse);
        let ghost wa = self.ecs@;
        proof {
            lemma_cam_same(player_input_tr(w0, self.inputs.state), wa);
        }
        gravitate(&mut self.ecs, delta);
        proof {
            let w2 = self.ecs@;
            lemma_player_preserved(wa, w2);
            assert(w2.velocities[p] is Some);
            lemma_cam_preserved(wa, w2);
        }
        limit_velocity(&mut self.ecs);
        proof {
            let b = self.ecs@;
            let a = gravitate_tr(wa, delta as int);
            lemma_player_preserved(a, b);
            assert(b.velocities[p] is Some);
            lemma_cam_preserved(a, b);
        }
        move_system(&mut self.ecs, delta);
        let ghost wm = self.ecs@;
        proof {
            let a = limit_velocity_tr(gravitate_tr(wa, delta as int));
            lemma_player_preserved(a, wm);
            assert(wm.positions[p] is Some);
            assert(forall|i: int|
                0 <= i < a.positions.len() ==> ((#[trigger] wm.positions[i]) is Some
                    <==> a.positions[i] is Some));
            lemma_cam_preserved(a, wm);
        }
        handle_bounce_moving_static(&mut self.ecs);
        let ghost wb = self.ecs@;
        proof {
            lemma_player_preserved(wm, wb);
            assert(wb.positions[p] is Some);
            assert(wb.velocities[p] is Some);
            assert(forall|i: int|
                0 <= i < wm.positions.len() ==> ((#[trigger] wb.positions[i]) is Some
                    <==> wm.positions[i] is Some));
            lemma_cam_preserved(wm, wb);
        }
        handle_collision_moving_static(&mut self.ecs);
        let ghost wc = self.ecs@;
        proof {
            lemma_player_preserved(wb, wc);
            assert(wc.positions[p] is Some);
            assert(wc.velocities[p] is Some);
            if is_moving(wb, p) {
                lemma_resolve_jump_some(wb, p, wb.len() as int);
            }
            assert(wc.jumps[p] is Some);
            assert(wc.colors[p] is Some);
            assert(forall|i: int|
                0 <= i < wb.positions.len() ==> ((#[trigger] wc.positions[i]) is Some
                    <==> wb.positions[i] is Some));
            lemma_cam_preserved(wb, wc);
        }
        player_collides_coin(&mut self.ecs);
        let ghost wk = self.ecs@;
        proof {
            lemma_player_preserved(wc, wk);
            assert(wk.velocities[p] is Some);
            assert(wk.positions[p] == wc.positions[p]);
            lemma_cam_preserved(wc, wk);
        }
        update_jump_time(&mut self.ecs, delta);
        let ghost wj = self.ecs@;
        proof {
            lemma_player_preserved(wk, wj);
            lemma_cam_preserved(wk, wj);
        }
        player_enter_kill_zone(&mut self.ecs, &self.spawn);
        let ghost wz = self.ecs@;
        proof {
            lemma_player_preserved(wj, wz);
            assert(wz.positions[p] is Some);
            assert(wz.velocities[p] is Some);
            assert(forall|i: int|
                0 <= i < wj.positions.len() ==> ((#[trigger] wz.positions[i]) is Some
                    <==> wj.positions[i] is Some));
            lemma_cam_preserved(wj, wz);
        }
        move_camera(&mut self.camera, &mut self.ecs);
        proof {
            let wf_ = self.ecs@;
            lemma_player_preserved(wz, wf_);
            assert(is_cam(wz, cam_ix(wz)));
            assert(wf_.positions[p] is Some);
            assert(forall|i: int|
                0 <= i < wz.positions.len() ==> ((#[trigger] wf_.positions[i]) is Some
                    <==> wz.positions[i] is Some));
            lemma_cam_preserved(wz, wf_);
        }
    }
}

} // verus!

