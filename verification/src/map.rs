//! World descriptions: the entity descriptors a map consists of, their
//! validation, and how they populate the store at startup.

use vstd::prelude::*;

use crate::components::{
    coord_in_range, Bullet, CameraHitbox, CoinKind, Color, Colorable, ColorDrawType,
    Componentable, Direction, Gravitable, InfiniteArea, KillZone, Player, Position, Rectangle,
    Solid, Velocity,
};
use crate::ecs::{Ecs, WorldView};
use crate::physics::PLAYER_VERTICAL_ACCELERATION;
use crate::player::Jump;
use crate::resources::Spawn;

verus! {

/// A kill-zone descriptor: a finite rectangle or an infinite half-plane.
#[derive(Debug, Clone, Copy, PartialEq)]
pub enum KillZoneType {
    Area { position: Position, rectangle: Rectangle },
    Infinite { start: i64, direction: Direction },
}

/// One entry of a world description.
#[derive(Debug, Clone, Copy, PartialEq)]
pub enum Entity {
    Player { position: Position },
    Static { position: Position, rectangle: Rectangle, color: Color },
    Coin { position: Position, color: Color, jump: Option<i64> },
    KillZone(KillZoneType),
}

/// Why a world description is rejected at startup.
#[derive(Debug, Clone, Copy, PartialEq, Eq, Structural)]
pub enum MapError {
    NoPlayer,
    MultiplePlayers,
}

/// Every coordinate the descriptor carries lies inside the world range.
pub open spec fn entity_wf(e: Entity) -> bool {
    match e {
        Entity::Player { position } => position.wf(),
        Entity::Static { position, .. } => position.wf(),
        Entity::Coin { position, .. } => position.wf(),
        Entity::KillZone(KillZoneType::Area { position, .. }) => position.wf(),
        Entity::KillZone(KillZoneType::Infinite { start, .. }) => coord_in_range(start as int),
    }
}

/// The impulse a jump coin carries, derived from its divisor: the vertical
/// acceleration constant over the divisor, saturating like a float-to-int
/// cast at zero and at the unsigned limit.
pub open spec fn coin_impulse(divisor: int) -> int {
    if divisor == 0 {
        u32::MAX as int
    } else if divisor < 0 {
        0
    } else {
        (PLAYER_VERTICAL_ACCELERATION as int) / divisor
    }
}

/// How many entries describe a player, among the first `n`.
pub open spec fn count_players(es: Seq<Entity>, n: int) -> int
    decreases n,
{
    if n <= 0 {
        0int
    } else {
        count_players(es, n - 1) + if es[n - 1] is Player {
            1int
        } else {
            0int
        }
    }
}

/// The position of the first player entry, among the first `n`.
pub open spec fn first_player_pos(es: Seq<Entity>, n: int) -> Option<Position>
    decreases n,
{
    if n <= 0 {
        None
    } else {
        match first_player_pos(es, n - 1) {
            Some(p) => Some(p),
            None => match es[n - 1] {
                Entity::Player { position } => Some(position),
                _ => None,
            },
        }
    }
}

/// A description counting at least one player names a first player
/// position.
pub proof fn lemma_count_first(es: Seq<Entity>, n: int)
    ensures
        count_players(es, n) > 0 ==> first_player_pos(es, n) is Some,
    decreases n,
{
    if n > 0 {
        lemma_count_first(es, n - 1);
    }
}

/// Player counts grow with the prefix they count over.
pub proof fn lemma_count_monotone(es: Seq<Entity>, a: int, b: int)
    requires
        a <= b,
    ensures
        count_players(es, a) <= count_players(es, b),
    decreases b - a,
{
    if a < b {
        lemma_count_monotone(es, a, b - 1);
    }
}

/// The world with one descriptor spawned: a player entry yields the full
/// controllable bundle, a static entry a coloured solid block, a coin
/// entry its effect and face, a kill-zone entry its region.
pub open spec fn spawn_entity_tr(w: WorldView, e: Entity) -> WorldView {
    match e {
        Entity::Player { position } => WorldView {
            positions: w.positions.push(Some(position)),
            rects: w.rects.push(Some(Rectangle { width: 50, height: 50 })),
            colors: w.colors.push(
                Some(
                    Colorable {
                        color: Color { r: 0, g: 0, b: 255, a: 255 },
                        draw_type: ColorDrawType::Fill,
                    },
                ),
            ),
            velocities: w.velocities.push(Some(Velocity { x: 0, y: 0 })),
            solids: w.solids.push(Some(Solid { up: true, down: true, left: true, right: true })),
            jumps: w.jumps.push(Some(Jump { time_to_jump: None, grounded: false })),
            gravitables: w.gravitables.push(Some(Gravitable)),
            players: w.players.push(Some(Player)),
            coin_kinds: w.coin_kinds.push(None),
            bounces: w.bounces.push(None),
            margins: w.margins.push(None),
            infinite_areas: w.infinite_areas.push(None),
            bullets: w.bullets.push(None),
            kill_zones: w.kill_zones.push(None),
            camera_hitboxes: w.camera_hitboxes.push(None),
        },
        Entity::Static { position, rectangle, color } => WorldView {
            positions: w.positions.push(Some(position)),
            rects: w.rects.push(Some(rectangle)),
            colors: w.colors.push(
                Some(Colorable { color, draw_type: ColorDrawType::Fill }),
            ),
            solids: w.solids.push(Some(Solid { up: true, down: true, left: true, right: true })),
            velocities: w.velocities.push(None),
            jumps: w.jumps.push(None),
            gravitables: w.gravitables.push(None),
            players: w.players.push(None),
            coin_kinds: w.coin_kinds.push(None),
            bounces: w.bounces.push(None),
            margins: w.margins.push(None),
            infinite_areas: w.infinite_areas.push(None),
            bullets: w.bullets.push(None),
            kill_zones: w.kill_zones.push(None),
            camera_hitboxes: w.camera_hitboxes.push(None),
        },
        Entity::Coin { position, color, jump } => WorldView {
            positions: w.positions.push(Some(position)),
            rects: w.rects.push(Some(Rectangle { width: 10, height: 10 })),
            colors: w.colors.push(
                Some(Colorable { color, draw_type: ColorDrawType::Fill }),
            ),
            coin_kinds: w.coin_kinds.push(
                Some(
                    match jump {
                        Some(divisor) => CoinKind::Jump(coin_impulse(divisor as int) as u32),
                        None => CoinKind::Color(color),
                    },
                ),
            ),
            velocities: w.velocities.push(None),
            solids: w.solids.push(None),
            jumps: w.jumps.push(None),
            gravitables: w.gravitables.push(None),
            players: w.players.push(None),
            bounces: w.bounces.push(None),
            margins: w.margins.push(None),
            infinite_areas: w.infinite_areas.push(None),
            bullets: w.bullets.push(None),
            kill_zones: w.kill_zones.push(None),
            camera_hitboxes: w.camera_hitboxes.push(None),
        },
        Entity::KillZone(KillZoneType::Area { position, rectangle }) => WorldView {
            kill_zones: w.kill_zones.push(Some(KillZone)),
            positions: w.positions.push(Some(position)),
            rects: w.rects.push(Some(rectangle)),
            colors: w.colors.push(
                Some(
                    Colorable {
                        color: Color { r: 255, g: 0, b: 0, a: 64 },
                        draw_type: ColorDrawType::Fill,
                    },
                ),
            ),
            velocities: w.velocities.push(None),
            solids: w.solids.push(None),
            jumps: w.jumps.push(None),
            gravitables: w.gravitables.push(None),
            players: w.players.push(None),
            coin_kinds: w.coin_kinds.push(None),
            bounces: w.bounces.push(None),
            margins: w.margins.push(None),
            infinite_areas: w.infinite_areas.push(None),
            bullets: w.bullets.push(None),
            camera_hitboxes: w.camera_hitboxes.push(None),
        },
        Entity::KillZone(KillZoneType::Infinite { start, direction }) => WorldView {
            kill_zones: w.kill_zones.push(Some(KillZone)),
            infinite_areas: w.infinite_areas.push(Some(InfiniteArea { start, direction })),
            positions: w.positions.push(None),
            rects: w.rects.push(None),
            colors: w.colors.push(None),
            velocities: w.velocities.push(None),
            solids: w.solids.push(None),
            jumps: w.jumps.push(None),
            gravitables: w.gravitables.push(None),
            players: w.players.push(None),
            coin_kinds: w.coin_kinds.push(None),
            bounces: w.bounces.push(None),
            margins: w.margins.push(None),
            bullets: w.bullets.push(None),
            camera_hitboxes: w.camera_hitboxes.push(None),
        },
    }
}

/// The world with the first `n` descriptors spawned, in order.
pub open spec fn spawn_upto(w: WorldView, es: Seq<Entity>, n: int) -> WorldView
    decreases n,
{
    if n <= 0 {
        w
    } else {
        spawn_entity_tr(spawn_upto(w, es, n - 1), es[n - 1])
    }
}

impl Entity {
    /// Spawns this descriptor's entity into the store.
    pub fn spawn(&self, ecs: &mut Ecs)
        requires
            old(ecs)@.wf(),
            entity_wf(*self),
        ensures
            final(ecs)@ == spawn_entity_tr(old(ecs)@, *self),
            final(ecs)@.wf(),
    {
        match *self {
            Entity::Player { position } => {
                ecs.create_entity();
                ecs.with_player(Player);
                ecs.with_position(position);
                ecs.with_rect(Rectangle::new(50, 50));
                ecs.with_color(Color::rgb(0, 0, 255).into_fill());
                ecs.with_velocity(Velocity { x: 0, y: 0 });
                ecs.with_solids(Solid::all());
                ecs.with_jump(Jump::default());
                ecs.with_gravitable(Gravitable);
            },
            Entity::Static { position, rectangle, color } => {
                ecs.create_entity();
                ecs.with_position(position);
                ecs.with_rect(rectangle);
                ecs.with_color(color.into_fill());
                ecs.with_solids(Solid::all());
            },
            Entity::Coin { position, color, jump } => {
                let kind = match jump {
                    Some(divisor) => {
                        let amount: u32 = if divisor == 0 {
                            u32::MAX
                        } else if divisor < 0 {
                            0
                        } else {
                            ((PLAYER_VERTICAL_ACCELERATION as u64) / (divisor as u64)) as u32
                        };
                        CoinKind::Jump(amount)
                    },
                    None => CoinKind::Color(color),
                };
                ecs.create_entity();
                ecs.with_position(position);
                ecs.with_rect(Rectangle::new(10, 10));
                ecs.with_coin_kind(kind);
                ecs.with_color(color.into_fill());
            },
            Entity::KillZone(KillZoneType::Area { position, rectangle }) => {
                ecs.create_entity();
                ecs.with_kill_zone(KillZone);
                ecs.with_position(position);
                ecs.with_rect(rectangle);
                ecs.with_color(Color::rgba(255, 0, 0, 64).into_fill());
            },
            Entity::KillZone(KillZoneType::Infinite { start, direction }) => {
                ecs.create_entity();
                ecs.with_kill_zone(KillZone);
                ecs.with_infinite_area(InfiniteArea { start, direction });
            },
        }
        proof {
            assert(ecs@ =~= spawn_entity_tr(old(ecs)@, *self));
        }
    }
}

/// Builds the world a description names: rejected outright unless exactly
/// one player entry exists; otherwise every entry is spawned in order and
/// the spawn point is set to the player entry's position.
#[verifier::loop_isolation(false)]
pub fn init_map_system(ecs: &mut Ecs, spawn: &mut Spawn, entities: &Vec<Entity>) -> (r: Result<
    (),
    MapError,
>)
    requires
        old(ecs)@.wf(),
        forall|k: int| 0 <= k < old(ecs)@.len() ==> old(ecs)@.players[k] is None,
        forall|k: int| 0 <= k < entities@.len() ==> entity_wf(#[trigger] entities@[k]),
    ensures
        r == (if count_players(entities@, entities@.len() as int) == 0 {
            Result::<(), MapError>::Err(MapError::NoPlayer)
        } else if count_players(entities@, entities@.len() as int) >= 2 {
            Result::<(), MapError>::Err(MapError::MultiplePlayers)
        } else {
            Result::<(), MapError>::Ok(())
        }),
        r is Err ==> final(ecs)@ == old(ecs)@ && *final(spawn) == *old(spawn),
        r is Ok ==> final(ecs)@ == spawn_upto(old(ecs)@, entities@, entities@.len() as int),
        r is Ok ==> Some(final(spawn).0) == first_player_pos(
            entities@,
            entities@.len() as int,
        ) && final(spawn).wf(),
        r is Ok ==> crate::player::unique_player(final(ecs)@),
        r is Ok ==> ({
            let p = crate::player::player_ix(final(ecs)@);
            &&& final(ecs)@.positions[p] is Some
            &&& final(ecs)@.rects[p] is Some
            &&& final(ecs)@.velocities[p] is Some
            &&& final(ecs)@.colors[p] is Some
            &&& final(ecs)@.jumps[p] is Some
        }),
        forall|k: int|
            old(ecs)@.len() <= k < final(ecs)@.len() ==> final(ecs)@.camera_hitboxes[k]
                is None && final(ecs)@.margins[k] is None,
        final(ecs)@.len() >= old(ecs)@.len(),
        forall|k: int|
            0 <= k < old(ecs)@.len() ==> final(ecs)@.camera_hitboxes[k] == old(
                ecs,
            )@.camera_hitboxes[k] && final(ecs)@.margins[k] == old(ecs)@.margins[k]
                && final(ecs)@.positions[k] == old(ecs)@.positions[k] && final(ecs)@.rects[k]
                == old(ecs)@.rects[k] && final(ecs)@.players[k] == old(ecs)@.players[k],
        final(ecs)@.wf(),
{
    let n = entities.len();
    let mut count: usize = 0;
    let mut first_pos: Option<Position> = None;
    let mut i: usize = 0;
    while i < n
        invariant
            i <= n,
            count <= i,
            count == count_players(entities@, i as int),
            first_pos == first_player_pos(entities@, i as int),
            first_pos matches Some(p) ==> p.wf(),
        decreases n - i,
    {
        if let Entity::Player { position } = entities[i] {
            count = count + 1;
            if first_pos.is_none() {
                first_pos = Some(position);
            }
        }
        i = i + 1;
    }
    if count == 0 {
        return Err(MapError::NoPlayer);
    }
    if count >= 2 {
        return Err(MapError::MultiplePlayers);
    }
    proof {
        lemma_count_first(entities@, n as int);
    }
    spawn.0 = first_pos.unwrap();

    let ghost w0 = ecs@;
    let mut player_at: Option<usize> = None;
    let mut j: usize = 0;
    while j < n
        invariant
            j <= n,
            ecs@ == spawn_upto(w0, entities@, j as int),
            ecs@.wf(),
            ecs@.len() >= w0.len(),
            forall|k: int|
                w0.len() <= k < ecs@.len() ==> ecs@.camera_hitboxes[k] is None
                    && ecs@.margins[k] is None,
            forall|k: int|
                0 <= k < w0.len() ==> ecs@.camera_hitboxes[k] == w0.camera_hitboxes[k]
                    && ecs@.margins[k] == w0.margins[k] && ecs@.positions[k] == w0.positions[k]
                    && ecs@.rects[k] == w0.rects[k] && ecs@.players[k] == w0.players[k],
            match player_at {
                Some(pi) => {
                    &&& count_players(entities@, j as int) == 1
                    &&& pi < ecs@.len()
                    &&& ecs@.players[pi as int] is Some
                    &&& ecs@.positions[pi as int] is Some
                    &&& ecs@.rects[pi as int] is Some
                    &&& ecs@.velocities[pi as int] is Some
                    &&& ecs@.colors[pi as int] is Some
                    &&& ecs@.jumps[pi as int] is Some
                    &&& forall|k: int|
                        0 <= k < ecs@.len() && k != pi ==> ecs@.players[k] is None
                },
                None => {
                    &&& count_players(entities@, j as int) == 0
                    &&& forall|k: int| 0 <= k < ecs@.len() ==> ecs@.players[k] is None
                },
            },
        decreases n - j,
    {
        let e = entities[j];
        if let Entity::Player { .. } = e {
            player_at = Some(ecs.len());
        }
        e.spawn(ecs);
        proof {
            lemma_count_monotone(entities@, j as int + 1, n as int);
        }
        j = j + 1;
    }
    proof {
        let wf_ = ecs@;
        let pi = player_at->0 as int;
        assert(player_at is Some);
        assert(crate::player::is_player(wf_, pi));
        assert(crate::player::unique_player(wf_));
        assert(crate::player::is_player(wf_, crate::player::player_ix(wf_)));
        assert(crate::player::player_ix(wf_) == pi);
    }
    Ok(())
}

} // verus!
