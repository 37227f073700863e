//! The entity store: component tables keyed by entity index, so systems
//! write back through the table instead of holding borrowed views across
//! their loops.

use vstd::prelude::*;

use crate::camera::Margin;
use crate::components::{
    Bounce, Bullet, CameraHitbox, CoinKind, Color, Colorable, ColorDrawType, Componentable,
    Gravitable, InfiniteArea, KillZone, Player, Position, Rectangle, Solid, Velocity,
};
use crate::player::Jump;

verus! {

/// An entity id: an index into every component table.
#[derive(Debug, Clone, Copy, PartialEq, Eq)]
pub struct Entity(pub usize);

/// The mathematical contents of the store: one sequence per component
/// table, all of one length, `None` where an entity lacks the component.
#[verifier::ext_equal]
pub ghost struct WorldView {
    pub positions: Seq<Option<Position>>,
    pub velocities: Seq<Option<Velocity>>,
    pub rects: Seq<Option<Rectangle>>,
    pub colors: Seq<Option<Colorable>>,
    pub coin_kinds: Seq<Option<CoinKind>>,
    pub solids: Seq<Option<Solid>>,
    pub bounces: Seq<Option<Bounce>>,
    pub jumps: Seq<Option<Jump>>,
    pub margins: Seq<Option<Margin>>,
    pub infinite_areas: Seq<Option<InfiniteArea>>,
    pub gravitables: Seq<Option<Gravitable>>,
    pub players: Seq<Option<Player>>,
    pub bullets: Seq<Option<Bullet>>,
    pub kill_zones: Seq<Option<KillZone>>,
    pub camera_hitboxes: Seq<Option<CameraHitbox>>,
}

impl WorldView {
    /// The number of entities.
    pub open spec fn len(self) -> nat {
        self.positions.len()
    }

    /// Every table has one length.
    pub open spec fn tables_consistent(self) -> bool {
        &&& self.velocities.len() == self.len()
        &&& self.rects.len() == self.len()
        &&& self.colors.len() == self.len()
        &&& self.coin_kinds.len() == self.len()
        &&& self.solids.len() == self.len()
        &&& self.bounces.len() == self.len()
        &&& self.jumps.len() == self.len()
        &&& self.margins.len() == self.len()
        &&& self.infinite_areas.len() == self.len()
        &&& self.gravitables.len() == self.len()
        &&& self.players.len() == self.len()
        &&& self.bullets.len() == self.len()
        &&& self.kill_zones.len() == self.len()
        &&& self.camera_hitboxes.len() == self.len()
    }

    /// Tables consistent and every held value inside its range.
    pub open spec fn wf(self) -> bool {
        &&& self.tables_consistent()
        &&& forall|i: int|
            0 <= i < self.len() ==> ((#[trigger] self.positions[i]) matches Some(p) ==> p.wf())
        &&& forall|i: int|
            0 <= i < self.len() ==> ((#[trigger] self.velocities[i]) matches Some(v) ==> v.wf())
        &&& forall|i: int|
            0 <= i < self.len() ==> ((#[trigger] self.jumps[i]) matches Some(j) ==> j.wf())
        &&& forall|i: int|
            0 <= i < self.len() ==> ((#[trigger] self.bounces[i]) matches Some(b) ==> b.wf())
        &&& forall|i: int|
            0 <= i < self.len() ==> ((#[trigger] self.infinite_areas[i]) matches Some(a)
                ==> a.wf())
    }
}

/// The contents of a store with no entities.
pub open spec fn empty_world() -> WorldView {
    WorldView {
        positions: Seq::empty(),
        velocities: Seq::empty(),
        rects: Seq::empty(),
        colors: Seq::empty(),
        coin_kinds: Seq::empty(),
        solids: Seq::empty(),
        bounces: Seq::empty(),
        jumps: Seq::empty(),
        margins: Seq::empty(),
        infinite_areas: Seq::empty(),
        gravitables: Seq::empty(),
        players: Seq::empty(),
        bullets: Seq::empty(),
        kill_zones: Seq::empty(),
        camera_hitboxes: Seq::empty(),
    }
}

/// The entity store itself: a component arena.
pub struct Ecs {
    pub positions: Vec<Option<Position>>,
    pub velocities: Vec<Option<Velocity>>,
    pub rects: Vec<Option<Rectangle>>,
    pub colors: Vec<Option<Colorable>>,
    pub coin_kinds: Vec<Option<CoinKind>>,
    pub solids: Vec<Option<Solid>>,
    pub bounces: Vec<Option<Bounce>>,
    pub jumps: Vec<Option<Jump>>,
    pub margins: Vec<Option<Margin>>,
    pub infinite_areas: Vec<Option<InfiniteArea>>,
    pub gravitables: Vec<Option<Gravitable>>,
    pub players: Vec<Option<Player>>,
    pub bullets: Vec<Option<Bullet>>,
    pub kill_zones: Vec<Option<KillZone>>,
    pub camera_hitboxes: Vec<Option<CameraHitbox>>,
}

impl View for Ecs {
    type V = WorldView;

    open spec fn view(&self) -> WorldView {
        WorldView {
            positions: self.positions@,
            velocities: self.velocities@,
            rects: self.rects@,
            colors: self.colors@,
            coin_kinds: self.coin_kinds@,
            solids: self.solids@,
            bounces: self.bounces@,
            jumps: self.jumps@,
            margins: self.margins@,
            infinite_areas: self.infinite_areas@,
            gravitables: self.gravitables@,
            players: self.players@,
            bullets: self.bullets@,
            kill_zones: self.kill_zones@,
            camera_hitboxes: self.camera_hitboxes@,
        }
    }
}

impl Ecs {
    /// An empty store.
    pub fn new() -> (r: Ecs)
        ensures
            r@ == empty_world(),
            r@.len() == 0,
            r@.wf(),
    {
        let r = Ecs {
            positions: Vec::new(),
            velocities: Vec::new(),
            rects: Vec::new(),
            colors: Vec::new(),
            coin_kinds: Vec::new(),
            solids: Vec::new(),
            bounces: Vec::new(),
            jumps: Vec::new(),
            margins: Vec::new(),
            infinite_areas: Vec::new(),
            gravitables: Vec::new(),
            players: Vec::new(),
            bullets: Vec::new(),
            kill_zones: Vec::new(),
            camera_hitboxes: Vec::new(),
        };
        proof {
            assert(r@ =~= empty_world());
        }
        r
    }

    /// The number of entities.
    pub fn len(&self) -> (r: usize)
        ensures
            r == self@.len(),
    {
        self.positions.len()
    }

    /// Appends a fresh entity with no components; fill it with the
    /// `with_` builders.
    pub fn create_entity(&mut self)
        requires
            old(self)@.tables_consistent(),
        ensures
            final(self)@ == (WorldView {
                positions: old(self)@.positions.push(None),
                velocities: old(self)@.velocities.push(None),
                rects: old(self)@.rects.push(None),
                colors: old(self)@.colors.push(None),
                coin_kinds: old(self)@.coin_kinds.push(None),
                solids: old(self)@.solids.push(None),
                bounces: old(self)@.bounces.push(None),
                jumps: old(self)@.jumps.push(None),
                margins: old(self)@.margins.push(None),
                infinite_areas: old(self)@.infinite_areas.push(None),
                gravitables: old(self)@.gravitables.push(None),
                players: old(self)@.players.push(None),
                bullets: old(self)@.bullets.push(None),
                kill_zones: old(self)@.kill_zones.push(None),
                camera_hitboxes: old(self)@.camera_hitboxes.push(None),
            }),
            final(self)@.tables_consistent(),
            old(self)@.wf() ==> final(self)@.wf(),
    {
        self.positions.push(None);
        self.velocities.push(None);
        self.rects.push(None);
        self.colors.push(None);
        self.coin_kinds.push(None);
        self.solids.push(None);
        self.bounces.push(None);
        self.jumps.push(None);
        self.margins.push(None);
        self.infinite_areas.push(None);
        self.gravitables.push(None);
        self.players.push(None);
        self.bullets.push(None);
        self.kill_zones.push(None);
        self.camera_hitboxes.push(None);
    }

    /// The id of the most recently created entity.
    pub fn entity(&self) -> (r: Entity)
        requires
            self@.len() > 0,
        ensures
            r.0 == self@.len() - 1,
    {
        Entity(self.positions.len() - 1)
    }

    /// Clears every component of an entity, leaving its index unoccupied.
    pub fn despawn(&mut self, id: usize)
        requires
            old(self)@.wf(),
            id < old(self)@.len(),
        ensures
            final(self)@ == (WorldView {
                positions: old(self)@.positions.update(id as int, None),
                velocities: old(self)@.velocities.update(id as int, None),
                rects: old(self)@.rects.update(id as int, None),
                colors: old(self)@.colors.update(id as int, None),
                coin_kinds: old(self)@.coin_kinds.update(id as int, None),
                solids: old(self)@.solids.update(id as int, None),
                bounces: old(self)@.bounces.update(id as int, None),
                jumps: old(self)@.jumps.update(id as int, None),
                margins: old(self)@.margins.update(id as int, None),
                infinite_areas: old(self)@.infinite_areas.update(id as int, None),
                gravitables: old(self)@.gravitables.update(id as int, None),
                players: old(self)@.players.update(id as int, None),
                bullets: old(self)@.bullets.update(id as int, None),
                kill_zones: old(self)@.kill_zones.update(id as int, None),
                camera_hitboxes: old(self)@.camera_hitboxes.update(id as int, None),
            }),
            final(self)@.wf(),
    {
        self.positions.set(id, None);
        self.velocities.set(id, None);
        self.rects.set(id, None);
        self.colors.set(id, None);
        self.coin_kinds.set(id, None);
        self.solids.set(id, None);
        self.bounces.set(id, None);
        self.jumps.set(id, None);
        self.margins.set(id, None);
        self.infinite_areas.set(id, None);
        self.gravitables.set(id, None);
        self.players.set(id, None);
        self.bullets.set(id, None);
        self.kill_zones.set(id, None);
        self.camera_hitboxes.set(id, None);
    }

    /// Gives the newest entity its position.
    pub fn with_position(&mut self, position: Position)
        requires
            old(self)@.wf(),
            old(self)@.len() > 0,
            position.wf(),
        ensures
            final(self)@ == (WorldView {
                positions: old(self)@.positions.update(
                    old(self)@.len() - 1,
                    Some(position),
                ),
                ..old(self)@
            }),
            final(self)@.wf(),
    {
        let last = self.positions.len() - 1;
        self.positions.set(last, Some(position));
    }

    /// Gives the newest entity its velocity.
    pub fn with_velocity(&mut self, velocity: Velocity)
        requires
            old(self)@.wf(),
            old(self)@.len() > 0,
            velocity.wf(),
        ensures
            final(self)@ == (WorldView {
                velocities: old(self)@.velocities.update(
                    old(self)@.len() - 1,
                    Some(velocity),
                ),
                ..old(self)@
            }),
            final(self)@.wf(),
    {
        let last = self.positions.len() - 1;
        self.velocities.set(last, Some(velocity));
    }

    /// Gives the newest entity its shape.
    pub fn with_rect(&mut self, rect: Rectangle)
        requires
            old(self)@.wf(),
            old(self)@.len() > 0,
        ensures
            final(self)@ == (WorldView {
                rects: old(self)@.rects.update(old(self)@.len() - 1, Some(rect)),
                ..old(self)@
            }),
            final(self)@.wf(),
    {
        let last = self.positions.len() - 1;
        self.rects.set(last, Some(rect));
    }

    /// Gives the newest entity its drawable face.
    pub fn with_color(&mut self, color: Colorable)
        requires
            old(self)@.wf(),
            old(self)@.len() > 0,
        ensures
            final(self)@ == (WorldView {
                colors: old(self)@.colors.update(old(self)@.len() - 1, Some(color)),
                ..old(self)@
            }),
            final(self)@.wf(),
    {
        let last = self.positions.len() - 1;
        self.colors.set(last, Some(color));
    }

    /// Gives the newest entity its solidity capability set.
    pub fn with_solids(&mut self, solid: Solid)
        requires
            old(self)@.wf(),
            old(self)@.len() > 0,
        ensures
            final(self)@ == (WorldView {
                solids: old(self)@.solids.update(old(self)@.len() - 1, Some(solid)),
                ..old(self)@
            }),
            final(self)@.wf(),
    {
        let last = self.positions.len() - 1;
        self.solids.set(last, Some(solid));
    }

    /// Gives the newest entity a coin effect, and the matching face: the
    /// carried colour for a recolour coin, cyan for an impulse coin.
    pub fn with_coin_kind(&mut self, coin_kind: CoinKind)
        requires
            old(self)@.wf(),
            old(self)@.len() > 0,
        ensures
            final(self)@ == (WorldView {
                colors: old(self)@.colors.update(
                    old(self)@.len() - 1,
                    Some(
                        Colorable {
                            color: match coin_kind {
                                CoinKind::Color(c) => c,
                                CoinKind::Jump(_) => Color { r: 0, g: 255, b: 255, a: 255 },
                            },
                            draw_type: ColorDrawType::Fill,
                        },
                    ),
                ),
                coin_kinds: old(self)@.coin_kinds.update(
                    old(self)@.len() - 1,
                    Some(coin_kind),
                ),
                ..old(self)@
            }),
            final(self)@.wf(),
    {
        let last = self.positions.len() - 1;
        let color = match coin_kind {
            CoinKind::Color(c) => c,
            CoinKind::Jump(_) => Color::rgb(0, 255, 255),
        };
        self.colors.set(last, Some(color.into_fill()));
        self.coin_kinds.set(last, Some(coin_kind));
    }

    /// Gives the newest entity its bounce behaviour.
    pub fn with_bounce(&mut self, bounce: Bounce)
        requires
            old(self)@.wf(),
            old(self)@.len() > 0,
            bounce.wf(),
        ensures
            final(self)@ == (WorldView {
                bounces: old(self)@.bounces.update(old(self)@.len() - 1, Some(bounce)),
                ..old(self)@
            }),
            final(self)@.wf(),
    {
        let last = self.positions.len() - 1;
        self.bounces.set(last, Some(bounce));
    }

    /// Gives the newest entity its jump state.
    pub fn with_jump(&mut self, jump: Jump)
        requires
            old(self)@.wf(),
            old(self)@.len() > 0,
            jump.wf(),
        ensures
            final(self)@ == (WorldView {
                jumps: old(self)@.jumps.update(old(self)@.len() - 1, Some(jump)),
                ..old(self)@
            }),
            final(self)@.wf(),
    {
        let last = self.positions.len() - 1;
        self.jumps.set(last, Some(jump));
    }

    /// Gives the newest entity its deadzone margins.
    pub fn with_margin(&mut self, margin: Margin)
        requires
            old(self)@.wf(),
            old(self)@.len() > 0,
        ensures
            final(self)@ == (WorldView {
                margins: old(self)@.margins.update(old(self)@.len() - 1, Some(margin)),
                ..old(self)@
            }),
            final(self)@.wf(),
    {
        let last = self.positions.len() - 1;
        self.margins.set(last, Some(margin));
    }

    /// Gives the newest entity an infinite half-plane region.
    pub fn with_infinite_area(&mut self, area: InfiniteArea)
        requires
            old(self)@.wf(),
            old(self)@.len() > 0,
            area.wf(),
        ensures
            final(self)@ == (WorldView {
                infinite_areas: old(self)@.infinite_areas.update(
                    old(self)@.len() - 1,
                    Some(area),
                ),
                ..old(self)@
            }),
            final(self)@.wf(),
    {
        let last = self.positions.len() - 1;
        self.infinite_areas.set(last, Some(area));
    }

    /// Marks the newest entity as subject to gravity.
    pub fn with_gravitable(&mut self, marker: Gravitable)
        requires
            old(self)@.wf(),
            old(self)@.len() > 0,
        ensures
            final(self)@ == (WorldView {
                gravitables: old(self)@.gravitables.update(
                    old(self)@.len() - 1,
                    Some(marker),
                ),
                ..old(self)@
            }),
            final(self)@.wf(),
    {
        let last = self.positions.len() - 1;
        self.gravitables.set(last, Some(marker));
    }

    /// Marks the newest entity as the player.
    pub fn with_player(&mut self, marker: Player)
        requires
            old(self)@.wf(),
            old(self)@.len() > 0,
        ensures
            final(self)@ == (WorldView {
                players: old(self)@.players.update(old(self)@.len() - 1, Some(marker)),
                ..old(self)@
            }),
            final(self)@.wf(),
    {
        let last = self.positions.len() - 1;
        self.players.set(last, Some(marker));
    }

    /// Marks the newest entity as a projectile.
    pub fn with_bullet(&mut self, marker: Bullet)
        requires
            old(self)@.wf(),
            old(self)@.len() > 0,
        ensures
            final(self)@ == (WorldView {
                bullets: old(self)@.bullets.update(old(self)@.len() - 1, Some(marker)),
                ..old(self)@
            }),
            final(self)@.wf(),
    {
        let last = self.positions.len() - 1;
        self.bullets.set(last, Some(marker));
    }

    /// Marks the newest entity as a kill zone.
    pub fn with_kill_zone(&mut self, marker: KillZone)
        requires
            old(self)@.wf(),
            old(self)@.len() > 0,
        ensures
            final(self)@ == (WorldView {
                kill_zones: old(self)@.kill_zones.update(
                    old(self)@.len() - 1,
                    Some(marker),
                ),
                ..old(self)@
            }),
            final(self)@.wf(),
    {
        let last = self.positions.len() - 1;
        self.kill_zones.set(last, Some(marker));
    }

    /// Marks the newest entity as the camera's deadzone.
    pub fn with_camera_hitbox(&mut self, marker: CameraHitbox)
        requires
            old(self)@.wf(),
            old(self)@.len() > 0,
        ensures
            final(self)@ == (WorldView {
                camera_hitboxes: old(self)@.camera_hitboxes.update(
                    old(self)@.len() - 1,
                    Some(marker),
                ),
                ..old(self)@
            }),
            final(self)@.wf(),
    {
        let last = self.positions.len() - 1;
        self.camera_hitboxes.set(last, Some(marker));
    }

    /// Read access to the position table.
    pub fn positions(&self) -> (r: &Vec<Option<Position>>)
        ensures
            r@ == self@.positions,
    {
        &self.positions
    }

    /// Read access to the velocity table.
    pub fn velocities(&self) -> (r: &Vec<Option<Velocity>>)
        ensures
            r@ == self@.velocities,
    {
        &self.velocities
    }

    /// Read access to the shape table.
    pub fn rects(&self) -> (r: &Vec<Option<Rectangle>>)
        ensures
            r@ == self@.rects,
    {
        &self.rects
    }

    /// Read access to the drawable-face table.
    pub fn colors(&self) -> (r: &Vec<Option<Colorable>>)
        ensures
            r@ == self@.colors,
    {
        &self.colors
    }

    /// Read access to the coin-effect table.
    pub fn coin_kinds(&self) -> (r: &Vec<Option<CoinKind>>)
        ensures
            r@ == self@.coin_kinds,
    {
        &self.coin_kinds
    }

    /// Read access to the solidity table.
    pub fn solids(&self) -> (r: &Vec<Option<Solid>>)
        ensures
            r@ == self@.solids,
    {
        &self.solids
    }
}

} // verus!
