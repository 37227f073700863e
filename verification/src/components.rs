//! Geometry components: positions, velocities, rectangles, and the hitbox
//! view with its collision predicate and axis-of-least-penetration resolver.

use vstd::prelude::*;

verus! {

/// Thousandths of a world unit per world unit: the fixed-point scale of all
/// coordinates.
pub const SUBUNITS: i64 = 1000;

/// Largest coordinate magnitude the world holds, in subunits.  Every stored
/// position stays inside `[-COORD_LIMIT, COORD_LIMIT]`; writes that would
/// leave the range saturate at the boundary.
pub const COORD_LIMIT: i64 = 1_000_000_000_000_000_000;

/// Largest coordinate magnitude expressible in whole world units through
/// constructors that take unit arguments.
pub const UNIT_LIMIT: i64 = 1_000_000_000_000_000;

/// Largest velocity magnitude the world holds, in world units per second.
pub const SPEED_LIMIT: i64 = 1_000_000_000_000_000;

/// Saturates a coordinate into the world range.
pub open spec fn clamp_coord_spec(x: int) -> int {
    if x > COORD_LIMIT {
        COORD_LIMIT as int
    } else if x < -COORD_LIMIT {
        -COORD_LIMIT as int
    } else {
        x
    }
}

/// Saturates a coordinate into the world range.
pub fn clamp_coord(x: i64) -> (r: i64)
    ensures
        r == clamp_coord_spec(x as int),
{
    if x > COORD_LIMIT {
        COORD_LIMIT
    } else if x < -COORD_LIMIT {
        -COORD_LIMIT
    } else {
        x
    }
}

/// True of a coordinate inside the world range.
pub open spec fn coord_in_range(x: int) -> bool {
    -COORD_LIMIT <= x <= COORD_LIMIT
}

/// True of a velocity component inside the held range.
pub open spec fn speed_in_range(x: int) -> bool {
    -SPEED_LIMIT <= x <= SPEED_LIMIT
}

/// A point of the world, in subunits (thousandths of a world unit), y up.
#[derive(Debug, Clone, Copy, PartialEq, Eq)]
pub struct Position {
    pub x: i64,
    pub y: i64,
}

impl Position {
    /// True when both coordinates are inside the world range.
    pub open spec fn wf(self) -> bool {
        coord_in_range(self.x as int) && coord_in_range(self.y as int)
    }

    /// Builds a position from whole world units.
    pub fn new(x: i64, y: i64) -> (r: Position)
        requires
            -UNIT_LIMIT <= x <= UNIT_LIMIT,
            -UNIT_LIMIT <= y <= UNIT_LIMIT,
        ensures
            r.x == x * SUBUNITS,
            r.y == y * SUBUNITS,
            r.wf(),
    {
        Position { x: x * SUBUNITS, y: y * SUBUNITS }
    }
}

/// A velocity, in world units per second; one world unit per second is one
/// subunit per millisecond, so positions advance by `v * delta_ms` subunits.
#[derive(Debug, Clone, Copy, PartialEq, Eq)]
pub struct Velocity {
    pub x: i64,
    pub y: i64,
}

impl Velocity {
    /// True when both components are inside the held range.
    pub open spec fn wf(self) -> bool {
        speed_in_range(self.x as int) && speed_in_range(self.y as int)
    }

    /// Builds a velocity from its two components.
    pub fn new(x: i64, y: i64) -> (r: Velocity)
        requires
            -SPEED_LIMIT <= x <= SPEED_LIMIT,
            -SPEED_LIMIT <= y <= SPEED_LIMIT,
        ensures
            r.x == x,
            r.y == y,
            r.wf(),
    {
        Velocity { x, y }
    }
}

impl Default for Velocity {
    /// The resting velocity.
    fn default() -> (r: Velocity)
        ensures
            r.x == 0,
            r.y == 0,
            r.wf(),
    {
        Velocity { x: 0, y: 0 }
    }
}

/// A rectangular shape, in whole world units; immutable once spawned.
#[derive(Debug, Clone, Copy, PartialEq, Eq)]
pub struct Rectangle {
    pub width: u32,
    pub height: u32,
}

impl Rectangle {
    /// Builds a rectangle from its two sides.
    pub fn new(width: u32, height: u32) -> (r: Rectangle)
        ensures
            r.width == width,
            r.height == height,
    {
        Rectangle { width, height }
    }

    /// Width in subunits.
    pub open spec fn width_sub(self) -> int {
        self.width * SUBUNITS
    }

    /// Height in subunits.
    pub open spec fn height_sub(self) -> int {
        self.height * SUBUNITS
    }

    /// Places the rectangle on a position, yielding the derived hitbox view.
    pub fn on_position(&self, position: &Position) -> (r: Hitbox)
        ensures
            r.pos == *position,
            r.rect == *self,
    {
        Hitbox { pos: *position, rect: *self }
    }
}

/// The single axis a collision is resolved along, seen from the moving box:
/// `Up` means it hit something above, `Down` something below.
#[derive(Debug, Clone, Copy, PartialEq, Eq, Structural)]
pub enum CollisionAxis {
    Up,
    Down,
    Left,
    Right,
}

/// The edges of a placed rectangle, in subunits, as mathematical integers.
#[verifier::ext_equal]
pub ghost struct BoxEdges {
    pub left: int,
    pub right: int,
    pub bottom: int,
    pub top: int,
}

/// The edges a position and a rectangle span.
pub open spec fn box_edges(pos: Position, rect: Rectangle) -> BoxEdges {
    BoxEdges {
        left: pos.x as int,
        right: pos.x + rect.width_sub(),
        bottom: pos.y as int,
        top: pos.y + rect.height_sub(),
    }
}

/// Strict-inequality overlap: touching edges do not collide.
pub open spec fn overlaps(a: BoxEdges, b: BoxEdges) -> bool {
    a.left < b.right && a.right > b.left && a.bottom < b.top && a.top > b.bottom
}

/// The axis of least penetration between two overlapping boxes, or `None`
/// when the two candidate depths tie exactly (a defined no-op, not an error).
/// Vertical ties favour `Down`, horizontal ties favour `Right`.
pub open spec fn colliding_axis(a: BoxEdges, b: BoxEdges) -> Option<CollisionAxis> {
    if !overlaps(a, b) {
        None
    } else {
        let y_up = a.top - b.bottom;
        let y_down = b.top - a.bottom;
        let x_right = a.right - b.left;
        let x_left = b.right - a.left;
        let y_axis = if y_up >= y_down {
            CollisionAxis::Down
        } else {
            CollisionAxis::Up
        };
        let y_value = if y_up >= y_down {
            y_down
        } else {
            y_up
        };
        let x_axis = if x_left >= x_right {
            CollisionAxis::Right
        } else {
            CollisionAxis::Left
        };
        let x_value = if x_left >= x_right {
            x_right
        } else {
            x_left
        };
        if y_value > x_value {
            Some(x_axis)
        } else if y_value < x_value {
            Some(y_axis)
        } else {
            None
        }
    }
}

/// The derived, ephemeral view of a position and a rectangle as an
/// axis-aligned box; constructed on demand, never stored.
#[derive(Debug, Clone, Copy, PartialEq, Eq)]
pub struct Hitbox {
    pub pos: Position,
    pub rect: Rectangle,
}

impl View for Hitbox {
    type V = BoxEdges;

    open spec fn view(&self) -> BoxEdges {
        box_edges(self.pos, self.rect)
    }
}

impl Hitbox {
    /// True when the underlying position is inside the world range.
    pub open spec fn wf(self) -> bool {
        self.pos.wf()
    }

    /// The left edge, in subunits.
    pub fn left(&self) -> (r: i64)
        requires
            self.wf(),
        ensures
            r == self@.left,
    {
        self.pos.x
    }

    /// The right edge, in subunits.
    pub fn right(&self) -> (r: i64)
        requires
            self.wf(),
        ensures
            r == self@.right,
    {
        self.pos.x + (self.rect.width as i64) * SUBUNITS
    }

    /// The top edge, in subunits.
    pub fn top(&self) -> (r: i64)
        requires
            self.wf(),
        ensures
            r == self@.top,
    {
        self.pos.y + (self.rect.height as i64) * SUBUNITS
    }

    /// The bottom edge, in subunits.
    pub fn bottom(&self) -> (r: i64)
        requires
            self.wf(),
        ensures
            r == self@.bottom,
    {
        self.pos.y
    }

    /// The centre point, in subunits; exact, since half a side in subunits
    /// is still an integer.
    pub fn center(&self) -> (r: Position)
        requires
            self.wf(),
        ensures
            r.x == self.pos.x + (self.rect.width * (SUBUNITS / 2)),
            r.y == self.pos.y + (self.rect.height * (SUBUNITS / 2)),
    {
        Position {
            x: self.pos.x + (self.rect.width as i64) * (SUBUNITS / 2),
            y: self.pos.y + (self.rect.height as i64) * (SUBUNITS / 2),
        }
    }

    /// The strict-overlap collision predicate; the sole detection primitive.
    pub fn colides_with(&self, other: &Hitbox) -> (r: bool)
        requires
            self.wf(),
            other.wf(),
        ensures
            r == overlaps(self@, other@),
    {
        self.left() < other.right() && self.right() > other.left()
            && self.bottom() < other.top() && self.top() > other.bottom()
    }

    /// The axis of least penetration against `other`, or `None` outside
    /// overlap and on exact depth ties.
    pub fn colides_with_axis(&self, other: &Hitbox) -> (r: Option<CollisionAxis>)
        requires
            self.wf(),
            other.wf(),
        ensures
            r == colliding_axis(self@, other@),
    {
        if !self.colides_with(other) {
            return None;
        }
        let y_up = self.top() - other.bottom();
        let y_down = other.top() - self.bottom();
        let x_right = self.right() - other.left();
        let x_left = other.right() - self.left();

        let (y_axis, y_value) = if y_up >= y_down {
            (CollisionAxis::Down, y_down)
        } else {
            (CollisionAxis::Up, y_up)
        };
        let (x_axis, x_value) = if x_left >= x_right {
            (CollisionAxis::Right, x_right)
        } else {
            (CollisionAxis::Left, x_left)
        };

        if y_value > x_value {
            Some(x_axis)
        } else if y_value < x_value {
            Some(y_axis)
        } else {
            None
        }
    }
}

/// Two boxes separated (or merely touching) along some axis never overlap:
/// edge contact does not count as collision.
pub proof fn lemma_separated_never_overlaps(a: BoxEdges, b: BoxEdges)
    requires
        a.right <= b.left || b.right <= a.left || a.top <= b.bottom || b.top <= a.bottom,
    ensures
        !overlaps(a, b),
        colliding_axis(a, b) is None,
{
}

/// An overlapping pair whose smallest penetration depth is on one axis
/// alone resolves along exactly that axis.  Vertical ties favour `Down`
/// and horizontal ties favour `Right`, so those two axes win their own
/// tie; `Up` and `Left` must be strictly smallest on their side.
pub proof fn lemma_least_penetration_axis(a: BoxEdges, b: BoxEdges)
    requires
        overlaps(a, b),
    ensures
        ({
            let y_up = a.top - b.bottom;
            let y_down = b.top - a.bottom;
            let x_right = a.right - b.left;
            let x_left = b.right - a.left;
            &&& (y_down <= y_up && y_down < x_right && y_down < x_left) ==> colliding_axis(
                a,
                b,
            ) == Some(CollisionAxis::Down)
            &&& (y_up < y_down && y_up < x_right && y_up < x_left) ==> colliding_axis(a, b)
                == Some(CollisionAxis::Up)
            &&& (x_right <= x_left && x_right < y_up && x_right < y_down) ==> colliding_axis(
                a,
                b,
            ) == Some(CollisionAxis::Right)
            &&& (x_left < x_right && x_left < y_up && x_left < y_down) ==> colliding_axis(a, b)
                == Some(CollisionAxis::Left)
        }),
{
}

/// When the chosen vertical depth and the chosen horizontal depth tie
/// exactly, no axis is resolved that tick: an accepted edge-case policy.
pub proof fn lemma_equal_depths_resolve_nothing(a: BoxEdges, b: BoxEdges)
    requires
        overlaps(a, b),
        ({
            let y_up = a.top - b.bottom;
            let y_down = b.top - a.bottom;
            let x_right = a.right - b.left;
            let x_left = b.right - a.left;
            (if y_up >= y_down {
                y_down
            } else {
                y_up
            }) == (if x_left >= x_right {
                x_right
            } else {
                x_left
            })
        }),
    ensures
        colliding_axis(a, b) is None,
{
}

/// Marker: the player-controlled entity.
#[derive(Debug, Clone, Copy, PartialEq, Eq)]
pub struct Player;

/// Marker: the transient projectile entity.
#[derive(Debug, Clone, Copy, PartialEq, Eq)]
pub struct Bullet;

/// Marker: the entity is subject to downward acceleration.
#[derive(Debug, Clone, Copy, PartialEq, Eq)]
pub struct Gravitable;

/// Marker: overlap with the player triggers a respawn.
#[derive(Debug, Clone, Copy, PartialEq, Eq)]
pub struct KillZone;

/// Marker: the camera's deadzone entity.
#[derive(Debug, Clone, Copy, PartialEq, Eq)]
pub struct CameraHitbox;

/// A side of a solid, for the per-side solidity capability set.
#[derive(Debug, Clone, Copy, PartialEq, Eq, Structural)]
pub enum SolidSides {
    Up,
    Down,
    Left,
    Right,
}

/// A direction, for infinite half-plane regions.
#[derive(Debug, Clone, Copy, PartialEq, Eq, Structural)]
pub enum Direction {
    Up,
    Down,
    Left,
    Right,
}

/// Marker with a per-side capability set: the entity takes part in
/// moving-versus-static collision on the sides that are on.  Every observed
/// configuration turns all sides on.
#[derive(Debug, Clone, Copy, PartialEq, Eq)]
pub struct Solid {
    pub up: bool,
    pub down: bool,
    pub left: bool,
    pub right: bool,
}

impl Solid {
    /// A solid with every side on.
    pub fn all() -> (r: Solid)
        ensures
            r.up && r.down && r.left && r.right,
    {
        Solid { up: true, down: true, left: true, right: true }
    }

    /// True when any side is on.
    pub fn on_any(&self) -> (r: bool)
        ensures
            r == (self.up || self.down || self.left || self.right),
    {
        self.up || self.down || self.left || self.right
    }

    /// Whether one side takes part in collision.
    pub fn on_side(&self, side: SolidSides) -> (r: bool)
        ensures
            r == (match side {
                SolidSides::Up => self.up,
                SolidSides::Down => self.down,
                SolidSides::Left => self.left,
                SolidSides::Right => self.right,
            }),
    {
        match side {
            SolidSides::Up => self.up,
            SolidSides::Down => self.down,
            SolidSides::Left => self.left,
            SolidSides::Right => self.right,
        }
    }
}

/// Scale of restitution coefficients: a bounciness of `BOUNCE_SCALE`
/// thousandths retains the whole speed.
pub const BOUNCE_SCALE: u32 = 1000;

/// Opt-in bounce semantics: on impact the velocity component on the
/// resolved axis is negated and scaled by `bounciness` thousandths instead
/// of being zeroed.
#[derive(Debug, Clone, Copy, PartialEq, Eq)]
pub struct Bounce {
    pub enabled: bool,
    pub bounciness: u32,
}

impl Bounce {
    /// True when the restitution coefficient lies in `[0, 1]`.
    pub open spec fn wf(self) -> bool {
        self.bounciness <= BOUNCE_SCALE
    }

    /// Builds a bounce component from a restitution coefficient given in
    /// thousandths.
    pub fn new(enabled: bool, bounciness: u32) -> (r: Bounce)
        requires
            bounciness <= BOUNCE_SCALE,
        ensures
            r.enabled == enabled,
            r.bounciness == bounciness,
            r.wf(),
    {
        Bounce { enabled, bounciness }
    }
}

/// A draw colour, red-green-blue-alpha.
#[derive(Debug, Clone, Copy, PartialEq, Eq, Structural)]
pub struct Color {
    pub r: u8,
    pub g: u8,
    pub b: u8,
    pub a: u8,
}

impl Color {
    /// An opaque colour from its three channels.
    pub fn rgb(r: u8, g: u8, b: u8) -> (c: Color)
        ensures
            c == (Color { r, g, b, a: 255 }),
    {
        Color { r, g, b, a: 255 }
    }

    /// A colour from all four channels.
    pub fn rgba(r: u8, g: u8, b: u8, a: u8) -> (c: Color)
        ensures
            c == (Color { r, g, b, a }),
    {
        Color { r, g, b, a }
    }
}

/// Whether a colour fills its rectangle or outlines it.
#[derive(Debug, Clone, Copy, PartialEq, Eq, Structural)]
pub enum ColorDrawType {
    Fill,
    Outline,
}

/// The drawable face of an entity: a colour and how to apply it.
#[derive(Debug, Clone, Copy, PartialEq, Eq)]
pub struct Colorable {
    pub color: Color,
    pub draw_type: ColorDrawType,
}

/// Builds the drawable face of an entity from a colour.
pub trait Componentable {
    /// A filled face of this colour.
    fn into_fill(self) -> Colorable;

    /// An outlined face of this colour.
    fn into_outline(self) -> Colorable;
}

impl Componentable for Color {
    fn into_fill(self) -> (r: Colorable)
        ensures
            r == (Colorable { color: self, draw_type: ColorDrawType::Fill }),
    {
        Colorable { color: self, draw_type: ColorDrawType::Fill }
    }

    fn into_outline(self) -> (r: Colorable)
        ensures
            r == (Colorable { color: self, draw_type: ColorDrawType::Outline }),
    {
        Colorable { color: self, draw_type: ColorDrawType::Outline }
    }
}

/// What touching a coin does: recolour the player, or set its vertical
/// velocity to the carried impulse, in world units per second.
#[derive(Debug, Clone, Copy, PartialEq, Eq)]
pub enum CoinKind {
    Color(Color),
    Jump(u32),
}

/// An infinite half-plane region: all ground beyond `start` subunits in the
/// carried direction.
#[derive(Debug, Clone, Copy, PartialEq, Eq)]
pub struct InfiniteArea {
    pub start: i64,
    pub direction: Direction,
}

/// True when a box reaches into the half-plane.
pub open spec fn area_collides(area: InfiniteArea, b: BoxEdges) -> bool {
    match area.direction {
        Direction::Up => b.top > area.start,
        Direction::Down => b.bottom < area.start,
        Direction::Left => b.left < area.start,
        Direction::Right => b.right > area.start,
    }
}

impl InfiniteArea {
    /// True when the coordinate bound is inside the world range.
    pub open spec fn wf(self) -> bool {
        coord_in_range(self.start as int)
    }

    /// True when the hitbox reaches into the half-plane.
    pub fn collides_with(&self, hitbox: &Hitbox) -> (r: bool)
        requires
            hitbox.wf(),
        ensures
            r == area_collides(*self, hitbox@),
    {
        match self.direction {
            Direction::Up => hitbox.top() > self.start,
            Direction::Down => hitbox.bottom() < self.start,
            Direction::Left => hitbox.left() < self.start,
            Direction::Right => hitbox.right() > self.start,
        }
    }
}

} // verus!
