//! Geometry, axis resolution, integration and collision behaviour.

use platformer::components::{
    Bounce, CoinKind, CollisionAxis, Color, Colorable, ColorDrawType, Componentable, Gravitable,
    Player, Position, Rectangle, Solid, SolidSides, Velocity, SUBUNITS,
};
use platformer::ecs::Ecs;
use platformer::physics::{
    gravitate, handle_bounce_moving_static, handle_collision_moving_static, limit_velocity,
    move_system,
};
use platformer::player::Jump;

fn hb(x: i64, y: i64, w: u32, h: u32) -> platformer::components::Hitbox {
    let pos = Position::new(x, y);
    Rectangle::new(w, h).on_position(&pos)
}

#[test]
fn hitbox_borrowed() {
    let pos = Position::new(69, 420);
    let rect = Rectangle::new(42, 55);
    let hitbox = rect.on_position(&pos);
    assert_eq!(hitbox.rect, rect);
    assert_eq!(hitbox.pos, pos);
}

#[test]
fn hitbox_borrowed_mut() {
    let pos = Position::new(69, 420);
    let rect = Rectangle::new(42, 55);
    let mut hitbox = rect.on_position(&pos);
    assert_eq!(hitbox.rect, rect);
    hitbox.pos.x += 10 * SUBUNITS;
    assert_eq!(hitbox.pos, Position::new(79, 420));
}

#[test]
fn hitbox_edges_and_center() {
    let b = hb(10, 20, 30, 40);
    assert_eq!(b.left(), 10_000);
    assert_eq!(b.right(), 40_000);
    assert_eq!(b.bottom(), 20_000);
    assert_eq!(b.top(), 60_000);
    let c = b.center();
    assert_eq!(c, Position { x: 25_000, y: 40_000 });
}

#[test]
fn separated_boxes_do_not_overlap() {
    let a = hb(0, 0, 10, 10);
    // Touching edges exactly: no collision.
    let b = hb(10, 0, 10, 10);
    assert!(!a.colides_with(&b));
    assert!(a.colides_with_axis(&b).is_none());
    // Far apart.
    let c = hb(100, 100, 5, 5);
    assert!(!a.colides_with(&c));
    // Overlapping by one unit.
    let d = hb(9, 0, 10, 10);
    assert!(a.colides_with(&d));
}

#[test]
fn least_penetration_picks_the_axis() {
    // A 50x50 body sunk 5 units into a wide floor from above: Down wins.
    let body = hb(150, 105, 50, 50);
    let floor = hb(100, 100, 400, 10);
    assert_eq!(body.colides_with_axis(&floor), Some(CollisionAxis::Down));
    // The same body under a wide ceiling: Up wins.
    let ceiling = hb(100, 150, 400, 10);
    assert_eq!(body.colides_with_axis(&ceiling), Some(CollisionAxis::Up));
    // Sticking one unit into a tall wall on its right: Right wins.
    let wall = hb(199, 0, 10, 400);
    assert_eq!(body.colides_with_axis(&wall), Some(CollisionAxis::Right));
    // A tall wall on its left: Left wins.
    let left_wall = hb(141, 0, 10, 400);
    assert_eq!(body.colides_with_axis(&left_wall), Some(CollisionAxis::Left));
}

#[test]
fn equal_depths_resolve_nothing() {
    // Two 10x10 boxes offset (5,5): chosen depths are 5 on both axes.
    let a = hb(0, 0, 10, 10);
    let b = hb(5, 5, 10, 10);
    assert!(a.colides_with(&b));
    assert!(a.colides_with_axis(&b).is_none());
}

fn world_with_floor_and_player() -> Ecs {
    let mut ecs = Ecs::new();
    ecs.create_entity();
    ecs.with_position(Position::new(100, 100));
    ecs.with_rect(Rectangle::new(400, 10));
    ecs.with_solids(Solid::all());
    ecs.create_entity();
    ecs.with_player(Player);
    ecs.with_position(Position::new(150, 110));
    ecs.with_rect(Rectangle::new(50, 50));
    ecs.with_velocity(Velocity::new(0, 0));
    ecs.with_solids(Solid::all());
    ecs.with_jump(Jump::default());
    ecs.with_gravitable(Gravitable);
    ecs.with_color(Color::rgb(0, 0, 255).into_fill());
    ecs
}

#[test]
fn gravity_tick_then_snap_back_to_floor() {
    // Scenario: the player rests on the floor, edges touching.  One tick
    // of gravity and integration sinks it; collision resolution snaps it
    // back to the floor top, zeroes the fall and grounds it.
    let mut ecs = world_with_floor_and_player();
    gravitate(&mut ecs, 50);
    assert_eq!(ecs.velocities[1].unwrap(), Velocity::new(0, -250));
    move_system(&mut ecs, 50);
    // 250 units/s over 50 ms is 12.5 units: 12500 subunits.
    assert_eq!(ecs.positions[1].unwrap(), Position { x: 150_000, y: 110_000 - 12_500 });
    handle_collision_moving_static(&mut ecs);
    assert_eq!(ecs.positions[1].unwrap(), Position::new(150, 110));
    assert_eq!(ecs.velocities[1].unwrap(), Velocity::new(0, 0));
    assert!(ecs.jumps[1].unwrap().grounded);
}

#[test]
fn resolution_is_idempotent() {
    let mut ecs = world_with_floor_and_player();
    gravitate(&mut ecs, 50);
    move_system(&mut ecs, 50);
    handle_collision_moving_static(&mut ecs);
    let pos = ecs.positions[1];
    let vel = ecs.velocities[1];
    let jump = ecs.jumps[1];
    handle_collision_moving_static(&mut ecs);
    assert_eq!(ecs.positions[1], pos);
    assert_eq!(ecs.velocities[1], vel);
    assert_eq!(ecs.jumps[1], jump);
}

#[test]
fn move_system_is_exact_and_independent() {
    let mut ecs = Ecs::new();
    ecs.create_entity();
    ecs.with_position(Position::new(3, 4));
    ecs.with_velocity(Velocity::new(7, -2));
    ecs.create_entity();
    ecs.with_position(Position::new(1000, -1000));
    ecs.with_velocity(Velocity::new(-30, 11));
    move_system(&mut ecs, 50);
    // Exactly velocity (subunits per millisecond) times delta.
    assert_eq!(ecs.positions[0].unwrap(), Position { x: 3_000 + 350, y: 4_000 - 100 });
    assert_eq!(
        ecs.positions[1].unwrap(),
        Position { x: 1_000_000 - 1_500, y: -1_000_000 + 550 }
    );
}

#[test]
fn limit_velocity_clamps_both_components() {
    let mut ecs = Ecs::new();
    ecs.create_entity();
    ecs.with_position(Position::new(0, 0));
    ecs.with_velocity(Velocity::new(5_000, -9_000));
    ecs.create_entity();
    ecs.with_position(Position::new(0, 0));
    ecs.with_velocity(Velocity::new(-12, 13));
    limit_velocity(&mut ecs);
    assert_eq!(ecs.velocities[0].unwrap(), Velocity::new(900, -1500));
    assert_eq!(ecs.velocities[1].unwrap(), Velocity::new(-12, 13));
}

#[test]
fn gravity_stops_at_terminal_speed() {
    let mut ecs = Ecs::new();
    ecs.create_entity();
    ecs.with_position(Position::new(0, 0));
    ecs.with_velocity(Velocity::new(0, -1500));
    ecs.with_gravitable(Gravitable);
    gravitate(&mut ecs, 50);
    assert_eq!(ecs.velocities[0].unwrap(), Velocity::new(0, -1500));
}

#[test]
fn bounce_reflects_and_scales_velocity() {
    // Scenario: a bouncy block moving right at 10 sticks two units into a
    // tall wall; it comes back at half speed, snapped to the contact edge.
    let mut ecs = Ecs::new();
    ecs.create_entity();
    ecs.with_position(Position::new(20, 0));
    ecs.with_rect(Rectangle::new(10, 100));
    ecs.with_solids(Solid::all());
    ecs.create_entity();
    ecs.with_position(Position::new(12, 0));
    ecs.with_rect(Rectangle::new(10, 10));
    ecs.with_velocity(Velocity::new(10, 0));
    ecs.with_solids(Solid::all());
    ecs.with_bounce(Bounce::new(true, 500));
    handle_bounce_moving_static(&mut ecs);
    assert_eq!(ecs.velocities[1].unwrap(), Velocity::new(-5, 0));
    assert_eq!(ecs.positions[1].unwrap(), Position::new(10, 0));
}

#[test]
fn disabled_bounce_changes_nothing() {
    let mut ecs = Ecs::new();
    ecs.create_entity();
    ecs.with_position(Position::new(20, 0));
    ecs.with_rect(Rectangle::new(10, 100));
    ecs.with_solids(Solid::all());
    ecs.create_entity();
    ecs.with_position(Position::new(12, 0));
    ecs.with_rect(Rectangle::new(10, 10));
    ecs.with_velocity(Velocity::new(10, 0));
    ecs.with_solids(Solid::all());
    ecs.with_bounce(Bounce::new(false, 500));
    handle_bounce_moving_static(&mut ecs);
    assert_eq!(ecs.velocities[1].unwrap(), Velocity::new(10, 0));
    assert_eq!(ecs.positions[1].unwrap(), Position::new(12, 0));
}

#[test]
fn solid_sides_capability_set() {
    let solid = Solid::all();
    assert!(solid.on_side(SolidSides::Up));
    assert!(solid.on_side(SolidSides::Down));
    assert!(solid.on_side(SolidSides::Left));
    assert!(solid.on_side(SolidSides::Right));
}

#[test]
fn coin_builder_sets_face_from_kind() {
    let mut ecs = Ecs::new();
    ecs.create_entity();
    ecs.with_coin_kind(CoinKind::Jump(20));
    let face = ecs.colors[0].unwrap();
    assert_eq!(
        face,
        Colorable { color: Color::rgb(0, 255, 255), draw_type: ColorDrawType::Fill }
    );
    assert_eq!(ecs.coin_kinds[0].unwrap(), CoinKind::Jump(20));
}
