//! Game-rule systems, resources, input, maps and the full tick pipeline.

use platformer::camera::{move_camera, Camera, Margin};
use platformer::components::{
    CoinKind, Color, Colorable, Componentable, Direction, InfiniteArea, KillZone, Player,
    Position, Rectangle, Solid, Velocity,
};
use platformer::draw::render_queue;
use platformer::ecs::Ecs;
use platformer::game::Game;
use platformer::input::{
    handle_mouse, insert_mouse_square, update_input_state, Action, ActionState, InputEvent,
    InputState, MouseLift, MousePress,
};
use platformer::map::{init_map_system, Entity, KillZoneType, MapError};
use platformer::keyboard::{
    Action as KeyAction, InputController, InputEvent as KeyEvent, KeyState,
};
use platformer::player::{
    handle_player_input, player_collides_coin, player_enter_kill_zone, update_jump_time, Jump,
    JUMP_MILLIS,
};
use platformer::resources::{Spawn, Time};

fn player_with_coin(kind: CoinKind) -> Ecs {
    let mut ecs = Ecs::new();
    ecs.create_entity();
    ecs.with_player(Player);
    ecs.with_position(Position::new(120, 115));
    ecs.with_rect(Rectangle::new(10, 10));
    ecs.with_velocity(Velocity::new(0, 0));
    ecs.with_color(Color::rgb(0, 0, 255).into_fill());
    ecs.create_entity();
    ecs.with_position(Position::new(120, 115));
    ecs.with_rect(Rectangle::new(10, 10));
    ecs.with_coin_kind(kind);
    ecs
}

#[test]
fn color_coin_recolors_player() {
    // Scenario: the player exactly covers a recolour coin.
    let mut ecs = player_with_coin(CoinKind::Color(Color::rgb(255, 0, 255)));
    player_collides_coin(&mut ecs);
    assert_eq!(ecs.colors[0].unwrap().color, Color::rgb(255, 0, 255));
    assert_eq!(ecs.velocities[0].unwrap(), Velocity::new(0, 0));
}

#[test]
fn jump_coin_sets_vertical_velocity() {
    let mut ecs = player_with_coin(CoinKind::Jump(20));
    // Give the player a prior velocity; the impulse overwrites only y.
    ecs.velocities[0] = Some(Velocity::new(3, -7));
    player_collides_coin(&mut ecs);
    assert_eq!(ecs.velocities[0].unwrap(), Velocity::new(3, 20));
}

#[test]
fn infinite_kill_zone_resets_player() {
    // Scenario: the player crosses the downward half-plane at -50.
    let mut ecs = Ecs::new();
    ecs.create_entity();
    ecs.with_player(Player);
    ecs.with_position(Position::new(0, -60));
    ecs.with_rect(Rectangle::new(10, 10));
    ecs.with_velocity(Velocity::new(4, -9));
    ecs.create_entity();
    ecs.with_kill_zone(KillZone);
    ecs.with_infinite_area(InfiniteArea { start: -50_000, direction: Direction::Down });
    let spawn = Spawn(Position::new(5, 7));
    player_enter_kill_zone(&mut ecs, &spawn);
    assert_eq!(ecs.positions[0].unwrap(), Position::new(5, 7));
    assert_eq!(ecs.velocities[0].unwrap(), Velocity::new(0, 0));
}

#[test]
fn finite_kill_zone_resets_player() {
    let mut ecs = Ecs::new();
    ecs.create_entity();
    ecs.with_player(Player);
    ecs.with_position(Position::new(100, 100));
    ecs.with_rect(Rectangle::new(10, 10));
    ecs.with_velocity(Velocity::new(1, 1));
    ecs.create_entity();
    ecs.with_kill_zone(KillZone);
    ecs.with_position(Position::new(95, 95));
    ecs.with_rect(Rectangle::new(20, 20));
    let spawn = Spawn(Position::new(0, 0));
    player_enter_kill_zone(&mut ecs, &spawn);
    assert_eq!(ecs.positions[0].unwrap(), Position::new(0, 0));
    assert_eq!(ecs.velocities[0].unwrap(), Velocity::new(0, 0));
}

#[test]
fn jump_law_from_grounded() {
    // One do_jump from the grounded state: half the duration in seconds
    // times the acceleration constant, exactly 1250.
    let mut jump = Jump { time_to_jump: None, grounded: true };
    let mut vel = Velocity::new(0, 0);
    jump.do_jump(&mut vel);
    assert!(!jump.grounded);
    assert_eq!(jump.time_to_jump, Some(JUMP_MILLIS));
    assert_eq!(vel.y, 1250);
}

#[test]
fn jump_timer_saturates_at_zero() {
    let mut ecs = Ecs::new();
    ecs.create_entity();
    ecs.with_jump(Jump { time_to_jump: Some(30), grounded: false });
    update_jump_time(&mut ecs, 50);
    assert_eq!(ecs.jumps[0].unwrap().time_to_jump, Some(0));
    update_jump_time(&mut ecs, 50);
    assert_eq!(ecs.jumps[0].unwrap().time_to_jump, Some(0));
}

#[test]
fn jump_decay_while_ascending() {
    let mut jump = Jump { time_to_jump: Some(200), grounded: false };
    let mut vel = Velocity::new(0, 0);
    jump.do_jump(&mut vel);
    // 200 ms left: 0.1 s times the acceleration constant.
    assert_eq!(vel.y, 500);
    jump.clear_jump();
    assert_eq!(jump.time_to_jump, None);
    assert!(!jump.grounded);
}

#[test]
fn map_requires_exactly_one_player() {
    let mut ecs = Ecs::new();
    let mut spawn = Spawn::new();
    let no_player = vec![Entity::Static {
        position: Position::new(0, 0),
        rectangle: Rectangle::new(10, 10),
        color: Color::rgb(1, 2, 3),
    }];
    assert_eq!(
        init_map_system(&mut ecs, &mut spawn, &no_player),
        Err(MapError::NoPlayer)
    );
    let two_players = vec![
        Entity::Player { position: Position::new(0, 0) },
        Entity::Player { position: Position::new(1, 1) },
    ];
    assert_eq!(
        init_map_system(&mut ecs, &mut spawn, &two_players),
        Err(MapError::MultiplePlayers)
    );
    assert_eq!(ecs.len(), 0);
}

#[test]
fn map_spawns_entities_in_order() {
    let mut ecs = Ecs::new();
    let mut spawn = Spawn::new();
    let entities = vec![
        Entity::Static {
            position: Position::new(100, 100),
            rectangle: Rectangle::new(400, 10),
            color: Color::rgb(0, 255, 0),
        },
        Entity::Player { position: Position::new(150, 600) },
        Entity::Coin { position: Position::new(300, 115), color: Color::rgb(0, 255, 255), jump: Some(250) },
        Entity::KillZone(KillZoneType::Infinite { start: -50_000, direction: Direction::Down }),
    ];
    assert_eq!(init_map_system(&mut ecs, &mut spawn, &entities), Ok(()));
    assert_eq!(ecs.len(), 4);
    assert_eq!(spawn.0, Position::new(150, 600));
    assert!(ecs.solids[0].is_some());
    assert!(ecs.players[1].is_some());
    assert_eq!(ecs.rects[1].unwrap(), Rectangle::new(50, 50));
    // 5000 over the divisor 250 gives an impulse of 20.
    assert_eq!(
        ecs.coin_kinds[2].unwrap(),
        platformer::components::CoinKind::Jump(20)
    );
    assert!(ecs.kill_zones[3].is_some());
    assert_eq!(
        ecs.infinite_areas[3].unwrap(),
        InfiniteArea { start: -50_000, direction: Direction::Down }
    );
}

#[test]
fn time_caps_the_delta() {
    let mut time = Time::new();
    time.update(20);
    assert_eq!(time.delta(), 20);
    assert_eq!(time.elapsed(), 20);
    time.update(400);
    assert_eq!(time.delta(), 50);
    assert_eq!(time.elapsed(), 70);
    assert_eq!(time.last_update, 400);
}

#[test]
fn input_state_follows_events() {
    let mut state = InputState::default();
    let events = vec![
        InputEvent { action: Action::Left, state: ActionState::Active },
        InputEvent { action: Action::Up, state: ActionState::Active },
        InputEvent { action: Action::Left, state: ActionState::Inactive },
    ];
    update_input_state(&mut state, &events);
    assert!(!state.state.left.active());
    assert!(state.state.up.active());
    assert!(!state.state.down.active());
}

#[test]
fn mouse_drag_pairs_press_with_first_lift() {
    let presses = vec![MousePress::new(1, 2), MousePress::new(3, 4)];
    let lifts = vec![MouseLift::new(9, 9), MouseLift::new(8, 8)];
    let (held, commands) = handle_mouse(None, &presses, &lifts);
    assert!(held.is_none());
    assert_eq!(commands.len(), 1);
    assert_eq!(commands[0].press, MousePress::new(3, 4));
    assert_eq!(commands[0].lift, MouseLift::new(9, 9));
    // No lift: the newest press is remembered for the next tick.
    let no_lifts: Vec<MouseLift> = Vec::new();
    let (held, commands) = handle_mouse(None, &presses, &no_lifts);
    assert_eq!(held, Some(MousePress::new(3, 4)));
    assert!(commands.is_empty());
}

#[test]
fn mouse_square_spans_the_drag() {
    let mut ecs = Ecs::new();
    let command = platformer::input::MouseCommand {
        press: MousePress::new(10, 30),
        lift: MouseLift::new(4, 50),
    };
    insert_mouse_square(&mut ecs, command);
    assert_eq!(ecs.len(), 1);
    assert_eq!(ecs.positions[0].unwrap(), Position::new(4, 30));
    assert_eq!(ecs.rects[0].unwrap(), Rectangle::new(6, 20));
    assert!(ecs.solids[0].is_some());
}

#[test]
fn margin_bundle_carves_the_window() {
    let margin = Margin { top: 10, right: 400, bottom: 0, left: 10 };
    let (pos, rect, back) = margin.into_bundle((800, 600));
    assert_eq!(pos, Position::new(10, 0));
    assert_eq!(rect, Rectangle::new(390, 590));
    assert_eq!(back, margin);
}

#[test]
fn camera_chases_player_and_viewport_follows() {
    let mut ecs = Ecs::new();
    // Deadzone at (10,0), 390 by 590.
    ecs.create_entity();
    ecs.with_camera_hitbox(platformer::components::CameraHitbox);
    ecs.with_position(Position::new(10, 0));
    ecs.with_rect(Rectangle::new(390, 590));
    ecs.with_margin(Margin { top: 10, right: 400, bottom: 0, left: 10 });
    // Player far to the right of the deadzone.
    ecs.create_entity();
    ecs.with_player(Player);
    ecs.with_position(Position::new(500, 100));
    ecs.with_rect(Rectangle::new(50, 50));
    let mut camera = Camera {
        pos: Position::new(0, 0),
        rect: Rectangle::new(800, 600),
    };
    move_camera(&mut camera, &mut ecs);
    // The deadzone's right edge lands on the player's right edge.
    let dz = ecs.positions[0].unwrap();
    assert_eq!(dz.x + 390 * 1000, 550 * 1000);
    // The viewport moved right so the margin box fits inside it.
    assert!(camera.pos.x > 0);
}

#[test]
fn camera_with_player_inside_deadzone_stays_put() {
    let mut ecs = Ecs::new();
    ecs.create_entity();
    ecs.with_camera_hitbox(platformer::components::CameraHitbox);
    ecs.with_position(Position::new(10, 0));
    ecs.with_rect(Rectangle::new(390, 590));
    ecs.with_margin(Margin { top: 10, right: 400, bottom: 0, left: 10 });
    ecs.create_entity();
    ecs.with_player(Player);
    ecs.with_position(Position::new(100, 100));
    ecs.with_rect(Rectangle::new(50, 50));
    let mut camera = Camera {
        pos: Position::new(0, 0),
        rect: Rectangle::new(800, 600),
    };
    move_camera(&mut camera, &mut ecs);
    assert_eq!(ecs.positions[0].unwrap(), Position::new(10, 0));
    assert_eq!(camera.pos, Position::new(0, 0));
}

#[test]
fn game_tick_applies_gravity_to_the_player() {
    let mut game = Game::new();
    let events: Vec<InputEvent> = Vec::new();
    game.update(50, &events, None);
    let p = game.player_entity.0;
    // One 50 ms tick of gravity from rest.
    assert_eq!(game.ecs.velocities[p].unwrap(), Velocity::new(0, -250));
    assert_eq!(
        game.ecs.positions[p].unwrap(),
        Position { x: 150_000, y: 600_000 - 12_500 }
    );
    assert_eq!(game.time.delta(), 50);
}

#[test]
fn game_attack_spawns_then_detonates() {
    let mut game = Game::new();
    let attack = vec![InputEvent { action: Action::Atack, state: ActionState::Active }];
    let before = game.ecs.len();
    game.update(10, &attack, None);
    assert_eq!(game.ecs.len(), before + 1);
    assert!(game.bullet_slot.is_some());
    let b = game.bullet_slot.unwrap();
    assert!(game.ecs.bullets[b].is_some());
    // A second attack detonates the live projectile.
    game.update(20, &attack, Some(Velocity::new(111, 222)));
    assert!(game.bullet_slot.is_none());
    assert!(game.ecs.bullets[b].is_none());
    let p = game.player_entity.0;
    // The blast impulse lands on the player before physics runs; gravity
    // then pulls the vertical part down over the 10 ms delta.
    assert_eq!(game.ecs.velocities[p].unwrap().x, 111);
    assert_eq!(game.ecs.velocities[p].unwrap().y, 222 - 50);
}

#[test]
fn handle_keypress_updates_held_actions() {
    let mut game = Game::new();
    game.handle_keypress(InputEvent { action: Action::Right, state: ActionState::Active });
    assert!(game.inputs.state().right.active());
    game.handle_keypress(InputEvent { action: Action::Right, state: ActionState::Inactive });
    assert!(!game.inputs.state().right.active());
}

#[test]
fn game_from_map_validates_and_builds() {
    let entities = vec![
        Entity::Player { position: Position::new(150, 600) },
        Entity::Static {
            position: Position::new(100, 100),
            rectangle: Rectangle::new(400, 10),
            color: Color::rgb(0, 255, 0),
        },
    ];
    let game = Game::from_map(&entities, (800, 600)).unwrap();
    assert_eq!(game.spawn.0, Position::new(150, 600));
    assert_eq!(game.ecs.len(), 3);
    assert!(game.ecs.players[0].is_some());
    assert!(game.ecs.camera_hitboxes[2].is_some());
    let bad: Vec<Entity> = Vec::new();
    match Game::from_map(&bad, (800, 600)) {
        Err(e) => assert_eq!(e, MapError::NoPlayer),
        Ok(_) => panic!("an empty map must be rejected"),
    }
}

#[test]
fn keyboard_controller_tracks_state() {
    let mut controller = InputController::new();
    let press = KeyEvent { action: KeyAction::Left, key_state: KeyState::Down };
    controller.handle_input_event(press);
    assert_eq!(controller.state.left, KeyState::Down);
    assert_eq!(controller.state.right, KeyState::Up);
    assert!(controller.last_event.is(KeyAction::Left, KeyState::Down));
    assert!(!controller.last_event.is(KeyAction::Left, KeyState::Up));
}

#[test]
fn player_input_accelerates_and_decays() {
    let mut ecs = Ecs::new();
    ecs.create_entity();
    ecs.with_player(Player);
    ecs.with_velocity(Velocity::new(0, 0));
    ecs.with_jump(Jump::default());
    let mut inputs = InputState::default();
    inputs.state.set(Action::Right, ActionState::Active);
    handle_player_input(&mut ecs, &inputs);
    assert_eq!(ecs.velocities[0].unwrap().x, 60);
    // Releasing everything decays the speed back toward zero.
    inputs.state.set(Action::Right, ActionState::Inactive);
    handle_player_input(&mut ecs, &inputs);
    assert_eq!(ecs.velocities[0].unwrap().x, 0);
}

#[test]
fn player_input_decay_stops_at_zero() {
    // A speed smaller than one decay step drops to rest instead of
    // flipping its sign.
    let mut ecs = Ecs::new();
    ecs.create_entity();
    ecs.with_player(Player);
    ecs.with_velocity(Velocity::new(30, 0));
    ecs.with_jump(Jump::default());
    let inputs = InputState::default();
    handle_player_input(&mut ecs, &inputs);
    assert_eq!(ecs.velocities[0].unwrap().x, 0);
    ecs.velocities[0] = Some(Velocity::new(-59, 0));
    handle_player_input(&mut ecs, &inputs);
    assert_eq!(ecs.velocities[0].unwrap().x, 0);
    ecs.velocities[0] = Some(Velocity::new(-90, 0));
    handle_player_input(&mut ecs, &inputs);
    assert_eq!(ecs.velocities[0].unwrap().x, -30);
}

#[test]
fn render_queue_lists_drawables_in_order() {
    let game = Game::new();
    let queue = render_queue(&game.ecs);
    // All six built-in entities carry position, shape and colour.
    assert_eq!(queue.len(), 6);
    assert_eq!(queue[0].0, Position::new(150, 600));
    assert_eq!(queue[1].1, Rectangle::new(400, 10));
    assert_eq!(queue[5].2.draw_type, platformer::components::ColorDrawType::Outline);
}

#[test]
fn colorable_faces() {
    let fill = Color::rgb(7, 8, 9).into_fill();
    assert_eq!(
        fill,
        Colorable {
            color: Color::rgba(7, 8, 9, 255),
            draw_type: platformer::components::ColorDrawType::Fill
        }
    );
    let outline = Color::rgb(7, 8, 9).into_outline();
    assert_eq!(outline.draw_type, platformer::components::ColorDrawType::Outline);
    let solid = Solid::all();
    assert!(solid.on_any());
}
