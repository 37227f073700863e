//! The per-action input state the physics systems read, refreshed once per
//! tick from decoded input events, and the mouse-drag spawning helpers.

use vstd::prelude::*;

use crate::components::{
    clamp_coord, clamp_coord_spec, Color, Colorable, ColorDrawType, Componentable, Position,
    Rectangle, Solid, SUBUNITS,
};
use crate::ecs::{Ecs, WorldView};

verus! {

/// Whether an action is currently held.
#[derive(Debug, Clone, Copy, PartialEq, Eq, Structural, Default)]
pub enum ActionState {
    #[default]
    Inactive,
    Active,
}

impl ActionState {
    /// True when the action is held.
    pub fn active(&self) -> (r: bool)
        ensures
            r == (self is Active),
    {
        match self {
            ActionState::Inactive => false,
            ActionState::Active => true,
        }
    }
}

/// The actions the game reacts to.
#[derive(Debug, Clone, Copy, PartialEq, Eq, Structural)]
pub enum Action {
    Up,
    Down,
    Left,
    Right,
    Atack,
}

/// A decoded input event: an action toggled to a state.
#[derive(Debug, Clone, Copy, PartialEq, Eq, Structural)]
pub struct InputEvent {
    pub action: Action,
    pub state: ActionState,
}

/// One held/released flag per action.
#[derive(Debug, Clone, Copy, PartialEq, Eq, Structural)]
pub struct ActionMap {
    pub up: ActionState,
    pub down: ActionState,
    pub left: ActionState,
    pub right: ActionState,
    pub attack: ActionState,
}

/// The map with one action replaced.
pub open spec fn map_set(m: ActionMap, action: Action, state: ActionState) -> ActionMap {
    match action {
        Action::Up => ActionMap { up: state, ..m },
        Action::Down => ActionMap { down: state, ..m },
        Action::Left => ActionMap { left: state, ..m },
        Action::Right => ActionMap { right: state, ..m },
        Action::Atack => ActionMap { attack: state, ..m },
    }
}

impl ActionMap {
    /// The flag held for one action.
    pub open spec fn spec_get(self, action: Action) -> ActionState {
        match action {
            Action::Up => self.up,
            Action::Down => self.down,
            Action::Left => self.left,
            Action::Right => self.right,
            Action::Atack => self.attack,
        }
    }

    /// Reads the flag of one action.
    pub fn get(&self, action: Action) -> (r: ActionState)
        ensures
            r == self.spec_get(action),
    {
        match action {
            Action::Up => self.up,
            Action::Down => self.down,
            Action::Left => self.left,
            Action::Right => self.right,
            Action::Atack => self.attack,
        }
    }

    /// Writes the flag of one action.
    pub fn set(&mut self, action: Action, state: ActionState)
        ensures
            *final(self) == map_set(*old(self), action, state),
    {
        match action {
            Action::Up => self.up = state,
            Action::Down => self.down = state,
            Action::Left => self.left = state,
            Action::Right => self.right = state,
            Action::Atack => self.attack = state,
        }
    }
}

impl Default for ActionMap {
    /// Nothing held.
    fn default() -> (r: ActionMap)
        ensures
            r == (ActionMap {
                up: ActionState::Inactive,
                down: ActionState::Inactive,
                left: ActionState::Inactive,
                right: ActionState::Inactive,
                attack: ActionState::Inactive,
            }),
    {
        ActionMap {
            up: ActionState::Inactive,
            down: ActionState::Inactive,
            left: ActionState::Inactive,
            right: ActionState::Inactive,
            attack: ActionState::Inactive,
        }
    }
}

/// The per-action active state, refreshed once per tick before physics
/// runs; physics systems only read this map.
#[derive(Debug, Clone, Copy, PartialEq, Eq, Structural)]
pub struct InputState {
    pub state: ActionMap,
}

impl InputState {
    /// Read access to the action map.
    pub fn state(&self) -> (r: &ActionMap)
        ensures
            r == &self.state,
    {
        &self.state
    }
}

impl Default for InputState {
    /// Nothing held.
    fn default() -> (r: InputState)
        ensures
            r.state == (ActionMap {
                up: ActionState::Inactive,
                down: ActionState::Inactive,
                left: ActionState::Inactive,
                right: ActionState::Inactive,
                attack: ActionState::Inactive,
            }),
    {
        InputState { state: ActionMap::default() }
    }
}

/// The action map after folding in the first `n` events, in order.
pub open spec fn apply_events(m: ActionMap, events: Seq<InputEvent>, n: int) -> ActionMap
    decreases n,
{
    if n <= 0 {
        m
    } else {
        let prev = apply_events(m, events, n - 1);
        map_set(prev, events[n - 1].action, events[n - 1].state)
    }
}

/// Folds this tick's decoded events into the held-action map, in order.
pub fn update_input_state(input_state: &mut InputState, events: &Vec<InputEvent>)
    ensures
        final(input_state).state == apply_events(
            old(input_state).state,
            events@,
            events@.len() as int,
        ),
{
    let n = events.len();
    let mut i: usize = 0;
    while i < n
        invariant
            i <= n,
            n == events@.len(),
            input_state.state == apply_events(old(input_state).state, events@, i as int),
        decreases n - i,
    {
        let ev = events[i];
        input_state.state.set(ev.action, ev.state);
        i = i + 1;
    }
}

/// A mouse button pressed at a point, in whole world units.
#[derive(Debug, Clone, Copy, PartialEq, Eq, Structural)]
pub struct MousePress {
    pub x: i32,
    pub y: i32,
}

impl MousePress {
    /// Builds the event from its point.
    pub fn new(x: i32, y: i32) -> (r: MousePress)
        ensures
            r.x == x,
            r.y == y,
    {
        MousePress { x, y }
    }
}

/// A mouse button released at a point, in whole world units.
#[derive(Debug, Clone, Copy, PartialEq, Eq, Structural)]
pub struct MouseLift {
    pub x: i32,
    pub y: i32,
}

impl MouseLift {
    /// Builds the event from its point.
    pub fn new(x: i32, y: i32) -> (r: MouseLift)
        ensures
            r.x == x,
            r.y == y,
    {
        MouseLift { x, y }
    }
}

/// A completed drag: where the button went down and where it came up.
#[derive(Debug, Clone, Copy, PartialEq, Eq, Structural)]
pub struct MouseCommand {
    pub press: MousePress,
    pub lift: MouseLift,
}

/// Pairs this tick's presses and lifts into drag commands: the newest
/// unconsumed press is taken by the first lift; later lifts in the same
/// tick find no press and pair with nothing.
pub fn handle_mouse(
    last_press: Option<MousePress>,
    presses: &Vec<MousePress>,
    lifts: &Vec<MouseLift>,
) -> (r: (Option<MousePress>, Vec<MouseCommand>))
    ensures
        ({
            let held = if presses@.len() > 0 {
                Some(presses@[presses@.len() - 1])
            } else {
                last_press
            };
            if lifts@.len() > 0 {
                match held {
                    Some(p) => r.0 is None && r.1@ =~= seq![
                        MouseCommand { press: p, lift: lifts@[0] },
                    ],
                    None => r.0 is None && r.1@ =~= Seq::<MouseCommand>::empty(),
                }
            } else {
                r.0 == held && r.1@ =~= Seq::<MouseCommand>::empty()
            }
        }),
{
    let mut held: Option<MousePress> = last_press;
    let n = presses.len();
    let mut i: usize = 0;
    while i < n
        invariant
            i <= n,
            n == presses@.len(),
            held == if i > 0 {
                Some(presses@[i - 1])
            } else {
                last_press
            },
        decreases n - i,
    {
        held = Some(presses[i]);
        i = i + 1;
    }
    let mut commands: Vec<MouseCommand> = Vec::new();
    if lifts.len() > 0 {
        if let Some(p) = held {
            commands.push(MouseCommand { press: p, lift: lifts[0] });
        }
        held = None;
    }
    (held, commands)
}

/// The entity a drag spawns: the spanned box as a solid, cyan-filled
/// static block.
pub open spec fn mouse_square_tr(w: WorldView, command: MouseCommand) -> WorldView {
    let min_x = if command.lift.x <= command.press.x {
        command.lift.x as int
    } else {
        command.press.x as int
    };
    let min_y = if command.lift.y <= command.press.y {
        command.lift.y as int
    } else {
        command.press.y as int
    };
    let max_x = if command.lift.x >= command.press.x {
        command.lift.x as int
    } else {
        command.press.x as int
    };
    let max_y = if command.lift.y >= command.press.y {
        command.lift.y as int
    } else {
        command.press.y as int
    };
    WorldView {
        positions: w.positions.push(
            Some(Position { x: (min_x * SUBUNITS) as i64, y: (min_y * SUBUNITS) as i64 }),
        ),
        rects: w.rects.push(
            Some(Rectangle { width: (max_x - min_x) as u32, height: (max_y - min_y) as u32 }),
        ),
        colors: w.colors.push(
            Some(
                Colorable {
                    color: Color { r: 0, g: 255, b: 255, a: 255 },
                    draw_type: ColorDrawType::Fill,
                },
            ),
        ),
        solids: w.solids.push(Some(Solid { up: true, down: true, left: true, right: true })),
        velocities: w.velocities.push(None),
        coin_kinds: w.coin_kinds.push(None),
        bounces: w.bounces.push(None),
        jumps: w.jumps.push(None),
        margins: w.margins.push(None),
        infinite_areas: w.infinite_areas.push(None),
        gravitables: w.gravitables.push(None),
        players: w.players.push(None),
        bullets: w.bullets.push(None),
        kill_zones: w.kill_zones.push(None),
        camera_hitboxes: w.camera_hitboxes.push(None),
    }
}

/// Spawns a solid block spanning a completed drag: the corner points give
/// the lower-left corner and the side lengths.
pub fn insert_mouse_square(ecs: &mut Ecs, command: MouseCommand)
    requires
        old(ecs)@.wf(),
    ensures
        final(ecs)@ == mouse_square_tr(old(ecs)@, command),
        final(ecs)@.wf(),
{
    let min_x = if command.lift.x <= command.press.x {
        command.lift.x
    } else {
        command.press.x
    };
    let min_y = if command.lift.y <= command.press.y {
        command.lift.y
    } else {
        command.press.y
    };
    let max_x = if command.lift.x >= command.press.x {
        command.lift.x
    } else {
        command.press.x
    };
    let max_y = if command.lift.y >= command.press.y {
        command.lift.y
    } else {
        command.press.y
    };
    let width = ((max_x as i64) - (min_x as i64)) as u32;
    let height = ((max_y as i64) - (min_y as i64)) as u32;
    ecs.create_entity();
    ecs.with_position(Position { x: (min_x as i64) * SUBUNITS, y: (min_y as i64) * SUBUNITS });
    ecs.with_rect(Rectangle::new(width, height));
    ecs.with_color(Color::rgb(0, 255, 255).into_fill());
    ecs.with_solids(Solid::all());
    proof {
        assert(ecs@ =~= mouse_square_tr(old(ecs)@, command));
    }
}

} // verus!
