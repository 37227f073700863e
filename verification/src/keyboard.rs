//! Key-level input: pressed/released key state per action, kept by a
//! small controller that remembers the latest event.

use vstd::prelude::*;

verus! {

/// Whether a key is held down or up.
#[derive(Debug, Clone, Copy, PartialEq, Eq, Structural, Default)]
pub enum KeyState {
    Down,
    #[default]
    Up,
}

/// The directional actions a key can map to.
#[derive(Debug, Clone, Copy, PartialEq, Eq, Structural)]
pub enum Action {
    Up,
    Down,
    Left,
    Right,
}

/// A decoded key event: an action and the key state it moved to.
#[derive(Debug, Clone, Copy, PartialEq, Eq, Structural)]
pub struct InputEvent {
    pub action: Action,
    pub key_state: KeyState,
}

impl InputEvent {
    /// True when the event is exactly this action in this state.
    pub fn is(&self, action: Action, key_state: KeyState) -> (r: bool)
        ensures
            r == (self.action == action && self.key_state == key_state),
    {
        self.action == action && self.key_state == key_state
    }
}

/// One key state per action.
#[derive(Debug, Clone, Copy, PartialEq, Eq, Structural)]
pub struct KeyMap {
    pub up: KeyState,
    pub down: KeyState,
    pub left: KeyState,
    pub right: KeyState,
}

/// The map with one action's key state replaced.
pub open spec fn key_map_set(m: KeyMap, action: Action, state: KeyState) -> KeyMap {
    match action {
        Action::Up => KeyMap { up: state, ..m },
        Action::Down => KeyMap { down: state, ..m },
        Action::Left => KeyMap { left: state, ..m },
        Action::Right => KeyMap { right: state, ..m },
    }
}

impl KeyMap {
    /// Every key up.
    pub fn all_up() -> (r: KeyMap)
        ensures
            r == (KeyMap {
                up: KeyState::Up,
                down: KeyState::Up,
                left: KeyState::Up,
                right: KeyState::Up,
            }),
    {
        KeyMap { up: KeyState::Up, down: KeyState::Up, left: KeyState::Up, right: KeyState::Up }
    }

    /// Reads one action's key state.
    pub fn get(&self, action: Action) -> (r: KeyState)
        ensures
            r == (match action {
                Action::Up => self.up,
                Action::Down => self.down,
                Action::Left => self.left,
                Action::Right => self.right,
            }),
    {
        match action {
            Action::Up => self.up,
            Action::Down => self.down,
            Action::Left => self.left,
            Action::Right => self.right,
        }
    }
}

/// Keeps the current key state per action and the latest event seen.
#[derive(Debug, Clone, Copy, PartialEq, Eq, Structural)]
pub struct InputController {
    pub state: KeyMap,
    pub last_event: InputEvent,
}

impl InputController {
    /// A controller with every key up; the remembered event is a
    /// placeholder until a real one arrives.
    pub fn new() -> (r: InputController)
        ensures
            r.state == (KeyMap {
                up: KeyState::Up,
                down: KeyState::Up,
                left: KeyState::Up,
                right: KeyState::Up,
            }),
            r.last_event == (InputEvent { action: Action::Right, key_state: KeyState::Down }),
    {
        InputController {
            state: KeyMap::all_up(),
            last_event: InputEvent { action: Action::Right, key_state: KeyState::Down },
        }
    }

    /// Folds one event into the key state and remembers it.
    pub fn handle_input_event(&mut self, input_event: InputEvent)
        ensures
            final(self).state == key_map_set(
                old(self).state,
                input_event.action,
                input_event.key_state,
            ),
            final(self).last_event == input_event,
    {
        match input_event.action {
            Action::Up => self.state.up = input_event.key_state,
            Action::Down => self.state.down = input_event.key_state,
            Action::Left => self.state.left = input_event.key_state,
            Action::Right => self.state.right = input_event.key_state,
        }
        self.last_event = input_event;
    }
}

} // verus!
