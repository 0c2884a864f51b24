use vstd::prelude::*;

use std::collections::HashMap;

verus! {

broadcast use vstd::std_specs::hash::group_hash_axioms;

/// A logical button of the game pad.
#[allow(non_camel_case_types)]
#[derive(Clone, Copy, Debug, PartialEq, Eq, Structural)]
pub enum ButtonCode {
    LEFT,
    RIGHT,
    UP,
    DOWN,
    A,
    B,
}

/// Where a button stands in its press cycle. `PRESSED` and `RELEASED` are
/// edges that last one frame.
#[allow(non_camel_case_types)]
#[derive(Clone, Copy, Debug, PartialEq, Eq, Structural)]
pub enum ButtonState {
    PRESSED,
    DOWN,
    RELEASED,
    UP,
}

/// Number of logical buttons.
pub const BUTTON_COUNT: usize = 6;

/// The position of a button in the state table.
pub open spec fn button_slot(b: ButtonCode) -> int {
    match b {
        ButtonCode::LEFT => 0,
        ButtonCode::RIGHT => 1,
        ButtonCode::UP => 2,
        ButtonCode::DOWN => 3,
        ButtonCode::A => 4,
        ButtonCode::B => 5,
    }
}

/// The position of a button in the state table.
pub fn button_index(b: ButtonCode) -> (r: usize)
    ensures
        r == button_slot(b),
        r < BUTTON_COUNT,
{
    match b {
        ButtonCode::LEFT => 0,
        ButtonCode::RIGHT => 1,
        ButtonCode::UP => 2,
        ButtonCode::DOWN => 3,
        ButtonCode::A => 4,
        ButtonCode::B => 5,
    }
}

/// The button is held: pressed this frame or earlier.
pub open spec fn held(s: ButtonState) -> bool {
    s == ButtonState::PRESSED || s == ButtonState::DOWN
}

/// State after a key-down event: a held button stays `DOWN`, anything else
/// becomes `PRESSED`.
pub open spec fn after_press(s: ButtonState) -> ButtonState {
    if s == ButtonState::DOWN {
        ButtonState::DOWN
    } else {
        ButtonState::PRESSED
    }
}

/// State after one frame: edges settle, `DOWN` and `UP` stay.
pub open spec fn after_frame(s: ButtonState) -> ButtonState {
    match s {
        ButtonState::PRESSED => ButtonState::DOWN,
        ButtonState::RELEASED => ButtonState::UP,
        _ => s,
    }
}

/// Per-button press state, and the table from platform key codes to
/// buttons.
pub struct InputManager {
    button_states: Vec<ButtonState>,
    key_button_map: HashMap<u32, ButtonCode>,
}

impl InputManager {
    /// The state of each button, by `button_slot`.
    pub closed spec fn states(&self) -> Seq<ButtonState> {
        self.button_states@
    }

    /// The key table.
    pub closed spec fn key_map(&self) -> Map<u32, ButtonCode> {
        self.key_button_map@
    }

    /// The state of button `b`.
    pub open spec fn state_of(&self, b: ButtonCode) -> ButtonState {
        self.states()[button_slot(b)]
    }

    /// There is one state per button.
    pub open spec fn wf(&self) -> bool {
        self.states().len() == BUTTON_COUNT
    }

    /// Creates a new instance of the input manager: every button up, no
    /// key mapped.
    pub fn new() -> (r: Self)
        ensures
            r.wf(),
            forall|i: int| 0 <= i < BUTTON_COUNT ==> r.states()[i] == ButtonState::UP,
            r.key_map() == Map::<u32, ButtonCode>::empty(),
    {
        let mut button_states: Vec<ButtonState> = Vec::new();
        let mut i: usize = 0;
        while i < BUTTON_COUNT
            invariant
                i <= BUTTON_COUNT,
                button_states@.len() == i,
                forall|j: int| 0 <= j < i ==> button_states@[j] == ButtonState::UP,
            decreases BUTTON_COUNT - i,
        {
            button_states.push(ButtonState::UP);
            i = i + 1;
        }
        InputManager { button_states, key_button_map: HashMap::new() }
    }

    /// Returns the state of a button.
    pub fn button_state(&self, button_code: ButtonCode) -> (r: ButtonState)
        requires
            self.wf(),
        ensures
            r == self.state_of(button_code),
    {
        self.button_states[button_index(button_code)]
    }

    /// Returns true if button is down.
    pub fn is_button_down(&self, button_code: ButtonCode) -> (r: bool)
        requires
            self.wf(),
        ensures
            r == held(self.state_of(button_code)),
    {
        match self.button_states[button_index(button_code)] {
            ButtonState::DOWN => true,
            ButtonState::PRESSED => true,
            _ => false,
        }
    }

    /// Returns true if button has been pressed this frame.
    pub fn is_button_pressed(&self, button_code: ButtonCode) -> (r: bool)
        requires
            self.wf(),
        ensures
            r == (self.state_of(button_code) == ButtonState::PRESSED),
    {
        self.button_states[button_index(button_code)] == ButtonState::PRESSED
    }

    /// Sets a button as released this frame.
    pub fn set_button_released(&mut self, button_code: ButtonCode)
        requires
            old(self).wf(),
        ensures
            final(self).wf(),
            final(self).states() == old(self).states().update(
                button_slot(button_code),
                ButtonState::RELEASED,
            ),
            final(self).key_map() == old(self).key_map(),
    {
        self.button_states.set(button_index(button_code), ButtonState::RELEASED);
    }

    /// Sets a button as pressed this frame, unless it is already held down.
    pub fn set_button_pressed(&mut self, button_code: ButtonCode)
        requires
            old(self).wf(),
        ensures
            final(self).wf(),
            final(self).states() == old(self).states().update(
                button_slot(button_code),
                after_press(old(self).state_of(button_code)),
            ),
            final(self).key_map() == old(self).key_map(),
    {
        let i = button_index(button_code);
        if self.button_states[i] != ButtonState::DOWN {
            self.button_states.set(i, ButtonState::PRESSED);
        }
    }

    /// Updates the general state of the input manager.
    /// Should be run once per frame.
    pub fn update(&mut self)
        requires
            old(self).wf(),
        ensures
            final(self).wf(),
            final(self).states() == old(self).states().map_values(|s: ButtonState| after_frame(s)),
            final(self).key_map() == old(self).key_map(),
    {
        let ghost before = self.button_states@;
        let mut i: usize = 0;
        while i < BUTTON_COUNT
            invariant
                i <= BUTTON_COUNT,
                self.button_states@.len() == BUTTON_COUNT,
                before.len() == BUTTON_COUNT,
                self.key_button_map@ == old(self).key_button_map@,
                forall|j: int| 0 <= j < i ==> self.button_states@[j] == after_frame(before[j]),
                forall|j: int| i <= j < BUTTON_COUNT ==> self.button_states@[j] == before[j],
            decreases BUTTON_COUNT - i,
        {
            let next = match self.button_states[i] {
                ButtonState::PRESSED => ButtonState::DOWN,
                ButtonState::RELEASED => ButtonState::UP,
                s => s,
            };
            self.button_states.set(i, next);
            i = i + 1;
        }
        assert(self.button_states@ =~= before.map_values(|s: ButtonState| after_frame(s)));
    }

    /// Converts a key to a ButtonCode.
    /// If key is not a button, returns None.
    pub fn key_to_button(&self, key: u32) -> (r: Option<ButtonCode>)
        ensures
            r == (if self.key_map().contains_key(key) {
                Some(self.key_map()[key])
            } else {
                None
            }),
    {
        match self.key_button_map.get(&key) {
            Some(b) => Some(*b),
            None => None,
        }
    }

    /// Sets up a mapping between a key and a button.
    pub fn map_key_to_button(&mut self, key: u32, button_code: ButtonCode)
        ensures
            final(self).states() == old(self).states(),
            final(self).key_map() == old(self).key_map().insert(key, button_code),
    {
        self.key_button_map.insert(key, button_code);
    }
}

} // verus!
