use std::collections::HashMap;
use vstd::prelude::*;

verus! {

broadcast use vstd::std_specs::hash::group_hash_axioms;

/// A logical action, decoupled from the keys that assert it.
#[derive(Clone, Copy, Debug, PartialEq, Eq, Structural)]
pub enum Action {
    MoveUp,
    MoveDown,
    MoveLeft,
    MoveRight,
    Use,
}

/// Number of logical actions.
pub const ACTION_COUNT: usize = 5;

impl Action {
    /// Position of the action in per-action tables.
    pub open spec fn index(self) -> int {
        match self {
            Action::MoveUp => 0,
            Action::MoveDown => 1,
            Action::MoveLeft => 2,
            Action::MoveRight => 3,
            Action::Use => 4,
        }
    }

    fn slot(self) -> (r: usize)
        ensures
            r == self.index(),
            r < ACTION_COUNT,
    {
        match self {
            Action::MoveUp => 0,
            Action::MoveDown => 1,
            Action::MoveLeft => 2,
            Action::MoveRight => 3,
            Action::Use => 4,
        }
    }

    /// The two key codes bound to the action: an arrow key and a letter for
    /// the moves, `E` and space for `Use`.
    pub open spec fn keys(self) -> (i32, i32) {
        match self {
            Action::MoveUp => (38, 87),
            Action::MoveDown => (40, 83),
            Action::MoveLeft => (37, 65),
            Action::MoveRight => (39, 68),
            Action::Use => (69, 32),
        }
    }
}

/// The action that a key code asserts, if any.
pub open spec fn key_action(key_code: i32) -> Option<Action> {
    if key_code == 38 || key_code == 87 {
        Some(Action::MoveUp)
    } else if key_code == 40 || key_code == 83 {
        Some(Action::MoveDown)
    } else if key_code == 37 || key_code == 65 {
        Some(Action::MoveLeft)
    } else if key_code == 39 || key_code == 68 {
        Some(Action::MoveRight)
    } else if key_code == 69 || key_code == 32 {
        Some(Action::Use)
    } else {
        None
    }
}

/// How many of the keys bound to `action` are in `held`.
pub open spec fn held_count(held: Set<i32>, action: Action) -> int {
    (if held.contains(action.keys().0) { 1int } else { 0int }) + (if held.contains(
        action.keys().1,
    ) { 1int } else { 0int })
}

/// The action that `key_code` asserts: arrows and W/A/S/D move, E and space
/// use.
pub fn key_to_action(key_code: i32) -> (r: Option<Action>)
    ensures
        r == key_action(key_code),
{
    match key_code {
        38 | 87 => Some(Action::MoveUp),
        40 | 83 => Some(Action::MoveDown),
        37 | 65 => Some(Action::MoveLeft),
        39 | 68 => Some(Action::MoveRight),
        69 | 32 => Some(Action::Use),
        _ => None,
    }
}

/// Keyboard state across frames: which keys are held now, and for each action
/// how many of its keys are held this frame and were held at the end of the
/// last frame.
pub struct Input {
    keys_already_pressed: HashMap<i32, bool>,
    keys_pressed: Vec<i8>,
    keys_pressed_last_frame: Vec<i8>,
}

impl Input {
    /// Key codes that are held down now.
    pub closed spec fn held_keys(&self) -> Set<i32> {
        Set::new(
            |k: i32|
                self.keys_already_pressed@.contains_key(k) && self.keys_already_pressed@[k],
        )
    }

    /// Some key of `action` is held this frame.
    pub open spec fn pressed_this_frame(&self, action: Action) -> bool {
        held_count(self.held_keys(), action) > 0
    }

    /// Some key of `action` was held when the last frame was finalized.
    pub closed spec fn pressed_last_frame(&self, action: Action) -> bool {
        self.keys_pressed_last_frame@[action.index()] > 0
    }

    /// The per-action counters agree with the held keys.
    pub closed spec fn wf(&self) -> bool {
        &&& self.keys_pressed@.len() == ACTION_COUNT
        &&& self.keys_pressed_last_frame@.len() == ACTION_COUNT
        &&& forall|a: Action| #[trigger]
            self.keys_pressed@[a.index()] == held_count(self.held_keys(), a)
    }

    /// No key held, now or in the last frame.
    pub fn new() -> (r: Input)
        ensures
            r.wf(),
            r.held_keys() == Set::<i32>::empty(),
            forall|a: Action| !r.pressed_last_frame(a),
    {
        let keys_already_pressed: HashMap<i32, bool> = HashMap::new();
        let mut keys_pressed: Vec<i8> = Vec::new();
        let mut keys_pressed_last_frame: Vec<i8> = Vec::new();
        let mut i: usize = 0;
        while i < ACTION_COUNT
            invariant
                i <= ACTION_COUNT,
                keys_pressed@.len() == i,
                keys_pressed_last_frame@.len() == i,
                forall|j: int| 0 <= j < i ==> keys_pressed@[j] == 0,
                forall|j: int| 0 <= j < i ==> keys_pressed_last_frame@[j] == 0,
            decreases ACTION_COUNT - i,
        {
            keys_pressed.push(0);
            keys_pressed_last_frame.push(0);
            i = i + 1;
        }
        let r = Input { keys_already_pressed, keys_pressed, keys_pressed_last_frame };
        assert(r.held_keys() =~= Set::<i32>::empty());
        assert forall|a: Action| #[trigger] r.keys_pressed@[a.index()] == held_count(r.held_keys(), a) by {
            assert(0 <= a.index() < 5);
        }
        r
    }

    /// Ends a frame: what is held now becomes what was held last frame.
    pub fn finalize(&mut self)
        requires
            old(self).wf(),
        ensures
            final(self).wf(),
            final(self).held_keys() == old(self).held_keys(),
            forall|a: Action| #[trigger]
                final(self).pressed_last_frame(a) == old(self).pressed_this_frame(a),
    {
        let mut last: Vec<i8> = Vec::new();
        let mut i: usize = 0;
        while i < ACTION_COUNT
            invariant
                self.wf(),
                i <= ACTION_COUNT,
                last@ == self.keys_pressed@.subrange(0, i as int),
            decreases ACTION_COUNT - i,
        {
            last.push(self.keys_pressed[i]);
            i = i + 1;
        }
        assert(last@ =~= self.keys_pressed@);
        self.keys_pressed_last_frame = last;
    }

    /// A key goes down. A key that is already held (auto-repeat) changes
    /// nothing; otherwise it is held from now on.
    pub fn key_down(&mut self, key_code: i32)
        requires
            old(self).wf(),
        ensures
            final(self).wf(),
            final(self).held_keys() == old(self).held_keys().insert(key_code),
            forall|a: Action| #[trigger]
                final(self).pressed_last_frame(a) == old(self).pressed_last_frame(a),
    {
        if !self.keys_already_pressed.contains_key(&key_code) {
            self.keys_already_pressed.insert(key_code, false);
        }
        let already = match self.keys_already_pressed.get(&key_code) {
            Some(b) => *b,
            None => false,
        };
        let ghost before = self.held_keys();
        assert(before.contains(key_code) == already);
        if !already {
            if let Some(action) = key_to_action(key_code) {
                let i = action.slot();
                let c = self.keys_pressed[i];
                assert(c == held_count(before, action));
                self.keys_pressed.set(i, c + 1);
            }
            self.keys_already_pressed.insert(key_code, true);
        }
        assert(self.held_keys() =~= before.insert(key_code));
        assert forall|a: Action| #[trigger]
            self.keys_pressed@[a.index()] == held_count(self.held_keys(), a) by {
            assert(0 <= a.index() < 5);
        }
    }

    /// A key goes up: it is no longer held.
    pub fn key_up(&mut self, key_code: i32)
        requires
            old(self).wf(),
        ensures
            final(self).wf(),
            final(self).held_keys() == old(self).held_keys().remove(key_code),
            forall|a: Action| #[trigger]
                final(self).pressed_last_frame(a) == old(self).pressed_last_frame(a),
    {
        if !self.keys_already_pressed.contains_key(&key_code) {
            self.keys_already_pressed.insert(key_code, false);
        }
        let already = match self.keys_already_pressed.get(&key_code) {
            Some(b) => *b,
            None => false,
        };
        let ghost before = self.held_keys();
        assert(before.contains(key_code) == already);
        if already {
            if let Some(action) = key_to_action(key_code) {
                let i = action.slot();
                let c = self.keys_pressed[i];
                assert(c == held_count(before, action));
                self.keys_pressed.set(i, c - 1);
            }
            self.keys_already_pressed.insert(key_code, false);
        }
        assert(self.held_keys() =~= before.remove(key_code));
        assert forall|a: Action| #[trigger]
            self.keys_pressed@[a.index()] == held_count(self.held_keys(), a) by {
            assert(0 <= a.index() < 5);
        }
    }

    /// Whether some key of `action` is held this frame.
    pub fn is_input_pressed_this_frame(&self, action: Action) -> (r: bool)
        requires
            self.wf(),
        ensures
            r == self.pressed_this_frame(action),
    {
        self.keys_pressed[action.slot()] > 0
    }

    /// Whether some key of `action` was held at the end of the last frame.
    pub fn is_input_pressed_last_frame(&self, action: Action) -> (r: bool)
        requires
            self.wf(),
        ensures
            r == self.pressed_last_frame(action),
    {
        self.keys_pressed_last_frame[action.slot()] > 0
    }
}

} // verus!
