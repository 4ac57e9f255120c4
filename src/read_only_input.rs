use crate::input::{Action, Input};
use vstd::prelude::*;

verus! {

/// A frame's read-only view of the keyboard, in three states per action:
/// down (pressed this frame only), pressed (held over both frames) and up
/// (released this frame).
pub struct ReadOnlyInput<'a> {
    input: &'a Input,
}

impl<'a> ReadOnlyInput<'a> {
    /// The keyboard state that this view reads.
    pub closed spec fn source(&self) -> &'a Input {
        self.input
    }

    /// Some key of `action` is held this frame.
    pub open spec fn this_frame(&self, action: Action) -> bool {
        self.source().pressed_this_frame(action)
    }

    /// Some key of `action` was held last frame.
    pub open spec fn last_frame(&self, action: Action) -> bool {
        self.source().pressed_last_frame(action)
    }

    /// `action` is asserted: down or pressed, that is, held this frame.
    pub open spec fn asserted(&self, action: Action) -> bool {
        (self.this_frame(action) && !self.last_frame(action)) || (self.this_frame(action)
            && self.last_frame(action))
    }

    /// The actions asserted this frame.
    pub open spec fn asserted_actions(&self) -> Set<Action> {
        Set::new(|a: Action| self.asserted(a))
    }

    pub open spec fn wf(&self) -> bool {
        self.source().wf()
    }

    pub fn new(input: &'a Input) -> (r: ReadOnlyInput<'a>)
        ensures
            r.source() == input,
    {
        ReadOnlyInput { input }
    }

    /// `action` went down this frame.
    pub fn is_input_down(&self, action: Action) -> (r: bool)
        requires
            self.wf(),
        ensures
            r == (self.this_frame(action) && !self.last_frame(action)),
    {
        self.input.is_input_pressed_this_frame(action) && !self.input.is_input_pressed_last_frame(
            action,
        )
    }

    /// `action` was held over this frame and the last.
    pub fn is_input_pressed(&self, action: Action) -> (r: bool)
        requires
            self.wf(),
        ensures
            r == (self.this_frame(action) && self.last_frame(action)),
    {
        self.input.is_input_pressed_this_frame(action) && self.input.is_input_pressed_last_frame(
            action,
        )
    }

    /// `action` was released this frame.
    pub fn is_input_up(&self, action: Action) -> (r: bool)
        requires
            self.wf(),
        ensures
            r == (!self.this_frame(action) && self.last_frame(action)),
    {
        !self.input.is_input_pressed_this_frame(action) && self.input.is_input_pressed_last_frame(
            action,
        )
    }
}

} // verus!
