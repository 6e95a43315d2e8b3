//! The input router.
//!
//! It watches a seat's capability announcements: when the keyboard bit newly
//! appears it decides to request the keyboard sub-object, and when the bit
//! disappears it decides to release it. Key events feed the one piece of
//! application state the core owns: the running flag of the dispatch loop.

use vstd::prelude::*;

verus! {

/// The keyboard bit of a seat's capability bitfield.
pub const KEYBOARD_CAPABILITY: u32 = 2;

/// The key code that stops the dispatch loop.
pub const STOP_KEY: u32 = 1;

/// Whether a capability bitfield announces a keyboard.
pub open spec fn has_keyboard_bit(capabilities: u32) -> bool {
    capabilities & KEYBOARD_CAPABILITY != 0
}

/// The input router's state: whether the keyboard sub-object is currently
/// held, and whether the dispatch loop should keep running.
#[derive(PartialEq, Eq, Structural, Clone, Copy, Debug)]
pub struct InputRouter {
    pub has_keyboard: bool,
    pub running: bool,
}

/// A decoded input event from the seat or its keyboard.
#[derive(PartialEq, Eq, Structural, Clone, Copy, Debug)]
pub enum InputEvent {
    Capabilities { capabilities: u32 },
    Key { key: u32, pressed: bool },
}

/// What the router asks the session to do about the keyboard sub-object.
#[derive(PartialEq, Eq, Structural, Clone, Copy, Debug)]
pub enum InputDecision {
    RequestKeyboard,
    ReleaseKeyboard,
}

/// The total transition function of the router: next state and the decision,
/// if any, the event calls for.
pub open spec fn input_step(r: InputRouter, ev: InputEvent) -> (InputRouter, Option<InputDecision>) {
    match ev {
        InputEvent::Capabilities { capabilities } => if has_keyboard_bit(capabilities) && !r.has_keyboard {
            (InputRouter { has_keyboard: true, ..r }, Some(InputDecision::RequestKeyboard))
        } else if !has_keyboard_bit(capabilities) && r.has_keyboard {
            (InputRouter { has_keyboard: false, ..r }, Some(InputDecision::ReleaseKeyboard))
        } else {
            (r, None)
        },
        InputEvent::Key { key, pressed } => if key == STOP_KEY {
            (InputRouter { running: false, ..r }, None)
        } else {
            (r, None)
        },
    }
}

impl InputRouter {
    /// A fresh router: no keyboard held, loop running.
    pub fn new() -> (r: InputRouter)
        ensures
            r == (InputRouter { has_keyboard: false, running: true }),
    {
        InputRouter { has_keyboard: false, running: true }
    }

    /// React to a seat capability announcement. Requests the keyboard exactly
    /// when the bit is newly set, releases it exactly when the bit is newly
    /// cleared, and otherwise decides nothing.
    pub fn handle_capabilities(&mut self, capabilities: u32) -> (d: Option<InputDecision>)
        ensures
            *final(self) == input_step(*old(self), InputEvent::Capabilities { capabilities }).0,
            d == input_step(*old(self), InputEvent::Capabilities { capabilities }).1,
    {
        if capabilities & KEYBOARD_CAPABILITY != 0 {
            if !self.has_keyboard {
                self.has_keyboard = true;
                Some(InputDecision::RequestKeyboard)
            } else {
                None
            }
        } else {
            if self.has_keyboard {
                self.has_keyboard = false;
                Some(InputDecision::ReleaseKeyboard)
            } else {
                None
            }
        }
    }

    /// React to a key event: the stop key clears the running flag; every
    /// other key leaves the router unchanged.
    pub fn handle_key(&mut self, key: u32, pressed: bool) -> (d: Option<InputDecision>)
        ensures
            *final(self) == input_step(*old(self), InputEvent::Key { key, pressed }).0,
            d == input_step(*old(self), InputEvent::Key { key, pressed }).1,
            final(self).running == (old(self).running && key != STOP_KEY),
    {
        if key == STOP_KEY {
            self.running = false;
        }
        None
    }
}

/// Run the router over a whole sequence of input events, collecting the
/// decisions it makes, in order.
pub open spec fn input_run(r: InputRouter, evs: Seq<InputEvent>) -> (InputRouter, Seq<InputDecision>)
    decreases evs.len(),
{
    if evs.len() == 0 {
        (r, Seq::<InputDecision>::empty())
    } else {
        let first = input_step(r, evs[0]);
        let rest = input_run(first.0, evs.drop_first());
        (
            rest.0,
            match first.1 {
                Some(d) => seq![d] + rest.1,
                None => rest.1,
            },
        )
    }
}

/// If no capability announcement in the run carries the keyboard bit, the
/// router never decides to request the keyboard sub-object.
pub proof fn lemma_no_keyboard_without_bit(r: InputRouter, evs: Seq<InputEvent>)
    requires
        !r.has_keyboard,
        forall|i: int|
            0 <= i < evs.len() && evs[i] is Capabilities ==> !has_keyboard_bit(evs[i]->capabilities),
    ensures
        forall|i: int|
            0 <= i < input_run(r, evs).1.len() ==> !(input_run(r, evs).1[i] is RequestKeyboard),
    decreases evs.len(),
{
    if evs.len() > 0 {
        let first = input_step(r, evs[0]);
        assert(evs[0] is Capabilities ==> !has_keyboard_bit(evs[0]->capabilities));
        assert forall|i: int|
            0 <= i < evs.drop_first().len() && evs.drop_first()[i] is Capabilities implies !has_keyboard_bit(
            evs.drop_first()[i]->capabilities,
        ) by {
            assert(evs.drop_first()[i] == evs[i + 1]);
        }
        lemma_no_keyboard_without_bit(first.0, evs.drop_first());
        let rest = input_run(first.0, evs.drop_first());
        match first.1 {
            Some(d) => {
                assert forall|i: int|
                    0 <= i < input_run(r, evs).1.len() implies !(input_run(r, evs).1[i] is RequestKeyboard) by {
                    if i > 0 {
                        assert(input_run(r, evs).1[i] == rest.1[i - 1]);
                    }
                }
            },
            None => {},
        }
    }
}

} // verus!
