//! The sixteen-key pad, and the bookkeeping of the instruction that waits
//! for a key.

use vstd::prelude::*;

verus! {

/// Number of keys; their codes are `0x0` to `0xF`.
pub const KEY_COUNT: u8 = 16;

/// The mathematical content of a [`Keypad`].
pub struct KeypadState {
    /// For each key code, whether that key is held down.
    pub down: Seq<bool>,
    /// Whether a wait for a key has begun and not yet ended.
    pub awaiting: bool,
    /// The key that last went from released to held since the wait began or
    /// the last wait ended, if any.
    pub pressed: Option<u8>,
}

impl KeypadState {
    /// Sixteen keys, and a recorded key press names one of them.
    pub open spec fn wf(self) -> bool {
        &&& self.down.len() == KEY_COUNT
        &&& self.pressed matches Some(k) ==> k < KEY_COUNT
    }

    /// All keys released, no wait under way.
    pub open spec fn idle() -> KeypadState {
        KeypadState { down: Seq::new(KEY_COUNT as nat, |i: int| false), awaiting: false, pressed: None }
    }

    /// Whether key `key` is held down. There is no key above `0xF`, so none
    /// of those is ever down.
    pub open spec fn is_down(self, key: u8) -> bool {
        key < KEY_COUNT && self.down[key as int]
    }

    /// The pad after the input side reports key `key` as held (`down`) or
    /// released. A report for a key above `0xF` changes nothing. A key that
    /// goes from released to held is recorded as the latest key press.
    pub open spec fn with_key(self, key: u8, down: bool) -> KeypadState {
        if key < KEY_COUNT {
            KeypadState {
                down: self.down.update(key as int, down),
                awaiting: self.awaiting,
                pressed: if down && !self.down[key as int] {
                    Some(key)
                } else {
                    self.pressed
                },
            }
        } else {
            self
        }
    }

    /// The key that one attempt of the waiting instruction obtains, if any.
    /// The first attempt only begins the wait; a later attempt obtains the
    /// key press recorded since.
    pub open spec fn awaited_key(self) -> Option<u8> {
        if self.awaiting {
            self.pressed
        } else {
            None
        }
    }

    /// The pad after one attempt of the waiting instruction. The first
    /// attempt begins the wait and forgets any earlier key press; an attempt
    /// that obtains a key ends the wait; any other changes nothing.
    pub open spec fn after_await(self) -> KeypadState {
        if !self.awaiting {
            KeypadState { down: self.down, awaiting: true, pressed: None }
        } else if self.pressed is Some {
            KeypadState { down: self.down, awaiting: false, pressed: None }
        } else {
            self
        }
    }
}

/// The keypad: which keys are held, and the state of a wait for a key.
pub struct Keypad {
    down: [bool; 16],
    awaiting: bool,
    pressed: Option<u8>,
}

impl View for Keypad {
    type V = KeypadState;

    closed spec fn view(&self) -> KeypadState {
        KeypadState { down: self.down@, awaiting: self.awaiting, pressed: self.pressed }
    }
}

impl Keypad {
    /// The invariant of the type: see [`KeypadState::wf`].
    pub open spec fn wf(&self) -> bool {
        self@.wf()
    }

    /// A pad with all keys released.
    pub fn new() -> (k: Keypad)
        ensures
            k.wf(),
            k@ == KeypadState::idle(),
    {
        let k = Keypad { down: [false; 16], awaiting: false, pressed: None };
        assert(k@.down =~= KeypadState::idle().down);
        k
    }

    /// Records that key `key` is now held (`down`) or released.
    pub fn set_key(&mut self, key: u8, down: bool)
        requires
            old(self).wf(),
        ensures
            final(self).wf(),
            final(self)@ == old(self)@.with_key(key, down),
    {
        if key < KEY_COUNT {
            if down && !self.down[key as usize] {
                self.pressed = Some(key);
            }
            self.down[key as usize] = down;
        }
    }

    /// Whether key `key` is held down.
    pub fn is_down(&self, key: u8) -> (r: bool)
        requires
            self.wf(),
        ensures
            r == self@.is_down(key),
    {
        key < KEY_COUNT && self.down[key as usize]
    }

    /// Whether a wait for a key is under way.
    pub fn is_awaiting(&self) -> (r: bool)
        ensures
            r == self@.awaiting,
    {
        self.awaiting
    }

    /// One attempt of the waiting instruction: the key obtained, if any.
    pub fn await_key(&mut self) -> (r: Option<u8>)
        requires
            old(self).wf(),
        ensures
            final(self).wf(),
            r == old(self)@.awaited_key(),
            final(self)@ == old(self)@.after_await(),
            r matches Some(k) ==> k < KEY_COUNT,
    {
        if !self.awaiting {
            self.awaiting = true;
            self.pressed = None;
            None
        } else {
            let r = self.pressed;
            if r.is_some() {
                self.awaiting = false;
                self.pressed = None;
            }
            r
        }
    }
}

} // verus!
