//! The keypad, the instructions that read it, and how the buttons of a
//! six-button pad drive it.

use crate::chip8::Chip8;
use crate::machine::Machine;
use crate::machine::KEYS;
use vstd::prelude::*;

verus! {

/// The value that `LD Vx, K` leaves in Vx once a key is down, whichever key
/// it is.
pub const KEY_SEEN: u8 = 1;

/// Key that the pad's up arrow stands for.
pub const KEY_UP: usize = 5;

/// Key that the pad's right arrow stands for.
pub const KEY_RIGHT: usize = 9;

/// Key that the pad's down arrow stands for.
pub const KEY_DOWN: usize = 8;

/// Key that the pad's left arrow stands for.
pub const KEY_LEFT: usize = 7;

/// Key that the pad's A button stands for.
pub const KEY_A: usize = 6;

/// Key that the pad's B button stands for.
pub const KEY_B: usize = 10;

/// One flag for each button of a six-button pad.
#[derive(Clone, Copy, Debug, PartialEq, Eq, Structural)]
pub struct Buttons {
    /// The up arrow.
    pub up: bool,
    /// The right arrow.
    pub right: bool,
    /// The down arrow.
    pub down: bool,
    /// The left arrow.
    pub left: bool,
    /// The A button.
    pub a: bool,
    /// The B button.
    pub b: bool,
}

/// Whether a key is down after a poll: up if its button was released, down
/// if it was pushed and not released, and as before otherwise.
pub open spec fn held(before: bool, pushed: bool, released: bool) -> bool {
    if released {
        false
    } else if pushed {
        true
    } else {
        before
    }
}

/// Whether key number `key` is down after a poll of the pad, given whether
/// it was down before: a key that a button stands for follows its button,
/// any other key stays.
pub open spec fn polled(before: bool, key: int, pushed: Buttons, released: Buttons) -> bool {
    if key == KEY_UP {
        held(before, pushed.up, released.up)
    } else if key == KEY_RIGHT {
        held(before, pushed.right, released.right)
    } else if key == KEY_DOWN {
        held(before, pushed.down, released.down)
    } else if key == KEY_LEFT {
        held(before, pushed.left, released.left)
    } else if key == KEY_A {
        held(before, pushed.a, released.a)
    } else if key == KEY_B {
        held(before, pushed.b, released.b)
    } else {
        before
    }
}

/// Whether key number `key` is held down. A number that names no key counts
/// as a key that is up.
pub open spec fn key_down(keys: Seq<bool>, key: u8) -> bool {
    key < KEYS && keys[key as int]
}

/// Whether any key is held down.
pub open spec fn any_key_down(keys: Seq<bool>) -> bool {
    exists|k: int| 0 <= k < KEYS && #[trigger] keys[k]
}

impl Machine {
    /// The machine with key `index` pressed or released.
    pub open spec fn set_key(self, index: int, pressed: bool) -> Machine {
        Machine { keys: self.keys.update(index, pressed), ..self }
    }

    /// The machine after a poll of the pad: each of the six keys that a
    /// button stands for follows its button, and the other keys stay.
    pub open spec fn handle_inputs(self, pushed: Buttons, released: Buttons) -> Machine {
        Machine {
            keys: Seq::new(self.keys.len(), |k: int| polled(self.keys[k], k, pushed, released)),
            ..self
        }
    }

    /// `SKP Vx`.
    pub open spec fn skp_vx(self, x: u8) -> Machine {
        self.branch(key_down(self.keys, self.v[x as int]))
    }

    /// `SKNP Vx`.
    pub open spec fn sknp_vx(self, x: u8) -> Machine {
        self.branch(!key_down(self.keys, self.v[x as int]))
    }

    /// `LD Vx, K`: while no key is down nothing changes, so the instruction
    /// runs again on the next tick; once one is, Vx takes the fixed value
    /// `KEY_SEEN` and the program goes on.
    pub open spec fn ld_vx_k(self, x: u8) -> Machine {
        if any_key_down(self.keys) {
            self.with_register(x, KEY_SEEN).advance()
        } else {
            self
        }
    }
}

/// Brings the keys of the machine up to date with a poll of the pad:
/// `pushed` holds the buttons that went down since the last poll, `released`
/// those that came up. A button that did both ends up.
pub fn handle_inputs(cpu: &mut Chip8, pushed: Buttons, released: Buttons)
    ensures
        final(cpu)@ == old(cpu)@.handle_inputs(pushed, released),
        final(cpu)@.wf(),
{
    cpu.poll(pushed, released);
    proof {
        use_type_invariant(&*cpu);
    }
}

/// Whether a key is down after a poll of its button.
fn follow(before: bool, pushed: bool, released: bool) -> (after: bool)
    ensures
        after == held(before, pushed, released),
{
    if released {
        false
    } else if pushed {
        true
    } else {
        before
    }
}

/// Whether key number `key` is down after a poll of the pad.
fn follow_pad(before: bool, key: usize, pushed: Buttons, released: Buttons) -> (after: bool)
    ensures
        after == polled(before, key as int, pushed, released),
{
    if key == KEY_UP {
        follow(before, pushed.up, released.up)
    } else if key == KEY_RIGHT {
        follow(before, pushed.right, released.right)
    } else if key == KEY_DOWN {
        follow(before, pushed.down, released.down)
    } else if key == KEY_LEFT {
        follow(before, pushed.left, released.left)
    } else if key == KEY_A {
        follow(before, pushed.a, released.a)
    } else if key == KEY_B {
        follow(before, pushed.b, released.b)
    } else {
        before
    }
}

impl Chip8 {
    /// Records that key `index` is now held down, or now released.
    pub fn set_key(&mut self, index: usize, pressed: bool)
        requires
            index < KEYS,
        ensures
            final(self)@ == old(self)@.set_key(index as int, pressed),
            final(self)@.wf(),
    {
        proof {
            use_type_invariant(&*self);
        }
        self.keys[index] = pressed;
    }

    /// Lets every key follow the pad through one poll.
    pub(crate) fn poll(&mut self, pushed: Buttons, released: Buttons)
        ensures
            final(self)@ == old(self)@.handle_inputs(pushed, released),
    {
        proof {
            use_type_invariant(&*self);
        }
        let mut key: usize = 0;
        while key < KEYS
            invariant
                key <= KEYS,
                self.inv(),
                self@ == (Machine {
                    keys: Seq::new(
                        KEYS as nat,
                        |k: int|
                            if k < key {
                                polled(old(self)@.keys[k], k, pushed, released)
                            } else {
                                old(self)@.keys[k]
                            },
                    ),
                    ..old(self)@
                }),
            decreases KEYS - key,
        {
            self.keys[key] = follow_pad(self.keys[key], key, pushed, released);
            key = key + 1;
        }
    }

    /// Whether key number `key` is held down.
    pub(crate) fn is_key_down(&self, key: u8) -> (down: bool)
        ensures
            down == key_down(self@.keys, key),
    {
        (key as usize) < KEYS && self.keys[key as usize]
    }

    /// Skips the next instruction if the key stored in Vx is pressed.
    pub(crate) fn skp_vx(&mut self, x: u8)
        requires
            x < 16,
        ensures
            final(self)@ == old(self)@.skp_vx(x),
    {
        let down: bool = self.is_key_down(self.v[x as usize]);
        self.branch(down);
    }

    /// Skips the next instruction if the key stored in Vx is not pressed.
    pub(crate) fn sknp_vx(&mut self, x: u8)
        requires
            x < 16,
        ensures
            final(self)@ == old(self)@.sknp_vx(x),
    {
        let down: bool = self.is_key_down(self.v[x as usize]);
        self.branch(!down);
    }

    /// Waits for a key press: does nothing while no key is down.
    pub(crate) fn ld_vx_k(&mut self, x: u8)
        requires
            x < 16,
        ensures
            final(self)@ == old(self)@.ld_vx_k(x),
    {
        proof {
            use_type_invariant(&*self);
        }
        let mut key_pressed: bool = false;
        let mut k: usize = 0;
        while k < KEYS
            invariant
                k <= KEYS,
                key_pressed == (exists|j: int| 0 <= j < k && #[trigger] self.keys@[j]),
            decreases KEYS - k,
        {
            if self.keys[k] {
                key_pressed = true;
            }
            k = k + 1;
        }
        if !key_pressed {
            return ;
        }
        self.v[x as usize] = KEY_SEEN;
        self.pc = self.pc.wrapping_add(2);
    }
}

} // verus!
