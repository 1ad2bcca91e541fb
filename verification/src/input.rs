//! Keyboard and mouse state shared between the frame loop and the low-level
//! input hook.
//!
//! The hook thread lives outside this crate; it translates raw events into
//! the closed [`KeyEvent`] type and hands them to [`KeyboardMouseState`],
//! which keeps, per key, whether it is held down and whether that changed
//! since the state was last read.  Readers consume the "just changed" flag
//! key by key through `get_input`, and the manager clears every flag at the
//! end of a frame through `reset_active` so one physical transition is never
//! processed by two frames.

use vstd::prelude::*;

verus! {

/// Number of keys the state tracks: two mouse buttons, five special keys,
/// and the alphabet.
pub const KEY_COUNT: usize = 33;

/// A key or mouse button the manager reacts to.
#[derive(Clone, Copy, Debug, PartialEq, Eq, Hash, Structural)]
pub enum Key {
    MouseLeft,
    MouseRight,
    Windows,
    Backspace,
    ArrowDown,
    ArrowUp,
    Enter,
    A,
    B,
    C,
    D,
    E,
    F,
    G,
    H,
    I,
    J,
    K,
    L,
    M,
    N,
    O,
    P,
    Q,
    R,
    S,
    T,
    U,
    V,
    W,
    X,
    Y,
    Z,
}

/// One key's observed state: held down, and changed since last read.
#[derive(Clone, Copy, Debug, PartialEq, Eq, Hash, Structural)]
pub struct InputState {
    pub active: bool,
    pub just_changed: bool,
}

impl InputState {
    pub fn new(active: bool, just_changed: bool) -> (r: InputState)
        ensures
            r.active == active,
            r.just_changed == just_changed,
    {
        InputState { active, just_changed }
    }
}

/// An input transition as the hook boundary reports it: a closed type, so
/// the state machine never sees platform event shapes.
#[derive(Clone, Copy, Debug, PartialEq, Eq, Structural)]
pub enum KeyEvent {
    ButtonDown(Key),
    ButtonUp(Key),
    Other,
}

impl Key {
    /// Position of this key in the state table.
    pub open spec fn spec_index(self) -> int {
        match self {
            Key::MouseLeft => 0,
            Key::MouseRight => 1,
            Key::Windows => 2,
            Key::Backspace => 3,
            Key::ArrowDown => 4,
            Key::ArrowUp => 5,
            Key::Enter => 6,
            Key::A => 7,
            Key::B => 8,
            Key::C => 9,
            Key::D => 10,
            Key::E => 11,
            Key::F => 12,
            Key::G => 13,
            Key::H => 14,
            Key::I => 15,
            Key::J => 16,
            Key::K => 17,
            Key::L => 18,
            Key::M => 19,
            Key::N => 20,
            Key::O => 21,
            Key::P => 22,
            Key::Q => 23,
            Key::R => 24,
            Key::S => 25,
            Key::T => 26,
            Key::U => 27,
            Key::V => 28,
            Key::W => 29,
            Key::X => 30,
            Key::Y => 31,
            Key::Z => 32,
        }
    }

    /// Position of this key in the state table.
    pub fn index(self) -> (r: usize)
        ensures
            r == self.spec_index(),
            r < KEY_COUNT,
    {
        match self {
            Key::MouseLeft => 0,
            Key::MouseRight => 1,
            Key::Windows => 2,
            Key::Backspace => 3,
            Key::ArrowDown => 4,
            Key::ArrowUp => 5,
            Key::Enter => 6,
            Key::A => 7,
            Key::B => 8,
            Key::C => 9,
            Key::D => 10,
            Key::E => 11,
            Key::F => 12,
            Key::G => 13,
            Key::H => 14,
            Key::I => 15,
            Key::J => 16,
            Key::K => 17,
            Key::L => 18,
            Key::M => 19,
            Key::N => 20,
            Key::O => 21,
            Key::P => 22,
            Key::Q => 23,
            Key::R => 24,
            Key::S => 25,
            Key::T => 26,
            Key::U => 27,
            Key::V => 28,
            Key::W => 29,
            Key::X => 30,
            Key::Y => 31,
            Key::Z => 32,
        }
    }

    /// Whether `as_str` has a text for this key.
    pub open spec fn has_name(self) -> bool {
        !matches!(self, Key::MouseRight | Key::ArrowDown | Key::ArrowUp | Key::Enter)
    }

    /// The text `as_str` returns for a named key, empty for the rest.
    pub open spec fn spec_name(self) -> Seq<char> {
        match self {
            Key::MouseLeft => "MouseLeft"@,
            Key::Windows => "Windows"@,
            Key::Backspace => "Backspace"@,
            Key::A => "a"@,
            Key::B => "b"@,
            Key::C => "c"@,
            Key::D => "d"@,
            Key::E => "e"@,
            Key::F => "f"@,
            Key::G => "g"@,
            Key::H => "h"@,
            Key::I => "i"@,
            Key::J => "j"@,
            Key::K => "k"@,
            Key::L => "l"@,
            Key::M => "m"@,
            Key::N => "n"@,
            Key::O => "o"@,
            Key::P => "p"@,
            Key::Q => "q"@,
            Key::R => "r"@,
            Key::S => "s"@,
            Key::T => "t"@,
            Key::U => "u"@,
            Key::V => "v"@,
            Key::W => "w"@,
            Key::X => "x"@,
            Key::Y => "y"@,
            Key::Z => "z"@,
            _ => Seq::empty(),
        }
    }

    /// Text used when typing a key's letter into a search field; the keys
    /// without one are left out by the precondition.
    pub fn as_str<'a>(&self) -> (r: &'a str)
        requires
            self.has_name(),
        ensures
            r@ == self.spec_name(),
    {
        match self {
            Key::MouseLeft => "MouseLeft",
            Key::Windows => "Windows",
            Key::Backspace => "Backspace",
            Key::A => "a",
            Key::B => "b",
            Key::C => "c",
            Key::D => "d",
            Key::E => "e",
            Key::F => "f",
            Key::G => "g",
            Key::H => "h",
            Key::I => "i",
            Key::J => "j",
            Key::K => "k",
            Key::L => "l",
            Key::M => "m",
            Key::N => "n",
            Key::O => "o",
            Key::P => "p",
            Key::Q => "q",
            Key::R => "r",
            Key::S => "s",
            Key::T => "t",
            Key::U => "u",
            Key::V => "v",
            Key::W => "w",
            Key::X => "x",
            Key::Y => "y",
            Key::Z => "z",
            Key::MouseRight => "",
            Key::ArrowDown => "",
            Key::ArrowUp => "",
            Key::Enter => "",
        }
    }
}

/// Per-key input state, one slot per [`Key`].
pub struct KeyboardMouseState {
    states: Vec<InputState>,
}

impl KeyboardMouseState {
    /// One slot per key.
    pub closed spec fn wf(self) -> bool {
        self.states@.len() == KEY_COUNT
    }

    /// The state currently recorded for a key.
    pub closed spec fn state_of(self, k: Key) -> InputState {
        self.states@[k.spec_index()]
    }

    /// Fresh state: no key held, no key changed.
    pub fn new() -> (r: KeyboardMouseState)
        ensures
            r.wf(),
            forall|k: Key| !(#[trigger] r.state_of(k)).active && !r.state_of(k).just_changed,
    {
        let mut states: Vec<InputState> = Vec::new();
        let mut i: usize = 0;
        while i < KEY_COUNT
            invariant
                i <= KEY_COUNT,
                states@.len() == i,
                forall|j: int|
                    0 <= j < i ==> !(#[trigger] states@[j]).active && !states@[j].just_changed,
            decreases KEY_COUNT - i,
        {
            states.push(InputState { active: false, just_changed: false });
            i = i + 1;
        }
        KeyboardMouseState { states }
    }

    /// Records one transition from the hook boundary: a press marks the key
    /// active and just-changed, a release marks it inactive and
    /// just-changed, and anything else changes nothing.
    pub fn apply_event(&mut self, ev: KeyEvent)
        requires
            old(self).wf(),
        ensures
            final(self).wf(),
            ev matches KeyEvent::ButtonDown(k) ==> final(self).state_of(k)
                == (InputState { active: true, just_changed: true }),
            ev matches KeyEvent::ButtonUp(k) ==> final(self).state_of(k)
                == (InputState { active: false, just_changed: true }),
            ev is Other ==> *final(self) == *old(self),
            forall|k2: Key|
                (match ev {
                    KeyEvent::ButtonDown(k) => k2 != k,
                    KeyEvent::ButtonUp(k) => k2 != k,
                    KeyEvent::Other => true,
                }) ==> #[trigger] final(self).state_of(k2) == old(self).state_of(k2),
    {
        match ev {
            KeyEvent::ButtonDown(k) => {
                let i = k.index();
                self.states.set(i, InputState { active: true, just_changed: true });
                proof {
                    lemma_key_index_injective();
                }
            }
            KeyEvent::ButtonUp(k) => {
                let i = k.index();
                self.states.set(i, InputState { active: false, just_changed: true });
                proof {
                    lemma_key_index_injective();
                }
            }
            KeyEvent::Other => {}
        }
    }

    /// Reads a key's state and consumes its just-changed flag, so the same
    /// transition is never acted on twice.
    pub fn get_input(&mut self, key: Key) -> (r: InputState)
        requires
            old(self).wf(),
        ensures
            final(self).wf(),
            r == old(self).state_of(key),
            final(self).state_of(key) == (InputState { active: r.active, just_changed: false }),
            forall|k2: Key|
                k2 != key ==> #[trigger] final(self).state_of(k2) == old(self).state_of(k2),
    {
        let i = key.index();
        let r = self.states[i];
        if r.just_changed {
            self.states.set(i, InputState { active: r.active, just_changed: false });
        } else {
            proof {
                assert(self.states@ =~= old(self).states@.update(
                    key.spec_index(),
                    InputState { active: r.active, just_changed: false },
                ));
            }
        }
        proof {
            lemma_key_index_injective();
        }
        r
    }

    /// Clears every key's just-changed flag; the manager calls this once at
    /// the end of each frame so a single physical transition is never seen
    /// by two frames.
    pub fn reset_active(&mut self)
        requires
            old(self).wf(),
        ensures
            final(self).wf(),
            forall|k: Key|
                #[trigger] final(self).state_of(k) == (InputState {
                    active: old(self).state_of(k).active,
                    just_changed: false,
                }),
    {
        let mut i: usize = 0;
        while i < KEY_COUNT
            invariant
                i <= KEY_COUNT,
                self.states@.len() == KEY_COUNT,
                forall|j: int|
                    0 <= j < i ==> #[trigger] self.states@[j] == (InputState {
                        active: old(self).states@[j].active,
                        just_changed: false,
                    }),
                forall|j: int| i <= j < KEY_COUNT ==> #[trigger] self.states@[j]
                    == old(self).states@[j],
            decreases KEY_COUNT - i,
        {
            let s = self.states[i];
            self.states.set(i, InputState { active: s.active, just_changed: false });
            i = i + 1;
        }
    }
}

/// Distinct keys occupy distinct slots of the state table.
pub proof fn lemma_key_index_injective()
    ensures
        forall|k1: Key, k2: Key|
            k1.spec_index() == k2.spec_index() ==> k1 == k2,
        forall|k: Key| 0 <= #[trigger] k.spec_index() < KEY_COUNT,
{
}

} // verus!
