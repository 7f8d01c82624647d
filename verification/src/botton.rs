//! The identity of a mouse button.

use vstd::prelude::*;

verus! {

/// Number of distinct buttons, and so of distinct keys: three named ones
/// and one for each code of an unknown one.
pub const KEY_COUNT: u16 = 259;

/// A mouse button as the input source reports it.
#[derive(Clone, Copy, Debug, PartialEq, Eq, Hash, Structural)]
pub enum Button {
    Left,
    Right,
    Middle,
    /// A button that the input source has no name for, with its code.
    Unknown(u8),
}

/// A button as the held set knows it. Two of them are the same button
/// exactly if they are the same variant and, where that is `Unknown`, carry
/// the same code.
#[derive(Clone, Copy, Debug, PartialEq, Eq, Hash, Structural)]
pub struct Botton(pub Button);

impl Botton {
    /// The number that stands for this button in a set of keys: 0, 1 and 2
    /// for the named buttons, 3 plus its code for an unknown one.
    pub open spec fn key_of(self) -> u16 {
        match self.0 {
            Button::Left => 0,
            Button::Right => 1,
            Button::Middle => 2,
            Button::Unknown(code) => (3 + code) as u16,
        }
    }

    /// The button that the key `k` stands for; `Left` where `k` is no key.
    pub open spec fn of_key(k: u16) -> Botton {
        if k == 1 {
            Botton(Button::Right)
        } else if k == 2 {
            Botton(Button::Middle)
        } else if 3 <= k < KEY_COUNT {
            Botton(Button::Unknown((k - 3) as u8))
        } else {
            Botton(Button::Left)
        }
    }

    /// The number that stands for this button in a set of keys.
    pub fn key(&self) -> (k: u16)
        ensures
            k == self.key_of(),
            k < KEY_COUNT,
    {
        match self.0 {
            Button::Left => 0,
            Button::Right => 1,
            Button::Middle => 2,
            Button::Unknown(code) => 3 + code as u16,
        }
    }
}

/// Every button has a key below `KEY_COUNT`, from which `of_key` gives the
/// button back.
pub proof fn lemma_key_round_trip(b: Botton)
    ensures
        b.key_of() < KEY_COUNT,
        Botton::of_key(b.key_of()) == b,
{
}

/// Every number below `KEY_COUNT` is the key of the button that `of_key`
/// gives for it.
pub proof fn lemma_key_onto(k: u16)
    requires
        k < KEY_COUNT,
    ensures
        Botton::of_key(k).key_of() == k,
{
}

/// Two buttons have the same key exactly if they are the same button: in
/// particular unknown buttons with different codes differ.
pub proof fn lemma_key_injective(a: Botton, b: Botton)
    ensures
        a.key_of() == b.key_of() <==> a == b,
{
    lemma_key_round_trip(a);
    lemma_key_round_trip(b);
}

} // verus!
