//! The set of buttons that are held down, and the bonus it is worth.

use crate::botton::{lemma_key_injective, lemma_key_onto, lemma_key_round_trip, Botton, KEY_COUNT};
use std::collections::HashSet;
use vstd::prelude::*;
use vstd::set_lib::{lemma_int_range, lemma_len_subset, lemma_map_size, set_int_range};

verus! {

/// Power that each held button adds to the output, a half.
pub const HELD_WEIGHT: u64 = 50_000;

/// The bonus that a set of held buttons is worth.
pub open spec fn bonus_of(held: Set<Botton>) -> nat {
    held.len() * HELD_WEIGHT as nat
}

/// A press or a release of a button.
pub enum HeldOp {
    /// The button goes down.
    Press(Botton),
    /// The button comes up.
    Release(Botton),
}

/// The held buttons after `op`.
pub open spec fn held_after_op(held: Set<Botton>, op: HeldOp) -> Set<Botton> {
    match op {
        HeldOp::Press(b) => held.insert(b),
        HeldOp::Release(b) => held.remove(b),
    }
}

/// The held buttons after the presses and releases `ops`, first to last.
pub open spec fn held_after_ops(held: Set<Botton>, ops: Seq<HeldOp>) -> Set<Botton>
    decreases ops.len(),
{
    if ops.len() == 0 {
        held
    } else {
        held_after_op(held_after_ops(held, ops.drop_last()), ops.last())
    }
}

/// `b` was pressed at place `i` of `ops` and not released after that.
pub open spec fn pressed_since(ops: Seq<HeldOp>, b: Botton, i: int) -> bool {
    &&& 0 <= i < ops.len()
    &&& ops[i] == HeldOp::Press(b)
    &&& forall|j: int| i < j < ops.len() ==> ops[j] != HeldOp::Release(b)
}

/// The buttons that were pressed and not released since.
pub struct HeldSet {
    keys: HashSet<u16>,
}

/// The buttons whose keys `keys` holds.
spec fn buttons_of(keys: Set<u16>) -> Set<Botton> {
    Set::new(|b: Botton| keys.contains(b.key_of()))
}

/// Every number in `keys` is the key of a button.
spec fn all_keys(keys: Set<u16>) -> bool {
    forall|k: u16| keys.contains(k) ==> k < KEY_COUNT
}

impl View for HeldSet {
    type V = Set<Botton>;

    closed spec fn view(&self) -> Set<Botton> {
        buttons_of(self.keys@)
    }
}

/// A finite set of keys stands for as many buttons as it has members, and
/// for no more than there are keys.
proof fn lemma_buttons_len(keys: Set<u16>)
    requires
        keys.finite(),
        all_keys(keys),
    ensures
        buttons_of(keys).finite(),
        buttons_of(keys).len() == keys.len(),
        keys.len() <= KEY_COUNT,
{
    let to_button = |k: u16| Botton::of_key(k);
    assert forall|k1: u16, k2: u16|
        keys.contains(k1) && keys.contains(k2) && #[trigger] to_button(k1) == #[trigger] to_button(
            k2,
        ) implies k1 == k2 by {
        lemma_key_onto(k1);
        lemma_key_onto(k2);
    }
    assert(keys.map(to_button) =~= buttons_of(keys)) by {
        assert forall|b: Botton| buttons_of(keys).contains(b) implies keys.map(to_button).contains(
            b,
        ) by {
            lemma_key_round_trip(b);
            assert(keys.contains(b.key_of()) && b == to_button(b.key_of()));
        }
        assert forall|b: Botton| keys.map(to_button).contains(b) implies buttons_of(keys).contains(
            b,
        ) by {
            let k = choose|k: u16| keys.contains(k) && b == to_button(k);
            lemma_key_onto(k);
        }
    }
    lemma_map_size(keys, buttons_of(keys), to_button);

    let to_int = |k: u16| k as int;
    let ints = keys.map(to_int);
    lemma_map_size(keys, ints, to_int);
    lemma_int_range(0, KEY_COUNT as int);
    assert(ints.subset_of(set_int_range(0, KEY_COUNT as int)));
    lemma_len_subset(ints, set_int_range(0, KEY_COUNT as int));
}

impl HeldSet {
    #[verifier::type_invariant]
    spec fn keys_are_buttons(self) -> bool {
        self.keys@.finite() && all_keys(self.keys@)
    }

    /// A set in which no button is held.
    pub fn new() -> (held: Self)
        ensures
            held@ == Set::<Botton>::empty(),
    {
        let held = HeldSet { keys: HashSet::new() };
        assert(held@ =~= Set::<Botton>::empty());
        held
    }

    /// Moves the keys out and leaves an empty set behind. The keys change
    /// outside the set, which is so well formed wherever a call could fail.
    fn take_keys(&mut self) -> (keys: HashSet<u16>)
        ensures
            keys@ == old(self).keys@,
            keys@.finite(),
            all_keys(keys@),
    {
        proof {
            use_type_invariant(&*self);
        }
        let mut taken = HeldSet { keys: HashSet::new() };
        core::mem::swap(self, &mut taken);
        taken.keys
    }

    /// Marks `b` as held. Pressing a button that is held changes nothing.
    pub fn on_press(&mut self, b: Botton)
        ensures
            final(self)@ == old(self)@.insert(b),
    {
        broadcast use vstd::std_specs::hash::group_hash_axioms;

        let k: u16 = b.key();
        let mut keys = self.take_keys();
        keys.insert(k);
        *self = HeldSet { keys };
        proof {
            assert forall|other: Botton|
                buttons_of(self.keys@).contains(other) <==> buttons_of(old(self).keys@).insert(
                    b,
                ).contains(other) by {
                lemma_key_injective(other, b);
            }
            assert(buttons_of(self.keys@) =~= buttons_of(old(self).keys@).insert(b));
        }
    }

    /// Marks `b` as no longer held. Releasing a button that is not held
    /// changes nothing.
    pub fn on_release(&mut self, b: Botton)
        ensures
            final(self)@ == old(self)@.remove(b),
    {
        broadcast use vstd::std_specs::hash::group_hash_axioms;

        let k: u16 = b.key();
        let mut keys = self.take_keys();
        keys.remove(&k);
        *self = HeldSet { keys };
        proof {
            assert forall|other: Botton|
                buttons_of(self.keys@).contains(other) <==> buttons_of(old(self).keys@).remove(
                    b,
                ).contains(other) by {
                lemma_key_injective(other, b);
            }
            assert(buttons_of(self.keys@) =~= buttons_of(old(self).keys@).remove(b));
        }
    }

    /// Whether `b` is held.
    pub fn is_held(&self, b: Botton) -> (held: bool)
        ensures
            held == self@.contains(b),
    {
        broadcast use vstd::std_specs::hash::group_hash_axioms;

        let k: u16 = b.key();
        self.keys.contains(&k)
    }

    /// The number of buttons that are held.
    pub fn count(&self) -> (n: usize)
        ensures
            n == self@.len(),
            self@.finite(),
            n <= KEY_COUNT,
    {
        broadcast use vstd::std_specs::hash::group_hash_axioms;

        proof {
            use_type_invariant(self);
            lemma_buttons_len(self.keys@);
        }
        self.keys.len()
    }

    /// The power that the held buttons add to the output: `HELD_WEIGHT` for
    /// each of them.
    pub fn bonus(&self) -> (power: u64)
        ensures
            power == bonus_of(self@),
    {
        let n: usize = self.count();
        assert(n * HELD_WEIGHT <= KEY_COUNT * HELD_WEIGHT) by (nonlinear_arith)
            requires
                n <= KEY_COUNT,
        ;
        n as u64 * HELD_WEIGHT
    }
}

/// Pressing a button that is held, or releasing one that is not, leaves
/// the held set and its bonus as they were; so pressing or releasing twice
/// is the same as doing so once.
pub proof fn lemma_press_release_idempotent(held: Set<Botton>, b: Botton)
    ensures
        held.contains(b) ==> held.insert(b) == held,
        !held.contains(b) ==> held.remove(b) == held,
        held.insert(b).insert(b) == held.insert(b),
        held.remove(b).remove(b) == held.remove(b),
        bonus_of(held.insert(b).insert(b)) == bonus_of(held.insert(b)),
        bonus_of(held.remove(b).remove(b)) == bonus_of(held.remove(b)),
{
    if held.contains(b) {
        assert(held.insert(b) =~= held);
    } else {
        assert(held.remove(b) =~= held);
    }
    assert(held.insert(b).insert(b) =~= held.insert(b));
    assert(held.remove(b).remove(b) =~= held.remove(b));
}

/// Starting with no button held, a button is held after any presses and
/// releases exactly if it was pressed and not released since; the set is
/// finite, with at most one button for each press.
pub proof fn lemma_held_iff_pressed_since(ops: Seq<HeldOp>, b: Botton)
    ensures
        held_after_ops(Set::empty(), ops).contains(b) <==> exists|i: int|
            pressed_since(ops, b, i),
        held_after_ops(Set::empty(), ops).finite(),
        held_after_ops(Set::empty(), ops).len() <= ops.len(),
    decreases ops.len(),
{
    if ops.len() > 0 {
        let before = ops.drop_last();
        let end = ops.len() - 1;
        lemma_held_iff_pressed_since(before, b);
        if ops.last() == HeldOp::Press(b) {
            assert(pressed_since(ops, b, end));
        } else if ops.last() == HeldOp::Release(b) {
            assert forall|i: int| !pressed_since(ops, b, i) by {
                if 0 <= i < end {
                    assert(ops[end] == HeldOp::Release(b));
                }
            }
        } else {
            if exists|i: int| pressed_since(before, b, i) {
                let i = choose|i: int| pressed_since(before, b, i);
                assert forall|j: int| i < j < ops.len() implies ops[j] != HeldOp::Release(b) by {
                    if j < end {
                        assert(ops[j] == before[j]);
                    }
                }
                assert(pressed_since(ops, b, i));
            }
            if exists|i: int| pressed_since(ops, b, i) {
                let i = choose|i: int| pressed_since(ops, b, i);
                assert(ops[i] == before[i]);
                assert forall|j: int| i < j < before.len() implies before[j] != HeldOp::Release(
                    b,
                ) by {
                    assert(ops[j] == before[j]);
                }
                assert(pressed_since(before, b, i));
            }
        }
    }
}

/// A press of a button that was not held adds exactly `HELD_WEIGHT` to the
/// bonus, a release of one that was held takes exactly that off, and with
/// no button held the bonus is nothing.
pub proof fn lemma_bonus_steps(held: Set<Botton>, b: Botton)
    requires
        held.finite(),
    ensures
        !held.contains(b) ==> bonus_of(held.insert(b)) == bonus_of(held) + HELD_WEIGHT,
        held.contains(b) ==> bonus_of(held.remove(b)) + HELD_WEIGHT == bonus_of(held),
        bonus_of(Set::empty()) == 0,
{
    assert((held.len() + 1) * HELD_WEIGHT as nat == held.len() * HELD_WEIGHT as nat + HELD_WEIGHT)
        by (nonlinear_arith);
    if held.contains(b) {
        assert(held.remove(b).len() + 1 == held.len());
        assert((held.remove(b).len() + 1) * HELD_WEIGHT as nat == held.remove(b).len()
            * HELD_WEIGHT as nat + HELD_WEIGHT) by (nonlinear_arith);
    }
}

} // verus!
