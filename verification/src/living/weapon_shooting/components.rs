use vstd::prelude::*;
use vstd::arithmetic::div_mod::{
    lemma_add_mod_noop_right, lemma_mod_add_multiples_vanish, lemma_mod_bound, lemma_small_mod,
};

verus! {

/// The kinds of weapon a character can carry.
#[derive(Debug, Clone, Copy, PartialEq, Eq, Structural)]
pub enum WeaponKind {
    Bow,
    Sword,
    HeavyBow,
    Beam,
}

/// The weapons a character carries and which one is selected.
pub struct WeaponInventory {
    pub slots: Vec<WeaponKind>,
    pub active: usize,
}

/// The index that selecting the next (`forward`) or previous weapon moves to,
/// wrapping around at either end of `len` slots.
pub open spec fn cycled_index(active: int, len: int, forward: bool) -> int {
    if forward {
        (active + 1) % len
    } else {
        (active + len - 1) % len
    }
}

impl WeaponInventory {
    /// The inventory selects a slot that exists.
    pub open spec fn selects_a_slot(&self) -> bool {
        self.active < self.slots@.len()
    }

    /// The currently selected weapon kind, if the selection names a slot.
    pub fn current(&self) -> (kind: Option<WeaponKind>)
        ensures
            self.selects_a_slot() ==> kind == Some(self.slots@[self.active as int]),
            !self.selects_a_slot() ==> kind is None,
    {
        if self.active < self.slots.len() {
            Some(self.slots[self.active])
        } else {
            None
        }
    }

    /// Selects the next (`forward`) or previous weapon, wrapping around.
    /// An empty inventory is left as it is.
    pub fn cycle(&mut self, forward: bool)
        requires
            old(self).slots@.len() > 0 ==> if forward {
                old(self).active < usize::MAX
            } else {
                old(self).active + old(self).slots@.len() <= usize::MAX
            },
        ensures
            final(self).slots@ == old(self).slots@,
            old(self).slots@.len() == 0 ==> final(self).active == old(self).active,
            old(self).slots@.len() > 0 ==> final(self).active == cycled_index(
                old(self).active as int,
                old(self).slots@.len() as int,
                forward,
            ),
            old(self).slots@.len() > 0 ==> final(self).selects_a_slot(),
    {
        proof {
            if self.slots@.len() > 0 {
                lemma_mod_bound(self.active + 1, self.slots@.len() as int);
                lemma_mod_bound(self.active + self.slots@.len() - 1, self.slots@.len() as int);
            }
        }
        if self.slots.len() == 0 {
            return;
        }
        if forward {
            self.active = (self.active + 1) % self.slots.len();
        } else {
            self.active = (self.active + self.slots.len() - 1) % self.slots.len();
        }
    }
}

/// The index reached by selecting the next weapon `steps` times.
pub open spec fn cycled_forward_times(active: int, len: int, steps: nat) -> int
    decreases steps,
{
    if steps == 0 {
        active
    } else {
        cycled_index(cycled_forward_times(active, len, (steps - 1) as nat), len, true)
    }
}

/// Selecting the next weapon and then the previous one selects the weapon
/// that was selected before.
pub proof fn cycle_forward_then_back_restores(active: int, len: int)
    requires
        0 <= active < len,
    ensures
        cycled_index(cycled_index(active, len, true), len, false) == active,
{
    lemma_add_mod_noop_right(len - 1, active + 1, len);
    lemma_mod_add_multiples_vanish(active, len);
    lemma_small_mod(active as nat, len as nat);
}

/// Selecting the previous weapon and then the next one selects the weapon
/// that was selected before.
pub proof fn cycle_back_then_forward_restores(active: int, len: int)
    requires
        0 <= active < len,
    ensures
        cycled_index(cycled_index(active, len, false), len, true) == active,
{
    lemma_add_mod_noop_right(1, active + len - 1, len);
    lemma_mod_add_multiples_vanish(active, len);
    lemma_small_mod(active as nat, len as nat);
}

/// Selecting the next weapon `steps` times moves the selection `steps` slots
/// on, modulo the number of slots.
pub proof fn cycle_forward_times_wraps(active: int, len: int, steps: nat)
    requires
        0 <= active < len,
    ensures
        cycled_forward_times(active, len, steps) == (active + steps) % len,
    decreases steps,
{
    if steps == 0 {
        lemma_small_mod(active as nat, len as nat);
    } else {
        cycle_forward_times_wraps(active, len, (steps - 1) as nat);
        lemma_add_mod_noop_right(1, active + steps - 1, len);
    }
}

/// Selecting the next weapon as many times as there are slots comes back to
/// the weapon selected at the start.
pub proof fn cycle_through_all_slots_returns(active: int, len: int)
    requires
        0 <= active < len,
    ensures
        cycled_forward_times(active, len, len as nat) == active,
{
    cycle_forward_times_wraps(active, len, len as nat);
    lemma_mod_add_multiples_vanish(active, len);
    lemma_small_mod(active as nat, len as nat);
}

/// The index reached by selecting the previous weapon `steps` times.
pub open spec fn cycled_backward_times(active: int, len: int, steps: nat) -> int
    decreases steps,
{
    if steps == 0 {
        active
    } else {
        cycled_index(cycled_backward_times(active, len, (steps - 1) as nat), len, false)
    }
}

/// Selecting the previous weapon `steps` times moves the selection `steps`
/// slots back, modulo the number of slots.
pub proof fn cycle_backward_times_wraps(active: int, len: int, steps: nat)
    requires
        0 <= active < len,
    ensures
        cycled_backward_times(active, len, steps) == (active - steps) % len,
    decreases steps,
{
    if steps == 0 {
        lemma_small_mod(active as nat, len as nat);
    } else {
        cycle_backward_times_wraps(active, len, (steps - 1) as nat);
        lemma_add_mod_noop_right(len - 1, active - steps + 1, len);
        lemma_mod_add_multiples_vanish(active - steps, len);
    }
}

/// Selecting the previous weapon as many times as there are slots comes back
/// to the weapon selected at the start.
pub proof fn cycle_back_through_all_slots_returns(active: int, len: int)
    requires
        0 <= active < len,
    ensures
        cycled_backward_times(active, len, len as nat) == active,
{
    cycle_backward_times_wraps(active, len, len as nat);
    lemma_mod_add_multiples_vanish(active - len, len);
    lemma_small_mod(active as nat, len as nat);
}

} // verus!
