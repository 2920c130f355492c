//! The one-time handoff of the input pins from the code that sets them up to
//! the interrupt handler that serves them afterwards.

use vstd::prelude::*;

verus! {

/// Puts `incoming` into the slot and returns what the slot held.
fn exchange<P>(slot: &mut Option<P>, incoming: Option<P>) -> (previous: Option<P>)
    ensures
        previous == *old(slot),
        *final(slot) == incoming,
{
    let mut held = incoming;
    core::mem::swap(slot, &mut held);
    held
}

/// `critical_section::with`: the closure runs exactly once, with interrupts
/// held off, and what it returns is returned. The closure is [`exchange`], so
/// the slot ends up holding `incoming` and its previous content is returned.
#[verifier::external_body]
fn exchange_guarded<P>(slot: &mut Option<P>, incoming: Option<P>) -> (previous: Option<P>)
    ensures
        previous == *old(slot),
        *final(slot) == incoming,
{
    critical_section::with(|_cs| exchange(slot, incoming))
}

/// What a call of [`InputOwnership::take`] returns for a slot that holds
/// `slot`.
pub open spec fn taken<P>(slot: Option<P>) -> Option<P> {
    slot
}

/// What the slot holds after a call of [`InputOwnership::take`].
pub open spec fn after_take<P>(slot: Option<P>) -> Option<P> {
    None
}

/// A slot for the input pins. The setup code deposits them here; the
/// interrupt handler takes them out on its first run, after which the slot
/// stays empty. Its view is what the slot holds.
pub struct InputOwnership<P> {
    slot: Option<P>,
}

impl<P> View for InputOwnership<P> {
    type V = Option<P>;

    closed spec fn view(&self) -> Option<P> {
        self.slot
    }
}

impl<P> InputOwnership<P> {
    /// An empty slot.
    pub fn new() -> (registry: InputOwnership<P>)
        ensures
            registry@ is None,
    {
        InputOwnership { slot: None }
    }

    /// Puts the pins into the slot, inside a critical section. Whatever the
    /// slot held before is dropped.
    pub fn deposit(&mut self, pins: P)
        ensures
            final(self)@ == Some(pins),
    {
        let _ = exchange_guarded(&mut self.slot, Some(pins));
    }

    /// Takes the pins out of the slot, inside a critical section. Returns
    /// what the slot held and leaves it empty, so that every later call
    /// returns `None`.
    pub fn take(&mut self) -> (pins: Option<P>)
        ensures
            pins == taken(old(self)@),
            final(self)@ == after_take(old(self)@),
    {
        exchange_guarded(&mut self.slot, None)
    }
}

/// Taking is idempotent: whatever the slot held, a second take right after
/// the first returns nothing and leaves the slot empty.
pub proof fn lemma_second_take_is_empty<P>(slot: Option<P>)
    ensures
        taken(after_take(slot)) is None,
        after_take(after_take(slot)) == after_take(slot),
{
}

} // verus!
