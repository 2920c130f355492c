//! What the button interrupt handler decides: when it takes over the pins,
//! which button it serves, and what it sends to the game loop. Reading and
//! clearing the pins' flags is left to the caller.

use crate::channel::{offered, EventChannel};
use crate::ownership::InputOwnership;
use crate::ButtonInput;
use vstd::prelude::*;

verus! {

/// The edge-interrupt flags of the three button pins, as read at the start of
/// one run of the handler.
#[derive(Clone, Copy, Debug, PartialEq, Eq, Structural)]
pub struct EdgeFlags {
    pub left: bool,
    pub center: bool,
    pub right: bool,
}

/// The button that one run of the handler serves: the first whose flag is
/// set, in the order left, center, right.
pub open spec fn first_edge(flags: EdgeFlags) -> Option<ButtonInput> {
    if flags.left {
        Some(ButtonInput::Left)
    } else if flags.center {
        Some(ButtonInput::Center)
    } else if flags.right {
        Some(ButtonInput::Right)
    } else {
        None
    }
}

/// What the channel holds after a run of the handler that saw `flags`.
pub open spec fn after_edges(events: Seq<ButtonInput>, flags: EdgeFlags) -> Seq<ButtonInput> {
    match first_edge(flags) {
        Some(event) => offered(events, event),
        None => events,
    }
}

/// Serves one interrupt: the first button whose flag is set is sent to the
/// channel, where a full channel drops it. Returns that button, whose flag
/// the caller then clears, or `None` if no flag was set.
pub fn dispatch_edge(flags: EdgeFlags, channel: &mut EventChannel) -> (served: Option<ButtonInput>)
    ensures
        served == first_edge(flags),
        final(channel)@ == after_edges(old(channel)@, flags),
{
    if flags.left {
        let _ = channel.enqueue(ButtonInput::Left);
        Some(ButtonInput::Left)
    } else if flags.center {
        let _ = channel.enqueue(ButtonInput::Center);
        Some(ButtonInput::Center)
    } else if flags.right {
        let _ = channel.enqueue(ButtonInput::Right);
        Some(ButtonInput::Right)
    } else {
        None
    }
}

/// The interrupt handler's own storage for the pins. It starts out empty and
/// is filled from the registry by the first run that finds the pins there;
/// from then on the registry is left alone. Its view is the pins it holds.
pub struct InterruptBridge<P> {
    pins: Option<P>,
}

impl<P> View for InterruptBridge<P> {
    type V = Option<P>;

    closed spec fn view(&self) -> Option<P> {
        self.pins
    }
}

impl<P> InterruptBridge<P> {
    /// A handler that has not taken the pins yet.
    pub fn new() -> (bridge: InterruptBridge<P>)
        ensures
            bridge@ is None,
    {
        InterruptBridge { pins: None }
    }

    /// Makes sure the handler has the pins if they can be had: a handler
    /// without pins takes what the registry holds and leaves it empty; one
    /// that has them does not touch the registry.
    pub fn acquire(&mut self, registry: &mut InputOwnership<P>)
        ensures
            old(self)@ is Some ==> final(self)@ == old(self)@,
            old(self)@ is Some ==> final(registry)@ == old(registry)@,
            old(self)@ is None ==> final(self)@ == old(registry)@,
            old(self)@ is None ==> final(registry)@ is None,
    {
        if self.pins.is_none() {
            self.pins = registry.take();
        }
    }

    /// The pins, once the handler has them.
    pub fn pins(&self) -> (pins: Option<&P>)
        ensures
            pins is Some <==> self@ is Some,
            pins is Some ==> *pins->Some_0 == self@->Some_0,
    {
        self.pins.as_ref()
    }

    /// The pins, once the handler has them, for clearing their flags. The
    /// handler keeps whatever the caller leaves behind the reference.
    pub fn pins_mut(&mut self) -> (pins: Option<&mut P>)
        ensures
            pins is Some <==> old(self)@ is Some,
            pins is Some ==> *pins->Some_0 == old(self)@->Some_0,
            pins is Some ==> final(self)@ == Some(*final(pins->Some_0)),
            pins is None ==> final(self)@ is None,
    {
        self.pins.as_mut()
    }
}

} // verus!
