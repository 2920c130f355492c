//! Simulation core of a small side-scrolling ride that is shown on a
//! monochrome display and steered with three buttons: the channel that carries
//! button events from the interrupt handler to the game loop, the one-time
//! handoff of the button pins to that handler, the fixed-step game state, the
//! scrolling background, and the shapes that one frame is drawn from.
//!
//! Every function is verified against a contract over a mathematical model of
//! the state it works on. The heap-free collections come from `heapless` and
//! the critical section from `critical-section`; what is assumed of them, and
//! not proved, stands in [`fixed`], at the top of [`channel`] and at the top
//! of [`ownership`].

pub mod bg;
pub mod channel;
pub mod draw;
pub mod fixed;
pub mod frame;
pub mod game;
pub mod irq;
pub mod ownership;

use vstd::prelude::*;

verus! {

/// One detected button edge.
#[derive(Clone, Copy, Debug, PartialEq, Eq, Structural)]
pub enum ButtonInput {
    Left,
    Center,
    Right,
}

} // verus!
