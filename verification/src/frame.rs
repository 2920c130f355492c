//! One pass of the game loop: the waiting button events are applied, the game
//! and the background move on by one tick, and the frame's shapes are laid
//! out. Drawing the random bits and putting the shapes on the display is
//! left to the caller.

use crate::bg::{wrap_shift, Background, ScrollState};
use crate::channel::EventChannel;
use crate::draw::Shape;
use crate::fixed::{bits_new, bits_of, bits_push};
use crate::game::{
    lemma_input_keeps_bounds, lemma_reward_range, lemma_tick_keeps_bounds,
    lemma_tick_never_lowers_score, riders, Game, GameState,
};
use crate::ButtonInput;
use vstd::prelude::*;

verus! {

/// The game after the presses `inputs` were applied, first one first.
pub open spec fn after_inputs(state: GameState, inputs: Seq<ButtonInput>) -> GameState
    decreases inputs.len(),
{
    if inputs.len() == 0 {
        state
    } else {
        after_inputs(state.after_input(inputs.first()), inputs.drop_first())
    }
}

/// Whether a game and a background can take one more step within the
/// machine's integers: the score has room for the next reward, and the near
/// layer for the next shift.
pub open spec fn has_headroom(game: GameState, scroll: ScrollState) -> bool {
    &&& game.score + game.next_reward() <= i32::MAX
    &&& i32::MIN <= wrap_shift(scroll.near_bg_shift, -game.player_velocity)
}

/// Everything that is drawn for one frame, back to front: the background,
/// the player, the companions, the score.
pub open spec fn frame_shapes(game: GameState, scroll: ScrollState) -> Seq<Shape> {
    scroll.shapes() + game.player_shapes() + riders(game.friends) + seq![game.score_shape()]
}

/// Applies every waiting event to the game, oldest first, and leaves the
/// channel empty.
pub fn drain_inputs(channel: &mut EventChannel, game: &mut Game)
    ensures
        final(channel)@.len() == 0,
        final(game)@ == after_inputs(old(game)@, old(channel)@),
        final(game)@.wf(),
{
    proof {
        use_type_invariant(&*game);
    }
    loop
        invariant
            after_inputs(game@, channel@) == after_inputs(old(game)@, old(channel)@),
            game@.wf(),
        ensures
            channel@.len() == 0,
            game@ == after_inputs(old(game)@, old(channel)@),
            game@.wf(),
        decreases channel@.len(),
    {
        match channel.dequeue() {
            Some(input) => game.process_input(input),
            None => break,
        }
    }
}

/// The three random bits of one tick as the vector that the game takes.
pub fn random_triple(first: bool, second: bool, third: bool) -> (bits: heapless::Vec<bool, 3>)
    ensures
        bits_of(bits) == seq![first, second, third],
{
    let mut bits = bits_new();
    let _ = bits_push(&mut bits, first);
    let _ = bits_push(&mut bits, second);
    let _ = bits_push(&mut bits, third);
    assert(bits_of(bits) =~= seq![first, second, third]);
    bits
}

/// Runs one pass of the game loop and returns what is to be drawn.
///
/// The waiting events are applied in the order they arrived; the game takes
/// one tick with the three random bits; the background's near layer moves
/// left by the player's velocity.
pub fn advance_frame(
    channel: &mut EventChannel,
    game: &mut Game,
    background: &mut Background,
    first: bool,
    second: bool,
    third: bool,
) -> (shapes: Vec<Shape>)
    requires
        has_headroom(after_inputs(old(game)@, old(channel)@), old(background)@),
    ensures
        final(channel)@.len() == 0,
        final(game)@ == after_inputs(old(game)@, old(channel)@).after_tick(
            seq![first, second, third],
        ),
        final(background)@ == old(background)@.shifted(-final(game)@.player_velocity),
        shapes@ == frame_shapes(final(game)@, final(background)@),
{
    drain_inputs(channel, game);
    game.tick(random_triple(first, second, third));
    background.shift_bg(-game.player_velocity());
    let mut shapes = background.draw_bg();
    let mut player = game.draw_player_character();
    shapes.append(&mut player);
    let mut friends = game.draw_friend_characters();
    shapes.append(&mut friends);
    shapes.push(game.draw_score());
    shapes
}

/// What one pass of the game loop is handed: the presses that waited in the
/// channel, and the random bits of its tick.
pub struct FrameInput {
    pub presses: Seq<ButtonInput>,
    pub bits: Seq<bool>,
}

/// The game after the passes `frames` of the game loop, first one first.
pub open spec fn after_frames(state: GameState, frames: Seq<FrameInput>) -> GameState
    decreases frames.len(),
{
    if frames.len() == 0 {
        state
    } else {
        let last = frames.last();
        after_inputs(after_frames(state, frames.drop_last()), last.presses).after_tick(last.bits)
    }
}

/// Button presses keep every field within its band and leave the score
/// alone.
pub proof fn lemma_inputs_keep_bounds(state: GameState, inputs: Seq<ButtonInput>)
    requires
        state.wf(),
    ensures
        after_inputs(state, inputs).wf(),
        after_inputs(state, inputs).score == state.score,
    decreases inputs.len(),
{
    if inputs.len() > 0 {
        lemma_input_keeps_bounds(state, inputs.first());
        lemma_inputs_keep_bounds(state.after_input(inputs.first()), inputs.drop_first());
    }
}

/// Button presses leave the score alone, whatever state they start from.
pub proof fn lemma_inputs_keep_score(state: GameState, inputs: Seq<ButtonInput>)
    ensures
        after_inputs(state, inputs).score == state.score,
    decreases inputs.len(),
{
    if inputs.len() > 0 {
        lemma_inputs_keep_score(state.after_input(inputs.first()), inputs.drop_first());
    }
}

/// Whatever is pressed and whatever the random bits are, after any number of
/// passes the player velocity is within `[1, 20]`, every companion velocity
/// within `[2, 19]`, and every other field within its band.
pub proof fn lemma_frames_keep_bounds(state: GameState, frames: Seq<FrameInput>)
    requires
        state.wf(),
    ensures
        after_frames(state, frames).wf(),
        1 <= after_frames(state, frames).player_velocity <= 20,
        forall|i: int|
            0 <= i < 3 ==> 2 <= (#[trigger] after_frames(state, frames).friends[i]).velocity <= 19,
    decreases frames.len(),
{
    if frames.len() > 0 {
        let last = frames.last();
        let earlier = after_frames(state, frames.drop_last());
        lemma_frames_keep_bounds(state, frames.drop_last());
        lemma_inputs_keep_bounds(earlier, last.presses);
        lemma_tick_keeps_bounds(after_inputs(earlier, last.presses), last.bits);
    }
}

/// The score never goes down: whatever state the game starts from, after the
/// first `earlier` of any passes it is no higher than after all of them.
pub proof fn lemma_frames_never_lower_score(
    state: GameState,
    frames: Seq<FrameInput>,
    earlier: int,
)
    requires
        0 <= earlier <= frames.len(),
    ensures
        after_frames(state, frames.take(earlier)).score <= after_frames(state, frames).score,
    decreases frames.len() - earlier,
{
    if earlier < frames.len() {
        let last = frames.last();
        let before = after_frames(state, frames.drop_last());
        lemma_frames_never_lower_score(state, frames.drop_last(), earlier);
        assert(frames.drop_last().take(earlier) =~= frames.take(earlier));
        lemma_inputs_keep_score(before, last.presses);
        lemma_tick_never_lowers_score(after_inputs(before, last.presses), last.bits);
    } else {
        assert(frames.take(earlier) =~= frames);
    }
}

/// A game whose score is at least 390 below the machine's limit, beside a
/// background whose near layer is within 276 pixels left of the origin, has
/// room for one more pass, whatever is pressed before it.
pub proof fn lemma_headroom(state: GameState, scroll: ScrollState, inputs: Seq<ButtonInput>)
    requires
        state.wf(),
        state.score <= i32::MAX - 390,
        -276 < scroll.near_bg_shift <= 0,
    ensures
        has_headroom(after_inputs(state, inputs), scroll),
{
    let pressed = after_inputs(state, inputs);
    lemma_inputs_keep_bounds(state, inputs);
    lemma_reward_range(pressed.next_player_offset(), pressed.friends);
}

} // verus!
