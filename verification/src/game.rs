//! The game itself: the player's velocity, the companions that ride along,
//! and the score, advanced one tick at a time.

use crate::draw::{draw_character, rider, Point, Shape, Style};
use crate::fixed::{
    bits_of, bits_slice, friends_new, friends_of, friends_push, friends_set, friends_slice,
};
use crate::ButtonInput;
use vstd::prelude::*;

verus! {

/// Highest player velocity.
pub const VELO_MAX: i32 = 20;

/// Lowest player velocity.
pub const VELO_MIN: i32 = 1;

/// Highest companion velocity.
pub const FRIEND_VELO_MAX: i32 = 19;

/// Lowest companion velocity.
pub const FRIEND_VELO_MIN: i32 = 2;

/// Companion offsets stay strictly below this.
pub const FRIEND_OFFSET_MAX: i32 = 250;

/// Companion offsets stay strictly above this.
pub const FRIEND_OFFSET_MIN: i32 = -250;

/// Companion velocities and the score change on every this-many-th tick.
pub const TICK_COUNTER_MAX: i32 = 40;

/// Horizontal position around which the riders are drawn.
pub const MIDPOINT: i32 = 60;

/// Height at which the player is drawn.
pub const PLAYER_Y: i32 = 54;

/// Height at which the companions are drawn.
pub const FRIEND_Y: i32 = 44;

/// Direction of a velocity change.
#[derive(Clone, Copy, Debug, PartialEq, Eq, Structural)]
pub enum Shift {
    Up,
    Down,
}

/// A companion rider: where it is relative to the screen's midpoint, and how
/// fast it rides.
#[derive(Clone, Copy, Debug, PartialEq, Eq, Structural)]
pub struct Friend {
    pub position_offset: i32,
    pub velocity: i32,
}

/// The player velocity after one button press in direction `shift`.
pub open spec fn shifted_velocity(velocity: int, shift: Shift) -> int {
    match shift {
        Shift::Up => if velocity + 1 < 20 { velocity + 1 } else { 20 },
        Shift::Down => if velocity - 1 > 1 { velocity - 1 } else { 1 },
    }
}

/// The points that a companion at `friend_offset` earns the player at
/// `player_offset`: ten for every pixel closer than thirteen.
pub open spec fn proximity_reward(player_offset: int, friend_offset: int) -> int {
    let distance = if player_offset >= friend_offset {
        player_offset - friend_offset
    } else {
        friend_offset - player_offset
    };
    if distance < 13 {
        (13 - distance) * 10
    } else {
        0
    }
}

impl Friend {
    /// Velocity and offset are within the bands that the game keeps them in.
    pub open spec fn in_bounds(self) -> bool {
        &&& 2 <= self.velocity <= 19
        &&& -250 < self.position_offset < 250
    }

    /// This companion with its velocity one higher (`up`) or one lower, held
    /// within `[2, 19]`.
    pub open spec fn nudged(self, up: bool) -> Friend {
        let velocity = if up {
            if self.velocity + 1 < 19 { self.velocity + 1 } else { 19 }
        } else {
            if self.velocity - 1 > 2 { self.velocity - 1 } else { 2 }
        };
        Friend { position_offset: self.position_offset, velocity: velocity as i32 }
    }

    /// The offset this companion would have after one tick if nothing held it
    /// back.
    pub open spec fn candidate_offset(self, player_velocity: int) -> int {
        self.position_offset + (self.velocity - player_velocity)
    }

    /// This companion after one tick beside a player riding at
    /// `player_velocity`: it moves by the difference of the velocities, unless
    /// that would take it out of `(-250, 250)`, in which case it stays.
    pub open spec fn advanced(self, player_velocity: int) -> Friend {
        let candidate = self.candidate_offset(player_velocity);
        if -250 < candidate < 250 {
            Friend { position_offset: candidate as i32, velocity: self.velocity }
        } else {
            self
        }
    }

    /// Nudges the velocity by one, up or down, within `[2, 19]`.
    pub fn nudge(self, up: bool) -> (nudged: Friend)
        requires
            up ==> self.velocity < i32::MAX,
            !up ==> self.velocity > i32::MIN,
        ensures
            nudged == self.nudged(up),
    {
        let velocity: i32 = if up {
            if self.velocity + 1 < FRIEND_VELO_MAX { self.velocity + 1 } else { FRIEND_VELO_MAX }
        } else {
            if self.velocity - 1 > FRIEND_VELO_MIN { self.velocity - 1 } else { FRIEND_VELO_MIN }
        };
        Friend { position_offset: self.position_offset, velocity }
    }

    /// Moves the companion by one tick relative to the player, or leaves it
    /// where it is if the move would leave `(-250, 250)`.
    pub fn advance(self, player_velocity: i32) -> (moved: Friend)
        requires
            i32::MIN <= self.velocity - player_velocity <= i32::MAX,
            i32::MIN <= self.candidate_offset(player_velocity as int) <= i32::MAX,
        ensures
            moved == self.advanced(player_velocity as int),
    {
        let projected: i32 = self.position_offset + (self.velocity - player_velocity);
        if projected < FRIEND_OFFSET_MAX && projected > FRIEND_OFFSET_MIN {
            Friend { position_offset: projected, velocity: self.velocity }
        } else {
            self
        }
    }
}

/// The player velocity after a press: one up, at most 20, or one down, at
/// least 1.
pub fn new_player_velocity(velocity: i32, shift: Shift) -> (changed: i32)
    requires
        shift == Shift::Up ==> velocity < i32::MAX,
        shift == Shift::Down ==> velocity > i32::MIN,
    ensures
        changed == shifted_velocity(velocity as int, shift),
{
    match shift {
        Shift::Up => if velocity + 1 < VELO_MAX { velocity + 1 } else { VELO_MAX },
        Shift::Down => if velocity - 1 > VELO_MIN { velocity - 1 } else { VELO_MIN },
    }
}

/// Points for one companion on a scoring tick.
pub fn score_gain(player_offset: i32, friend_offset: i32) -> (gain: i32)
    requires
        i32::MIN < player_offset - friend_offset <= i32::MAX,
    ensures
        gain == proximity_reward(player_offset as int, friend_offset as int),
{
    let delta: i32 = player_offset - friend_offset;
    let distance: i32 = if delta < 0 { -delta } else { delta };
    let closeness: i32 = 13 - distance;
    if closeness > 0 { closeness * 10 } else { 0 }
}

/// The game as a mathematical value: what [`Game`] holds, without machine
/// limits.
pub struct GameState {
    /// Where the player is drawn relative to the screen's midpoint.
    pub player_position_offset: int,
    /// How fast the player rides.
    pub player_velocity: int,
    /// The lead companion, whose velocity never changes.
    pub lead: Friend,
    /// The companions whose velocities drift at random.
    pub friends: Seq<Friend>,
    /// Ticks since the last scoring tick.
    pub sub_tick_counter: int,
    /// Points collected so far.
    pub score: int,
}

/// The points that all of `friends` together earn the player at
/// `player_offset` on a scoring tick.
pub open spec fn total_reward(player_offset: int, friends: Seq<Friend>) -> int
    decreases friends.len(),
{
    if friends.len() == 0 {
        0
    } else {
        total_reward(player_offset, friends.drop_last()) + proximity_reward(
            player_offset,
            friends.last().position_offset as int,
        )
    }
}

/// One companion after one tick: on a scoring tick its velocity is nudged by
/// its random bit first; then it moves relative to the player.
pub open spec fn stepped(friend: Friend, scoring: bool, up: bool, player_velocity: int) -> Friend {
    if scoring {
        friend.nudged(up).advanced(player_velocity)
    } else {
        friend.advanced(player_velocity)
    }
}

/// `friends` with the first `done` of them nudged by their bits.
spec fn nudged_through(friends: Seq<Friend>, bits: Seq<bool>, done: int) -> Seq<Friend> {
    Seq::new(
        friends.len(),
        |i: int|
            if i < done {
                friends[i].nudged(bits[i])
            } else {
                friends[i]
            },
    )
}

/// `friends` with the first `done` of them moved by one tick.
spec fn advanced_through(friends: Seq<Friend>, player_velocity: int, done: int) -> Seq<Friend> {
    Seq::new(
        friends.len(),
        |i: int|
            if i < done {
                friends[i].advanced(player_velocity)
            } else {
                friends[i]
            },
    )
}

/// The shapes of all of `friends`, first companion first: each a filled
/// rider at its offset from the midpoint.
pub open spec fn riders(friends: Seq<Friend>) -> Seq<Shape>
    decreases friends.len(),
{
    if friends.len() == 0 {
        Seq::empty()
    } else {
        riders(friends.drop_last()) + rider(
            Style::Fill,
            Point { x: (60 + friends.last().position_offset) as i32, y: 44 },
        )
    }
}

impl GameState {
    /// Every field is within the band that the game keeps it in.
    pub open spec fn wf(self) -> bool {
        &&& 1 <= self.player_velocity <= 20
        &&& -8 <= self.player_position_offset <= 11
        &&& self.lead.in_bounds()
        &&& self.friends.len() == 3
        &&& forall|i: int| 0 <= i < 3 ==> (#[trigger] self.friends[i]).in_bounds()
        &&& 0 <= self.sub_tick_counter < 40
        &&& 0 <= self.score
    }

    /// The state that every game starts in.
    pub open spec fn initial() -> GameState {
        GameState {
            player_position_offset: 0,
            player_velocity: 4,
            lead: Friend { position_offset: -20i32, velocity: 4 },
            friends: seq![
                Friend { position_offset: 20, velocity: 4 },
                Friend { position_offset: -20i32, velocity: 4 },
                Friend { position_offset: -40i32, velocity: 4 },
            ],
            sub_tick_counter: 0,
            score: 0,
        }
    }

    /// The state after a button press: `Left` slows the player down, `Right`
    /// speeds it up, `Center` changes nothing.
    pub open spec fn after_input(self, input: ButtonInput) -> GameState {
        match input {
            ButtonInput::Left => GameState {
                player_velocity: shifted_velocity(self.player_velocity, Shift::Down),
                ..self
            },
            ButtonInput::Center => self,
            ButtonInput::Right => GameState {
                player_velocity: shifted_velocity(self.player_velocity, Shift::Up),
                ..self
            },
        }
    }

    /// Where the player is drawn once the next tick has run.
    pub open spec fn next_player_offset(self) -> int {
        self.player_velocity - 9
    }

    /// Whether the next tick is a scoring tick: the one on which the tick
    /// counter wraps to zero.
    pub open spec fn scores_next(self) -> bool {
        (self.sub_tick_counter + 1) % 40 == 0
    }

    /// The points that the next tick adds to the score.
    pub open spec fn next_reward(self) -> int {
        if self.scores_next() {
            total_reward(self.next_player_offset(), self.friends)
        } else {
            0
        }
    }

    /// The player as it is drawn: a stroked rider at its offset from the
    /// midpoint.
    pub open spec fn player_shapes(self) -> Seq<Shape> {
        rider(Style::Stroke, Point { x: (60 + self.player_position_offset) as i32, y: 54 })
    }

    /// The score as it is drawn, in the top right corner.
    pub open spec fn score_shape(self) -> Shape {
        Shape::Score { position: Point { x: 92, y: 9 }, value: self.score as i32 }
    }

    /// The state after one tick that was handed `bits`, one random bit for
    /// each companion.
    pub open spec fn after_tick(self, bits: Seq<bool>) -> GameState {
        GameState {
            player_position_offset: self.next_player_offset(),
            player_velocity: self.player_velocity,
            lead: self.lead.advanced(self.player_velocity),
            friends: Seq::new(
                self.friends.len(),
                |i: int|
                    stepped(self.friends[i], self.scores_next(), bits[i], self.player_velocity),
            ),
            sub_tick_counter: (self.sub_tick_counter + 1) % 40,
            score: self.score + self.next_reward(),
        }
    }
}

/// The running game: the player, three companions, the lead companion, the
/// tick counter and the score.
pub struct Game {
    player_position_offset: i32,
    player_velocity: i32,
    lead: Friend,
    friends: heapless::Vec<Friend, 3>,
    sub_tick_counter: i32,
    score: i32,
}

impl View for Game {
    type V = GameState;

    closed spec fn view(&self) -> GameState {
        GameState {
            player_position_offset: self.player_position_offset as int,
            player_velocity: self.player_velocity as int,
            lead: self.lead,
            friends: friends_of(self.friends),
            sub_tick_counter: self.sub_tick_counter as int,
            score: self.score as int,
        }
    }
}

impl Game {
    /// Holds of every value of this type.
    #[verifier::type_invariant]
    pub open spec fn inv(self) -> bool {
        self@.wf()
    }

    /// A new game in its initial state.
    pub fn new() -> (game: Game)
        ensures
            game@ == GameState::initial(),
            game@.wf(),
    {
        let mut friends = friends_new();
        let _ = friends_push(&mut friends, Friend { position_offset: 20, velocity: 4 });
        let _ = friends_push(&mut friends, Friend { position_offset: -20, velocity: 4 });
        let _ = friends_push(&mut friends, Friend { position_offset: -40, velocity: 4 });
        assert(friends_of(friends) =~= GameState::initial().friends);
        Game {
            player_position_offset: 0,
            player_velocity: 4,
            lead: Friend { position_offset: -20, velocity: 4 },
            friends,
            sub_tick_counter: 0,
            score: 0,
        }
    }

    /// Applies one button press to the player velocity.
    pub fn process_input(&mut self, input: ButtonInput)
        ensures
            final(self)@ == old(self)@.after_input(input),
            final(self)@.wf(),
    {
        proof {
            use_type_invariant(&*self);
        }
        match input {
            ButtonInput::Left => self.update_velocities(Shift::Down),
            ButtonInput::Center => (),
            ButtonInput::Right => self.update_velocities(Shift::Up),
        }
    }

    fn update_velocities(&mut self, shift: Shift)
        ensures
            final(self)@ == (GameState {
                player_velocity: shifted_velocity(old(self)@.player_velocity, shift),
                ..old(self)@
            }),
            final(self)@.wf(),
    {
        proof {
            use_type_invariant(&*self);
        }
        self.player_velocity = new_player_velocity(self.player_velocity, shift);
    }

    /// Advances the game by one tick. `random_bits` holds one bit for each
    /// companion; they are used on scoring ticks only.
    pub fn tick(&mut self, random_bits: heapless::Vec<bool, 3>)
        requires
            bits_of(random_bits).len() == 3,
            old(self)@.score + old(self)@.next_reward() <= i32::MAX,
        ensures
            final(self)@ == old(self)@.after_tick(bits_of(random_bits)),
            final(self)@.wf(),
            final(self)@.score >= old(self)@.score,
    {
        proof {
            use_type_invariant(&*self);
            lemma_tick_never_lowers_score(self@, bits_of(random_bits));
        }
        let ghost before = self@;
        let ghost bits = bits_of(random_bits);
        self.player_position_offset = self.player_velocity - (VELO_MAX - VELO_MIN) / 2;
        self.sub_tick_counter = (self.sub_tick_counter + 1) % TICK_COUNTER_MAX;
        if self.sub_tick_counter == 0 {
            self.nudge_and_score(bits_slice(&random_bits));
        }
        self.advance_friends();
        proof {
            use_type_invariant(&*self);
        }
        self.lead = self.lead.advance(self.player_velocity);
        assert(self@.friends =~= before.after_tick(bits).friends);
    }

    /// The shapes of the player's rider.
    pub fn draw_player_character(&self) -> (shapes: Vec<Shape>)
        ensures
            shapes@ == self@.player_shapes(),
    {
        proof {
            use_type_invariant(self);
        }
        let midpoint = Point { x: MIDPOINT + self.player_position_offset, y: PLAYER_Y };
        draw_character(Style::Stroke, midpoint)
    }

    /// The shapes of the companions' riders, first companion first.
    pub fn draw_friend_characters(&self) -> (shapes: Vec<Shape>)
        ensures
            shapes@ == riders(self@.friends),
    {
        proof {
            use_type_invariant(self);
        }
        let friends = friends_slice(&self.friends);
        let mut shapes: Vec<Shape> = Vec::new();
        let mut idx: usize = 0;
        assert(friends@.take(0) =~= Seq::<Friend>::empty());
        while idx < friends.len()
            invariant
                idx <= friends@.len(),
                forall|i: int| 0 <= i < friends@.len() ==> (#[trigger] friends@[i]).in_bounds(),
                shapes@ == riders(friends@.take(idx as int)),
            decreases friends@.len() - idx,
        {
            let friend = friends[idx];
            let mut one = draw_character(
                Style::Fill,
                Point { x: MIDPOINT + friend.position_offset, y: FRIEND_Y },
            );
            shapes.append(&mut one);
            idx += 1;
            assert(friends@.take(idx as int).drop_last() =~= friends@.take(idx as int - 1));
        }
        assert(friends@.take(idx as int) =~= friends@);
        shapes
    }

    /// The score, placed in the top right corner.
    pub fn draw_score(&self) -> (shape: Shape)
        ensures
            shape == self@.score_shape(),
    {
        Shape::Score { position: Point { x: 92, y: 9 }, value: self.score }
    }

    /// How fast the player rides.
    pub fn player_velocity(&self) -> (velocity: i32)
        ensures
            velocity == self@.player_velocity,
            1 <= velocity <= 20,
    {
        proof {
            use_type_invariant(self);
        }
        self.player_velocity
    }

    /// Where the player is drawn relative to the midpoint.
    pub fn player_position_offset(&self) -> (offset: i32)
        ensures
            offset == self@.player_position_offset,
    {
        self.player_position_offset
    }

    /// The companions, first one first.
    pub fn friends(&self) -> (friends: &[Friend])
        ensures
            friends@ == self@.friends,
    {
        friends_slice(&self.friends)
    }

    /// The lead companion.
    pub fn lead(&self) -> (lead: Friend)
        ensures
            lead == self@.lead,
    {
        self.lead
    }

    /// Ticks since the last scoring tick.
    pub fn sub_tick_counter(&self) -> (counter: i32)
        ensures
            counter == self@.sub_tick_counter,
    {
        self.sub_tick_counter
    }

    /// Points collected so far.
    pub fn score(&self) -> (score: i32)
        ensures
            score == self@.score,
            0 <= score,
    {
        proof {
            use_type_invariant(self);
        }
        self.score
    }

    /// The scoring part of a tick: every companion's velocity is nudged by its
    /// bit, and the score grows by what each companion earns.
    fn nudge_and_score(&mut self, bits: &[bool])
        requires
            bits@.len() == 3,
            old(self)@.score + total_reward(
                old(self)@.player_position_offset,
                old(self)@.friends,
            ) <= i32::MAX,
        ensures
            final(self)@ == (GameState {
                friends: nudged_through(old(self)@.friends, bits@, 3),
                score: old(self)@.score + total_reward(
                    old(self)@.player_position_offset,
                    old(self)@.friends,
                ),
                ..old(self)@
            }),
    {
        proof {
            use_type_invariant(&*self);
        }
        let ghost before = self@;
        let ghost offset = before.player_position_offset;
        let count = friends_slice(&self.friends).len();
        let mut idx: usize = 0;
        assert(before.friends =~= nudged_through(before.friends, bits@, 0));
        while idx < count
            invariant
                count == 3,
                idx <= count,
                bits@.len() == 3,
                before.wf(),
                offset == before.player_position_offset,
                before.score + total_reward(offset, before.friends) <= i32::MAX,
                self@ == (GameState {
                    friends: nudged_through(before.friends, bits@, idx as int),
                    score: before.score + total_reward(offset, before.friends.take(idx as int)),
                    ..before
                }),
            decreases count - idx,
        {
            let friend = friends_slice(&self.friends)[idx];
            let nudged = friend.nudge(bits[idx]);
            proof {
                lemma_reward_grows(offset, before.friends, 0, idx as int);
                lemma_reward_grows(offset, before.friends, idx as int + 1, 3);
                assert(before.friends.take(3) =~= before.friends);
                assert(before.friends.take(idx as int + 1).drop_last() =~= before.friends.take(
                    idx as int,
                ));
            }
            friends_set(&mut self.friends, idx, nudged);
            let gain = score_gain(self.player_position_offset, nudged.position_offset);
            self.score = self.score + gain;
            idx += 1;
            assert(self@.friends =~= nudged_through(before.friends, bits@, idx as int));
        }
        assert(before.friends.take(3) =~= before.friends);
    }

    /// The moving part of a tick: every companion moves relative to the
    /// player, or stays where a move would take it out of its band.
    fn advance_friends(&mut self)
        ensures
            final(self)@ == (GameState {
                friends: advanced_through(old(self)@.friends, old(self)@.player_velocity, 3),
                ..old(self)@
            }),
    {
        proof {
            use_type_invariant(&*self);
        }
        let ghost before = self@;
        let count = friends_slice(&self.friends).len();
        let mut idx: usize = 0;
        assert(before.friends =~= advanced_through(before.friends, before.player_velocity, 0));
        while idx < count
            invariant
                count == 3,
                idx <= count,
                before.wf(),
                self@ == (GameState {
                    friends: advanced_through(before.friends, before.player_velocity, idx as int),
                    ..before
                }),
            decreases count - idx,
        {
            let friend = friends_slice(&self.friends)[idx];
            let moved = friend.advance(self.player_velocity);
            friends_set(&mut self.friends, idx, moved);
            idx += 1;
            assert(self@.friends =~= advanced_through(
                before.friends,
                before.player_velocity,
                idx as int,
            ));
        }
    }
}

/// The reward of a longer prefix of the companions is no smaller than that of
/// a shorter one, and no reward is negative.
pub proof fn lemma_reward_grows(player_offset: int, friends: Seq<Friend>, shorter: int, longer: int)
    requires
        0 <= shorter <= longer <= friends.len(),
    ensures
        0 <= total_reward(player_offset, friends.take(shorter)) <= total_reward(
            player_offset,
            friends.take(longer),
        ),
    decreases longer - shorter, shorter,
{
    if shorter < longer {
        lemma_reward_grows(player_offset, friends, shorter, longer - 1);
        assert(friends.take(longer).drop_last() =~= friends.take(longer - 1));
    } else if shorter > 0 {
        lemma_reward_grows(player_offset, friends, shorter - 1, shorter - 1);
        assert(friends.take(shorter).drop_last() =~= friends.take(shorter - 1));
    }
}

/// All companions together earn between nothing and 130 points each.
pub proof fn lemma_reward_range(player_offset: int, friends: Seq<Friend>)
    ensures
        0 <= total_reward(player_offset, friends) <= 130 * friends.len(),
    decreases friends.len(),
{
    if friends.len() > 0 {
        lemma_reward_range(player_offset, friends.drop_last());
    }
}

/// A button press keeps every field within its band: the player velocity
/// stays within `[1, 20]`, and nothing else changes.
pub proof fn lemma_input_keeps_bounds(state: GameState, input: ButtonInput)
    requires
        state.wf(),
    ensures
        state.after_input(input).wf(),
        1 <= state.after_input(input).player_velocity <= 20,
        state.after_input(input).score == state.score,
{
}

/// A tick keeps every field within its band, whatever the random bits: the
/// player velocity stays within `[1, 20]`, every companion velocity within
/// `[2, 19]`, and every companion offset within `(-250, 250)`.
pub proof fn lemma_tick_keeps_bounds(state: GameState, bits: Seq<bool>)
    requires
        state.wf(),
    ensures
        state.after_tick(bits).wf(),
        1 <= state.after_tick(bits).player_velocity <= 20,
        forall|i: int|
            0 <= i < 3 ==> 2 <= (#[trigger] state.after_tick(bits).friends[i]).velocity <= 19,
{
    lemma_reward_range(state.next_player_offset(), state.friends);
}

/// A tick never lowers the score, whatever state it starts from.
pub proof fn lemma_tick_never_lowers_score(state: GameState, bits: Seq<bool>)
    ensures
        state.after_tick(bits).score >= state.score,
{
    lemma_reward_range(state.next_player_offset(), state.friends);
}

} // verus!
