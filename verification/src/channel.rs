//! The bounded first-in-first-out channel that carries button events from the
//! interrupt handler to the game loop.
//!
//! The events are held by a `heapless::spsc::Queue`. What is assumed of that
//! queue stands in the first part of this file; the channel itself is
//! verified against it.

use crate::ButtonInput;
use vstd::prelude::*;

verus! {

/// Number of events that the channel holds at most.
pub const CAPACITY: usize = 100;

#[verifier::external_type_specification]
#[verifier::external_body]
#[verifier::reject_recursive_types(T)]
pub struct ExRingQueue<T, const N: usize>(heapless::spsc::Queue<T, N>);

/// The events that a queue holds, oldest first.
pub uninterp spec fn queued(q: heapless::spsc::Queue<ButtonInput, 101>) -> Seq<ButtonInput>;

/// `heapless::spsc::Queue::new`: the queue starts out empty.
#[verifier::external_body]
fn queue_new() -> (q: heapless::spsc::Queue<ButtonInput, 101>)
    ensures
        queued(q) == Seq::<ButtonInput>::empty(),
{
    heapless::spsc::Queue::new()
}

/// `heapless::spsc::Queue::enqueue`: a ring of 101 slots keeps one slot free,
/// so while fewer than 100 events are held the event is appended and `Ok`
/// returned; otherwise the queue stays as it is and hands the event back in
/// `Err`. It never panics.
#[verifier::external_body]
fn queue_enqueue(
    q: &mut heapless::spsc::Queue<ButtonInput, 101>,
    event: ButtonInput,
) -> (sent: Result<(), ButtonInput>)
    ensures
        sent is Ok <==> queued(*old(q)).len() < 100,
        sent is Ok ==> queued(*final(q)) == queued(*old(q)).push(event),
        sent is Err ==> sent->Err_0 == event,
        sent is Err ==> queued(*final(q)) == queued(*old(q)),
    no_unwind
{
    q.enqueue(event)
}

/// `heapless::spsc::Queue::dequeue`: an empty queue gives `None` and stays
/// empty; otherwise the oldest event is removed and returned. It never
/// panics.
#[verifier::external_body]
fn queue_dequeue(q: &mut heapless::spsc::Queue<ButtonInput, 101>) -> (received: Option<ButtonInput>)
    ensures
        received is None <==> queued(*old(q)).len() == 0,
        received is None ==> queued(*final(q)) == queued(*old(q)),
        received is Some ==> received->Some_0 == queued(*old(q)).first(),
        received is Some ==> queued(*final(q)) == queued(*old(q)).drop_first(),
    no_unwind
{
    q.dequeue()
}

/// What a channel holds after `event` was offered to it: the event is
/// appended unless the channel is full, in which case it is dropped.
pub open spec fn offered(events: Seq<ButtonInput>, event: ButtonInput) -> Seq<ButtonInput> {
    if events.len() < 100 {
        events.push(event)
    } else {
        events
    }
}

/// What a call of [`EventChannel::dequeue`] returns for a channel that holds
/// `events`: the oldest one, if there is any.
pub open spec fn received(events: Seq<ButtonInput>) -> Option<ButtonInput> {
    if events.len() == 0 {
        None
    } else {
        Some(events.first())
    }
}

/// What a channel holds after a call of [`EventChannel::dequeue`].
pub open spec fn after_receive(events: Seq<ButtonInput>) -> Seq<ButtonInput> {
    if events.len() == 0 {
        events
    } else {
        events.drop_first()
    }
}

/// What a channel holds after each of `more` was offered to it in order.
pub open spec fn offered_all(events: Seq<ButtonInput>, more: Seq<ButtonInput>) -> Seq<ButtonInput>
    decreases more.len(),
{
    if more.len() == 0 {
        events
    } else {
        offered_all(offered(events, more.first()), more.drop_first())
    }
}

/// The events that come out of a channel, in the order they come, when it is
/// emptied by repeated calls of [`EventChannel::dequeue`].
pub open spec fn drained(events: Seq<ButtonInput>) -> Seq<ButtonInput>
    decreases events.len(),
{
    match received(events) {
        None => Seq::empty(),
        Some(event) => seq![event] + drained(after_receive(events)),
    }
}

/// The channel between the interrupt handler, which enqueues, and the game
/// loop, which dequeues. Its view is the sequence of waiting events, oldest
/// first.
pub struct EventChannel {
    queue: heapless::spsc::Queue<ButtonInput, 101>,
}

impl View for EventChannel {
    type V = Seq<ButtonInput>;

    closed spec fn view(&self) -> Seq<ButtonInput> {
        queued(self.queue)
    }
}

impl EventChannel {
    /// Holds of every value of this type: the capacity is never exceeded.
    #[verifier::type_invariant]
    pub open spec fn inv(self) -> bool {
        self@.len() <= 100
    }

    /// An empty channel.
    pub fn new() -> (channel: EventChannel)
        ensures
            channel@ == Seq::<ButtonInput>::empty(),
    {
        EventChannel { queue: queue_new() }
    }

    /// Offers an event to the channel. Returns whether it was taken; a full
    /// channel drops the event and is left unchanged.
    pub fn enqueue(&mut self, event: ButtonInput) -> (taken: bool)
        ensures
            taken == (old(self)@.len() < 100),
            final(self)@ == offered(old(self)@, event),
            final(self)@.len() <= 100,
    {
        proof {
            use_type_invariant(&*self);
        }
        match queue_enqueue(&mut self.queue, event) {
            Ok(()) => true,
            Err(_) => false,
        }
    }

    /// Takes the oldest waiting event, if there is one.
    pub fn dequeue(&mut self) -> (event: Option<ButtonInput>)
        ensures
            event == received(old(self)@),
            final(self)@ == after_receive(old(self)@),
            final(self)@.len() <= 100,
    {
        proof {
            use_type_invariant(&*self);
        }
        queue_dequeue(&mut self.queue)
    }
}

/// Offering events to a channel appends as many of them as there is room
/// for, in the order they were offered, and drops the rest.
pub proof fn lemma_offered_all(events: Seq<ButtonInput>, more: Seq<ButtonInput>)
    requires
        events.len() <= 100,
    ensures
        more.len() <= 100 - events.len() ==> offered_all(events, more) == events + more,
        more.len() > 100 - events.len() ==> offered_all(events, more) == events + more.take(
            100 - events.len(),
        ),
        offered_all(events, more).len() <= 100,
    decreases more.len(),
{
    if more.len() == 0 {
        assert(events + more =~= events);
    } else {
        let next = offered(events, more.first());
        let rest = more.drop_first();
        lemma_offered_all(next, rest);
        if events.len() < 100 {
            if more.len() <= 100 - events.len() {
                assert(next + rest =~= events + more);
            } else {
                assert(next + rest.take(100 - next.len()) =~= events + more.take(
                    100 - events.len(),
                ));
            }
        } else {
            assert(rest.take(0) =~= more.take(0));
        }
    }
}

/// Emptying a channel hands out exactly what it held, oldest first.
pub proof fn lemma_drained_in_order(events: Seq<ButtonInput>)
    ensures
        drained(events) == events,
    decreases events.len(),
{
    if events.len() > 0 {
        lemma_drained_in_order(events.drop_first());
        assert(seq![events.first()] + events.drop_first() =~= events);
    }
}

/// First in, first out: events offered to an empty channel come out in the
/// order they went in. Up to the capacity all of them come out; of more, the
/// first hundred do and the excess is dropped.
pub proof fn lemma_fifo(sent: Seq<ButtonInput>)
    ensures
        sent.len() <= 100 ==> drained(offered_all(Seq::empty(), sent)) == sent,
        sent.len() > 100 ==> drained(offered_all(Seq::empty(), sent)) == sent.take(100),
{
    let empty = Seq::<ButtonInput>::empty();
    lemma_offered_all(empty, sent);
    lemma_drained_in_order(offered_all(empty, sent));
    assert(empty + sent =~= sent);
    assert(empty + sent.take(100) =~= sent.take(100));
}

} // verus!
