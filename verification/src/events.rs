//! The typed messages the interrupt handler produces and the bounded FIFO
//! they travel through on their way to the main loop.
//!
//! The queue stores message codes in a fixed-capacity `arrayvec::ArrayVec`,
//! the allocation-free vector the interrupt path needs; what the vector does
//! is taken on trust from its source, stated over the `queue_slots` contents
//! below, and everything above it is verified.

use vstd::prelude::*;

use crate::error::{Code, Error};

verus! {

/// Capacity of the event queue; a push beyond it fails explicitly, it never
/// overwrites and never blocks the interrupt context.
pub const QUEUE_CAPACITY: usize = 32;

/// Where a message came from. The single variant today is the USB host
/// controller's interrupt; new interrupt sources add variants, not queues.
#[derive(Debug, Clone, Copy, PartialEq, Eq, Structural)]
pub enum MessageType {
    InterruptXHCI,
}

/// One queued event.
#[derive(Debug, Clone, Copy)]
pub struct Message {
    msg_type: MessageType,
}

impl Message {
    /// The origin of this message, as contracts see it.
    pub closed spec fn spec_msg_type(&self) -> MessageType {
        self.msg_type
    }

    pub fn new(msg_type: MessageType) -> (r: Message)
        ensures
            r.spec_msg_type() == msg_type,
    {
        Message { msg_type }
    }

    /// The origin of this message.
    pub fn msg_type(&self) -> (r: MessageType)
        ensures
            r == self.spec_msg_type(),
    {
        self.msg_type
    }
}

/// The code a message is stored under in the queue's slots.
pub open spec fn spec_message_code(msg_type: MessageType) -> u64 {
    match msg_type {
        MessageType::InterruptXHCI => 0,
    }
}

/// The message a stored code stands for. Every code decodes to the one
/// variant there is today; new variants split this map.
pub open spec fn spec_message_of_code(code: u64) -> MessageType {
    MessageType::InterruptXHCI
}

fn message_code(msg_type: MessageType) -> (r: u64)
    ensures
        r == spec_message_code(msg_type),
{
    match msg_type {
        MessageType::InterruptXHCI => 0,
    }
}

fn message_of_code(code: u64) -> (r: MessageType)
    ensures
        r == spec_message_of_code(code),
{
    MessageType::InterruptXHCI
}

#[verifier::external_type_specification]
#[verifier::external_body]
#[verifier::reject_recursive_types(T)]
pub struct ExArrayVec<T, const CAP: usize>(arrayvec::ArrayVec<T, CAP>);

/// The codes an `ArrayVec` holds, oldest first.
pub uninterp spec fn queue_slots(slots: arrayvec::ArrayVec<u64, 32>) -> Seq<u64>;

/// Relies on arrayvec::ArrayVec::new: a newly made vector is empty.
#[verifier::external_body]
fn slots_new() -> (r: arrayvec::ArrayVec<u64, 32>)
    ensures
        queue_slots(r) == Seq::<u64>::empty(),
{
    arrayvec::ArrayVec::new()
}

/// Relies on arrayvec::ArrayVec::len: the number of stored elements.
#[verifier::external_body]
fn slots_len(slots: &arrayvec::ArrayVec<u64, 32>) -> (r: usize)
    ensures
        r == queue_slots(*slots).len(),
{
    slots.len()
}

/// Relies on arrayvec::ArrayVec::try_push: appends at the end while the
/// vector is below its capacity of 32, and errors out, changing nothing,
/// when it is full.
#[verifier::external_body]
fn slots_try_push(slots: &mut arrayvec::ArrayVec<u64, 32>, code: u64) -> (r: bool)
    ensures
        r == (queue_slots(*old(slots)).len() < 32),
        r ==> queue_slots(*final(slots)) == queue_slots(*old(slots)).push(code),
        !r ==> queue_slots(*final(slots)) == queue_slots(*old(slots)),
{
    slots.try_push(code).is_ok()
}

/// Relies on arrayvec::ArrayVec::remove: removes and returns the element at
/// an in-bounds index, shifting the following ones down.
#[verifier::external_body]
fn slots_remove_first(slots: &mut arrayvec::ArrayVec<u64, 32>) -> (r: u64)
    requires
        queue_slots(*old(slots)).len() > 0,
    ensures
        r == queue_slots(*old(slots))[0],
        queue_slots(*final(slots)) == queue_slots(*old(slots)).drop_first(),
{
    slots.remove(0)
}

/// The bounded single-producer/single-consumer FIFO between interrupt
/// context and the main loop. Ordering is first-in first-out; a push onto a
/// full queue and a pop from an empty one fail explicitly and change
/// nothing.
pub struct EventQueue {
    slots: arrayvec::ArrayVec<u64, 32>,
}

impl View for EventQueue {
    type V = Seq<MessageType>;

    closed spec fn view(&self) -> Seq<MessageType> {
        queue_slots(self.slots).map_values(|code: u64| spec_message_of_code(code))
    }
}

impl EventQueue {
    /// An empty queue.
    pub fn new() -> (r: EventQueue)
        ensures
            r@ == Seq::<MessageType>::empty(),
    {
        let r = EventQueue { slots: slots_new() };
        proof {
            assert(r@ =~= Seq::<MessageType>::empty());
        }
        r
    }

    /// The number of queued messages.
    pub fn len(&self) -> (r: usize)
        ensures
            r == self@.len(),
    {
        slots_len(&self.slots)
    }

    /// The fixed capacity.
    pub fn capacity(&self) -> (r: usize)
        ensures
            r == QUEUE_CAPACITY,
    {
        QUEUE_CAPACITY
    }

    /// Appends a message at the back; a full queue fails with `Full` and
    /// keeps its contents.
    pub fn push(&mut self, message: Message) -> (r: Result<(), Error>)
        ensures
            match r {
                Ok(_) => old(self)@.len() < QUEUE_CAPACITY && final(self)@ == old(self)@.push(
                    message.spec_msg_type(),
                ),
                Err(e) => old(self)@.len() >= QUEUE_CAPACITY && final(self)@ == old(self)@
                    && e.spec_code() == Code::Full,
            },
    {
        let code = message_code(message.msg_type());
        if slots_try_push(&mut self.slots, code) {
            proof {
                assert(self@ =~= old(self)@.push(message.spec_msg_type()));
            }
            Ok(())
        } else {
            Err(Error::new(Code::Full, "events", 0))
        }
    }

    /// Removes and returns the oldest message; an empty queue fails with
    /// `Empty`.
    pub fn pop_front(&mut self) -> (r: Result<Message, Error>)
        ensures
            match r {
                Ok(m) => old(self)@.len() > 0 && m.spec_msg_type() == old(self)@[0]
                    && final(self)@ == old(self)@.drop_first(),
                Err(e) => old(self)@.len() == 0 && final(self)@ == old(self)@ && e.spec_code()
                    == Code::Empty,
            },
    {
        if slots_len(&self.slots) == 0 {
            return Err(Error::new(Code::Empty, "events", 0));
        }
        let code = slots_remove_first(&mut self.slots);
        proof {
            assert(self@ =~= old(self)@.drop_first());
        }
        Ok(Message::new(message_of_code(code)))
    }
}

/// First-in first-out, over the queue's view: `push` (see its contract)
/// appends behind everything already queued — pushing `a` then `b` onto a
/// queue holding `s` leaves `s + [a, b]` — and `pop_front` always takes the
/// front, so messages come back in exactly the order they were pushed.
pub proof fn lemma_queue_fifo(s: Seq<MessageType>, a: MessageType, b: MessageType)
    requires
        s.len() + 2 <= QUEUE_CAPACITY,
    ensures
        s.push(a).push(b) == s + seq![a, b],
        (s + seq![a, b])[s.len() as int] == a,
        (s + seq![a, b])[s.len() as int + 1] == b,
{
    assert(s.push(a).push(b) =~= s + seq![a, b]);
}

/// What the interrupt handler does besides acknowledging the interrupt:
/// enqueue one controller-interrupt message. A full queue drops the event —
/// a defined, lossy failure mode, not a fault.
pub fn handle_xhci_interrupt(queue: &mut EventQueue)
    ensures
        final(queue)@ == (if old(queue)@.len() < QUEUE_CAPACITY {
            old(queue)@.push(MessageType::InterruptXHCI)
        } else {
            old(queue)@
        }),
{
    let _ = queue.push(Message::new(MessageType::InterruptXHCI));
}

/// The main loop's critical section: take the oldest message if there is
/// one. `None` says the loop should re-enable interrupts and halt until the
/// next one arrives.
pub fn next_event(queue: &mut EventQueue) -> (r: Option<Message>)
    ensures
        match r {
            Some(m) => old(queue)@.len() > 0 && m.spec_msg_type() == old(queue)@[0]
                && final(queue)@ == old(queue)@.drop_first(),
            None => old(queue)@.len() == 0 && final(queue)@ == old(queue)@,
        },
{
    if queue.len() == 0 {
        return None;
    }
    match queue.pop_front() {
        Ok(message) => Some(message),
        Err(_) => None,
    }
}

} // verus!
