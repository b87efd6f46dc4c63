//! The pointer-device packet stream: a bounded queue filled by the
//! interrupt handler and drained by an asynchronous consumer.
use crate::queue::{byte_queue_capacity, byte_queue_is_full, byte_queue_items, byte_queue_new, byte_queue_pop, byte_queue_push};
use crate::task::Poll;
use crate::waker::{ReadyQueue, TaskWaker};
use crossbeam_queue::ArrayQueue;
use vstd::prelude::*;

verus! {

/// How many packet bytes wait for the consumer at most.
pub const MOUSE_QUEUE_CAPACITY: usize = 500;

/// The packet queue, made once by the stream, and the single waker slot of
/// its consumer.
pub struct MousePacketQueue {
    queue: Option<ArrayQueue<u8>>,
    waker: Option<TaskWaker>,
}

/// The queue after an arriving byte: appended where there is room, dropped
/// where the queue is full.
pub open spec fn push_or_drop(items: Seq<u8>, capacity: nat, byte: u8) -> Seq<u8> {
    if items.len() < capacity {
        items.push(byte)
    } else {
        items
    }
}

/// The queue after the bytes `bytes` arrive in order.
pub open spec fn push_all(items: Seq<u8>, capacity: nat, bytes: Seq<u8>) -> Seq<u8>
    decreases bytes.len(),
{
    if bytes.len() == 0 {
        items
    } else {
        push_all(push_or_drop(items, capacity, bytes[0]), capacity, bytes.drop_first())
    }
}

/// Bytes that arrive while there is room are kept in order behind those
/// already waiting, and the rest are dropped; so into a queue with room for
/// all of them, every byte is kept, and the consumer, which takes the
/// oldest first, receives them in the order they arrived.
pub proof fn lemma_push_all_keeps_order(items: Seq<u8>, capacity: nat, bytes: Seq<u8>)
    requires
        items.len() <= capacity,
    ensures
        push_all(items, capacity, bytes) == items + bytes.take(
            if bytes.len() <= capacity - items.len() {
                bytes.len() as int
            } else {
                capacity - items.len()
            },
        ),
        items.len() + bytes.len() <= capacity ==> push_all(items, capacity, bytes) == items + bytes,
    decreases bytes.len(),
{
    if bytes.len() == 0 {
        assert(items + bytes.take(0) =~= items);
    } else {
        let next = push_or_drop(items, capacity, bytes[0]);
        lemma_push_all_keeps_order(next, capacity, bytes.drop_first());
        if items.len() < capacity {
            let rest = bytes.drop_first();
            let n = if rest.len() <= capacity - next.len() {
                rest.len() as int
            } else {
                capacity - next.len()
            };
            assert(next + rest.take(n) =~= items + bytes.take(n + 1));
        } else {
            assert(items + bytes.drop_first().take(0) =~= items + bytes.take(0));
        }
        if items.len() + bytes.len() <= capacity {
            assert(bytes.take(bytes.len() as int) =~= bytes);
        }
    }
}

/// Whether `returned` is what successive polls of the stream hand out while
/// the queue passes through `states`: each poll returns the oldest byte and
/// removes it, until the queue is empty.
pub open spec fn drains(states: Seq<Seq<u8>>, returned: Seq<u8>) -> bool {
    &&& states.len() == returned.len() + 1
    &&& states[returned.len() as int].len() == 0
    &&& forall|k: int|
        0 <= k < returned.len() ==> #[trigger] states[k].len() > 0 && returned[k] == states[k][0]
            && states[k + 1] == states[k].drop_first()
}

/// Draining a queue hands out exactly the bytes it held, oldest first.
pub proof fn lemma_drain_yields_items(states: Seq<Seq<u8>>, returned: Seq<u8>)
    requires
        drains(states, returned),
    ensures
        returned == states[0],
    decreases returned.len(),
{
    if returned.len() > 0 {
        let rest_states = states.drop_first();
        let rest = returned.drop_first();
        assert forall|k: int| 0 <= k < rest.len() implies #[trigger] rest_states[k].len() > 0
            && rest[k] == rest_states[k][0] && rest_states[k + 1] == rest_states[k].drop_first() by {
            assert(states[k + 1].len() > 0);
        }
        lemma_drain_yields_items(rest_states, rest);
        assert(states[0].len() > 0);
        assert(returned =~= seq![states[0][0]] + rest);
        assert(states[0] =~= seq![states[0][0]] + states[0].drop_first());
    }
}

/// Bytes pushed into the empty queue of a new stream and then drained come
/// out exactly as they arrived, as far as the capacity holds them; the rest
/// were dropped.
pub proof fn lemma_stream_delivers_in_order(
    capacity: nat,
    bytes: Seq<u8>,
    states: Seq<Seq<u8>>,
    returned: Seq<u8>,
)
    requires
        states.len() > 0,
        states[0] == push_all(Seq::<u8>::empty(), capacity, bytes),
        drains(states, returned),
    ensures
        bytes.len() <= capacity ==> returned == bytes,
        bytes.len() > capacity ==> returned == bytes.take(capacity as int),
{
    lemma_push_all_keeps_order(Seq::<u8>::empty(), capacity, bytes);
    lemma_drain_yields_items(states, returned);
    assert(Seq::<u8>::empty() + bytes.take(capacity as int) =~= bytes.take(capacity as int));
    assert(Seq::<u8>::empty() + bytes.take(bytes.len() as int) =~= bytes);
}

/// Whether an arriving byte wakes a waker: it is kept, and a consumer
/// waits for it.
pub open spec fn push_wakes(packets: MousePacketQueue) -> bool {
    &&& packets.initialized()
    &&& packets.packets().len() < packets.capacity()
    &&& packets.waker() is Some
}

impl MousePacketQueue {
    /// Whether the queue has been made.
    pub closed spec fn initialized(&self) -> bool {
        self.queue is Some
    }

    /// The waiting bytes, oldest first.
    pub closed spec fn packets(&self) -> Seq<u8> {
        match self.queue {
            Some(q) => byte_queue_items(q),
            None => Seq::empty(),
        }
    }

    pub closed spec fn capacity(&self) -> nat {
        match self.queue {
            Some(q) => byte_queue_capacity(q),
            None => 0,
        }
    }

    /// The consumer's registered waker.
    pub closed spec fn waker(&self) -> Option<TaskWaker> {
        self.waker
    }

    pub fn new() -> (r: MousePacketQueue)
        ensures
            !r.initialized(),
            r.packets() == Seq::<u8>::empty(),
            r.waker() is None,
    {
        MousePacketQueue { queue: None, waker: None }
    }

    /// Whether an arriving byte would wake a waker, and so needs room on the
    /// ready-queue.
    pub fn push_would_wake(&self) -> (r: bool)
        ensures
            r == push_wakes(*self),
    {
        match &self.queue {
            Some(q) => !byte_queue_is_full(q) && self.waker.is_some(),
            None => false,
        }
    }
}

/// Called by the interrupt handler for each byte the device sends. Before
/// the stream exists the byte is ignored; on a full queue it is dropped.
/// A byte that is kept wakes the consumer's registered waker, taking it out
/// of its slot.
pub fn add_mouse_packet(packets: &mut MousePacketQueue, packet: u8, queue: &mut ReadyQueue)
    requires
        push_wakes(*old(packets)) ==> old(queue).has_room(),
    ensures
        final(packets).initialized() == old(packets).initialized(),
        final(packets).capacity() == old(packets).capacity(),
        final(packets).packets() == push_or_drop(
            old(packets).packets(),
            old(packets).capacity(),
            packet,
        ),
        final(queue).capacity() == old(queue).capacity(),
        ({
            let kept = old(packets).initialized() && old(packets).packets().len() < old(
                packets,
            ).capacity();
            &&& kept && old(packets).waker() is Some ==> final(packets).waker() is None
                && final(queue)@ == old(queue)@.push(old(packets).waker()->0.id()@)
            &&& !(kept && old(packets).waker() is Some) ==> final(packets).waker() == old(
                packets,
            ).waker() && final(queue)@ == old(queue)@
        }),
{
    match &mut packets.queue {
        Some(q) => {
            match byte_queue_push(q, packet) {
                Ok(()) => {
                    match packets.waker.take() {
                        Some(waker) => waker.wake(queue),
                        None => {},
                    }
                },
                Err(_) => {},
            }
        },
        None => {},
    }
}

/// Why a stream could not be made.
#[derive(Clone, Copy, Debug, PartialEq, Eq, Structural)]
pub enum StreamError {
    /// The packet queue was made before; it is made once only.
    AlreadyInitialized,
}

/// The consumer's end of the packet queue.
pub struct MousePacketStream {
    _private: (),
}

impl MousePacketStream {
    /// Makes the packet queue; fails where it was made before.
    pub fn new(packets: &mut MousePacketQueue) -> (r: Result<MousePacketStream, StreamError>)
        ensures
            old(packets).initialized() ==> r is Err && r->Err_0 == StreamError::AlreadyInitialized && *final(packets) == *old(packets),
            !old(packets).initialized() ==> r is Ok && final(packets).initialized()
                && final(packets).packets() == Seq::<u8>::empty() && final(packets).capacity()
                == MOUSE_QUEUE_CAPACITY && final(packets).waker() == old(packets).waker(),
    {
        if packets.queue.is_some() {
            return Err(StreamError::AlreadyInitialized);
        }
        packets.queue = Some(byte_queue_new(MOUSE_QUEUE_CAPACITY));
        Ok(MousePacketStream { _private: () })
    }

    /// The oldest waiting byte if there is one; otherwise registers `waker`
    /// and looks once more, in case a byte arrived meanwhile.
    pub fn poll_next(&mut self, packets: &mut MousePacketQueue, waker: &TaskWaker) -> (r: Poll<
        Option<u8>,
    >)
        requires
            old(packets).initialized(),
        ensures
            final(packets).initialized(),
            final(packets).capacity() == old(packets).capacity(),
            old(packets).packets().len() > 0 ==> r == Poll::Ready(Some(old(packets).packets()[0]))
                && final(packets).packets() == old(packets).packets().drop_first()
                && final(packets).waker() == old(packets).waker(),
            old(packets).packets().len() == 0 ==> r == Poll::<Option<u8>>::Pending
                && final(packets).packets() == old(packets).packets() && final(packets).waker()
                == Some(*waker),
    {
        match &mut packets.queue {
            Some(q) => {
                match byte_queue_pop(q) {
                    Some(packet) => {
                        return Poll::Ready(Some(packet));
                    },
                    None => {},
                }
                packets.waker = Some(*waker);
                match byte_queue_pop(q) {
                    Some(packet) => {
                        packets.waker = None;
                        Poll::Ready(Some(packet))
                    },
                    None => Poll::Pending,
                }
            },
            None => Poll::Pending,
        }
    }
}

} // verus!
