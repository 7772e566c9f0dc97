//! Micro-IPC: a bounded first-in first-out message queue.
use vstd::prelude::*;

use crate::bounded::{msg_deque_clear, msg_deque_items, msg_deque_new, msg_deque_pop_front, msg_deque_push_back};

verus! {

/// Kind of an IPC message.
#[derive(Clone, Copy, Debug, PartialEq, Eq, Structural)]
pub enum MessageType {
    Send,
    Recv,
    Call,
}

/// An IPC message between two tasks.
#[derive(Clone, Copy, Debug)]
pub struct Message {
    pub ty: MessageType,
    pub src: u32,
    pub dst: u32,
    pub payload: [u64; 4],
}

/// Number of messages the queue can hold.
pub const QUEUE_DEPTH: usize = 16;

/// Pending messages, oldest at the front.
pub struct IpcQueue {
    queue: heapless::Deque<Message, 16>,
}

impl IpcQueue {
    /// The pending messages, oldest first.
    pub closed spec fn messages(&self) -> Seq<Message> {
        msg_deque_items(self.queue)
    }

    pub closed spec fn wf(&self) -> bool {
        msg_deque_items(self.queue).len() <= QUEUE_DEPTH
    }

    /// An empty queue.
    pub fn new() -> (q: Self)
        ensures
            q.wf(),
            q.messages() == Seq::<Message>::empty(),
    {
        IpcQueue { queue: msg_deque_new() }
    }
}

/// Drop every pending message.
pub fn bootstrap(q: &mut IpcQueue)
    requires
        old(q).wf(),
    ensures
        final(q).wf(),
        final(q).messages() == Seq::<Message>::empty(),
{
    msg_deque_clear(&mut q.queue);
}

/// The pending messages after `msg` is offered to a queue holding `msgs`:
/// appended at the back, unless the queue is full.
pub open spec fn after_send(msgs: Seq<Message>, msg: Message) -> Seq<Message> {
    if msgs.len() < QUEUE_DEPTH {
        msgs.push(msg)
    } else {
        msgs
    }
}

/// The message a receive takes from a queue holding `msgs`: the oldest.
pub open spec fn received(msgs: Seq<Message>) -> Option<Message> {
    if msgs.len() == 0 {
        None
    } else {
        Some(msgs[0])
    }
}

/// The pending messages after a receive from a queue holding `msgs`.
pub open spec fn after_recv(msgs: Seq<Message>) -> Seq<Message> {
    if msgs.len() == 0 {
        msgs
    } else {
        msgs.drop_first()
    }
}

/// The pending messages after each message of `batch` is sent, in order,
/// to a queue holding `msgs`.
pub open spec fn after_send_all(msgs: Seq<Message>, batch: Seq<Message>) -> Seq<Message>
    decreases batch.len(),
{
    if batch.len() == 0 {
        msgs
    } else {
        after_send(after_send_all(msgs, batch.drop_last()), batch.last())
    }
}

/// Queue `msg`; `false` when the queue is full, and then nothing changes.
pub fn send(q: &mut IpcQueue, msg: Message) -> (r: bool)
    requires
        old(q).wf(),
    ensures
        final(q).wf(),
        r == (old(q).messages().len() < QUEUE_DEPTH),
        final(q).messages() == after_send(old(q).messages(), msg),
{
    let res = msg_deque_push_back(&mut q.queue, msg);
    res.is_ok()
}

/// Take the oldest pending message, if any.
pub fn recv(q: &mut IpcQueue) -> (r: Option<Message>)
    requires
        old(q).wf(),
    ensures
        final(q).wf(),
        r == received(old(q).messages()),
        final(q).messages() == after_recv(old(q).messages()),
{
    msg_deque_pop_front(&mut q.queue)
}

/// Messages leave in the order they were sent: up to `QUEUE_DEPTH`
/// messages sent one after another into an empty queue are pending in
/// that order.
pub proof fn lemma_send_all_in_order(batch: Seq<Message>)
    requires
        batch.len() <= QUEUE_DEPTH,
    ensures
        after_send_all(Seq::empty(), batch) == batch,
    decreases batch.len(),
{
    if batch.len() > 0 {
        lemma_send_all_in_order(batch.drop_last());
        assert(batch.drop_last().push(batch.last()) =~= batch);
    }
}

/// A receive after a send that was accepted returns the oldest message
/// that was already pending, or the one just sent when none was; the
/// queue then holds what it held, minus its oldest, plus the new one.
pub proof fn lemma_send_then_recv(msgs: Seq<Message>, msg: Message)
    requires
        msgs.len() < QUEUE_DEPTH,
    ensures
        received(after_send(msgs, msg)) == (if msgs.len() == 0 { Some(msg) } else { received(msgs) }),
        after_recv(after_send(msgs, msg)) == (if msgs.len() == 0 { msgs } else {
            after_send(after_recv(msgs), msg)
        }),
{
    if msgs.len() > 0 {
        assert(msgs.push(msg).drop_first() =~= msgs.drop_first().push(msg));
    } else {
        assert(msgs.push(msg).drop_first() =~= msgs);
    }
}

/// A full queue refuses a message and stays as it was; a queue never holds
/// more than `QUEUE_DEPTH` messages.
pub proof fn lemma_send_bounded(msgs: Seq<Message>, msg: Message)
    requires
        msgs.len() <= QUEUE_DEPTH,
    ensures
        after_send(msgs, msg).len() <= QUEUE_DEPTH,
        msgs.len() == QUEUE_DEPTH ==> after_send(msgs, msg) == msgs,
{
}

} // verus!
