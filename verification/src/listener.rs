//! The decisions of a background listener: when the receive loop goes on,
//! what a handler does with what it read, and the queue through which
//! decoded values reach their consumer in the order in which they were
//! delivered.
//!
//! Sockets, tasks and waiting are left to the caller: it performs what a
//! decision asks for and reports back what happened.

use std::collections::VecDeque;
use vstd::prelude::*;
use crate::error::Result;
use crate::packet_defs::{decode, decoded, IntoData, Packet};

verus! {

/// The network address of a peer, as plain numbers.
#[allow(inconsistent_fields)]
#[derive(Debug, Clone, Copy, PartialEq, Eq)]
pub enum PeerAddr {
    V4 { ip: [u8; 4], port: u16 },
    V6 { ip: [u8; 16], port: u16, flowinfo: u32, scope_id: u32 },
}

/// One decoded value, or the failure to decode it, with the peer it came
/// from.
#[derive(Debug, PartialEq, Eq)]
pub struct RecvInfo<T> {
    pub data: T,
    pub addr: PeerAddr,
}

/// Why a poll of the queue handed out nothing.
#[derive(Debug, Clone, Copy, PartialEq, Eq, Structural)]
pub enum TryRecvError {
    /// Nothing is queued, but a producer may still deliver.
    Empty,
    /// Nothing is queued and no producer is left.
    Disconnected,
}

/// The queue between the producers of a listener and its one consumer.
pub struct Inbox<T> {
    queue: VecDeque<T>,
    senders: usize,
}

impl<T> Inbox<T> {
    /// What is queued, oldest first.
    pub closed spec fn queued(&self) -> Seq<T> {
        self.queue@
    }

    /// How many producers are attached.
    pub closed spec fn senders(&self) -> nat {
        self.senders as nat
    }

    /// An empty queue with one producer attached.
    pub fn new() -> (inbox: Self)
        ensures
            inbox.queued() == Seq::<T>::empty(),
            inbox.senders() == 1,
    {
        Inbox { queue: VecDeque::new(), senders: 1 }
    }

    /// Attaches one more producer, unless their number cannot be counted any
    /// higher; says whether it did.
    pub fn attach(&mut self) -> (attached: bool)
        ensures
            final(self).queued() == old(self).queued(),
            attached == (old(self).senders() < usize::MAX),
            attached ==> final(self).senders() == old(self).senders() + 1,
            !attached ==> final(self).senders() == old(self).senders(),
    {
        if self.senders < usize::MAX {
            self.senders = self.senders + 1;
            true
        } else {
            false
        }
    }

    /// Detaches one producer, if there is one. What is queued stays.
    pub fn detach(&mut self)
        ensures
            final(self).queued() == old(self).queued(),
            old(self).senders() > 0 ==> final(self).senders() == old(self).senders() - 1,
            old(self).senders() == 0 ==> final(self).senders() == 0,
    {
        if self.senders > 0 {
            self.senders = self.senders - 1;
        }
    }

    /// Queues `item` behind everything queued before it.
    pub fn send(&mut self, item: T)
        ensures
            final(self).queued() == old(self).queued().push(item),
            final(self).senders() == old(self).senders(),
    {
        self.queue.push_back(item);
    }

    /// Hands out the oldest queued item without waiting. With nothing queued
    /// it tells an idle queue from one whose producers are all gone.
    pub fn try_recv(&mut self) -> (r: core::result::Result<T, TryRecvError>)
        ensures
            final(self).senders() == old(self).senders(),
            old(self).queued().len() > 0 ==> {
                &&& r == Ok::<T, TryRecvError>(old(self).queued()[0])
                &&& final(self).queued() == old(self).queued().skip(1)
            },
            old(self).queued().len() == 0 ==> {
                &&& final(self).queued() == old(self).queued()
                &&& r == Err::<T, TryRecvError>(
                    if old(self).senders() == 0 {
                        TryRecvError::Disconnected
                    } else {
                        TryRecvError::Empty
                    },
                )
            },
    {
        match self.queue.pop_front() {
            Some(item) => {
                assert(self.queue@ =~= old(self).queue@.skip(1));
                Ok(item)
            },
            None => {
                if self.senders == 0 {
                    Err(TryRecvError::Disconnected)
                } else {
                    Err(TryRecvError::Empty)
                }
            },
        }
    }
}

/// What a poll of the shutdown signal found.
#[derive(Debug, Clone, Copy, PartialEq, Eq, Structural)]
pub enum Signal {
    /// No signal has been sent.
    Empty,
    /// The signal to stop was sent.
    Stop,
    /// The controller is gone, and no signal can come any more.
    Disconnected,
}

/// The receive loop goes on exactly as long as a poll finds no signal.
pub fn should_continue(signal: Signal) -> (go: bool)
    ensures
        go == (signal == Signal::Empty),
{
    match signal {
        Signal::Empty => true,
        _ => false,
    }
}

/// How the one read of a connection ended.
#[derive(Debug, Clone, Copy, PartialEq, Eq, Structural)]
pub enum ReadOutcome {
    /// The read returned this many bytes.
    Read(usize),
    /// The read failed.
    Failed,
}

/// What a handler did with its connection.
#[derive(Debug, Clone, Copy, PartialEq, Eq, Structural)]
pub enum Handled {
    /// The buffer was decoded and the outcome queued for the consumer.
    Forwarded,
    /// Nothing was read; the connection is dropped in silence.
    Dropped,
    /// The read failed; the failure is to be logged, and the consumer hears
    /// nothing of it.
    Logged,
}

/// What a handler does after a read that ended as `read` did.
pub open spec fn handled_as(read: ReadOutcome) -> Handled {
    match read {
        ReadOutcome::Read(n) => if n > 0 {
            Handled::Forwarded
        } else {
            Handled::Dropped
        },
        ReadOutcome::Failed => Handled::Logged,
    }
}

/// Finishes one connection after its single read into `buff`. Whenever any
/// byte was read the whole buffer is decoded, also where the read filled only
/// a part of it, and the outcome, a value or a failure, is queued with the
/// peer's address.
pub fn handle_connection<T: Packet, K: IntoData<T>>(
    buff: T,
    read: ReadOutcome,
    addr: PeerAddr,
    inbox: &mut Inbox<RecvInfo<Result<K>>>,
) -> (h: Handled)
    ensures
        h == handled_as(read),
        final(inbox).senders() == old(inbox).senders(),
        h == Handled::Forwarded ==> final(inbox).queued() == old(inbox).queued().push(
            RecvInfo { data: K::data_of(buff.wire()), addr },
        ),
        h != Handled::Forwarded ==> final(inbox).queued() == old(inbox).queued(),
{
    match read {
        ReadOutcome::Read(n) => {
            if n > 0 {
                let data = K::into_data(buff);
                let info = RecvInfo { data, addr };
                inbox.send(info);
                Handled::Forwarded
            } else {
                Handled::Dropped
            }
        },
        ReadOutcome::Failed => Handled::Logged,
    }
}

/// Decodes one datagram and queues the outcome with the sender's address,
/// behind the outcomes of all datagrams that arrived before it.
pub fn handle_datagram<T: Packet, K: IntoData<T>>(
    datagram: &[u8],
    addr: PeerAddr,
    inbox: &mut Inbox<RecvInfo<Result<K>>>,
)
    ensures
        final(inbox).senders() == old(inbox).senders(),
        final(inbox).queued() == old(inbox).queued().push(
            RecvInfo { data: decoded::<T, K>(datagram@), addr },
        ),
{
    let data = decode::<T, K>(datagram);
    inbox.send(RecvInfo { data, addr });
}

/// Where a receive loop stands.
#[derive(Debug, Clone, Copy, PartialEq, Eq, Structural)]
pub enum LoopState {
    /// The socket is being bound.
    Binding,
    /// The shutdown signal is being polled.
    Polling,
    /// The loop is suspended until the next peer arrives.
    Waiting,
    /// The loop has ended in success.
    Finished,
    /// The loop has ended with an I/O failure.
    Failed,
}

/// What happened to a receive loop.
#[derive(Debug, Clone, Copy, PartialEq, Eq, Structural)]
pub enum LoopEvent {
    /// The socket was bound.
    Bound,
    /// The socket could not be bound.
    BindFailed,
    /// The shutdown signal was polled.
    Polled(Signal),
    /// A connection or a datagram arrived.
    Arrived,
    /// Waiting for the next peer failed.
    WaitFailed,
}

/// What a receive loop is to do next.
#[derive(Debug, Clone, Copy, PartialEq, Eq, Structural)]
pub enum LoopAction {
    /// Poll the shutdown signal.
    Poll,
    /// Suspend until the next peer arrives.
    Wait,
    /// Hand what arrived to a handler, then poll the shutdown signal.
    Serve,
    /// Complete the task in success.
    Succeed,
    /// Complete the task with the I/O failure.
    Fail,
    /// The event does not belong to the state: nothing is done.
    Nothing,
}

/// The state after `event` and what to do then.
pub open spec fn spec_step(state: LoopState, event: LoopEvent) -> (LoopState, LoopAction) {
    match (state, event) {
        (LoopState::Binding, LoopEvent::Bound) => (LoopState::Polling, LoopAction::Poll),
        (LoopState::Binding, LoopEvent::BindFailed) => (LoopState::Failed, LoopAction::Fail),
        (LoopState::Polling, LoopEvent::Polled(signal)) => if signal == Signal::Empty {
            (LoopState::Waiting, LoopAction::Wait)
        } else {
            (LoopState::Finished, LoopAction::Succeed)
        },
        (LoopState::Waiting, LoopEvent::Arrived) => (LoopState::Polling, LoopAction::Serve),
        (LoopState::Waiting, LoopEvent::WaitFailed) => (LoopState::Failed, LoopAction::Fail),
        _ => (state, LoopAction::Nothing),
    }
}

/// Takes a receive loop through one event. A failure to bind or to wait ends
/// the loop with that failure; the signal is looked at between two waits
/// only, so a loop that is waiting serves the peer that arrives next.
pub fn step(state: LoopState, event: LoopEvent) -> (next: (LoopState, LoopAction))
    ensures
        next == spec_step(state, event),
{
    match (state, event) {
        (LoopState::Binding, LoopEvent::Bound) => (LoopState::Polling, LoopAction::Poll),
        (LoopState::Binding, LoopEvent::BindFailed) => (LoopState::Failed, LoopAction::Fail),
        (LoopState::Polling, LoopEvent::Polled(signal)) => {
            if should_continue(signal) {
                (LoopState::Waiting, LoopAction::Wait)
            } else {
                (LoopState::Finished, LoopAction::Succeed)
            }
        },
        (LoopState::Waiting, LoopEvent::Arrived) => (LoopState::Polling, LoopAction::Serve),
        (LoopState::Waiting, LoopEvent::WaitFailed) => (LoopState::Failed, LoopAction::Fail),
        _ => (state, LoopAction::Nothing),
    }
}

/// The state of a loop after a run of events.
pub open spec fn run(state: LoopState, events: Seq<LoopEvent>) -> LoopState
    decreases events.len(),
{
    if events.len() == 0 {
        state
    } else {
        run(spec_step(state, events[0]).0, events.skip(1))
    }
}

/// How often, over a run of events, a loop is told to wait for a peer or to
/// serve one.
pub open spec fn accepted(state: LoopState, events: Seq<LoopEvent>) -> nat
    decreases events.len(),
{
    if events.len() == 0 {
        0
    } else {
        let (next, action) = spec_step(state, events[0]);
        let now: nat = if action == LoopAction::Wait || action == LoopAction::Serve {
            1
        } else {
            0
        };
        now + accepted(next, events.skip(1))
    }
}

/// A loop that has ended stays ended and accepts nobody, whatever happens.
pub proof fn lemma_ended_accepts_nobody(state: LoopState, events: Seq<LoopEvent>)
    requires
        state == LoopState::Finished || state == LoopState::Failed,
    ensures
        run(state, events) == state,
        accepted(state, events) == 0,
    decreases events.len(),
{
    if events.len() > 0 {
        lemma_ended_accepts_nobody(state, events.skip(1));
    }
}

/// Once a poll has found the signal, the loop ends in success and accepts
/// nobody afterwards, whatever else happens.
pub proof fn lemma_stop_ends_the_loop(signal: Signal, rest: Seq<LoopEvent>)
    requires
        signal != Signal::Empty,
    ensures
        spec_step(LoopState::Polling, LoopEvent::Polled(signal)) == (
            LoopState::Finished,
            LoopAction::Succeed,
        ),
        run(LoopState::Polling, seq![LoopEvent::Polled(signal)] + rest) == LoopState::Finished,
        accepted(LoopState::Polling, seq![LoopEvent::Polled(signal)] + rest) == 0,
{
    let events = seq![LoopEvent::Polled(signal)] + rest;
    assert(events.skip(1) =~= rest);
    lemma_ended_accepts_nobody(LoopState::Finished, rest);
}

/// A loop that is waiting when the signal is sent does not see it: it serves
/// the peer that arrives next, and ends at the poll after that.
pub proof fn lemma_waiting_loop_serves_the_next_peer(signal: Signal)
    requires
        signal != Signal::Empty,
    ensures
        spec_step(LoopState::Waiting, LoopEvent::Polled(signal)) == (
            LoopState::Waiting,
            LoopAction::Nothing,
        ),
        spec_step(LoopState::Waiting, LoopEvent::Arrived) == (
            LoopState::Polling,
            LoopAction::Serve,
        ),
        run(LoopState::Waiting, seq![LoopEvent::Arrived, LoopEvent::Polled(signal)])
            == LoopState::Finished,
{
    let events = seq![LoopEvent::Arrived, LoopEvent::Polled(signal)];
    let rest = seq![LoopEvent::Polled(signal)];
    assert(events.skip(1) =~= rest);
    assert(rest.skip(1) =~= Seq::<LoopEvent>::empty());
    assert(run(LoopState::Finished, rest.skip(1)) == LoopState::Finished);
    assert(run(LoopState::Polling, rest) == LoopState::Finished);
}

/// The queue after `arrivals` were sent into it, one after the other.
pub open spec fn after_sends<T>(queue: Seq<T>, arrivals: Seq<T>) -> Seq<T>
    decreases arrivals.len(),
{
    if arrivals.len() == 0 {
        queue
    } else {
        after_sends(queue.push(arrivals[0]), arrivals.skip(1))
    }
}

/// What up to `polls` polls hand out of a queue that nothing is sent into
/// meanwhile, in the order in which they hand it out.
pub open spec fn received<T>(queue: Seq<T>, polls: nat) -> Seq<T>
    decreases polls,
{
    if polls == 0 || queue.len() == 0 {
        Seq::empty()
    } else {
        seq![queue[0]] + received(queue.skip(1), (polls - 1) as nat)
    }
}

/// Sending appends: the queue holds what it held, then the arrivals in
/// their order.
pub proof fn lemma_after_sends<T>(queue: Seq<T>, arrivals: Seq<T>)
    ensures
        after_sends(queue, arrivals) == queue + arrivals,
    decreases arrivals.len(),
{
    if arrivals.len() == 0 {
        assert(queue + arrivals =~= queue);
    } else {
        lemma_after_sends(queue.push(arrivals[0]), arrivals.skip(1));
        assert(queue.push(arrivals[0]) + arrivals.skip(1) =~= queue + arrivals);
    }
}

/// As many polls as a queue holds items hand out all of it, oldest first.
pub proof fn lemma_received_all<T>(queue: Seq<T>)
    ensures
        received(queue, queue.len()) == queue,
    decreases queue.len(),
{
    if queue.len() == 0 {
        assert(received(queue, queue.len()) =~= queue);
    } else {
        lemma_received_all(queue.skip(1));
        assert(seq![queue[0]] + queue.skip(1) =~= queue);
    }
}

/// What the consumer observes is what arrived, in the order of arrival:
/// after any arrivals were sent into an empty queue, that many polls hand
/// out exactly those arrivals in that order.
pub proof fn lemma_delivery_keeps_arrival_order<T>(arrivals: Seq<T>)
    ensures
        received(after_sends(Seq::<T>::empty(), arrivals), arrivals.len()) == arrivals,
{
    lemma_after_sends(Seq::<T>::empty(), arrivals);
    assert(Seq::<T>::empty() + arrivals =~= arrivals);
    lemma_received_all(arrivals);
}

} // verus!
