//! Background workers and their field channels.
//!
//! A worker hosts a task off the caller's thread. The caller holds a
//! [`WorkerHandle`]: it writes fields of the task without waiting, and reads them
//! without waiting through a cache that is refreshed behind its back. The other
//! end is a [`Worker`]: it owns the task, takes the queued messages in the order
//! in which they were sent, answers the reads, and runs the task's unit of work.
//!
//! Neither end blocks, sleeps or spawns: the handle holds the queue and the reply
//! slots, the worker says through [`Worker::next_action`] what is due next, and
//! whoever runs the worker (a thread that shares the handle behind a lock, or the
//! caller itself) performs it.

use crate::payload::{downcast_box, downcast_ref, recovered, recovers, view_of, AnyClone, Payload, PayloadView};
use std::collections::HashMap;
use std::marker::PhantomData;
use vstd::hash_map::StringHashMap;
use vstd::prelude::*;

verus! {

/// A unit of background work with named fields.
///
/// `run` may take as long as it likes. `handle_field_set` and `handle_field_get`
/// run between two calls of `run` and are expected to return at once; both
/// tolerate names they do not know and payloads of another type than the field's.
///
/// A task may describe itself by a model: a value of `Model` for each state, and
/// what one unit of work, a write and a read do to it. A task that says `modeled()`
/// promises that its methods do to its model exactly that. A task that does not
/// (the default) promises nothing, and nothing is concluded about it.
pub trait AutoThread: Sized {
    /// What the task's state is, for the purpose of contracts.
    type Model;

    /// Whether the task keeps to its own description: `model_after_run`,
    /// `model_after_set` and `model_field`.
    open spec fn modeled() -> bool {
        false
    }

    /// The model of the task's present state.
    open spec fn model(&self) -> Self::Model {
        arbitrary()
    }

    /// The model after one unit of work.
    open spec fn model_after_run(m: Self::Model) -> Self::Model {
        m
    }

    /// The model after `value` was written to `field`.
    open spec fn model_after_set(m: Self::Model, field: Seq<char>, value: PayloadView) -> Self::Model {
        m
    }

    /// What a read of `field` gives: `None` for a name the task does not know.
    open spec fn model_field(m: Self::Model, field: Seq<char>) -> Option<PayloadView> {
        None
    }

    /// Advances the task by one unit of work.
    fn run(&mut self)
        ensures
            Self::modeled() ==> final(self).model() == Self::model_after_run(old(self).model()),
    ;

    /// Applies a write to the task's state.
    fn handle_field_set(&mut self, field: &str, value: Payload)
        ensures
            Self::modeled() ==> final(self).model() == Self::model_after_set(old(self).model(), field@, value@),
    ;

    /// A copy of the named field, or `None` for a name the task does not know.
    fn handle_field_get(&self, field: &str) -> (value: Option<Payload>)
        ensures
            Self::modeled() ==> view_of(value) == Self::model_field(self.model(), field@),
    ;
}

/// What is sent to a worker.
#[derive(Debug, PartialEq)]
pub enum Message {
    /// Write the payload to the named field; no reply is expected.
    SetField(String, Payload),
    /// Read the named field and answer on the reply slot with the given ticket.
    GetField(String, u64),
}

/// A message with its name and payload as plain values.
pub enum MessageView {
    SetField(Seq<char>, PayloadView),
    GetField(Seq<char>, u64),
}

impl View for Message {
    type V = MessageView;

    open spec fn view(&self) -> MessageView {
        match self {
            Message::SetField(key, value) => MessageView::SetField(key@, value@),
            Message::GetField(key, ticket) => MessageView::GetField(key@, *ticket),
        }
    }
}

/// The answer to one read: the field's value, or `None` where the task does not
/// know the field and the reply slot is closed without a value.
pub struct ReplyView {
    pub ticket: u64,
    pub value: Option<PayloadView>,
}

/// The state of one reply slot.
pub enum Slot {
    /// The read was sent and not answered yet.
    Waiting,
    /// The answer arrived and was not taken yet.
    Ready(Payload),
    /// The slot was closed without a value.
    Closed,
}

/// A reply slot with its payload as a plain value.
pub enum SlotView {
    Waiting,
    Ready(PayloadView),
    Closed,
}

impl View for Slot {
    type V = SlotView;

    open spec fn view(&self) -> SlotView {
        match self {
            Slot::Waiting => SlotView::Waiting,
            Slot::Ready(value) => SlotView::Ready(value@),
            Slot::Closed => SlotView::Closed,
        }
    }
}

/// What a look at a reply slot finds, without waiting.
#[derive(Debug, PartialEq)]
pub enum ReplyStatus {
    /// The answer; the slot is used up.
    Arrived(Payload),
    /// No answer yet; the slot stays.
    Empty,
    /// The slot was closed without a value, or never existed; it is used up.
    Disconnected,
}

/// A reply status with its payload as a plain value.
pub enum ReplyStatusView {
    Arrived(PayloadView),
    Empty,
    Disconnected,
}

impl View for ReplyStatus {
    type V = ReplyStatusView;

    open spec fn view(&self) -> ReplyStatusView {
        match self {
            ReplyStatus::Arrived(value) => ReplyStatusView::Arrived(value@),
            ReplyStatus::Empty => ReplyStatusView::Empty,
            ReplyStatus::Disconnected => ReplyStatusView::Disconnected,
        }
    }
}

/// The ticket that stands for a read that could not be sent. No reply slot ever
/// has it.
pub const NO_TICKET: u64 = u64::MAX;

/// The caller's end of a worker, as plain values.
pub struct HandleView {
    /// The messages sent and not yet taken by the worker, oldest first.
    pub queue: Seq<MessageView>,
    /// Whether the worker was asked to stop.
    pub stop_requested: bool,
    /// Whether the worker still takes messages.
    pub connected: bool,
    /// The last known running state.
    pub running: bool,
    /// The last value seen for each field.
    pub cache: Map<Seq<char>, PayloadView>,
    /// For each field with a read under way, the ticket of its reply slot.
    pub pending: Map<Seq<char>, u64>,
    /// The reply slots that were opened and not used up, by ticket.
    pub slots: Map<u64, SlotView>,
    /// The ticket that the next read gets.
    pub next_ticket: u64,
}

impl HandleView {
    /// No slot has a ticket that is still to be given out; every read under way
    /// has a ticket that was given out, or the one that stands for a failed send;
    /// and no two reads under way share a ticket that was given out.
    pub open spec fn well_formed(self) -> bool {
        &&& forall|t: u64| self.slots.contains_key(t) ==> t < self.next_ticket
        &&& forall|k: Seq<char>| #[trigger]
            self.pending.contains_key(k) ==> self.pending[k] < self.next_ticket || self.pending[k] == NO_TICKET
        &&& forall|k: Seq<char>, l: Seq<char>|
            #![trigger self.pending.contains_key(k), self.pending.contains_key(l)]
            self.pending.contains_key(k) && self.pending.contains_key(l) && k != l ==> self.pending[k]
                != self.pending[l] || self.pending[k] == NO_TICKET
    }

    /// A handle fresh from `start`.
    pub open spec fn fresh() -> HandleView {
        HandleView {
            queue: Seq::empty(),
            stop_requested: false,
            connected: true,
            running: true,
            cache: Map::empty(),
            pending: Map::empty(),
            slots: Map::empty(),
            next_ticket: 0,
        }
    }

    /// Sending: the message joins the end of the queue, or is dropped where the
    /// worker takes no more messages.
    pub open spec fn send(self, message: MessageView) -> HandleView {
        if self.connected {
            HandleView { queue: self.queue.push(message), ..self }
        } else {
            self
        }
    }

    /// A write of `value` to the field `key`.
    pub open spec fn set_field(self, key: Seq<char>, value: PayloadView) -> HandleView {
        self.send(MessageView::SetField(key, value))
    }

    /// Whether a read can be sent: the worker takes messages and a ticket is left.
    pub open spec fn can_request(self) -> bool {
        self.connected && self.next_ticket < NO_TICKET
    }

    /// The ticket that a read asked for now gets.
    pub open spec fn request_ticket(self) -> u64 {
        if self.can_request() {
            self.next_ticket
        } else {
            NO_TICKET
        }
    }

    /// A read of the field `key`: the message is queued and a waiting slot opened
    /// under the next ticket. Where no read can be sent nothing changes.
    pub open spec fn request(self, key: Seq<char>) -> HandleView {
        if self.can_request() {
            HandleView {
                queue: self.queue.push(MessageView::GetField(key, self.next_ticket)),
                slots: self.slots.insert(self.next_ticket, SlotView::Waiting),
                next_ticket: (self.next_ticket + 1) as u64,
                ..self
            }
        } else {
            self
        }
    }

    /// What a look at the slot of `ticket` finds. A slot that is missing, and one
    /// that waits for a worker that takes no more messages, count as closed.
    pub open spec fn status(self, ticket: u64) -> ReplyStatusView {
        if self.slots.contains_key(ticket) {
            match self.slots[ticket] {
                SlotView::Ready(value) => ReplyStatusView::Arrived(value),
                SlotView::Closed => ReplyStatusView::Disconnected,
                SlotView::Waiting => if self.connected {
                    ReplyStatusView::Empty
                } else {
                    ReplyStatusView::Disconnected
                },
            }
        } else {
            ReplyStatusView::Disconnected
        }
    }

    /// The handle after a look at the slot of `ticket`: the slot is used up unless
    /// it still waits.
    pub open spec fn take(self, ticket: u64) -> HandleView {
        if self.status(ticket) is Empty {
            self
        } else {
            HandleView { slots: self.slots.remove(ticket), ..self }
        }
    }

    /// The cached value of `key`, where there is one and it is of type `U`.
    pub open spec fn cached<U: AnyClone>(self, key: Seq<char>) -> Option<PayloadView> {
        recovered::<U>(
            if self.cache.contains_key(key) {
                Some(self.cache[key])
            } else {
                None
            },
        )
    }

    /// What a poll of `key` for a value of type `U` returns.
    ///
    /// With a read under way: the answer where it has arrived and is of type `U`
    /// (nothing where it is of another type), else the cached value. With no read
    /// under way: the cached value.
    pub open spec fn poll_result<U: AnyClone>(self, key: Seq<char>) -> Option<PayloadView> {
        if self.pending.contains_key(key) {
            match self.status(self.pending[key]) {
                ReplyStatusView::Arrived(value) => recovered::<U>(Some(value)),
                ReplyStatusView::Empty => self.cached::<U>(key),
                ReplyStatusView::Disconnected => self.cached::<U>(key),
            }
        } else {
            self.cached::<U>(key)
        }
    }

    /// The handle after a poll of `key` for a value of type `U`.
    ///
    /// With a read under way: an answer that has arrived uses the slot up, ends
    /// the read and, where it is of type `U`, replaces the cached value; a closed
    /// slot ends the read; a waiting slot leaves everything as it is. With no read
    /// under way a new one is sent and recorded.
    pub open spec fn poll<U: AnyClone>(self, key: Seq<char>) -> HandleView {
        if self.pending.contains_key(key) {
            let ticket = self.pending[key];
            match self.status(ticket) {
                ReplyStatusView::Arrived(value) => HandleView {
                    pending: self.pending.remove(key),
                    cache: if U::carried_by(value) {
                        self.cache.insert(key, value)
                    } else {
                        self.cache
                    },
                    ..self.take(ticket)
                },
                ReplyStatusView::Empty => self,
                ReplyStatusView::Disconnected => HandleView {
                    pending: self.pending.remove(key),
                    ..self.take(ticket)
                },
            }
        } else {
            HandleView { pending: self.pending.insert(key, self.request_ticket()), ..self.request(key) }
        }
    }

    /// An answer reaches its slot: a waiting slot becomes ready, or closed where
    /// the answer holds no value. An answer for any other slot is dropped.
    pub open spec fn deliver(self, reply: ReplyView) -> HandleView {
        if self.slots.contains_key(reply.ticket) && self.slots[reply.ticket] is Waiting {
            HandleView {
                slots: self.slots.insert(
                    reply.ticket,
                    match reply.value {
                        Some(value) => SlotView::Ready(value),
                        None => SlotView::Closed,
                    },
                ),
                ..self
            }
        } else {
            self
        }
    }

    /// The answers reach their slots one after another, the first one first.
    pub open spec fn deliver_all(self, replies: Seq<ReplyView>) -> HandleView
        decreases replies.len(),
    {
        if replies.len() == 0 {
            self
        } else {
            self.deliver_all(replies.drop_last()).deliver(replies.last())
        }
    }

    /// The worker has gone: what was queued is dropped with it, nothing is queued
    /// from now on, and the worker is known not to run.
    pub open spec fn disconnect(self) -> HandleView {
        HandleView { connected: false, running: false, queue: Seq::empty(), ..self }
    }
}

/// The caller's end of a worker that hosts a task of type `T`.
pub struct WorkerHandle<T: AutoThread> {
    queue: Vec<Message>,
    stop_requested: bool,
    connected: bool,
    running: bool,
    cache: StringHashMap<Payload>,
    pending: StringHashMap<u64>,
    slots: HashMap<u64, Slot>,
    next_ticket: u64,
    _marker: PhantomData<T>,
}

impl<T: AutoThread> View for WorkerHandle<T> {
    type V = HandleView;

    closed spec fn view(&self) -> HandleView {
        HandleView {
            queue: self.queue@.map_values(|m: Message| m@),
            stop_requested: self.stop_requested,
            connected: self.connected,
            running: self.running,
            cache: self.cache@.map_values(|p: Payload| p@),
            pending: self.pending@,
            slots: self.slots@.map_values(|s: Slot| s@),
            next_ticket: self.next_ticket,
        }
    }
}

impl<T: AutoThread> WorkerHandle<T> {
    /// Makes the two ends of a worker for the task `inner`: the handle, with
    /// nothing queued, cached or under way, and the worker, which owns the task and
    /// stands at the start of its first round. A looping worker runs round after
    /// round until it is asked to stop; a one-shot worker runs one round.
    pub fn start(inner: T, should_loop: bool) -> (ends: (WorkerHandle<T>, Worker<T>))
        ensures
            ends.0@ == HandleView::fresh(),
            ends.1@ == (WorkerView { task: inner.model(), should_loop, phase: Phase::Draining, steps: 0 }),
    {
        let handle = WorkerHandle {
            queue: Vec::new(),
            stop_requested: false,
            connected: true,
            running: true,
            cache: StringHashMap::new(),
            pending: StringHashMap::new(),
            slots: HashMap::new(),
            next_ticket: 0,
            _marker: PhantomData,
        };
        let worker = Worker { task: inner, should_loop, phase: Phase::Draining, steps: Ghost(0) };
        proof {
            assert(handle.queue@.map_values(|m: Message| m@) =~= Seq::<MessageView>::empty());
            assert(handle.cache@.map_values(|p: Payload| p@) =~= Map::<Seq<char>, PayloadView>::empty());
            assert(handle.slots@.map_values(|s: Slot| s@) =~= Map::<u64, SlotView>::empty());
        }
        (handle, worker)
    }

    /// Stops the worker and uses the handle up: the stop request is set, what is
    /// left of the worker's round is run to its end on the caller's thread, and
    /// the worker comes back ended. The unit of work is run at most once more. A
    /// worker that had ended before comes back as it was.
    pub fn stop(self, worker: Worker<T>) -> (ended: Worker<T>)
        ensures
            ended@.phase == Phase::Exited,
            ended@.same_course(round_worker::<T>(worker@, HandleView { stop_requested: true, ..self@ })),
            T::modeled() ==> ended@ == round_worker::<T>(worker@, HandleView { stop_requested: true, ..self@ }),
    {
        let mut handle = self;
        let mut ended = worker;
        handle.request_stop();
        ended.run_iteration(&mut handle);
        ended
    }

    /// The last known running state: true from `start` on, false once the handle
    /// was told that the worker has gone. The handle does not find that out by
    /// itself.
    pub fn is_running(&self) -> (running: bool)
        ensures
            running == self@.running,
    {
        self.running
    }

    /// Whether the worker was asked to stop.
    pub fn stop_requested(&self) -> (requested: bool)
        ensures
            requested == self@.stop_requested,
    {
        self.stop_requested
    }

    /// Asks the worker to stop. A looping worker obeys at the end of the round
    /// it is in.
    pub fn request_stop(&mut self)
        ensures
            final(self)@ == (HandleView { stop_requested: true, ..old(self)@ }),
    {
        self.stop_requested = true;
    }

    /// Notes that the worker has gone: what was queued is dropped, later messages
    /// are dropped as they are sent, and every slot that still waits counts as
    /// closed.
    pub fn disconnect(&mut self)
        ensures
            final(self)@ == old(self)@.disconnect(),
    {
        self.connected = false;
        self.running = false;
        self.queue = Vec::new();
        assert(self.queue@.map_values(|m: Message| m@) =~= Seq::<MessageView>::empty());
    }

    /// Queues a message, or drops it where the worker takes no more messages.
    fn send(&mut self, message: Message)
        ensures
            final(self)@ == old(self)@.send(message@),
    {
        if self.connected {
            self.queue.push(message);
            assert(self.queue@.map_values(|m: Message| m@) =~= old(self).queue@.map_values(|m: Message| m@).push(
                message@,
            ));
        }
    }

    /// Writes `value` to the task's field `key`, without waiting and without an
    /// answer. The write is queued behind everything sent before it; where the
    /// worker has gone it is dropped.
    pub fn set_field<U: AnyClone>(&mut self, key: &str, value: U)
        ensures
            final(self)@ == old(self)@.set_field(key@, value.boxed()),
    {
        let payload = value.clone_box();
        self.send(Message::SetField(key.to_owned(), payload));
    }

    /// Sends a read of the field `key` and returns the ticket of its reply slot at
    /// once, for the caller to look at with `try_recv` when it likes. The tables
    /// of `poll_field` are not touched. Where no read can be sent the ticket is
    /// `NO_TICKET`, whose slot counts as closed.
    pub fn get_field_async(&mut self, key: &str) -> (ticket: u64)
        ensures
            final(self)@ == old(self)@.request(key@),
            ticket == old(self)@.request_ticket(),
    {
        if self.connected && self.next_ticket < NO_TICKET {
            let ticket: u64 = self.next_ticket;
            self.next_ticket = ticket + 1;
            self.slots.insert(ticket, Slot::Waiting);
            self.queue.push(Message::GetField(key.to_owned(), ticket));
            proof {
                assert(self.queue@.map_values(|m: Message| m@) =~= old(self).queue@.map_values(|m: Message| m@).push(
                    MessageView::GetField(key@, ticket),
                ));
                assert(self.slots@.map_values(|s: Slot| s@) =~= old(self).slots@.map_values(|s: Slot| s@).insert(
                    ticket,
                    SlotView::Waiting,
                ));
            }
            ticket
        } else {
            NO_TICKET
        }
    }

    /// Looks at the reply slot of `ticket` without waiting. An answer or a closed
    /// slot uses the slot up; a slot that still waits stays.
    pub fn try_recv(&mut self, ticket: u64) -> (status: ReplyStatus)
        ensures
            status@ == old(self)@.status(ticket),
            final(self)@ == old(self)@.take(ticket),
    {
        let waiting: bool = match self.slots.get(&ticket) {
            Some(Slot::Waiting) => true,
            _ => false,
        };
        if waiting && self.connected {
            ReplyStatus::Empty
        } else {
            let taken = self.slots.remove(&ticket);
            proof {
                assert(self.slots@.map_values(|s: Slot| s@) =~= old(self).slots@.map_values(|s: Slot| s@).remove(
                    ticket,
                ));
            }
            match taken {
                Some(Slot::Ready(value)) => ReplyStatus::Arrived(value),
                _ => ReplyStatus::Disconnected,
            }
        }
    }

    /// Reads the task's field `key` and waits for the answer. The read is sent;
    /// the worker is run on the caller's thread, first to the end of the round it
    /// is in the middle of, if any, then through the drain that reaches the read;
    /// then the read's slot is looked at. Returns the answer where it is of type
    /// `U`; `None` where it is of another type, where the task does not know the
    /// field, and where the worker has gone or goes before it reaches the read.
    pub fn get_field<U: AnyClone>(&mut self, worker: &mut Worker<T>, key: &str) -> (value: Option<U>)
        ensures
            final(worker)@.same_course(awaited_worker::<T>(old(worker)@, old(self)@.request(key@))),
            T::modeled() ==> {
                &&& final(worker)@ == awaited_worker::<T>(old(worker)@, old(self)@.request(key@))
                &&& final(self)@ == awaited_handle::<T>(old(worker)@, old(self)@.request(key@)).take(
                    old(self)@.request_ticket(),
                )
                &&& recovers(
                    value,
                    recovered::<U>(
                        answer_in(
                            awaited_handle::<T>(old(worker)@, old(self)@.request(key@)),
                            old(self)@.request_ticket(),
                        ),
                    ),
                )
            },
    {
        let ticket = self.get_field_async(key);
        match worker.phase() {
            Phase::Draining => {},
            _ => {
                worker.run_iteration(self);
            },
        }
        worker.drain(self);
        match self.try_recv(ticket) {
            ReplyStatus::Arrived(payload) => match downcast_box::<U>(payload) {
                Ok(value) => Some(value),
                Err(_) => None,
            },
            _ => None,
        }
    }

    /// Puts an answer into its reply slot: a waiting slot becomes ready, or closed
    /// where there is no value. An answer for any other slot is dropped.
    fn deliver(&mut self, ticket: u64, value: Option<Payload>)
        ensures
            final(self)@ == old(self)@.deliver(ReplyView { ticket, value: view_of(value) }),
    {
        let waiting: bool = match self.slots.get(&ticket) {
            Some(Slot::Waiting) => true,
            _ => false,
        };
        if waiting {
            let slot = match value {
                Some(payload) => Slot::Ready(payload),
                None => Slot::Closed,
            };
            self.slots.insert(ticket, slot);
            proof {
                assert(self.slots@.map_values(|s: Slot| s@) =~= old(self).slots@.map_values(|s: Slot| s@).insert(
                    ticket,
                    slot@,
                ));
            }
        }
    }

    /// The cached value of `key` as a `U`, where there is one of that type.
    fn cached<U: AnyClone>(&self, key: &str) -> (value: Option<U>)
        ensures
            recovers(value, self@.cached::<U>(key@)),
    {
        match self.cache.get(key) {
            Some(payload) => downcast_ref::<U>(payload),
            None => None,
        }
    }

    /// Reads the task's field `key` without waiting.
    ///
    /// With a read of `key` under way, its reply slot is looked at. An answer of
    /// type `U` is cached and returned, and the read is over; an answer of another
    /// type ends the read and gives `None`. While the slot waits, the cached value
    /// is returned and nothing is sent. A closed slot ends the read and the cached
    /// value is returned. With no read under way, one is sent and recorded, and
    /// the cached value is returned. The cached value is `None` where nothing of
    /// type `U` is cached for `key`.
    pub fn poll_field<U: AnyClone>(&mut self, key: &str) -> (value: Option<U>)
        ensures
            final(self)@ == old(self)@.poll::<U>(key@),
            recovers(value, old(self)@.poll_result::<U>(key@)),
    {
        let under_way: Option<u64> = match self.pending.get(key) {
            Some(ticket) => Some(*ticket),
            None => None,
        };
        match under_way {
            Some(ticket) => {
                match self.try_recv(ticket) {
                    ReplyStatus::Arrived(payload) => {
                        self.pending.remove(key);
                        match downcast_box::<U>(payload) {
                            Ok(value) => {
                                let copy = value.clone_box();
                                self.cache.insert(key.to_owned(), copy);
                                proof {
                                    assert(self.cache@.map_values(|p: Payload| p@) =~= old(self).cache@.map_values(
                                        |p: Payload| p@,
                                    ).insert(key@, copy@));
                                }
                                Some(value)
                            },
                            Err(_) => None,
                        }
                    },
                    ReplyStatus::Empty => self.cached::<U>(key),
                    ReplyStatus::Disconnected => {
                        self.pending.remove(key);
                        self.cached::<U>(key)
                    },
                }
            },
            None => {
                let ticket = self.get_field_async(key);
                self.pending.insert(key.to_owned(), ticket);
                self.cached::<U>(key)
            },
        }
    }
}


/// Where a worker stands in its round.
#[derive(Clone, Copy, Debug, PartialEq, Eq, Structural)]
pub enum Phase {
    /// The queued messages are to be taken and applied.
    Draining,
    /// The task's unit of work is to be run.
    Stepping,
    /// A looping worker is to give the processor away for a moment.
    Yielding,
    /// The stop request is to be looked at.
    Checking,
    /// The worker has ended; nothing more happens.
    Exited,
}

/// What whoever runs a worker has to do next.
#[derive(Clone, Copy, Debug, PartialEq, Eq, Structural)]
pub enum Action {
    /// Call `drain`, with the handle.
    Drain,
    /// Call `step`, without holding the handle.
    Step,
    /// Pause briefly, then call `yielded`.
    Sleep,
    /// Call `check_stop`, with the handle.
    CheckStop,
    /// End the thread.
    Exit,
}

/// The action that is due in a phase.
pub open spec fn action_for(phase: Phase) -> Action {
    match phase {
        Phase::Draining => Action::Drain,
        Phase::Stepping => Action::Step,
        Phase::Yielding => Action::Sleep,
        Phase::Checking => Action::CheckStop,
        Phase::Exited => Action::Exit,
    }
}

/// A worker as plain values, with its task as the task's model.
pub struct WorkerView<M> {
    pub task: M,
    /// Whether the worker runs round after round, or one round only.
    pub should_loop: bool,
    pub phase: Phase,
    /// How often the task's unit of work was run.
    pub steps: nat,
}

impl<M> WorkerView<M> {
    /// Whether two workers agree in everything but their tasks.
    pub open spec fn same_course(self, other: WorkerView<M>) -> bool {
        &&& self.should_loop == other.should_loop
        &&& self.phase == other.phase
        &&& self.steps == other.steps
    }

    /// The worker after its pause: a yielding worker goes on to look at the stop
    /// request, any other stays as it is.
    pub open spec fn yielded(self) -> WorkerView<M> {
        if self.phase == Phase::Yielding {
            WorkerView { phase: Phase::Checking, ..self }
        } else {
            self
        }
    }

    /// Whether a worker that looks at the stop request now ends: a one-shot
    /// worker always, a looping one where it was asked to stop.
    pub open spec fn exits(self, stop_requested: bool) -> bool {
        self.phase == Phase::Checking && (!self.should_loop || stop_requested)
    }

    /// The worker after its look at the stop request.
    pub open spec fn checked(self, stop_requested: bool) -> WorkerView<M> {
        if self.phase == Phase::Checking {
            WorkerView {
                phase: if self.exits(stop_requested) {
                    Phase::Exited
                } else {
                    Phase::Draining
                },
                ..self
            }
        } else {
            self
        }
    }
}

/// The task's model after the queued messages were applied, the oldest first:
/// each write changes it, a read leaves it as it is.
pub open spec fn drained_task<T: AutoThread>(m: T::Model, queue: Seq<MessageView>) -> T::Model
    decreases queue.len(),
{
    if queue.len() == 0 {
        m
    } else {
        let before = drained_task::<T>(m, queue.drop_last());
        match queue.last() {
            MessageView::SetField(key, value) => T::model_after_set(before, key, value),
            MessageView::GetField(_, _) => before,
        }
    }
}

/// The answers to the reads among the queued messages, in the order of the reads:
/// each holds what the field was when its read was reached, after all writes
/// queued before it.
pub open spec fn replies_of<T: AutoThread>(m: T::Model, queue: Seq<MessageView>) -> Seq<ReplyView>
    decreases queue.len(),
{
    if queue.len() == 0 {
        Seq::empty()
    } else {
        let earlier = replies_of::<T>(m, queue.drop_last());
        match queue.last() {
            MessageView::SetField(_, _) => earlier,
            MessageView::GetField(key, ticket) => earlier.push(
                ReplyView { ticket, value: T::model_field(drained_task::<T>(m, queue.drop_last()), key) },
            ),
        }
    }
}

/// Whether `replies` answers the reads among the queued messages: one answer for
/// each read, in the order of the reads, under the read's ticket.
pub open spec fn answers(queue: Seq<MessageView>, replies: Seq<ReplyView>) -> bool
    decreases queue.len(),
{
    if queue.len() == 0 {
        replies.len() == 0
    } else {
        match queue.last() {
            MessageView::SetField(_, _) => answers(queue.drop_last(), replies),
            MessageView::GetField(_, ticket) => {
                &&& replies.len() > 0
                &&& replies.last().ticket == ticket
                &&& answers(queue.drop_last(), replies.drop_last())
            },
        }
    }
}

/// Whether the handle `after` is the handle `before` with its queue taken and
/// answered by `replies`: one answer for each queued read, in the order of the
/// reads, each put into the slot of its read.
pub open spec fn served_by(before: HandleView, after: HandleView, replies: Seq<ReplyView>) -> bool {
    &&& answers(before.queue, replies)
    &&& after == (HandleView { queue: Seq::empty(), ..before }).deliver_all(replies)
}

/// The worker after `drain`: in the draining phase the queued messages are applied
/// to the task and the unit of work is due; in any other phase nothing happens.
pub open spec fn drained<T: AutoThread>(w: WorkerView<T::Model>, queue: Seq<MessageView>) -> WorkerView<T::Model> {
    if w.phase == Phase::Draining {
        WorkerView { task: drained_task::<T>(w.task, queue), phase: Phase::Stepping, ..w }
    } else {
        w
    }
}

/// The worker after `step`: in the stepping phase the unit of work is run once; a
/// looping worker then pauses, a one-shot worker goes on to end. In any other
/// phase nothing happens.
pub open spec fn stepped<T: AutoThread>(w: WorkerView<T::Model>) -> WorkerView<T::Model> {
    if w.phase == Phase::Stepping {
        WorkerView {
            task: T::model_after_run(w.task),
            phase: if w.should_loop {
                Phase::Yielding
            } else {
                Phase::Checking
            },
            steps: w.steps + 1,
            ..w
        }
    } else {
        w
    }
}

/// The worker after the rest of its round: what `drain`, `step`, the pause and
/// `check_stop` do one after another, each in its phase.
pub open spec fn round_worker<T: AutoThread>(w: WorkerView<T::Model>, h: HandleView) -> WorkerView<T::Model> {
    stepped::<T>(drained::<T>(w, h.queue)).yielded().checked(h.stop_requested)
}

/// The handle after the worker's `drain` where the task follows its model.
pub open spec fn drained_handle<T: AutoThread>(w: WorkerView<T::Model>, h: HandleView) -> HandleView {
    if w.phase == Phase::Draining {
        (HandleView { queue: Seq::empty(), ..h }).deliver_all(replies_of::<T>(w.task, h.queue))
    } else {
        h
    }
}

/// The handle after the worker's `check_stop`.
pub open spec fn checked_handle<M>(w: WorkerView<M>, h: HandleView) -> HandleView {
    if w.exits(h.stop_requested) {
        h.disconnect()
    } else {
        h
    }
}

/// The handle after the rest of the worker's round where the task follows its
/// model.
pub open spec fn round_handle<T: AutoThread>(w: WorkerView<T::Model>, h: HandleView) -> HandleView {
    checked_handle(stepped::<T>(drained::<T>(w, h.queue)).yielded(), drained_handle::<T>(w, h))
}

/// The worker at the moment a blocking read returns: the round under way, if the
/// worker stands in the middle of one, was run to its end, and the messages queued
/// by then were drained.
pub open spec fn awaited_worker<T: AutoThread>(w: WorkerView<T::Model>, h: HandleView) -> WorkerView<T::Model> {
    if w.phase == Phase::Draining {
        drained::<T>(w, h.queue)
    } else {
        drained::<T>(round_worker::<T>(w, h), round_handle::<T>(w, h).queue)
    }
}

/// The handle at the moment a blocking read returns, before its slot is looked at,
/// where the task follows its model.
pub open spec fn awaited_handle<T: AutoThread>(w: WorkerView<T::Model>, h: HandleView) -> HandleView {
    if w.phase == Phase::Draining {
        drained_handle::<T>(w, h)
    } else {
        drained_handle::<T>(round_worker::<T>(w, h), round_handle::<T>(w, h))
    }
}

/// The answer that a look at the slot of `ticket` takes out of it, if any.
pub open spec fn answer_in(h: HandleView, ticket: u64) -> Option<PayloadView> {
    match h.status(ticket) {
        ReplyStatusView::Arrived(value) => Some(value),
        _ => None,
    }
}

/// The background end of a worker: the task and where it stands in its round.
pub struct Worker<T: AutoThread> {
    task: T,
    should_loop: bool,
    phase: Phase,
    steps: Ghost<nat>,
}

impl<T: AutoThread> View for Worker<T> {
    type V = WorkerView<T::Model>;

    closed spec fn view(&self) -> WorkerView<T::Model> {
        WorkerView { task: self.task.model(), should_loop: self.should_loop, phase: self.phase, steps: self.steps@ }
    }
}

impl<T: AutoThread> Worker<T> {
    /// Where the worker stands in its round.
    pub fn phase(&self) -> (phase: Phase)
        ensures
            phase == self@.phase,
    {
        self.phase
    }

    /// Whether the worker has ended.
    pub fn has_exited(&self) -> (exited: bool)
        ensures
            exited == (self@.phase == Phase::Exited),
    {
        match self.phase {
            Phase::Exited => true,
            _ => false,
        }
    }

    /// What is due next.
    pub fn next_action(&self) -> (action: Action)
        ensures
            action == action_for(self@.phase),
    {
        match self.phase {
            Phase::Draining => Action::Drain,
            Phase::Stepping => Action::Step,
            Phase::Yielding => Action::Sleep,
            Phase::Checking => Action::CheckStop,
            Phase::Exited => Action::Exit,
        }
    }

    /// The task, for reading.
    pub fn task(&self) -> (task: &T)
        ensures
            task.model() == self@.task,
    {
        &self.task
    }

    /// Gives the task back and uses the worker up.
    pub fn into_task(self) -> (task: T)
        ensures
            task.model() == self@.task,
    {
        self.task
    }

    /// Takes every queued message off the handle, the oldest first. A write is
    /// applied to the task. A read is answered on its reply slot with the field's
    /// value as it is then, or the slot is closed where the task does not know the
    /// field: one answer for each read, never more. Then the unit of work is due.
    /// In any phase but the draining one nothing happens.
    pub fn drain(&mut self, handle: &mut WorkerHandle<T>)
        ensures
            final(self)@.same_course(drained::<T>(old(self)@, old(handle)@.queue)),
            T::modeled() || old(self)@.phase != Phase::Draining ==> {
                &&& final(self)@ == drained::<T>(old(self)@, old(handle)@.queue)
                &&& final(handle)@ == drained_handle::<T>(old(self)@, old(handle)@)
            },
            old(self)@.phase == Phase::Draining ==> exists|replies: Seq<ReplyView>|
                served_by(old(handle)@, final(handle)@, replies),
    {
        match self.phase {
            Phase::Draining => {},
            _ => {
                return ;
            },
        }
        let mut batch: Vec<Message> = Vec::new();
        std::mem::swap(&mut batch, &mut handle.queue);
        let ghost queue = old(handle)@.queue;
        let ghost start = HandleView { queue: Seq::empty(), ..old(handle)@ };
        let ghost first = old(self)@.task;
        let ghost mut replies: Seq<ReplyView> = Seq::empty();
        proof {
            assert(batch@.map_values(|m: Message| m@) == queue);
            assert(handle.queue@.map_values(|m: Message| m@) =~= Seq::<MessageView>::empty());
            assert(handle@ == start);
            assert(queue.take(0) =~= Seq::<MessageView>::empty());
        }
        let mut i: usize = 0;
        while i < batch.len()
            invariant
                0 <= i <= batch.len(),
                batch@.map_values(|m: Message| m@) == queue,
                handle@ == start.deliver_all(replies),
                answers(queue.take(i as int), replies),
                self.should_loop == old(self).should_loop,
                self.phase == old(self).phase,
                self.steps == old(self).steps,
                T::modeled() ==> self.task.model() == drained_task::<T>(first, queue.take(i as int)),
                T::modeled() ==> replies == replies_of::<T>(first, queue.take(i as int)),
            decreases batch.len() - i,
        {
            proof {
                assert(queue.take(i + 1).drop_last() =~= queue.take(i as int));
                assert(queue.take(i + 1).last() == queue[i as int]);
                assert(queue[i as int] == batch@[i as int]@);
            }
            match &batch[i] {
                Message::SetField(key, value) => {
                    self.task.handle_field_set(key.as_str(), value.clone());
                },
                Message::GetField(key, ticket) => {
                    let value = self.task.handle_field_get(key.as_str());
                    let ghost reply = ReplyView { ticket: *ticket, value: view_of(value) };
                    handle.deliver(*ticket, value);
                    proof {
                        assert(replies.push(reply).drop_last() =~= replies);
                        replies = replies.push(reply);
                    }
                },
            }
            i = i + 1;
        }
        proof {
            assert(queue.take(batch.len() as int) =~= queue);
            assert(served_by(old(handle)@, handle@, replies));
        }
        self.phase = Phase::Stepping;
    }

    /// Runs the task's unit of work once. A looping worker is then due to pause,
    /// a one-shot worker to end. In any phase but the stepping one nothing
    /// happens.
    pub fn step(&mut self)
        ensures
            final(self)@.same_course(stepped::<T>(old(self)@)),
            T::modeled() || old(self)@.phase != Phase::Stepping ==> final(self)@ == stepped::<T>(old(self)@),
    {
        match self.phase {
            Phase::Stepping => {
                self.task.run();
                self.steps = Ghost((self.steps@ + 1) as nat);
                if self.should_loop {
                    self.phase = Phase::Yielding;
                } else {
                    self.phase = Phase::Checking;
                }
            },
            _ => {},
        }
    }

    /// Notes that the pause is over: the stop request is due to be looked at. In
    /// any phase but the yielding one nothing happens.
    pub fn yielded(&mut self)
        ensures
            final(self)@ == old(self)@.yielded(),
    {
        match self.phase {
            Phase::Yielding => {
                self.phase = Phase::Checking;
            },
            _ => {},
        }
    }

    /// Looks at the stop request. A one-shot worker ends; a looping worker ends
    /// where it was asked to stop and else starts its next round. A worker that
    /// ends tells the handle that it has gone. In any phase but the checking one
    /// nothing happens.
    pub fn check_stop(&mut self, handle: &mut WorkerHandle<T>)
        ensures
            final(self)@ == old(self)@.checked(old(handle)@.stop_requested),
            final(handle)@ == checked_handle(old(self)@, old(handle)@),
    {
        match self.phase {
            Phase::Checking => {
                if !self.should_loop || handle.stop_requested() {
                    self.phase = Phase::Exited;
                    handle.disconnect();
                } else {
                    self.phase = Phase::Draining;
                }
            },
            _ => {},
        }
    }

    /// Runs what is left of the worker's round on the caller's thread, without
    /// the pause: `drain`, `step`, `yielded` and `check_stop`, each of which acts
    /// only in its phase. Afterwards the worker stands at the start of its next
    /// round, or has ended.
    pub fn run_iteration(&mut self, handle: &mut WorkerHandle<T>)
        ensures
            final(self)@.same_course(round_worker::<T>(old(self)@, old(handle)@)),
            final(self)@.phase == Phase::Draining || final(self)@.phase == Phase::Exited,
            final(handle)@.stop_requested == old(handle)@.stop_requested,
            T::modeled() ==> {
                &&& final(self)@ == round_worker::<T>(old(self)@, old(handle)@)
                &&& final(handle)@ == round_handle::<T>(old(self)@, old(handle)@)
            },
    {
        self.drain(handle);
        proof {
            if old(self)@.phase == Phase::Draining {
                let replies = choose|replies: Seq<ReplyView>| served_by(old(handle)@, handle@, replies);
                lemma_deliver_all_keeps_stop(HandleView { queue: Seq::empty(), ..old(handle)@ }, replies);
            }
        }
        self.step();
        self.yielded();
        self.check_stop(handle);
    }
}

/// Answers change reply slots and nothing else.
pub proof fn lemma_deliver_all_keeps_stop(h: HandleView, replies: Seq<ReplyView>)
    ensures
        h.deliver_all(replies).stop_requested == h.stop_requested,
        h.deliver_all(replies).connected == h.connected,
        h.deliver_all(replies).running == h.running,
        h.deliver_all(replies).queue == h.queue,
        h.deliver_all(replies).cache == h.cache,
        h.deliver_all(replies).pending == h.pending,
        h.deliver_all(replies).next_ticket == h.next_ticket,
        h.deliver_all(replies).slots.dom() == h.slots.dom(),
        h.well_formed() ==> h.deliver_all(replies).well_formed(),
    decreases replies.len(),
{
    if replies.len() > 0 {
        lemma_deliver_all_keeps_stop(h, replies.drop_last());
        let before = h.deliver_all(replies.drop_last());
        let reply = replies.last();
        if before.slots.contains_key(reply.ticket) {
            assert(before.deliver(reply).slots.dom() =~= before.slots.dom());
        }
    }
}

} // verus!
