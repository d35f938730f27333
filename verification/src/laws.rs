//! What holds of every worker, whatever its task and whatever is sent to it.

use crate::payload::{AnyClone, PayloadView};
use crate::threading::{
    answers, drained, drained_task, lemma_deliver_all_keeps_stop, replies_of, round_worker, served_by, stepped,
    AutoThread, HandleView, MessageView, Phase, ReplyStatusView, ReplyView, WorkerView, NO_TICKET,
};
use vstd::prelude::*;

verus! {

/// The handle after the writes `calls` were made one after another, each a field's
/// name with the value written to it.
pub open spec fn after_writes(h: HandleView, calls: Seq<(Seq<char>, PayloadView)>) -> HandleView
    decreases calls.len(),
{
    if calls.len() == 0 {
        h
    } else {
        after_writes(h, calls.drop_last()).set_field(calls.last().0, calls.last().1)
    }
}

/// The messages that stand for the writes `calls`, in the order of the calls.
pub open spec fn write_messages(calls: Seq<(Seq<char>, PayloadView)>) -> Seq<MessageView> {
    calls.map_values(|c: (Seq<char>, PayloadView)| MessageView::SetField(c.0, c.1))
}

/// The task's model after the writes `calls` were applied to it one after another,
/// the first call first.
pub open spec fn written<T: AutoThread>(m: T::Model, calls: Seq<(Seq<char>, PayloadView)>) -> T::Model
    decreases calls.len(),
{
    if calls.len() == 0 {
        m
    } else {
        T::model_after_set(written::<T>(m, calls.drop_last()), calls.last().0, calls.last().1)
    }
}

/// Draining two queues one after the other is draining them joined.
pub proof fn lemma_drained_task_joined<T: AutoThread>(m: T::Model, a: Seq<MessageView>, b: Seq<MessageView>)
    ensures
        drained_task::<T>(m, a + b) == drained_task::<T>(drained_task::<T>(m, a), b),
    decreases b.len(),
{
    if b.len() == 0 {
        assert(a + b =~= a);
    } else {
        lemma_drained_task_joined::<T>(m, a, b.drop_last());
        assert((a + b).drop_last() =~= a + b.drop_last());
        assert((a + b).last() == b.last());
    }
}

/// Draining a queue of writes applies the writes in their order.
pub proof fn lemma_drained_writes<T: AutoThread>(m: T::Model, calls: Seq<(Seq<char>, PayloadView)>)
    ensures
        drained_task::<T>(m, write_messages(calls)) == written::<T>(m, calls),
    decreases calls.len(),
{
    if calls.len() > 0 {
        lemma_drained_writes::<T>(m, calls.drop_last());
        assert(write_messages(calls).drop_last() =~= write_messages(calls.drop_last()));
    }
}

/// Writes reach the task in the order in which they were made.
///
/// Whatever writes are made through the handle of a live worker, one after
/// another, they join the queue in that order behind what was queued before, and
/// the worker's next drain applies them to the task in that order: the task ends
/// in the state that the writes, made directly and in the order of the calls,
/// lead to from the state in which the earlier messages left it. Where the worker
/// has gone, the writes are dropped and the handle stays as it is.
pub proof fn law_writes_reach_task_in_call_order<T: AutoThread>(
    h: HandleView,
    m: T::Model,
    calls: Seq<(Seq<char>, PayloadView)>,
)
    ensures
        h.connected ==> after_writes(h, calls) == (HandleView { queue: h.queue + write_messages(calls), ..h }),
        h.connected ==> drained_task::<T>(m, after_writes(h, calls).queue) == written::<T>(
            drained_task::<T>(m, h.queue),
            calls,
        ),
        !h.connected ==> after_writes(h, calls) == h,
    decreases calls.len(),
{
    if calls.len() == 0 {
        assert(h.queue + write_messages(calls) =~= h.queue);
    } else {
        law_writes_reach_task_in_call_order::<T>(h, m, calls.drop_last());
        if h.connected {
            assert(h.queue + write_messages(calls) =~= (h.queue + write_messages(calls.drop_last())).push(
                MessageView::SetField(calls.last().0, calls.last().1),
            ));
            lemma_drained_task_joined::<T>(m, h.queue, write_messages(calls));
            lemma_drained_writes::<T>(drained_task::<T>(m, h.queue), calls);
        }
    }
}

/// The handle after `n` polls of `key` for a value of type `U`, with nothing
/// happening in between.
pub open spec fn polled<U: AnyClone>(h: HandleView, key: Seq<char>, n: nat) -> HandleView
    decreases n,
{
    if n == 0 {
        h
    } else {
        polled::<U>(h, key, (n - 1) as nat).poll::<U>(key)
    }
}

/// A handle is well formed from its start on, whatever is done with it.
///
/// A fresh handle is well formed, and a write, the sending of a read, a look at
/// a slot, a poll, an answer, a stop request and the worker's going each keep a
/// well-formed handle well formed.
pub proof fn law_handle_stays_well_formed<U: AnyClone>(
    h: HandleView,
    key: Seq<char>,
    value: PayloadView,
    ticket: u64,
    reply: ReplyView,
)
    requires
        h.well_formed(),
    ensures
        HandleView::fresh().well_formed(),
        h.set_field(key, value).well_formed(),
        h.request(key).well_formed(),
        h.take(ticket).well_formed(),
        h.poll::<U>(key).well_formed(),
        h.deliver(reply).well_formed(),
        h.disconnect().well_formed(),
        (HandleView { stop_requested: true, ..h }).well_formed(),
{
    lemma_poll_keeps_well_formed::<U>(h, key);
}

/// A poll keeps a well-formed handle well formed.
pub proof fn lemma_poll_keeps_well_formed<U: AnyClone>(h: HandleView, key: Seq<char>)
    requires
        h.well_formed(),
    ensures
        h.poll::<U>(key).well_formed(),
{
    let after = h.poll::<U>(key);
    assert forall|k: Seq<char>| #[trigger] after.pending.contains_key(k) implies after.pending[k] < after.next_ticket
        || after.pending[k] == NO_TICKET by {
        if k != key {
            assert(h.pending.contains_key(k));
        }
    }
    assert forall|k: Seq<char>, l: Seq<char>|
        #![trigger after.pending.contains_key(k), after.pending.contains_key(l)]
        after.pending.contains_key(k) && after.pending.contains_key(l) && k != l implies after.pending[k]
            != after.pending[l] || after.pending[k] == NO_TICKET by {
        if k != key && l != key {
            assert(h.pending.contains_key(k) && h.pending.contains_key(l));
        } else if k != key {
            assert(h.pending.contains_key(k));
        } else if l != key {
            assert(h.pending.contains_key(l));
        }
    }
}

/// While a read waits for its answer, polls change nothing.
pub proof fn lemma_polls_while_waiting<U: AnyClone>(h: HandleView, key: Seq<char>, n: nat)
    requires
        h.pending.contains_key(key),
        h.status(h.pending[key]) is Empty,
    ensures
        polled::<U>(h, key, n) == h,
    decreases n,
{
    if n > 0 {
        lemma_polls_while_waiting::<U>(h, key, (n - 1) as nat);
    }
}

/// Any number of polls sends one read.
///
/// However often a field is polled before an answer has arrived, one poll or
/// many: where no read of the field was under way and a read can be sent, exactly
/// one read joins the queue, under the next ticket, and it is recorded as under
/// way; where a read was under way and still waits, nothing is sent and nothing
/// changes.
pub proof fn law_polls_send_one_read<U: AnyClone>(h: HandleView, key: Seq<char>, n: nat)
    requires
        n >= 1,
    ensures
        !h.pending.contains_key(key) && h.can_request() ==> {
            &&& polled::<U>(h, key, n).queue == h.queue.push(MessageView::GetField(key, h.next_ticket))
            &&& polled::<U>(h, key, n).pending == h.pending.insert(key, h.next_ticket)
        },
        h.pending.contains_key(key) && h.status(h.pending[key]) is Empty ==> polled::<U>(h, key, n) == h,
    decreases n,
{
    if h.pending.contains_key(key) && h.status(h.pending[key]) is Empty {
        lemma_polls_while_waiting::<U>(h, key, n);
    }
    if !h.pending.contains_key(key) && h.can_request() {
        let first = h.poll::<U>(key);
        assert(polled::<U>(h, key, 1) == first) by {
            assert(polled::<U>(h, key, 0) == h);
        }
        if n > 1 {
            law_polls_send_one_read::<U>(h, key, (n - 1) as nat);
            let before = polled::<U>(h, key, (n - 1) as nat);
            assert(before.pending.contains_key(key));
            assert(before.pending[key] == h.next_ticket);
            assert(before.status(h.next_ticket) is Empty) by {
                lemma_one_read_waits::<U>(h, key, (n - 1) as nat);
            }
        }
    }
}

/// After the poll that sent a read, its slot waits until an answer arrives.
pub proof fn lemma_one_read_waits<U: AnyClone>(h: HandleView, key: Seq<char>, n: nat)
    requires
        n >= 1,
        !h.pending.contains_key(key),
        h.can_request(),
    ensures
        polled::<U>(h, key, n) == h.poll::<U>(key),
        h.poll::<U>(key).pending.contains_key(key),
        h.poll::<U>(key).pending[key] == h.next_ticket,
        h.poll::<U>(key).status(h.next_ticket) is Empty,
    decreases n,
{
    assert(polled::<U>(h, key, 0) == h);
    if n > 1 {
        lemma_one_read_waits::<U>(h, key, (n - 1) as nat);
    }
}

/// A value that a poll has brought in is what later polls return.
///
/// Once the answer to a read of a field has arrived and is of the type asked
/// for, the poll that finds it returns it, and so does every later poll for as
/// long as no further answer arrives, however slow the worker is with the read
/// that the next poll sends, and also where the worker has gone.
pub proof fn law_resolved_value_is_kept<U: AnyClone>(h: HandleView, key: Seq<char>, value: PayloadView, n: nat)
    requires
        h.well_formed(),
        h.pending.contains_key(key),
        h.status(h.pending[key]) == ReplyStatusView::Arrived(value),
        U::carried_by(value),
    ensures
        h.poll_result::<U>(key) == Some(value),
        polled::<U>(h.poll::<U>(key), key, n).poll_result::<U>(key) == Some(value),
        polled::<U>(h.poll::<U>(key), key, n).cache.contains_key(key),
        polled::<U>(h.poll::<U>(key), key, n).cache[key] == value,
{
    let resolved = h.poll::<U>(key);
    lemma_poll_keeps_well_formed::<U>(h, key);
    lemma_cached_value_is_kept::<U>(resolved, key, value, n);
}

/// Whether no answer has arrived for the read of `key` that is under way, if
/// there is one.
pub open spec fn nothing_arrived(h: HandleView, key: Seq<char>) -> bool {
    h.pending.contains_key(key) ==> !(h.status(h.pending[key]) is Arrived)
}

/// While no answer arrives, polls return the cached value and keep it.
pub proof fn lemma_cached_value_is_kept<U: AnyClone>(h: HandleView, key: Seq<char>, value: PayloadView, n: nat)
    requires
        h.well_formed(),
        h.cache.contains_key(key),
        h.cache[key] == value,
        U::carried_by(value),
        nothing_arrived(h, key),
    ensures
        polled::<U>(h, key, n).well_formed(),
        polled::<U>(h, key, n).cache.contains_key(key),
        polled::<U>(h, key, n).cache[key] == value,
        nothing_arrived(polled::<U>(h, key, n), key),
        polled::<U>(h, key, n).poll_result::<U>(key) == Some(value),
    decreases n,
{
    if n > 0 {
        lemma_cached_value_is_kept::<U>(h, key, value, (n - 1) as nat);
        let before = polled::<U>(h, key, (n - 1) as nat);
        lemma_poll_keeps_well_formed::<U>(before, key);
    }
}

/// One thing that happens to the read of a field that the task does not know.
pub enum UnknownFieldEvent {
    /// The owner polls the field.
    Poll,
    /// The worker reaches the read that is under way and closes its slot.
    Close,
}

/// The handle after one event.
pub open spec fn after_event<U: AnyClone>(h: HandleView, key: Seq<char>, event: UnknownFieldEvent) -> HandleView {
    match event {
        UnknownFieldEvent::Poll => h.poll::<U>(key),
        UnknownFieldEvent::Close => if h.pending.contains_key(key) {
            h.deliver(ReplyView { ticket: h.pending[key], value: None })
        } else {
            h
        },
    }
}

/// The handle after the events, the first one first.
pub open spec fn after_events<U: AnyClone>(h: HandleView, key: Seq<char>, events: Seq<UnknownFieldEvent>) -> HandleView
    decreases events.len(),
{
    if events.len() == 0 {
        h
    } else {
        after_event::<U>(after_events::<U>(h, key, events.drop_last()), key, events.last())
    }
}

/// Whether every slot of `after` is a slot of `before`, but for the slot of the
/// read of `key` that is under way in `after`.
pub open spec fn one_slot_more(before: HandleView, after: HandleView, key: Seq<char>) -> bool {
    forall|t: u64| #[trigger]
        after.slots.contains_key(t) ==> before.slots.contains_key(t) || (after.pending.contains_key(key)
            && after.pending[key] == t)
}

/// A field that the task does not know polls as nothing, and leaves nothing
/// behind.
///
/// Take a field for which nothing is cached and no answer has arrived, and let
/// the owner poll it and the worker close the slot of its read, in any order and
/// any number of times. Then every poll returns nothing; no read under way is
/// added for any other field; at any time at most one reply slot exists beyond
/// those that were there at the start, and it is the slot of the one read of the
/// field that is under way; and the poll that finds that slot closed removes both
/// the read and the slot.
pub proof fn law_unknown_field_polls_as_nothing<U: AnyClone>(
    h: HandleView,
    key: Seq<char>,
    events: Seq<UnknownFieldEvent>,
)
    requires
        h.well_formed(),
        !h.cache.contains_key(key),
        nothing_arrived(h, key),
    ensures
        after_events::<U>(h, key, events).well_formed(),
        !after_events::<U>(h, key, events).cache.contains_key(key),
        nothing_arrived(after_events::<U>(h, key, events), key),
        after_events::<U>(h, key, events).poll_result::<U>(key) is None,
        forall|k: Seq<char>| #[trigger]
            after_events::<U>(h, key, events).pending.contains_key(k) ==> k == key || h.pending.contains_key(k),
        one_slot_more(h, after_events::<U>(h, key, events), key),
        ({
            let s = after_events::<U>(h, key, events);
            s.pending.contains_key(key) && s.status(s.pending[key]) is Disconnected ==> {
                &&& !s.poll::<U>(key).pending.contains_key(key)
                &&& !s.poll::<U>(key).slots.contains_key(s.pending[key])
            }
        }),
    decreases events.len(),
{
    if events.len() > 0 {
        law_unknown_field_polls_as_nothing::<U>(h, key, events.drop_last());
        let before = after_events::<U>(h, key, events.drop_last());
        let after = after_event::<U>(before, key, events.last());
        match events.last() {
            UnknownFieldEvent::Poll => {
                lemma_poll_keeps_well_formed::<U>(before, key);
                assert forall|t: u64| #[trigger] after.slots.contains_key(t) implies h.slots.contains_key(t) || (
                after.pending.contains_key(key) && after.pending[key] == t) by {
                    if before.slots.contains_key(t) {
                    }
                }
            },
            UnknownFieldEvent::Close => {
                assert(after.pending == before.pending);
                assert(after.next_ticket == before.next_ticket);
            },
        }
    }
}

/// A task that does not know a field closes the slot of every read of it.
///
/// Where a task that follows its model knows no field of the name `key` in any
/// state, each answer that a drain gives to a read of `key` holds no value.
pub proof fn law_unknown_field_reads_are_closed<T: AutoThread>(
    m: T::Model,
    queue: Seq<MessageView>,
    key: Seq<char>,
    i: int,
)
    requires
        forall|state: T::Model| #[trigger] T::model_field(state, key) is None,
        0 <= i < replies_of::<T>(m, queue).len(),
        answered_field::<T>(m, queue, i) == key,
    ensures
        replies_of::<T>(m, queue)[i].value is None,
    decreases queue.len(),
{
    if queue.len() > 0 {
        let earlier = replies_of::<T>(m, queue.drop_last());
        match queue.last() {
            MessageView::SetField(_, _) => {
                law_unknown_field_reads_are_closed::<T>(m, queue.drop_last(), key, i);
            },
            MessageView::GetField(name, ticket) => {
                if i < earlier.len() {
                    law_unknown_field_reads_are_closed::<T>(m, queue.drop_last(), key, i);
                }
            },
        }
    }
}

/// The field that the `i`-th answer of a drain belongs to: the field of the
/// `i`-th read in the queue.
pub open spec fn answered_field<T: AutoThread>(m: T::Model, queue: Seq<MessageView>, i: int) -> Seq<char>
    decreases queue.len(),
{
    if queue.len() == 0 {
        Seq::empty()
    } else {
        match queue.last() {
            MessageView::SetField(_, _) => answered_field::<T>(m, queue.drop_last(), i),
            MessageView::GetField(name, _) => if i == replies_of::<T>(m, queue.drop_last()).len() {
                name
            } else {
                answered_field::<T>(m, queue.drop_last(), i)
            },
        }
    }
}

/// A worker that has ended does nothing more.
///
/// Whatever is asked of a worker that has ended, it stays as it is: it takes no
/// message, and its task's unit of work is not run again.
pub proof fn law_ended_worker_is_inert<T: AutoThread>(w: WorkerView<T::Model>, h: HandleView)
    requires
        w.phase == Phase::Exited,
    ensures
        drained::<T>(w, h.queue) == w,
        stepped::<T>(w) == w,
        w.yielded() == w,
        w.checked(h.stop_requested) == w,
        round_worker::<T>(w, h) == w,
{
}

/// A stop request ends the worker within the round it is in.
///
/// Once the stop request is set, what is left of the worker's round ends the
/// worker, whatever its phase and whether it loops or not, and runs the task's
/// unit of work at most once more.
pub proof fn law_stop_ends_the_round<T: AutoThread>(w: WorkerView<T::Model>, h: HandleView)
    requires
        h.stop_requested,
    ensures
        round_worker::<T>(w, h).phase == Phase::Exited,
        w.steps <= round_worker::<T>(w, h).steps <= w.steps + 1,
        w.phase == Phase::Draining || w.phase == Phase::Stepping <==> round_worker::<T>(w, h).steps == w.steps + 1,
{
}

/// A one-shot worker runs its task's unit of work exactly once.
///
/// From its start, one round takes a one-shot worker through its drain and its
/// unit of work to its end, whether or not it was asked to stop.
pub proof fn law_one_shot_runs_once<T: AutoThread>(m: T::Model, h: HandleView)
    ensures
        round_worker::<T>(WorkerView { task: m, should_loop: false, phase: Phase::Draining, steps: 0 }, h).phase
            == Phase::Exited,
        round_worker::<T>(WorkerView { task: m, should_loop: false, phase: Phase::Draining, steps: 0 }, h).steps
            == 1,
        round_worker::<T>(WorkerView { task: m, should_loop: false, phase: Phase::Draining, steps: 0 }, h).task
            == T::model_after_run(drained_task::<T>(m, h.queue)),
{
}

/// A poll of one field leaves the reads of all other fields alone.
///
/// On a well-formed handle a poll of `key` changes neither the record of the
/// read of another field that is under way, nor what a look at that read's slot
/// finds.
pub proof fn law_poll_leaves_other_reads<U: AnyClone>(h: HandleView, key: Seq<char>, other: Seq<char>)
    requires
        h.well_formed(),
        other != key,
        h.pending.contains_key(other),
    ensures
        h.poll::<U>(key).pending.contains_key(other),
        h.poll::<U>(key).pending[other] == h.pending[other],
        h.poll::<U>(key).status(h.pending[other]) == h.status(h.pending[other]),
        h.poll::<U>(key).cache.contains_key(other) == h.cache.contains_key(other),
        h.cache.contains_key(other) ==> h.poll::<U>(key).cache[other] == h.cache[other],
{
}


/// Whether the message is a read with the ticket `ticket`.
pub open spec fn is_read_with(message: MessageView, ticket: u64) -> bool {
    match message {
        MessageView::GetField(_, t) => t == ticket,
        MessageView::SetField(_, _) => false,
    }
}

/// Whether the queue holds a read with the ticket `ticket`.
pub open spec fn holds_read(queue: Seq<MessageView>, ticket: u64) -> bool {
    exists|i: int| 0 <= i < queue.len() && is_read_with(#[trigger] queue[i], ticket)
}

/// Whether one of the answers has the ticket `ticket`.
pub open spec fn holds_answer(replies: Seq<ReplyView>, ticket: u64) -> bool {
    exists|j: int| 0 <= j < replies.len() && (#[trigger] replies[j]).ticket == ticket
}

/// Whether the slot of `ticket` exists and waits no more.
pub open spec fn settled(h: HandleView, ticket: u64) -> bool {
    h.slots.contains_key(ticket) && !(h.slots[ticket] is Waiting)
}

/// Each queued read has an answer among the answers to the queue.
pub proof fn lemma_reads_have_answers(queue: Seq<MessageView>, replies: Seq<ReplyView>, ticket: u64)
    requires
        answers(queue, replies),
        holds_read(queue, ticket),
    ensures
        holds_answer(replies, ticket),
    decreases queue.len(),
{
    let i = choose|i: int| 0 <= i < queue.len() && is_read_with(#[trigger] queue[i], ticket);
    let earlier = queue.drop_last();
    match queue.last() {
        MessageView::SetField(_, _) => {
            assert(earlier[i] == queue[i]);
            lemma_reads_have_answers(earlier, replies, ticket);
        },
        MessageView::GetField(_, t) => {
            if i == queue.len() - 1 {
                assert(replies[replies.len() - 1].ticket == ticket);
            } else {
                assert(earlier[i] == queue[i]);
                lemma_reads_have_answers(earlier, replies.drop_last(), ticket);
                let j = choose|j: int|
                    0 <= j < replies.drop_last().len() && (#[trigger] replies.drop_last()[j]).ticket == ticket;
                assert(replies[j] == replies.drop_last()[j]);
            }
        },
    }
}

/// A slot that waits no more stays so under further answers, and a slot that
/// exists is settled by an answer under its ticket.
pub proof fn lemma_answers_settle(h: HandleView, replies: Seq<ReplyView>, ticket: u64)
    requires
        h.slots.contains_key(ticket),
        settled(h, ticket) || holds_answer(replies, ticket),
    ensures
        settled(h.deliver_all(replies), ticket),
    decreases replies.len(),
{
    if replies.len() > 0 {
        let before = h.deliver_all(replies.drop_last());
        lemma_deliver_all_keeps_stop(h, replies.drop_last());
        assert(before.slots.dom().contains(ticket));
        if settled(h, ticket) {
            lemma_answers_settle(h, replies.drop_last(), ticket);
        } else {
            let j = choose|j: int| 0 <= j < replies.len() && (#[trigger] replies[j]).ticket == ticket;
            if j < replies.len() - 1 {
                assert(replies.drop_last()[j] == replies[j]);
                lemma_answers_settle(h, replies.drop_last(), ticket);
            }
        }
    }
}

/// A drain settles every read that it takes.
///
/// Take a read that is queued and whose slot exists. Whatever the task is, once
/// the worker has drained the queue the slot waits no more: it holds the answer,
/// or it is closed. The queue is empty then, so no read is answered twice.
pub proof fn law_drain_settles_reads(before: HandleView, after: HandleView, replies: Seq<ReplyView>, ticket: u64)
    requires
        served_by(before, after, replies),
        holds_read(before.queue, ticket),
        before.slots.contains_key(ticket),
    ensures
        settled(after, ticket),
        after.queue.len() == 0,
{
    lemma_reads_have_answers(before.queue, replies, ticket);
    let start = HandleView { queue: Seq::empty(), ..before };
    lemma_answers_settle(start, replies, ticket);
    lemma_deliver_all_keeps_stop(start, replies);
}

/// A poll's read is answered by the worker's next drain.
///
/// When a poll of a field has sent a read, a drain by a live worker settles the
/// read's slot, and the next poll takes what the slot holds: the read is over
/// then, and the field's value, where it is of the type asked for, is cached and
/// returned.
pub proof fn law_poll_then_drain_then_poll<U: AnyClone>(
    h: HandleView,
    key: Seq<char>,
    after: HandleView,
    replies: Seq<ReplyView>,
)
    requires
        !h.pending.contains_key(key),
        h.can_request(),
        served_by(h.poll::<U>(key), after, replies),
    ensures
        after.pending.contains_key(key),
        after.pending[key] == h.next_ticket,
        !(after.status(h.next_ticket) is Empty),
        !after.poll::<U>(key).pending.contains_key(key),
        match after.status(h.next_ticket) {
            ReplyStatusView::Arrived(value) => U::carried_by(value) ==> after.poll_result::<U>(key) == Some(value)
                && after.poll::<U>(key).cache[key] == value,
            _ => after.poll_result::<U>(key) == after.cached::<U>(key),
        },
{
    let polled = h.poll::<U>(key);
    let start = HandleView { queue: Seq::empty(), ..polled };
    assert(polled.queue[polled.queue.len() - 1] == MessageView::GetField(key, h.next_ticket));
    assert(holds_read(polled.queue, h.next_ticket));
    law_drain_settles_reads(polled, after, replies, h.next_ticket);
    lemma_deliver_all_keeps_stop(start, replies);
}

} // verus!
