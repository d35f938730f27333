use fof::fields::FieldTable;
use fof::payload::{downcast_box, downcast_ref, AnyClone, Payload};
use fof::threading::{Action, AutoThread, Phase, ReplyStatus, Worker, WorkerHandle, NO_TICKET};
use std::cell::Cell;

/// Counts its units of work and records every write and read it sees.
struct Counter {
    count: i64,
    x: i32,
    done: bool,
    writes: Vec<(String, Payload)>,
    reads: Cell<usize>,
}

impl Counter {
    fn new() -> Self {
        Counter { count: 0, x: 0, done: false, writes: Vec::new(), reads: Cell::new(0) }
    }
}

impl AutoThread for Counter {
    type Model = ();

    fn run(&mut self) {
        self.count += 1;
        self.done = true;
    }

    fn handle_field_set(&mut self, field: &str, value: Payload) {
        self.writes.push((field.to_string(), value.clone()));
        if field == "x" {
            if let Ok(v) = downcast_box::<i32>(value) {
                self.x = v;
            }
        }
    }

    fn handle_field_get(&self, field: &str) -> Option<Payload> {
        self.reads.set(self.reads.get() + 1);
        match field {
            "count" => Some(Payload::I64(self.count)),
            "x" => Some(Payload::I32(self.x)),
            "done" => Some(Payload::Bool(self.done)),
            _ => None,
        }
    }
}

fn drive_round(worker: &mut Worker<Counter>, handle: &mut WorkerHandle<Counter>) {
    loop {
        match worker.next_action() {
            Action::Drain => worker.drain(handle),
            Action::Step => worker.step(),
            Action::Sleep => worker.yielded(),
            Action::CheckStop => {
                worker.check_stop(handle);
                return;
            }
            Action::Exit => return,
        }
    }
}

#[test]
fn writes_reach_the_task_in_call_order() {
    let (mut handle, mut worker) = WorkerHandle::start(Counter::new(), true);
    handle.set_field("a", 1i32);
    handle.set_field("b", "two".to_string());
    handle.set_field("a", 3i32);
    handle.set_field("c", true);
    assert!(worker.task().writes.is_empty());
    worker.run_iteration(&mut handle);
    let expected = vec![
        ("a".to_string(), Payload::I32(1)),
        ("b".to_string(), Payload::Text("two".to_string())),
        ("a".to_string(), Payload::I32(3)),
        ("c".to_string(), Payload::Bool(true)),
    ];
    assert_eq!(worker.task().writes, expected);
}

#[test]
fn writes_from_two_rounds_keep_their_order() {
    let (mut handle, mut worker) = WorkerHandle::start(Counter::new(), true);
    handle.set_field("x", 1i32);
    worker.run_iteration(&mut handle);
    handle.set_field("x", 2i32);
    handle.set_field("x", 3i32);
    worker.run_iteration(&mut handle);
    let seen: Vec<Payload> = worker.task().writes.iter().map(|w| w.1.clone()).collect();
    assert_eq!(seen, vec![Payload::I32(1), Payload::I32(2), Payload::I32(3)]);
    assert_eq!(worker.task().x, 3);
}

#[test]
fn many_polls_send_one_read() {
    let (mut handle, mut worker) = WorkerHandle::start(Counter::new(), true);
    for _ in 0..25 {
        assert_eq!(handle.poll_field::<i64>("count"), None);
    }
    worker.run_iteration(&mut handle);
    assert_eq!(worker.task().reads.get(), 1);
}

#[test]
fn a_new_read_is_sent_only_after_the_answer_was_taken() {
    let (mut handle, mut worker) = WorkerHandle::start(Counter::new(), true);
    assert_eq!(handle.poll_field::<i64>("count"), None);
    worker.run_iteration(&mut handle);
    assert_eq!(worker.task().reads.get(), 1);
    // The answer is taken; nothing is sent by this poll.
    assert_eq!(handle.poll_field::<i64>("count"), Some(0));
    worker.run_iteration(&mut handle);
    assert_eq!(worker.task().reads.get(), 1);
    // No read is under way now: this poll sends the second one.
    assert_eq!(handle.poll_field::<i64>("count"), Some(0));
    assert_eq!(handle.poll_field::<i64>("count"), Some(0));
    worker.run_iteration(&mut handle);
    assert_eq!(worker.task().reads.get(), 2);
}

#[test]
fn resolved_value_is_served_while_the_worker_is_slow() {
    let (mut handle, mut worker) = WorkerHandle::start(Counter::new(), true);
    handle.set_field("x", 41i32);
    assert_eq!(handle.poll_field::<i32>("x"), None);
    worker.run_iteration(&mut handle);
    assert_eq!(handle.poll_field::<i32>("x"), Some(41));
    // The worker does not run again: every poll still returns the value.
    for _ in 0..10 {
        assert_eq!(handle.poll_field::<i32>("x"), Some(41));
    }
}

#[test]
fn resolved_value_survives_the_worker() {
    let (mut handle, mut worker) = WorkerHandle::start(Counter::new(), true);
    handle.set_field("x", 7i32);
    assert_eq!(handle.poll_field::<i32>("x"), None);
    worker.run_iteration(&mut handle);
    assert_eq!(handle.poll_field::<i32>("x"), Some(7));
    handle.request_stop();
    worker.run_iteration(&mut handle);
    assert!(worker.has_exited());
    for _ in 0..4 {
        assert_eq!(handle.poll_field::<i32>("x"), Some(7));
    }
}

#[test]
fn unknown_field_polls_as_none_forever() {
    let (mut handle, mut worker) = WorkerHandle::start(Counter::new(), true);
    for round in 0..20 {
        assert_eq!(handle.poll_field::<i32>("nope"), None);
        assert_eq!(handle.poll_field::<i32>("nope"), None);
        if round % 2 == 0 {
            worker.run_iteration(&mut handle);
        }
    }
    // Every read was closed without a value: only a poll that found its slot
    // closed let the next poll send a new read.
    assert!(worker.task().reads.get() <= 20);
    assert!(worker.task().reads.get() >= 5);
}

#[test]
fn closed_slot_is_cleared_by_the_poll_that_finds_it() {
    let (mut handle, mut worker) = WorkerHandle::start(Counter::new(), true);
    assert_eq!(handle.poll_field::<i32>("nope"), None);
    worker.run_iteration(&mut handle);
    assert_eq!(worker.task().reads.get(), 1);
    // This poll finds the slot closed and clears the read; it sends nothing.
    assert_eq!(handle.poll_field::<i32>("nope"), None);
    worker.run_iteration(&mut handle);
    assert_eq!(worker.task().reads.get(), 1);
    // The slot of the first read is gone.
    assert_eq!(handle.try_recv(0), ReplyStatus::Disconnected);
    // Now a read is sent again.
    assert_eq!(handle.poll_field::<i32>("nope"), None);
    worker.run_iteration(&mut handle);
    assert_eq!(worker.task().reads.get(), 2);
}

#[test]
fn answer_of_another_type_gives_none_and_ends_the_read() {
    let (mut handle, mut worker) = WorkerHandle::start(Counter::new(), true);
    assert_eq!(handle.poll_field::<bool>("count"), None);
    worker.run_iteration(&mut handle);
    assert_eq!(handle.poll_field::<bool>("count"), None);
    // Nothing was cached by the mismatch, and the read is over.
    assert_eq!(handle.poll_field::<i64>("count"), None);
    worker.run_iteration(&mut handle);
    assert_eq!(handle.poll_field::<i64>("count"), Some(1));
    // A cached value of another type than the one asked for is not returned.
    assert_eq!(handle.poll_field::<bool>("count"), None);
}

#[test]
fn stop_ends_a_looping_worker_and_the_counter_stands_still() {
    let (mut handle, mut worker) = WorkerHandle::start(Counter::new(), true);
    for _ in 0..5 {
        worker.run_iteration(&mut handle);
    }
    assert_eq!(worker.task().count, 5);
    assert!(handle.is_running());
    let mut ended = handle.stop(worker);
    assert!(ended.has_exited());
    assert_eq!(ended.phase(), Phase::Exited);
    assert_eq!(ended.next_action(), Action::Exit);
    // The round that was due was run to its end: one more unit of work.
    assert_eq!(ended.task().count, 6);
    // Nothing moves an ended worker.
    let (mut other, _) = WorkerHandle::start(Counter::new(), true);
    other.set_field("x", 9i32);
    for _ in 0..3 {
        ended.run_iteration(&mut other);
        ended.step();
        ended.drain(&mut other);
        ended.yielded();
        ended.check_stop(&mut other);
    }
    assert_eq!(ended.task().count, 6);
    assert!(ended.task().writes.is_empty());
    assert!(other.is_running());
}

#[test]
fn stop_in_the_middle_of_a_round() {
    let (mut handle, mut worker) = WorkerHandle::start(Counter::new(), true);
    worker.drain(&mut handle);
    worker.step();
    assert_eq!(worker.phase(), Phase::Yielding);
    let ended = handle.stop(worker);
    assert!(ended.has_exited());
    assert_eq!(ended.task().count, 1);
}

#[test]
fn looping_worker_goes_through_its_phases() {
    let (mut handle, mut worker) = WorkerHandle::start(Counter::new(), true);
    assert_eq!(worker.next_action(), Action::Drain);
    worker.step();
    assert_eq!(worker.phase(), Phase::Draining);
    worker.drain(&mut handle);
    assert_eq!(worker.next_action(), Action::Step);
    worker.drain(&mut handle);
    worker.check_stop(&mut handle);
    assert_eq!(worker.phase(), Phase::Stepping);
    worker.step();
    assert_eq!(worker.next_action(), Action::Sleep);
    worker.yielded();
    assert_eq!(worker.next_action(), Action::CheckStop);
    worker.check_stop(&mut handle);
    assert_eq!(worker.next_action(), Action::Drain);
    assert_eq!(worker.task().count, 1);
    assert!(!worker.has_exited());
}

#[test]
fn one_shot_worker_runs_once_without_a_pause() {
    let (mut handle, mut worker) = WorkerHandle::start(Counter::new(), false);
    handle.set_field("x", 3i32);
    worker.drain(&mut handle);
    worker.step();
    assert_eq!(worker.next_action(), Action::CheckStop);
    assert!(handle.is_running());
    worker.check_stop(&mut handle);
    assert_eq!(worker.next_action(), Action::Exit);
    assert!(!handle.is_running());
    assert_eq!(worker.task().count, 1);
    assert_eq!(worker.task().x, 3);
    worker.run_iteration(&mut handle);
    assert_eq!(worker.task().count, 1);
}

#[test]
fn scenario_counter_is_polled_while_the_worker_loops() {
    let (mut handle, mut worker) = WorkerHandle::start(Counter::new(), true);
    let mut last: i64 = -1;
    let mut seen = Vec::new();
    for round in 0..30 {
        if let Some(count) = handle.poll_field::<i64>("count") {
            assert!(count >= last);
            last = count;
            seen.push(count);
        }
        if round % 3 != 2 {
            drive_round(&mut worker, &mut handle);
        }
    }
    assert!(!seen.is_empty());
    assert!(last > 0);
    assert!(last <= worker.task().count);
    assert_eq!(worker.task().count, 20);
}

#[test]
fn scenario_one_shot_sets_done() {
    let (mut handle, mut worker) = WorkerHandle::start(Counter::new(), false);
    assert!(handle.is_running());
    worker.run_iteration(&mut handle);
    assert!(!handle.is_running());
    let ended = handle.stop(worker);
    assert!(ended.has_exited());
    assert_eq!(ended.task().count, 1);
    let done = ended.task().handle_field_get("done");
    assert_eq!(done, Some(Payload::Bool(true)));
    assert_eq!(downcast_box::<bool>(done.unwrap()), Ok(true));
}

#[test]
fn one_shot_answers_reads_queued_before_its_round_only() {
    let (mut handle, mut worker) = WorkerHandle::start(Counter::new(), false);
    let early = handle.get_field_async("done");
    worker.run_iteration(&mut handle);
    // The read was reached before the unit of work ran.
    assert_eq!(handle.try_recv(early), ReplyStatus::Arrived(Payload::Bool(false)));
    // The worker has gone: a later read cannot be sent, its slot counts as closed.
    let late = handle.get_field_async("done");
    assert_eq!(late, NO_TICKET);
    assert_eq!(handle.try_recv(late), ReplyStatus::Disconnected);
    assert_eq!(handle.get_field::<bool>(&mut worker, "done"), None);
    assert_eq!(handle.poll_field::<bool>("done"), None);
    assert_eq!(handle.poll_field::<bool>("done"), None);
}

#[test]
fn scenario_write_then_poll() {
    let (mut handle, mut worker) = WorkerHandle::start(Counter::new(), true);
    handle.set_field("x", 5i32);
    assert_eq!(handle.poll_field::<i32>("x"), None);
    worker.run_iteration(&mut handle);
    assert_eq!(handle.poll_field::<i32>("x"), Some(5));
}

#[test]
fn blocking_read_returns_the_value() {
    let (mut handle, mut worker) = WorkerHandle::start(Counter::new(), true);
    handle.set_field("x", 12i32);
    assert_eq!(handle.get_field::<i32>(&mut worker, "x"), Some(12));
    assert_eq!(handle.get_field::<i64>(&mut worker, "x"), None);
    assert_eq!(handle.get_field::<i32>(&mut worker, "nope"), None);
    assert_eq!(handle.get_field::<i64>(&mut worker, "count"), Some(3));
}

#[test]
fn blocking_read_finishes_the_round_under_way_first() {
    let (mut handle, mut worker) = WorkerHandle::start(Counter::new(), true);
    worker.drain(&mut handle);
    assert_eq!(worker.phase(), Phase::Stepping);
    assert_eq!(handle.get_field::<i64>(&mut worker, "count"), Some(1));
    assert_eq!(worker.task().count, 1);
    assert_eq!(worker.phase(), Phase::Stepping);
}

#[test]
fn async_read_is_looked_at_by_its_ticket() {
    let (mut handle, mut worker) = WorkerHandle::start(Counter::new(), true);
    let first = handle.get_field_async("count");
    let second = handle.get_field_async("nope");
    assert_eq!(first, 0);
    assert_eq!(second, 1);
    assert_eq!(handle.try_recv(first), ReplyStatus::Empty);
    assert_eq!(handle.try_recv(second), ReplyStatus::Empty);
    worker.run_iteration(&mut handle);
    assert_eq!(handle.try_recv(second), ReplyStatus::Disconnected);
    assert_eq!(handle.try_recv(first), ReplyStatus::Arrived(Payload::I64(0)));
    // A slot is used up by the look that finds its answer.
    assert_eq!(handle.try_recv(first), ReplyStatus::Disconnected);
    // The tables of the polls were not touched: this poll sends a read of its own.
    assert_eq!(handle.poll_field::<i64>("count"), None);
    worker.run_iteration(&mut handle);
    assert_eq!(worker.task().reads.get(), 3);
}

#[test]
fn messages_to_a_worker_that_has_gone_are_dropped() {
    let (mut handle, mut worker) = WorkerHandle::start(Counter::new(), true);
    handle.set_field("x", 1i32);
    handle.disconnect();
    assert!(!handle.is_running());
    handle.set_field("x", 2i32);
    assert_eq!(handle.get_field_async("x"), NO_TICKET);
    worker.run_iteration(&mut handle);
    assert!(worker.task().writes.is_empty());
    assert_eq!(worker.task().reads.get(), 0);
}

#[test]
fn read_under_way_counts_as_closed_once_the_worker_has_gone() {
    let (mut handle, mut worker) = WorkerHandle::start(Counter::new(), true);
    handle.set_field("x", 4i32);
    assert_eq!(handle.poll_field::<i32>("x"), None);
    worker.run_iteration(&mut handle);
    assert_eq!(handle.poll_field::<i32>("x"), Some(4));
    assert_eq!(handle.poll_field::<i32>("x"), Some(4));
    let pending = handle.get_field_async("x");
    assert!(!handle.stop_requested());
    handle.request_stop();
    assert!(handle.stop_requested());
    worker.step();
    worker.drain(&mut handle);
    handle.disconnect();
    assert_eq!(handle.try_recv(pending), ReplyStatus::Arrived(Payload::I32(4)));
    let lost = handle.poll_field::<i32>("x");
    assert_eq!(lost, Some(4));
}

#[test]
fn field_table_is_a_task() {
    let mut table = FieldTable::new();
    table.declare("name", Payload::Text("a".to_string()));
    table.declare("epochs", Payload::U64(3));
    let (mut handle, mut worker) = WorkerHandle::start(table, true);
    handle.set_field("name", "b".to_string());
    handle.set_field("epochs", true);
    handle.set_field("other", 1u64);
    assert_eq!(handle.get_field::<String>(&mut worker, "name"), Some("b".to_string()));
    assert_eq!(handle.get_field::<u64>(&mut worker, "epochs"), Some(3));
    assert_eq!(handle.get_field::<u64>(&mut worker, "other"), None);
    let ended = handle.stop(worker);
    let table = ended.into_task();
    assert_eq!(table.auto_get_field("epochs"), Some(Payload::U64(3)));
}

#[test]
fn field_table_checks_name_and_type() {
    let mut table = FieldTable::new();
    assert_eq!(table.auto_get_field("x"), None);
    assert!(!table.auto_set_field("x", Payload::I32(1)));
    table.declare("x", Payload::I32(0));
    assert!(table.auto_set_field("x", Payload::I32(1)));
    assert!(!table.auto_set_field("x", Payload::I64(2)));
    assert!(!table.auto_set_field("y", Payload::I32(3)));
    assert_eq!(table.auto_get_field("x"), Some(Payload::I32(1)));
    table.declare("x", Payload::Bytes(vec![1, 2]));
    assert!(table.auto_set_field("x", Payload::Bytes(vec![])));
    assert_eq!(table.auto_get_field("x"), Some(Payload::Bytes(vec![])));
}

#[test]
fn payloads_are_recovered_by_type() {
    assert_eq!(downcast_box::<i32>(Payload::I32(5)), Ok(5));
    assert_eq!(downcast_box::<i64>(Payload::I32(5)), Err(Payload::I32(5)));
    assert_eq!(downcast_box::<bool>(Payload::Unit), Err(Payload::Unit));
    assert_eq!(downcast_box::<()>(Payload::Unit), Ok(()));
    assert_eq!(downcast_box::<String>(Payload::Text("t".to_string())), Ok("t".to_string()));
    assert_eq!(downcast_box::<Vec<u8>>(Payload::Bytes(vec![7])), Ok(vec![7]));
    assert_eq!(downcast_box::<u64>(Payload::Usize(1)), Err(Payload::Usize(1)));
    assert_eq!(downcast_box::<usize>(Payload::Usize(1)), Ok(1));
    assert_eq!(downcast_box::<Payload>(Payload::U64(2)), Ok(Payload::U64(2)));
    assert_eq!(downcast_ref::<u64>(&Payload::U64(2)), Some(2));
    assert_eq!(downcast_ref::<u64>(&Payload::I64(2)), None);
    assert_eq!(8u64.clone_box(), Payload::U64(8));
    assert_eq!("s".to_string().clone_box(), Payload::Text("s".to_string()));
    assert_eq!(().clone_box(), Payload::Unit);
    assert_eq!(Payload::Bool(true).clone_box(), Payload::Bool(true));
    assert_eq!(Payload::Bytes(vec![1, 2, 3]).clone(), Payload::Bytes(vec![1, 2, 3]));
}
