use rcore_process::{
    current, dur_to_ticks, park, sleep, spawn, yield_now, Heap, JoinError, JoinHandle, Processor,
    Span, Status, Wakeup,
};

#[test]
fn ticks_round_down_to_ten_millis() {
    assert_eq!(dur_to_ticks(Span::from_millis(5)), 0);
    assert_eq!(dur_to_ticks(Span::from_millis(15)), 1);
    assert_eq!(dur_to_ticks(Span::from_secs(2)), 200);
}

#[test]
fn ticks_of_seconds_and_nanos() {
    assert_eq!(dur_to_ticks(Span::new(1, 234_567_890)), 123);
    assert_eq!(dur_to_ticks(Span::new(0, 999_999_999)), 99);
    assert_eq!(dur_to_ticks(Span::from_millis(0)), 0);
}

#[test]
fn span_parts() {
    let s = Span::from_millis(2_345);
    assert_eq!(s.as_secs(), 2);
    assert_eq!(s.subsec_nanos(), 345_000_000);
}

#[test]
fn new_processor_runs_boot_thread() {
    let p = Processor::new();
    assert_eq!(p.pid(), 0);
    assert_eq!(current(&p).id(), 0);
    assert_eq!(p.get_status(0), Some(Status::Running));
    assert_eq!(p.get_status(1), None);
}

#[test]
fn spawn_registers_ready_child() {
    let mut p = Processor::new();
    let (h, ctx) = spawn(&mut p, || 7u32);
    assert_eq!(h.thread().id(), 1);
    assert_eq!(ctx.id(), 1);
    assert_eq!(p.len(), 2);
    assert_eq!(p.get_status(1), Some(Status::Ready));
    assert_eq!(p.get_status(0), Some(Status::Running));
}

#[test]
fn spawn_then_join_gives_value_once() {
    let mut p = Processor::new();
    let mut heap: Heap<u32> = Heap::new();
    let (h, ctx) = spawn(&mut p, || 40u32 + 2);
    p.switch_to(1);
    assert_eq!(p.get_status(0), Some(Status::Ready));
    ctx.enter(&mut p, &mut heap);
    assert_eq!(p.get_status(1), Some(Status::Exited(0)));
    assert!(heap.is_full(0));
    p.switch_to(0);
    let v = h.join(&mut p, &mut heap).unwrap();
    assert_eq!(v, 42);
    assert_eq!(p.get_status(1), None);
    assert!(!heap.is_full(0));
    let again: JoinHandle<u32> = JoinHandle::from_pid(1);
    assert!(matches!(again.join(&mut p, &mut heap), Err(JoinError::NotFound)));
}

#[test]
fn join_before_exit_waits_then_succeeds() {
    let mut p = Processor::new();
    let mut heap: Heap<String> = Heap::new();
    let (h, ctx) = spawn(&mut p, || String::from("done"));
    let h = match h.join(&mut p, &mut heap) {
        Err(JoinError::Pending(h)) => h,
        other => panic!("expected a pending join, got {:?}", other),
    };
    assert_eq!(p.get_status(0), Some(Status::Sleeping(Wakeup::Exit(1))));
    p.switch_to(1);
    ctx.enter(&mut p, &mut heap);
    assert_eq!(p.get_status(0), Some(Status::Ready));
    p.switch_to(0);
    assert_eq!(h.join(&mut p, &mut heap).unwrap(), "done");
}

#[test]
fn join_unknown_pid_is_not_found() {
    let mut p = Processor::new();
    let mut heap: Heap<u8> = Heap::new();
    let h: JoinHandle<u8> = JoinHandle::from_pid(9);
    assert!(matches!(h.join(&mut p, &mut heap), Err(JoinError::NotFound)));
    assert_eq!(p.get_status(0), Some(Status::Running));
}

#[test]
fn two_result_types_do_not_mix() {
    let mut p = Processor::new();
    let mut nums: Heap<u64> = Heap::new();
    let mut words: Heap<String> = Heap::new();
    let (ha, ca) = spawn(&mut p, || 5u64);
    let (hb, cb) = spawn(&mut p, || String::from("five"));
    p.switch_to(2);
    cb.enter(&mut p, &mut words);
    p.switch_to(1);
    ca.enter(&mut p, &mut nums);
    p.switch_to(0);
    assert_eq!(hb.join(&mut p, &mut words).unwrap(), "five");
    assert_eq!(p.get_status(1), Some(Status::Exited(0)));
    assert_eq!(ha.join(&mut p, &mut nums).unwrap(), 5);
}

#[test]
fn unjoined_thread_leaves_others_alone() {
    let mut p = Processor::new();
    let mut heap: Heap<i32> = Heap::new();
    let (_ha, ca) = spawn(&mut p, || -1);
    let (hb, _cb) = spawn(&mut p, || 3);
    p.switch_to(1);
    ca.enter(&mut p, &mut heap);
    assert_eq!(p.get_status(0), Some(Status::Ready));
    assert_eq!(p.get_status(2), Some(Status::Ready));
    p.switch_to(0);
    let hb = match hb.join(&mut p, &mut heap) {
        Err(JoinError::Pending(h)) => h,
        other => panic!("expected a pending join, got {:?}", other),
    };
    assert_eq!(hb.thread().id(), 2);
    assert_eq!(p.get_status(1), Some(Status::Exited(0)));
}

#[test]
fn park_then_unpark_is_ready() {
    let mut p = Processor::new();
    let me = current(&p);
    park(&mut p);
    assert_eq!(p.get_status(0), Some(Status::Sleeping(Wakeup::Unpark)));
    me.unpark(&mut p);
    assert_eq!(p.get_status(0), Some(Status::Ready));
}

#[test]
fn unpark_of_running_or_timed_sleep_does_nothing() {
    let mut p = Processor::new();
    let me = current(&p);
    me.unpark(&mut p);
    assert_eq!(p.get_status(0), Some(Status::Running));
    sleep(&mut p, Span::from_millis(30));
    me.unpark(&mut p);
    assert_eq!(p.get_status(0), Some(Status::Sleeping(Wakeup::Timer(3))));
}

#[test]
fn yield_keeps_status() {
    let mut p = Processor::new();
    yield_now(&mut p);
    assert_eq!(p.get_status(0), Some(Status::Running));
    let (_h, _c) = spawn(&mut p, || ());
    p.switch_to(1);
    yield_now(&mut p);
    assert_eq!(p.get_status(1), Some(Status::Running));
    assert_eq!(p.get_status(0), Some(Status::Ready));
}

#[test]
fn sleep_ends_after_its_ticks() {
    let mut p = Processor::new();
    sleep(&mut p, Span::from_millis(25));
    assert_eq!(p.get_status(0), Some(Status::Sleeping(Wakeup::Timer(2))));
    p.tick();
    assert_eq!(p.get_status(0), Some(Status::Sleeping(Wakeup::Timer(1))));
    p.tick();
    assert_eq!(p.get_status(0), Some(Status::Ready));
}

#[test]
fn short_sleep_ends_at_next_tick() {
    let mut p = Processor::new();
    sleep(&mut p, Span::from_millis(5));
    assert_eq!(p.get_status(0), Some(Status::Sleeping(Wakeup::Timer(0))));
    p.tick();
    assert_eq!(p.get_status(0), Some(Status::Ready));
}

#[test]
fn exited_thread_stays_exited() {
    let mut p = Processor::new();
    let (_h, c) = spawn(&mut p, || 1u8);
    let mut heap: Heap<u8> = Heap::new();
    p.switch_to(1);
    c.enter(&mut p, &mut heap);
    p.sleep(1, Wakeup::Unpark);
    p.wakeup(1);
    p.exit(1, 99);
    assert_eq!(p.get_status(1), Some(Status::Exited(0)));
}

#[test]
fn remove_forgets_pid() {
    let mut p = Processor::new();
    let pid = p.add(0);
    assert_eq!(pid, 1);
    p.remove(1);
    assert_eq!(p.get_status(1), None);
    assert_eq!(p.add(0), 2);
}

#[test]
fn heap_cells_take_once() {
    let mut heap: Heap<&str> = Heap::new();
    assert_eq!(heap.put("a"), 0);
    assert_eq!(heap.put("b"), 1);
    assert_eq!(heap.take(1), "b");
    assert!(!heap.is_full(1));
    assert!(heap.is_full(0));
    assert_eq!(heap.take(0), "a");
}
