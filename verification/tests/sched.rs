use rtos::sched::{TaskStates, TaskTable};

fn table_with(sps: &[u32]) -> TaskTable {
    let mut t = TaskTable::new();
    for (i, sp) in sps.iter().enumerate() {
        assert_eq!(t.insert(*sp), i as u32);
    }
    t
}

#[test]
fn insert_assigns_consecutive_pids() {
    let t = table_with(&[0x100, 0x200, 0x300]);
    assert_eq!(t.len(), 3);
    for i in 0..3usize {
        let e = t.entry(i).unwrap();
        assert_eq!(e.pid, i as u32);
        assert_eq!(e.sp, 0x100 * (i as u32 + 1));
        assert_eq!(e.state, TaskStates::READY);
    }
    assert!(t.entry(3).is_none());
    assert_eq!(t.current_task(), 0);
    assert_eq!(t.currently_sleeping(), 0);
}

#[test]
fn next_process_is_round_robin() {
    let mut t = table_with(&[10, 20, 30]);
    assert_eq!(t.next_process(), 20);
    assert_eq!(t.current_task(), 1);
    assert_eq!(t.next_process(), 30);
    assert_eq!(t.next_process(), 10);
    assert_eq!(t.current_task(), 0);
}

#[test]
fn next_process_skips_blocked_and_terminated() {
    let mut t = table_with(&[10, 20, 30, 40]);
    assert_eq!(t.next_process(), 20);
    t.set_task_state(TaskStates::BLOCKED);
    assert_eq!(t.next_process(), 30);
    t.terminate_task();
    // slot 3 is next; then slots 1 and 2 are passed over
    assert_eq!(t.next_process(), 40);
    assert_eq!(t.next_process(), 10);
    assert_eq!(t.next_process(), 40);
    assert_eq!(t.entry(1).unwrap().state, TaskStates::BLOCKED);
    assert_eq!(t.entry(2).unwrap().state, TaskStates::TERMINATED);
}

#[test]
fn single_runnable_task_is_picked_again() {
    let mut t = table_with(&[10, 20]);
    t.terminate_task();
    assert_eq!(t.next_process(), 20);
    assert_eq!(t.next_process(), 20);
    assert_eq!(t.current_task(), 1);
}

#[test]
fn terminated_task_is_never_scheduled() {
    let mut t = table_with(&[10, 20, 30]);
    t.terminate_task();
    for _ in 0..6 {
        t.next_process();
        assert_ne!(t.current_task(), 0);
    }
}

#[test]
fn update_sp_saves_running_task_context() {
    let mut t = table_with(&[10, 20]);
    t.update_sp(0x2000_1000);
    assert_eq!(t.entry(0).unwrap().sp, 0x2000_1000);
    assert_eq!(t.entry(1).unwrap().sp, 20);
}

#[test]
fn operations_on_empty_table_change_nothing() {
    let mut t = TaskTable::new();
    t.update_sp(5);
    t.set_task_state(TaskStates::BLOCKED);
    t.terminate_task();
    t.mark_self_as_sleeping();
    assert_eq!(t.get_sleeping(), 0);
    assert_eq!(t.len(), 0);
    assert_eq!(t.current_task(), 0);
}

#[test]
fn sleep_then_wake_resumes_same_task() {
    let mut t = table_with(&[10, 20, 30]);
    t.next_process();
    t.mark_self_as_sleeping();
    assert_eq!(t.currently_sleeping(), 1);
    assert_eq!(t.entry(1).unwrap().state, TaskStates::BLOCKED);
    assert_eq!(t.get_sleeping(), 20);
    assert_eq!(t.current_task(), 1);
    assert_eq!(t.entry(1).unwrap().state, TaskStates::RUNNING);
    assert_eq!(t.entry(0).unwrap().state, TaskStates::READY);
    assert_eq!(t.entry(2).unwrap().state, TaskStates::READY);
}

#[test]
fn sleeper_resumes_where_preempted() {
    let mut t = table_with(&[10, 20, 30]);
    t.mark_self_as_sleeping();
    // preempted with its context at 0x700: another task runs
    let sp = t.context_switch(0x700);
    assert_eq!(sp, 20);
    assert_ne!(t.current_task(), 0);
    // the sleeper is passed over while it sleeps
    assert_eq!(t.context_switch(0x800), 30);
    assert_eq!(t.context_switch(0x900), 0x800);
    // the timer wakes it from the saved context
    assert_eq!(t.priority_schedule(0xA00), 0x700);
    assert_eq!(t.current_task(), 0);
    assert_eq!(t.entry(0).unwrap().state, TaskStates::RUNNING);
    assert_eq!(t.entry(1).unwrap().sp, 0xA00);
}

#[test]
fn running_state_counts_as_runnable() {
    let mut t = table_with(&[10, 20]);
    t.set_task_state(TaskStates::RUNNING);
    t.next_process();
    t.set_task_state(TaskStates::BLOCKED);
    assert_eq!(t.next_process(), 10);
}

#[test]
fn has_runnable_task_reports_states() {
    let mut t = table_with(&[10, 20]);
    assert!(t.has_runnable_task());
    t.terminate_task();
    assert!(t.has_runnable_task());
    t.next_process();
    t.set_task_state(TaskStates::BLOCKED);
    assert!(!t.has_runnable_task());
    assert!(!TaskTable::new().has_runnable_task());
}

#[test]
fn sleeper_keeps_saved_sp_through_many_calls() {
    let mut t = table_with(&[10, 20, 30, 40]);
    t.next_process();
    t.mark_self_as_sleeping();
    t.update_sp(0x555);
    for round in 0..10u32 {
        t.next_process();
        assert_ne!(t.current_task(), 1);
        t.update_sp(0x1000 + round);
        t.set_task_state(TaskStates::READY);
    }
    assert_eq!(t.entry(1).unwrap().sp, 0x555);
    assert_eq!(t.get_sleeping(), 0x555);
    assert_eq!(t.current_task(), 1);
    assert_eq!(t.entry(1).unwrap().state, TaskStates::RUNNING);
}

#[test]
fn terminated_task_stays_skipped_through_many_calls() {
    let mut t = table_with(&[10, 20, 30]);
    t.next_process();
    t.terminate_task();
    for round in 0..9u32 {
        t.update_sp(0x100 + round);
        t.next_process();
        assert_ne!(t.current_task(), 1);
        if round == 4 {
            t.mark_self_as_sleeping();
            t.next_process();
            t.get_sleeping();
        }
    }
    assert_eq!(t.entry(1).unwrap().state, TaskStates::TERMINATED);
}
