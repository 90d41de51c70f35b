use procspawn::{
    finish_call, pick_up, pooled_result, resolve_pooled_join, restart_error, DispatchAction,
    EnvVars, PanicInfo, PoolBuilder, PoolCounters, PooledHandleState, PooledReceive,
    ProcessHandleState, SpawnError, StdioMode, WorkerTable,
};

#[test]
fn pool_partial_failure() {
    let mut counters = PoolCounters::new();
    let mut tasks = Vec::new();
    for _ in 0..16 {
        counters.submit();
        tasks.push(PooledHandleState::new());
    }
    let mut ok = 0;
    let mut failed = 0;
    for (x, task) in tasks.iter_mut().enumerate() {
        let worker = ProcessHandleState::new(Some(100 + (x % 4) as u32));
        let (action, err) = pick_up(&mut counters, task, Some(worker));
        assert_eq!(action, DispatchAction::Send);
        assert!(err.is_none());
        let envelope: Result<(), PanicInfo> = if x % 4 == 0 {
            Err(PanicInfo::new("completely broken"))
        } else {
            Ok(())
        };
        let value = pooled_result(Some(envelope)).unwrap();
        assert!(!finish_call(task, true, true));
        match resolve_pooled_join(PooledReceive::Value(value)).0 {
            Ok(()) => ok += 1,
            Err(e) => {
                assert!(e.is_panic());
                failed += 1;
            }
        }
        counters.complete();
    }
    assert_eq!(ok, 12);
    assert_eq!(failed, 4);
    assert!(!counters.has_work());
}

#[test]
fn pool_timeout() {
    let table = WorkerTable::new(2);
    let (result, kill) = resolve_pooled_join::<()>(PooledReceive::TimedOut);
    assert!(result.unwrap_err().is_timeout());
    assert!(kill);
    let (result, kill) = resolve_pooled_join(PooledReceive::Value(Ok(42)));
    assert_eq!(result.unwrap(), 42);
    assert!(!kill);
    assert_eq!(table.size(), 2);
}

#[test]
fn pool_overload() {
    let mut counters = PoolCounters::new();
    let mut tasks = Vec::new();
    for _ in 0..10 {
        counters.submit();
        tasks.push(PooledHandleState::new());
    }
    for (i, task) in tasks.iter_mut().take(2).enumerate() {
        pick_up(&mut counters, task, Some(ProcessHandleState::new(Some(200 + i as u32))));
    }
    let with_pid = tasks.iter().filter(|t| t.pid().is_some()).count();
    assert_eq!(with_pid, 2);
    assert_eq!(counters.queued, 8);
    assert_eq!(counters.active, 2);
    assert!(counters.mark_dead());
    assert!(!counters.mark_dead());
}

#[test]
fn cancelled_task_is_skipped() {
    let mut counters = PoolCounters::new();
    counters.submit();
    let mut task = PooledHandleState::new();
    assert_eq!(task.kill(), None);
    let (action, err) = pick_up(&mut counters, &mut task, Some(ProcessHandleState::new(Some(7))));
    assert_eq!(action, DispatchAction::Skip);
    assert!(err.unwrap().is_cancellation());
    assert_eq!(task.pid(), None);
    assert!(counters.complete());
}

#[test]
fn killing_running_task_signals_worker() {
    let mut counters = PoolCounters::new();
    counters.submit();
    let mut task = PooledHandleState::new();
    pick_up(&mut counters, &mut task, Some(ProcessHandleState::new(Some(31))));
    assert_eq!(task.kill(), Some(31));
    assert!(task.cancelled);
    assert!(finish_call(&mut task, true, false));
    assert_eq!(task.kill(), None);
}

#[test]
fn restart_reports_dead_worker() {
    let clean = restart_error(Ok(()));
    assert!(clean.is_remote_close());
    let crashed = restart_error(Err(SpawnError::new_cancelled()));
    assert!(crashed.is_cancellation());
    assert!(finish_call(&mut PooledHandleState::new(), false, true));
    let (closed, _) = resolve_pooled_join::<()>(PooledReceive::Disconnected);
    assert!(closed.unwrap_err().is_remote_close());
    assert!(pooled_result::<()>(None).is_none());
}

#[test]
fn worker_table_restart_keeps_size() {
    let mut table = WorkerTable::new(4);
    for i in 0..4 {
        table.worker_started(i, ProcessHandleState::new(Some(10 + i as u32)));
    }
    table.worker_gone(2);
    assert_eq!(table.worker(2), None);
    table.worker_started(2, ProcessHandleState::new(Some(99)));
    assert_eq!(table.size(), 4);
    assert_eq!(table.slots.iter().filter(|s| s.is_some()).count(), 4);
    assert_eq!(table.worker(2).unwrap().pid(), Some(99));
}

#[test]
fn pool_join_generations() {
    let mut counters = PoolCounters::new();
    counters.submit();
    let seen = counters.join_generation;
    assert!(counters.keep_waiting(seen));
    let mut task = PooledHandleState::new();
    pick_up(&mut counters, &mut task, None);
    assert!(counters.complete());
    assert!(!counters.keep_waiting(seen));
    counters.finish_wait(seen);
    assert_eq!(counters.join_generation, 1);
    counters.finish_wait(seen);
    assert_eq!(counters.join_generation, 1);
    let mut wrapped = PoolCounters { join_generation: usize::MAX, ..PoolCounters::new() };
    wrapped.finish_wait(usize::MAX);
    assert_eq!(wrapped.join_generation, 0);
}

#[test]
fn pool_builder_streams() {
    let mut builder = PoolBuilder::new(4, EnvVars::new());
    assert_eq!(builder.worker_streams(), (None, None, None));
    builder.disable_stdout().disable_stderr().env("FOO", "1");
    assert_eq!(builder.worker_streams(), (None, Some(StdioMode::Null), Some(StdioMode::Null)));
    builder.disable_stdin();
    assert_eq!(builder.worker_streams().0, Some(StdioMode::Null));
    assert_eq!(builder.size, 4);
    assert_eq!(builder.common.vars.get("FOO"), Some("1".to_string()));
}

#[test]
fn dispatch_stops_and_respawn_ends_with_the_pool() {
    let mut counters = PoolCounters::new();
    assert!(counters.keeps_dispatching());
    assert!(counters.respawns_worker(true));
    assert!(!counters.respawns_worker(false));
    counters.mark_dead();
    assert!(!counters.keeps_dispatching());
    assert!(!counters.respawns_worker(true));
}
