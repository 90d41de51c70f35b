use vstd::prelude::*;

use crate::env::EnvVars;
use crate::error::{IoFailure, IoFailureKind, PanicInfo, SpawnError, SpawnErrorKind};
use crate::proc::{envelope_result, ProcCommon, ProcessHandleState, StdioMode};

verus! {

/// The state that a pooled call shares between its handle and the thread
/// that dispatches it: whether it was cancelled, and the worker it runs on
/// once it was picked up.
#[derive(Debug, Clone, Copy, PartialEq, Eq, Structural)]
pub struct PooledHandleState {
    pub cancelled: bool,
    pub process_handle_state: Option<ProcessHandleState>,
}

/// The process to signal when a call is killed: the worker that runs it,
/// if its id is known and it has not exited.
pub open spec fn kill_target(state: PooledHandleState) -> Option<u32> {
    match state.process_handle_state {
        Some(p) => if !p.exited && p.pid != 0 {
            Some(p.pid)
        } else {
            None
        },
        None => None,
    }
}

impl PooledHandleState {
    /// The state of a call just queued.
    pub fn new() -> (r: PooledHandleState)
        ensures
            !r.cancelled,
            r.process_handle_state is None,
    {
        PooledHandleState { cancelled: false, process_handle_state: None }
    }

    /// Cancels the call, and gives the worker process to signal if the call
    /// was already picked up.
    pub fn kill(&mut self) -> (r: Option<u32>)
        ensures
            *final(self) == (PooledHandleState { cancelled: true, ..*old(self) }),
            r == kill_target(*old(self)),
    {
        self.cancelled = true;
        match &self.process_handle_state {
            Some(p) => if p.needs_kill() {
                p.pid()
            } else {
                None
            },
            None => None,
        }
    }

    /// The process id of the worker that runs the call, if any.
    pub fn pid(&self) -> (r: Option<u32>)
        ensures
            r == match self.process_handle_state {
                Some(p) => crate::proc::reported_pid(p),
                None => None,
            },
    {
        match &self.process_handle_state {
            Some(p) => p.pid(),
            None => None,
        }
    }
}

/// What the dispatcher does with a call it picked up.
#[derive(Debug, Clone, Copy, PartialEq, Eq, Structural)]
pub enum DispatchAction {
    /// The call was cancelled: report that and do not run it.
    Skip,
    /// Send the call to the worker.
    Send,
}

/// The action for a call picked up in the given cancellation state.
pub open spec fn dispatch_action(cancelled: bool) -> DispatchAction {
    if cancelled {
        DispatchAction::Skip
    } else {
        DispatchAction::Send
    }
}

/// The counters of a pool: calls queued, calls running, the generation of
/// waits for idleness, and whether the pool was killed.
#[derive(Debug, Clone, Copy, PartialEq, Eq, Structural)]
pub struct PoolCounters {
    pub queued: usize,
    pub active: usize,
    pub join_generation: usize,
    pub dead: bool,
}

/// True if some call is queued or running.
pub open spec fn busy(c: PoolCounters) -> bool {
    c.queued > 0 || c.active > 0
}

impl PoolCounters {
    /// The counters of a new pool.
    pub fn new() -> (r: PoolCounters)
        ensures
            r.queued == 0,
            r.active == 0,
            r.join_generation == 0,
            !r.dead,
    {
        PoolCounters { queued: 0, active: 0, join_generation: 0, dead: false }
    }

    /// True if some call is queued or running.
    pub fn has_work(&self) -> (r: bool)
        ensures
            r == busy(*self),
    {
        self.queued > 0 || self.active > 0
    }

    /// Counts a call submitted to a live pool.
    pub fn submit(&mut self)
        requires
            !old(self).dead,
            old(self).queued < usize::MAX,
        ensures
            *final(self) == (PoolCounters { queued: (old(self).queued + 1) as usize, ..*old(self) }),
    {
        self.queued = self.queued + 1;
    }

    /// Counts a call that finished, ran or skipped, and says whether the
    /// pool is idle now, when those waiting for it are to be woken.
    pub fn complete(&mut self) -> (idle: bool)
        requires
            old(self).active > 0,
        ensures
            *final(self) == (PoolCounters { active: (old(self).active - 1) as usize, ..*old(self) }),
            idle == !busy(*final(self)),
    {
        self.active = self.active - 1;
        !self.has_work()
    }

    /// Whether a thread that began waiting in generation `seen` must wait
    /// on: while no other waiter has come out and the pool is busy.
    pub fn keep_waiting(&self, seen: usize) -> (r: bool)
        ensures
            r == (self.join_generation == seen && busy(*self)),
    {
        self.join_generation == seen && self.has_work()
    }

    /// Closes a wait that began in generation `seen`: the first waiter to
    /// come out moves the generation on, so that the others stop too.
    pub fn finish_wait(&mut self, seen: usize)
        ensures
            old(self).join_generation == seen ==> *final(self) == (PoolCounters {
                join_generation: if seen < usize::MAX {
                    (seen + 1) as usize
                } else {
                    0
                },
                ..*old(self)
            }),
            old(self).join_generation != seen ==> *final(self) == *old(self),
    {
        if self.join_generation == seen {
            self.join_generation = if seen < usize::MAX {
                seen + 1
            } else {
                0
            };
        }
    }

    /// Whether a dispatcher takes another call off the queue: not once the
    /// pool is dead.
    pub fn keeps_dispatching(&self) -> (r: bool)
        ensures
            r == !self.dead,
    {
        !self.dead
    }

    /// Whether a worker is started again after a call: where the call asked
    /// for a restart and the pool is still alive.
    pub fn respawns_worker(&self, restart: bool) -> (r: bool)
        ensures
            r == (restart && !self.dead),
    {
        restart && !self.dead
    }

    /// Marks the pool dead, and says whether it was alive until now, when
    /// its workers are to be killed.
    pub fn mark_dead(&mut self) -> (was_alive: bool)
        ensures
            *final(self) == (PoolCounters { dead: true, ..*old(self) }),
            was_alive == !old(self).dead,
    {
        let was_alive = !self.dead;
        self.dead = true;
        was_alive
    }
}

/// The dispatcher's first step with a call it took off the queue: the call
/// leaves the queue and counts as running; a cancelled call is skipped, with
/// the error to report, and is never attached to the worker; any other is
/// attached to the worker's state and is to be sent.
pub fn pick_up(
    counters: &mut PoolCounters,
    task: &mut PooledHandleState,
    worker: Option<ProcessHandleState>,
) -> (r: (DispatchAction, Option<SpawnError>))
    requires
        old(counters).queued > 0,
        old(counters).active < usize::MAX,
    ensures
        *final(counters) == (PoolCounters {
            queued: (old(counters).queued - 1) as usize,
            active: (old(counters).active + 1) as usize,
            ..*old(counters)
        }),
        r.0 == dispatch_action(old(task).cancelled),
        r.0 == DispatchAction::Skip ==> *final(task) == *old(task) && (r.1 matches Some(e)
            && e.kind is Cancelled),
        r.0 == DispatchAction::Send ==> r.1 is None && *final(task) == (PooledHandleState {
            process_handle_state: worker,
            ..*old(task)
        }),
{
    counters.queued = counters.queued - 1;
    counters.active = counters.active + 1;
    if task.cancelled {
        (DispatchAction::Skip, Some(SpawnError::new_cancelled()))
    } else {
        task.process_handle_state = worker;
        (DispatchAction::Send, None)
    }
}

/// The dispatcher's last step with a call it sent: the call is detached from
/// the worker, and the worker is to be restarted if the call could not be
/// sent or its result channel closed with no result.
pub fn finish_call(task: &mut PooledHandleState, sent: bool, answered: bool) -> (restart: bool)
    ensures
        *final(task) == (PooledHandleState { process_handle_state: None, ..*old(task) }),
        restart == (!sent || !answered),
{
    task.process_handle_state = None;
    !sent || !answered
}

/// The text reported for a call whose worker exited cleanly without
/// answering.
pub const WORKER_DIED_MESSAGE: &'static str = "client process died";

/// The text reported for a pooled call whose result channel closed.
pub const PROCESS_WENT_AWAY_MESSAGE: &'static str = "process went away";

/// The error reported for the call that a worker died on: the error of the
/// worker's own join, or a broken pipe where the worker exited cleanly.
pub fn restart_error(worker_exit: Result<(), SpawnError>) -> (r: SpawnError)
    ensures
        match worker_exit {
            Ok(()) => r.kind matches SpawnErrorKind::RemoteClosed(f) && f.kind
                == IoFailureKind::BrokenPipe && f.message@ == WORKER_DIED_MESSAGE@,
            Err(e) => r == e,
        },
{
    match worker_exit {
        Ok(()) => SpawnError::from_io(IoFailure::new(IoFailureKind::BrokenPipe, WORKER_DIED_MESSAGE)),
        Err(e) => e,
    }
}

/// What the handle of a pooled call received.
#[derive(Debug)]
pub enum PooledReceive<T> {
    /// The result, or the error that the dispatcher reported.
    Value(Result<T, SpawnError>),
    /// Nothing arrived before the deadline.
    TimedOut,
    /// The dispatcher dropped its end with nothing sent.
    Disconnected,
}

/// The result of a join on a pooled handle, and whether the call is to be
/// killed: on a timeout it is, since the pool must get its worker back.
pub fn resolve_pooled_join<T>(received: PooledReceive<T>) -> (r: (Result<T, SpawnError>, bool))
    ensures
        match received {
            PooledReceive::Value(v) => r.0 == v && !r.1,
            PooledReceive::TimedOut => (r.0 matches Err(e) && e.kind is TimedOut) && r.1,
            PooledReceive::Disconnected => (r.0 matches Err(e) && e.kind matches
            SpawnErrorKind::RemoteClosed(f) && f.kind == IoFailureKind::BrokenPipe) && !r.1,
        },
{
    match received {
        PooledReceive::Value(v) => (v, false),
        PooledReceive::TimedOut => (Err(SpawnError::new_timeout()), true),
        PooledReceive::Disconnected => (
            Err(
                SpawnError::from_io(
                    IoFailure::new(IoFailureKind::BrokenPipe, PROCESS_WENT_AWAY_MESSAGE),
                ),
            ),
            false,
        ),
    }
}

/// What a worker's result channel gave to the dispatcher: the value to hand
/// to the waiting handle, or none if the channel closed.
pub fn pooled_result<T>(received: Option<Result<T, PanicInfo>>) -> (r: Option<Result<T, SpawnError>>)
    ensures
        match received {
            Some(Ok(v)) => r == Some(Ok::<T, SpawnError>(v)),
            Some(Err(p)) => r matches Some(Err(e)) && e.kind == SpawnErrorKind::Panic(p),
            None => r is None,
        },
{
    match received {
        Some(envelope) => Some(envelope_result(envelope)),
        None => None,
    }
}

/// The number of occupied slots in `s`.
pub open spec fn live_count(s: Seq<Option<ProcessHandleState>>) -> nat
    decreases s.len(),
{
    if s.len() == 0 {
        0
    } else {
        live_count(s.drop_last()) + if s.last() is Some {
            1nat
        } else {
            0nat
        }
    }
}

proof fn lemma_live_count_bound(s: Seq<Option<ProcessHandleState>>)
    ensures
        live_count(s) <= s.len(),
    decreases s.len(),
{
    if s.len() > 0 {
        lemma_live_count_bound(s.drop_last());
    }
}

/// The workers of a pool, one slot each: the state of the worker process
/// that holds the slot, or none while the slot has no live process.
#[derive(Debug)]
pub struct WorkerTable {
    pub slots: Vec<Option<ProcessHandleState>>,
}

impl WorkerTable {
    /// A table of `size` empty slots.
    pub fn new(size: usize) -> (r: WorkerTable)
        ensures
            r.slots@.len() == size,
            forall|i: int| 0 <= i < size ==> #[trigger] r.slots@[i] is None,
    {
        let mut slots: Vec<Option<ProcessHandleState>> = Vec::new();
        let mut i: usize = 0;
        while i < size
            invariant
                i <= size,
                slots@.len() == i,
                forall|j: int| 0 <= j < i ==> #[trigger] slots@[j] is None,
            decreases size - i,
        {
            slots.push(None);
            i = i + 1;
        }
        WorkerTable { slots }
    }

    /// The number of workers of the pool.
    pub fn size(&self) -> (r: usize)
        ensures
            r == self.slots@.len(),
    {
        self.slots.len()
    }

    /// Records the process that now holds slot `i`, in place of any earlier
    /// one.
    pub fn worker_started(&mut self, i: usize, state: ProcessHandleState)
        requires
            i < old(self).slots@.len(),
        ensures
            final(self).slots@ == old(self).slots@.update(i as int, Some(state)),
    {
        self.slots.set(i, Some(state));
    }

    /// Records that the process of slot `i` is gone.
    pub fn worker_gone(&mut self, i: usize)
        requires
            i < old(self).slots@.len(),
        ensures
            final(self).slots@ == old(self).slots@.update(i as int, None),
    {
        self.slots.set(i, None);
    }

    /// The state of the worker in slot `i`, if it has a live process.
    pub fn worker(&self, i: usize) -> (r: Option<ProcessHandleState>)
        requires
            i < self.slots@.len(),
        ensures
            r == self.slots@[i as int],
    {
        self.slots[i]
    }
}

/// However often workers die and are restarted, a pool of `n` slots never
/// has more than `n` live workers: a restart takes the slot of the worker
/// that it replaces.
pub proof fn pool_restart_bound(slots: Seq<Option<ProcessHandleState>>, i: int, state: ProcessHandleState)
    requires
        0 <= i < slots.len(),
    ensures
        slots.update(i, Some(state)).len() == slots.len(),
        slots.update(i, None).len() == slots.len(),
        live_count(slots.update(i, Some(state))) <= slots.len(),
        live_count(slots.update(i, None)) <= slots.len(),
{
    lemma_live_count_bound(slots.update(i, Some(state)));
    lemma_live_count_bound(slots.update(i, None));
}

/// A call cancelled before a worker picked it up is never sent to a
/// worker, so the function is never entered, and its handle receives a
/// cancellation.
pub proof fn cancellation_before_pickup(task: PooledHandleState)
    requires
        task.cancelled,
    ensures
        dispatch_action(task.cancelled) == DispatchAction::Skip,
{
}

/// The configuration of a pool: its size, the standard streams that its
/// workers drop, and the settings it shares with one-shot spawns.
#[derive(Debug)]
pub struct PoolBuilder {
    pub size: usize,
    pub disable_stdin: bool,
    pub disable_stdout: bool,
    pub disable_stderr: bool,
    pub common: ProcCommon,
}

/// The mode of a worker's stream that the pool may drop.
pub open spec fn worker_stream(disabled: bool) -> Option<StdioMode> {
    if disabled {
        Some(StdioMode::Null)
    } else {
        None
    }
}

impl PoolBuilder {
    /// A pool of `size` workers with the given environment, whose workers
    /// keep the parent's standard streams.
    pub fn new(size: usize, vars: EnvVars) -> (r: PoolBuilder)
        ensures
            r.size == size,
            !r.disable_stdin,
            !r.disable_stdout,
            !r.disable_stderr,
            r.common.vars == vars,
            r.common.uid is None,
            r.common.gid is None,
    {
        PoolBuilder {
            size,
            disable_stdin: false,
            disable_stdout: false,
            disable_stderr: false,
            common: ProcCommon::new(vars),
        }
    }

    /// Connects the workers' standard input to nothing.
    pub fn disable_stdin(&mut self) -> (r: &mut Self)
        ensures
            r.disable_stdin,
            r.size == old(self).size,
            r.disable_stdout == old(self).disable_stdout,
            r.disable_stderr == old(self).disable_stderr,
            r.common == old(self).common,
            *final(self) == *final(r),
    {
        self.disable_stdin = true;
        self
    }

    /// Connects the workers' standard output to nothing.
    pub fn disable_stdout(&mut self) -> (r: &mut Self)
        ensures
            r.disable_stdout,
            r.size == old(self).size,
            r.disable_stdin == old(self).disable_stdin,
            r.disable_stderr == old(self).disable_stderr,
            r.common == old(self).common,
            *final(self) == *final(r),
    {
        self.disable_stdout = true;
        self
    }

    /// Connects the workers' standard error to nothing.
    pub fn disable_stderr(&mut self) -> (r: &mut Self)
        ensures
            r.disable_stderr,
            r.size == old(self).size,
            r.disable_stdin == old(self).disable_stdin,
            r.disable_stdout == old(self).disable_stdout,
            r.common == old(self).common,
            *final(self) == *final(r),
    {
        self.disable_stderr = true;
        self
    }

    /// Defines a variable in the workers' environment.
    pub fn env(&mut self, key: &str, val: &str) -> (r: &mut Self)
        requires
            old(self).common.vars.wf(),
        ensures
            r.common.vars.wf(),
            r.common.vars.view() == old(self).common.vars.view().insert(key@, val@),
            r.common.uid == old(self).common.uid,
            r.common.gid == old(self).common.gid,
            r.size == old(self).size,
            r.disable_stdin == old(self).disable_stdin,
            r.disable_stdout == old(self).disable_stdout,
            r.disable_stderr == old(self).disable_stderr,
            *final(self) == *final(r),
    {
        self.common.env(key, val);
        self
    }

    /// The standard streams of each worker: dropped where the pool drops
    /// them, else the parent's.
    pub fn worker_streams(&self) -> (r: (Option<StdioMode>, Option<StdioMode>, Option<StdioMode>))
        ensures
            r == (
                worker_stream(self.disable_stdin),
                worker_stream(self.disable_stdout),
                worker_stream(self.disable_stderr),
            ),
    {
        let stdin = if self.disable_stdin {
            Some(StdioMode::Null)
        } else {
            None
        };
        let stdout = if self.disable_stdout {
            Some(StdioMode::Null)
        } else {
            None
        };
        let stderr = if self.disable_stderr {
            Some(StdioMode::Null)
        } else {
            None
        };
        (stdin, stdout, stderr)
    }
}

} // verus!
