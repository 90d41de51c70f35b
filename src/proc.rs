use vstd::prelude::*;

use crate::config::{should_pass_args, RuntimeFlags, SpawnRefusal, ENV_NAME};
use crate::env::EnvVars;
use crate::error::{transport_error, PanicInfo, SpawnError, SpawnErrorKind, TransportFailure};
use crate::testsupport::{
    asks_for_output, helper_path, TestSupport, EXACT_FLAG, ONE_THREAD_FLAG, QUIET_FLAG,
};

verus! {

/// What a standard stream of a child is connected to.
#[derive(Debug, Clone, Copy, PartialEq, Eq, Structural)]
pub enum StdioMode {
    /// The parent's stream.
    Inherit,
    /// Nothing: reads see end of file and writes are dropped.
    Null,
    /// A pipe that the parent holds the other end of.
    Piped,
}

/// The settings that one-shot spawns and pools share: the child's
/// environment and the user and group it runs as.
#[derive(Debug, Clone)]
pub struct ProcCommon {
    pub vars: EnvVars,
    pub uid: Option<u32>,
    pub gid: Option<u32>,
}

impl ProcCommon {
    /// Settings that start from the given environment, with no change of
    /// user or group.
    pub fn new(vars: EnvVars) -> (r: ProcCommon)
        ensures
            r.vars == vars,
            r.uid is None,
            r.gid is None,
    {
        ProcCommon { vars, uid: None, gid: None }
    }

    /// Defines a variable in the child's environment.
    pub fn env(&mut self, key: &str, val: &str)
        requires
            old(self).vars.wf(),
        ensures
            final(self).vars.wf(),
            final(self).vars.view() == old(self).vars.view().insert(key@, val@),
            final(self).uid == old(self).uid,
            final(self).gid == old(self).gid,
    {
        self.vars.set(key, val);
    }

    /// Removes a variable from the child's environment.
    pub fn env_remove(&mut self, key: &str)
        requires
            old(self).vars.wf(),
        ensures
            final(self).vars.wf(),
            final(self).vars.view() == old(self).vars.view().remove(key@),
            final(self).uid == old(self).uid,
            final(self).gid == old(self).gid,
    {
        self.vars.remove(key);
    }

    /// Removes every variable from the child's environment.
    pub fn env_clear(&mut self)
        ensures
            final(self).vars.wf(),
            final(self).vars.view() == Map::<Seq<char>, Seq<char>>::empty(),
            final(self).uid == old(self).uid,
            final(self).gid == old(self).gid,
    {
        self.vars.clear();
    }
}

/// The configuration of a one-shot spawn.
#[derive(Debug)]
pub struct Builder {
    pub stdin: Option<StdioMode>,
    pub stdout: Option<StdioMode>,
    pub stderr: Option<StdioMode>,
    pub common: ProcCommon,
}

impl Builder {
    /// A configuration whose child gets the given environment and the
    /// parent's standard streams.
    pub fn new(vars: EnvVars) -> (r: Builder)
        ensures
            r.stdin is None,
            r.stdout is None,
            r.stderr is None,
            r.common.vars == vars,
            r.common.uid is None,
            r.common.gid is None,
    {
        Builder { stdin: None, stdout: None, stderr: None, common: ProcCommon::new(vars) }
    }

    /// Defines a variable in the child's environment.
    pub fn env(&mut self, key: &str, val: &str) -> (r: &mut Self)
        requires
            old(self).common.vars.wf(),
        ensures
            r.common.vars.wf(),
            r.common.vars.view() == old(self).common.vars.view().insert(key@, val@),
            r.common.uid == old(self).common.uid,
            r.common.gid == old(self).common.gid,
            r.stdin == old(self).stdin,
            r.stdout == old(self).stdout,
            r.stderr == old(self).stderr,
            *final(self) == *final(r),
    {
        self.common.env(key, val);
        self
    }

    /// Removes a variable from the child's environment.
    pub fn env_remove(&mut self, key: &str) -> (r: &mut Self)
        requires
            old(self).common.vars.wf(),
        ensures
            r.common.vars.wf(),
            r.common.vars.view() == old(self).common.vars.view().remove(key@),
            r.common.uid == old(self).common.uid,
            r.common.gid == old(self).common.gid,
            r.stdin == old(self).stdin,
            r.stdout == old(self).stdout,
            r.stderr == old(self).stderr,
            *final(self) == *final(r),
    {
        self.common.env_remove(key);
        self
    }

    /// Removes every variable from the child's environment.
    pub fn env_clear(&mut self) -> (r: &mut Self)
        ensures
            r.common.vars.wf(),
            r.common.vars.view() == Map::<Seq<char>, Seq<char>>::empty(),
            r.common.uid == old(self).common.uid,
            r.common.gid == old(self).common.gid,
            r.stdin == old(self).stdin,
            r.stdout == old(self).stdout,
            r.stderr == old(self).stderr,
            *final(self) == *final(r),
    {
        self.common.env_clear();
        self
    }

    /// Runs the child as the given user.
    pub fn uid(&mut self, id: u32) -> (r: &mut Self)
        ensures
            r.common.uid == Some(id),
            r.common.gid == old(self).common.gid,
            r.common.vars == old(self).common.vars,
            r.stdin == old(self).stdin,
            r.stdout == old(self).stdout,
            r.stderr == old(self).stderr,
            *final(self) == *final(r),
    {
        self.common.uid = Some(id);
        self
    }

    /// Runs the child in the given group.
    pub fn gid(&mut self, id: u32) -> (r: &mut Self)
        ensures
            r.common.gid == Some(id),
            r.common.uid == old(self).common.uid,
            r.common.vars == old(self).common.vars,
            r.stdin == old(self).stdin,
            r.stdout == old(self).stdout,
            r.stderr == old(self).stderr,
            *final(self) == *final(r),
    {
        self.common.gid = Some(id);
        self
    }

    /// Connects the child's standard input.
    pub fn stdin(&mut self, mode: StdioMode) -> (r: &mut Self)
        ensures
            *r == (Builder { stdin: Some(mode), ..*old(self) }),
            *final(self) == *final(r),
    {
        self.stdin = Some(mode);
        self
    }

    /// Connects the child's standard output.
    pub fn stdout(&mut self, mode: StdioMode) -> (r: &mut Self)
        ensures
            *r == (Builder { stdout: Some(mode), ..*old(self) }),
            *final(self) == *final(r),
    {
        self.stdout = Some(mode);
        self
    }

    /// Connects the child's standard error.
    pub fn stderr(&mut self, mode: StdioMode) -> (r: &mut Self)
        ensures
            *r == (Builder { stderr: Some(mode), ..*old(self) }),
            *final(self) == *final(r),
    {
        self.stderr = Some(mode);
        self
    }
}

/// Everything a child is launched with: its environment, its arguments, its
/// standard streams and its user and group.
#[derive(Debug)]
pub struct ChildPlan {
    pub env: EnvVars,
    pub args: Vec<String>,
    pub stdin: Option<StdioMode>,
    pub stdout: Option<StdioMode>,
    pub stderr: Option<StdioMode>,
    pub uid: Option<u32>,
    pub gid: Option<u32>,
}

/// The texts of a sequence of strings.
pub open spec fn texts(s: Seq<String>) -> Seq<Seq<char>> {
    s.map_values(|x: String| x@)
}

/// The arguments of a child: under a test harness those that select the
/// helper test, else, where arguments are passed, the parent's own after
/// the program name.
pub open spec fn child_args(
    tests_enabled: bool,
    module: Option<Seq<char>>,
    pass_args: bool,
    parent_args: Seq<Seq<char>>,
) -> Seq<Seq<char>> {
    if tests_enabled {
        seq![helper_path(module), EXACT_FLAG@, ONE_THREAD_FLAG@, QUIET_FLAG@]
    } else if pass_args && parent_args.len() > 0 {
        parent_args.skip(1)
    } else {
        Seq::empty()
    }
}

/// The module of the helper test as text.
pub open spec fn module_text(tests: &TestSupport) -> Option<Seq<char>> {
    match tests.module {
        Some(m) => Some(m@),
        None => None,
    }
}

/// Works out how to launch the child of a one-shot spawn: the configured
/// environment with the reserved variable set to the rendezvous name, and
/// the arguments and streams that the flags and the test harness call for.
/// A configured environment that already holds the reserved variable is
/// refused, since the child would take it for its own.
pub fn plan_child(
    builder: Builder,
    token: &str,
    flags: &RuntimeFlags,
    tests: &TestSupport,
    parent_args: &Vec<String>,
) -> (r: Result<ChildPlan, SpawnRefusal>)
    requires
        builder.common.vars.wf(),
    ensures
        r is Err <==> builder.common.vars.view().contains_key(ENV_NAME@),
        r matches Err(e) ==> e == SpawnRefusal::ReservedVariableSet,
        r matches Ok(p) ==> {
            &&& p.env.wf()
            &&& p.env.view() == builder.common.vars.view().insert(ENV_NAME@, token@)
            &&& texts(p.args@) == child_args(
                tests.enabled,
                module_text(tests),
                flags.pass_args,
                texts(parent_args@),
            )
            &&& p.stdin == builder.stdin
            &&& p.stderr == builder.stderr
            &&& p.stdout == match builder.stdout {
                Some(m) => Some(m),
                None => if tests.enabled && !(exists|i: int|
                    0 <= i < parent_args@.len() && asks_for_output(
                        #[trigger] parent_args@[i]@,
                    )) {
                    Some(StdioMode::Null)
                } else {
                    None
                },
            }
            &&& p.uid == builder.common.uid
            &&& p.gid == builder.common.gid
        },
{
    let Builder { stdin, stdout, stderr, common } = builder;
    let ProcCommon { vars, uid, gid } = common;
    let mut env = vars;
    match env.get(ENV_NAME) {
        Some(_) => {
            return Err(SpawnRefusal::ReservedVariableSet);
        },
        None => {},
    }
    env.set(ENV_NAME, token);
    let mut args: Vec<String> = Vec::new();
    let mode = tests.update_command_for_tests(&mut args, parent_args);
    let (can_pass_args, silence) = match mode {
        None => (true, false),
        Some(m) => (m.can_pass_args, m.should_silence_stdout),
    };
    if can_pass_args && should_pass_args(flags) && parent_args.len() > 0 {
        let mut i: usize = 1;
        while i < parent_args.len()
            invariant
                1 <= i <= parent_args@.len(),
                !tests.enabled,
                texts(args@) == texts(parent_args@).subrange(1, i as int),
            decreases parent_args@.len() - i,
        {
            let ghost prev = args@;
            let arg = parent_args[i].clone();
            assert(arg@ == parent_args@[i as int]@);
            args.push(arg);
            proof {
                assert(args@ == prev.push(arg));
                assert(texts(args@) =~= texts(prev).push(arg@));
                assert(texts(args@) =~= texts(parent_args@).subrange(1, i + 1));
            }
            i = i + 1;
        }
        assert(texts(parent_args@).skip(1) =~= texts(parent_args@).subrange(
            1,
            parent_args@.len() as int,
        ));
    } else {
        assert(texts(args@) =~= child_args(
            tests.enabled,
            module_text(tests),
            flags.pass_args,
            texts(parent_args@),
        ));
    }
    let stdout = match stdout {
        Some(m) => Some(m),
        None => if silence {
            Some(StdioMode::Null)
        } else {
            None
        },
    };
    Ok(ChildPlan { env, args, stdin, stdout, stderr, uid, gid })
}

/// What a child does with the environment it starts in: where the reserved
/// variable is set, it removes it, so that spawns it makes itself start
/// afresh, and returns its value, the name of the rendezvous to connect to.
pub fn take_bootstrap_token(env: &mut EnvVars) -> (r: Option<String>)
    requires
        old(env).wf(),
    ensures
        final(env).wf(),
        final(env).view() == old(env).view().remove(ENV_NAME@),
        match r {
            Some(t) => old(env).view().contains_key(ENV_NAME@) && old(env).view()[ENV_NAME@]
                == t@,
            None => !old(env).view().contains_key(ENV_NAME@),
        },
{
    env.take(ENV_NAME)
}

/// A child started from an environment that it cleared of the reserved
/// variable sees, in a child of its own, only the token of that spawn, never
/// the one that it was started with; and every other variable reaches the
/// grandchild as the builder left it.
pub proof fn nested_spawn_token(
    parent_vars: Map<Seq<char>, Seq<char>>,
    token: Seq<char>,
    nested_token: Seq<char>,
)
    ensures
        !parent_vars.insert(ENV_NAME@, token).remove(ENV_NAME@).contains_key(ENV_NAME@),
        parent_vars.insert(ENV_NAME@, token).remove(ENV_NAME@).insert(
            ENV_NAME@,
            nested_token,
        )[ENV_NAME@] == nested_token,
        forall|k: Seq<char>|
            k != ENV_NAME@ ==> (#[trigger] parent_vars.insert(ENV_NAME@, token).remove(
                ENV_NAME@,
            ).insert(ENV_NAME@, nested_token).contains_key(k) <==> parent_vars.contains_key(k)),
{
}

/// Variables that a builder defines reach the child with their values, and
/// variables that it removes do not reach it.
pub proof fn environment_forwarding(
    vars: Map<Seq<char>, Seq<char>>,
    key: Seq<char>,
    val: Seq<char>,
    token: Seq<char>,
)
    requires
        key != ENV_NAME@,
    ensures
        vars.insert(key, val).insert(ENV_NAME@, token)[key] == val,
        !vars.remove(key).insert(ENV_NAME@, token).contains_key(key),
        !Map::<Seq<char>, Seq<char>>::empty().insert(ENV_NAME@, token).contains_key(key),
{
}

/// The shared state of a running child: its process id, zero while it is
/// unknown, and whether it has exited.
#[derive(Debug, Clone, Copy, PartialEq, Eq, Structural)]
pub struct ProcessHandleState {
    pub exited: bool,
    pub pid: u32,
}

/// The process id that a state reports: none while it is unknown.
pub open spec fn reported_pid(state: ProcessHandleState) -> Option<u32> {
    if state.pid == 0 {
        None
    } else {
        Some(state.pid)
    }
}

impl ProcessHandleState {
    /// The state of a child just launched, with its id if the system gave
    /// one.
    pub fn new(pid: Option<u32>) -> (r: ProcessHandleState)
        ensures
            !r.exited,
            r.pid == match pid {
                Some(p) => p,
                None => 0,
            },
    {
        ProcessHandleState {
            exited: false,
            pid: match pid {
                Some(p) => p,
                None => 0,
            },
        }
    }

    /// The process id, if it is known.
    pub fn pid(&self) -> (r: Option<u32>)
        ensures
            r == reported_pid(*self),
    {
        if self.pid == 0 {
            None
        } else {
            Some(self.pid)
        }
    }

    /// Records that the child exited. The flag is never cleared.
    pub fn mark_exited(&mut self)
        ensures
            *final(self) == (ProcessHandleState { exited: true, ..*old(self) }),
    {
        self.exited = true;
    }

    /// Whether a kill must signal the child: not once it has exited.
    pub fn needs_kill(&self) -> (r: bool)
        ensures
            r == !self.exited,
    {
        !self.exited
    }
}

/// The result that a call's envelope stands for: the value, or the panic
/// as an error.
pub fn envelope_result<T>(envelope: Result<T, PanicInfo>) -> (r: Result<T, SpawnError>)
    ensures
        match envelope {
            Ok(v) => r == Ok::<T, SpawnError>(v),
            Err(p) => r matches Err(e) && e.kind == SpawnErrorKind::Panic(p),
        },
{
    match envelope {
        Ok(v) => Ok(v),
        Err(p) => Err(SpawnError::from_panic(p)),
    }
}

/// The result of a join on a one-shot handle, from what the result channel
/// gave: the envelope that arrived, or how the channel failed.
pub fn resolve_join<T>(received: Result<Result<T, PanicInfo>, TransportFailure>) -> (r: Result<
    T,
    SpawnError,
>)
    ensures
        match received {
            Ok(Ok(v)) => r == Ok::<T, SpawnError>(v),
            Ok(Err(p)) => r matches Err(e) && e.kind == SpawnErrorKind::Panic(p),
            Err(f) => r matches Err(e) && transport_error(f, e.kind),
        },
{
    match received {
        Ok(envelope) => envelope_result(envelope),
        Err(f) => Err(SpawnError::from_transport(f)),
    }
}

/// Whether the result of a handle was taken already.
#[derive(Debug, Clone, Copy, PartialEq, Eq, Structural)]
pub struct JoinState {
    pub consumed: bool,
}

/// True if a join in this state hands out what it received.
pub open spec fn passes_result(state: JoinState) -> bool {
    !state.consumed
}

/// The state of a handle after a join.
pub open spec fn after_join(state: JoinState) -> JoinState {
    JoinState { consumed: true }
}

impl JoinState {
    /// A handle whose result has not been taken.
    pub fn new() -> (r: JoinState)
        ensures
            passes_result(r),
    {
        JoinState { consumed: false }
    }

    /// Hands out the result of a join: the first time the one received,
    /// afterwards a `Consumed` error.
    pub fn take_result<T>(&mut self, received: Result<T, SpawnError>) -> (r: Result<T, SpawnError>)
        ensures
            *final(self) == after_join(*old(self)),
            passes_result(*old(self)) ==> r == received,
            !passes_result(*old(self)) ==> (r matches Err(e) && e.kind is Consumed),
    {
        if self.consumed {
            Err(SpawnError::new_consumed())
        } else {
            self.consumed = true;
            received
        }
    }
}

/// A join handle hands out at most one result: after a first join, every
/// later join yields `Consumed`, whatever it received.
pub proof fn at_most_once(state: JoinState)
    ensures
        !passes_result(after_join(state)),
        forall|s: JoinState| !passes_result(s) ==> !passes_result(#[trigger] after_join(s)),
{
}

/// The waits of a join with a deadline that polls: the first is one
/// millisecond, each next one twice as long, none beyond the time left.
#[derive(Debug, Clone, Copy, PartialEq, Eq, Structural)]
pub struct PollBackoff {
    pub delay_ms: u64,
}

impl PollBackoff {
    /// The backoff before the first poll.
    pub fn new() -> (r: PollBackoff)
        ensures
            r.delay_ms == 1,
    {
        PollBackoff { delay_ms: 1 }
    }

    /// How long to wait before the next poll, with `remaining_ms` left
    /// before the deadline; none once the deadline has passed.
    pub fn next_wait(&mut self, remaining_ms: u64) -> (r: Option<u64>)
        ensures
            remaining_ms == 0 ==> r is None && *final(self) == *old(self),
            remaining_ms > 0 ==> {
                &&& r == Some(
                    if old(self).delay_ms < remaining_ms {
                        old(self).delay_ms
                    } else {
                        remaining_ms
                    },
                )
                &&& final(self).delay_ms == if old(self).delay_ms <= u64::MAX / 2 {
                    (2 * old(self).delay_ms) as u64
                } else {
                    u64::MAX
                }
            },
    {
        if remaining_ms == 0 {
            return None;
        }
        let wait = if self.delay_ms < remaining_ms {
            self.delay_ms
        } else {
            remaining_ms
        };
        self.delay_ms = if self.delay_ms <= u64::MAX / 2 {
            2 * self.delay_ms
        } else {
            u64::MAX
        };
        Some(wait)
    }
}

} // verus!
