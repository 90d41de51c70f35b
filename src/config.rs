use vstd::prelude::*;

use crate::error::{IoFailure, IoFailureKind};
use crate::panic::BacktraceCapture;

verus! {

/// The environment variable that carries the rendezvous name from a parent
/// to the child it launches.
pub const ENV_NAME: &'static str = "__PROCSPAWN_CONTENT_PROCESS_ID";

/// The text of a failure that a child meets on the Mach platform when its
/// parent is already gone.
pub const BENIGN_MACH_ERROR: &'static str = "Unknown Mach error: 44e";

/// Where the function of a call may live.
#[derive(Debug, Clone, Copy, PartialEq, Eq, Structural)]
pub enum LibraryResolution {
    /// Any image loaded in the process; it is found by name at run time.
    Runtime,
    /// The main executable only; no lookup is made.
    MainImageOnly,
}

/// The process-wide flags that every spawn reads. Each is set at most once
/// during setup and never cleared.
#[derive(Debug, Clone, Copy, PartialEq, Eq, Structural)]
pub struct RuntimeFlags {
    pub initialized: bool,
    pub pass_args: bool,
    pub allow_unsafe_spawn: bool,
}

/// `after` is `before` with flags only raised, never lowered, except
/// argument passing, which the initializer sets to the configured value.
pub open spec fn flags_monotonic(before: RuntimeFlags, after: RuntimeFlags) -> bool {
    &&& before.initialized ==> after.initialized
    &&& before.allow_unsafe_spawn ==> after.allow_unsafe_spawn
}

impl RuntimeFlags {
    /// The flags of a process that has not been set up.
    pub fn new() -> (r: RuntimeFlags)
        ensures
            !r.initialized,
            !r.pass_args,
            !r.allow_unsafe_spawn,
    {
        RuntimeFlags { initialized: false, pass_args: false, allow_unsafe_spawn: false }
    }
}

/// Records that the initializer ran.
pub fn mark_initialized(flags: &mut RuntimeFlags)
    ensures
        *final(flags) == (RuntimeFlags { initialized: true, ..*old(flags) }),
        flags_monotonic(*old(flags), *final(flags)),
{
    flags.initialized = true;
}

/// Whether children get the parent's arguments.
pub fn should_pass_args(flags: &RuntimeFlags) -> (r: bool)
    ensures
        r == flags.pass_args,
{
    flags.pass_args
}

/// Records the caller's promise that no spawned function lives in a shared
/// library, which lets spawning go ahead without run-time resolution.
pub fn assert_spawn_is_safe(flags: &mut RuntimeFlags)
    ensures
        *final(flags) == (RuntimeFlags { allow_unsafe_spawn: true, ..*old(flags) }),
        flags_monotonic(*old(flags), *final(flags)),
{
    flags.allow_unsafe_spawn = true;
}

/// Why a spawn was refused before any child was launched.
#[derive(Debug, Clone, Copy, PartialEq, Eq, Structural)]
pub enum SpawnRefusal {
    /// The initializer has not run in this process.
    NotInitialized,
    /// Functions are not resolved at run time and the caller has not
    /// promised that none lives in a shared library.
    UnsafeSharedLibraries,
    /// The environment configured for the child already holds the variable
    /// that this library reserves for the rendezvous name.
    ReservedVariableSet,
}

/// The refusal that a spawn meets under these flags, if any.
pub open spec fn spawn_refusal(flags: RuntimeFlags, resolution: LibraryResolution) -> Option<
    SpawnRefusal,
> {
    if !flags.initialized {
        Some(SpawnRefusal::NotInitialized)
    } else if resolution == LibraryResolution::MainImageOnly && !flags.allow_unsafe_spawn {
        Some(SpawnRefusal::UnsafeSharedLibraries)
    } else {
        None
    }
}

/// Decides whether a spawn may go ahead.
pub fn assert_spawn_okay(flags: &RuntimeFlags, resolution: LibraryResolution) -> (r: Result<
    (),
    SpawnRefusal,
>)
    ensures
        r is Ok <==> spawn_refusal(*flags, resolution) is None,
        r matches Err(e) ==> spawn_refusal(*flags, resolution) == Some(e),
{
    if !flags.initialized {
        Err(SpawnRefusal::NotInitialized)
    } else if resolution == LibraryResolution::MainImageOnly && !flags.allow_unsafe_spawn {
        Err(SpawnRefusal::UnsafeSharedLibraries)
    } else {
        Ok(())
    }
}

/// With functions resolved from the main image only, a spawn is refused
/// until the caller has promised that no spawned function lives in a shared
/// library, and it is refused before anything is launched.
pub proof fn shared_library_safety(flags: RuntimeFlags)
    requires
        !flags.allow_unsafe_spawn,
    ensures
        spawn_refusal(flags, LibraryResolution::MainImageOnly) is Some,
{
}

/// True if a failure to reach the parent at bootstrap only means that the
/// parent went away, as the Mach platform reports it.
pub fn is_benign_bootstrap_error(err: &IoFailure) -> (r: bool)
    ensures
        r == (err.kind == IoFailureKind::Other && err.message@ == BENIGN_MACH_ERROR@),
{
    let expected = String::from_str(BENIGN_MACH_ERROR);
    err.kind == IoFailureKind::Other && err.message == expected
}

/// How a process is set up: a callback to run in each child, and the
/// handling of panics and arguments.
pub struct ProcConfig<C = fn()> {
    pub callback: Option<C>,
    pub panic_handling: bool,
    pub pass_args: bool,
    pub capture_backtraces: bool,
    pub resolve_backtraces: bool,
}

/// The backtrace mode that a configuration asks for.
pub open spec fn capture_mode(capture: bool, resolve: bool) -> BacktraceCapture {
    if !capture {
        BacktraceCapture::No
    } else if resolve {
        BacktraceCapture::Resolved
    } else {
        BacktraceCapture::Unresolved
    }
}

impl<C: FnOnce()> ProcConfig<C> {
    /// The default configuration: no callback, panics handled, arguments
    /// passed, backtraces captured and resolved.
    pub fn new() -> (r: Self)
        ensures
            r.callback is None,
            r.panic_handling,
            r.pass_args,
            r.capture_backtraces,
            r.resolve_backtraces,
    {
        ProcConfig {
            callback: None,
            panic_handling: true,
            pass_args: true,
            capture_backtraces: true,
            resolve_backtraces: true,
        }
    }

    /// Sets the callback that each child runs before its call.
    pub fn config_callback(&mut self, f: C) -> (r: &mut Self)
        ensures
            *r == (ProcConfig { callback: Some(f), ..*old(self) }),
            *final(self) == *final(r),
    {
        self.callback = Some(f);
        self
    }

    /// Turns argument passing on or off.
    pub fn pass_args(&mut self, enabled: bool) -> (r: &mut Self)
        ensures
            *r == (ProcConfig { pass_args: enabled, ..*old(self) }),
            *final(self) == *final(r),
    {
        self.pass_args = enabled;
        self
    }

    /// Turns the capture of panics on or off.
    pub fn panic_handling(&mut self, enabled: bool) -> (r: &mut Self)
        ensures
            *r == (ProcConfig { panic_handling: enabled, ..*old(self) }),
            *final(self) == *final(r),
    {
        self.panic_handling = enabled;
        self
    }

    /// Turns the capture of backtraces with panics on or off.
    pub fn capture_backtraces(&mut self, enabled: bool) -> (r: &mut Self)
        ensures
            *r == (ProcConfig { capture_backtraces: enabled, ..*old(self) }),
            *final(self) == *final(r),
    {
        self.capture_backtraces = enabled;
        self
    }

    /// Turns the resolution of captured backtraces on or off.
    pub fn resolve_backtraces(&mut self, enabled: bool) -> (r: &mut Self)
        ensures
            *r == (ProcConfig { resolve_backtraces: enabled, ..*old(self) }),
            *final(self) == *final(r),
    {
        self.resolve_backtraces = enabled;
        self
    }

    /// The backtrace mode of this configuration.
    pub fn backtrace_capture(&self) -> (r: BacktraceCapture)
        ensures
            r == capture_mode(self.capture_backtraces, self.resolve_backtraces),
    {
        if !self.capture_backtraces {
            BacktraceCapture::No
        } else if self.resolve_backtraces {
            BacktraceCapture::Resolved
        } else {
            BacktraceCapture::Unresolved
        }
    }

    /// The mode of the panic hook that a child installs: none where panic
    /// handling is off, else the configured backtrace mode.
    pub fn panic_hook_mode(&self) -> (r: Option<BacktraceCapture>)
        ensures
            r == if self.panic_handling {
                Some(capture_mode(self.capture_backtraces, self.resolve_backtraces))
            } else {
                None
            },
    {
        if self.panic_handling {
            Some(self.backtrace_capture())
        } else {
            None
        }
    }

    /// Records this configuration in the process-wide flags, as the
    /// initializer does first.
    pub fn apply(&self, flags: &mut RuntimeFlags)
        ensures
            *final(flags) == (RuntimeFlags {
                initialized: true,
                pass_args: self.pass_args,
                ..*old(flags)
            }),
            flags_monotonic(*old(flags), *final(flags)),
    {
        mark_initialized(flags);
        flags.pass_args = self.pass_args;
    }
}

} // verus!
