//! Run a function in a separate process of the same executable, in the
//! manner of `thread::spawn`.
//!
//! This crate holds the decisions of that machinery as verified code: the
//! error model and panic records, the run-time flags that gate spawning, the
//! relocation of function addresses across address-space randomisation, the
//! environment and command line handed to a child, the state shared by a
//! join handle, and the accounting and dispatch rules of a worker pool.
//! Launching processes and moving bytes over channels is left to the
//! program around it.

mod config;
mod env;
mod error;
mod json;
mod marshal;
mod panic;
mod pool;
mod proc;
mod serde;
mod testsupport;

pub use crate::config::{
    assert_spawn_is_safe, assert_spawn_okay, is_benign_bootstrap_error, mark_initialized,
    shared_library_safety, should_pass_args, LibraryResolution, ProcConfig, RuntimeFlags,
    SpawnRefusal, BENIGN_MACH_ERROR, ENV_NAME,
};
pub use crate::env::EnvVars;
pub use crate::error::{
    IoFailure, IoFailureKind, Location, PanicInfo, SpawnError, SpawnErrorKind, TransportFailure,
};
pub use crate::json::Json;
pub use crate::marshal::{
    find_library_name_and_offset, find_shared_library_offset_by_name, function_address,
    function_address_here, rebase, relative_offset, relocation_round_trip, ImageSegment,
    LoadedImage, MarshalError, MarshalledCall,
};
pub use crate::panic::{
    capture_backtrace, panic_fidelity, panic_record, reset_panic_info, serialize_panic,
    take_panic, BacktraceCapture, PanicSlot, PLACEHOLDER_MESSAGE,
};
pub use crate::pool::{
    cancellation_before_pickup, finish_call, pick_up, pool_restart_bound, pooled_result,
    resolve_pooled_join, restart_error, DispatchAction, PoolBuilder, PoolCounters,
    PooledHandleState, PooledReceive, WorkerTable,
};
pub use crate::proc::{
    at_most_once, envelope_result, environment_forwarding, nested_spawn_token, plan_child,
    resolve_join, take_bootstrap_token, Builder, ChildPlan, JoinState, PollBackoff, ProcCommon,
    ProcessHandleState, StdioMode,
};
pub use crate::serde::{
    in_ipc_mode, mark_procspawn_serde, serde_in_ipc_mode, with_ipc_mode, IpcMode, Shmem,
};
pub use crate::testsupport::{
    enable, should_silence_stdout, TestMode, TestSupport, TEST_HELPER_NAME,
};
