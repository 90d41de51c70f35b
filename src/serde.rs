use vstd::prelude::*;

verus! {

/// Whether values are being encoded or decoded to cross a process boundary.
/// Types may encode themselves more cheaply then, knowing that the other
/// side decodes in the same mode.
#[derive(Debug, Clone, Copy, PartialEq, Eq, Structural)]
pub struct IpcMode {
    pub active: bool,
}

impl IpcMode {
    /// The mode outside any transfer.
    pub fn new() -> (r: IpcMode)
        ensures
            !r.active,
    {
        IpcMode { active: false }
    }
}

/// Runs `f` in IPC mode, and puts the mode back as it was afterwards.
pub fn with_ipc_mode<R, F: FnOnce(&IpcMode) -> R>(mode: &mut IpcMode, f: F) -> (r: R)
    requires
        f.requires((&IpcMode { active: true },)),
    ensures
        *final(mode) == *old(mode),
        f.ensures((&IpcMode { active: true },), r),
{
    let previous = mode.active;
    mode.active = true;
    let r = f(&*mode);
    mode.active = previous;
    r
}

/// True while values are encoded or decoded for a transfer.
pub fn in_ipc_mode(mode: &IpcMode) -> (r: bool)
    ensures
        r == mode.active,
{
    mode.active
}

/// Runs `f` in IPC mode, as `with_ipc_mode` does.
pub fn mark_procspawn_serde<R, F: FnOnce(&IpcMode) -> R>(mode: &mut IpcMode, f: F) -> (r: R)
    requires
        f.requires((&IpcMode { active: true },)),
    ensures
        *final(mode) == *old(mode),
        f.ensures((&IpcMode { active: true },), r),
{
    with_ipc_mode(mode, f)
}

/// True while values are encoded or decoded for a transfer, as
/// `in_ipc_mode` says.
pub fn serde_in_ipc_mode(mode: &IpcMode) -> (r: bool)
    ensures
        r == mode.active,
{
    in_ipc_mode(mode)
}

#[verifier::external_type_specification]
#[verifier::external_body]
pub struct ExIpcSharedMemory(ipc_channel::ipc::IpcSharedMemory);

/// The bytes that a region of shared memory holds.
pub uninterp spec fn shared_bytes(m: ipc_channel::ipc::IpcSharedMemory) -> Seq<u8>;

/// Relies on ipc_channel's IpcSharedMemory::from_bytes, which maps a new
/// region and copies the bytes into it.
#[verifier::external_body]
fn shared_from_bytes(bytes: &[u8]) -> (r: ipc_channel::ipc::IpcSharedMemory)
    ensures
        shared_bytes(r) == bytes@,
{
    ipc_channel::ipc::IpcSharedMemory::from_bytes(bytes)
}

/// Relies on ipc_channel's Deref of IpcSharedMemory to the bytes of the
/// region.
#[verifier::external_body]
fn shared_as_bytes(m: &ipc_channel::ipc::IpcSharedMemory) -> (r: &[u8])
    ensures
        r@ == shared_bytes(*m),
{
    m
}

/// A read-only byte buffer in shared memory, which crosses to another
/// process as a handle rather than as its bytes.
#[derive(Debug)]
pub struct Shmem {
    pub shmem: ipc_channel::ipc::IpcSharedMemory,
}

impl Shmem {
    /// The bytes of the buffer.
    pub open spec fn view(&self) -> Seq<u8> {
        shared_bytes(self.shmem)
    }

    /// A buffer that holds a copy of `bytes`.
    pub fn from_bytes(bytes: &[u8]) -> (r: Shmem)
        ensures
            r.view() == bytes@,
    {
        Shmem { shmem: shared_from_bytes(bytes) }
    }

    /// The bytes of the buffer.
    pub fn as_bytes(&self) -> (r: &[u8])
        ensures
            r@ == self.view(),
    {
        shared_as_bytes(&self.shmem)
    }
}

} // verus!
