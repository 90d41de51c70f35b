use vstd::prelude::*;

use crate::error::{Location, PanicInfo};

verus! {

/// How much of a backtrace to capture when a panic is recorded.
#[derive(Debug, Clone, Copy, PartialEq, Eq, Structural)]
pub enum BacktraceCapture {
    /// No backtrace.
    No,
    /// A backtrace whose symbols are resolved when it is taken.
    Resolved,
    /// A backtrace of bare frames, cheaper to take.
    Unresolved,
}

/// The message recorded for a panic payload that holds no text.
pub const PLACEHOLDER_MESSAGE: &'static str = "Box<Any>";

/// The message of a panic: the payload's text where it has one, else a
/// fixed placeholder.
pub open spec fn payload_message(payload: Option<Seq<char>>) -> Seq<char> {
    match payload {
        Some(text) => text,
        None => PLACEHOLDER_MESSAGE@,
    }
}

/// Relies on backtrace::Backtrace::new, which walks the current stack and
/// resolves its symbols.
#[verifier::external_body]
fn resolved_backtrace() -> (r: backtrace::Backtrace) {
    backtrace::Backtrace::new()
}

/// Relies on backtrace::Backtrace::new_unresolved, which walks the current
/// stack without resolving symbols.
#[verifier::external_body]
fn unresolved_backtrace() -> (r: backtrace::Backtrace) {
    backtrace::Backtrace::new_unresolved()
}

/// Takes a backtrace of the calling thread in the given mode, or none.
pub fn capture_backtrace(mode: BacktraceCapture) -> (r: Option<backtrace::Backtrace>)
    ensures
        r is Some <==> mode != BacktraceCapture::No,
{
    match mode {
        BacktraceCapture::No => None,
        BacktraceCapture::Resolved => Some(resolved_backtrace()),
        BacktraceCapture::Unresolved => Some(unresolved_backtrace()),
    }
}

/// The record of a panic with no location and no backtrace, built from the
/// text of its payload where the payload has one.
pub fn serialize_panic(payload: Option<&str>) -> (r: PanicInfo)
    ensures
        r.msg@ == payload_message(
            match payload {
                Some(s) => Some(s@),
                None => None,
            },
        ),
        r.location is None,
        r.backtrace is None,
{
    match payload {
        Some(text) => PanicInfo::new(text),
        None => PanicInfo::new(PLACEHOLDER_MESSAGE),
    }
}

/// The record that the panic hook keeps for a panic: the payload's message,
/// the location that the runtime gave, and a backtrace if the mode asks for
/// one.
pub fn panic_record(
    payload: Option<&str>,
    location: Option<Location>,
    capture: BacktraceCapture,
) -> (r: PanicInfo)
    ensures
        r.msg@ == payload_message(
            match payload {
                Some(s) => Some(s@),
                None => None,
            },
        ),
        r.location == location,
        r.backtrace is Some <==> capture != BacktraceCapture::No,
{
    let mut panic = serialize_panic(payload);
    panic.backtrace = capture_backtrace(capture);
    panic.location = location;
    panic
}

/// A panic keeps its text across the boundary: the record carries the
/// payload's own text whenever the payload has one, and the placeholder only
/// when it has none.
pub proof fn panic_fidelity(text: Seq<char>)
    ensures
        payload_message(Some(text)) == text,
        payload_message(None) == PLACEHOLDER_MESSAGE@,
{
}

/// The per-thread place where the panic hook leaves its record for the
/// code that catches the unwind.
#[derive(Debug)]
pub struct PanicSlot {
    pub stashed: Option<PanicInfo>,
}

impl PanicSlot {
    /// An empty slot.
    pub fn new() -> (r: PanicSlot)
        ensures
            r.stashed is None,
    {
        PanicSlot { stashed: None }
    }

    /// Leaves the record of a panic in the slot, in place of any earlier one.
    pub fn stash(&mut self, record: PanicInfo)
        ensures
            final(self).stashed == Some(record),
    {
        self.stashed = Some(record);
    }
}

/// Empties the slot, before a call whose panic is to be caught.
pub fn reset_panic_info(slot: &mut PanicSlot)
    ensures
        final(slot).stashed is None,
{
    slot.stashed = None;
}

/// The record of a caught panic: the one that the hook left, or, where the
/// hook did not run, one built from the payload alone. The slot is empty
/// afterwards.
pub fn take_panic(slot: &mut PanicSlot, payload: Option<&str>) -> (r: PanicInfo)
    ensures
        final(slot).stashed is None,
        match old(slot).stashed {
            Some(p) => r == p,
            None => r.msg@ == payload_message(
                match payload {
                    Some(s) => Some(s@),
                    None => None,
                },
            ) && r.location is None && r.backtrace is None,
        },
{
    match slot.stashed.take() {
        Some(p) => p,
        None => serialize_panic(payload),
    }
}

} // verus!
