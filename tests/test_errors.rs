use procspawn::{
    capture_backtrace, envelope_result, panic_record, reset_panic_info, resolve_join,
    serialize_panic, take_panic, BacktraceCapture, IoFailure, IoFailureKind, Location, PanicInfo,
    PanicSlot, SpawnError, SpawnErrorKind, TransportFailure,
};

#[test]
fn location_accessors() {
    let loc = Location::new("tests/test_basic.rs".to_string(), 12, 5);
    assert_eq!(loc.file(), "tests/test_basic.rs");
    assert_eq!(loc.line(), 12);
    assert_eq!(loc.column(), 5);
}

#[test]
fn panic_error_carries_message_and_location() {
    let loc = Location::new("src/worker.rs".to_string(), 7, 9);
    let record = panic_record(Some("boom"), Some(loc), BacktraceCapture::No);
    let err = SpawnError::from_panic(record);
    assert!(err.is_panic());
    let info = err.panic_info().unwrap();
    assert_eq!(info.message(), "boom");
    assert!(info.location().unwrap().file().ends_with("worker.rs"));
    assert_eq!(info.location().unwrap().line(), 7);
    assert!(info.backtrace().is_none());
}

#[test]
fn panic_record_with_backtrace() {
    let record = panic_record(Some("something went wrong"), None, BacktraceCapture::Resolved);
    assert_eq!(record.message(), "something went wrong");
    assert!(record.backtrace().is_some());
    let record = panic_record(None, None, BacktraceCapture::Unresolved);
    assert!(record.backtrace().is_some());
    assert!(capture_backtrace(BacktraceCapture::No).is_none());
}

#[test]
fn payload_without_text_gets_placeholder() {
    assert_eq!(serialize_panic(None).message(), "Box<Any>");
    assert_eq!(serialize_panic(Some("x")).message(), "x");
}

#[test]
fn panic_slot_prefers_hook_record() {
    let mut slot = PanicSlot::new();
    slot.stash(PanicInfo::new("from hook"));
    let taken = take_panic(&mut slot, Some("from payload"));
    assert_eq!(taken.message(), "from hook");
    assert!(slot.stashed.is_none());
    let taken = take_panic(&mut slot, Some("from payload"));
    assert_eq!(taken.message(), "from payload");
    slot.stash(PanicInfo::new("stale"));
    reset_panic_info(&mut slot);
    assert!(slot.stashed.is_none());
}

#[test]
fn error_kinds_are_told_apart() {
    assert!(SpawnError::new_cancelled().is_cancellation());
    assert!(SpawnError::new_timeout().is_timeout());
    assert!(SpawnError::new_remote_close().is_remote_close());
    assert!(SpawnError::new_consumed().is_consumed());
    assert!(!SpawnError::new_timeout().is_panic());
    assert!(SpawnError::new_timeout().panic_info().is_none());
}

#[test]
fn io_failures_normalise_disconnects() {
    let reset = SpawnError::from_io(IoFailure::new(IoFailureKind::ConnectionReset, "reset"));
    assert!(reset.is_remote_close());
    let pipe = SpawnError::from_io(IoFailure::new(IoFailureKind::BrokenPipe, "pipe"));
    assert!(pipe.is_remote_close());
    let other = SpawnError::from_io(IoFailure::new(IoFailureKind::NotFound, "gone"));
    assert!(matches!(other.kind, SpawnErrorKind::Io(_)));
}

#[test]
fn transport_failures_map_to_errors() {
    assert!(SpawnError::from_transport(TransportFailure::Disconnected).is_remote_close());
    assert!(SpawnError::from_transport(TransportFailure::Empty).is_remote_close());
    let codec = SpawnError::from_transport(TransportFailure::Codec("bad frame".to_string()));
    assert!(matches!(codec.kind, SpawnErrorKind::Serialization(ref m) if m == "bad frame"));
    let io = SpawnError::from_transport(TransportFailure::Io(IoFailure::new(
        IoFailureKind::PermissionDenied,
        "denied",
    )));
    assert!(matches!(io.kind, SpawnErrorKind::Io(_)));
}

#[test]
fn error_texts() {
    assert_eq!(SpawnError::new_timeout().describe(), "process spawn error: timed out");
    assert_eq!(SpawnError::new_cancelled().describe(), "process spawn error: call cancelled");
    assert_eq!(
        SpawnError::new_consumed().describe(),
        "process spawn error: result already consumed"
    );
    assert_eq!(
        SpawnError::from_panic(PanicInfo::new("boom")).describe(),
        "process spawn error: panic: boom"
    );
    assert_eq!(
        SpawnError::new_remote_close().describe(),
        "process spawn error: remote side closed (might have panicked on serialization)"
    );
}

#[test]
fn join_resolution() {
    let ok: Result<Result<i32, PanicInfo>, TransportFailure> = Ok(Ok(3));
    assert_eq!(resolve_join(ok).unwrap(), 3);
    let panicked: Result<Result<i32, PanicInfo>, TransportFailure> =
        Ok(Err(PanicInfo::new("boom")));
    let err = resolve_join(panicked).unwrap_err();
    assert_eq!(err.panic_info().unwrap().message(), "boom");
    let closed: Result<Result<i32, PanicInfo>, TransportFailure> =
        Err(TransportFailure::Disconnected);
    assert!(resolve_join(closed).unwrap_err().is_remote_close());
    assert_eq!(envelope_result::<bool>(Ok(false)).unwrap(), false);
}
