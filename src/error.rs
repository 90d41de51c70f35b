use vstd::prelude::*;

verus! {

/// Where a panic happened: the source file, line and column.
#[derive(Debug, Clone)]
pub struct Location {
    pub file: String,
    pub line: u32,
    pub column: u32,
}

impl Location {
    /// Builds a location from its three parts.
    pub fn new(file: String, line: u32, column: u32) -> (r: Location)
        ensures
            r.file@ == file@,
            r.line == line,
            r.column == column,
    {
        Location { file, line, column }
    }

    /// The name of the source file from which the panic originated.
    pub fn file(&self) -> (r: &str)
        ensures
            r@ == self.file@,
    {
        self.file.as_str()
    }

    /// The line number from which the panic originated.
    pub fn line(&self) -> (r: u32)
        ensures
            r == self.line,
    {
        self.line
    }

    /// The column from which the panic originated.
    pub fn column(&self) -> (r: u32)
        ensures
            r == self.column,
    {
        self.column
    }
}


#[verifier::external_type_specification]
#[verifier::external_body]
pub struct ExBacktrace(backtrace::Backtrace);

/// A panic captured in a child process, in a form that crosses the process
/// boundary: its message, where it happened, and optionally a backtrace.
#[derive(Debug)]
pub struct PanicInfo {
    pub msg: String,
    pub location: Option<Location>,
    pub backtrace: Option<backtrace::Backtrace>,
}

impl PanicInfo {
    /// A panic record that holds a message and nothing else.
    pub fn new(msg: &str) -> (r: PanicInfo)
        ensures
            r.msg@ == msg@,
            r.location is None,
            r.backtrace is None,
    {
        PanicInfo { msg: String::from_str(msg), location: None, backtrace: None }
    }

    /// The message of the panic.
    pub fn message(&self) -> (r: &str)
        ensures
            r@ == self.msg@,
    {
        self.msg.as_str()
    }

    /// Where the panic happened, if that was recorded.
    pub fn location(&self) -> (r: Option<&Location>)
        ensures
            match self.location {
                Some(l) => r == Some(&l),
                None => r is None,
            },
    {
        self.location.as_ref()
    }

    /// The backtrace captured with the panic, if one was.
    pub fn backtrace(&self) -> (r: Option<&backtrace::Backtrace>)
        ensures
            match self.backtrace {
                Some(b) => r == Some(&b),
                None => r is None,
            },
    {
        self.backtrace.as_ref()
    }
}

/// The kinds of operating-system failure that the error model tells apart.
#[derive(Debug, Clone, Copy, PartialEq, Eq, Structural)]
pub enum IoFailureKind {
    NotFound,
    PermissionDenied,
    ConnectionReset,
    BrokenPipe,
    Other,
}

/// An operating-system failure: its kind and its text.
#[derive(Debug, Clone)]
pub struct IoFailure {
    pub kind: IoFailureKind,
    pub message: String,
}

impl IoFailure {
    /// Builds a failure from its kind and text.
    pub fn new(kind: IoFailureKind, message: &str) -> (r: IoFailure)
        ensures
            r.kind == kind,
            r.message@ == message@,
    {
        IoFailure { kind, message: String::from_str(message) }
    }
}

/// True where a failure of this kind means that the peer went away.
pub open spec fn is_disconnect_kind(kind: IoFailureKind) -> bool {
    kind == IoFailureKind::ConnectionReset || kind == IoFailureKind::BrokenPipe
}

/// How a channel operation failed, as the transport reports it.
#[derive(Debug)]
pub enum TransportFailure {
    /// Every sender is gone and nothing is left to read.
    Disconnected,
    /// Nothing has arrived yet.
    Empty,
    /// The operating system refused the operation.
    Io(IoFailure),
    /// A frame could not be encoded or decoded.
    Codec(String),
}

/// What went wrong with a spawned call.
#[derive(Debug)]
pub enum SpawnErrorKind {
    /// A value could not be encoded or decoded.
    Serialization(String),
    /// The operating system failed during spawn or transport.
    Io(IoFailure),
    /// The function panicked in the child.
    Panic(PanicInfo),
    /// The channel closed before a result arrived.
    RemoteClosed(IoFailure),
    /// The call was cancelled before it ran.
    Cancelled,
    /// The deadline of a join passed.
    TimedOut,
    /// The result of the handle was taken already.
    Consumed,
}

/// The error of a spawned call.
#[derive(Debug)]
pub struct SpawnError {
    pub kind: SpawnErrorKind,
}

/// The text that a spawn error of this kind reads as.
pub open spec fn describe_kind(kind: SpawnErrorKind) -> Seq<char> {
    match kind {
        SpawnErrorKind::Serialization(_) => "process spawn error: bincode error"@,
        SpawnErrorKind::Io(_) => "process spawn error: i/o error"@,
        SpawnErrorKind::Panic(p) => "process spawn error: panic: "@ + p.msg@,
        SpawnErrorKind::RemoteClosed(_) =>
            "process spawn error: remote side closed (might have panicked on serialization)"@,
        SpawnErrorKind::Cancelled => "process spawn error: call cancelled"@,
        SpawnErrorKind::TimedOut => "process spawn error: timed out"@,
        SpawnErrorKind::Consumed => "process spawn error: result already consumed"@,
    }
}

/// True if `kind` is the error that the channel failure `failure` becomes.
pub open spec fn transport_error(failure: TransportFailure, kind: SpawnErrorKind) -> bool {
    match failure {
        TransportFailure::Disconnected | TransportFailure::Empty => kind matches
        SpawnErrorKind::RemoteClosed(f) && f.kind == IoFailureKind::ConnectionReset,
        TransportFailure::Io(f) => if is_disconnect_kind(f.kind) {
            kind == SpawnErrorKind::RemoteClosed(f)
        } else {
            kind == SpawnErrorKind::Io(f)
        },
        TransportFailure::Codec(m) => kind == SpawnErrorKind::Serialization(m),
    }
}

impl SpawnError {
    /// The captured panic, where the error comes from one.
    pub fn panic_info(&self) -> (r: Option<&PanicInfo>)
        ensures
            match self.kind {
                SpawnErrorKind::Panic(p) => r == Some(&p),
                _ => r is None,
            },
    {
        match &self.kind {
            SpawnErrorKind::Panic(info) => Some(info),
            _ => None,
        }
    }

    /// True if the error comes from a panic.
    pub fn is_panic(&self) -> (r: bool)
        ensures
            r == self.kind is Panic,
    {
        self.panic_info().is_some()
    }

    /// True if the error is a cancellation.
    pub fn is_cancellation(&self) -> (r: bool)
        ensures
            r == self.kind is Cancelled,
    {
        matches!(self.kind, SpawnErrorKind::Cancelled)
    }

    /// True if the error is a timeout.
    pub fn is_timeout(&self) -> (r: bool)
        ensures
            r == self.kind is TimedOut,
    {
        matches!(self.kind, SpawnErrorKind::TimedOut)
    }

    /// True if the remote side closed.
    pub fn is_remote_close(&self) -> (r: bool)
        ensures
            r == self.kind is RemoteClosed,
    {
        matches!(self.kind, SpawnErrorKind::RemoteClosed(..))
    }

    /// True if the result of the handle was taken already.
    pub fn is_consumed(&self) -> (r: bool)
        ensures
            r == self.kind is Consumed,
    {
        matches!(self.kind, SpawnErrorKind::Consumed)
    }

    /// The error of a channel that closed with no result on it.
    pub fn new_remote_close() -> (r: SpawnError)
        ensures
            r.kind matches SpawnErrorKind::RemoteClosed(f)
                && f.kind == IoFailureKind::ConnectionReset && f.message@ == "remote closed"@,
    {
        SpawnError {
            kind: SpawnErrorKind::RemoteClosed(
                IoFailure::new(IoFailureKind::ConnectionReset, "remote closed"),
            ),
        }
    }

    /// The error of a call cancelled before it ran.
    pub fn new_cancelled() -> (r: SpawnError)
        ensures
            r.kind is Cancelled,
    {
        SpawnError { kind: SpawnErrorKind::Cancelled }
    }

    /// The error of a join whose deadline passed.
    pub fn new_timeout() -> (r: SpawnError)
        ensures
            r.kind is TimedOut,
    {
        SpawnError { kind: SpawnErrorKind::TimedOut }
    }

    /// The error of a second join on one handle.
    pub fn new_consumed() -> (r: SpawnError)
        ensures
            r.kind is Consumed,
    {
        SpawnError { kind: SpawnErrorKind::Consumed }
    }

    /// The error that carries a captured panic.
    pub fn from_panic(panic: PanicInfo) -> (r: SpawnError)
        ensures
            r.kind == SpawnErrorKind::Panic(panic),
    {
        SpawnError { kind: SpawnErrorKind::Panic(panic) }
    }

    /// The error of an operating-system failure: a reset connection or a
    /// broken pipe means that the remote side closed.
    pub fn from_io(failure: IoFailure) -> (r: SpawnError)
        ensures
            is_disconnect_kind(failure.kind) ==> r.kind == SpawnErrorKind::RemoteClosed(failure),
            !is_disconnect_kind(failure.kind) ==> r.kind == SpawnErrorKind::Io(failure),
    {
        match failure.kind {
            IoFailureKind::ConnectionReset | IoFailureKind::BrokenPipe => {
                SpawnError { kind: SpawnErrorKind::RemoteClosed(failure) }
            },
            _ => SpawnError { kind: SpawnErrorKind::Io(failure) },
        }
    }

    /// The error of a failed channel operation. A closed channel, or one on
    /// which nothing arrived, reads as a remote close.
    pub fn from_transport(failure: TransportFailure) -> (r: SpawnError)
        ensures
            transport_error(failure, r.kind),
    {
        match failure {
            TransportFailure::Disconnected | TransportFailure::Empty => SpawnError::new_remote_close(),
            TransportFailure::Io(f) => SpawnError::from_io(f),
            TransportFailure::Codec(m) => SpawnError { kind: SpawnErrorKind::Serialization(m) },
        }
    }

    /// The text of the error.
    pub fn describe(&self) -> (r: String)
        ensures
            r@ == describe_kind(self.kind),
    {
        match &self.kind {
            SpawnErrorKind::Serialization(_) => String::from_str("process spawn error: bincode error"),
            SpawnErrorKind::Io(_) => String::from_str("process spawn error: i/o error"),
            SpawnErrorKind::Panic(p) => {
                let mut s = String::from_str("process spawn error: panic: ");
                s.append(p.msg.as_str());
                s
            },
            SpawnErrorKind::RemoteClosed(_) => String::from_str(
                "process spawn error: remote side closed (might have panicked on serialization)",
            ),
            SpawnErrorKind::Cancelled => String::from_str("process spawn error: call cancelled"),
            SpawnErrorKind::TimedOut => String::from_str("process spawn error: timed out"),
            SpawnErrorKind::Consumed => String::from_str(
                "process spawn error: result already consumed",
            ),
        }
    }
}

} // verus!
