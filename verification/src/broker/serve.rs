//! Whom a broker serves, and what it says of connections that end.

use vstd::prelude::*;

use crate::error::{ErrorCategory, HalError, HalErrorView, IoError, IoErrorKind};

verus! {

/// How many connections a broker serves at a time.
pub const MAX_CONNECTIONS: usize = 64;

/// The mode of a broker's socket: its owner may use it.
pub const SOCKET_MODE: u32 = 0x180;

/// Checks the directory of a broker's socket: there is one, and only its owner may use it.
pub fn check_endpoint_parent(mode: Option<u32>) -> (result: Result<(), IoError>)
    ensures
        match result {
            Ok(()) => mode is Some && mode->0 & 0x3f == 0,
            Err(error) => match mode {
                None => error.is_found(
                    IoErrorKind::InvalidInput,
                    "endpoint must have a parent directory"@,
                ),
                Some(mode) => {
                    &&& mode & 0x3f != 0
                    &&& error.is_found(
                        IoErrorKind::PermissionDenied,
                        "endpoint parent directory must not be accessible by group or other users"@,
                    )
                },
            },
        },
{
    match mode {
        None => Err(
            IoError::new(IoErrorKind::InvalidInput, "endpoint must have a parent directory"),
        ),
        Some(mode) => {
            if mode & 0x3f != 0 {
                return Err(
                    IoError::new(
                        IoErrorKind::PermissionDenied,
                        "endpoint parent directory must not be accessible by group or other users",
                    ),
                );
            }
            Ok(())
        },
    }
}

/// The name of a pipe, where it is text.
pub fn pipe_name(endpoint: Option<&str>) -> (result: Result<&str, IoError>)
    ensures
        match result {
            Ok(name) => endpoint == Some(name),
            Err(error) => {
                &&& endpoint is None
                &&& error.is_found(
                    IoErrorKind::InvalidInput,
                    "named pipe endpoint is not valid UTF-8"@,
                )
            },
        },
{
    match endpoint {
        Some(name) => Ok(name),
        None => Err(
            IoError::new(IoErrorKind::InvalidInput, "named pipe endpoint is not valid UTF-8"),
        ),
    }
}

/// The connections that a broker serves.
pub struct ConnectionTable {
    active: usize,
    limit: usize,
    most: usize,
}

/// The mathematical content of a [`ConnectionTable`].
pub struct ConnectionCounts {
    pub active: int,
    pub limit: int,
    /// The most that were served at a time.
    pub most: int,
}

impl View for ConnectionTable {
    type V = ConnectionCounts;

    closed spec fn view(&self) -> ConnectionCounts {
        ConnectionCounts {
            active: self.active as int,
            limit: self.limit as int,
            most: self.most as int,
        }
    }
}

impl ConnectionCounts {
    /// No more connections are, or ever were, served than the limit.
    pub open spec fn wf(self) -> bool {
        0 <= self.active <= self.most <= self.limit
    }

    /// A connection is served.
    pub open spec fn admitted(self) -> ConnectionCounts {
        ConnectionCounts {
            active: self.active + 1,
            most: if self.active + 1 > self.most {
                self.active + 1
            } else {
                self.most
            },
            ..self
        }
    }
}

impl ConnectionTable {
    /// Whether no more connections are served than the limit.
    pub open spec fn wf(self) -> bool {
        self@.wf()
    }

    /// No connection is served.
    pub fn new(limit: usize) -> (table: ConnectionTable)
        ensures
            table.wf(),
            table@ == (ConnectionCounts { active: 0, limit: limit as int, most: 0 }),
    {
        ConnectionTable { active: 0, limit, most: 0 }
    }

    /// How many connections are served.
    pub fn active(&self) -> (active: usize)
        ensures
            active == self@.active,
    {
        self.active
    }

    /// The most connections that were served at a time.
    pub fn max_retained_tasks(&self) -> (most: usize)
        ensures
            most == self@.most,
    {
        self.most
    }

    /// Whether a connection that was accepted is served: one over the limit is not.
    pub fn accept(&mut self) -> (served: bool)
        requires
            old(self).wf(),
        ensures
            final(self).wf(),
            served == (old(self)@.active < old(self)@.limit),
            final(self)@ == if served {
                old(self)@.admitted()
            } else {
                old(self)@
            },
    {
        if self.active >= self.limit {
            return false;
        }
        self.active += 1;
        if self.active > self.most {
            self.most = self.active;
        }
        true
    }

    /// Takes that a connection has ended.
    pub fn finished(&mut self)
        requires
            old(self).wf(),
            old(self)@.active > 0,
        ensures
            final(self).wf(),
            final(self)@ == (ConnectionCounts { active: old(self)@.active - 1, ..old(self)@ }),
    {
        self.active -= 1;
    }
}

/// Something that happens to the connections of a broker.
pub enum ConnectionEvent {
    Accepted,
    Finished,
}

/// The connections after events, in order. An event that cannot happen changes nothing.
pub open spec fn after_events(counts: ConnectionCounts, events: Seq<ConnectionEvent>) -> ConnectionCounts
    decreases events.len(),
{
    if events.len() == 0 {
        counts
    } else {
        let before = after_events(counts, events.drop_last());
        match events.last() {
            ConnectionEvent::Accepted => if before.active < before.limit {
                before.admitted()
            } else {
                before
            },
            ConnectionEvent::Finished => if before.active > 0 {
                ConnectionCounts { active: before.active - 1, ..before }
            } else {
                before
            },
        }
    }
}

/// However connections come and go, no more than the limit are ever served at a time.
pub proof fn law_connections_stay_bounded(counts: ConnectionCounts, events: Seq<ConnectionEvent>)
    requires
        counts.wf(),
    ensures
        after_events(counts, events).wf(),
        after_events(counts, events).limit == counts.limit,
        after_events(counts, events).most <= counts.limit,
    decreases events.len(),
{
    if events.len() > 0 {
        law_connections_stay_bounded(counts, events.drop_last());
    }
}

/// What a signal that may stop a broker has given; `None` where it has not come.
pub type SignalState = Option<Result<(), IoError>>;

/// What two signals give: the one that has come, or the first where both have.
pub fn wait_for_either_shutdown_signal(first: SignalState, second: SignalState) -> (signal: SignalState)
    ensures
        signal == if first is Some {
            first
        } else {
            second
        },
{
    match first {
        Some(result) => Some(result),
        None => second,
    }
}

/// The error of a source of signals that has ended.
pub fn signal_stream_closed(control_break: bool) -> (error: IoError)
    ensures
        error.is_found(
            IoErrorKind::BrokenPipe,
            if control_break {
                "Ctrl-Break signal stream closed"@
            } else {
                "Ctrl-C signal stream closed"@
            },
        ),
{
    if control_break {
        IoError::new(IoErrorKind::BrokenPipe, "Ctrl-Break signal stream closed")
    } else {
        IoError::new(IoErrorKind::BrokenPipe, "Ctrl-C signal stream closed")
    }
}

/// What is logged of an error: its message, which may hold a secret, is not.
#[derive(Clone, Copy, Debug, PartialEq, Eq)]
pub struct StructuredErrorFields {
    pub kind: &'static str,
    pub name: &'static str,
    pub category: ErrorCategory,
    pub operation: &'static str,
    pub retryable: bool,
}

impl StructuredErrorFields {
    /// The fields tell what they may of an error.
    pub open spec fn tells(self, kind: Seq<char>, error: HalErrorView) -> bool {
        &&& self.kind@ == kind
        &&& self.name@ == error.name
        &&& self.category == error.category
        &&& self.operation@ == error.operation
        &&& self.retryable == error.retryable
    }
}

/// What is logged of an error.
pub fn structured_error_fields(kind: &'static str, error: &HalError) -> (fields: StructuredErrorFields)
    ensures
        fields.tells(kind@, error@),
{
    StructuredErrorFields {
        kind,
        name: error.name(),
        category: error.category(),
        operation: error.operation(),
        retryable: error.retryable(),
    }
}

/// What is logged of a connection that ended: the error of the connection, then that of its
/// cleanup.
pub fn connection_reports(
    connection_error: Option<&HalError>,
    cleanup_error: Option<&HalError>,
) -> (reports: Vec<StructuredErrorFields>)
    ensures
        reports@.len() == (if connection_error is Some {
            1int
        } else {
            0
        }) + (if cleanup_error is Some {
            1int
        } else {
            0
        }),
        connection_error is Some ==> reports@[0].tells("connection"@, connection_error->0@),
        cleanup_error is Some ==> reports@.last().tells("cleanup"@, cleanup_error->0@),
{
    let mut reports: Vec<StructuredErrorFields> = Vec::new();
    if let Some(error) = connection_error {
        reports.push(structured_error_fields("connection", error));
    }
    if let Some(error) = cleanup_error {
        reports.push(structured_error_fields("cleanup", error));
    }
    reports
}

/// Errors that differ only in what they say to a reader, or in the resource that they are about, are
/// logged alike.
pub proof fn law_messages_are_not_logged(
    fields: StructuredErrorFields,
    kind: Seq<char>,
    error: HalErrorView,
    message: Seq<char>,
    resource_id: Option<Seq<char>>,
)
    requires
        fields.tells(kind, error),
    ensures
        fields.tells(kind, HalErrorView { message, resource_id, ..error }),
{
}

/// Every connection below the limit is served and counted, one at the limit is not, and one that ends
/// makes room for another; the most that were served at a time is remembered.
pub proof fn law_served_connections_are_counted(
    counts: ConnectionCounts,
    events: Seq<ConnectionEvent>,
)
    requires
        counts.wf(),
    ensures
        ({
            let before = after_events(counts, events);
            let accepted = after_events(counts, events.push(ConnectionEvent::Accepted));
            let finished = after_events(counts, events.push(ConnectionEvent::Finished));
            &&& before.active < counts.limit ==> accepted.active == before.active + 1
            &&& before.active == counts.limit ==> accepted == before
            &&& accepted.most >= accepted.active
            &&& accepted.most >= before.most
            &&& accepted.most == before.most || accepted.most == accepted.active
            &&& before.active > 0 ==> finished.active == before.active - 1
            &&& finished.most == before.most
        }),
{
    law_connections_stay_bounded(counts, events);
    assert(events.push(ConnectionEvent::Accepted).drop_last() =~= events);
    assert(events.push(ConnectionEvent::Finished).drop_last() =~= events);
}

/// What is logged of an error is its name, category and operation and whether another try is worth it.
pub proof fn law_logged_fields_are_those_of_the_error(
    fields: StructuredErrorFields,
    kind: Seq<char>,
    error: HalErrorView,
)
    ensures
        fields.tells(kind, error) <==> fields.kind@ == kind && fields.name@ == error.name
            && fields.category == error.category && fields.operation@ == error.operation
            && fields.retryable == error.retryable,
{
}

} // verus!
