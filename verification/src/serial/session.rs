//! A session on a port: its configuration, and the drains that outlive a dropped request.

use vstd::prelude::*;
use vstd::string::*;

use crate::error;
use crate::error::{ErrorCategory, HalError, HalErrorView, HalResult, IoErrorKind};
use crate::serial::fault;
use crate::serial::fault::{internal, invalid_argument, map_io_error, session_closed, timeout};
use crate::text::same_text;

verus! {

/// The number of data bits.
#[derive(Clone, Copy, Debug, PartialEq, Eq, Structural)]
pub enum DataBits {
    Five,
    Six,
    Seven,
    Eight,
}

/// The parity.
#[derive(Clone, Copy, Debug, PartialEq, Eq, Structural)]
pub enum Parity {
    Absent,
    Odd,
    Even,
}

/// The number of stop bits.
#[derive(Clone, Copy, Debug, PartialEq, Eq, Structural)]
pub enum StopBits {
    One,
    Two,
}

/// The flow control.
#[derive(Clone, Copy, Debug, PartialEq, Eq, Structural)]
pub enum FlowControl {
    Absent,
    Software,
    Hardware,
}

/// How a port is opened; the timeout is in nanoseconds.
#[derive(Clone, Copy, Debug, PartialEq, Eq, Structural)]
pub struct SerialConfig {
    pub baud_rate: u32,
    pub data_bits: DataBits,
    pub parity: Parity,
    pub stop_bits: StopBits,
    pub flow_control: FlowControl,
    pub read_timeout: u64,
}

/// Why a port cannot be opened with a configuration.
pub open spec fn config_refusal(config: SerialConfig) -> Option<Seq<char>> {
    if config.baud_rate == 0 {
        Some("baud_rate must be greater than zero"@)
    } else if config.read_timeout == 0 {
        Some("read_timeout must be greater than zero"@)
    } else {
        None
    }
}

/// Checks that a port can be opened with a configuration.
pub fn validate_config(config: &SerialConfig) -> (result: HalResult<()>)
    ensures
        match result {
            Ok(()) => config_refusal(*config) is None,
            Err(error) => {
                &&& config_refusal(*config) is Some
                &&& error@ == fault::invalid_error("serial.open"@, config_refusal(*config)->0)
            },
        },
{
    if config.baud_rate == 0 {
        return Err(invalid_argument("serial.open", "baud_rate must be greater than zero"));
    }
    if config.read_timeout == 0 {
        return Err(invalid_argument("serial.open", "read_timeout must be greater than zero"));
    }
    Ok(())
}

/// The state of a session. While a drain runs, its worker holds the port.
#[derive(Clone, Copy, Debug)]
pub enum SessionState {
    /// The session holds the port.
    Ready,
    /// A drain for the operation holds the port and will give it back.
    Draining(&'static str),
    /// A drain for the operation holds the port and will close it.
    Closing(&'static str),
    /// The port is gone.
    Closed,
}

/// How a drain ended.
pub enum DrainEnd {
    /// The worker gave the port back with the result of the drain.
    Finished(HalResult<()>),
    /// The worker failed and lost the port.
    Failed(HalError),
    /// The worker did not finish, for the given reason.
    Lost(String),
}

/// The state after a drain has ended.
pub open spec fn state_after(state: SessionState, end: DrainEnd) -> SessionState {
    match state {
        SessionState::Ready => SessionState::Ready,
        SessionState::Closed => SessionState::Closed,
        SessionState::Draining(_) => if end is Finished {
            SessionState::Ready
        } else {
            SessionState::Closed
        },
        SessionState::Closing(_) => SessionState::Closed,
    }
}

/// The operation that a drain is for.
pub open spec fn drain_operation(state: SessionState) -> Seq<char> {
    match state {
        SessionState::Draining(operation) => operation@,
        SessionState::Closing(operation) => operation@,
        _ => "serial.drain"@,
    }
}

/// What a drain that has ended gives: the result of the drain, or why there is none.
pub open spec fn drained(state: SessionState, end: DrainEnd) -> Result<
    Result<(), HalErrorView>,
    HalErrorView,
> {
    match state {
        SessionState::Ready => Ok(Ok(())),
        SessionState::Closed => Err(
            fault::closed_error("serial.drain"@, "serial session is already closed"@),
        ),
        _ => match end {
            DrainEnd::Finished(result) => Ok(error::outcome(result)),
            DrainEnd::Failed(error) => Err(error@),
            DrainEnd::Lost(reason) => Err(
                fault::internal_error(
                    drain_operation(state),
                    "serial drain blocking worker failed: "@ + reason@,
                ),
            ),
        },
    }
}

/// An error that says that the port is no longer there.
pub open spec fn is_disconnect(error: HalErrorView) -> bool {
    error.name == "runtime.transport.disconnected"@
}

/// Whether a session can be used at once.
#[derive(Clone, Copy, Debug, PartialEq, Eq, Structural)]
pub enum Readiness {
    /// The session holds the port.
    Ready,
    /// A drain has to end first.
    AwaitDrain,
}

/// What a session that is being closed does next.
#[derive(Clone, Copy, Debug, PartialEq, Eq, Structural)]
pub enum CloseStep {
    /// Hand the port to a worker that drains and closes it.
    StartDrain,
    /// Wait until a drain ends.
    AwaitDrain,
    /// The session is closed.
    Done,
}

/// How a read ended.
pub enum ReadEnd {
    /// Nothing came in time; the text shows how long that was.
    TimedOut { shown_timeout: String },
    /// The read failed.
    Failed { kind: IoErrorKind, kind_name: String, reason: String },
    /// The first `count` bytes of the buffer were read.
    Read { buffer: Vec<u8>, count: usize },
}

/// The error of a port at its end.
pub open spec fn end_of_stream_error() -> HalErrorView {
    HalErrorView::new(
        "runtime.transport.disconnected"@,
        ErrorCategory::Unavailable,
        "serial.read"@,
        true,
        "serial port returned end of stream"@,
    )
}

/// A session on a port.
pub struct NativeSerialSession {
    config: SerialConfig,
    state: SessionState,
}

impl NativeSerialSession {
    /// The state of the session.
    pub closed spec fn state(self) -> SessionState {
        self.state
    }

    /// How the port was opened.
    pub closed spec fn config(self) -> SerialConfig {
        self.config
    }

    /// A session on a port that was opened.
    pub fn open(config: SerialConfig) -> (result: HalResult<NativeSerialSession>)
        ensures
            match result {
                Ok(session) => {
                    &&& config_refusal(config) is None
                    &&& session.config() == config
                    &&& session.state() == SessionState::Ready
                },
                Err(error) => {
                    &&& config_refusal(config) is Some
                    &&& error@ == fault::invalid_error("serial.open"@, config_refusal(config)->0)
                },
            },
    {
        validate_config(&config)?;
        Ok(NativeSerialSession { config, state: SessionState::Ready })
    }

    /// How long a read waits, in nanoseconds.
    pub fn read_timeout(&self) -> (timeout: u64)
        ensures
            timeout == self.config().read_timeout,
    {
        self.config.read_timeout
    }

    /// Whether the session can be used at once.
    pub fn readiness(&self, operation: &'static str) -> (result: HalResult<Readiness>)
        ensures
            match self.state() {
                SessionState::Ready => result == HalResult::<Readiness>::Ok(Readiness::Ready),
                SessionState::Closed => result is Err && result->Err_0@ == fault::closed_error(
                    operation@,
                    "serial session is already closed"@,
                ),
                _ => result == HalResult::<Readiness>::Ok(Readiness::AwaitDrain),
            },
    {
        match self.state {
            SessionState::Ready => Ok(Readiness::Ready),
            SessionState::Closed => Err(
                session_closed(operation, "serial session is already closed"),
            ),
            SessionState::Draining(_) => Ok(Readiness::AwaitDrain),
            SessionState::Closing(_) => Ok(Readiness::AwaitDrain),
        }
    }

    /// Takes the end of a drain.
    pub fn finish_tracked_drain(&mut self, end: DrainEnd) -> (result: HalResult<HalResult<()>>)
        ensures
            final(self).config() == old(self).config(),
            final(self).state() == state_after(old(self).state(), end),
            match drained(old(self).state(), end) {
                Ok(inner) => result is Ok && error::outcome(result->Ok_0) == inner,
                Err(error) => result is Err && result->Err_0@ == error,
            },
    {
        let (was_closing, operation) = match self.state {
            SessionState::Ready => {
                return Ok(Ok(()));
            },
            SessionState::Closed => {
                return Err(session_closed("serial.drain", "serial session is already closed"));
            },
            SessionState::Draining(operation) => (false, operation),
            SessionState::Closing(operation) => (true, operation),
        };
        match end {
            DrainEnd::Finished(result) => {
                self.state =
                if was_closing {
                    SessionState::Closed
                } else {
                    SessionState::Ready
                };
                Ok(result)
            },
            DrainEnd::Failed(error) => {
                self.state = SessionState::Closed;
                Err(error)
            },
            DrainEnd::Lost(reason) => {
                self.state = SessionState::Closed;
                let mut message = "serial drain blocking worker failed: ".to_owned();
                message.append(reason.as_str());
                Err(internal(operation, message))
            },
        }
    }

    /// Takes the end of the drain that an operation has waited for. After a plain drain the session
    /// can be used, unless the drain failed. After a closing drain it cannot.
    pub fn ensure_ready(&mut self, operation: &'static str, end: DrainEnd) -> (result: HalResult<()>)
        requires
            old(self).state() is Draining || old(self).state() is Closing,
        ensures
            final(self).config() == old(self).config(),
            final(self).state() == state_after(old(self).state(), end),
            error::outcome(result) == match drained(old(self).state(), end) {
                Err(error) => Err(error),
                Ok(inner) => if old(self).state() is Draining {
                    inner
                } else if inner is Err && !is_disconnect(inner->Err_0) {
                    inner
                } else {
                    Err(fault::closed_error(operation@, "serial session is closing"@))
                },
            },
            result is Ok ==> final(self).state() == SessionState::Ready,
    {
        let was_closing = matches!(self.state, SessionState::Closing(_));
        match self.finish_tracked_drain(end) {
            Err(error) => Err(error),
            Ok(result) => {
                if !was_closing {
                    return result;
                }
                if let Err(error) = result {
                    if !same_text(error.name(), "runtime.transport.disconnected") {
                        return Err(error);
                    }
                }
                Err(session_closed(operation, "serial session is closing"))
            },
        }
    }

    fn start(&mut self, operation: &'static str, closing: bool) -> (result: HalResult<()>)
        ensures
            final(self).config() == old(self).config(),
            match result {
                Ok(()) => {
                    &&& old(self).state() == SessionState::Ready
                    &&& final(self).state() == if closing {
                        SessionState::Closing(operation)
                    } else {
                        SessionState::Draining(operation)
                    }
                },
                Err(error) => {
                    &&& old(self).state() != SessionState::Ready
                    &&& final(self).state() == old(self).state()
                    &&& error@ == fault::closed_error(operation@, "serial session is not ready"@)
                },
            },
    {
        if !matches!(self.state, SessionState::Ready) {
            return Err(session_closed(operation, "serial session is not ready"));
        }
        self.state =
        if closing {
            SessionState::Closing(operation)
        } else {
            SessionState::Draining(operation)
        };
        Ok(())
    }

    /// Hands the port to a worker that drains it.
    pub fn begin_tracked_drain(&mut self, operation: &'static str) -> (result: HalResult<()>)
        ensures
            final(self).config() == old(self).config(),
            match result {
                Ok(()) => {
                    &&& old(self).state() == SessionState::Ready
                    &&& final(self).state() == SessionState::Draining(operation)
                },
                Err(error) => {
                    &&& old(self).state() != SessionState::Ready
                    &&& final(self).state() == old(self).state()
                    &&& error@ == fault::closed_error(operation@, "serial session is not ready"@)
                },
            },
    {
        self.start(operation, false)
    }

    /// What a session that is being closed does next; a session that holds the port hands it to a
    /// worker.
    pub fn close_step(&mut self) -> (step: CloseStep)
        ensures
            final(self).config() == old(self).config(),
            match old(self).state() {
                SessionState::Ready => {
                    &&& step == CloseStep::StartDrain
                    &&& final(self).state() is Closing
                    &&& drain_operation(final(self).state()) == "serial.close"@
                },
                SessionState::Closed => {
                    &&& step == CloseStep::Done
                    &&& final(self).state() == SessionState::Closed
                },
                _ => {
                    &&& step == CloseStep::AwaitDrain
                    &&& final(self).state() == old(self).state()
                },
            },
    {
        match self.state {
            SessionState::Ready => {
                self.state = SessionState::Closing("serial.close");
                CloseStep::StartDrain
            },
            SessionState::Draining(_) => CloseStep::AwaitDrain,
            SessionState::Closing(_) => CloseStep::AwaitDrain,
            SessionState::Closed => CloseStep::Done,
        }
    }

    /// Takes the end of a drain that a close has waited for. That the port is no longer there is no
    /// failure of a close.
    pub fn close_after_drain(&mut self, end: DrainEnd) -> (result: HalResult<()>)
        requires
            old(self).state() is Draining || old(self).state() is Closing,
        ensures
            final(self).config() == old(self).config(),
            final(self).state() == state_after(old(self).state(), end),
            error::outcome(result) == match drained(old(self).state(), end) {
                Err(error) => Err(error),
                Ok(inner) => if inner is Err && !is_disconnect(inner->Err_0) {
                    inner
                } else {
                    Ok(())
                },
            },
    {
        match self.finish_tracked_drain(end)? {
            Ok(()) => Ok(()),
            Err(error) => {
                if same_text(error.name(), "runtime.transport.disconnected") {
                    Ok(())
                } else {
                    Err(error)
                }
            },
        }
    }

    /// Checks a read: the session has to be usable, and then something has to be asked for.
    pub fn check_read(&self, max_bytes: usize) -> (result: HalResult<()>)
        ensures
            match self.state() {
                SessionState::Ready => match result {
                    Ok(()) => max_bytes > 0,
                    Err(error) => {
                        &&& max_bytes == 0
                        &&& error@ == fault::invalid_error(
                            "serial.read"@,
                            "max_bytes must be greater than zero"@,
                        )
                    },
                },
                SessionState::Closed => result is Err && result->Err_0@ == fault::closed_error(
                    "serial.read"@,
                    "serial session is already closed"@,
                ),
                SessionState::Draining(_) => result is Err && result->Err_0@
                    == fault::closed_error(
                    "serial.read"@,
                    "serial session drain is still in progress"@,
                ),
                SessionState::Closing(_) => result is Err && result->Err_0@ == fault::closed_error(
                    "serial.read"@,
                    "serial session is closing"@,
                ),
            },
    {
        self.ready_port("serial.read")?;
        if max_bytes == 0 {
            return Err(invalid_argument("serial.read", "max_bytes must be greater than zero"));
        }
        Ok(())
    }

    /// Refuses an operation that needs the port where the session does not hold it.
    pub fn ready_port(&self, operation: &'static str) -> (result: HalResult<()>)
        ensures
            match self.state() {
                SessionState::Ready => result is Ok,
                SessionState::Closed => result is Err && result->Err_0@ == fault::closed_error(
                    operation@,
                    "serial session is already closed"@,
                ),
                SessionState::Draining(_) => result is Err && result->Err_0@
                    == fault::closed_error(
                    operation@,
                    "serial session drain is still in progress"@,
                ),
                SessionState::Closing(_) => result is Err && result->Err_0@ == fault::closed_error(
                    operation@,
                    "serial session is closing"@,
                ),
            },
    {
        match self.state {
            SessionState::Ready => Ok(()),
            SessionState::Closed => Err(
                session_closed(operation, "serial session is already closed"),
            ),
            SessionState::Draining(_) => Err(
                session_closed(operation, "serial session drain is still in progress"),
            ),
            SessionState::Closing(_) => Err(session_closed(operation, "serial session is closing")),
        }
    }

    /// What a read gives: the bytes that came, which are at least one.
    pub fn read(&self, end: ReadEnd) -> (result: HalResult<Vec<u8>>)
        requires
            end matches ReadEnd::Read { buffer, count } ==> count <= buffer@.len(),
        ensures
            match end {
                ReadEnd::TimedOut { shown_timeout } => result is Err && result->Err_0@
                    == fault::timeout_error(
                    "serial.read"@,
                    "read timed out after "@ + shown_timeout@,
                ),
                ReadEnd::Failed { kind, kind_name, reason } => result is Err && result->Err_0@
                    == fault::described(
                    fault::kind_meaning(kind),
                    "serial.read"@,
                    "io error "@,
                    kind_name@,
                    reason@,
                ),
                ReadEnd::Read { buffer, count } => if count == 0 {
                    result is Err && result->Err_0@ == end_of_stream_error()
                } else {
                    result is Ok && result->Ok_0@ == buffer@.take(count as int)
                },
            },
    {
        match end {
            ReadEnd::TimedOut { shown_timeout } => {
                let mut message = "read timed out after ".to_owned();
                message.append(shown_timeout.as_str());
                Err(timeout("serial.read", message))
            },
            ReadEnd::Failed { kind, kind_name, reason } => Err(
                map_io_error("serial.read", kind, kind_name.as_str(), reason.as_str()),
            ),
            ReadEnd::Read { buffer, count } => {
                if count == 0 {
                    return Err(
                        HalError::fixed(
                            "runtime.transport.disconnected",
                            ErrorCategory::Unavailable,
                            "serial.read",
                            true,
                            "serial port returned end of stream",
                        ),
                    );
                }
                let mut buffer = buffer;
                buffer.truncate(count);
                Ok(buffer)
            },
        }
    }

    /// Whether a write has to go to the port: an empty one does not.
    pub fn write_needed(&self, bytes: &[u8]) -> (result: HalResult<bool>)
        ensures
            match self.state() {
                SessionState::Ready => result == HalResult::<bool>::Ok(bytes@.len() > 0),
                SessionState::Closed => result is Err && result->Err_0@ == fault::closed_error(
                    "serial.write"@,
                    "serial session is already closed"@,
                ),
                SessionState::Draining(_) => result is Err && result->Err_0@
                    == fault::closed_error(
                    "serial.write"@,
                    "serial session drain is still in progress"@,
                ),
                SessionState::Closing(_) => result is Err && result->Err_0@ == fault::closed_error(
                    "serial.write"@,
                    "serial session is closing"@,
                ),
            },
    {
        self.ready_port("serial.write")?;
        Ok(bytes.len() > 0)
    }
}

/// A drain that ends well gives a session that was only draining back, and leaves one that was
/// closing closed; a worker that is lost leaves any session closed.
pub proof fn law_drains_end_deterministically(state: SessionState, end: DrainEnd)
    requires
        state is Draining || state is Closing,
    ensures
        state_after(state, end) == SessionState::Ready || state_after(state, end)
            == SessionState::Closed,
        state_after(state, end) == SessionState::Ready <==> state is Draining && end is Finished,
        !(end is Finished) ==> state_after(state, end) == SessionState::Closed && drained(
            state,
            end,
        ) is Err,
{
}

/// A session that is closed stays closed, whatever ends.
pub proof fn law_closed_is_final(end: DrainEnd)
    ensures
        state_after(SessionState::Closed, end) == SessionState::Closed,
        drained(SessionState::Closed, end) is Err,
{
}

/// A port is opened exactly with a rate and a time to wait for.
pub proof fn law_configurations_have_rates_and_timeouts(config: SerialConfig)
    ensures
        config_refusal(config) is None <==> config.baud_rate > 0 && config.read_timeout > 0,
{
}

/// What a drain gives is what its worker handed back; a failure of the worker is handed on as it is,
/// and a lost worker is told under the operation that the drain was for.
pub proof fn law_drains_give_what_their_workers_gave(state: SessionState, end: DrainEnd)
    requires
        state is Draining || state is Closing,
    ensures
        end matches DrainEnd::Finished(result) ==> drained(state, end) is Ok && (drained(
            state,
            end,
        )->Ok_0 is Ok <==> result is Ok) && (result is Err ==> drained(state, end)->Ok_0->Err_0
            == result->Err_0@),
        end matches DrainEnd::Failed(error) ==> drained(state, end) is Err && drained(
            state,
            end,
        )->Err_0 == error@,
        end is Lost ==> drained(state, end)->Err_0.operation == (match state {
            SessionState::Draining(operation) => operation@,
            SessionState::Closing(operation) => operation@,
            _ => Seq::empty(),
        }) && drained(state, end)->Err_0.category == ErrorCategory::Internal,
{
}

/// A port is gone exactly where an error has the name of a lost connection.
pub proof fn law_lost_connections_are_told(error: HalErrorView)
    ensures
        is_disconnect(error) <==> error.name == "runtime.transport.disconnected"@,
{
}

} // verus!
