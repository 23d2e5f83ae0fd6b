//! A camera session: its worker, its claim and its end.

use vstd::prelude::*;
use vstd::string::*;

use crate::camera::backend;
use crate::camera::backend::{
    closed, conflict, control_unsupported, platform_error, timeout_error, unavailable,
    worker_failed, CameraBackend,
};
use crate::camera::claims::ClaimSet;
use crate::camera::frame;
use crate::camera::frame::{next_number, CameraFrame};
use crate::camera::frame_format;
use crate::camera::frame_format::{CameraFormat, CameraLimits};
use crate::camera::wait::WaitResult;
use crate::error::{ErrorCategory, HalError, HalErrorView, HalResult};
use crate::resource;
use crate::resource::{resolve_resource, Capability, ResourceDescriptor, ResourceId};

verus! {

/// How long a close waits for the worker, in nanoseconds.
pub const CLOSE_TIMEOUT_NANOSECONDS: u64 = 1_000_000_000;

/// The longest single wait of a worker in nanoseconds.
pub const WAIT_QUANTUM_NANOSECONDS: u64 = 20_000_000;

/// Who gives a session's claim back.
#[derive(Clone, Copy, Debug, PartialEq, Eq, Structural)]
pub enum ClaimState {
    /// The session does.
    Held,
    /// Whoever sees the worker exit does: the worker may still use the camera.
    Quarantined,
    /// It was given back.
    Released,
}

/// How waiting for the worker of a session that is being closed ended.
#[derive(Clone, Debug, PartialEq, Eq)]
pub enum JoinEnd {
    /// The worker has exited.
    Exited,
    /// The worker has exited by a panic.
    Panicked,
    /// The worker has not exited in time.
    TimedOut,
    /// Nobody could wait for the worker, for the given reason.
    WaitFailed(String),
}

/// The answer to a request for a frame.
pub enum CaptureReply {
    /// The worker takes no request.
    Refused,
    /// The worker did not answer in time.
    TimedOut,
    /// The worker went away without an answer.
    Abandoned,
    /// The worker's answer.
    Answered(HalResult<CameraFrame>),
}

/// The state of a session.
#[derive(Clone, Copy, Debug, PartialEq, Eq, Structural)]
pub struct SessionState {
    pub closed: bool,
    pub claim: ClaimState,
}

/// The error of a worker that does not exit in time.
pub open spec fn close_timeout_failure(backend: CameraBackend, id: Seq<char>) -> HalErrorView {
    if backend == CameraBackend::MediaFoundation {
        HalErrorView::new(
            "runtime.adapter.close_timeout"@,
            ErrorCategory::Unavailable,
            "camera.close"@,
            true,
            "Media Foundation worker did not release the camera before close timed out"@,
        ).about(id)
    } else {
        backend::timeout_failure(backend, "camera.close"@, id)
    }
}

fn close_timeout_error(backend: CameraBackend, id: &ResourceId) -> (error: HalError)
    ensures
        error@ == close_timeout_failure(backend, id@),
{
    if backend == CameraBackend::MediaFoundation {
        HalError::fixed(
            "runtime.adapter.close_timeout",
            ErrorCategory::Unavailable,
            "camera.close",
            true,
            "Media Foundation worker did not release the camera before close timed out",
        ).with_resource_id(id.copy())
    } else {
        timeout_error(backend, "camera.close", id)
    }
}

/// The error of a worker that panicked.
pub open spec fn panic_failure(backend: CameraBackend) -> HalErrorView {
    backend::platform_failure(
        backend,
        "camera.close"@,
        match backend {
            CameraBackend::V4l2 => "V4L2 capture worker panicked"@,
            CameraBackend::MediaFoundation => "Media Foundation worker panicked"@,
            CameraBackend::AvFoundation => "AVFoundation worker panicked"@,
        },
    )
}

fn panic_error(backend: CameraBackend) -> (error: HalError)
    ensures
        error@ == panic_failure(backend),
{
    let reason = match backend {
        CameraBackend::V4l2 => "V4L2 capture worker panicked",
        CameraBackend::MediaFoundation => "Media Foundation worker panicked",
        CameraBackend::AvFoundation => "AVFoundation worker panicked",
    };
    platform_error(backend, "camera.close", reason)
}

/// The error of a wait for the worker that failed.
pub open spec fn wait_failure(backend: CameraBackend, reason: Seq<char>) -> HalErrorView {
    match backend {
        CameraBackend::V4l2 => HalErrorView::new(
            "runtime.internal.worker_failed"@,
            ErrorCategory::Internal,
            "camera.close"@,
            false,
            "V4L2 capture worker failed: "@ + reason,
        ),
        CameraBackend::MediaFoundation => backend::platform_failure(
            backend,
            "camera.close"@,
            "quarantine reaper failed"@,
        ),
        CameraBackend::AvFoundation => backend::worker_failure(backend, "camera.close"@, reason),
    }
}

fn wait_error(backend: CameraBackend, reason: &str) -> (error: HalError)
    ensures
        error@ == wait_failure(backend, reason@),
{
    match backend {
        CameraBackend::V4l2 => {
            let mut message = "V4L2 capture worker failed: ".to_owned();
            message.append(reason);
            HalError::new(
                "runtime.internal.worker_failed",
                ErrorCategory::Internal,
                "camera.close",
                false,
                message,
            )
        },
        CameraBackend::MediaFoundation => platform_error(
            backend,
            "camera.close",
            "quarantine reaper failed",
        ),
        CameraBackend::AvFoundation => worker_failed(backend, "camera.close", reason),
    }
}

/// The error of a worker that went away before it was ready.
pub open spec fn startup_failure(backend: CameraBackend) -> HalErrorView {
    backend::platform_failure(
        backend,
        "camera.open"@,
        match backend {
            CameraBackend::V4l2 => "V4L2 capture worker exited before setup"@,
            CameraBackend::MediaFoundation => "Media Foundation worker exited during setup"@,
            CameraBackend::AvFoundation => "AVFoundation worker exited during setup"@,
        },
    )
}

/// The first camera that an identity selects.
pub open spec fn first_camera(descriptors: Seq<ResourceDescriptor>, i: int, id: Seq<char>) -> bool {
    &&& 0 <= i < descriptors.len()
    &&& resource::matches_selector(descriptors[i]@, id, Capability::CameraCapture)
    &&& forall|j: int|
        0 <= j < i ==> !resource::matches_selector(
            #[trigger] descriptors[j]@,
            id,
            Capability::CameraCapture,
        )
}

/// Why no camera is selected. Without discovery on this system nothing is selected; the format is
/// checked before the result of the discovery is looked at.
pub open spec fn selection_refusal(
    backend: CameraBackend,
    discovered: Option<HalResult<Vec<ResourceDescriptor>>>,
    id: Seq<char>,
    format: CameraFormat,
    limits: CameraLimits,
) -> Option<HalErrorView> {
    match discovered {
        None => Some(backend::unavailable_error(backend, "camera.open"@).about(id)),
        Some(discovered) => if !format.valid(limits) {
            Some(frame_format::format_error("camera dimensions are outside the public bounds"@))
        } else {
            match discovered {
                Err(error) => Some(error@),
                Ok(descriptors) => if exists|i: int| first_camera(descriptors@, i, id) {
                    None
                } else {
                    Some(resource::not_found_error("camera.open"@, id))
                },
            }
        },
    }
}

/// The camera that an identity and a format select among discovered ones.
pub fn select_camera(
    backend: CameraBackend,
    discovered: Option<HalResult<Vec<ResourceDescriptor>>>,
    id: &ResourceId,
    format: &CameraFormat,
    limits: &CameraLimits,
) -> (result: HalResult<ResourceDescriptor>)
    ensures
        match result {
            Ok(descriptor) => {
                &&& selection_refusal(backend, discovered, id@, *format, *limits) is None
                &&& exists|i: int|
                    #[trigger] first_camera(discovered->0->Ok_0@, i, id@) && descriptor
                        == discovered->0->Ok_0@[i]
            },
            Err(error) => selection_refusal(backend, discovered, id@, *format, *limits) == Some(
                error@,
            ),
        },
{
    let discovered = match discovered {
        Some(discovered) => discovered,
        None => {
            return Err(unavailable(backend, "camera.open").with_resource_id(id.copy()));
        },
    };
    format.validate(limits)?;
    let mut descriptors = discovered?;
    let ghost all = descriptors@;
    let position: usize = resolve_resource(
        &descriptors,
        id,
        Capability::CameraCapture,
        "camera.open",
    )?;
    proof {
        assert(first_camera(all, position as int, id@));
    }
    Ok(descriptors.remove(position))
}

/// A session on a camera.
pub struct CameraSession {
    backend: CameraBackend,
    id: ResourceId,
    format: CameraFormat,
    state: SessionState,
}

/// The mathematical content of a [`CameraSession`].
pub struct SessionView {
    pub backend: CameraBackend,
    pub id: Seq<char>,
    pub format: CameraFormat,
    pub state: SessionState,
}

impl View for CameraSession {
    type V = SessionView;

    closed spec fn view(&self) -> SessionView {
        SessionView {
            backend: self.backend,
            id: self.id@,
            format: self.format,
            state: self.state,
        }
    }
}

impl CameraSession {
    /// Takes a camera into use for a session. A camera that is in use is refused.
    pub fn claim(
        claims: &mut ClaimSet,
        backend: CameraBackend,
        id: &ResourceId,
        format: CameraFormat,
    ) -> (result: HalResult<CameraSession>)
        requires
            old(claims).wf(),
        ensures
            final(claims).wf(),
            final(claims)@ == old(claims)@.insert(id@),
            match result {
                Ok(session) => {
                    &&& !old(claims)@.contains(id@)
                    &&& session@ == (SessionView {
                        backend,
                        id: id@,
                        format,
                        state: SessionState { closed: false, claim: ClaimState::Held },
                    })
                },
                Err(error) => {
                    &&& old(claims)@.contains(id@)
                    &&& error@ == backend::conflict_error(backend, id@)
                },
            },
    {
        if !claims.claim(id) {
            return Err(conflict(backend, id));
        }
        Ok(
            CameraSession {
                backend,
                id: id.copy(),
                format,
                state: SessionState { closed: false, claim: ClaimState::Held },
            },
        )
    }

    /// The format of the frames.
    pub fn format(&self) -> (format: CameraFormat)
        ensures
            format == self@.format,
    {
        self.format
    }

    /// Refuses an operation on a closed session.
    pub fn ensure_open(&self, operation: &'static str) -> (result: HalResult<()>)
        ensures
            match result {
                Ok(()) => !self@.state.closed,
                Err(error) => {
                    &&& self@.state.closed
                    &&& error@ == backend::closed_error(self@.backend, operation@, self@.id)
                },
            },
    {
        if self.state.closed {
            return Err(closed(self.backend, operation, &self.id));
        }
        Ok(())
    }

    /// Refuses every operation on a control.
    pub fn control(&self, operation: &'static str) -> (error: HalError)
        ensures
            error@ == if self@.state.closed {
                backend::closed_error(self@.backend, operation@, self@.id)
            } else {
                backend::control_error(self@.backend, operation@, self@.id)
            },
    {
        match self.ensure_open(operation) {
            Ok(()) => control_unsupported(self.backend, operation, &self.id),
            Err(error) => error,
        }
    }

    /// What a request for a frame gives.
    pub fn capture(&self, reply: CaptureReply) -> (result: HalResult<CameraFrame>)
        ensures
            if self@.state.closed {
                result is Err && result->Err_0@ == backend::closed_error(
                    self@.backend,
                    "camera.capture"@,
                    self@.id,
                )
            } else {
                match reply {
                    CaptureReply::Answered(answer) => result == answer,
                    CaptureReply::TimedOut => result is Err && result->Err_0@
                        == backend::timeout_failure(self@.backend, "camera.capture"@, self@.id),
                    _ => result is Err && result->Err_0@ == backend::closed_error(
                        self@.backend,
                        "camera.capture"@,
                        self@.id,
                    ),
                }
            },
    {
        self.ensure_open("camera.capture")?;
        match reply {
            CaptureReply::Answered(answer) => answer,
            CaptureReply::TimedOut => Err(
                timeout_error(self.backend, "camera.capture", &self.id),
            ),
            CaptureReply::Refused => Err(closed(self.backend, "camera.capture", &self.id)),
            CaptureReply::Abandoned => Err(closed(self.backend, "camera.capture", &self.id)),
        }
    }

    /// Takes what the worker says when it has set up the camera. A worker that failed, or went away,
    /// has given the camera back.
    pub fn started(self, claims: &mut ClaimSet, reply: Option<HalResult<()>>) -> (result: HalResult<
        CameraSession,
    >)
        requires
            old(claims).wf(),
        ensures
            final(claims).wf(),
            final(claims)@ == if reply matches Some(Ok(())) {
                old(claims)@
            } else {
                old(claims)@.remove(self@.id)
            },
            match reply {
                Some(Ok(())) => result == Ok::<CameraSession, HalError>(self),
                Some(Err(error)) => result == Err::<CameraSession, HalError>(error),
                None => result is Err && result->Err_0@ == startup_failure(self@.backend),
            },
    {
        match reply {
            Some(Ok(())) => Ok(self),
            Some(Err(error)) => {
                claims.release(&self.id);
                Err(error)
            },
            None => {
                claims.release(&self.id);
                let reason = match self.backend {
                    CameraBackend::V4l2 => "V4L2 capture worker exited before setup",
                    CameraBackend::MediaFoundation => {
                        "Media Foundation worker exited during setup"
                    },
                    CameraBackend::AvFoundation => "AVFoundation worker exited during setup",
                };
                Err(platform_error(self.backend, "camera.open", reason))
            },
        }
    }

    /// Starts to close: the worker has to be stopped, unless the session is closed already. Until
    /// the worker has exited, the claim is not the session's to give back.
    pub fn begin_close(&mut self) -> (stop: bool)
        ensures
            stop == !old(self)@.state.closed,
            final(self)@ == closing(old(self)@),
    {
        if self.state.closed {
            return false;
        }
        self.state = SessionState { closed: true, claim: ClaimState::Quarantined };
        true
    }

    /// Takes how waiting for the worker ended. The claim is given back where the worker has exited,
    /// and stays where it may not have.
    pub fn finish_close(&mut self, claims: &mut ClaimSet, end: JoinEnd) -> (result: HalResult<()>)
        requires
            old(claims).wf(),
        ensures
            final(claims).wf(),
            (final(claims)@, final(self)@) == joined(old(claims)@, old(self)@, end),
            match end {
                JoinEnd::Exited => result is Ok,
                JoinEnd::Panicked => result is Err && result->Err_0@ == panic_failure(
                    old(self)@.backend,
                ),
                JoinEnd::TimedOut => result is Err && result->Err_0@ == close_timeout_failure(
                    old(self)@.backend,
                    old(self)@.id,
                ),
                JoinEnd::WaitFailed(reason) => result is Err && result->Err_0@ == wait_failure(
                    old(self)@.backend,
                    reason@,
                ),
            },
    {
        match end {
            JoinEnd::Exited => {
                self.worker_exited(claims);
                Ok(())
            },
            JoinEnd::Panicked => {
                self.worker_exited(claims);
                Err(panic_error(self.backend))
            },
            JoinEnd::TimedOut => Err(close_timeout_error(self.backend, &self.id)),
            JoinEnd::WaitFailed(reason) => Err(wait_error(self.backend, reason.as_str())),
        }
    }

    /// Takes that the worker has exited: a claim that waited for it is given back.
    pub fn worker_exited(&mut self, claims: &mut ClaimSet)
        requires
            old(claims).wf(),
        ensures
            final(claims).wf(),
            (final(claims)@, final(self)@) == exited(old(claims)@, old(self)@),
    {
        if self.state.claim == ClaimState::Quarantined {
            claims.release(&self.id);
            self.state = SessionState { closed: self.state.closed, claim: ClaimState::Released };
        }
    }

    /// Takes that the session was dropped. Where the worker still has to be waited for, whoever
    /// waits keeps what is returned.
    pub fn dropped(self, claims: &mut ClaimSet) -> (waiting: Option<CameraSession>)
        requires
            old(claims).wf(),
        ensures
            final(claims).wf(),
            final(claims)@ == after_drop(old(claims)@, self@).0,
            match waiting {
                Some(session) => after_drop(old(claims)@, self@).1 == session@
                    && session@.state.claim == ClaimState::Quarantined,
                None => after_drop(old(claims)@, self@).1.state.claim == ClaimState::Released,
            },
    {
        let mut session = self;
        match session.state.claim {
            ClaimState::Held => {
                if session.backend == CameraBackend::MediaFoundation {
                    session.state =
                    SessionState { closed: true, claim: ClaimState::Quarantined };
                    return Some(session);
                }
                claims.release_claim_after_drop(&session.id, false);
                None
            },
            ClaimState::Quarantined => {
                claims.release_claim_after_drop(&session.id, true);
                Some(session)
            },
            ClaimState::Released => None,
        }
    }
}

/// What opening a camera does: it selects one, and takes it into use unless it is already.
pub open spec fn opens(
    backend: CameraBackend,
    before: Set<Seq<char>>,
    after: Set<Seq<char>>,
    discovered: Option<HalResult<Vec<ResourceDescriptor>>>,
    id: Seq<char>,
    format: CameraFormat,
    limits: CameraLimits,
    result: HalResult<(ResourceDescriptor, CameraSession)>,
) -> bool {
    match selection_refusal(backend, discovered, id, format, limits) {
        Some(refusal) => {
            &&& after == before
            &&& result is Err
            &&& result->Err_0@ == refusal
        },
        None => {
            &&& after == before.insert(id)
            &&& match result {
                Ok((descriptor, session)) => {
                    &&& !before.contains(id)
                    &&& exists|i: int|
                        #[trigger] first_camera(discovered->0->Ok_0@, i, id) && descriptor
                            == discovered->0->Ok_0@[i]
                    &&& session@ == (SessionView {
                        backend,
                        id,
                        format,
                        state: SessionState { closed: false, claim: ClaimState::Held },
                    })
                },
                Err(error) => before.contains(id) && error@ == backend::conflict_error(backend, id),
            }
        },
    }
}

/// Selects a camera among discovered ones and takes it into use.
pub fn open_camera(
    backend: CameraBackend,
    claims: &mut ClaimSet,
    discovered: Option<HalResult<Vec<ResourceDescriptor>>>,
    id: &ResourceId,
    format: CameraFormat,
    limits: &CameraLimits,
) -> (result: HalResult<(ResourceDescriptor, CameraSession)>)
    requires
        old(claims).wf(),
    ensures
        final(claims).wf(),
        opens(
            backend,
            old(claims)@,
            final(claims)@,
            discovered,
            id@,
            format,
            *limits,
            result,
        ),
{
    let descriptor = select_camera(backend, discovered, id, &format, limits)?;
    let session = CameraSession::claim(claims, backend, id, format)?;
    Ok((descriptor, session))
}

/// A camera that is in use cannot be opened again, and stays in use.
pub proof fn law_camera_in_use_is_not_opened_again(
    backend: CameraBackend,
    before: Set<Seq<char>>,
    after: Set<Seq<char>>,
    discovered: Option<HalResult<Vec<ResourceDescriptor>>>,
    id: Seq<char>,
    format: CameraFormat,
    limits: CameraLimits,
    result: HalResult<(ResourceDescriptor, CameraSession)>,
)
    requires
        opens(backend, before, after, discovered, id, format, limits, result),
        before.contains(id),
    ensures
        result is Err,
        after == before,
{
    assert(before.insert(id) =~= before);
}

/// A session that is being closed.
pub open spec fn closing(session: SessionView) -> SessionView {
    if session.state.closed {
        session
    } else {
        SessionView {
            state: SessionState { closed: true, claim: ClaimState::Quarantined },
            ..session
        }
    }
}

/// The claims and a session once its worker has exited.
pub open spec fn exited(claims: Set<Seq<char>>, session: SessionView) -> (
    Set<Seq<char>>,
    SessionView,
) {
    if session.state.claim == ClaimState::Quarantined {
        (
            claims.remove(session.id),
            SessionView {
                state: SessionState { claim: ClaimState::Released, ..session.state },
                ..session
            },
        )
    } else {
        (claims, session)
    }
}

/// The claims and a session after waiting for its worker.
pub open spec fn joined(claims: Set<Seq<char>>, session: SessionView, end: JoinEnd) -> (
    Set<Seq<char>>,
    SessionView,
) {
    if end is Exited || end is Panicked {
        exited(claims, session)
    } else {
        (claims, session)
    }
}

/// The claims and what is left of a session once it was dropped.
pub open spec fn after_drop(claims: Set<Seq<char>>, session: SessionView) -> (
    Set<Seq<char>>,
    SessionView,
) {
    match session.state.claim {
        ClaimState::Held => if session.backend == CameraBackend::MediaFoundation {
            (
                claims,
                SessionView {
                    state: SessionState { closed: true, claim: ClaimState::Quarantined },
                    ..session
                },
            )
        } else {
            (
                claims.remove(session.id),
                SessionView {
                    state: SessionState { claim: ClaimState::Released, ..session.state },
                    ..session
                },
            )
        },
        _ => (claims, session),
    }
}

/// A camera whose worker did not exit in time stays in use, also once the session is dropped, until
/// the worker has exited.
pub proof fn law_timed_out_close_quarantines_the_camera(
    claims: Set<Seq<char>>,
    session: SessionView,
)
    requires
        claims.contains(session.id),
        session.state == (SessionState { closed: false, claim: ClaimState::Held }),
    ensures
        ({
            let timed_out = joined(claims, closing(session), JoinEnd::TimedOut);
            let dropped = after_drop(timed_out.0, timed_out.1);
            let over = exited(dropped.0, dropped.1);
            &&& timed_out.0.contains(session.id)
            &&& dropped.0.contains(session.id)
            &&& over.0 == claims.remove(session.id)
            &&& over.1.state == (SessionState { closed: true, claim: ClaimState::Released })
        }),
{
}

/// A camera is given back once: after it was, closing, dropping or the end of a worker leave the
/// claims of others alone.
pub proof fn law_released_claims_stay_released(
    claims: Set<Seq<char>>,
    session: SessionView,
    end: JoinEnd,
)
    requires
        session.state == (SessionState { closed: true, claim: ClaimState::Released }),
    ensures
        joined(claims, closing(session), end) == (claims, session),
        exited(claims, session) == (claims, session),
        after_drop(claims, session) == (claims, session),
{
}

/// The worker of a session: it numbers the frames that it hands out.
pub struct CaptureWorker {
    backend: CameraBackend,
    id: ResourceId,
    sequence: u64,
}

impl CaptureWorker {
    /// The number of the next frame.
    pub closed spec fn next(self) -> u64 {
        self.sequence
    }

    /// The back end and the identity of the camera.
    pub closed spec fn camera(self) -> (CameraBackend, Seq<char>) {
        (self.backend, self.id@)
    }

    /// A worker that has handed out no frame.
    pub fn new(backend: CameraBackend, id: ResourceId) -> (worker: CaptureWorker)
        ensures
            worker.next() == 1,
            worker.camera() == (backend, id@),
    {
        CaptureWorker { backend, id, sequence: 1 }
    }

    /// The number of the next frame.
    pub fn next_sequence(&self) -> (sequence: u64)
        ensures
            sequence == self.next(),
    {
        self.sequence
    }

    /// Takes how a wait for a frame ended, and gives the answer to the request, or nothing where
    /// the worker has to stop. Only a frame uses its number up.
    pub fn finish(&mut self, ended: HalResult<WaitResult<CameraFrame>>) -> (answer: Option<
        HalResult<CameraFrame>,
    >)
        ensures
            final(self).camera() == old(self).camera(),
            match ended {
                Ok(WaitResult::Ready(captured)) => {
                    &&& final(self).next() == frame::number_after(old(self).next())
                    &&& answer == Some(Ok::<CameraFrame, HalError>(captured))
                },
                Ok(WaitResult::TimedOut) => {
                    &&& final(self).next() == old(self).next()
                    &&& answer is Some
                    &&& answer->0 is Err
                    &&& answer->0->Err_0@ == backend::timeout_failure(
                        old(self).camera().0,
                        "camera.capture"@,
                        old(self).camera().1,
                    )
                },
                Ok(WaitResult::Shutdown) => {
                    &&& final(self).next() == old(self).next()
                    &&& answer is None
                },
                Err(error) => {
                    &&& final(self).next() == old(self).next()
                    &&& answer == Some(Err::<CameraFrame, HalError>(error))
                },
            },
    {
        match ended {
            Ok(WaitResult::Ready(captured)) => {
                self.sequence = next_number(self.sequence);
                Some(Ok(captured))
            },
            Ok(WaitResult::TimedOut) => Some(
                Err(timeout_error(self.backend, "camera.capture", &self.id)),
            ),
            Ok(WaitResult::Shutdown) => None,
            Err(error) => Some(Err(error)),
        }
    }
}

/// An opened camera has the selected identity, can capture, was not in use before and is in use then;
/// no other claim changes. The session has the requested format.
pub proof fn law_opened_camera_is_the_selected_one(
    backend: CameraBackend,
    before: Set<Seq<char>>,
    after: Set<Seq<char>>,
    discovered: Option<HalResult<Vec<ResourceDescriptor>>>,
    id: Seq<char>,
    format: CameraFormat,
    limits: CameraLimits,
    result: HalResult<(ResourceDescriptor, CameraSession)>,
)
    requires
        opens(backend, before, after, discovered, id, format, limits, result),
    ensures
        result matches Ok((descriptor, session)) ==> {
            &&& descriptor@.id == id
            &&& descriptor@.capabilities.contains(Capability::CameraCapture)
            &&& discovered->0->Ok_0@.contains(descriptor)
            &&& 0 < format.width <= limits.max_width
            &&& 0 < format.height <= limits.max_height
            &&& !before.contains(id)
            &&& after.contains(id)
            &&& session@.id == id
            &&& session@.format == format
            &&& session@.backend == backend
            &&& !session@.state.closed
            &&& session@.state.claim == ClaimState::Held
        },
        forall|other: Seq<char>|
            other != id ==> (#[trigger] after.contains(other) <==> before.contains(other)),
        result is Err ==> (after.contains(id) <==> before.contains(id)),
{
    if result is Ok {
        let descriptor = result->Ok_0.0;
        let i = choose|i: int|
            #[trigger] first_camera(discovered->0->Ok_0@, i, id) && descriptor
                == discovered->0->Ok_0@[i];
        assert(discovered->0->Ok_0@[i] == descriptor);
    }
}

/// A discovered camera that is not in use is opened in every format that a frame can have.
pub proof fn law_free_camera_is_opened(
    backend: CameraBackend,
    before: Set<Seq<char>>,
    after: Set<Seq<char>>,
    descriptors: Vec<ResourceDescriptor>,
    id: Seq<char>,
    format: CameraFormat,
    limits: CameraLimits,
    result: HalResult<(ResourceDescriptor, CameraSession)>,
    found: int,
)
    requires
        opens(backend, before, after, Some(Ok(descriptors)), id, format, limits, result),
        0 <= found < descriptors@.len(),
        descriptors@[found]@.id == id,
        descriptors@[found]@.capabilities.contains(Capability::CameraCapture),
        format.valid(limits),
        !before.contains(id),
    ensures
        result is Ok,
{
    lemma_first_camera(descriptors@, id, found);
}

proof fn lemma_first_camera(descriptors: Seq<ResourceDescriptor>, id: Seq<char>, found: int)
    requires
        0 <= found < descriptors.len(),
        resource::matches_selector(descriptors[found]@, id, Capability::CameraCapture),
    ensures
        exists|i: int| first_camera(descriptors, i, id),
    decreases found,
{
    if exists|j: int|
        0 <= j < found && resource::matches_selector(
            #[trigger] descriptors[j]@,
            id,
            Capability::CameraCapture,
        ) {
        let j = choose|j: int|
            0 <= j < found && resource::matches_selector(
                #[trigger] descriptors[j]@,
                id,
                Capability::CameraCapture,
            );
        lemma_first_camera(descriptors, id, j);
    } else {
        assert(first_camera(descriptors, found, id));
    }
}

/// A session that is closed in good time gives its camera back and nothing else: its worker exits,
/// with or without a panic, and the claim goes with it.
pub proof fn law_closed_session_gives_the_camera_back(
    claims: Set<Seq<char>>,
    session: SessionView,
    end: JoinEnd,
)
    requires
        session.state == (SessionState { closed: false, claim: ClaimState::Held }),
        end is Exited || end is Panicked,
    ensures
        ({
            let over = joined(claims, closing(session), end);
            &&& !over.0.contains(session.id)
            &&& forall|other: Seq<char>|
                other != session.id ==> (#[trigger] over.0.contains(other) <==> claims.contains(
                    other,
                ))
            &&& over.1.state.closed
            &&& over.1.state.claim == ClaimState::Released
            &&& over.1.id == session.id
            &&& over.1.format == session.format
            &&& over.1.backend == session.backend
        }),
        closing(session).state.closed,
        closing(session).state.claim == ClaimState::Quarantined,
        closing(session).id == session.id,
{
}

/// A worker that may still run keeps its camera in use: a wait for it that ended without its end
/// changes nothing, and a dropped session gives a camera back at once only where no worker of the
/// system can still hold it.
pub proof fn law_running_workers_keep_their_cameras(
    claims: Set<Seq<char>>,
    session: SessionView,
    end: JoinEnd,
)
    ensures
        end is TimedOut || end is WaitFailed ==> joined(claims, session, end) == (claims, session),
        session.state.claim == ClaimState::Held && session.backend
            == CameraBackend::MediaFoundation ==> after_drop(claims, session).0 == claims
            && after_drop(claims, session).1.state.claim == ClaimState::Quarantined,
        session.state.claim == ClaimState::Held && session.backend
            != CameraBackend::MediaFoundation ==> after_drop(claims, session).0 == claims.remove(
            session.id,
        ) && after_drop(claims, session).1.state.claim == ClaimState::Released,
        session.state.claim == ClaimState::Quarantined ==> after_drop(claims, session).0 == claims
            && exited(claims, session).0 == claims.remove(session.id),
{
}

/// A close that does not come to its end in time is worth another try; Media Foundation has a name of
/// its own for it.
pub proof fn law_late_close_is_worth_another_try(backend: CameraBackend, id: Seq<char>)
    ensures
        ({
            let error = close_timeout_failure(backend, id);
            &&& error.category == ErrorCategory::Unavailable
            &&& error.operation == "camera.close"@
            &&& error.retryable
            &&& error.resource_id == Some(id)
            &&& error.name == if backend == CameraBackend::MediaFoundation {
                "runtime.adapter.close_timeout"@
            } else {
                "runtime.transport.timeout"@
            }
        }),
{
}

} // verus!
