//! A channel of a session: its sockets, its link and the end of both.

use vstd::prelude::*;

use crate::can::CanActiveConfig;
use crate::error::{ErrorCategory, HalError, HalErrorView, HalResult};
use crate::resource::ResourceId;

verus! {

/// The error of an operation on a closed channel.
pub open spec fn closed_error(operation: Seq<char>, id: Seq<char>) -> HalErrorView {
    HalErrorView::new(
        "runtime.session.closed"@,
        ErrorCategory::Conflict,
        operation,
        false,
        "SocketCAN channel is already closed"@,
    ).about(id)
}

fn closed(operation: &'static str, id: &ResourceId) -> (error: HalError)
    ensures
        error@ == closed_error(operation@, id@),
{
    HalError::fixed(
        "runtime.session.closed",
        ErrorCategory::Conflict,
        operation,
        false,
        "SocketCAN channel is already closed",
    ).with_resource_id(id.copy())
}

/// The state of a channel.
#[derive(Clone, Copy, Debug, PartialEq, Eq, Structural)]
pub struct ChannelState {
    /// The sockets are open.
    pub sockets: bool,
    /// The link was given back.
    pub closed: bool,
}

/// A channel of a session.
pub struct NativeSocketCanChannel {
    id: ResourceId,
    active: CanActiveConfig,
    state: ChannelState,
}

impl NativeSocketCanChannel {
    /// The identity of the resource.
    pub closed spec fn resource(self) -> Seq<char> {
        self.id@
    }

    /// The configuration of the link.
    pub closed spec fn config(self) -> CanActiveConfig {
        self.active
    }

    /// The state of the channel.
    pub closed spec fn state(self) -> ChannelState {
        self.state
    }

    /// A channel whose sockets are open.
    pub fn open(id: ResourceId, active: CanActiveConfig) -> (channel: Self)
        ensures
            channel.resource() == id@,
            channel.config() == active,
            channel.state() == (ChannelState { sockets: true, closed: false }),
    {
        NativeSocketCanChannel { id, active, state: ChannelState { sockets: true, closed: false } }
    }

    /// The configuration of the link.
    pub fn active_config(&self) -> (active: &CanActiveConfig)
        ensures
            *active == self.config(),
    {
        &self.active
    }

    /// Refuses an operation that needs the sockets where they are gone.
    pub fn ensure_sockets(&self, operation: &'static str) -> (result: HalResult<()>)
        ensures
            match result {
                Ok(()) => !self.state().closed && self.state().sockets,
                Err(error) => {
                    &&& self.state().closed || !self.state().sockets
                    &&& error@ == closed_error(operation@, self.resource())
                },
            },
    {
        if self.state.closed || !self.state.sockets {
            return Err(closed(operation, &self.id));
        }
        Ok(())
    }

    /// Refuses a status query on a closed channel. The status comes from the link, so a channel
    /// whose link could not be given back still has one.
    pub fn ensure_status(&self) -> (result: HalResult<()>)
        ensures
            match result {
                Ok(()) => !self.state().closed,
                Err(error) => {
                    &&& self.state().closed
                    &&& error@ == closed_error("can.status"@, self.resource())
                },
            },
    {
        if self.state.closed {
            return Err(closed("can.status", &self.id));
        }
        Ok(())
    }

    /// Starts to close: the sockets go, and the link has to be given back unless it was already.
    pub fn begin_close(&mut self) -> (give_back: bool)
        ensures
            give_back == !old(self).state().closed,
            final(self).resource() == old(self).resource(),
            final(self).config() == old(self).config(),
            final(self).state() == if old(self).state().closed {
                old(self).state()
            } else {
                ChannelState { sockets: false, closed: false }
            },
    {
        if self.state.closed {
            return false;
        }
        self.state = ChannelState { sockets: false, closed: false };
        true
    }

    /// Takes how giving the link back ended. Only where it succeeded is the channel closed.
    pub fn finish_close(&mut self, result: HalResult<()>) -> (passed: HalResult<()>)
        ensures
            passed == result,
            final(self).resource() == old(self).resource(),
            final(self).config() == old(self).config(),
            final(self).state() == if result is Ok {
                ChannelState { closed: true, ..old(self).state() }
            } else {
                old(self).state()
            },
    {
        if result.is_ok() {
            self.state = ChannelState { sockets: self.state.sockets, closed: true };
        }
        result
    }
}

/// An operation on a closed channel is a conflict about the channel's resource that no other try
/// resolves.
pub proof fn law_closed_channels_are_told(operation: Seq<char>, id: Seq<char>)
    ensures
        closed_error(operation, id).name == "runtime.session.closed"@,
        closed_error(operation, id).category == ErrorCategory::Conflict,
        closed_error(operation, id).operation == operation,
        !closed_error(operation, id).retryable,
        closed_error(operation, id).resource_id == Some(id),
{
}

} // verus!
