//! A link that a session holds: the changes it makes, and giving the link back as it was.

use vstd::prelude::*;
use vstd::string::*;

use crate::can::{CanActiveConfig, CanBusStatus, CanConfigureConfig, CanLinkExpectation, CanMode};
use crate::error;
use crate::error::{ErrorCategory, HalError, HalErrorView, HalResult};
use crate::resource::ResourceId;
use crate::socketcan::fault;
use crate::socketcan::fault::{map_netlink_error, NetlinkFault, NetlinkFaultView};
use crate::socketcan::identity;
use crate::socketcan::identity::{identity_from_metadata, CanInterfaceMetadata, MetadataView};
use crate::socketcan::kernel::{
    ControlMode, ControlModes, DetailsView, InterfaceDetails, KernelTiming, LinkParams, Mtu,
};
use crate::socketcan::link;
use crate::socketcan::link::{
    active_config, reported_status, to_socketcan_timing, verify_config, verify_expectation,
};
use crate::text::same_text;

verus! {

/// All values of a timing.
#[derive(Clone, Copy, Debug, PartialEq, Eq, Structural)]
pub struct TimingFingerprint {
    pub bitrate: u32,
    pub sample_point: u32,
    pub tq: u32,
    pub prop_seg: u32,
    pub phase_seg1: u32,
    pub phase_seg2: u32,
    pub sjw: u32,
    pub brp: u32,
}

/// All values of a timing.
pub open spec fn timing_values(timing: KernelTiming) -> TimingFingerprint {
    TimingFingerprint {
        bitrate: timing.bitrate,
        sample_point: timing.sample_point,
        tq: timing.tq,
        prop_seg: timing.prop_seg,
        phase_seg1: timing.phase_seg1,
        phase_seg2: timing.phase_seg2,
        sjw: timing.sjw,
        brp: timing.brp,
    }
}

/// All values of a timing.
pub fn timing_fingerprint(timing: KernelTiming) -> (fingerprint: TimingFingerprint)
    ensures
        fingerprint == timing_values(timing),
{
    TimingFingerprint {
        bitrate: timing.bitrate,
        sample_point: timing.sample_point,
        tq: timing.tq,
        prop_seg: timing.prop_seg,
        phase_seg1: timing.phase_seg1,
        phase_seg2: timing.phase_seg2,
        sjw: timing.sjw,
        brp: timing.brp,
    }
}

/// All control modes, in the order of their bits.
pub open spec fn all_modes() -> Seq<ControlMode> {
    seq![
        ControlMode::Loopback,
        ControlMode::ListenOnly,
        ControlMode::TripleSampling,
        ControlMode::OneShot,
        ControlMode::BerrReporting,
        ControlMode::Fd,
        ControlMode::PresumeAck,
        ControlMode::NonIso,
        ControlMode::CcLen8Dlc,
    ]
}

/// All control modes, in the order of their bits.
pub fn control_modes() -> (modes: [ControlMode; 9])
    ensures
        modes@ == all_modes(),
{
    let modes = [
        ControlMode::Loopback,
        ControlMode::ListenOnly,
        ControlMode::TripleSampling,
        ControlMode::OneShot,
        ControlMode::BerrReporting,
        ControlMode::Fd,
        ControlMode::PresumeAck,
        ControlMode::NonIso,
        ControlMode::CcLen8Dlc,
    ];
    proof {
        assert(modes@ =~= all_modes());
    }
    modes
}

/// Which of the control modes are on.
pub open spec fn modes_on(modes: Option<ControlModes>) -> Seq<bool> {
    Seq::new(9, |i: int| link::mode_on(modes, all_modes()[i]))
}

/// Which of the control modes are on.
pub fn control_fingerprint(modes: Option<ControlModes>) -> (fingerprint: [bool; 9])
    ensures
        fingerprint@ == modes_on(modes),
{
    let modes = match modes {
        Some(modes) => modes,
        None => ControlModes::new(),
    };
    proof {
        assert forall|bit: u32| #[trigger] (bit & 0) == 0 by {
            assert(bit & 0 == 0) by (bit_vector);
        }
    }
    let all = control_modes();
    let mut fingerprint: [bool; 9] = [false;9];
    let mut index: usize = 0;
    while index < 9
        invariant
            index <= 9,
            all@ == all_modes(),
            forall|i: int| 0 <= i < index ==> fingerprint@[i] == modes.is_on(all_modes()[i]),
        decreases 9 - index,
    {
        fingerprint[index] = modes.has_mode(all[index]);
        index += 1;
    }
    proof {
        assert(fingerprint@ =~= modes_on(Some(modes)));
    }
    fingerprint
}

/// Everything about a link that tells whether somebody has changed it.
#[derive(Clone, Debug, PartialEq, Eq)]
pub struct LinkFingerprint {
    interface_index: u32,
    interface_name: String,
    physical_identity: ResourceId,
    is_up: bool,
    mtu: Option<Mtu>,
    nominal: Option<TimingFingerprint>,
    data: Option<TimingFingerprint>,
    restart_ms: Option<u32>,
    control_modes: [bool; 9],
    termination: Option<u16>,
}

/// The mathematical content of a [`LinkFingerprint`].
#[verifier::ext_equal]
pub struct FingerprintView {
    pub interface_index: u32,
    pub interface_name: Seq<char>,
    pub physical_identity: Seq<char>,
    pub is_up: bool,
    pub mtu: Option<Mtu>,
    pub nominal: Option<TimingFingerprint>,
    pub data: Option<TimingFingerprint>,
    pub restart_ms: Option<u32>,
    pub control_modes: Seq<bool>,
    pub termination: Option<u16>,
}

impl View for LinkFingerprint {
    type V = FingerprintView;

    closed spec fn view(&self) -> FingerprintView {
        FingerprintView {
            interface_index: self.interface_index,
            interface_name: self.interface_name@,
            physical_identity: self.physical_identity@,
            is_up: self.is_up,
            mtu: self.mtu,
            nominal: self.nominal,
            data: self.data,
            restart_ms: self.restart_ms,
            control_modes: self.control_modes@,
            termination: self.termination,
        }
    }
}

/// All values of a timing, where there is one.
pub open spec fn optional_values(timing: Option<KernelTiming>) -> Option<TimingFingerprint> {
    match timing {
        Some(timing) => Some(timing_values(timing)),
        None => None,
    }
}

/// The fingerprint of a link with a physical identity.
pub open spec fn fingerprint_of(details: DetailsView, physical_identity: Seq<char>) -> FingerprintView {
    FingerprintView {
        interface_index: details.index,
        interface_name: match details.name {
            Some(name) => name,
            None => Seq::empty(),
        },
        physical_identity,
        is_up: details.is_up,
        mtu: details.mtu,
        nominal: optional_values(details.can.params.bit_timing),
        data: optional_values(details.can.params.data_bit_timing),
        restart_ms: details.can.params.restart_ms,
        control_modes: modes_on(details.can.params.ctrl_mode),
        termination: details.can.params.termination,
    }
}

/// The fingerprint of a link with a physical identity.
pub fn fingerprint_for_identity(
    details: &InterfaceDetails,
    physical_identity: ResourceId,
) -> (fingerprint: LinkFingerprint)
    ensures
        fingerprint@ == fingerprint_of(details@, physical_identity@),
{
    let params = details.can.params;
    LinkFingerprint {
        interface_index: details.index,
        interface_name: match &details.name {
            Some(name) => name.clone(),
            None => String::new(),
        },
        physical_identity,
        is_up: details.is_up,
        mtu: details.mtu,
        nominal: match params.bit_timing {
            Some(timing) => Some(timing_fingerprint(timing)),
            None => None,
        },
        data: match params.data_bit_timing {
            Some(timing) => Some(timing_fingerprint(timing)),
            None => None,
        },
        restart_ms: params.restart_ms,
        control_modes: control_fingerprint(params.ctrl_mode),
        termination: params.termination,
    }
}

impl LinkFingerprint {
    /// Whether two fingerprints are the same.
    pub fn same(&self, other: &LinkFingerprint) -> (same: bool)
        ensures
            same == (self@ == other@),
    {
        let mut modes_same = true;
        let mut index: usize = 0;
        while index < 9
            invariant
                index <= 9,
                modes_same == (forall|i: int|
                    0 <= i < index ==> self.control_modes@[i] == other.control_modes@[i]),
            decreases 9 - index,
        {
            if self.control_modes[index] != other.control_modes[index] {
                modes_same = false;
            }
            index += 1;
        }
        proof {
            if modes_same {
                assert(self.control_modes@ =~= other.control_modes@);
            }
        }
        modes_same && self.interface_index == other.interface_index && same_text(
            self.interface_name.as_str(),
            other.interface_name.as_str(),
        ) && self.physical_identity.same(&other.physical_identity) && self.is_up == other.is_up
            && self.mtu == other.mtu && self.nominal == other.nominal && self.data == other.data
            && self.restart_ms == other.restart_ms && self.termination == other.termination
    }

    /// A second value with the same content.
    pub fn copy(&self) -> (fingerprint: LinkFingerprint)
        ensures
            fingerprint@ == self@,
    {
        LinkFingerprint {
            interface_index: self.interface_index,
            interface_name: self.interface_name.clone(),
            physical_identity: self.physical_identity.copy(),
            is_up: self.is_up,
            mtu: self.mtu,
            nominal: self.nominal,
            data: self.data,
            restart_ms: self.restart_ms,
            control_modes: self.control_modes,
            termination: self.termination,
        }
    }
}

/// Two links have the same fingerprint exactly where they agree in every value of their timings,
/// every control mode, their restart delay, termination, size, state, index, name and identity.
pub proof fn law_fingerprint_tracks_the_link(
    first: DetailsView,
    first_identity: Seq<char>,
    second: DetailsView,
    second_identity: Seq<char>,
)
    requires
        first.name is Some,
        second.name is Some,
    ensures
        fingerprint_of(first, first_identity) == fingerprint_of(second, second_identity) <==> {
            &&& first_identity == second_identity
            &&& first.name == second.name
            &&& first.index == second.index
            &&& first.is_up == second.is_up
            &&& first.mtu == second.mtu
            &&& first.can.params.bit_timing == second.can.params.bit_timing
            &&& first.can.params.data_bit_timing == second.can.params.data_bit_timing
            &&& first.can.params.restart_ms == second.can.params.restart_ms
            &&& first.can.params.termination == second.can.params.termination
            &&& forall|mode: ControlMode| #[trigger]
                link::mode_on(first.can.params.ctrl_mode, mode) == link::mode_on(
                    second.can.params.ctrl_mode,
                    mode,
                )
        },
{
    let left = fingerprint_of(first, first_identity);
    let right = fingerprint_of(second, second_identity);
    if left == right {
        assert forall|mode: ControlMode| #[trigger]
            link::mode_on(first.can.params.ctrl_mode, mode) == link::mode_on(
                second.can.params.ctrl_mode,
                mode,
            ) by {
            let position: int = match mode {
                ControlMode::Loopback => 0,
                ControlMode::ListenOnly => 1,
                ControlMode::TripleSampling => 2,
                ControlMode::OneShot => 3,
                ControlMode::BerrReporting => 4,
                ControlMode::Fd => 5,
                ControlMode::PresumeAck => 6,
                ControlMode::NonIso => 7,
                ControlMode::CcLen8Dlc => 8,
            };
            assert(all_modes()[position] == mode);
            assert(left.control_modes[position] == right.control_modes[position]);
        }
    }
    if forall|mode: ControlMode| #[trigger]
        link::mode_on(first.can.params.ctrl_mode, mode) == link::mode_on(
            second.can.params.ctrl_mode,
            mode,
        ) {
        assert(left.control_modes =~= right.control_modes);
    }
}

/// What an interface reports, together with what is known about the device behind its name.
pub struct ObservedInterface {
    pub details: InterfaceDetails,
    pub metadata: CanInterfaceMetadata,
}

/// The fingerprint of an observed interface, or why it has none.
pub open spec fn observed_fingerprint(
    details: DetailsView,
    metadata: MetadataView,
    operation: Seq<char>,
) -> Result<FingerprintView, HalErrorView> {
    if details.name is None {
        Err(
            HalErrorView::new(
                "runtime.transport.unavailable"@,
                ErrorCategory::Unavailable,
                operation,
                true,
                "SocketCAN netlink details omitted the interface name"@,
            ),
        )
    } else {
        Ok(fingerprint_of(details, identity::identity_of(metadata).0))
    }
}

/// The contents of a result with a fingerprint.
pub open spec fn fingerprint_outcome(result: HalResult<LinkFingerprint>) -> Result<
    FingerprintView,
    HalErrorView,
> {
    match result {
        Ok(fingerprint) => Ok(fingerprint@),
        Err(error) => Err(error@),
    }
}

/// The fingerprint of an observed interface.
pub fn fingerprint(
    observed: &ObservedInterface,
    operation: &'static str,
    id: &ResourceId,
) -> (result: HalResult<LinkFingerprint>)
    ensures
        fingerprint_outcome(result) == error::scoped(
            observed_fingerprint(observed.details@, observed.metadata@, operation@),
            id@,
        ),
{
    if observed.details.name.is_none() {
        return Err(
            HalError::fixed(
                "runtime.transport.unavailable",
                ErrorCategory::Unavailable,
                operation,
                true,
                "SocketCAN netlink details omitted the interface name",
            ).with_resource_id(id.copy()),
        );
    }
    let identity = identity_from_metadata(&observed.metadata)?;
    Ok(fingerprint_for_identity(&observed.details, identity.id))
}

/// The error of an endpoint behind which another device is found.
pub open spec fn identity_error(operation: Seq<char>, id: Seq<char>) -> HalErrorView {
    HalErrorView::new(
        "runtime.resource.not_found"@,
        ErrorCategory::NotFound,
        operation,
        false,
        "SocketCAN endpoint no longer resolves to the selected physical identity"@,
    ).about(id)
}

/// Checks that the selected device is still behind its endpoint.
pub fn verify_physical_identity(
    fingerprint: &LinkFingerprint,
    id: &ResourceId,
    operation: &'static str,
) -> (result: HalResult<()>)
    ensures
        match result {
            Ok(()) => fingerprint@.physical_identity == id@,
            Err(error) => {
                &&& fingerprint@.physical_identity != id@
                &&& error@ == identity_error(operation@, id@)
            },
        },
{
    if !fingerprint.physical_identity.same(id) {
        return Err(
            HalError::fixed(
                "runtime.resource.not_found",
                ErrorCategory::NotFound,
                operation,
                false,
                "SocketCAN endpoint no longer resolves to the selected physical identity",
            ).with_resource_id(id.copy()),
        );
    }
    Ok(())
}

/// A change of a link.
#[derive(Clone, Copy, Debug, PartialEq, Eq, Structural)]
pub enum LinkAction {
    BringDown,
    BringUp,
    SetMtu(Mtu),
    SetParams(LinkParams),
}

/// Which of the configured control modes a configuration has changed.
#[derive(Clone, Copy, Debug, PartialEq, Eq, Structural)]
pub struct RestoreEvidence {
    pub fd: bool,
    pub listen_only: bool,
    pub loopback: bool,
}

impl RestoreEvidence {
    /// Nothing was changed.
    pub open spec fn nothing() -> RestoreEvidence {
        RestoreEvidence { fd: false, listen_only: false, loopback: false }
    }

    /// Nothing was changed.
    pub fn none() -> (evidence: RestoreEvidence)
        ensures
            evidence == RestoreEvidence::nothing(),
    {
        RestoreEvidence { fd: false, listen_only: false, loopback: false }
    }

    /// Whether anything was changed.
    pub open spec fn changed(self) -> bool {
        self.fd || self.listen_only || self.loopback
    }
}

/// The control modes that a request asks for, in this order: CAN FD, listen-only, loopback.
pub open spec fn requested_modes(request: CanConfigureConfig) -> (bool, bool, bool) {
    (request.mode == CanMode::Fd, request.listen_only, request.loopback)
}

/// The control modes that a request asks for.
pub fn requested_control_modes(request: &CanConfigureConfig) -> (modes: (bool, bool, bool))
    ensures
        modes == requested_modes(*request),
{
    (request.mode == CanMode::Fd, request.listen_only, request.loopback)
}

/// The control modes that a configuration changes.
pub open spec fn changed_modes(before: DetailsView, request: CanConfigureConfig) -> RestoreEvidence {
    let modes = before.can.params.ctrl_mode;
    let requested = requested_modes(request);
    RestoreEvidence {
        fd: link::mode_on(modes, ControlMode::Fd) != requested.0,
        listen_only: link::mode_on(modes, ControlMode::ListenOnly) != requested.1,
        loopback: link::mode_on(modes, ControlMode::Loopback) != requested.2,
    }
}

/// The control modes that a configuration changes.
pub fn restore_evidence_for_configure(
    before: &InterfaceDetails,
    request: &CanConfigureConfig,
) -> (evidence: RestoreEvidence)
    ensures
        evidence == changed_modes(before@, *request),
{
    let modes = match before.can.params.ctrl_mode {
        Some(modes) => modes,
        None => ControlModes::new(),
    };
    proof {
        assert(0x20u32 & 0 == 0 && 0x02u32 & 0 == 0 && 0x01u32 & 0 == 0) by (bit_vector);
    }
    let (fd, listen_only, loopback) = requested_control_modes(request);
    RestoreEvidence {
        fd: modes.has_mode(ControlMode::Fd) != fd,
        listen_only: modes.has_mode(ControlMode::ListenOnly) != listen_only,
        loopback: modes.has_mode(ControlMode::Loopback) != loopback,
    }
}

/// The bit of a mode, or nothing.
pub open spec fn bit_if(set: bool, mode: ControlMode) -> u32 {
    if set {
        mode.bit()
    } else {
        0
    }
}

/// The set of the three configured modes: those in `named`, of which those in `on` are on.
pub open spec fn three_modes(named: (bool, bool, bool), on: (bool, bool, bool)) -> ControlModes {
    ControlModes {
        mask: bit_if(named.0, ControlMode::Fd) | bit_if(named.1, ControlMode::ListenOnly) | bit_if(
            named.2,
            ControlMode::Loopback,
        ),
        flags: bit_if(named.0 && on.0, ControlMode::Fd) | bit_if(
            named.1 && on.1,
            ControlMode::ListenOnly,
        ) | bit_if(named.2 && on.2, ControlMode::Loopback),
    }
}

fn collect_modes(named: (bool, bool, bool), on: (bool, bool, bool)) -> (modes: ControlModes)
    ensures
        modes == three_modes(named, on),
{
    proof {
        let (a, b, c) = (
            bit_if(named.0, ControlMode::Fd),
            bit_if(named.1, ControlMode::ListenOnly),
            bit_if(named.2, ControlMode::Loopback),
        );
        assert(0u32 | a == a && (a | b) | 0 == a | b && (a | b) | c == a | b | c && a | 0 == a)
            by (bit_vector);
        let (a, b, c) = (
            bit_if(named.0 && on.0, ControlMode::Fd),
            bit_if(named.1 && on.1, ControlMode::ListenOnly),
            bit_if(named.2 && on.2, ControlMode::Loopback),
        );
        assert(0u32 | a == a && (a | b) | 0 == a | b && (a | b) | c == a | b | c && a | 0 == a)
            by (bit_vector);
    }
    let mut modes = ControlModes::new();
    if named.0 {
        modes.add(ControlMode::Fd, on.0);
    }
    if named.1 {
        modes.add(ControlMode::ListenOnly, on.1);
    }
    if named.2 {
        modes.add(ControlMode::Loopback, on.2);
    }
    modes
}

/// The parameters that a request gives a link.
pub open spec fn configure_params(request: CanConfigureConfig) -> LinkParams {
    LinkParams {
        bit_timing: Some(link::requested_timing(request.nominal)),
        data_bit_timing: match request.data {
            Some(data) => Some(link::requested_timing(data)),
            None => None,
        },
        ctrl_mode: Some(three_modes((true, true, true), requested_modes(request))),
        restart_ms: Some(link::requested_restart(request)),
        termination: None,
    }
}

/// The size that a request gives a link.
pub open spec fn requested_mtu(request: CanConfigureConfig) -> Mtu {
    if request.mode == CanMode::Fd {
        Mtu::Fd
    } else {
        Mtu::Standard
    }
}

/// The changes that configure a link, in order: a link that is up is taken down for them.
pub open spec fn configure_actions(is_up: bool, request: CanConfigureConfig) -> Seq<LinkAction> {
    let changes = seq![
        LinkAction::SetParams(configure_params(request)),
        LinkAction::SetMtu(requested_mtu(request)),
    ];
    if is_up {
        seq![LinkAction::BringDown] + changes + seq![LinkAction::BringUp]
    } else {
        changes
    }
}

/// The changes that configure a link, in order.
pub fn configure_plan(before: &InterfaceDetails, request: &CanConfigureConfig) -> (plan: Vec<
    LinkAction,
>)
    ensures
        plan@ == configure_actions(before@.is_up, *request),
{
    let (fd, listen_only, loopback) = requested_control_modes(request);
    let params = LinkParams {
        bit_timing: Some(to_socketcan_timing(&request.nominal)),
        data_bit_timing: match &request.data {
            Some(data) => Some(to_socketcan_timing(data)),
            None => None,
        },
        ctrl_mode: Some(collect_modes((true, true, true), (fd, listen_only, loopback))),
        restart_ms: Some(
            match request.restart_ms {
                Some(delay) => delay,
                None => 0,
            },
        ),
        termination: None,
    };
    let mtu = if request.mode == CanMode::Fd {
        Mtu::Fd
    } else {
        Mtu::Standard
    };
    let mut plan: Vec<LinkAction> = Vec::new();
    if before.is_up {
        plan.push(LinkAction::BringDown);
    }
    plan.push(LinkAction::SetParams(params));
    plan.push(LinkAction::SetMtu(mtu));
    if before.is_up {
        plan.push(LinkAction::BringUp);
    }
    proof {
        assert(plan@ =~= configure_actions(before@.is_up, *request));
    }
    plan
}

/// The parameters that give a link back what a configuration has changed.
pub open spec fn restored_params(before: DetailsView, evidence: RestoreEvidence) -> LinkParams {
    let modes = before.can.params.ctrl_mode;
    LinkParams {
        bit_timing: before.can.params.bit_timing,
        data_bit_timing: before.can.params.data_bit_timing,
        ctrl_mode: if evidence.changed() {
            Some(
                three_modes(
                    (evidence.fd, evidence.listen_only, evidence.loopback),
                    (
                        link::mode_on(modes, ControlMode::Fd),
                        link::mode_on(modes, ControlMode::ListenOnly),
                        link::mode_on(modes, ControlMode::Loopback),
                    ),
                ),
            )
        } else {
            None
        },
        restart_ms: before.can.params.restart_ms,
        termination: before.can.params.termination,
    }
}

/// The parameters that give a link back what a configuration has changed. Control modes are named
/// only where the configuration has changed them.
pub fn restore_params(details: &InterfaceDetails, evidence: RestoreEvidence) -> (params: LinkParams)
    ensures
        params == restored_params(details@, evidence),
{
    let before = details.can.params;
    let ctrl_mode = if evidence.fd || evidence.listen_only || evidence.loopback {
        let modes = match before.ctrl_mode {
            Some(modes) => modes,
            None => ControlModes::new(),
        };
        proof {
            assert(0x20u32 & 0 == 0 && 0x02u32 & 0 == 0 && 0x01u32 & 0 == 0) by (bit_vector);
        }
        Some(
            collect_modes(
                (evidence.fd, evidence.listen_only, evidence.loopback),
                (
                    modes.has_mode(ControlMode::Fd),
                    modes.has_mode(ControlMode::ListenOnly),
                    modes.has_mode(ControlMode::Loopback),
                ),
            ),
        )
    } else {
        None
    };
    LinkParams {
        bit_timing: before.bit_timing,
        data_bit_timing: before.data_bit_timing,
        ctrl_mode,
        restart_ms: before.restart_ms,
        termination: before.termination,
    }
}

/// The changes that give a link back, in order.
pub open spec fn restore_actions(before: DetailsView, evidence: RestoreEvidence) -> Seq<LinkAction> {
    let down = seq![LinkAction::BringDown];
    let sized = match before.mtu {
        Some(mtu) => down.push(LinkAction::SetMtu(mtu)),
        None => down,
    };
    let set = sized.push(LinkAction::SetParams(restored_params(before, evidence)));
    if before.is_up {
        set.push(LinkAction::BringUp)
    } else {
        set
    }
}

/// How a link was before a configuration.
pub struct LinkSnapshot {
    details: InterfaceDetails,
    fingerprint: LinkFingerprint,
    restore_evidence: RestoreEvidence,
}

/// The mathematical content of a [`LinkSnapshot`].
#[verifier::ext_equal]
pub struct SnapshotView {
    pub details: DetailsView,
    pub fingerprint: FingerprintView,
    pub restore_evidence: RestoreEvidence,
}

impl View for LinkSnapshot {
    type V = SnapshotView;

    closed spec fn view(&self) -> SnapshotView {
        SnapshotView {
            details: self.details@,
            fingerprint: self.fingerprint@,
            restore_evidence: self.restore_evidence,
        }
    }
}

/// The position of the change of parameters among the changes that configure a link.
pub open spec fn params_position(is_up: bool) -> int {
    if is_up {
        1
    } else {
        0
    }
}

/// How far a configuration got: the number of changes that were made, and the failure of the next
/// one where it failed.
pub struct ConfigureProgress {
    pub performed: usize,
    pub failure: Option<NetlinkFault>,
}

impl LinkSnapshot {
    /// The snapshot of a link that was observed before a configuration, if the selected device is
    /// behind it.
    pub fn take(observed: ObservedInterface, id: &ResourceId) -> (result: HalResult<LinkSnapshot>)
        ensures
            match observed_fingerprint(
                observed.details@,
                observed.metadata@,
                "can.configure"@,
            ) {
                Err(error) => result is Err && result->Err_0@ == error.about(id@),
                Ok(found) => if found.physical_identity != id@ {
                    result is Err && result->Err_0@ == identity_error("can.configure"@, id@)
                } else {
                    &&& result is Ok
                    &&& result->Ok_0@ == (SnapshotView {
                        details: observed.details@,
                        fingerprint: found,
                        restore_evidence: RestoreEvidence::nothing(),
                    })
                },
            },
    {
        let found = fingerprint(&observed, "can.configure", id)?;
        verify_physical_identity(&found, id, "can.configure")?;
        Ok(
            LinkSnapshot {
                details: observed.details,
                fingerprint: found,
                restore_evidence: RestoreEvidence::none(),
            },
        )
    }

    /// The details of the link.
    pub fn details(&self) -> (details: &InterfaceDetails)
        ensures
            details@ == self@.details,
    {
        &self.details
    }

    /// The changes that give the link back, in order.
    pub fn restore_plan(&self) -> (plan: Vec<LinkAction>)
        ensures
            plan@ == restore_actions(self@.details, self@.restore_evidence),
    {
        let mut plan: Vec<LinkAction> = Vec::new();
        plan.push(LinkAction::BringDown);
        if let Some(mtu) = self.details.mtu {
            plan.push(LinkAction::SetMtu(mtu));
        }
        plan.push(LinkAction::SetParams(restore_params(&self.details, self.restore_evidence)));
        if self.details.is_up {
            plan.push(LinkAction::BringUp);
        }
        proof {
            assert(plan@ =~= restore_actions(self@.details, self@.restore_evidence));
        }
        plan
    }

    /// Takes how far a configuration got. Control modes have to be given back where the parameters
    /// were changed. A configuration that failed has to be rolled back where it changed anything.
    pub fn configured(
        &mut self,
        request: &CanConfigureConfig,
        progress: &ConfigureProgress,
        id: &ResourceId,
    ) -> (result: Result<(), ConfigureFailure>)
        ensures
            final(self)@ == (SnapshotView {
                restore_evidence: if progress.failure is None || progress.performed
                    > params_position(old(self)@.details.is_up) {
                    changed_modes(old(self)@.details, *request)
                } else {
                    old(self)@.restore_evidence
                },
                ..old(self)@
            }),
            match progress.failure {
                None => result is Ok,
                Some(failure) => {
                    &&& result is Err
                    &&& result->Err_0.error@ == fault::netlink_error(
                        "can.configure"@,
                        failure@,
                    ).about(id@)
                    &&& result->Err_0.rollback_required == (progress.performed > 0)
                },
            },
    {
        let params_position: usize = if self.details.is_up {
            1
        } else {
            0
        };
        if progress.failure.is_none() || progress.performed > params_position {
            self.restore_evidence = restore_evidence_for_configure(&self.details, request);
        }
        match &progress.failure {
            None => Ok(()),
            Some(failure) => Err(
                ConfigureFailure {
                    error: map_netlink_error("can.configure", failure, id),
                    rollback_required: progress.performed > 0,
                },
            ),
        }
    }

    /// How giving the link back ended: `changes` says how the changes ended, and `restored` what
    /// was observed after them.
    pub fn restored(
        &self,
        changes: Result<(), NetlinkFault>,
        restored: Result<ObservedInterface, NetlinkFault>,
        id: &ResourceId,
    ) -> (result: HalResult<()>)
        ensures
            error::outcome(result) == restore_outcome(
                self@.fingerprint,
                change_outcome(changes),
                observation(restored),
                id@,
            ),
    {
        if let Err(failure) = changes {
            return Err(map_netlink_error("can.close", &failure, id));
        }
        let observed = match restored {
            Ok(observed) => observed,
            Err(failure) => {
                return Err(map_netlink_error("can.close", &failure, id));
            },
        };
        let found = fingerprint(&observed, "can.close", id)?;
        if !found.same(&self.fingerprint) {
            return Err(
                HalError::fixed(
                    "can.configuration.rollback_failed",
                    ErrorCategory::Internal,
                    "can.close",
                    true,
                    "SocketCAN link did not match its snapshot after restore",
                ).with_resource_id(id.copy()),
            );
        }
        Ok(())
    }
}

/// A configuration that failed.
pub struct ConfigureFailure {
    pub error: HalError,
    pub rollback_required: bool,
}

/// How a list of changes ended.
pub open spec fn change_outcome(changes: Result<(), NetlinkFault>) -> Result<(), NetlinkFaultView> {
    match changes {
        Ok(()) => Ok(()),
        Err(failure) => Err(failure@),
    }
}

/// What was observed.
pub open spec fn observation(observed: Result<ObservedInterface, NetlinkFault>) -> Result<
    (DetailsView, MetadataView),
    NetlinkFaultView,
> {
    match observed {
        Ok(observed) => Ok((observed.details@, observed.metadata@)),
        Err(failure) => Err(failure@),
    }
}

/// The fingerprint of what was observed, or the error about a resource.
pub open spec fn observed_or_error(
    observed: Result<(DetailsView, MetadataView), NetlinkFaultView>,
    operation: Seq<char>,
    id: Seq<char>,
) -> Result<FingerprintView, HalErrorView> {
    match observed {
        Err(failure) => Err(fault::netlink_error(operation, failure).about(id)),
        Ok((details, metadata)) => error::scoped(
            observed_fingerprint(details, metadata, operation),
            id,
        ),
    }
}

/// The error of a link that is not as it was after it was given back.
pub open spec fn restore_mismatch(id: Seq<char>) -> HalErrorView {
    HalErrorView::new(
        "can.configuration.rollback_failed"@,
        ErrorCategory::Internal,
        "can.close"@,
        true,
        "SocketCAN link did not match its snapshot after restore"@,
    ).about(id)
}

/// How giving a link back ended.
pub open spec fn restore_outcome(
    snapshot: FingerprintView,
    changes: Result<(), NetlinkFaultView>,
    restored: Result<(DetailsView, MetadataView), NetlinkFaultView>,
    id: Seq<char>,
) -> Result<(), HalErrorView> {
    match changes {
        Err(failure) => Err(fault::netlink_error("can.close"@, failure).about(id)),
        Ok(()) => match observed_or_error(restored, "can.close"@, id) {
            Err(error) => Err(error),
            Ok(found) => if found != snapshot {
                Err(restore_mismatch(id))
            } else {
                Ok(())
            },
        },
    }
}

/// The error of a failure after which the link could not be given back either.
pub open spec fn rollback_error(
    primary: HalErrorView,
    rollback: HalErrorView,
    id: Seq<char>,
) -> HalErrorView {
    HalErrorView {
        context: seq![("primary_error"@, primary.name), ("rollback_error"@, rollback.name)],
        ..HalErrorView::new(
            "can.configuration.rollback_failed"@,
            ErrorCategory::Internal,
            primary.operation,
            true,
            "SocketCAN rollback failed after "@ + primary.name + ": "@ + rollback.name,
        ).about(id)
    }
}

/// The error of a failure after which the link could not be given back either.
pub fn rollback_failure(primary: &HalError, rollback: &HalError, id: &ResourceId) -> (error: HalError)
    ensures
        error@ == rollback_error(primary@, rollback@, id@),
{
    let mut message = "SocketCAN rollback failed after ".to_owned();
    message.append(primary.name());
    message.append(": ");
    message.append(rollback.name());
    let error = HalError::new(
        "can.configuration.rollback_failed",
        ErrorCategory::Internal,
        primary.operation(),
        true,
        message,
    ).with_context("primary_error", primary.name()).with_context(
        "rollback_error",
        rollback.name(),
    ).with_resource_id(id.copy());
    proof {
        assert(error@ =~= rollback_error(primary@, rollback@, id@));
    }
    error
}

/// The error of a failure, given how rolling back ended.
pub fn rollback_after_failure(
    primary: HalError,
    rollback: HalResult<()>,
    id: &ResourceId,
) -> (error: HalError)
    ensures
        error@ == match rollback {
            Ok(()) => primary@,
            Err(failure) => rollback_error(primary@, failure@, id@),
        },
{
    match rollback {
        Ok(()) => primary,
        Err(failure) => rollback_failure(&primary, &failure, id),
    }
}

/// A link that a session holds.
pub struct LinkLease {
    id: ResourceId,
    snapshot: Option<LinkSnapshot>,
    applied: Option<LinkFingerprint>,
    active: CanActiveConfig,
}

/// The mathematical content of a [`LinkLease`].
#[verifier::ext_equal]
pub struct LeaseView {
    pub id: Seq<char>,
    pub snapshot: Option<SnapshotView>,
    pub applied: Option<FingerprintView>,
    pub active: CanActiveConfig,
}

impl View for LinkLease {
    type V = LeaseView;

    closed spec fn view(&self) -> LeaseView {
        LeaseView {
            id: self.id@,
            snapshot: match self.snapshot {
                Some(snapshot) => Some(snapshot@),
                None => None,
            },
            applied: match self.applied {
                Some(applied) => Some(applied@),
                None => None,
            },
            active: self.active,
        }
    }
}

/// How attaching to an observed link ends.
pub open spec fn attach_outcome(
    observed: Result<(DetailsView, MetadataView), NetlinkFaultView>,
    expectation: CanLinkExpectation,
    id: Seq<char>,
) -> Result<LeaseView, HalErrorView> {
    match observed_or_error(observed, "can.open"@, id) {
        Err(error) => Err(error),
        Ok(found) => if found.physical_identity != id {
            Err(identity_error("can.open"@, id))
        } else {
            match error::scoped(link::active_of(observed->Ok_0.0, "can.open"@), id) {
                Err(error) => Err(error),
                Ok(active) => if link::unexpected(expectation, active) {
                    Err(link::expectation_error(id))
                } else {
                    Ok(LeaseView { id, snapshot: None, applied: None, active })
                },
            }
        },
    }
}

/// How verifying a configured link ends.
pub open spec fn verify_outcome(
    observed: Result<(DetailsView, MetadataView), NetlinkFaultView>,
    request: CanConfigureConfig,
    id: Seq<char>,
) -> Result<(CanActiveConfig, FingerprintView), HalErrorView> {
    match observed {
        Err(failure) => Err(fault::netlink_error("can.configure"@, failure).about(id)),
        Ok((details, metadata)) => match error::scoped(
            link::active_of(details, "can.configure"@),
            id,
        ) {
            Err(error) => Err(error),
            Ok(active) => if !link::configured_as_requested(request, details, active) {
                Err(link::configuration_mismatch(id))
            } else {
                match error::scoped(
                    observed_fingerprint(details, metadata, "can.configure"@),
                    id,
                ) {
                    Err(error) => Err(error),
                    Ok(applied) => if applied.physical_identity != id {
                        Err(identity_error("can.configure"@, id))
                    } else {
                        Ok((active, applied))
                    },
                }
            },
        },
    }
}

/// A configuration that was applied and has been verified.
pub struct VerifiedLink {
    pub active: CanActiveConfig,
    pub applied: LinkFingerprint,
}

/// Verifies a link after a configuration. A failure has to be rolled back.
pub fn verify_configured(
    observed: Result<ObservedInterface, NetlinkFault>,
    request: &CanConfigureConfig,
    id: &ResourceId,
) -> (result: HalResult<VerifiedLink>)
    ensures
        match result {
            Ok(verified) => verify_outcome(observation(observed), *request, id@) == Ok::<
                (CanActiveConfig, FingerprintView),
                HalErrorView,
            >((verified.active, verified.applied@)),
            Err(error) => verify_outcome(observation(observed), *request, id@) == Err::<
                (CanActiveConfig, FingerprintView),
                HalErrorView,
            >(error@),
        },
{
    let observed = match observed {
        Ok(observed) => observed,
        Err(failure) => {
            return Err(map_netlink_error("can.configure", &failure, id));
        },
    };
    let active = active_config(&observed.details, id, "can.configure")?;
    verify_config(request, &observed.details, &active, id)?;
    let applied = fingerprint(&observed, "can.configure", id)?;
    verify_physical_identity(&applied, id, "can.configure")?;
    Ok(VerifiedLink { active, applied })
}

/// What a session that ends has to do with its link.
pub enum CloseStep {
    /// The link was not changed.
    Nothing,
    /// The changes that give the link back, in order.
    Restore(Vec<LinkAction>),
}

/// The error of a link that somebody else has changed.
pub open spec fn conflict_error(id: Seq<char>) -> HalErrorView {
    HalErrorView::new(
        "can.configuration.conflict"@,
        ErrorCategory::Conflict,
        "can.close"@,
        false,
        "SocketCAN link changed externally; refusing to overwrite current state"@,
    ).about(id)
}

impl LeaseView {
    /// What has to be done to give the link back, given what is observed now: nothing where it was
    /// not changed, and else the changes in order. A link that somebody else has changed since is
    /// not overwritten.
    pub open spec fn close_plan(
        self,
        observed: Result<(DetailsView, MetadataView), NetlinkFaultView>,
    ) -> Result<Option<Seq<LinkAction>>, HalErrorView> {
        match self.snapshot {
            None => Ok(None),
            Some(snapshot) => match observed_or_error(observed, "can.close"@, self.id) {
                Err(error) => Err(error),
                Ok(current) => if self.applied is Some && self.applied->0 != current {
                    Err(conflict_error(self.id))
                } else {
                    Ok(Some(restore_actions(snapshot.details, snapshot.restore_evidence)))
                },
            },
        }
    }

    /// How closing ends, given how the changes ended and what was observed after them.
    pub open spec fn close_outcome(
        self,
        changes: Result<(), NetlinkFaultView>,
        restored: Result<(DetailsView, MetadataView), NetlinkFaultView>,
    ) -> Result<(), HalErrorView> {
        match self.snapshot {
            None => Ok(()),
            Some(snapshot) => restore_outcome(snapshot.fingerprint, changes, restored, self.id),
        }
    }

    /// The lease once the link was given back.
    pub open spec fn released(self) -> LeaseView {
        LeaseView { snapshot: None, applied: None, ..self }
    }
}

/// What is to be done with a link.
pub open spec fn planned(result: HalResult<CloseStep>) -> Result<
    Option<Seq<LinkAction>>,
    HalErrorView,
> {
    match result {
        Ok(CloseStep::Nothing) => Ok(None),
        Ok(CloseStep::Restore(plan)) => Ok(Some(plan@)),
        Err(error) => Err(error@),
    }
}

impl LinkLease {
    /// Attaches to an observed link without changing it.
    pub fn attach(
        observed: Result<ObservedInterface, NetlinkFault>,
        expectation: &CanLinkExpectation,
        id: &ResourceId,
    ) -> (result: HalResult<LinkLease>)
        ensures
            match result {
                Ok(lease) => attach_outcome(observation(observed), *expectation, id@) == Ok::<
                    LeaseView,
                    HalErrorView,
                >(lease@),
                Err(error) => attach_outcome(observation(observed), *expectation, id@) == Err::<
                    LeaseView,
                    HalErrorView,
                >(error@),
            },
            result matches Ok(lease) ==> {
                let active = lease@.active;
                &&& lease@.id == id@
                &&& lease@.snapshot is None
                &&& lease@.applied is None
                &&& expectation.mode matches Some(mode) ==> active.mode == mode
                &&& expectation.nominal_bitrate matches Some(bitrate) ==> active.nominal.bitrate
                    == bitrate
                &&& expectation.data_bitrate matches Some(bitrate) ==> active.data is Some
                    && active.data->0.bitrate == bitrate
                &&& expectation.listen_only matches Some(value) ==> active.listen_only == value
                &&& expectation.loopback matches Some(value) ==> active.loopback == value
            },
            observed matches Ok(found) ==> {
                let reported = link::active_of(found.details@, "can.open"@);
                &&& found.details@.name is Some
                &&& identity::identity_of(found.metadata@).0 == id@
                &&& reported is Ok
                &&& expectation.mode is None || expectation.mode->0 == reported->Ok_0.mode
                &&& expectation.nominal_bitrate is None || expectation.nominal_bitrate->0
                    == reported->Ok_0.nominal.bitrate
                &&& expectation.data_bitrate is None || (reported->Ok_0.data is Some
                    && expectation.data_bitrate->0 == reported->Ok_0.data->0.bitrate)
                &&& expectation.listen_only is None || expectation.listen_only->0
                    == reported->Ok_0.listen_only
                &&& expectation.loopback is None || expectation.loopback->0
                    == reported->Ok_0.loopback
            } ==> result is Ok && result->Ok_0@.active == link::active_of(
                observed->Ok_0.details@,
                "can.open"@,
            )->Ok_0,
    {
        let observed = match observed {
            Ok(observed) => observed,
            Err(failure) => {
                return Err(map_netlink_error("can.open", &failure, id));
            },
        };
        let current = fingerprint(&observed, "can.open", id)?;
        verify_physical_identity(&current, id, "can.open")?;
        let active = active_config(&observed.details, id, "can.open")?;
        verify_expectation(expectation, &active, id)?;
        Ok(LinkLease { id: id.copy(), snapshot: None, applied: None, active })
    }

    /// Holds a link that was configured and verified.
    pub fn configured(
        snapshot: LinkSnapshot,
        verified: VerifiedLink,
        id: &ResourceId,
    ) -> (lease: LinkLease)
        ensures
            lease@ == (LeaseView {
                id: id@,
                snapshot: Some(snapshot@),
                applied: Some(verified.applied@),
                active: verified.active,
            }),
    {
        LinkLease {
            id: id.copy(),
            snapshot: Some(snapshot),
            applied: Some(verified.applied),
            active: verified.active,
        }
    }

    /// The configuration of the link.
    pub fn active(&self) -> (active: &CanActiveConfig)
        ensures
            *active == self@.active,
    {
        &self.active
    }

    /// Whether the link has to be given back.
    pub fn holds_changes(&self) -> (holds: bool)
        ensures
            holds == self@.snapshot is Some,
    {
        self.snapshot.is_some()
    }

    /// What has to be done to give the link back, given what is observed now. A link that somebody
    /// else has changed since is not overwritten.
    pub fn close_plan(&self, observed: Result<ObservedInterface, NetlinkFault>) -> (result: HalResult<
        CloseStep,
    >)
        ensures
            planned(result) == self@.close_plan(observation(observed)),
    {
        match &self.snapshot {
            None => Ok(CloseStep::Nothing),
            Some(snapshot) => {
                let observed = match observed {
                    Ok(observed) => observed,
                    Err(failure) => {
                        return Err(map_netlink_error("can.close", &failure, &self.id));
                    },
                };
                let current = fingerprint(&observed, "can.close", &self.id)?;
                let changed = match &self.applied {
                    Some(applied) => !current.same(applied),
                    None => false,
                };
                if changed {
                    return Err(
                        HalError::fixed(
                            "can.configuration.conflict",
                            ErrorCategory::Conflict,
                            "can.close",
                            false,
                            "SocketCAN link changed externally; refusing to overwrite current state",
                        ).with_resource_id(self.id.copy()),
                    );
                }
                Ok(CloseStep::Restore(snapshot.restore_plan()))
            },
        }
    }

    /// Takes how giving the link back ended. The link is released where it is as it was, and stays
    /// held where it is not.
    pub fn close(
        &mut self,
        changes: Result<(), NetlinkFault>,
        restored: Result<ObservedInterface, NetlinkFault>,
    ) -> (result: HalResult<()>)
        ensures
            error::outcome(result) == old(self)@.close_outcome(
                change_outcome(changes),
                observation(restored),
            ),
            final(self)@ == if old(self)@.snapshot is Some && result is Ok {
                old(self)@.released()
            } else {
                old(self)@
            },
    {
        let result = match &self.snapshot {
            None => {
                return Ok(());
            },
            Some(snapshot) => snapshot.restored(changes, restored, &self.id),
        };
        if result.is_ok() {
            self.snapshot = None;
            self.applied = None;
        }
        result
    }
}

/// The status of the bus of an observed interface.
pub open spec fn bus_status_outcome(
    observed: Result<(DetailsView, MetadataView), NetlinkFaultView>,
    id: Seq<char>,
) -> Result<CanBusStatus, HalErrorView> {
    match observed_or_error(observed, "can.status"@, id) {
        Err(error) => Err(error),
        Ok(current) => if current.physical_identity != id {
            Err(identity_error("can.status"@, id))
        } else {
            Ok(link::status_of(observed->Ok_0.0))
        },
    }
}

/// The status of the bus of an observed interface, if the selected device is behind it.
pub fn bus_status(observed: Result<ObservedInterface, NetlinkFault>, id: &ResourceId) -> (result: HalResult<
    CanBusStatus,
>)
    ensures
        error::outcome(result) == bus_status_outcome(observation(observed), id@),
{
    let observed = match observed {
        Ok(observed) => observed,
        Err(failure) => {
            return Err(map_netlink_error("can.status", &failure, id));
        },
    };
    let current = fingerprint(&observed, "can.status", id)?;
    verify_physical_identity(&current, id, "can.status")?;
    Ok(reported_status(&observed.details))
}

/// Attaching gives a lease only on a link that is what the caller expects of it, in each of the five
/// values that the caller names, and behind which the selected device is. Such a lease changes
/// nothing, so there is nothing to give back.
pub proof fn law_attached_link_meets_the_expectation(
    observed: Result<(DetailsView, MetadataView), NetlinkFaultView>,
    expectation: CanLinkExpectation,
    id: Seq<char>,
)
    ensures
        attach_outcome(observed, expectation, id) matches Ok(lease) ==> {
            &&& expectation.mode is Some ==> lease.active.mode == expectation.mode->0
            &&& expectation.nominal_bitrate is Some ==> lease.active.nominal.bitrate
                == expectation.nominal_bitrate->0
            &&& expectation.data_bitrate is Some ==> lease.active.data is Some
                && lease.active.data->0.bitrate == expectation.data_bitrate->0
            &&& expectation.listen_only is Some ==> lease.active.listen_only
                == expectation.listen_only->0
            &&& expectation.loopback is Some ==> lease.active.loopback == expectation.loopback->0
            &&& observed is Ok
            &&& observed->Ok_0.0.can.params.bit_timing is Some
            &&& lease.active.nominal.bitrate
                == observed->Ok_0.0.can.params.bit_timing->0.bitrate
            &&& identity::identity_of(observed->Ok_0.1).0 == id
            &&& lease.id == id
            &&& lease.snapshot is None
            &&& lease.applied is None
        },
{
    if let Ok(found) = observed {
        link::law_active_configuration_is_what_is_reported(found.0, "can.open"@);
    }
}

/// A caller that expects nothing of a link is refused only where the link cannot be observed, has no
/// name, is another device, or does not report what is active.
pub proof fn law_link_without_expectations_is_attached(
    details: DetailsView,
    metadata: MetadataView,
    expectation: CanLinkExpectation,
    id: Seq<char>,
)
    requires
        details.name is Some,
        identity::identity_of(metadata).0 == id,
        link::active_of(details, "can.open"@) is Ok,
        expectation.mode is None,
        expectation.nominal_bitrate is None,
        expectation.data_bitrate is None,
        expectation.listen_only is None,
        expectation.loopback is None,
    ensures
        attach_outcome(Ok((details, metadata)), expectation, id) is Ok,
{
}

/// A configured link is verified only where it shows what was asked for: the mode, the bit rates, the
/// sample points and the jump widths that were named, listen-only, loopback and the delay before a
/// restart. The selected device is behind it.
pub proof fn law_verified_link_meets_the_request(
    observed: Result<(DetailsView, MetadataView), NetlinkFaultView>,
    request: CanConfigureConfig,
    id: Seq<char>,
)
    ensures
        verify_outcome(observed, request, id) matches Ok((active, applied)) ==> {
            let params = observed->Ok_0.0.can.params;
            &&& observed is Ok
            &&& active.mode == request.mode
            &&& active.nominal.bitrate == request.nominal.bitrate
            &&& request.nominal.sample_point_permill is Some ==> request.nominal.sample_point_permill->0
                == params.bit_timing->0.sample_point
            &&& request.nominal.sjw is Some ==> request.nominal.sjw->0 == params.bit_timing->0.sjw
            &&& request.data is Some <==> params.data_bit_timing is Some
            &&& request.data is Some ==> {
                let wanted = request.data->0;
                let reported = params.data_bit_timing->0;
                &&& reported.bitrate == wanted.bitrate
                &&& wanted.sample_point_permill is Some ==> reported.sample_point
                    == wanted.sample_point_permill->0
                &&& wanted.sjw is Some ==> reported.sjw == wanted.sjw->0
            }
            &&& request.mode == CanMode::Fd ==> active.data is Some && request.data is Some
                && active.data->0.bitrate == request.data->0.bitrate
            &&& active.listen_only == request.listen_only
            &&& active.loopback == request.loopback
            &&& request.restart_ms is Some ==> params.restart_ms == request.restart_ms
            &&& request.restart_ms is None ==> params.restart_ms == Some(0u32)
            &&& applied.physical_identity == id
            &&& identity::identity_of(observed->Ok_0.1).0 == id
        },
{
    if let Ok(found) = observed {
        link::law_active_configuration_is_what_is_reported(found.0, "can.configure"@);
    }
}

/// A link that shows what was asked for is verified.
pub proof fn law_link_as_requested_is_verified(
    details: DetailsView,
    metadata: MetadataView,
    request: CanConfigureConfig,
    id: Seq<char>,
)
    requires
        details.name is Some,
        identity::identity_of(metadata).0 == id,
        link::active_of(details, "can.configure"@) is Ok,
        link::active_of(details, "can.configure"@)->Ok_0.mode == request.mode,
        link::active_of(details, "can.configure"@)->Ok_0.listen_only == request.listen_only,
        link::active_of(details, "can.configure"@)->Ok_0.loopback == request.loopback,
        details.can.params.bit_timing == Some(link::requested_timing(request.nominal)),
        request.nominal.sample_point_permill is Some,
        request.nominal.sjw is Some,
        request.data is None,
        details.can.params.data_bit_timing is None,
        details.can.params.restart_ms == request.restart_ms,
        request.restart_ms is Some,
    ensures
        verify_outcome(Ok((details, metadata)), request, id) is Ok,
{
    link::law_active_configuration_is_what_is_reported(details, "can.configure"@);
}

/// Configuring a link asks for the requested bit rates and restart delay, and names the three control
/// modes: each is on exactly where it was requested. The size of the frames goes with CAN FD.
pub proof fn law_configuration_asks_for_the_request(is_up: bool, request: CanConfigureConfig)
    ensures
        ({
            let params = configure_params(request);
            let modes = params.ctrl_mode->0;
            &&& params.bit_timing is Some
            &&& params.bit_timing->0.bitrate == request.nominal.bitrate
            &&& params.data_bit_timing is Some <==> request.data is Some
            &&& request.data is Some ==> params.data_bit_timing->0.bitrate
                == request.data->0.bitrate
            &&& params.ctrl_mode is Some
            &&& modes.mask == 0x23
            &&& modes.flags & 0x20 != 0 <==> request.mode == CanMode::Fd
            &&& modes.flags & 0x02 != 0 <==> request.listen_only
            &&& modes.flags & 0x01 != 0 <==> request.loopback
            &&& params.restart_ms == Some(
                if request.restart_ms is Some {
                    request.restart_ms->0
                } else {
                    0u32
                },
            )
            &&& params.termination is None
            &&& requested_mtu(request) == Mtu::Fd <==> request.mode == CanMode::Fd
        }),
        ({
            let actions = configure_actions(is_up, request);
            &&& is_up ==> actions.len() == 4 && actions[0] == LinkAction::BringDown && actions[3]
                == LinkAction::BringUp
            &&& !is_up ==> actions.len() == 2
            &&& actions[if is_up {
                1
            } else {
                0
            }] == LinkAction::SetParams(configure_params(request))
            &&& actions[if is_up {
                2
            } else {
                1
            }] == LinkAction::SetMtu(requested_mtu(request))
        }),
{
    let fd = if request.mode == CanMode::Fd {
        0x20u32
    } else {
        0
    };
    let listen_only = if request.listen_only {
        0x02u32
    } else {
        0
    };
    let loopback = if request.loopback {
        0x01u32
    } else {
        0
    };
    assert(0x20u32 | 0x02 | 0x01 == 0x23 && ((fd | listen_only | loopback) & 0x20 != 0) == (fd
        == 0x20) && ((fd | listen_only | loopback) & 0x02 != 0) == (listen_only == 0x02) && ((fd
        | listen_only | loopback) & 0x01 != 0) == (loopback == 0x01)) by (bit_vector)
        requires
            fd == 0x20 || fd == 0,
            listen_only == 0x02 || listen_only == 0,
            loopback == 0x01 || loopback == 0,
    ;
}

/// A link that was not changed has nothing to be given back, and closing it succeeds.
pub proof fn law_unchanged_link_is_left_alone(
    lease: LeaseView,
    observed: Result<(DetailsView, MetadataView), NetlinkFaultView>,
    changes: Result<(), NetlinkFaultView>,
    restored: Result<(DetailsView, MetadataView), NetlinkFaultView>,
)
    requires
        lease.snapshot is None,
    ensures
        lease.close_plan(observed) == Ok::<Option<Seq<LinkAction>>, HalErrorView>(None),
        lease.close_outcome(changes, restored) is Ok,
{
}

/// A changed link is given back exactly where it is still as this session left it: one that somebody
/// else has changed since is not overwritten.
pub proof fn law_foreign_changes_are_not_overwritten(
    lease: LeaseView,
    details: DetailsView,
    metadata: MetadataView,
)
    requires
        lease.snapshot is Some,
        lease.applied is Some,
        details.name is Some,
    ensures
        ({
            let current = fingerprint_of(details, identity::identity_of(metadata).0);
            let plan = lease.close_plan(Ok((details, metadata)));
            &&& plan is Ok <==> current == lease.applied->0
            &&& plan is Ok ==> plan->Ok_0 is Some
            &&& plan is Err ==> plan->Err_0.category == ErrorCategory::Conflict
                && plan->Err_0.resource_id == Some(lease.id)
        }),
{
}

/// Closing a changed link succeeds exactly where every change that gives it back was made and the
/// link is then observed to be as it was.
pub proof fn law_closed_link_is_as_it_was(
    lease: LeaseView,
    changes: Result<(), NetlinkFaultView>,
    restored: Result<(DetailsView, MetadataView), NetlinkFaultView>,
)
    requires
        lease.snapshot is Some,
    ensures
        lease.close_outcome(changes, restored) is Ok <==> {
            &&& changes is Ok
            &&& restored is Ok
            &&& restored->Ok_0.0.name is Some
            &&& fingerprint_of(restored->Ok_0.0, identity::identity_of(restored->Ok_0.1).0)
                == lease.snapshot->0.fingerprint
        },
{
}

/// Giving a link back takes it down, restores its size where it is known and its parameters, and
/// takes it up again where it was up. The timings, the restart delay and the termination are those of
/// the snapshot, and only the control modes that were changed are named, each as it was.
pub proof fn law_link_is_given_back_as_it_was(before: DetailsView, evidence: RestoreEvidence)
    ensures
        ({
            let params = restored_params(before, evidence);
            let old_flags = match before.can.params.ctrl_mode {
                Some(modes) => modes.flags,
                None => 0,
            };
            let modes = params.ctrl_mode->0;
            &&& params.bit_timing == before.can.params.bit_timing
            &&& params.data_bit_timing == before.can.params.data_bit_timing
            &&& params.restart_ms == before.can.params.restart_ms
            &&& params.termination == before.can.params.termination
            &&& params.ctrl_mode is Some <==> evidence.fd || evidence.listen_only
                || evidence.loopback
            &&& params.ctrl_mode is Some ==> {
                &&& modes.mask & 0x20 != 0 <==> evidence.fd
                &&& modes.mask & 0x02 != 0 <==> evidence.listen_only
                &&& modes.mask & 0x01 != 0 <==> evidence.loopback
                &&& evidence.fd ==> (modes.flags & 0x20 != 0 <==> before.can.params.ctrl_mode
                    is Some && 0x20u32 & old_flags != 0)
                &&& evidence.listen_only ==> (modes.flags & 0x02 != 0
                    <==> before.can.params.ctrl_mode is Some && 0x02u32 & old_flags != 0)
                &&& evidence.loopback ==> (modes.flags & 0x01 != 0
                    <==> before.can.params.ctrl_mode is Some && 0x01u32 & old_flags != 0)
            }
        }),
        ({
            let actions = restore_actions(before, evidence);
            let sized = if before.mtu is Some {
                1int
            } else {
                0
            };
            &&& actions.len() == 2 + sized + (if before.is_up {
                1int
            } else {
                0
            })
            &&& actions[0] == LinkAction::BringDown
            &&& before.mtu is Some ==> actions[1] == LinkAction::SetMtu(before.mtu->0)
            &&& actions[1 + sized] == LinkAction::SetParams(restored_params(before, evidence))
            &&& before.is_up ==> actions.last() == LinkAction::BringUp
        }),
{
    let modes = before.can.params.ctrl_mode;
    let fd = bit_if(evidence.fd, ControlMode::Fd);
    let listen_only = bit_if(evidence.listen_only, ControlMode::ListenOnly);
    let loopback = bit_if(evidence.loopback, ControlMode::Loopback);
    let fd_on = bit_if(evidence.fd && link::mode_on(modes, ControlMode::Fd), ControlMode::Fd);
    let listen_on = bit_if(
        evidence.listen_only && link::mode_on(modes, ControlMode::ListenOnly),
        ControlMode::ListenOnly,
    );
    let loop_on = bit_if(
        evidence.loopback && link::mode_on(modes, ControlMode::Loopback),
        ControlMode::Loopback,
    );
    lemma_bits_of_modes(fd, listen_only, loopback);
    lemma_bits_of_modes(fd_on, listen_on, loop_on);
}

proof fn lemma_bits_of_modes(fd: u32, listen_only: u32, loopback: u32)
    requires
        fd == 0x20 || fd == 0,
        listen_only == 0x02 || listen_only == 0,
        loopback == 0x01 || loopback == 0,
    ensures
        (fd | listen_only | loopback) & 0x20 != 0 <==> fd == 0x20,
        (fd | listen_only | loopback) & 0x02 != 0 <==> listen_only == 0x02,
        (fd | listen_only | loopback) & 0x01 != 0 <==> loopback == 0x01,
{
    assert(((fd | listen_only | loopback) & 0x20 != 0) == (fd == 0x20) && ((fd | listen_only
        | loopback) & 0x02 != 0) == (listen_only == 0x02) && ((fd | listen_only | loopback) & 0x01
        != 0) == (loopback == 0x01)) by (bit_vector)
        requires
            fd == 0x20 || fd == 0,
            listen_only == 0x02 || listen_only == 0,
            loopback == 0x01 || loopback == 0,
    ;
}

/// The modes that a configuration changes are those that were on and are not requested, or the other
/// way round.
pub proof fn law_changed_modes_are_those_that_differ(
    before: DetailsView,
    request: CanConfigureConfig,
)
    requires
        before.can.params.ctrl_mode is Some,
    ensures
        ({
            let flags = before.can.params.ctrl_mode->0.flags;
            let changed = changed_modes(before, request);
            &&& changed.fd <==> (0x20u32 & flags != 0) != (request.mode == CanMode::Fd)
            &&& changed.listen_only <==> (0x02u32 & flags != 0) != request.listen_only
            &&& changed.loopback <==> (0x01u32 & flags != 0) != request.loopback
        }),
{
}

/// A failure after which the link could not be given back either names both failures, and says under
/// the operation of the first that the rollback failed.
pub proof fn law_failed_rollback_names_both_failures(
    primary: HalErrorView,
    rollback: HalErrorView,
    id: Seq<char>,
)
    ensures
        ({
            let error = rollback_error(primary, rollback, id);
            &&& error.name == "can.configuration.rollback_failed"@
            &&& error.category == ErrorCategory::Internal
            &&& error.operation == primary.operation
            &&& error.retryable
            &&& error.resource_id == Some(id)
            &&& error.context.len() == 2
            &&& error.context[0] == ("primary_error"@, primary.name)
            &&& error.context[1] == ("rollback_error"@, rollback.name)
        }),
        restore_mismatch(id).name == "can.configuration.rollback_failed"@,
        restore_mismatch(id).category == ErrorCategory::Internal,
        restore_mismatch(id).resource_id == Some(id),
        conflict_error(id).name == "can.configuration.conflict"@,
        conflict_error(id).category == ErrorCategory::Conflict,
        !conflict_error(id).retryable,
        identity_error("can.open"@, id).category == ErrorCategory::NotFound,
        identity_error("can.open"@, id).resource_id == Some(id),
{
}

/// The status of a bus is told exactly where the link can be observed, has a name and the selected
/// device is behind it; it is then what the controller reports.
pub proof fn law_status_is_that_of_the_selected_device(
    observed: Result<(DetailsView, MetadataView), NetlinkFaultView>,
    id: Seq<char>,
)
    ensures
        bus_status_outcome(observed, id) is Ok <==> observed is Ok && observed->Ok_0.0.name is Some
            && identity::identity_of(observed->Ok_0.1).0 == id,
        bus_status_outcome(observed, id) matches Ok(status) ==> status == link::status_of(
            observed->Ok_0.0,
        ),
{
}

/// The parameters of a link are set only while it is down: it is brought down before and up again
/// after, and a link that was down stays so.
pub proof fn law_parameters_are_set_while_down(is_up: bool, request: CanConfigureConfig)
    ensures
        ({
            let actions = configure_actions(is_up, request);
            let position = params_position(is_up);
            &&& 0 <= position < actions.len()
            &&& actions[position] is SetParams
            &&& actions[position + 1] is SetMtu
            &&& is_up ==> actions.len() == 4 && actions[0] is BringDown && actions[3] is BringUp
            &&& !is_up ==> actions.len() == 2
        }),
{
}

} // verus!
