//! What configuring a link and giving it back amount to on a link that keeps what it is given.

use vstd::prelude::*;

use crate::can;
use crate::can::{CanActiveConfig, CanConfigureConfig, CanMode, ClockDomain};
use crate::error::HalErrorView;
use crate::socketcan::configure;
use crate::socketcan::configure::{
    ChangePhaseView, ChangingView, ObservePhaseView, ObservingView, StepView,
};
use crate::socketcan::fault;
use crate::socketcan::fault::NetlinkFaultView;
use crate::socketcan::identity;
use crate::socketcan::identity::MetadataView;
use crate::socketcan::kernel::{
    ControlMode, ControlModes, ControllerDetails, DetailsView, LinkParams,
};
use crate::socketcan::lease;
use crate::socketcan::lease::{LinkAction, RestoreEvidence};
use crate::socketcan::link;

verus! {

/// The bits of a set of modes that may be absent.
pub open spec fn flags_of(modes: Option<ControlModes>) -> u32 {
    match modes {
        Some(modes) => modes.flags,
        None => 0,
    }
}

/// A link that keeps what it is given: named control modes are set or cleared, and absent
/// parameters stay as they are.
pub open spec fn with_params(details: DetailsView, params: LinkParams) -> DetailsView {
    let before = details.can.params;
    DetailsView {
        can: ControllerDetails {
            params: LinkParams {
                bit_timing: if params.bit_timing is Some {
                    params.bit_timing
                } else {
                    before.bit_timing
                },
                data_bit_timing: if params.data_bit_timing is Some {
                    params.data_bit_timing
                } else {
                    before.data_bit_timing
                },
                ctrl_mode: match params.ctrl_mode {
                    Some(modes) => Some(
                        ControlModes {
                            mask: modes.mask,
                            flags: (flags_of(before.ctrl_mode) & !modes.mask) | (modes.flags
                                & modes.mask),
                        },
                    ),
                    None => before.ctrl_mode,
                },
                restart_ms: if params.restart_ms is Some {
                    params.restart_ms
                } else {
                    before.restart_ms
                },
                termination: if params.termination is Some {
                    params.termination
                } else {
                    before.termination
                },
            },
            ..details.can
        },
        ..details
    }
}

/// A link after a change.
pub open spec fn after(details: DetailsView, action: LinkAction) -> DetailsView {
    match action {
        LinkAction::BringDown => DetailsView { is_up: false, ..details },
        LinkAction::BringUp => DetailsView { is_up: true, ..details },
        LinkAction::SetMtu(mtu) => DetailsView { mtu: Some(mtu), ..details },
        LinkAction::SetParams(params) => with_params(details, params),
    }
}

/// A link after a list of changes.
pub open spec fn after_all(details: DetailsView, actions: Seq<LinkAction>) -> DetailsView
    decreases actions.len(),
{
    if actions.len() == 0 {
        details
    } else {
        after(after_all(details, actions.drop_last()), actions.last())
    }
}

/// What a rollback has to give back after the first `performed` changes of a configuration.
pub open spec fn evidence_after(
    before: DetailsView,
    request: CanConfigureConfig,
    performed: int,
) -> RestoreEvidence {
    if performed > lease::params_position(before.is_up) {
        lease::changed_modes(before, request)
    } else {
        RestoreEvidence::nothing()
    }
}

proof fn lemma_step(details: DetailsView, actions: Seq<LinkAction>, action: LinkAction)
    ensures
        after_all(details, actions.push(action)) == after(after_all(details, actions), action),
{
    assert(actions.push(action).drop_last() =~= actions);
}

/// The state of a link after the first `performed` changes of a configuration.
proof fn lemma_configured(before: DetailsView, request: CanConfigureConfig, performed: int)
    requires
        0 <= performed <= lease::configure_actions(before.is_up, request).len(),
    ensures
        ({
            let reached = after_all(
                before,
                lease::configure_actions(before.is_up, request).take(performed),
            );
            let position = lease::params_position(before.is_up);
            let params = lease::configure_params(request);
            &&& reached.name == before.name
            &&& reached.index == before.index
            &&& reached.can == if performed > position {
                with_params(before, params).can
            } else {
                before.can
            }
            &&& reached.mtu == if performed > position + 1 {
                Some(lease::requested_mtu(request))
            } else {
                before.mtu
            }
            &&& reached.is_up == (before.is_up && (performed == 0 || performed == 4))
        }),
{
    let actions = lease::configure_actions(before.is_up, request);
    let empty = actions.take(0);
    assert(empty =~= Seq::empty());
    if performed >= 1 {
        lemma_step(before, empty, actions[0]);
        assert(actions.take(1) =~= empty.push(actions[0]));
    }
    if performed >= 2 {
        lemma_step(before, actions.take(1), actions[1]);
        assert(actions.take(2) =~= actions.take(1).push(actions[1]));
    }
    if performed >= 3 {
        lemma_step(before, actions.take(2), actions[2]);
        assert(actions.take(3) =~= actions.take(2).push(actions[2]));
    }
    if performed >= 4 {
        lemma_step(before, actions.take(3), actions[3]);
        assert(actions.take(4) =~= actions.take(3).push(actions[3]));
    }
}

/// The state of a link after it was given back.
proof fn lemma_restored(reached: DetailsView, before: DetailsView, evidence: RestoreEvidence)
    requires
        before.mtu is Some,
    ensures
        ({
            let restored = after_all(reached, lease::restore_actions(before, evidence));
            let params = lease::restored_params(before, evidence);
            &&& restored.name == reached.name
            &&& restored.index == reached.index
            &&& restored.is_up == before.is_up
            &&& restored.mtu == before.mtu
            &&& restored.can == with_params(reached, params).can
        }),
{
    let down = seq![LinkAction::BringDown];
    let sized = down.push(LinkAction::SetMtu(before.mtu->0));
    let set = sized.push(LinkAction::SetParams(lease::restored_params(before, evidence)));
    assert(down =~= Seq::<LinkAction>::empty().push(LinkAction::BringDown));
    lemma_step(reached, Seq::empty(), LinkAction::BringDown);
    lemma_step(reached, down, LinkAction::SetMtu(before.mtu->0));
    lemma_step(reached, sized, LinkAction::SetParams(lease::restored_params(before, evidence)));
    lemma_step(reached, set, LinkAction::BringUp);
}

proof fn lemma_modes_come_back(flags: u32, fd: bool, listen_only: bool, loopback: bool)
    by (bit_vector)
    ensures
        ({
            let requested = (if fd {
                0x20u32
            } else {
                0
            }) | (if listen_only {
                2u32
            } else {
                0
            }) | (if loopback {
                1u32
            } else {
                0
            });
            let all = 0x20u32 | 2 | 1;
            let configured = (flags & !all) | (requested & all);
            let changed_fd = (0x20u32 & flags != 0) != fd;
            let changed_listen = (2u32 & flags != 0) != listen_only;
            let changed_loopback = (1u32 & flags != 0) != loopback;
            let mask = (if changed_fd {
                0x20u32
            } else {
                0
            }) | (if changed_listen {
                2u32
            } else {
                0
            }) | (if changed_loopback {
                1u32
            } else {
                0
            });
            let on = (if changed_fd && 0x20u32 & flags != 0 {
                0x20u32
            } else {
                0
            }) | (if changed_listen && 2u32 & flags != 0 {
                2u32
            } else {
                0
            }) | (if changed_loopback && 1u32 & flags != 0 {
                1u32
            } else {
                0
            });
            &&& (configured & !mask) | (on & mask) == flags
            &&& !changed_fd && !changed_listen && !changed_loopback ==> configured == flags
            &&& (0x20u32 & configured != 0) == fd
            &&& (2u32 & configured != 0) == listen_only
            &&& (1u32 & configured != 0) == loopback
        }),
{
}

proof fn lemma_no_flags(bit: u32)
    by (bit_vector)
    ensures
        bit & 0 == 0,
{
}

/// Sets of modes with the same bits have the same modes on.
proof fn lemma_same_flags(first: Option<ControlModes>, second: Option<ControlModes>)
    requires
        flags_of(first) == flags_of(second),
    ensures
        lease::modes_on(first) == lease::modes_on(second),
{
    assert forall|mode: ControlMode| #[trigger] link::mode_on(first, mode) == link::mode_on(
        second,
        mode,
    ) by {
        lemma_no_flags(mode.bit());
    }
    assert(lease::modes_on(first) =~= lease::modes_on(second));
}

/// However far a configuration gets, giving the link back leaves it as it was: on a link that keeps
/// what it is given and reported its size, its nominal timing and its restart delay beforehand, and
/// its data timing where the configuration sets one.
pub proof fn law_rollback_gives_the_link_back(
    before: DetailsView,
    request: CanConfigureConfig,
    performed: int,
    identity: Seq<char>,
)
    requires
        0 <= performed <= lease::configure_actions(before.is_up, request).len(),
        before.mtu is Some,
        before.can.params.bit_timing is Some,
        before.can.params.restart_ms is Some,
        request.data is Some ==> before.can.params.data_bit_timing is Some,
    ensures
        ({
            let changed = after_all(
                before,
                lease::configure_actions(before.is_up, request).take(performed),
            );
            let restored = after_all(
                changed,
                lease::restore_actions(before, evidence_after(before, request, performed)),
            );
            lease::fingerprint_of(restored, identity) == lease::fingerprint_of(before, identity)
        }),
{
    let evidence = evidence_after(before, request, performed);
    let changed = after_all(
        before,
        lease::configure_actions(before.is_up, request).take(performed),
    );
    let restored = after_all(changed, lease::restore_actions(before, evidence));
    lemma_configured(before, request, performed);
    lemma_restored(changed, before, evidence);
    let flags = flags_of(before.can.params.ctrl_mode);
    let requested = lease::requested_modes(request);
    lemma_modes_come_back(flags, requested.0, requested.1, requested.2);
    lemma_no_flags(0x20);
    lemma_no_flags(2);
    lemma_no_flags(1);
    assert(flags_of(restored.can.params.ctrl_mode) == flags);
    lemma_same_flags(restored.can.params.ctrl_mode, before.can.params.ctrl_mode);
}

/// A configuration that is carried out whole leaves a link up or down as it was, and on a link that
/// keeps what it is given it is found to be as requested. A request without a data timing is made of
/// a link that has none.
pub proof fn law_configuration_is_found_as_requested(
    before: DetailsView,
    request: CanConfigureConfig,
    operation: Seq<char>,
)
    requires
        can::timing_refusal(request.nominal) is None,
        request.data is Some ==> can::timing_refusal(request.data->0) is None,
        (request.mode == CanMode::Fd) == (request.data is Some),
        request.data is None ==> before.can.params.data_bit_timing is None,
    ensures
        ({
            let changed = after_all(before, lease::configure_actions(before.is_up, request));
            let active = CanActiveConfig {
                mode: request.mode,
                nominal: request.nominal,
                data: request.data,
                listen_only: request.listen_only,
                loopback: request.loopback,
                clock_domain: ClockDomain::HostMonotonic,
            };
            &&& changed.is_up == before.is_up
            &&& link::active_of(changed, operation) == Ok::<CanActiveConfig, HalErrorView>(active)
            &&& link::configured_as_requested(request, changed, active)
        }),
{
    let actions = lease::configure_actions(before.is_up, request);
    assert(actions.take(actions.len() as int) =~= actions);
    lemma_configured(before, request, actions.len() as int);
    let requested = lease::requested_modes(request);
    lemma_modes_come_back(
        flags_of(before.can.params.ctrl_mode),
        requested.0,
        requested.1,
        requested.2,
    );
    link::law_requested_timing_is_read_back(request.nominal, operation, "nominal"@);
    if request.data is Some {
        link::law_requested_timing_is_read_back(request.data->0, operation, "data"@);
    }
}

/// A change of a configuration that fails: its number among the changes, and its failure.
pub struct FailingChange {
    pub number: int,
    pub failure: NetlinkFaultView,
}

/// How a configuration goes on, and what becomes of its link, on a link that keeps what it is given,
/// but for a change that fails where there is one.
pub open spec fn run(
    step: StepView,
    details: DetailsView,
    metadata: MetadataView,
    failing: Option<FailingChange>,
    fuel: nat,
) -> (StepView, DetailsView)
    decreases fuel,
{
    if fuel == 0 {
        (step, details)
    } else {
        match step {
            StepView::Observe(observing) => run(
                configure::after_observation(observing, Ok((details, metadata))),
                details,
                metadata,
                failing,
                (fuel - 1) as nat,
            ),
            StepView::Change(action, changing) => if changing.phase == ChangePhaseView::Changing
                && failing is Some && failing->0.number == changing.performed {
                run(
                    configure::after_change(changing, Err(failing->0.failure)),
                    details,
                    metadata,
                    failing,
                    (fuel - 1) as nat,
                )
            } else {
                run(
                    configure::after_change(changing, Ok(())),
                    after(details, action),
                    metadata,
                    failing,
                    (fuel - 1) as nat,
                )
            },
            _ => (step, details),
        }
    }
}

/// The step that makes the change with a number.
spec fn change_step(changing: ChangingView, number: int) -> StepView {
    StepView::Change(
        configure::phase_actions(changing)[number],
        ChangingView { performed: number, ..changing },
    )
}

/// The changes of a phase follow each other.
proof fn lemma_changes_follow(
    changing: ChangingView,
    start: DetailsView,
    metadata: MetadataView,
    failing: Option<FailingChange>,
    fuel: nat,
    number: int,
)
    requires
        0 <= number < configure::phase_actions(changing).len(),
        fuel >= number,
        changing.phase == ChangePhaseView::Changing && failing is Some ==> failing->0.number >= number,
    ensures
        run(change_step(changing, 0), start, metadata, failing, fuel) == run(
            change_step(changing, number),
            after_all(start, configure::phase_actions(changing).take(number)),
            metadata,
            failing,
            (fuel - number) as nat,
        ),
    decreases number,
{
    let actions = configure::phase_actions(changing);
    if number == 0 {
        assert(actions.take(0) =~= Seq::empty());
    } else {
        let last = number - 1;
        lemma_changes_follow(changing, start, metadata, failing, fuel, last);
        assert(actions.take(number).drop_last() =~= actions.take(last));
        assert(actions.take(number).last() == actions[last]);
        let at = ChangingView { performed: last, ..changing };
        assert(configure::phase_actions(at) == actions);
        assert(configure::after_change(at, Ok(())) == change_step(changing, number));
    }
}

/// After the last change of a phase comes an observation.
proof fn lemma_phase_ends(
    changing: ChangingView,
    start: DetailsView,
    metadata: MetadataView,
    failing: Option<FailingChange>,
    fuel: nat,
)
    requires
        fuel >= configure::phase_actions(changing).len() > 0,
        changing.phase == ChangePhaseView::Changing ==> failing is None,
    ensures
        ({
            let actions = configure::phase_actions(changing);
            let last = ChangingView { performed: actions.len() - 1, ..changing };
            &&& run(change_step(changing, 0), start, metadata, failing, fuel) == run(
                configure::after_change(last, Ok(())),
                after_all(start, actions),
                metadata,
                failing,
                (fuel - actions.len()) as nat,
            )
            &&& configure::after_change(last, Ok(())) is Observe
        }),
{
    let actions = configure::phase_actions(changing);
    let number = actions.len() - 1;
    lemma_changes_follow(changing, start, metadata, failing, fuel, number);
    assert(actions.drop_last() =~= actions.take(number));
    let last = ChangingView { performed: number, ..changing };
    assert(configure::phase_actions(last) == actions);
}

/// A link that keeps what it is given, and behind which the selected device is, ends up configured as
/// requested, and its lease remembers how it was and what has to be given back.
pub proof fn law_faithful_link_is_configured(
    before: DetailsView,
    metadata: MetadataView,
    request: CanConfigureConfig,
    id: Seq<char>,
)
    requires
        can::timing_refusal(request.nominal) is None,
        request.data is Some ==> can::timing_refusal(request.data->0) is None,
        (request.mode == CanMode::Fd) == (request.data is Some),
        request.data is None ==> before.can.params.data_bit_timing is None,
        before.name is Some,
        identity::identity_of(metadata).0 == id,
    ensures
        ({
            let start = StepView::Observe(
                ObservingView { id, request, phase: ObservePhaseView::Before },
            );
            let (end, link) = run(start, before, metadata, None, 6);
            &&& link == after_all(before, lease::configure_actions(before.is_up, request))
            &&& end matches StepView::Configured(held)
            &&& held.active.mode == request.mode
            &&& held.active.nominal == request.nominal
            &&& held.active.data == request.data
            &&& held.active.listen_only == request.listen_only
            &&& held.active.loopback == request.loopback
            &&& held.id == id
            &&& held.snapshot is Some
            &&& held.snapshot->0.details == before
            &&& held.snapshot->0.fingerprint == lease::fingerprint_of(before, id)
            &&& held.snapshot->0.restore_evidence == evidence_after(
                before,
                request,
                lease::configure_actions(before.is_up, request).len() as int,
            )
            &&& held.applied == Some(lease::fingerprint_of(link, id))
        }),
{
    let start = ObservingView { id, request, phase: ObservePhaseView::Before };
    let snapshot = configure::snapshot_outcome(Ok((before, metadata)), id)->Ok_0;
    let changing = ChangingView {
        id,
        request,
        snapshot,
        performed: 0,
        phase: ChangePhaseView::Changing,
    };
    let actions = lease::configure_actions(before.is_up, request);
    assert(configure::phase_actions(changing) == actions);
    assert(configure::after_observation(start, Ok((before, metadata))) == change_step(
        changing,
        0,
    ));
    lemma_phase_ends(changing, before, metadata, None, 5);
    let changed = after_all(before, actions);
    law_configuration_is_found_as_requested(before, request, "can.configure"@);
    assert(actions.take(actions.len() as int) =~= actions);
    lemma_configured(before, request, actions.len() as int);
    let last = ChangingView { performed: actions.len() - 1, ..changing };
    assert(configure::phase_actions(last) == actions);
    let verifying = configure::after_change(last, Ok(()));
    assert(verifying is Observe);
    let ended = configure::after_observation(verifying->Observe_0, Ok((changed, metadata)));
    assert(ended is Configured);
    reveal_with_fuel(run, 2);
}

/// On a link that keeps what it is given, a session that configured it and ends gives it back as it
/// was, and closing succeeds: if the link reported its size, its nominal timing and its restart delay
/// beforehand, and its data timing where the configuration sets one.
pub proof fn law_closed_session_gives_the_link_back(
    before: DetailsView,
    metadata: MetadataView,
    request: CanConfigureConfig,
    id: Seq<char>,
)
    requires
        can::timing_refusal(request.nominal) is None,
        request.data is Some ==> can::timing_refusal(request.data->0) is None,
        (request.mode == CanMode::Fd) == (request.data is Some),
        (request.data is Some) == (before.can.params.data_bit_timing is Some),
        before.name is Some,
        before.mtu is Some,
        before.can.params.bit_timing is Some,
        before.can.params.restart_ms is Some,
        identity::identity_of(metadata).0 == id,
    ensures
        ({
            let start = StepView::Observe(
                ObservingView { id, request, phase: ObservePhaseView::Before },
            );
            let (end, configured) = run(start, before, metadata, None, 6);
            let held = end->Configured_0;
            let plan = held.close_plan(Ok((configured, metadata)));
            let restored = after_all(configured, plan->Ok_0->0);
            &&& end is Configured
            &&& plan matches Ok(Some(_))
            &&& lease::fingerprint_of(restored, id) == lease::fingerprint_of(before, id)
            &&& held.close_outcome(Ok(()), Ok((restored, metadata))) == Ok::<(), HalErrorView>(())
        }),
{
    let start = StepView::Observe(ObservingView { id, request, phase: ObservePhaseView::Before });
    let (end, configured) = run(start, before, metadata, None, 6);
    law_faithful_link_is_configured(before, metadata, request, id);
    let actions = lease::configure_actions(before.is_up, request);
    assert(actions.take(actions.len() as int) =~= actions);
    lemma_configured(before, request, actions.len() as int);
    law_rollback_gives_the_link_back(before, request, actions.len() as int, id);
    let evidence = evidence_after(before, request, actions.len() as int);
    lemma_restored(configured, before, evidence);
}

/// Where a change after the first fails, a link that keeps what it is given ends up as it was, and
/// the configuration ends with that failure: if the link reported its size, its nominal timing and
/// its restart delay beforehand, and its data timing where the configuration sets one.
pub proof fn law_failed_change_is_rolled_back(
    before: DetailsView,
    metadata: MetadataView,
    request: CanConfigureConfig,
    id: Seq<char>,
    number: int,
    failure: NetlinkFaultView,
)
    requires
        0 < number < lease::configure_actions(before.is_up, request).len(),
        before.name is Some,
        before.mtu is Some,
        before.can.params.bit_timing is Some,
        before.can.params.restart_ms is Some,
        request.data is Some ==> before.can.params.data_bit_timing is Some,
        identity::identity_of(metadata).0 == id,
    ensures
        ({
            let start = StepView::Observe(
                ObservingView { id, request, phase: ObservePhaseView::Before },
            );
            let (end, link) = run(
                start,
                before,
                metadata,
                Some(FailingChange { number, failure }),
                12,
            );
            &&& end == StepView::Failed(
                fault::netlink_error("can.configure"@, failure).about(id),
            )
            &&& lease::fingerprint_of(link, id) == lease::fingerprint_of(before, id)
        }),
{
    let failing = Some(FailingChange { number, failure });
    let start = ObservingView { id, request, phase: ObservePhaseView::Before };
    let snapshot = configure::snapshot_outcome(Ok((before, metadata)), id)->Ok_0;
    let changing = ChangingView {
        id,
        request,
        snapshot,
        performed: 0,
        phase: ChangePhaseView::Changing,
    };
    let actions = lease::configure_actions(before.is_up, request);
    assert(configure::phase_actions(changing) == actions);
    assert(configure::after_observation(start, Ok((before, metadata))) == change_step(
        changing,
        0,
    ));
    lemma_changes_follow(changing, before, metadata, failing, 11, number);
    let changed = after_all(before, actions.take(number));
    let at = ChangingView { performed: number, ..changing };
    let primary = fault::netlink_error("can.configure"@, failure).about(id);
    let restoring = ChangingView {
        id,
        request,
        snapshot: configure::snapshot_after(snapshot, request, number),
        performed: 0,
        phase: ChangePhaseView::Restoring(primary),
    };
    assert(configure::after_change(at, Err(failure)) == change_step(restoring, 0));
    let left = (10 - number) as nat;
    let evidence = evidence_after(before, request, number);
    assert(restoring.snapshot.restore_evidence == evidence);
    let backwards = configure::phase_actions(restoring);
    assert(backwards == lease::restore_actions(before, evidence));
    lemma_phase_ends(restoring, changed, metadata, failing, left);
    law_rollback_gives_the_link_back(before, request, number, id);
    lemma_configured(before, request, number);
    lemma_restored(changed, before, evidence);
    let restored = after_all(changed, backwards);
    let last = ChangingView { performed: backwards.len() - 1, ..restoring };
    assert(configure::phase_actions(last) == backwards);
    let checking = configure::after_change(last, Ok(()));
    let ended = configure::after_observation(checking->Observe_0, Ok((restored, metadata)));
    assert(ended == StepView::Failed(primary));
    reveal_with_fuel(run, 2);
}

} // verus!
