//! Configuring a link step by step: what is done next, given how the last step ended.

use vstd::prelude::*;

use crate::can::CanConfigureConfig;
use crate::error::{HalError, HalErrorView};
use crate::resource::ResourceId;
use crate::socketcan::fault;
use crate::socketcan::fault::{map_netlink_error, NetlinkFault, NetlinkFaultView};
use crate::socketcan::identity;
use crate::socketcan::identity::MetadataView;
use crate::socketcan::kernel::DetailsView;
use crate::socketcan::lease;
use crate::socketcan::lease::{
    configure_plan, rollback_after_failure, rollback_failure, verify_configured,
    ConfigureProgress, LeaseView, LinkAction, LinkLease, LinkSnapshot, ObservedInterface,
    RestoreEvidence, SnapshotView,
};

verus! {

/// What the changes of a link are for.
pub enum ChangePhase {
    /// They configure the link.
    Changing,
    /// They give the link back after a failure.
    Restoring(HalError),
}

/// What an observation of a link is for.
pub enum ObservePhase {
    /// It comes before every change.
    Before,
    /// It comes after the changes that configure the link.
    Verifying(LinkSnapshot),
    /// It comes after the changes that give the link back after a failure.
    Checking(LinkSnapshot, HalError),
}

/// A configuration that waits for a change of its link.
pub struct ChangingLink {
    id: ResourceId,
    request: CanConfigureConfig,
    snapshot: LinkSnapshot,
    performed: usize,
    phase: ChangePhase,
}

/// A configuration that waits for an observation of its link.
pub struct ObservingLink {
    id: ResourceId,
    request: CanConfigureConfig,
    phase: ObservePhase,
}

/// What a configuration needs next.
pub enum ConfigureStep {
    /// The link has to be observed.
    Observe(ObservingLink),
    /// The link has to be changed.
    Change(LinkAction, ChangingLink),
    /// The link is configured.
    Configured(LinkLease),
    /// The link is not configured.
    Failed(HalError),
}

/// The mathematical content of a [`ChangePhase`].
#[verifier::ext_equal]
pub enum ChangePhaseView {
    Changing,
    Restoring(HalErrorView),
}

/// The mathematical content of an [`ObservePhase`].
#[verifier::ext_equal]
pub enum ObservePhaseView {
    Before,
    Verifying(SnapshotView),
    Checking(SnapshotView, HalErrorView),
}

/// The mathematical content of a [`ChangingLink`].
#[verifier::ext_equal]
pub struct ChangingView {
    pub id: Seq<char>,
    pub request: CanConfigureConfig,
    pub snapshot: SnapshotView,
    /// How many changes of the phase were made.
    pub performed: int,
    pub phase: ChangePhaseView,
}

/// The mathematical content of an [`ObservingLink`].
#[verifier::ext_equal]
pub struct ObservingView {
    pub id: Seq<char>,
    pub request: CanConfigureConfig,
    pub phase: ObservePhaseView,
}

/// The mathematical content of a [`ConfigureStep`].
#[verifier::ext_equal]
pub enum StepView {
    Observe(ObservingView),
    Change(LinkAction, ChangingView),
    Configured(LeaseView),
    Failed(HalErrorView),
}

impl View for ChangePhase {
    type V = ChangePhaseView;

    open spec fn view(&self) -> ChangePhaseView {
        match self {
            ChangePhase::Changing => ChangePhaseView::Changing,
            ChangePhase::Restoring(primary) => ChangePhaseView::Restoring(primary@),
        }
    }
}

impl View for ObservePhase {
    type V = ObservePhaseView;

    open spec fn view(&self) -> ObservePhaseView {
        match self {
            ObservePhase::Before => ObservePhaseView::Before,
            ObservePhase::Verifying(snapshot) => ObservePhaseView::Verifying(snapshot@),
            ObservePhase::Checking(snapshot, primary) => ObservePhaseView::Checking(
                snapshot@,
                primary@,
            ),
        }
    }
}

impl View for ChangingLink {
    type V = ChangingView;

    closed spec fn view(&self) -> ChangingView {
        ChangingView {
            id: self.id@,
            request: self.request,
            snapshot: self.snapshot@,
            performed: self.performed as int,
            phase: self.phase@,
        }
    }
}

impl View for ObservingLink {
    type V = ObservingView;

    closed spec fn view(&self) -> ObservingView {
        ObservingView { id: self.id@, request: self.request, phase: self.phase@ }
    }
}

impl View for ConfigureStep {
    type V = StepView;

    open spec fn view(&self) -> StepView {
        match self {
            ConfigureStep::Observe(observing) => StepView::Observe(observing@),
            ConfigureStep::Change(action, changing) => StepView::Change(*action, changing@),
            ConfigureStep::Configured(lease) => StepView::Configured(lease@),
            ConfigureStep::Failed(error) => StepView::Failed(error@),
        }
    }
}

/// The changes of a phase, in order.
pub open spec fn phase_actions(changing: ChangingView) -> Seq<LinkAction> {
    match changing.phase {
        ChangePhaseView::Changing => lease::configure_actions(
            changing.snapshot.details.is_up,
            changing.request,
        ),
        ChangePhaseView::Restoring(_) => lease::restore_actions(
            changing.snapshot.details,
            changing.snapshot.restore_evidence,
        ),
    }
}

/// The first change of a phase.
pub open spec fn first_change(
    id: Seq<char>,
    request: CanConfigureConfig,
    snapshot: SnapshotView,
    phase: ChangePhaseView,
) -> StepView {
    let changing = ChangingView { id, request, snapshot, performed: 0, phase };
    StepView::Change(phase_actions(changing)[0], changing)
}

/// The snapshot of a link that was observed before its configuration, or why there is none.
pub open spec fn snapshot_outcome(
    observed: Result<(DetailsView, MetadataView), NetlinkFaultView>,
    id: Seq<char>,
) -> Result<SnapshotView, HalErrorView> {
    match lease::observed_or_error(observed, "can.configure"@, id) {
        Err(error) => Err(error),
        Ok(found) => if found.physical_identity != id {
            Err(lease::identity_error("can.configure"@, id))
        } else {
            Ok(
                SnapshotView {
                    details: observed->Ok_0.0,
                    fingerprint: found,
                    restore_evidence: RestoreEvidence::nothing(),
                },
            )
        },
    }
}

/// What follows an observation: before the changes, the first of them; after them, the lease where
/// the link is as requested, and else the first change that gives it back; after those, the failure
/// that made them necessary, or that of giving the link back.
pub open spec fn after_observation(
    observing: ObservingView,
    observed: Result<(DetailsView, MetadataView), NetlinkFaultView>,
) -> StepView {
    let id = observing.id;
    match observing.phase {
        ObservePhaseView::Before => match snapshot_outcome(observed, id) {
            Err(error) => StepView::Failed(error),
            Ok(snapshot) => first_change(
                id,
                observing.request,
                snapshot,
                ChangePhaseView::Changing,
            ),
        },
        ObservePhaseView::Verifying(snapshot) => match lease::verify_outcome(
            observed,
            observing.request,
            id,
        ) {
            Ok((active, applied)) => StepView::Configured(
                LeaseView { id, snapshot: Some(snapshot), applied: Some(applied), active },
            ),
            Err(primary) => first_change(
                id,
                observing.request,
                snapshot,
                ChangePhaseView::Restoring(primary),
            ),
        },
        ObservePhaseView::Checking(snapshot, primary) => match lease::restore_outcome(
            snapshot.fingerprint,
            Ok(()),
            observed,
            id,
        ) {
            Ok(()) => StepView::Failed(primary),
            Err(rollback) => StepView::Failed(lease::rollback_error(primary, rollback, id)),
        },
    }
}

/// The snapshot once so many of the changes that configure a link were made, all of them or up to a
/// failure: control modes have to be given back once the parameters were set.
pub open spec fn snapshot_after(
    snapshot: SnapshotView,
    request: CanConfigureConfig,
    performed: int,
) -> SnapshotView {
    SnapshotView {
        restore_evidence: if performed > lease::params_position(snapshot.details.is_up) {
            lease::changed_modes(snapshot.details, request)
        } else {
            snapshot.restore_evidence
        },
        ..snapshot
    }
}

/// What follows a change: the next change of the phase, and after the last one an observation. A
/// failure before anything was changed ends the configuration; a later one is followed by giving the
/// link back, and a failure of that ends the configuration too.
pub open spec fn after_change(
    changing: ChangingView,
    changed: Result<(), NetlinkFaultView>,
) -> StepView {
    let id = changing.id;
    let actions = phase_actions(changing);
    let next = changing.performed + 1;
    match changed {
        Ok(()) => if next < actions.len() {
            StepView::Change(actions[next], ChangingView { performed: next, ..changing })
        } else {
            StepView::Observe(
                ObservingView {
                    id,
                    request: changing.request,
                    phase: match changing.phase {
                        ChangePhaseView::Changing => ObservePhaseView::Verifying(
                            snapshot_after(
                                changing.snapshot,
                                changing.request,
                                actions.len() as int,
                            ),
                        ),
                        ChangePhaseView::Restoring(primary) => ObservePhaseView::Checking(
                            changing.snapshot,
                            primary,
                        ),
                    },
                },
            )
        },
        Err(failure) => match changing.phase {
            ChangePhaseView::Changing => {
                let primary = fault::netlink_error("can.configure"@, failure).about(id);
                if changing.performed == 0 {
                    StepView::Failed(primary)
                } else {
                    first_change(
                        id,
                        changing.request,
                        snapshot_after(
                            changing.snapshot,
                            changing.request,
                            changing.performed,
                        ),
                        ChangePhaseView::Restoring(primary),
                    )
                }
            },
            ChangePhaseView::Restoring(primary) => StepView::Failed(
                lease::rollback_error(
                    primary,
                    fault::netlink_error("can.close"@, failure).about(id),
                    id,
                ),
            ),
        },
    }
}

/// Starts to configure a link.
pub fn configure(request: CanConfigureConfig, id: &ResourceId) -> (step: ConfigureStep)
    ensures
        step@ == StepView::Observe(
            ObservingView { id: id@, request, phase: ObservePhaseView::Before },
        ),
{
    ConfigureStep::Observe(ObservingLink { id: id.copy(), request, phase: ObservePhase::Before })
}

fn give_back(
    id: ResourceId,
    request: CanConfigureConfig,
    snapshot: LinkSnapshot,
    primary: HalError,
) -> (step: ConfigureStep)
    ensures
        step@ == first_change(id@, request, snapshot@, ChangePhaseView::Restoring(primary@)),
{
    ConfigureStep::Change(
        LinkAction::BringDown,
        ChangingLink {
            id,
            request,
            snapshot,
            performed: 0,
            phase: ChangePhase::Restoring(primary),
        },
    )
}

impl ObservingLink {
    /// Takes what was observed.
    pub fn observed(self, observed: Result<ObservedInterface, NetlinkFault>) -> (step: ConfigureStep)
        ensures
            step@ == after_observation(self@, lease::observation(observed)),
    {
        let ObservingLink { id, request, phase } = self;
        match phase {
            ObservePhase::Before => {
                let observed = match observed {
                    Ok(observed) => observed,
                    Err(failure) => {
                        return ConfigureStep::Failed(
                            map_netlink_error("can.configure", &failure, &id),
                        );
                    },
                };
                match LinkSnapshot::take(observed, &id) {
                    Err(error) => ConfigureStep::Failed(error),
                    Ok(snapshot) => {
                        let plan = configure_plan(snapshot.details(), &request);
                        ConfigureStep::Change(
                            plan[0],
                            ChangingLink {
                                id,
                                request,
                                snapshot,
                                performed: 0,
                                phase: ChangePhase::Changing,
                            },
                        )
                    },
                }
            },
            ObservePhase::Verifying(snapshot) => {
                match verify_configured(observed, &request, &id) {
                    Ok(verified) => ConfigureStep::Configured(
                        LinkLease::configured(snapshot, verified, &id),
                    ),
                    Err(primary) => give_back(id, request, snapshot, primary),
                }
            },
            ObservePhase::Checking(snapshot, primary) => {
                let restored = snapshot.restored(Ok(()), observed, &id);
                ConfigureStep::Failed(rollback_after_failure(primary, restored, &id))
            },
        }
    }
}

impl ChangingLink {
    /// Takes how the change ended.
    pub fn changed(self, changed: Result<(), NetlinkFault>) -> (step: ConfigureStep)
        ensures
            step@ == after_change(self@, lease::change_outcome(changed)),
    {
        let ChangingLink { id, request, snapshot, performed, phase } = self;
        let mut snapshot = snapshot;
        match phase {
            ChangePhase::Changing => {
                let plan = configure_plan(snapshot.details(), &request);
                match changed {
                    Ok(()) => {
                        if performed < plan.len() && performed + 1 < plan.len() {
                            return ConfigureStep::Change(
                                plan[performed + 1],
                                ChangingLink {
                                    id,
                                    request,
                                    snapshot,
                                    performed: performed + 1,
                                    phase: ChangePhase::Changing,
                                },
                            );
                        }
                        let progress = ConfigureProgress { performed: plan.len(), failure: None };
                        let _ = snapshot.configured(&request, &progress, &id);
                        ConfigureStep::Observe(
                            ObservingLink {
                                id,
                                request,
                                phase: ObservePhase::Verifying(snapshot),
                            },
                        )
                    },
                    Err(failure) => {
                        let progress = ConfigureProgress { performed, failure: Some(failure) };
                        match snapshot.configured(&request, &progress, &id) {
                            Err(refused) => {
                                if refused.rollback_required {
                                    give_back(id, request, snapshot, refused.error)
                                } else {
                                    ConfigureStep::Failed(refused.error)
                                }
                            },
                            Ok(()) => ConfigureStep::Observe(
                                ObservingLink {
                                    id,
                                    request,
                                    phase: ObservePhase::Verifying(snapshot),
                                },
                            ),
                        }
                    },
                }
            },
            ChangePhase::Restoring(primary) => {
                match changed {
                    Ok(()) => {
                        let plan = snapshot.restore_plan();
                        if performed < plan.len() && performed + 1 < plan.len() {
                            return ConfigureStep::Change(
                                plan[performed + 1],
                                ChangingLink {
                                    id,
                                    request,
                                    snapshot,
                                    performed: performed + 1,
                                    phase: ChangePhase::Restoring(primary),
                                },
                            );
                        }
                        ConfigureStep::Observe(
                            ObservingLink {
                                id,
                                request,
                                phase: ObservePhase::Checking(snapshot, primary),
                            },
                        )
                    },
                    Err(failure) => {
                        let rollback = map_netlink_error("can.close", &failure, &id);
                        ConfigureStep::Failed(rollback_failure(&primary, &rollback, &id))
                    },
                }
            },
        }
    }
}

/// A link that a configuration has changed is not left so: whatever fails then, giving it back is
/// what follows.
pub proof fn law_changed_link_is_given_back(
    changing: ChangingView,
    failure: NetlinkFaultView,
    verifying: ObservingView,
    snapshot: SnapshotView,
    observed: Result<(DetailsView, MetadataView), NetlinkFaultView>,
)
    requires
        changing.phase == ChangePhaseView::Changing,
        changing.performed > 0,
        verifying.phase == ObservePhaseView::Verifying(snapshot),
    ensures
        after_change(changing, Err(failure)) matches StepView::Change(action, next) && action
            == LinkAction::BringDown && next.phase is Restoring && next.performed == 0,
        match after_observation(verifying, observed) {
            StepView::Configured(lease) => lease.snapshot == Some(snapshot),
            StepView::Change(action, next) => action == LinkAction::BringDown && next.phase
                is Restoring && next.snapshot == snapshot && next.performed == 0,
            _ => false,
        },
{
}

/// A configuration that was rolled back ends with the failure that made it necessary exactly where
/// the link is observed to be as it was, and else says that it was not given back.
pub proof fn law_rolled_back_configuration_tells_why(
    checking: ObservingView,
    snapshot: SnapshotView,
    primary: HalErrorView,
    observed: Result<(DetailsView, MetadataView), NetlinkFaultView>,
)
    requires
        checking.phase == ObservePhaseView::Checking(snapshot, primary),
        primary.name != "can.configuration.rollback_failed"@,
    ensures
        after_observation(checking, observed) matches StepView::Failed(error) && (error == primary
            <==> lease::observed_or_error(observed, "can.close"@, checking.id) == Ok::<
            lease::FingerprintView,
            HalErrorView,
        >(snapshot.fingerprint)) && (error != primary ==> error.name
            == "can.configuration.rollback_failed"@),
{
}

/// A configuration ends in a lease only where the link was observed after all its changes and shows
/// what was requested; the lease remembers how the link was. A change is never the end.
pub proof fn law_only_verified_links_are_leased(
    observing: ObservingView,
    observed: Result<(DetailsView, MetadataView), NetlinkFaultView>,
    changing: ChangingView,
    changed: Result<(), NetlinkFaultView>,
)
    ensures
        after_observation(observing, observed) matches StepView::Configured(lease) ==> {
            &&& observing.phase is Verifying
            &&& lease.snapshot is Some
            &&& lease.snapshot->0 == observing.phase->Verifying_0
            &&& lease.applied is Some
            &&& lease.id == observing.id
            &&& lease.active.mode == observing.request.mode
            &&& lease.active.nominal.bitrate == observing.request.nominal.bitrate
            &&& lease.active.listen_only == observing.request.listen_only
            &&& lease.active.loopback == observing.request.loopback
        },
        !(after_change(changing, changed) is Configured),
{
    lease::law_verified_link_meets_the_request(observed, observing.request, observing.id);
}

/// A configuration begins with the first change only on an observed link behind which the selected
/// device is, and the snapshot holds how that link is; nothing counts as changed yet.
pub proof fn law_configuration_begins_with_a_snapshot(
    observing: ObservingView,
    observed: Result<(DetailsView, MetadataView), NetlinkFaultView>,
)
    requires
        observing.phase is Before,
    ensures
        after_observation(observing, observed) matches StepView::Change(_, changing) ==> {
            &&& observed is Ok
            &&& identity::identity_of(observed->Ok_0.1).0 == observing.id
            &&& changing.snapshot.details == observed->Ok_0.0
            &&& !changing.snapshot.restore_evidence.fd
            &&& !changing.snapshot.restore_evidence.listen_only
            &&& !changing.snapshot.restore_evidence.loopback
            &&& changing.performed == 0
            &&& changing.phase is Changing
            &&& changing.request == observing.request
            &&& changing.id == observing.id
        },
        observed is Ok && observed->Ok_0.0.name is Some && identity::identity_of(observed->Ok_0.1).0
            == observing.id ==> after_observation(observing, observed) is Change,
        after_observation(observing, observed) is Change || after_observation(observing, observed)
            is Failed,
{
}

/// A failure before anything was changed ends the configuration as it is; one while the link is given
/// back ends it with both failures. A change that was made is followed by the next one of its phase.
pub proof fn law_failed_change_ends_or_is_rolled_back(
    changing: ChangingView,
    failure: NetlinkFaultView,
)
    ensures
        changing.phase is Changing && changing.performed == 0 ==> after_change(
            changing,
            Err(failure),
        ) == StepView::Failed(fault::netlink_error("can.configure"@, failure).about(changing.id)),
        changing.phase is Restoring ==> (after_change(changing, Err(failure)) matches StepView::Failed(
            error,
        ) && error.name == "can.configuration.rollback_failed"@ && error.resource_id == Some(
            changing.id,
        ) && error.context[0].1 == changing.phase->Restoring_0.name),
        changing.performed + 1 < phase_actions(changing).len() ==> (after_change(
            changing,
            Ok(()),
        ) matches StepView::Change(action, next) && action == phase_actions(
            changing,
        )[changing.performed + 1] && next == (ChangingView {
            performed: changing.performed + 1,
            ..changing
        })),
        changing.performed + 1 >= phase_actions(changing).len() ==> after_change(changing, Ok(()))
            is Observe,
{
}

} // verus!
