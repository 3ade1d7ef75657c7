//! The device-creation state machine: the strict order of the
//! device-installation steps, the rollback of a partially installed node,
//! the release of every OS collection on every exit path, and the polling
//! protocol for the asynchronously populated registry values.
//!
//! The machine is driven from outside: each state names the OS step whose
//! outcome it awaits, each step hands back the next state together with the
//! actions the surrounding shell must perform next, in order. The shell
//! performs them and reports the outcome as the next event.

use vstd::prelude::*;
use crate::catalog::{DriverCandidate, best_upto, candidate_eligible, has_eligible, select_driver,
    lemma_selection_is_best};
use crate::error::TapError;
use crate::ident::{AdapterIdentifier, pack_identifier};

verus! {

/// One OS-side action the surrounding shell must perform. Actions handed
/// out together are performed in the order given.
#[derive(Clone, Copy, Debug, PartialEq, Eq, Structural)]
pub enum CreateAction {
    /// Open a fresh device-information set for the adapter class.
    OpenInfoSet,
    /// Look up the class name of the adapter class.
    QueryClassName,
    /// Create a device node with an OS-generated instance identifier.
    CreateNode,
    /// Mark the new node as the selected device of the set.
    SelectNode,
    /// Write the component identifier into the node's hardware-identifier
    /// registry property.
    WriteHardwareId,
    /// Build the compatible-driver list for the node.
    BuildDriverList,
    /// Enumerate the driver list and fetch each candidate's detail record.
    EnumerateDrivers,
    /// Mark the candidate with this index as the node's selected driver.
    SelectDriver(usize),
    /// Class-installer step: register the device node.
    RegisterDevice,
    /// Class-installer step: register co-installers (best effort).
    RegisterCoinstallers,
    /// Class-installer step: install interfaces (best effort).
    InstallInterfaces,
    /// Class-installer step: install the device.
    InstallDevice,
    /// Open the node's driver registry key with query and notify access.
    OpenDriverKey,
    /// Read the interface-type value under the driver key.
    ReadIfType,
    /// Read the index value under the driver key.
    ReadLuidIndex,
    /// Block on a registry-change notification with the bounded wait.
    WaitForChange,
    /// Rollback: invoke the class installer's removal step on the node.
    RemoveDevice,
    /// Destroy the compatible-driver list.
    DestroyDriverList,
    /// Destroy the device-information set.
    DestroyInfoSet,
}

/// The state of one creation attempt. Each non-terminal state names the
/// action whose outcome the machine awaits.
#[derive(Clone, Copy, Debug, PartialEq, Eq, Structural)]
pub enum CreateState {
    /// Awaiting the fresh device-information set.
    AwaitInfoSet,
    /// Awaiting the class name.
    AwaitClassName,
    /// Awaiting the device-node creation.
    AwaitNode,
    /// Awaiting the node-selection step.
    AwaitSelectNode,
    /// Awaiting the hardware-identifier property write.
    AwaitHardwareId,
    /// Awaiting the driver-list build.
    AwaitDriverList,
    /// Awaiting the enumerated driver candidates.
    AwaitCandidates,
    /// Awaiting the driver-selection mark.
    AwaitSelectDriver,
    /// Awaiting the node-registration installer step.
    AwaitRegister,
    /// Awaiting the co-installer registration (best effort).
    AwaitCoinstallers,
    /// Awaiting the interface installation (best effort).
    AwaitInterfaces,
    /// Awaiting the device-installation installer step.
    AwaitInstall,
    /// Awaiting the driver registry key.
    AwaitKey,
    /// Awaiting the interface-type registry value.
    AwaitIfType,
    /// Awaiting a registry-change notification before re-reading the
    /// interface type.
    AwaitIfTypeWait,
    /// Awaiting the index registry value; the interface type is in hand.
    AwaitIndex { if_type: u32 },
    /// Awaiting a registry-change notification before re-reading the index.
    AwaitIndexWait { if_type: u32 },
    /// The attempt succeeded with this adapter identifier.
    Done { ident: AdapterIdentifier },
    /// The attempt failed; every acquired OS collection has been handed out
    /// for release.
    Failed { error: TapError },
}

/// What the shell observed when performing the pending action.
#[derive(Debug)]
pub enum CreateEvent {
    /// The action succeeded.
    StepOk,
    /// The action failed with this OS error code.
    StepFailed(u32),
    /// The enumerated driver candidates, with each fetched detail record.
    Candidates(Vec<DriverCandidate>),
    /// The registry value was present with this content.
    ValueRead(u32),
    /// The registry value is not populated yet.
    ValueAbsent,
    /// The bounded registry wait elapsed without a change notification.
    WaitTimedOut,
}

/// Whether the state is terminal: the attempt has succeeded or failed and
/// every further event is ignored.
pub open spec fn is_terminal(s: CreateState) -> bool {
    s is Done || s is Failed
}

/// Whether the device-information set is held in this state. It is acquired
/// by the first step and handed out for destruction on every exit path.
pub open spec fn holds_info_set(s: CreateState) -> bool {
    !(s is AwaitInfoSet) && !is_terminal(s)
}

/// Whether the compatible-driver list is held in this state.
pub open spec fn holds_driver_list(s: CreateState) -> bool {
    ||| s is AwaitCandidates
    ||| s is AwaitSelectDriver
    ||| s is AwaitRegister
    ||| s is AwaitCoinstallers
    ||| s is AwaitInterfaces
    ||| s is AwaitInstall
    ||| s is AwaitKey
    ||| s is AwaitIfType
    ||| s is AwaitIfTypeWait
    ||| s is AwaitIndex
    ||| s is AwaitIndexWait
}

/// Whether the rollback obligation is armed: from the moment the
/// node-registration step is attempted until the attempt succeeds, a
/// failure must remove the device node before the error propagates.
pub open spec fn rollback_armed(s: CreateState) -> bool {
    ||| s is AwaitRegister
    ||| s is AwaitCoinstallers
    ||| s is AwaitInterfaces
    ||| s is AwaitInstall
    ||| s is AwaitKey
    ||| s is AwaitIfType
    ||| s is AwaitIfTypeWait
    ||| s is AwaitIndex
    ||| s is AwaitIndexWait
}

/// The release actions owed on a failure in state `s`, innermost first: the
/// armed rollback, then the driver list, then the information set.
pub open spec fn failure_cleanup(s: CreateState) -> Seq<CreateAction> {
    if rollback_armed(s) {
        seq![CreateAction::RemoveDevice, CreateAction::DestroyDriverList,
            CreateAction::DestroyInfoSet]
    } else if holds_driver_list(s) {
        seq![CreateAction::DestroyDriverList, CreateAction::DestroyInfoSet]
    } else if holds_info_set(s) {
        seq![CreateAction::DestroyInfoSet]
    } else {
        seq![]
    }
}

/// The transition relation of one creation attempt, as a function from the
/// current state and the observed event to the next state and the actions
/// the shell must perform next. An event that the current state does not
/// await is ignored. Best-effort steps advance on failure as on success; a
/// bounded registry wait that merely times out re-arms by re-reading.
pub open spec fn spec_create_step(
    component_id: Seq<char>,
    s: CreateState,
    e: CreateEvent,
) -> (CreateState, Seq<CreateAction>) {
    match (s, e) {
        (CreateState::AwaitInfoSet, CreateEvent::StepOk) => (
            CreateState::AwaitClassName,
            seq![CreateAction::QueryClassName],
        ),
        (CreateState::AwaitInfoSet, CreateEvent::StepFailed(code)) => (
            CreateState::Failed { error: TapError::OsError(code) },
            failure_cleanup(s),
        ),
        (CreateState::AwaitClassName, CreateEvent::StepOk) => (
            CreateState::AwaitNode,
            seq![CreateAction::CreateNode],
        ),
        (CreateState::AwaitClassName, CreateEvent::StepFailed(code)) => (
            CreateState::Failed { error: TapError::OsError(code) },
            failure_cleanup(s),
        ),
        (CreateState::AwaitNode, CreateEvent::StepOk) => (
            CreateState::AwaitSelectNode,
            seq![CreateAction::SelectNode],
        ),
        (CreateState::AwaitNode, CreateEvent::StepFailed(code)) => (
            CreateState::Failed { error: TapError::OsError(code) },
            failure_cleanup(s),
        ),
        (CreateState::AwaitSelectNode, CreateEvent::StepOk) => (
            CreateState::AwaitHardwareId,
            seq![CreateAction::WriteHardwareId],
        ),
        (CreateState::AwaitSelectNode, CreateEvent::StepFailed(code)) => (
            CreateState::Failed { error: TapError::OsError(code) },
            failure_cleanup(s),
        ),
        (CreateState::AwaitHardwareId, CreateEvent::StepOk) => (
            CreateState::AwaitDriverList,
            seq![CreateAction::BuildDriverList],
        ),
        (CreateState::AwaitHardwareId, CreateEvent::StepFailed(code)) => (
            CreateState::Failed { error: TapError::OsError(code) },
            failure_cleanup(s),
        ),
        (CreateState::AwaitDriverList, CreateEvent::StepOk) => (
            CreateState::AwaitCandidates,
            seq![CreateAction::EnumerateDrivers],
        ),
        (CreateState::AwaitDriverList, CreateEvent::StepFailed(code)) => (
            CreateState::Failed { error: TapError::OsError(code) },
            failure_cleanup(s),
        ),
        (CreateState::AwaitCandidates, CreateEvent::Candidates(v)) => {
            match best_upto(v@, component_id, v@.len() as int) {
                Some(p) => (
                    CreateState::AwaitSelectDriver,
                    seq![CreateAction::SelectDriver(p.0 as usize)],
                ),
                None => (
                    CreateState::Failed { error: TapError::NotFound },
                    failure_cleanup(s),
                ),
            }
        },
        (CreateState::AwaitCandidates, CreateEvent::StepFailed(code)) => (
            CreateState::Failed { error: TapError::OsError(code) },
            failure_cleanup(s),
        ),
        (CreateState::AwaitSelectDriver, CreateEvent::StepOk) => (
            CreateState::AwaitRegister,
            seq![CreateAction::RegisterDevice],
        ),
        (CreateState::AwaitSelectDriver, CreateEvent::StepFailed(code)) => (
            CreateState::Failed { error: TapError::OsError(code) },
            failure_cleanup(s),
        ),
        (CreateState::AwaitRegister, CreateEvent::StepOk) => (
            CreateState::AwaitCoinstallers,
            seq![CreateAction::RegisterCoinstallers],
        ),
        (CreateState::AwaitRegister, CreateEvent::StepFailed(code)) => (
            CreateState::Failed { error: TapError::OsError(code) },
            failure_cleanup(s),
        ),
        (CreateState::AwaitCoinstallers, CreateEvent::StepOk) => (
            CreateState::AwaitInterfaces,
            seq![CreateAction::InstallInterfaces],
        ),
        (CreateState::AwaitCoinstallers, CreateEvent::StepFailed(_)) => (
            CreateState::AwaitInterfaces,
            seq![CreateAction::InstallInterfaces],
        ),
        (CreateState::AwaitInterfaces, CreateEvent::StepOk) => (
            CreateState::AwaitInstall,
            seq![CreateAction::InstallDevice],
        ),
        (CreateState::AwaitInterfaces, CreateEvent::StepFailed(_)) => (
            CreateState::AwaitInstall,
            seq![CreateAction::InstallDevice],
        ),
        (CreateState::AwaitInstall, CreateEvent::StepOk) => (
            CreateState::AwaitKey,
            seq![CreateAction::OpenDriverKey],
        ),
        (CreateState::AwaitInstall, CreateEvent::StepFailed(code)) => (
            CreateState::Failed { error: TapError::OsError(code) },
            failure_cleanup(s),
        ),
        (CreateState::AwaitKey, CreateEvent::StepOk) => (
            CreateState::AwaitIfType,
            seq![CreateAction::ReadIfType],
        ),
        (CreateState::AwaitKey, CreateEvent::StepFailed(code)) => (
            CreateState::Failed { error: TapError::OsError(code) },
            failure_cleanup(s),
        ),
        (CreateState::AwaitIfType, CreateEvent::ValueRead(t)) => (
            CreateState::AwaitIndex { if_type: t },
            seq![CreateAction::ReadLuidIndex],
        ),
        (CreateState::AwaitIfType, CreateEvent::ValueAbsent) => (
            CreateState::AwaitIfTypeWait,
            seq![CreateAction::WaitForChange],
        ),
        (CreateState::AwaitIfTypeWait, CreateEvent::StepOk) => (
            CreateState::AwaitIfType,
            seq![CreateAction::ReadIfType],
        ),
        (CreateState::AwaitIfTypeWait, CreateEvent::WaitTimedOut) => (
            CreateState::AwaitIfType,
            seq![CreateAction::ReadIfType],
        ),
        (CreateState::AwaitIfTypeWait, CreateEvent::StepFailed(code)) => (
            CreateState::Failed { error: TapError::OsError(code) },
            failure_cleanup(s),
        ),
        (CreateState::AwaitIndex { if_type }, CreateEvent::ValueRead(x)) => (
            CreateState::Done {
                ident: AdapterIdentifier {
                    value: pack_identifier(if_type as u64, x as u64),
                },
            },
            seq![CreateAction::DestroyDriverList, CreateAction::DestroyInfoSet],
        ),
        (CreateState::AwaitIndex { if_type }, CreateEvent::ValueAbsent) => (
            CreateState::AwaitIndexWait { if_type },
            seq![CreateAction::WaitForChange],
        ),
        (CreateState::AwaitIndexWait { if_type }, CreateEvent::StepOk) => (
            CreateState::AwaitIndex { if_type },
            seq![CreateAction::ReadLuidIndex],
        ),
        (CreateState::AwaitIndexWait { if_type }, CreateEvent::WaitTimedOut) => (
            CreateState::AwaitIndex { if_type },
            seq![CreateAction::ReadLuidIndex],
        ),
        (CreateState::AwaitIndexWait { .. }, CreateEvent::StepFailed(code)) => (
            CreateState::Failed { error: TapError::OsError(code) },
            failure_cleanup(s),
        ),
        _ => (s, seq![]),
    }
}

/// Begins a creation attempt: the shell must open the information set first.
pub fn create_start() -> (r: (CreateState, Vec<CreateAction>))
    ensures
        r.0 == CreateState::AwaitInfoSet,
        r.1@ == seq![CreateAction::OpenInfoSet],
{
    let mut acts: Vec<CreateAction> = Vec::new();
    acts.push(CreateAction::OpenInfoSet);
    proof {
        assert(acts@ =~= seq![CreateAction::OpenInfoSet]);
    }
    (CreateState::AwaitInfoSet, acts)
}

fn no_actions() -> (v: Vec<CreateAction>)
    ensures
        v@ == Seq::<CreateAction>::empty(),
{
    let v: Vec<CreateAction> = Vec::new();
    proof {
        assert(v@ =~= Seq::<CreateAction>::empty());
    }
    v
}

fn one_action(a: CreateAction) -> (v: Vec<CreateAction>)
    ensures
        v@ == seq![a],
{
    let mut v: Vec<CreateAction> = Vec::new();
    v.push(a);
    proof {
        assert(v@ =~= seq![a]);
    }
    v
}

fn two_actions(a: CreateAction, b: CreateAction) -> (v: Vec<CreateAction>)
    ensures
        v@ == seq![a, b],
{
    let mut v: Vec<CreateAction> = Vec::new();
    v.push(a);
    v.push(b);
    proof {
        assert(v@ =~= seq![a, b]);
    }
    v
}

fn three_actions(a: CreateAction, b: CreateAction, c: CreateAction) -> (v: Vec<CreateAction>)
    ensures
        v@ == seq![a, b, c],
{
    let mut v: Vec<CreateAction> = Vec::new();
    v.push(a);
    v.push(b);
    v.push(c);
    proof {
        assert(v@ =~= seq![a, b, c]);
    }
    v
}

/// The release actions owed on a failure in state `s`, as a vector.
fn failure_cleanup_actions(s: &CreateState) -> (v: Vec<CreateAction>)
    ensures
        v@ == failure_cleanup(*s),
{
    if rollback_armed_exec(s) {
        three_actions(
            CreateAction::RemoveDevice,
            CreateAction::DestroyDriverList,
            CreateAction::DestroyInfoSet,
        )
    } else if holds_driver_list_exec(s) {
        two_actions(CreateAction::DestroyDriverList, CreateAction::DestroyInfoSet)
    } else if holds_info_set_exec(s) {
        one_action(CreateAction::DestroyInfoSet)
    } else {
        no_actions()
    }
}

fn rollback_armed_exec(s: &CreateState) -> (r: bool)
    ensures
        r == rollback_armed(*s),
{
    match s {
        CreateState::AwaitRegister => true,
        CreateState::AwaitCoinstallers => true,
        CreateState::AwaitInterfaces => true,
        CreateState::AwaitInstall => true,
        CreateState::AwaitKey => true,
        CreateState::AwaitIfType => true,
        CreateState::AwaitIfTypeWait => true,
        CreateState::AwaitIndex { .. } => true,
        CreateState::AwaitIndexWait { .. } => true,
        _ => false,
    }
}

fn holds_driver_list_exec(s: &CreateState) -> (r: bool)
    ensures
        r == holds_driver_list(*s),
{
    match s {
        CreateState::AwaitCandidates => true,
        CreateState::AwaitSelectDriver => true,
        _ => rollback_armed_exec(s),
    }
}

fn holds_info_set_exec(s: &CreateState) -> (r: bool)
    ensures
        r == holds_info_set(*s),
{
    match s {
        CreateState::AwaitInfoSet => false,
        CreateState::Done { .. } => false,
        CreateState::Failed { .. } => false,
        _ => true,
    }
}

/// Performs one transition of the creation attempt: from the current state
/// and the observed event to the next state and the actions to perform
/// next, exactly as the transition relation prescribes.
pub fn create_step(component_id: &str, s: CreateState, e: CreateEvent) -> (r: (
    CreateState,
    Vec<CreateAction>,
))
    ensures
        r.0 == spec_create_step(component_id@, s, e).0,
        r.1@ == spec_create_step(component_id@, s, e).1,
{
    match (s, e) {
        (CreateState::AwaitInfoSet, CreateEvent::StepOk) => (
            CreateState::AwaitClassName,
            one_action(CreateAction::QueryClassName),
        ),
        (CreateState::AwaitInfoSet, CreateEvent::StepFailed(code)) => (
            CreateState::Failed { error: TapError::OsError(code) },
            failure_cleanup_actions(&s),
        ),
        (CreateState::AwaitClassName, CreateEvent::StepOk) => (
            CreateState::AwaitNode,
            one_action(CreateAction::CreateNode),
        ),
        (CreateState::AwaitClassName, CreateEvent::StepFailed(code)) => (
            CreateState::Failed { error: TapError::OsError(code) },
            failure_cleanup_actions(&s),
        ),
        (CreateState::AwaitNode, CreateEvent::StepOk) => (
            CreateState::AwaitSelectNode,
            one_action(CreateAction::SelectNode),
        ),
        (CreateState::AwaitNode, CreateEvent::StepFailed(code)) => (
            CreateState::Failed { error: TapError::OsError(code) },
            failure_cleanup_actions(&s),
        ),
        (CreateState::AwaitSelectNode, CreateEvent::StepOk) => (
            CreateState::AwaitHardwareId,
            one_action(CreateAction::WriteHardwareId),
        ),
        (CreateState::AwaitSelectNode, CreateEvent::StepFailed(code)) => (
            CreateState::Failed { error: TapError::OsError(code) },
            failure_cleanup_actions(&s),
        ),
        (CreateState::AwaitHardwareId, CreateEvent::StepOk) => (
            CreateState::AwaitDriverList,
            one_action(CreateAction::BuildDriverList),
        ),
        (CreateState::AwaitHardwareId, CreateEvent::StepFailed(code)) => (
            CreateState::Failed { error: TapError::OsError(code) },
            failure_cleanup_actions(&s),
        ),
        (CreateState::AwaitDriverList, CreateEvent::StepOk) => (
            CreateState::AwaitCandidates,
            one_action(CreateAction::EnumerateDrivers),
        ),
        (CreateState::AwaitDriverList, CreateEvent::StepFailed(code)) => (
            CreateState::Failed { error: TapError::OsError(code) },
            failure_cleanup_actions(&s),
        ),
        (CreateState::AwaitCandidates, CreateEvent::Candidates(v)) => {
            proof {
                lemma_selection_is_best(v@, component_id@, v@.len() as int);
            }
            match select_driver(&v, component_id) {
                Ok(p) => (
                    CreateState::AwaitSelectDriver,
                    one_action(CreateAction::SelectDriver(p.0)),
                ),
                Err(_) => (
                    CreateState::Failed { error: TapError::NotFound },
                    failure_cleanup_actions(&s),
                ),
            }
        },
        (CreateState::AwaitCandidates, CreateEvent::StepFailed(code)) => (
            CreateState::Failed { error: TapError::OsError(code) },
            failure_cleanup_actions(&s),
        ),
        (CreateState::AwaitSelectDriver, CreateEvent::StepOk) => (
            CreateState::AwaitRegister,
            one_action(CreateAction::RegisterDevice),
        ),
        (CreateState::AwaitSelectDriver, CreateEvent::StepFailed(code)) => (
            CreateState::Failed { error: TapError::OsError(code) },
            failure_cleanup_actions(&s),
        ),
        (CreateState::AwaitRegister, CreateEvent::StepOk) => (
            CreateState::AwaitCoinstallers,
            one_action(CreateAction::RegisterCoinstallers),
        ),
        (CreateState::AwaitRegister, CreateEvent::StepFailed(code)) => (
            CreateState::Failed { error: TapError::OsError(code) },
            failure_cleanup_actions(&s),
        ),
        (CreateState::AwaitCoinstallers, CreateEvent::StepOk) => (
            CreateState::AwaitInterfaces,
            one_action(CreateAction::InstallInterfaces),
        ),
        (CreateState::AwaitCoinstallers, CreateEvent::StepFailed(_)) => (
            CreateState::AwaitInterfaces,
            one_action(CreateAction::InstallInterfaces),
        ),
        (CreateState::AwaitInterfaces, CreateEvent::StepOk) => (
            CreateState::AwaitInstall,
            one_action(CreateAction::InstallDevice),
        ),
        (CreateState::AwaitInterfaces, CreateEvent::StepFailed(_)) => (
            CreateState::AwaitInstall,
            one_action(CreateAction::InstallDevice),
        ),
        (CreateState::AwaitInstall, CreateEvent::StepOk) => (
            CreateState::AwaitKey,
            one_action(CreateAction::OpenDriverKey),
        ),
        (CreateState::AwaitInstall, CreateEvent::StepFailed(code)) => (
            CreateState::Failed { error: TapError::OsError(code) },
            failure_cleanup_actions(&s),
        ),
        (CreateState::AwaitKey, CreateEvent::StepOk) => (
            CreateState::AwaitIfType,
            one_action(CreateAction::ReadIfType),
        ),
        (CreateState::AwaitKey, CreateEvent::StepFailed(code)) => (
            CreateState::Failed { error: TapError::OsError(code) },
            failure_cleanup_actions(&s),
        ),
        (CreateState::AwaitIfType, CreateEvent::ValueRead(t)) => (
            CreateState::AwaitIndex { if_type: t },
            one_action(CreateAction::ReadLuidIndex),
        ),
        (CreateState::AwaitIfType, CreateEvent::ValueAbsent) => (
            CreateState::AwaitIfTypeWait,
            one_action(CreateAction::WaitForChange),
        ),
        (CreateState::AwaitIfTypeWait, CreateEvent::StepOk) => (
            CreateState::AwaitIfType,
            one_action(CreateAction::ReadIfType),
        ),
        (CreateState::AwaitIfTypeWait, CreateEvent::WaitTimedOut) => (
            CreateState::AwaitIfType,
            one_action(CreateAction::ReadIfType),
        ),
        (CreateState::AwaitIfTypeWait, CreateEvent::StepFailed(code)) => (
            CreateState::Failed { error: TapError::OsError(code) },
            failure_cleanup_actions(&s),
        ),
        (CreateState::AwaitIndex { if_type }, CreateEvent::ValueRead(x)) => (
            CreateState::Done { ident: AdapterIdentifier::combine(if_type, x) },
            two_actions(CreateAction::DestroyDriverList, CreateAction::DestroyInfoSet),
        ),
        (CreateState::AwaitIndex { if_type }, CreateEvent::ValueAbsent) => (
            CreateState::AwaitIndexWait { if_type },
            one_action(CreateAction::WaitForChange),
        ),
        (CreateState::AwaitIndexWait { if_type }, CreateEvent::StepOk) => (
            CreateState::AwaitIndex { if_type },
            one_action(CreateAction::ReadLuidIndex),
        ),
        (CreateState::AwaitIndexWait { if_type }, CreateEvent::WaitTimedOut) => (
            CreateState::AwaitIndex { if_type },
            one_action(CreateAction::ReadLuidIndex),
        ),
        (CreateState::AwaitIndexWait { .. }, CreateEvent::StepFailed(code)) => (
            CreateState::Failed { error: TapError::OsError(code) },
            failure_cleanup_actions(&s),
        ),
        _ => (s, no_actions()),
    }
}

/// The machine run over a whole sequence of observed events: the final
/// state, and every action handed out along the way, in order.
pub open spec fn spec_create_run(
    component_id: Seq<char>,
    s: CreateState,
    events: Seq<CreateEvent>,
) -> (CreateState, Seq<CreateAction>)
    decreases events.len(),
{
    if events.len() == 0 {
        (s, Seq::empty())
    } else {
        let first = spec_create_step(component_id, s, events[0]);
        let rest = spec_create_run(component_id, first.0, events.drop_first());
        (rest.0, first.1 + rest.1)
    }
}

/// Runs a whole creation attempt over the events observed, starting from
/// the initial request for the information set: the final state, and every
/// action handed out, in order.
pub fn create_interface(component_id: &str, events: Vec<CreateEvent>) -> (r: (
    CreateState,
    Vec<CreateAction>,
))
    ensures
        r.0 == spec_create_run(component_id@, CreateState::AwaitInfoSet, events@).0,
        r.1@ == seq![CreateAction::OpenInfoSet] + spec_create_run(
            component_id@,
            CreateState::AwaitInfoSet,
            events@,
        ).1,
{
    let ghost all_events = events@;
    let (start_state, mut actions) = create_start();
    let mut state = start_state;
    let mut remaining = events;
    while remaining.len() > 0
        invariant
            spec_create_run(component_id@, CreateState::AwaitInfoSet, all_events).0
                == spec_create_run(component_id@, state, remaining@).0,
            seq![CreateAction::OpenInfoSet] + spec_create_run(
                component_id@,
                CreateState::AwaitInfoSet,
                all_events,
            ).1 == actions@ + spec_create_run(component_id@, state, remaining@).1,
        decreases remaining.len(),
    {
        let ghost before = remaining@;
        let e = remaining.remove(0);
        proof {
            assert(before.remove(0) =~= before.drop_first());
        }
        let (next, mut acts) = create_step(component_id, state, e);
        proof {
            assert((actions@ + acts@) + spec_create_run(component_id@, next, remaining@).1
                =~= actions@ + (acts@ + spec_create_run(component_id@, next, remaining@).1));
        }
        actions.append(&mut acts);
        state = next;
    }
    proof {
        assert(actions@ + spec_create_run(component_id@, state, remaining@).1 =~= actions@);
    }
    (state, actions)
}

/// A failure of the device-installation step rolls the partially installed
/// node back: the removal step is handed out, followed by the release of
/// the driver list and of the information set, and the attempt ends with
/// the OS error.
pub proof fn lemma_install_failure_rolls_back(component_id: Seq<char>, code: u32)
    ensures
        spec_create_step(
            component_id,
            CreateState::AwaitInstall,
            CreateEvent::StepFailed(code),
        ).0 == (CreateState::Failed { error: TapError::OsError(code) }),
        spec_create_step(
            component_id,
            CreateState::AwaitInstall,
            CreateEvent::StepFailed(code),
        ).1 == seq![CreateAction::RemoveDevice, CreateAction::DestroyDriverList,
            CreateAction::DestroyInfoSet],
{
}

/// Wherever the rollback obligation is armed, a step that fails the attempt
/// hands the node-removal action out before anything else.
pub proof fn lemma_failure_while_armed(component_id: Seq<char>, s: CreateState, e: CreateEvent)
    requires
        rollback_armed(s),
    ensures
        spec_create_step(component_id, s, e).0 is Failed ==> spec_create_step(
            component_id,
            s,
            e,
        ).1 == seq![CreateAction::RemoveDevice, CreateAction::DestroyDriverList,
            CreateAction::DestroyInfoSet],
{
}

/// A successful attempt defuses the rollback: the final step releases the
/// driver list and the information set and removes nothing.
pub proof fn lemma_success_defuses_rollback(component_id: Seq<char>, s: CreateState, e: CreateEvent)
    requires
        !is_terminal(s),
    ensures
        spec_create_step(component_id, s, e).0 is Done ==> {
            let acts = spec_create_step(component_id, s, e).1;
            &&& acts == seq![CreateAction::DestroyDriverList, CreateAction::DestroyInfoSet]
            &&& !acts.contains(CreateAction::RemoveDevice)
        },
{
    let r = spec_create_step(component_id, s, e);
    if r.0 is Done {
        match (s, e) {
            (CreateState::AwaitIndex { .. }, CreateEvent::ValueRead(_)) => {
                assert(r.1 == seq![CreateAction::DestroyDriverList, CreateAction::DestroyInfoSet]);
                assert(r.1[0] != CreateAction::RemoveDevice);
                assert(r.1[1] != CreateAction::RemoveDevice);
            },
            _ => {
                assert(!(r.0 is Done));
            },
        }
    }
}

/// The number of times the action occurs in a sequence of actions.
pub open spec fn occurrences(acts: Seq<CreateAction>, a: CreateAction) -> nat
    decreases acts.len(),
{
    if acts.len() == 0 {
        0
    } else {
        occurrences(acts.drop_first(), a) + (if acts[0] == a {
            1nat
        } else {
            0nat
        })
    }
}

proof fn lemma_occurrences_add(x: Seq<CreateAction>, y: Seq<CreateAction>, a: CreateAction)
    ensures
        occurrences(x + y, a) == occurrences(x, a) + occurrences(y, a),
    decreases x.len(),
{
    if x.len() == 0 {
        assert(x + y =~= y);
    } else {
        assert((x + y).drop_first() =~= x.drop_first() + y);
        lemma_occurrences_add(x.drop_first(), y, a);
    }
}

/// A terminal state absorbs every further event without action.
pub proof fn lemma_run_from_terminal(
    component_id: Seq<char>,
    s: CreateState,
    events: Seq<CreateEvent>,
)
    requires
        is_terminal(s),
    ensures
        spec_create_run(component_id, s, events).0 == s,
        spec_create_run(component_id, s, events).1 == Seq::<CreateAction>::empty(),
    decreases events.len(),
{
    if events.len() > 0 {
        lemma_run_from_terminal(component_id, s, events.drop_first());
        assert(spec_create_step(component_id, s, events[0]).1 + Seq::<CreateAction>::empty()
            =~= Seq::<CreateAction>::empty());
    }
}

/// One step out of a state holding a collection either keeps holding it
/// with no destroy action, or ends the attempt with exactly one.
proof fn lemma_step_release(component_id: Seq<char>, s: CreateState, e: CreateEvent)
    ensures
        ({
            let r = spec_create_step(component_id, s, e);
            &&& holds_info_set(s) ==> (if is_terminal(r.0) {
                occurrences(r.1, CreateAction::DestroyInfoSet) == 1
            } else {
                holds_info_set(r.0) && occurrences(r.1, CreateAction::DestroyInfoSet) == 0
            })
            &&& holds_driver_list(s) ==> (if is_terminal(r.0) {
                occurrences(r.1, CreateAction::DestroyDriverList) == 1
            } else {
                holds_driver_list(r.0) && occurrences(r.1, CreateAction::DestroyDriverList) == 0
            })
        }),
{
    reveal_with_fuel(occurrences, 5);
    match e {
        CreateEvent::Candidates(v) => {
            lemma_selection_is_best(v@, component_id, v@.len() as int);
        },
        _ => {},
    }
}

/// Every OS collection is released exactly once, on every exit path:
/// starting anywhere while a collection is held, a run that ends —
/// succeeding or failing — hands the matching destroy action out exactly
/// once, and a run that has not ended still holds the collection and has
/// not destroyed it.
pub proof fn lemma_run_releases_exactly_once(
    component_id: Seq<char>,
    s: CreateState,
    events: Seq<CreateEvent>,
)
    ensures
        ({
            let r = spec_create_run(component_id, s, events);
            &&& holds_info_set(s) ==> (if is_terminal(r.0) {
                occurrences(r.1, CreateAction::DestroyInfoSet) == 1
            } else {
                holds_info_set(r.0) && occurrences(r.1, CreateAction::DestroyInfoSet) == 0
            })
            &&& holds_driver_list(s) ==> (if is_terminal(r.0) {
                occurrences(r.1, CreateAction::DestroyDriverList) == 1
            } else {
                holds_driver_list(r.0) && occurrences(r.1, CreateAction::DestroyDriverList) == 0
            })
        }),
    decreases events.len(),
{
    reveal_with_fuel(occurrences, 5);
    if events.len() > 0 {
        lemma_step_release(component_id, s, events[0]);
        let first = spec_create_step(component_id, s, events[0]);
        let rest = spec_create_run(component_id, first.0, events.drop_first());
        lemma_occurrences_add(first.1, rest.1, CreateAction::DestroyInfoSet);
        lemma_occurrences_add(first.1, rest.1, CreateAction::DestroyDriverList);
        if is_terminal(first.0) {
            lemma_run_from_terminal(component_id, first.0, events.drop_first());
        } else {
            lemma_run_releases_exactly_once(component_id, first.0, events.drop_first());
        }
    }
}

/// Whether the event reports an enumerated candidate list holding at least
/// one eligible candidate for the component identifier.
pub open spec fn offers_driver(e: CreateEvent, component_id: Seq<char>) -> bool {
    match e {
        CreateEvent::Candidates(v) => has_eligible(v@, component_id),
        _ => false,
    }
}

/// The states a creation attempt can be in before any driver has been
/// selected, together with the failed state.
pub open spec fn pre_driver_state(s: CreateState) -> bool {
    ||| s is AwaitInfoSet
    ||| s is AwaitClassName
    ||| s is AwaitNode
    ||| s is AwaitSelectNode
    ||| s is AwaitHardwareId
    ||| s is AwaitDriverList
    ||| s is AwaitCandidates
    ||| s is Failed
}

/// Enumerating a candidate list with no eligible candidate fails the
/// attempt with `NotFound` and releases the driver list and the information
/// set — before any registration step was ever handed out.
pub proof fn lemma_no_driver_not_found(component_id: Seq<char>, e: CreateEvent)
    requires
        e is Candidates,
        !offers_driver(e, component_id),
    ensures
        spec_create_step(component_id, CreateState::AwaitCandidates, e).0 == (CreateState::Failed {
            error: TapError::NotFound,
        }),
        spec_create_step(component_id, CreateState::AwaitCandidates, e).1 == seq![
            CreateAction::DestroyDriverList,
            CreateAction::DestroyInfoSet,
        ],
{
    match e {
        CreateEvent::Candidates(v) => {
            lemma_selection_is_best(v@, component_id, v@.len() as int);
        },
        _ => {},
    }
}

/// One step taken before any driver was selected, on an event that offers
/// no eligible candidate, stays before any driver selection and hands out
/// no registration action.
proof fn lemma_pre_driver_step(component_id: Seq<char>, s: CreateState, e: CreateEvent)
    requires
        pre_driver_state(s),
        !offers_driver(e, component_id),
    ensures
        pre_driver_state(spec_create_step(component_id, s, e).0),
        !spec_create_step(component_id, s, e).1.contains(CreateAction::RegisterDevice),
{
    let r = spec_create_step(component_id, s, e);
    match e {
        CreateEvent::Candidates(v) => {
            lemma_selection_is_best(v@, component_id, v@.len() as int);
        },
        _ => {},
    }
    assert(forall|i: int| 0 <= i < r.1.len() ==> r.1[i] != CreateAction::RegisterDevice);
}

/// For every component identifier with no installed compatible driver — no
/// observed event ever offers an eligible candidate — a creation attempt
/// never hands out the device-registration action, and never succeeds: the
/// device class is left without a new device node.
pub proof fn lemma_run_without_driver(
    component_id: Seq<char>,
    s: CreateState,
    events: Seq<CreateEvent>,
)
    requires
        pre_driver_state(s),
        forall|k: int| 0 <= k < events.len() ==> !offers_driver(#[trigger] events[k], component_id),
    ensures
        pre_driver_state(spec_create_run(component_id, s, events).0),
        !spec_create_run(component_id, s, events).1.contains(CreateAction::RegisterDevice),
        !(spec_create_run(component_id, s, events).0 is Done),
    decreases events.len(),
{
    if events.len() > 0 {
        lemma_pre_driver_step(component_id, s, events[0]);
        let first = spec_create_step(component_id, s, events[0]);
        assert(forall|k: int|
            0 <= k < events.drop_first().len() ==> !offers_driver(
                #[trigger] events.drop_first()[k],
                component_id,
            ));
        lemma_run_without_driver(component_id, first.0, events.drop_first());
        let rest = spec_create_run(component_id, first.0, events.drop_first());
        assert(!(first.1 + rest.1).contains(CreateAction::RegisterDevice)) by {
            if (first.1 + rest.1).contains(CreateAction::RegisterDevice) {
                let i = choose|i: int|
                    0 <= i < (first.1 + rest.1).len() && (first.1 + rest.1)[i]
                        == CreateAction::RegisterDevice;
                if i < first.1.len() {
                    assert(first.1.contains(CreateAction::RegisterDevice));
                } else {
                    assert(rest.1[i - first.1.len()] == CreateAction::RegisterDevice);
                    assert(rest.1.contains(CreateAction::RegisterDevice));
                }
            }
        };
    }
}

} // verus!
