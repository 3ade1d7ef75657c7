use tap_windows::catalog::DriverCandidate;
use tap_windows::error::TapError;
use tap_windows::ident::AdapterIdentifier;
use tap_windows::install::{create_interface, create_start, create_step, CreateAction, CreateEvent,
    CreateState};

fn candidate(version: u64, hardware_id: &str) -> DriverCandidate {
    DriverCandidate { version, hardware_id: Some(String::from(hardware_id)) }
}

fn count(actions: &[CreateAction], a: CreateAction) -> usize {
    actions.iter().filter(|&&x| x == a).count()
}

#[test]
fn start_asks_for_the_info_set() {
    let (state, actions) = create_start();
    assert_eq!(state, CreateState::AwaitInfoSet);
    assert_eq!(actions, vec![CreateAction::OpenInfoSet]);
}

#[test]
fn absent_driver_package_fails_before_any_registration() {
    // every step up to the driver enumeration succeeds, but no candidate
    // matches the requested component identifier
    let events = vec![
        CreateEvent::StepOk,
        CreateEvent::StepOk,
        CreateEvent::StepOk,
        CreateEvent::StepOk,
        CreateEvent::StepOk,
        CreateEvent::StepOk,
        CreateEvent::Candidates(vec![candidate(3, "othervendor0001")]),
    ];
    let (state, actions) = create_interface("tap0901", events);
    assert_eq!(state, CreateState::Failed { error: TapError::NotFound });
    assert!(!actions.contains(&CreateAction::RegisterDevice));
    assert!(!actions.contains(&CreateAction::RemoveDevice));
    assert_eq!(
        actions,
        vec![
            CreateAction::OpenInfoSet,
            CreateAction::QueryClassName,
            CreateAction::CreateNode,
            CreateAction::SelectNode,
            CreateAction::WriteHardwareId,
            CreateAction::BuildDriverList,
            CreateAction::EnumerateDrivers,
            CreateAction::DestroyDriverList,
            CreateAction::DestroyInfoSet,
        ]
    );
}

#[test]
fn empty_candidate_list_fails_before_any_registration() {
    let events = vec![
        CreateEvent::StepOk,
        CreateEvent::StepOk,
        CreateEvent::StepOk,
        CreateEvent::StepOk,
        CreateEvent::StepOk,
        CreateEvent::StepOk,
        CreateEvent::Candidates(Vec::new()),
    ];
    let (state, actions) = create_interface("tap0901", events);
    assert_eq!(state, CreateState::Failed { error: TapError::NotFound });
    assert!(!actions.contains(&CreateAction::RegisterDevice));
    // both OS collections are still released
    assert!(actions.contains(&CreateAction::DestroyDriverList));
    assert!(actions.contains(&CreateAction::DestroyInfoSet));
}

#[test]
fn install_device_failure_rolls_the_node_back() {
    let events = vec![
        CreateEvent::StepOk,                                        // info set
        CreateEvent::StepOk,                                        // class name
        CreateEvent::StepOk,                                        // node
        CreateEvent::StepOk,                                        // select node
        CreateEvent::StepOk,                                        // hardware id
        CreateEvent::StepOk,                                        // driver list
        CreateEvent::Candidates(vec![candidate(7, "tap0901")]),     // enumeration
        CreateEvent::StepOk,                                        // select driver
        CreateEvent::StepOk,                                        // register device
        CreateEvent::StepOk,                                        // co-installers
        CreateEvent::StepOk,                                        // interfaces
        CreateEvent::StepFailed(31),                                // install device
    ];
    let (state, actions) = create_interface("tap0901", events);
    assert_eq!(state, CreateState::Failed { error: TapError::OsError(31) });
    // the registered node is removed before the collections are released
    let tail = &actions[actions.len() - 3..];
    assert_eq!(
        tail,
        &[CreateAction::RemoveDevice, CreateAction::DestroyDriverList,
            CreateAction::DestroyInfoSet]
    );
    // each collection is released exactly once
    assert_eq!(count(&actions, CreateAction::DestroyDriverList), 1);
    assert_eq!(count(&actions, CreateAction::DestroyInfoSet), 1);
}

#[test]
fn register_device_failure_also_rolls_back() {
    let (state, actions) =
        create_step("tap0901", CreateState::AwaitRegister, CreateEvent::StepFailed(5));
    assert_eq!(state, CreateState::Failed { error: TapError::OsError(5) });
    assert_eq!(
        actions,
        vec![CreateAction::RemoveDevice, CreateAction::DestroyDriverList,
            CreateAction::DestroyInfoSet]
    );
}

#[test]
fn best_effort_steps_never_fail_the_attempt() {
    let (state, actions) =
        create_step("tap0901", CreateState::AwaitCoinstallers, CreateEvent::StepFailed(87));
    assert_eq!(state, CreateState::AwaitInterfaces);
    assert_eq!(actions, vec![CreateAction::InstallInterfaces]);
    let (state, actions) =
        create_step("tap0901", CreateState::AwaitInterfaces, CreateEvent::StepFailed(87));
    assert_eq!(state, CreateState::AwaitInstall);
    assert_eq!(actions, vec![CreateAction::InstallDevice]);
}

#[test]
fn registry_wait_timeout_re_arms_the_poll() {
    let (state, actions) =
        create_step("tap0901", CreateState::AwaitIfType, CreateEvent::ValueAbsent);
    assert_eq!(state, CreateState::AwaitIfTypeWait);
    assert_eq!(actions, vec![CreateAction::WaitForChange]);
    let (state, actions) =
        create_step("tap0901", CreateState::AwaitIfTypeWait, CreateEvent::WaitTimedOut);
    assert_eq!(state, CreateState::AwaitIfType);
    assert_eq!(actions, vec![CreateAction::ReadIfType]);
}

#[test]
fn registry_wait_os_failure_is_fatal_and_rolls_back() {
    let (state, actions) =
        create_step("tap0901", CreateState::AwaitIfTypeWait, CreateEvent::StepFailed(6));
    assert_eq!(state, CreateState::Failed { error: TapError::OsError(6) });
    assert_eq!(
        actions,
        vec![CreateAction::RemoveDevice, CreateAction::DestroyDriverList,
            CreateAction::DestroyInfoSet]
    );
}

#[test]
fn successful_attempt_resolves_the_identifier() {
    let events = vec![
        CreateEvent::StepOk,                                        // info set
        CreateEvent::StepOk,                                        // class name
        CreateEvent::StepOk,                                        // node
        CreateEvent::StepOk,                                        // select node
        CreateEvent::StepOk,                                        // hardware id
        CreateEvent::StepOk,                                        // driver list
        CreateEvent::Candidates(vec![
            candidate(3, "tap0901"),
            candidate(7, "TAP0901"),
            candidate(5, "tap0901"),
        ]),
        CreateEvent::StepOk,                                        // select driver
        CreateEvent::StepOk,                                        // register device
        CreateEvent::StepFailed(2),                                 // co-installers: best effort
        CreateEvent::StepOk,                                        // interfaces
        CreateEvent::StepOk,                                        // install device
        CreateEvent::StepOk,                                        // driver key
        CreateEvent::ValueAbsent,                                   // interface type not yet there
        CreateEvent::WaitTimedOut,                                  // bounded wait elapsed
        CreateEvent::ValueRead(6),                                  // interface type
        CreateEvent::ValueAbsent,                                   // index not yet there
        CreateEvent::StepOk,                                        // change notification
        CreateEvent::ValueRead(42),                                 // index
    ];
    let (state, actions) = create_interface("tap0901", events);
    assert_eq!(
        state,
        CreateState::Done { ident: AdapterIdentifier::combine(6, 42) }
    );
    // the candidate with version 7 was selected
    assert!(actions.contains(&CreateAction::SelectDriver(1)));
    // success defuses the rollback but still releases both collections,
    // each exactly once
    assert!(!actions.contains(&CreateAction::RemoveDevice));
    let tail = &actions[actions.len() - 2..];
    assert_eq!(tail, &[CreateAction::DestroyDriverList, CreateAction::DestroyInfoSet]);
    assert_eq!(count(&actions, CreateAction::DestroyDriverList), 1);
    assert_eq!(count(&actions, CreateAction::DestroyInfoSet), 1);
}

#[test]
fn early_failure_releases_only_what_is_held() {
    // the information set itself could not be opened: nothing to release
    let (state, actions) =
        create_step("tap0901", CreateState::AwaitInfoSet, CreateEvent::StepFailed(8));
    assert_eq!(state, CreateState::Failed { error: TapError::OsError(8) });
    assert!(actions.is_empty());
    // after it is open, a failure releases exactly the set
    let (state, actions) =
        create_step("tap0901", CreateState::AwaitNode, CreateEvent::StepFailed(8));
    assert_eq!(state, CreateState::Failed { error: TapError::OsError(8) });
    assert_eq!(actions, vec![CreateAction::DestroyInfoSet]);
}

#[test]
fn terminal_states_absorb_further_events() {
    let done = CreateState::Done { ident: AdapterIdentifier::combine(6, 42) };
    let (state, actions) = create_step("tap0901", done, CreateEvent::StepOk);
    assert_eq!(state, done);
    assert!(actions.is_empty());
    let failed = CreateState::Failed { error: TapError::NotFound };
    let (state, actions) = create_step("tap0901", failed, CreateEvent::StepFailed(1));
    assert_eq!(state, failed);
    assert!(actions.is_empty());
}
