use sensor_telemetry::wifi::{
    choose_auth_method, find_channel, AccessPointInfo, ApIpStatus, ApStatus, Association,
    AssociationAction, AssociationError, AssociationEvent, AuthMethod, ClientConnectionStatus,
    ClientIpStatus, ClientStatus, Phase, Status,
};

fn ap(ssid: &str, channel: u8) -> AccessPointInfo {
    AccessPointInfo { ssid: ssid.to_string(), channel }
}

fn connected() -> Status {
    Status {
        client: ClientStatus::Started(ClientConnectionStatus::Connected(ClientIpStatus::Done)),
        ap: ApStatus::Stopped,
    }
}

#[test]
fn empty_name_fails_before_any_platform_work() {
    let (a, action) = Association::begin("", "secret", 30);
    assert!(matches!(action, AssociationAction::Fail(AssociationError::MissingName)));
    assert_eq!(a.phase, Phase::Finished);
    let (_, action) = Association::begin("", "", 30);
    assert!(matches!(action, AssociationAction::Fail(AssociationError::MissingName)));
}

#[test]
fn empty_secret_chooses_open_auth() {
    assert_eq!(choose_auth_method(""), AuthMethod::Open);
    let (a, action) = Association::begin("Home", "", 30);
    assert_eq!(a.auth_method, AuthMethod::Open);
    assert!(matches!(action, AssociationAction::AcquirePlatform));
}

#[test]
fn non_empty_secret_chooses_pre_shared_key() {
    assert_eq!(choose_auth_method("hunter2"), AuthMethod::WPA2Personal);
    let (a, _) = Association::begin("Home", "hunter2", 30);
    assert_eq!(a.auth_method, AuthMethod::WPA2Personal);
}

#[test]
fn channel_of_first_matching_access_point() {
    let aps = vec![ap("Office", 1), ap("Home", 6), ap("Home", 11)];
    assert_eq!(find_channel(&aps, "Home"), Some(6));
    assert_eq!(find_channel(&aps, "Cafe"), None);
    assert_eq!(find_channel(&Vec::new(), "Home"), None);
}

fn settle(a: &mut Association) -> AssociationAction {
    assert!(matches!(a.step(AssociationEvent::PlatformReady), AssociationAction::Scan));
    let action = a.step(AssociationEvent::ScanCompleted(vec![ap("Home", 9)]));
    assert!(matches!(action, AssociationAction::Configure(_)));
    a.step(AssociationEvent::Configured)
}

#[test]
fn timeout_while_transitional_is_a_timeout() {
    let (mut a, _) = Association::begin("Home", "pw", 45);
    assert!(matches!(settle(&mut a), AssociationAction::AwaitSettled(45)));
    let action = a.step(AssociationEvent::TimedOut);
    assert!(matches!(action, AssociationAction::Fail(AssociationError::Timeout)));
    assert_eq!(a.phase, Phase::Finished);
}

#[test]
fn unexpected_final_status_is_reported() {
    let (mut a, _) = Association::begin("Home", "pw", 45);
    settle(&mut a);
    assert!(matches!(a.step(AssociationEvent::Settled), AssociationAction::ReadStatus));
    let status = Status {
        client: ClientStatus::Started(ClientConnectionStatus::Disconnected),
        ap: ApStatus::Stopped,
    };
    match a.step(AssociationEvent::StatusRead(status)) {
        AssociationAction::Fail(AssociationError::Unexpected(s)) => assert_eq!(s, status),
        other => panic!("unexpected action {:?}", other),
    }
}

#[test]
fn connected_without_address_is_unexpected() {
    let (mut a, _) = Association::begin("Home", "pw", 45);
    settle(&mut a);
    a.step(AssociationEvent::Settled);
    let status = Status {
        client: ClientStatus::Started(ClientConnectionStatus::Connected(ClientIpStatus::Disabled)),
        ap: ApStatus::Stopped,
    };
    let action = a.step(AssociationEvent::StatusRead(status));
    assert!(matches!(action, AssociationAction::Fail(AssociationError::Unexpected(_))));
}

#[test]
fn platform_and_driver_failures() {
    let (mut a, _) = Association::begin("Home", "pw", 45);
    let action = a.step(AssociationEvent::PlatformFailed);
    assert!(matches!(action, AssociationAction::Fail(AssociationError::PlatformInit)));
    let (mut a, _) = Association::begin("Home", "pw", 45);
    a.step(AssociationEvent::PlatformReady);
    let action = a.step(AssociationEvent::DriverFailed);
    assert!(matches!(action, AssociationAction::Fail(AssociationError::Driver)));
    let (mut a, _) = Association::begin("Home", "pw", 45);
    let action = a.step(AssociationEvent::Settled);
    assert!(matches!(action, AssociationAction::Fail(AssociationError::OutOfOrder)));
}

#[test]
fn transitional_statuses() {
    assert!(Status { client: ClientStatus::Starting, ap: ApStatus::Stopped }.is_transitional());
    assert!(Status {
        client: ClientStatus::Started(ClientConnectionStatus::Connected(ClientIpStatus::Waiting)),
        ap: ApStatus::Stopped,
    }
    .is_transitional());
    assert!(Status { client: ClientStatus::Stopped, ap: ApStatus::Started(ApIpStatus::Waiting) }
        .is_transitional());
    assert!(!connected().is_transitional());
    assert!(connected().is_associated());
    assert!(!Status { client: ClientStatus::Stopped, ap: ApStatus::Stopped }.is_transitional());
}

#[test]
fn open_network_absent_from_scan_connects_without_channel() {
    let (mut a, action) = Association::begin("Home", "", 2100);
    assert!(matches!(action, AssociationAction::AcquirePlatform));
    assert!(matches!(a.step(AssociationEvent::PlatformReady), AssociationAction::Scan));
    match a.step(AssociationEvent::ScanCompleted(vec![ap("Neighbour", 3)])) {
        AssociationAction::Configure(c) => {
            assert_eq!(c.ssid, "Home");
            assert_eq!(c.password, "");
            assert_eq!(c.channel, None);
            assert_eq!(c.auth_method, AuthMethod::Open);
        }
        other => panic!("unexpected action {:?}", other),
    }
    assert!(matches!(a.step(AssociationEvent::Configured), AssociationAction::AwaitSettled(2100)));
    assert!(matches!(a.step(AssociationEvent::Settled), AssociationAction::ReadStatus));
    assert!(matches!(a.step(AssociationEvent::StatusRead(connected())), AssociationAction::Connected));
}

#[test]
fn scan_match_pins_channel() {
    let (mut a, _) = Association::begin("Home", "pw", 30);
    a.step(AssociationEvent::PlatformReady);
    match a.step(AssociationEvent::ScanCompleted(vec![ap("Other", 1), ap("Home", 11)])) {
        AssociationAction::Configure(c) => {
            assert_eq!(c.channel, Some(11));
            assert_eq!(c.password, "pw");
            assert_eq!(c.auth_method, AuthMethod::WPA2Personal);
        }
        other => panic!("unexpected action {:?}", other),
    }
    assert_eq!(a.channel, Some(11));
}
