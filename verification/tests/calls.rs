use duck_robot::call::CallKind;
use duck_robot::code;
use duck_robot::method;
use duck_robot::{Lane, ParamsRule, Service};

/// One of every call a client sends, in the order the protocol lists them.
fn every_call() -> Vec<CallKind> {
    vec![
        CallKind::Hello,
        CallKind::Check,
        CallKind::Apply,
        CallKind::Rollback,
        CallKind::ResetToGolden,
        CallKind::Select,
        CallKind::Pin,
        CallKind::Status,
        CallKind::ListInstalled,
        CallKind::Log,
        CallKind::Show,
        CallKind::Subscribe,
        CallKind::RobotSafeToRestart,
        CallKind::RobotHealth,
        CallKind::RobotModelApi,
        CallKind::RobotRemoteSessionActive,
        CallKind::RobotMove,
        CallKind::RobotHead,
        CallKind::RobotLook,
        CallKind::RobotStop,
        CallKind::RobotEnable,
        CallKind::RobotInit,
        CallKind::RobotRelax,
        CallKind::RobotDo,
        CallKind::RobotPose,
        CallKind::RobotMouth,
        CallKind::RobotSound,
        CallKind::RobotShutdown,
        CallKind::RobotMode,
        CallKind::RobotSubscribe,
        CallKind::NetStatus,
        CallKind::NetScan,
        CallKind::NetConnect,
        CallKind::NetForget,
        CallKind::SystemInfo,
        CallKind::SystemServices,
        CallKind::SystemSetName,
        CallKind::SystemReboot,
        CallKind::SystemPairingPin,
        CallKind::SystemSetPairingPin,
        CallKind::SystemAuthenticate,
        CallKind::PadStatus,
        CallKind::PadPair,
        CallKind::PadForget,
        CallKind::PadInput,
        CallKind::TofStream,
    ]
}

#[test]
fn only_authenticate_has_no_service() {
    for call in every_call() {
        let has = call.destination().is_some();
        let expected = !matches!(call, CallKind::SystemAuthenticate);
        assert_eq!(
            has,
            expected,
            "{} destination() = {:?}",
            call.method(),
            call.destination()
        );
    }
}

#[test]
fn subscriptions_are_the_only_thing_on_the_stream_lane() {
    for call in every_call() {
        if let Some((_, Lane::Stream)) = call.destination() {
            assert!(
                matches!(
                    call,
                    CallKind::Subscribe
                        | CallKind::RobotSubscribe
                        | CallKind::PadInput
                        | CallKind::TofStream
                ),
                "{} is on the Stream lane but is not a subscription",
                call.method()
            );
        }
    }
}

#[test]
fn every_call_covers_every_variant() {
    assert_eq!(
        every_call().len(),
        46,
        "a Call variant was added or removed — update every_call() and this count"
    );
}

#[test]
fn every_call_has_a_distinct_method() {
    let calls = every_call();
    let names: std::collections::BTreeSet<_> = calls.iter().map(|c| c.method()).collect();
    assert_eq!(
        names.len(),
        calls.len(),
        "every_call lists the same method twice, so a variant is standing in for another"
    );
}

#[test]
fn only_software_changing_calls_are_mutating() {
    let mutating: Vec<&'static str> = every_call()
        .iter()
        .filter(|call| call.is_mutating())
        .map(|call| call.method())
        .collect();

    assert_eq!(
        mutating,
        vec![
            method::APPLY,
            method::ROLLBACK,
            method::RESET_TO_GOLDEN,
            method::SELECT,
            method::PIN,
            method::ROBOT_SHUTDOWN,
            method::NET_CONNECT,
            method::NET_FORGET,
            method::SYSTEM_SET_NAME,
            method::SYSTEM_REBOOT,
            method::SYSTEM_SET_PAIRING_PIN,
            method::PAD_PAIR,
            method::PAD_FORGET,
        ]
    );
}

#[test]
fn component_carrying_calls_expose_it() {
    for call in every_call() {
        let carries_one = matches!(
            call.method(),
            method::CHECK
                | method::APPLY
                | method::ROLLBACK
                | method::RESET_TO_GOLDEN
                | method::SELECT
                | method::PIN
                | method::LIST_INSTALLED
        );
        assert_eq!(call.carries_component(), carries_one, "{}", call.method());
    }
}

#[test]
fn every_method_name_reads_back_as_its_call() {
    let all = CallKind::all();
    assert_eq!(all.len(), 52);
    for call in all {
        assert_eq!(CallKind::from_method(call.method()), Some(call), "{}", call.method());
        assert_eq!(CallKind::parse_method(call.method()).unwrap(), call);
    }
}

#[test]
fn method_names_are_the_documented_ones() {
    assert_eq!(CallKind::Hello.method(), "hello");
    assert_eq!(CallKind::Apply.method(), "update.apply");
    assert_eq!(CallKind::RobotRemoteSessionActive.method(), "robot.remoteSessionActive");
    assert_eq!(CallKind::ChoraleBeaconSet.method(), "chorale.beacon");
    assert_eq!(CallKind::TofStream.method(), "tof.stream");
}

#[test]
fn an_unknown_method_is_method_not_found_and_named() {
    let error = CallKind::parse_method("update.doSomethingElse").unwrap_err();
    assert_eq!(error.code, code::METHOD_NOT_FOUND);
    assert_eq!(error.message, "unknown method \"update.doSomethingElse\"");
    assert!(error.data.is_none());
    assert_ne!(code::METHOD_NOT_FOUND, code::INVALID_PARAMS);
    // A name is matched exactly: no case folding, no prefix match.
    assert_eq!(CallKind::from_method("Hello"), None);
    assert_eq!(CallKind::from_method("update.applyx"), None);
    assert_eq!(CallKind::from_method(""), None);
}

#[test]
fn routes_follow_the_service_that_answers() {
    assert_eq!(CallKind::Hello.destination(), Some((Service::Updater, Lane::Prompt)));
    assert_eq!(CallKind::Check.destination(), Some((Service::Updater, Lane::Slow)));
    assert_eq!(CallKind::Apply.destination(), Some((Service::Updater, Lane::Operation)));
    assert_eq!(CallKind::ChoraleSubscribe.destination(), Some((Service::Robot, Lane::Stream)));
    assert_eq!(CallKind::NetScan.destination(), Some((Service::Config, Lane::Slow)));
    assert_eq!(CallKind::PadPair.destination(), Some((Service::Config, Lane::Operation)));
    assert_eq!(CallKind::PadInput.destination(), Some((Service::Pad, Lane::Stream)));
    assert_eq!(CallKind::TofStream.destination(), Some((Service::Tof, Lane::Stream)));
    assert_eq!(CallKind::ChoraleBeaconSet.destination(), None);
    assert_eq!(CallKind::ChoraleHeard.destination(), None);
}

#[test]
fn params_rules_match_what_each_method_takes() {
    assert_eq!(CallKind::RobotHealth.params_rule(), ParamsRule::Ignored);
    assert_eq!(CallKind::PadPair.params_rule(), ParamsRule::DefaultsWhenAbsent);
    assert_eq!(CallKind::Apply.params_rule(), ParamsRule::Required);
    let defaulted: Vec<CallKind> = CallKind::all()
        .into_iter()
        .filter(|c| c.params_rule() == ParamsRule::DefaultsWhenAbsent)
        .collect();
    assert_eq!(defaulted, vec![CallKind::PadPair]);
}

#[test]
fn only_a_progress_notification_reads_as_progress() {
    assert!(duck_robot::call::progress_check("update.progress").is_ok());
    let error = duck_robot::call::progress_check("robot.state").unwrap_err();
    assert_eq!(error.code, code::METHOD_NOT_FOUND);
    assert_eq!(error.message, "\"robot.state\" is not a progress notification");
}
