use duck_robot::{
    AuthenticateParams, ChoraleResult, ComponentId, Error, ImuHealth, IntentResult, NetConnectParams,
    SoundTag, ThereminResult,
};

#[test]
fn a_wifi_key_is_redacted_from_debug_output() {
    let secret = "correct horse battery staple";
    let params = NetConnectParams {
        ssid: "Home".into(),
        psk: Some(secret.into()),
    };

    let debug = params.debug_string();
    assert!(
        !debug.contains(secret),
        "the key reached Debug output: {debug}"
    );
    assert!(debug.contains("Home"), "{debug}");
    // Presence still visible: "wrong password" and "no password sent" are different bugs.
    assert!(debug.contains("redacted"), "{debug}");

    let open = NetConnectParams {
        ssid: "Cafe".into(),
        psk: None,
    };
    assert!(open.debug_string().contains("none"), "{}", open.debug_string());
}

#[test]
fn redacted_renderings_read_like_debug() {
    let params = NetConnectParams { ssid: "Home \"5G\"".into(), psk: Some("k".into()) };
    assert_eq!(
        params.debug_string(),
        "NetConnectParams { ssid: \"Home \\\"5G\\\"\", psk: \"<redacted>\" }"
    );
    let pin = AuthenticateParams { pin: "482913".into() };
    assert!(!pin.debug_string().contains("482913"));
    assert_eq!(pin.debug_string(), "AuthenticateParams { pin: \"<redacted>\" }");
}

#[test]
fn a_frozen_imu_is_a_run_not_a_total() {
    let hiccups = ImuHealth { ready: true, stale_blocks: 10_000, consecutive_stale_blocks: 3 };
    assert!(!hiccups.frozen());
    let frozen = ImuHealth { consecutive_stale_blocks: ImuHealth::FROZEN_RUN, ..hiccups };
    assert!(frozen.frozen());
    let almost = ImuHealth { consecutive_stale_blocks: ImuHealth::FROZEN_RUN - 1, ..hiccups };
    assert!(!almost.frozen());
    assert!(!ImuHealth::default().frozen(), "a default run must never look like a dead IMU");
}

#[test]
fn intent_results_say_why_not() {
    let yes = IntentResult::accepted();
    assert!(yes.accepted);
    assert_eq!(yes.reason, None);
    let no = IntentResult::refused("robot is fallen".to_owned());
    assert!(!no.accepted);
    assert_eq!(no.reason.as_deref(), Some("robot is fallen"));
    assert!(ThereminResult::default().accepted);
    assert!(ChoraleResult::default().accepted);
    assert_eq!(ChoraleResult::default().reason, None);
}

#[test]
fn sound_tags_name_their_voice_bank_directories() {
    assert_eq!(SoundTag::Alarm.as_str(), "alarm");
    assert_eq!(SoundTag::Greet.as_str(), "greet");
    assert_eq!(SoundTag::Inquire.as_str(), "inquire");
    assert_eq!(SoundTag::Peck.as_str(), "peck");
    assert_eq!(SoundTag::Chirp.as_str(), "chirp");
    assert_eq!(SoundTag::Coo.as_str(), "coo");
    assert_eq!(SoundTag::Wheee.as_str(), "wheee");
}

#[test]
fn a_component_id_is_its_name() {
    let id = ComponentId::new("daemon".to_owned());
    assert_eq!(id.as_str(), "daemon");
    assert_eq!(id, ComponentId("daemon".to_owned()));
}

#[test]
fn an_error_displays_its_code_then_its_message() {
    let busy = Error::new(1, "another update is in progress".to_string());
    assert_eq!(busy.to_string(), "[1] another update is in progress");
    let unknown = Error::new(-32601, "unknown method \"x\"".to_string());
    assert_eq!(unknown.to_string(), "[-32601] unknown method \"x\"");
    assert_eq!(Error::new(i32::MIN, String::new()).to_string(), "[-2147483648] ");
    assert_eq!(Error::new(0, "x".to_string()).to_string(), "[0] x");
    assert_eq!(Error::new(1234567890, "big".to_string()).to_string(), "[1234567890] big");
}

#[test]
fn a_component_id_displays_as_its_name() {
    assert_eq!(ComponentId::new("daemon".to_string()).to_string(), "daemon");
}
