//! Calls, as the protocol knows them without their parameters: which method each one is, who
//! answers it, on which lane, and what its parameters are allowed to look like.
//!
//! Every decision the wire layer makes about a call before touching its parameters is made here:
//! its method name, whether it changes the robot, where it is routed, and how a method name that
//! arrived is read back.
use vstd::prelude::*;

use crate::code;
use crate::error::Error;
use crate::method;
use crate::text::{chars_of, concat, quote_debug, same_chars, str_eq, debug_quoted};

verus! {

broadcast use vstd::string::group_string_axioms;

/// One variant per method a client can call — the typed form of a method name.
#[derive(Debug, Clone, Copy, PartialEq, Eq, Hash, Structural)]
pub enum CallKind {
    Hello,
    Check,
    Apply,
    Rollback,
    ResetToGolden,
    Select,
    Pin,
    Status,
    ListInstalled,
    Log,
    Show,
    Subscribe,
    RobotSafeToRestart,
    RobotHealth,
    RobotModelApi,
    RobotRemoteSessionActive,
    RobotMove,
    RobotHead,
    RobotLook,
    RobotStop,
    RobotEnable,
    RobotInit,
    RobotRelax,
    RobotDo,
    RobotPose,
    RobotMouth,
    RobotSound,
    RobotTheremin,
    RobotChorale,
    ChoraleSubscribe,
    ChoraleBeaconSet,
    ChoraleHeard,
    RobotShutdown,
    RobotMode,
    RobotSetMode,
    RobotSubscribe,
    NetStatus,
    NetScan,
    NetConnect,
    NetForget,
    SystemInfo,
    SystemServices,
    SystemSetName,
    SystemReboot,
    SystemPairingPin,
    SystemSetPairingPin,
    SystemAuthenticate,
    PadStatus,
    PadPair,
    PadForget,
    PadInput,
    TofStream,
}

/// The service that owns the answer to a call.
///
/// One socket per service, connected directly — there is no broker.
#[derive(Debug, Clone, Copy, PartialEq, Eq, Hash, Structural)]
pub enum Service {
    /// `updaterd`, at [`crate::DEFAULT_SOCKET`].
    Updater,
    /// `robotd` — the control loop.
    Robot,
    /// `configd` — wifi, identity, the pairing PIN, gamepad bonding.
    Config,
    /// `padd` — the raw gamepad input stream.
    Pad,
    /// `tofd` — the depth stream.
    Tof,
}

/// How long answering a call holds a connection, and therefore which connection carries it.
#[derive(Debug, Clone, Copy, PartialEq, Eq, Hash, Structural)]
pub enum Lane {
    /// Answers as fast as the daemon can look something up.
    Prompt,
    /// Seconds: a read that goes to the network or sweeps a radio.
    Slow,
    /// As long as it takes, and it changes the robot.
    Operation,
    /// Never answers. The service writes notifications until the peer goes away.
    Stream,
}

/// What a method's `params` member may be.
#[derive(Debug, Clone, Copy, PartialEq, Eq, Structural)]
pub enum ParamsRule {
    /// The method takes none: whatever arrived is ignored, and `{}` is sent.
    Ignored,
    /// The parameters are decoded from what arrived; an absent member decodes as `null`.
    Required,
    /// Every parameter is optional: an absent member means "all defaults", `{}`.
    DefaultsWhenAbsent,
}

/// The wire name of each call.
pub open spec fn method_name(k: CallKind) -> Seq<char> {
    match k {
        CallKind::Hello => seq!['h', 'e', 'l', 'l', 'o'],
        CallKind::Check => seq!['u', 'p', 'd', 'a', 't', 'e', '.', 'c', 'h', 'e', 'c', 'k'],
        CallKind::Apply => seq!['u', 'p', 'd', 'a', 't', 'e', '.', 'a', 'p', 'p', 'l', 'y'],
        CallKind::Rollback => seq!['u', 'p', 'd', 'a', 't', 'e', '.', 'r', 'o', 'l', 'l', 'b', 'a', 'c', 'k'],
        CallKind::ResetToGolden => seq!['u', 'p', 'd', 'a', 't', 'e', '.', 'r', 'e', 's', 'e', 't', 'T', 'o', 'G', 'o', 'l', 'd', 'e', 'n'],
        CallKind::Select => seq!['u', 'p', 'd', 'a', 't', 'e', '.', 's', 'e', 'l', 'e', 'c', 't'],
        CallKind::Pin => seq!['u', 'p', 'd', 'a', 't', 'e', '.', 'p', 'i', 'n'],
        CallKind::Status => seq!['u', 'p', 'd', 'a', 't', 'e', '.', 's', 't', 'a', 't', 'u', 's'],
        CallKind::ListInstalled => seq!['u', 'p', 'd', 'a', 't', 'e', '.', 'l', 'i', 's', 't', 'I', 'n', 's', 't', 'a', 'l', 'l', 'e', 'd'],
        CallKind::Log => seq!['u', 'p', 'd', 'a', 't', 'e', '.', 'l', 'o', 'g'],
        CallKind::Show => seq!['u', 'p', 'd', 'a', 't', 'e', '.', 's', 'h', 'o', 'w'],
        CallKind::Subscribe => seq!['u', 'p', 'd', 'a', 't', 'e', '.', 's', 'u', 'b', 's', 'c', 'r', 'i', 'b', 'e'],
        CallKind::RobotSafeToRestart => seq!['r', 'o', 'b', 'o', 't', '.', 's', 'a', 'f', 'e', 'T', 'o', 'R', 'e', 's', 't', 'a', 'r', 't'],
        CallKind::RobotHealth => seq!['r', 'o', 'b', 'o', 't', '.', 'h', 'e', 'a', 'l', 't', 'h'],
        CallKind::RobotModelApi => seq!['r', 'o', 'b', 'o', 't', '.', 'm', 'o', 'd', 'e', 'l', 'A', 'p', 'i'],
        CallKind::RobotRemoteSessionActive => seq!['r', 'o', 'b', 'o', 't', '.', 'r', 'e', 'm', 'o', 't', 'e', 'S', 'e', 's', 's', 'i', 'o', 'n', 'A', 'c', 't', 'i', 'v', 'e'],
        CallKind::RobotMove => seq!['r', 'o', 'b', 'o', 't', '.', 'm', 'o', 'v', 'e'],
        CallKind::RobotHead => seq!['r', 'o', 'b', 'o', 't', '.', 'h', 'e', 'a', 'd'],
        CallKind::RobotLook => seq!['r', 'o', 'b', 'o', 't', '.', 'l', 'o', 'o', 'k'],
        CallKind::RobotStop => seq!['r', 'o', 'b', 'o', 't', '.', 's', 't', 'o', 'p'],
        CallKind::RobotEnable => seq!['r', 'o', 'b', 'o', 't', '.', 'e', 'n', 'a', 'b', 'l', 'e'],
        CallKind::RobotInit => seq!['r', 'o', 'b', 'o', 't', '.', 'i', 'n', 'i', 't'],
        CallKind::RobotRelax => seq!['r', 'o', 'b', 'o', 't', '.', 'r', 'e', 'l', 'a', 'x'],
        CallKind::RobotDo => seq!['r', 'o', 'b', 'o', 't', '.', 'd', 'o'],
        CallKind::RobotPose => seq!['r', 'o', 'b', 'o', 't', '.', 'p', 'o', 's', 'e'],
        CallKind::RobotMouth => seq!['r', 'o', 'b', 'o', 't', '.', 'm', 'o', 'u', 't', 'h'],
        CallKind::RobotSound => seq!['r', 'o', 'b', 'o', 't', '.', 's', 'o', 'u', 'n', 'd'],
        CallKind::RobotTheremin => seq!['r', 'o', 'b', 'o', 't', '.', 't', 'h', 'e', 'r', 'e', 'm', 'i', 'n'],
        CallKind::RobotChorale => seq!['r', 'o', 'b', 'o', 't', '.', 'c', 'h', 'o', 'r', 'a', 'l', 'e'],
        CallKind::ChoraleSubscribe => seq!['c', 'h', 'o', 'r', 'a', 'l', 'e', '.', 's', 'u', 'b', 's', 'c', 'r', 'i', 'b', 'e'],
        CallKind::ChoraleBeaconSet => seq!['c', 'h', 'o', 'r', 'a', 'l', 'e', '.', 'b', 'e', 'a', 'c', 'o', 'n'],
        CallKind::ChoraleHeard => seq!['c', 'h', 'o', 'r', 'a', 'l', 'e', '.', 'h', 'e', 'a', 'r', 'd'],
        CallKind::RobotShutdown => seq!['r', 'o', 'b', 'o', 't', '.', 's', 'h', 'u', 't', 'd', 'o', 'w', 'n'],
        CallKind::RobotMode => seq!['r', 'o', 'b', 'o', 't', '.', 'm', 'o', 'd', 'e'],
        CallKind::RobotSetMode => seq!['r', 'o', 'b', 'o', 't', '.', 's', 'e', 't', 'M', 'o', 'd', 'e'],
        CallKind::RobotSubscribe => seq!['r', 'o', 'b', 'o', 't', '.', 's', 'u', 'b', 's', 'c', 'r', 'i', 'b', 'e'],
        CallKind::NetStatus => seq!['n', 'e', 't', '.', 's', 't', 'a', 't', 'u', 's'],
        CallKind::NetScan => seq!['n', 'e', 't', '.', 's', 'c', 'a', 'n'],
        CallKind::NetConnect => seq!['n', 'e', 't', '.', 'c', 'o', 'n', 'n', 'e', 'c', 't'],
        CallKind::NetForget => seq!['n', 'e', 't', '.', 'f', 'o', 'r', 'g', 'e', 't'],
        CallKind::SystemInfo => seq!['s', 'y', 's', 't', 'e', 'm', '.', 'i', 'n', 'f', 'o'],
        CallKind::SystemServices => seq!['s', 'y', 's', 't', 'e', 'm', '.', 's', 'e', 'r', 'v', 'i', 'c', 'e', 's'],
        CallKind::SystemSetName => seq!['s', 'y', 's', 't', 'e', 'm', '.', 's', 'e', 't', 'N', 'a', 'm', 'e'],
        CallKind::SystemReboot => seq!['s', 'y', 's', 't', 'e', 'm', '.', 'r', 'e', 'b', 'o', 'o', 't'],
        CallKind::SystemPairingPin => seq!['s', 'y', 's', 't', 'e', 'm', '.', 'p', 'a', 'i', 'r', 'i', 'n', 'g', 'P', 'i', 'n'],
        CallKind::SystemSetPairingPin => seq!['s', 'y', 's', 't', 'e', 'm', '.', 's', 'e', 't', 'P', 'a', 'i', 'r', 'i', 'n', 'g', 'P', 'i', 'n'],
        CallKind::SystemAuthenticate => seq!['s', 'y', 's', 't', 'e', 'm', '.', 'a', 'u', 't', 'h', 'e', 'n', 't', 'i', 'c', 'a', 't', 'e'],
        CallKind::PadStatus => seq!['p', 'a', 'd', '.', 's', 't', 'a', 't', 'u', 's'],
        CallKind::PadPair => seq!['p', 'a', 'd', '.', 'p', 'a', 'i', 'r'],
        CallKind::PadForget => seq!['p', 'a', 'd', '.', 'f', 'o', 'r', 'g', 'e', 't'],
        CallKind::PadInput => seq!['p', 'a', 'd', '.', 'i', 'n', 'p', 'u', 't'],
        CallKind::TofStream => seq!['t', 'o', 'f', '.', 's', 't', 'r', 'e', 'a', 'm'],
    }
}

/// The call a method name stands for, if any.
pub open spec fn call_for_method(name: Seq<char>) -> Option<CallKind> {
    if exists|k: CallKind| method_name(k) == name {
        Some(choose|k: CallKind| method_name(k) == name)
    } else {
        None
    }
}

/// Calls that change the robot's software or configuration, or power it off.
pub open spec fn mutates(k: CallKind) -> bool {
    k == CallKind::Apply
        || k == CallKind::Rollback
        || k == CallKind::ResetToGolden
        || k == CallKind::Select
        || k == CallKind::Pin
        || k == CallKind::RobotShutdown
        || k == CallKind::NetConnect
        || k == CallKind::NetForget
        || k == CallKind::SystemSetName
        || k == CallKind::SystemReboot
        || k == CallKind::SystemSetPairingPin
        || k == CallKind::PadPair
        || k == CallKind::PadForget
}

/// Who answers each call, and on which lane; `None` for a call no service answers.
pub open spec fn route(k: CallKind) -> Option<(Service, Lane)> {
    match k {
        CallKind::Hello => Some((Service::Updater, Lane::Prompt)),
        CallKind::Check => Some((Service::Updater, Lane::Slow)),
        CallKind::Apply => Some((Service::Updater, Lane::Operation)),
        CallKind::Rollback => Some((Service::Updater, Lane::Operation)),
        CallKind::ResetToGolden => Some((Service::Updater, Lane::Operation)),
        CallKind::Select => Some((Service::Updater, Lane::Operation)),
        CallKind::Pin => Some((Service::Updater, Lane::Prompt)),
        CallKind::Status => Some((Service::Updater, Lane::Prompt)),
        CallKind::ListInstalled => Some((Service::Updater, Lane::Prompt)),
        CallKind::Log => Some((Service::Updater, Lane::Prompt)),
        CallKind::Show => Some((Service::Updater, Lane::Prompt)),
        CallKind::Subscribe => Some((Service::Updater, Lane::Stream)),
        CallKind::RobotSafeToRestart => Some((Service::Robot, Lane::Prompt)),
        CallKind::RobotHealth => Some((Service::Robot, Lane::Prompt)),
        CallKind::RobotModelApi => Some((Service::Robot, Lane::Prompt)),
        CallKind::RobotRemoteSessionActive => Some((Service::Robot, Lane::Prompt)),
        CallKind::RobotMove => Some((Service::Robot, Lane::Prompt)),
        CallKind::RobotHead => Some((Service::Robot, Lane::Prompt)),
        CallKind::RobotLook => Some((Service::Robot, Lane::Prompt)),
        CallKind::RobotStop => Some((Service::Robot, Lane::Prompt)),
        CallKind::RobotEnable => Some((Service::Robot, Lane::Prompt)),
        CallKind::RobotInit => Some((Service::Robot, Lane::Prompt)),
        CallKind::RobotRelax => Some((Service::Robot, Lane::Prompt)),
        CallKind::RobotDo => Some((Service::Robot, Lane::Prompt)),
        CallKind::RobotPose => Some((Service::Robot, Lane::Prompt)),
        CallKind::RobotMouth => Some((Service::Robot, Lane::Prompt)),
        CallKind::RobotSound => Some((Service::Robot, Lane::Prompt)),
        CallKind::RobotTheremin => Some((Service::Robot, Lane::Prompt)),
        CallKind::RobotChorale => Some((Service::Robot, Lane::Prompt)),
        CallKind::ChoraleSubscribe => Some((Service::Robot, Lane::Stream)),
        CallKind::ChoraleBeaconSet => None,
        CallKind::ChoraleHeard => None,
        CallKind::RobotShutdown => Some((Service::Robot, Lane::Prompt)),
        CallKind::RobotMode => Some((Service::Robot, Lane::Prompt)),
        CallKind::RobotSetMode => Some((Service::Robot, Lane::Prompt)),
        CallKind::RobotSubscribe => Some((Service::Robot, Lane::Stream)),
        CallKind::NetStatus => Some((Service::Config, Lane::Prompt)),
        CallKind::NetScan => Some((Service::Config, Lane::Slow)),
        CallKind::NetConnect => Some((Service::Config, Lane::Operation)),
        CallKind::NetForget => Some((Service::Config, Lane::Prompt)),
        CallKind::SystemInfo => Some((Service::Config, Lane::Prompt)),
        CallKind::SystemServices => Some((Service::Config, Lane::Prompt)),
        CallKind::SystemSetName => Some((Service::Config, Lane::Prompt)),
        CallKind::SystemReboot => Some((Service::Config, Lane::Prompt)),
        CallKind::SystemPairingPin => Some((Service::Config, Lane::Prompt)),
        CallKind::SystemSetPairingPin => Some((Service::Config, Lane::Prompt)),
        CallKind::SystemAuthenticate => None,
        CallKind::PadStatus => Some((Service::Config, Lane::Prompt)),
        CallKind::PadPair => Some((Service::Config, Lane::Operation)),
        CallKind::PadForget => Some((Service::Config, Lane::Prompt)),
        CallKind::PadInput => Some((Service::Pad, Lane::Stream)),
        CallKind::TofStream => Some((Service::Tof, Lane::Stream)),
    }
}

/// Calls whose parameters name a component.
pub open spec fn names_component(k: CallKind) -> bool {
    k == CallKind::Check
        || k == CallKind::Apply
        || k == CallKind::Rollback
        || k == CallKind::ResetToGolden
        || k == CallKind::Select
        || k == CallKind::Pin
        || k == CallKind::ListInstalled
}

/// How each call's `params` member is read.
pub open spec fn params_rule_of(k: CallKind) -> ParamsRule {
    match k {
        CallKind::Hello => ParamsRule::Required,
        CallKind::Check => ParamsRule::Required,
        CallKind::Apply => ParamsRule::Required,
        CallKind::Rollback => ParamsRule::Required,
        CallKind::ResetToGolden => ParamsRule::Required,
        CallKind::Select => ParamsRule::Required,
        CallKind::Pin => ParamsRule::Required,
        CallKind::Status => ParamsRule::Ignored,
        CallKind::ListInstalled => ParamsRule::Required,
        CallKind::Log => ParamsRule::Required,
        CallKind::Show => ParamsRule::Required,
        CallKind::Subscribe => ParamsRule::Ignored,
        CallKind::RobotSafeToRestart => ParamsRule::Ignored,
        CallKind::RobotHealth => ParamsRule::Ignored,
        CallKind::RobotModelApi => ParamsRule::Ignored,
        CallKind::RobotRemoteSessionActive => ParamsRule::Ignored,
        CallKind::RobotMove => ParamsRule::Required,
        CallKind::RobotHead => ParamsRule::Required,
        CallKind::RobotLook => ParamsRule::Required,
        CallKind::RobotStop => ParamsRule::Ignored,
        CallKind::RobotEnable => ParamsRule::Required,
        CallKind::RobotInit => ParamsRule::Ignored,
        CallKind::RobotRelax => ParamsRule::Ignored,
        CallKind::RobotDo => ParamsRule::Required,
        CallKind::RobotPose => ParamsRule::Required,
        CallKind::RobotMouth => ParamsRule::Required,
        CallKind::RobotSound => ParamsRule::Required,
        CallKind::RobotTheremin => ParamsRule::Required,
        CallKind::RobotChorale => ParamsRule::Required,
        CallKind::ChoraleSubscribe => ParamsRule::Ignored,
        CallKind::ChoraleBeaconSet => ParamsRule::Required,
        CallKind::ChoraleHeard => ParamsRule::Required,
        CallKind::RobotShutdown => ParamsRule::Ignored,
        CallKind::RobotMode => ParamsRule::Ignored,
        CallKind::RobotSetMode => ParamsRule::Required,
        CallKind::RobotSubscribe => ParamsRule::Required,
        CallKind::NetStatus => ParamsRule::Ignored,
        CallKind::NetScan => ParamsRule::Ignored,
        CallKind::NetConnect => ParamsRule::Required,
        CallKind::NetForget => ParamsRule::Required,
        CallKind::SystemInfo => ParamsRule::Ignored,
        CallKind::SystemServices => ParamsRule::Ignored,
        CallKind::SystemSetName => ParamsRule::Required,
        CallKind::SystemReboot => ParamsRule::Ignored,
        CallKind::SystemPairingPin => ParamsRule::Ignored,
        CallKind::SystemSetPairingPin => ParamsRule::Required,
        CallKind::SystemAuthenticate => ParamsRule::Required,
        CallKind::PadStatus => ParamsRule::Ignored,
        CallKind::PadPair => ParamsRule::DefaultsWhenAbsent,
        CallKind::PadForget => ParamsRule::Required,
        CallKind::PadInput => ParamsRule::Ignored,
        CallKind::TofStream => ParamsRule::Ignored,
    }
}

impl CallKind {
    /// The wire method name.
    pub fn method(&self) -> (r: &'static str)
        ensures
            r@ == method_name(*self),
    {
        proof {
            reveal_strlit("hello");
            reveal_strlit("update.check");
            reveal_strlit("update.apply");
            reveal_strlit("update.rollback");
            reveal_strlit("update.resetToGolden");
            reveal_strlit("update.select");
            reveal_strlit("update.pin");
            reveal_strlit("update.status");
            reveal_strlit("update.listInstalled");
            reveal_strlit("update.log");
            reveal_strlit("update.show");
            reveal_strlit("update.subscribe");
            reveal_strlit("robot.safeToRestart");
            reveal_strlit("robot.health");
            reveal_strlit("robot.modelApi");
            reveal_strlit("robot.remoteSessionActive");
            reveal_strlit("robot.move");
            reveal_strlit("robot.head");
            reveal_strlit("robot.look");
            reveal_strlit("robot.stop");
            reveal_strlit("robot.enable");
            reveal_strlit("robot.init");
            reveal_strlit("robot.relax");
            reveal_strlit("robot.do");
            reveal_strlit("robot.pose");
            reveal_strlit("robot.mouth");
            reveal_strlit("robot.sound");
            reveal_strlit("robot.theremin");
            reveal_strlit("robot.chorale");
            reveal_strlit("chorale.subscribe");
            reveal_strlit("chorale.beacon");
            reveal_strlit("chorale.heard");
            reveal_strlit("robot.shutdown");
            reveal_strlit("robot.mode");
            reveal_strlit("robot.setMode");
            reveal_strlit("robot.subscribe");
            reveal_strlit("net.status");
            reveal_strlit("net.scan");
            reveal_strlit("net.connect");
            reveal_strlit("net.forget");
            reveal_strlit("system.info");
            reveal_strlit("system.services");
            reveal_strlit("system.setName");
            reveal_strlit("system.reboot");
            reveal_strlit("system.pairingPin");
            reveal_strlit("system.setPairingPin");
            reveal_strlit("system.authenticate");
            reveal_strlit("pad.status");
            reveal_strlit("pad.pair");
            reveal_strlit("pad.forget");
            reveal_strlit("pad.input");
            reveal_strlit("tof.stream");
        }
        match self {
            CallKind::Hello => method::HELLO,
            CallKind::Check => method::CHECK,
            CallKind::Apply => method::APPLY,
            CallKind::Rollback => method::ROLLBACK,
            CallKind::ResetToGolden => method::RESET_TO_GOLDEN,
            CallKind::Select => method::SELECT,
            CallKind::Pin => method::PIN,
            CallKind::Status => method::STATUS,
            CallKind::ListInstalled => method::LIST_INSTALLED,
            CallKind::Log => method::LOG,
            CallKind::Show => method::SHOW,
            CallKind::Subscribe => method::SUBSCRIBE,
            CallKind::RobotSafeToRestart => method::ROBOT_SAFE_TO_RESTART,
            CallKind::RobotHealth => method::ROBOT_HEALTH,
            CallKind::RobotModelApi => method::ROBOT_MODEL_API,
            CallKind::RobotRemoteSessionActive => method::ROBOT_SESSION_ACTIVE,
            CallKind::RobotMove => method::ROBOT_MOVE,
            CallKind::RobotHead => method::ROBOT_HEAD,
            CallKind::RobotLook => method::ROBOT_LOOK,
            CallKind::RobotStop => method::ROBOT_STOP,
            CallKind::RobotEnable => method::ROBOT_ENABLE,
            CallKind::RobotInit => method::ROBOT_INIT,
            CallKind::RobotRelax => method::ROBOT_RELAX,
            CallKind::RobotDo => method::ROBOT_DO,
            CallKind::RobotPose => method::ROBOT_POSE,
            CallKind::RobotMouth => method::ROBOT_MOUTH,
            CallKind::RobotSound => method::ROBOT_SOUND,
            CallKind::RobotTheremin => method::ROBOT_THEREMIN,
            CallKind::RobotChorale => method::ROBOT_CHORALE,
            CallKind::ChoraleSubscribe => method::CHORALE_SUBSCRIBE,
            CallKind::ChoraleBeaconSet => method::CHORALE_BEACON,
            CallKind::ChoraleHeard => method::CHORALE_HEARD,
            CallKind::RobotShutdown => method::ROBOT_SHUTDOWN,
            CallKind::RobotMode => method::ROBOT_MODE,
            CallKind::RobotSetMode => method::ROBOT_SET_MODE,
            CallKind::RobotSubscribe => method::ROBOT_SUBSCRIBE,
            CallKind::NetStatus => method::NET_STATUS,
            CallKind::NetScan => method::NET_SCAN,
            CallKind::NetConnect => method::NET_CONNECT,
            CallKind::NetForget => method::NET_FORGET,
            CallKind::SystemInfo => method::SYSTEM_INFO,
            CallKind::SystemServices => method::SYSTEM_SERVICES,
            CallKind::SystemSetName => method::SYSTEM_SET_NAME,
            CallKind::SystemReboot => method::SYSTEM_REBOOT,
            CallKind::SystemPairingPin => method::SYSTEM_PAIRING_PIN,
            CallKind::SystemSetPairingPin => method::SYSTEM_SET_PAIRING_PIN,
            CallKind::SystemAuthenticate => method::SYSTEM_AUTHENTICATE,
            CallKind::PadStatus => method::PAD_STATUS,
            CallKind::PadPair => method::PAD_PAIR,
            CallKind::PadForget => method::PAD_FORGET,
            CallKind::PadInput => method::PAD_INPUT,
            CallKind::TofStream => method::TOF_STREAM,
        }
    }

    /// Every call, once each.
    pub fn all() -> (r: Vec<CallKind>)
        ensures
            r@.len() == 52,
            r@.no_duplicates(),
            forall|k: CallKind| #[trigger] r@.contains(k),
    {
        let v = vec![
            CallKind::Hello,
            CallKind::Check,
            CallKind::Apply,
            CallKind::Rollback,
            CallKind::ResetToGolden,
            CallKind::Select,
            CallKind::Pin,
            CallKind::Status,
            CallKind::ListInstalled,
            CallKind::Log,
            CallKind::Show,
            CallKind::Subscribe,
            CallKind::RobotSafeToRestart,
            CallKind::RobotHealth,
            CallKind::RobotModelApi,
            CallKind::RobotRemoteSessionActive,
            CallKind::RobotMove,
            CallKind::RobotHead,
            CallKind::RobotLook,
            CallKind::RobotStop,
            CallKind::RobotEnable,
            CallKind::RobotInit,
            CallKind::RobotRelax,
            CallKind::RobotDo,
            CallKind::RobotPose,
            CallKind::RobotMouth,
            CallKind::RobotSound,
            CallKind::RobotTheremin,
            CallKind::RobotChorale,
            CallKind::ChoraleSubscribe,
            CallKind::ChoraleBeaconSet,
            CallKind::ChoraleHeard,
            CallKind::RobotShutdown,
            CallKind::RobotMode,
            CallKind::RobotSetMode,
            CallKind::RobotSubscribe,
            CallKind::NetStatus,
            CallKind::NetScan,
            CallKind::NetConnect,
            CallKind::NetForget,
            CallKind::SystemInfo,
            CallKind::SystemServices,
            CallKind::SystemSetName,
            CallKind::SystemReboot,
            CallKind::SystemPairingPin,
            CallKind::SystemSetPairingPin,
            CallKind::SystemAuthenticate,
            CallKind::PadStatus,
            CallKind::PadPair,
            CallKind::PadForget,
            CallKind::PadInput,
            CallKind::TofStream,
        ];
        proof {
            assert forall|k: CallKind| #[trigger] v@.contains(k) by {
                match k {
                    CallKind::Hello => assert(v@[0] == k),
                    CallKind::Check => assert(v@[1] == k),
                    CallKind::Apply => assert(v@[2] == k),
                    CallKind::Rollback => assert(v@[3] == k),
                    CallKind::ResetToGolden => assert(v@[4] == k),
                    CallKind::Select => assert(v@[5] == k),
                    CallKind::Pin => assert(v@[6] == k),
                    CallKind::Status => assert(v@[7] == k),
                    CallKind::ListInstalled => assert(v@[8] == k),
                    CallKind::Log => assert(v@[9] == k),
                    CallKind::Show => assert(v@[10] == k),
                    CallKind::Subscribe => assert(v@[11] == k),
                    CallKind::RobotSafeToRestart => assert(v@[12] == k),
                    CallKind::RobotHealth => assert(v@[13] == k),
                    CallKind::RobotModelApi => assert(v@[14] == k),
                    CallKind::RobotRemoteSessionActive => assert(v@[15] == k),
                    CallKind::RobotMove => assert(v@[16] == k),
                    CallKind::RobotHead => assert(v@[17] == k),
                    CallKind::RobotLook => assert(v@[18] == k),
                    CallKind::RobotStop => assert(v@[19] == k),
                    CallKind::RobotEnable => assert(v@[20] == k),
                    CallKind::RobotInit => assert(v@[21] == k),
                    CallKind::RobotRelax => assert(v@[22] == k),
                    CallKind::RobotDo => assert(v@[23] == k),
                    CallKind::RobotPose => assert(v@[24] == k),
                    CallKind::RobotMouth => assert(v@[25] == k),
                    CallKind::RobotSound => assert(v@[26] == k),
                    CallKind::RobotTheremin => assert(v@[27] == k),
                    CallKind::RobotChorale => assert(v@[28] == k),
                    CallKind::ChoraleSubscribe => assert(v@[29] == k),
                    CallKind::ChoraleBeaconSet => assert(v@[30] == k),
                    CallKind::ChoraleHeard => assert(v@[31] == k),
                    CallKind::RobotShutdown => assert(v@[32] == k),
                    CallKind::RobotMode => assert(v@[33] == k),
                    CallKind::RobotSetMode => assert(v@[34] == k),
                    CallKind::RobotSubscribe => assert(v@[35] == k),
                    CallKind::NetStatus => assert(v@[36] == k),
                    CallKind::NetScan => assert(v@[37] == k),
                    CallKind::NetConnect => assert(v@[38] == k),
                    CallKind::NetForget => assert(v@[39] == k),
                    CallKind::SystemInfo => assert(v@[40] == k),
                    CallKind::SystemServices => assert(v@[41] == k),
                    CallKind::SystemSetName => assert(v@[42] == k),
                    CallKind::SystemReboot => assert(v@[43] == k),
                    CallKind::SystemPairingPin => assert(v@[44] == k),
                    CallKind::SystemSetPairingPin => assert(v@[45] == k),
                    CallKind::SystemAuthenticate => assert(v@[46] == k),
                    CallKind::PadStatus => assert(v@[47] == k),
                    CallKind::PadPair => assert(v@[48] == k),
                    CallKind::PadForget => assert(v@[49] == k),
                    CallKind::PadInput => assert(v@[50] == k),
                    CallKind::TofStream => assert(v@[51] == k),
                }
            }
        }
        v
    }

    /// Does this change the robot's software (or its configuration, or whether it is on)?
    ///
    /// `updaterd` authorises exactly these against the caller's uid/gid; read-only calls are
    /// ungated, so support can inspect a robot it is not allowed to change.
    pub fn is_mutating(&self) -> (r: bool)
        ensures
            r == mutates(*self),
    {
        match self {
            CallKind::Hello => false,
            CallKind::Check => false,
            CallKind::Apply => true,
            CallKind::Rollback => true,
            CallKind::ResetToGolden => true,
            CallKind::Select => true,
            CallKind::Pin => true,
            CallKind::Status => false,
            CallKind::ListInstalled => false,
            CallKind::Log => false,
            CallKind::Show => false,
            CallKind::Subscribe => false,
            CallKind::RobotSafeToRestart => false,
            CallKind::RobotHealth => false,
            CallKind::RobotModelApi => false,
            CallKind::RobotRemoteSessionActive => false,
            CallKind::RobotMove => false,
            CallKind::RobotHead => false,
            CallKind::RobotLook => false,
            CallKind::RobotStop => false,
            CallKind::RobotEnable => false,
            CallKind::RobotInit => false,
            CallKind::RobotRelax => false,
            CallKind::RobotDo => false,
            CallKind::RobotPose => false,
            CallKind::RobotMouth => false,
            CallKind::RobotSound => false,
            CallKind::RobotTheremin => false,
            CallKind::RobotChorale => false,
            CallKind::ChoraleSubscribe => false,
            CallKind::ChoraleBeaconSet => false,
            CallKind::ChoraleHeard => false,
            CallKind::RobotShutdown => true,
            CallKind::RobotMode => false,
            CallKind::RobotSetMode => false,
            CallKind::RobotSubscribe => false,
            CallKind::NetStatus => false,
            CallKind::NetScan => false,
            CallKind::NetConnect => true,
            CallKind::NetForget => true,
            CallKind::SystemInfo => false,
            CallKind::SystemServices => false,
            CallKind::SystemSetName => true,
            CallKind::SystemReboot => true,
            CallKind::SystemPairingPin => false,
            CallKind::SystemSetPairingPin => true,
            CallKind::SystemAuthenticate => false,
            CallKind::PadStatus => false,
            CallKind::PadPair => true,
            CallKind::PadForget => true,
            CallKind::PadInput => false,
            CallKind::TofStream => false,
        }
    }

    /// The service that owns the answer to this call, and how long answering it holds a
    /// connection. `None` for a call no service answers: the PIN check, which belongs to the
    /// transport, and the two chorale notifications, which travel inside the connection
    /// `chorale.subscribe` opened.
    pub fn destination(&self) -> (r: Option<(Service, Lane)>)
        ensures
            r == route(*self),
    {
        match self {
            CallKind::Hello => Some((Service::Updater, Lane::Prompt)),
            CallKind::Check => Some((Service::Updater, Lane::Slow)),
            CallKind::Apply => Some((Service::Updater, Lane::Operation)),
            CallKind::Rollback => Some((Service::Updater, Lane::Operation)),
            CallKind::ResetToGolden => Some((Service::Updater, Lane::Operation)),
            CallKind::Select => Some((Service::Updater, Lane::Operation)),
            CallKind::Pin => Some((Service::Updater, Lane::Prompt)),
            CallKind::Status => Some((Service::Updater, Lane::Prompt)),
            CallKind::ListInstalled => Some((Service::Updater, Lane::Prompt)),
            CallKind::Log => Some((Service::Updater, Lane::Prompt)),
            CallKind::Show => Some((Service::Updater, Lane::Prompt)),
            CallKind::Subscribe => Some((Service::Updater, Lane::Stream)),
            CallKind::RobotSafeToRestart => Some((Service::Robot, Lane::Prompt)),
            CallKind::RobotHealth => Some((Service::Robot, Lane::Prompt)),
            CallKind::RobotModelApi => Some((Service::Robot, Lane::Prompt)),
            CallKind::RobotRemoteSessionActive => Some((Service::Robot, Lane::Prompt)),
            CallKind::RobotMove => Some((Service::Robot, Lane::Prompt)),
            CallKind::RobotHead => Some((Service::Robot, Lane::Prompt)),
            CallKind::RobotLook => Some((Service::Robot, Lane::Prompt)),
            CallKind::RobotStop => Some((Service::Robot, Lane::Prompt)),
            CallKind::RobotEnable => Some((Service::Robot, Lane::Prompt)),
            CallKind::RobotInit => Some((Service::Robot, Lane::Prompt)),
            CallKind::RobotRelax => Some((Service::Robot, Lane::Prompt)),
            CallKind::RobotDo => Some((Service::Robot, Lane::Prompt)),
            CallKind::RobotPose => Some((Service::Robot, Lane::Prompt)),
            CallKind::RobotMouth => Some((Service::Robot, Lane::Prompt)),
            CallKind::RobotSound => Some((Service::Robot, Lane::Prompt)),
            CallKind::RobotTheremin => Some((Service::Robot, Lane::Prompt)),
            CallKind::RobotChorale => Some((Service::Robot, Lane::Prompt)),
            CallKind::ChoraleSubscribe => Some((Service::Robot, Lane::Stream)),
            CallKind::ChoraleBeaconSet => None,
            CallKind::ChoraleHeard => None,
            CallKind::RobotShutdown => Some((Service::Robot, Lane::Prompt)),
            CallKind::RobotMode => Some((Service::Robot, Lane::Prompt)),
            CallKind::RobotSetMode => Some((Service::Robot, Lane::Prompt)),
            CallKind::RobotSubscribe => Some((Service::Robot, Lane::Stream)),
            CallKind::NetStatus => Some((Service::Config, Lane::Prompt)),
            CallKind::NetScan => Some((Service::Config, Lane::Slow)),
            CallKind::NetConnect => Some((Service::Config, Lane::Operation)),
            CallKind::NetForget => Some((Service::Config, Lane::Prompt)),
            CallKind::SystemInfo => Some((Service::Config, Lane::Prompt)),
            CallKind::SystemServices => Some((Service::Config, Lane::Prompt)),
            CallKind::SystemSetName => Some((Service::Config, Lane::Prompt)),
            CallKind::SystemReboot => Some((Service::Config, Lane::Prompt)),
            CallKind::SystemPairingPin => Some((Service::Config, Lane::Prompt)),
            CallKind::SystemSetPairingPin => Some((Service::Config, Lane::Prompt)),
            CallKind::SystemAuthenticate => None,
            CallKind::PadStatus => Some((Service::Config, Lane::Prompt)),
            CallKind::PadPair => Some((Service::Config, Lane::Operation)),
            CallKind::PadForget => Some((Service::Config, Lane::Prompt)),
            CallKind::PadInput => Some((Service::Pad, Lane::Stream)),
            CallKind::TofStream => Some((Service::Tof, Lane::Stream)),
        }
    }

    /// Does this call's parameters name a component?
    pub fn carries_component(&self) -> (r: bool)
        ensures
            r == names_component(*self),
    {
        match self {
            CallKind::Hello => false,
            CallKind::Check => true,
            CallKind::Apply => true,
            CallKind::Rollback => true,
            CallKind::ResetToGolden => true,
            CallKind::Select => true,
            CallKind::Pin => true,
            CallKind::Status => false,
            CallKind::ListInstalled => true,
            CallKind::Log => false,
            CallKind::Show => false,
            CallKind::Subscribe => false,
            CallKind::RobotSafeToRestart => false,
            CallKind::RobotHealth => false,
            CallKind::RobotModelApi => false,
            CallKind::RobotRemoteSessionActive => false,
            CallKind::RobotMove => false,
            CallKind::RobotHead => false,
            CallKind::RobotLook => false,
            CallKind::RobotStop => false,
            CallKind::RobotEnable => false,
            CallKind::RobotInit => false,
            CallKind::RobotRelax => false,
            CallKind::RobotDo => false,
            CallKind::RobotPose => false,
            CallKind::RobotMouth => false,
            CallKind::RobotSound => false,
            CallKind::RobotTheremin => false,
            CallKind::RobotChorale => false,
            CallKind::ChoraleSubscribe => false,
            CallKind::ChoraleBeaconSet => false,
            CallKind::ChoraleHeard => false,
            CallKind::RobotShutdown => false,
            CallKind::RobotMode => false,
            CallKind::RobotSetMode => false,
            CallKind::RobotSubscribe => false,
            CallKind::NetStatus => false,
            CallKind::NetScan => false,
            CallKind::NetConnect => false,
            CallKind::NetForget => false,
            CallKind::SystemInfo => false,
            CallKind::SystemServices => false,
            CallKind::SystemSetName => false,
            CallKind::SystemReboot => false,
            CallKind::SystemPairingPin => false,
            CallKind::SystemSetPairingPin => false,
            CallKind::SystemAuthenticate => false,
            CallKind::PadStatus => false,
            CallKind::PadPair => false,
            CallKind::PadForget => false,
            CallKind::PadInput => false,
            CallKind::TofStream => false,
        }
    }

    /// How this call's `params` member is read.
    pub fn params_rule(&self) -> (r: ParamsRule)
        ensures
            r == params_rule_of(*self),
    {
        match self {
            CallKind::Hello => ParamsRule::Required,
            CallKind::Check => ParamsRule::Required,
            CallKind::Apply => ParamsRule::Required,
            CallKind::Rollback => ParamsRule::Required,
            CallKind::ResetToGolden => ParamsRule::Required,
            CallKind::Select => ParamsRule::Required,
            CallKind::Pin => ParamsRule::Required,
            CallKind::Status => ParamsRule::Ignored,
            CallKind::ListInstalled => ParamsRule::Required,
            CallKind::Log => ParamsRule::Required,
            CallKind::Show => ParamsRule::Required,
            CallKind::Subscribe => ParamsRule::Ignored,
            CallKind::RobotSafeToRestart => ParamsRule::Ignored,
            CallKind::RobotHealth => ParamsRule::Ignored,
            CallKind::RobotModelApi => ParamsRule::Ignored,
            CallKind::RobotRemoteSessionActive => ParamsRule::Ignored,
            CallKind::RobotMove => ParamsRule::Required,
            CallKind::RobotHead => ParamsRule::Required,
            CallKind::RobotLook => ParamsRule::Required,
            CallKind::RobotStop => ParamsRule::Ignored,
            CallKind::RobotEnable => ParamsRule::Required,
            CallKind::RobotInit => ParamsRule::Ignored,
            CallKind::RobotRelax => ParamsRule::Ignored,
            CallKind::RobotDo => ParamsRule::Required,
            CallKind::RobotPose => ParamsRule::Required,
            CallKind::RobotMouth => ParamsRule::Required,
            CallKind::RobotSound => ParamsRule::Required,
            CallKind::RobotTheremin => ParamsRule::Required,
            CallKind::RobotChorale => ParamsRule::Required,
            CallKind::ChoraleSubscribe => ParamsRule::Ignored,
            CallKind::ChoraleBeaconSet => ParamsRule::Required,
            CallKind::ChoraleHeard => ParamsRule::Required,
            CallKind::RobotShutdown => ParamsRule::Ignored,
            CallKind::RobotMode => ParamsRule::Ignored,
            CallKind::RobotSetMode => ParamsRule::Required,
            CallKind::RobotSubscribe => ParamsRule::Required,
            CallKind::NetStatus => ParamsRule::Ignored,
            CallKind::NetScan => ParamsRule::Ignored,
            CallKind::NetConnect => ParamsRule::Required,
            CallKind::NetForget => ParamsRule::Required,
            CallKind::SystemInfo => ParamsRule::Ignored,
            CallKind::SystemServices => ParamsRule::Ignored,
            CallKind::SystemSetName => ParamsRule::Required,
            CallKind::SystemReboot => ParamsRule::Ignored,
            CallKind::SystemPairingPin => ParamsRule::Ignored,
            CallKind::SystemSetPairingPin => ParamsRule::Required,
            CallKind::SystemAuthenticate => ParamsRule::Required,
            CallKind::PadStatus => ParamsRule::Ignored,
            CallKind::PadPair => ParamsRule::DefaultsWhenAbsent,
            CallKind::PadForget => ParamsRule::Required,
            CallKind::PadInput => ParamsRule::Ignored,
            CallKind::TofStream => ParamsRule::Ignored,
        }
    }
    /// The call a method name stands for, or `None` for a name this release does not know.
    pub fn from_method(name: &str) -> (r: Option<CallKind>)
        ensures
            r == call_for_method(name@),
    {
        let wanted = chars_of(name);
        let all = CallKind::all();
        let mut i: usize = 0;
        while i < all.len()
            invariant
                0 <= i <= all.len(),
                forall|k: CallKind| #[trigger] all@.contains(k),
                wanted@ == name@,
                forall|j: int| 0 <= j < i ==> method_name(#[trigger] all@[j]) != name@,
            decreases all.len() - i,
        {
            let k = all[i];
            let candidate = chars_of(k.method());
            if same_chars(&wanted, &candidate) {
                proof {
                    method_name_reads_back(k);
                }
                return Some(k);
            }
            i += 1;
        }
        proof {
            assert forall|k: CallKind| method_name(k) != name@ by {
                assert(all@.contains(k));
            }
        }
        None
    }

    /// Decode a method name as it arrived.
    ///
    /// An unknown method is [`code::METHOD_NOT_FOUND`], naming the method as it arrived, quoted
    /// and escaped; parameters that do not fit are the decoder's to report, as
    /// [`code::INVALID_PARAMS`].
    pub fn parse_method(name: &str) -> (r: Result<CallKind, Error>)
        ensures
            match r {
                Ok(k) => call_for_method(name@) == Some(k),
                Err(e) => {
                    &&& call_for_method(name@) is None
                    &&& e.code == code::METHOD_NOT_FOUND
                    &&& e.message@ == "unknown method "@ + debug_quoted(name@)
                    &&& e.data is None
                },
            },
    {
        match CallKind::from_method(name) {
            Some(k) => Ok(k),
            None => {
                let quoted = quote_debug(name);
                let message = concat("unknown method ", quoted.as_str());
                Err(Error::new(code::METHOD_NOT_FOUND, message))
            },
        }
    }
}

/// The first question reading a progress notification asks: is it one? Anything else is
/// [`code::METHOD_NOT_FOUND`], naming the method that arrived.
pub fn progress_check(method_name: &str) -> (r: Result<(), Error>)
    ensures
        r is Ok <==> method_name@ == method::PROGRESS@,
        r matches Err(e) ==> {
            &&& e.code == code::METHOD_NOT_FOUND
            &&& e.message@ == debug_quoted(method_name@) + " is not a progress notification"@
            &&& e.data is None
        },
{
    if str_eq(method_name, method::PROGRESS) {
        Ok(())
    } else {
        let quoted = quote_debug(method_name);
        let message = concat(quoted.as_str(), " is not a progress notification");
        Err(Error::new(code::METHOD_NOT_FOUND, message))
    }
}

/// No two calls share a method name, so a variant can never stand in for another on the wire.
pub proof fn method_names_are_distinct(a: CallKind, b: CallKind)
    requires
        a != b,
    ensures
        method_name(a) != method_name(b),
{
    if method_name(a).len() == method_name(b).len() {
        match (a, b) {
            (CallKind::Check, CallKind::Apply) => assert(method_name(a)[7] != method_name(b)[7]),
            (CallKind::Check, CallKind::RobotHealth) => assert(method_name(a)[0] != method_name(b)[0]),
            (CallKind::Check, CallKind::RobotEnable) => assert(method_name(a)[0] != method_name(b)[0]),
            (CallKind::Apply, CallKind::Check) => assert(method_name(a)[7] != method_name(b)[7]),
            (CallKind::Apply, CallKind::RobotHealth) => assert(method_name(a)[0] != method_name(b)[0]),
            (CallKind::Apply, CallKind::RobotEnable) => assert(method_name(a)[0] != method_name(b)[0]),
            (CallKind::Rollback, CallKind::RobotSubscribe) => assert(method_name(a)[0] != method_name(b)[0]),
            (CallKind::Rollback, CallKind::SystemServices) => assert(method_name(a)[0] != method_name(b)[0]),
            (CallKind::ResetToGolden, CallKind::ListInstalled) => assert(method_name(a)[7] != method_name(b)[7]),
            (CallKind::ResetToGolden, CallKind::SystemSetPairingPin) => assert(method_name(a)[0] != method_name(b)[0]),
            (CallKind::Select, CallKind::Status) => assert(method_name(a)[8] != method_name(b)[8]),
            (CallKind::Select, CallKind::RobotChorale) => assert(method_name(a)[0] != method_name(b)[0]),
            (CallKind::Select, CallKind::ChoraleHeard) => assert(method_name(a)[0] != method_name(b)[0]),
            (CallKind::Select, CallKind::RobotSetMode) => assert(method_name(a)[0] != method_name(b)[0]),
            (CallKind::Select, CallKind::SystemReboot) => assert(method_name(a)[0] != method_name(b)[0]),
            (CallKind::Pin, CallKind::Log) => assert(method_name(a)[7] != method_name(b)[7]),
            (CallKind::Pin, CallKind::RobotMove) => assert(method_name(a)[0] != method_name(b)[0]),
            (CallKind::Pin, CallKind::RobotHead) => assert(method_name(a)[0] != method_name(b)[0]),
            (CallKind::Pin, CallKind::RobotLook) => assert(method_name(a)[0] != method_name(b)[0]),
            (CallKind::Pin, CallKind::RobotStop) => assert(method_name(a)[0] != method_name(b)[0]),
            (CallKind::Pin, CallKind::RobotInit) => assert(method_name(a)[0] != method_name(b)[0]),
            (CallKind::Pin, CallKind::RobotPose) => assert(method_name(a)[0] != method_name(b)[0]),
            (CallKind::Pin, CallKind::RobotMode) => assert(method_name(a)[0] != method_name(b)[0]),
            (CallKind::Pin, CallKind::NetStatus) => assert(method_name(a)[0] != method_name(b)[0]),
            (CallKind::Pin, CallKind::NetForget) => assert(method_name(a)[0] != method_name(b)[0]),
            (CallKind::Pin, CallKind::PadStatus) => assert(method_name(a)[0] != method_name(b)[0]),
            (CallKind::Pin, CallKind::PadForget) => assert(method_name(a)[0] != method_name(b)[0]),
            (CallKind::Pin, CallKind::TofStream) => assert(method_name(a)[0] != method_name(b)[0]),
            (CallKind::Status, CallKind::Select) => assert(method_name(a)[8] != method_name(b)[8]),
            (CallKind::Status, CallKind::RobotChorale) => assert(method_name(a)[0] != method_name(b)[0]),
            (CallKind::Status, CallKind::ChoraleHeard) => assert(method_name(a)[0] != method_name(b)[0]),
            (CallKind::Status, CallKind::RobotSetMode) => assert(method_name(a)[0] != method_name(b)[0]),
            (CallKind::Status, CallKind::SystemReboot) => assert(method_name(a)[0] != method_name(b)[0]),
            (CallKind::ListInstalled, CallKind::ResetToGolden) => assert(method_name(a)[7] != method_name(b)[7]),
            (CallKind::ListInstalled, CallKind::SystemSetPairingPin) => assert(method_name(a)[0] != method_name(b)[0]),
            (CallKind::Log, CallKind::Pin) => assert(method_name(a)[7] != method_name(b)[7]),
            (CallKind::Log, CallKind::RobotMove) => assert(method_name(a)[0] != method_name(b)[0]),
            (CallKind::Log, CallKind::RobotHead) => assert(method_name(a)[0] != method_name(b)[0]),
            (CallKind::Log, CallKind::RobotLook) => assert(method_name(a)[0] != method_name(b)[0]),
            (CallKind::Log, CallKind::RobotStop) => assert(method_name(a)[0] != method_name(b)[0]),
            (CallKind::Log, CallKind::RobotInit) => assert(method_name(a)[0] != method_name(b)[0]),
            (CallKind::Log, CallKind::RobotPose) => assert(method_name(a)[0] != method_name(b)[0]),
            (CallKind::Log, CallKind::RobotMode) => assert(method_name(a)[0] != method_name(b)[0]),
            (CallKind::Log, CallKind::NetStatus) => assert(method_name(a)[0] != method_name(b)[0]),
            (CallKind::Log, CallKind::NetForget) => assert(method_name(a)[0] != method_name(b)[0]),
            (CallKind::Log, CallKind::PadStatus) => assert(method_name(a)[0] != method_name(b)[0]),
            (CallKind::Log, CallKind::PadForget) => assert(method_name(a)[0] != method_name(b)[0]),
            (CallKind::Log, CallKind::TofStream) => assert(method_name(a)[0] != method_name(b)[0]),
            (CallKind::Show, CallKind::RobotRelax) => assert(method_name(a)[0] != method_name(b)[0]),
            (CallKind::Show, CallKind::RobotMouth) => assert(method_name(a)[0] != method_name(b)[0]),
            (CallKind::Show, CallKind::RobotSound) => assert(method_name(a)[0] != method_name(b)[0]),
            (CallKind::Show, CallKind::NetConnect) => assert(method_name(a)[0] != method_name(b)[0]),
            (CallKind::Show, CallKind::SystemInfo) => assert(method_name(a)[0] != method_name(b)[0]),
            (CallKind::RobotSafeToRestart, CallKind::SystemAuthenticate) => assert(method_name(a)[0] != method_name(b)[0]),
            (CallKind::RobotHealth, CallKind::Check) => assert(method_name(a)[0] != method_name(b)[0]),
            (CallKind::RobotHealth, CallKind::Apply) => assert(method_name(a)[0] != method_name(b)[0]),
            (CallKind::RobotHealth, CallKind::RobotEnable) => assert(method_name(a)[6] != method_name(b)[6]),
            (CallKind::RobotModelApi, CallKind::RobotTheremin) => assert(method_name(a)[6] != method_name(b)[6]),
            (CallKind::RobotModelApi, CallKind::ChoraleBeaconSet) => assert(method_name(a)[0] != method_name(b)[0]),
            (CallKind::RobotModelApi, CallKind::RobotShutdown) => assert(method_name(a)[6] != method_name(b)[6]),
            (CallKind::RobotModelApi, CallKind::SystemSetName) => assert(method_name(a)[0] != method_name(b)[0]),
            (CallKind::RobotMove, CallKind::Pin) => assert(method_name(a)[0] != method_name(b)[0]),
            (CallKind::RobotMove, CallKind::Log) => assert(method_name(a)[0] != method_name(b)[0]),
            (CallKind::RobotMove, CallKind::RobotHead) => assert(method_name(a)[6] != method_name(b)[6]),
            (CallKind::RobotMove, CallKind::RobotLook) => assert(method_name(a)[6] != method_name(b)[6]),
            (CallKind::RobotMove, CallKind::RobotStop) => assert(method_name(a)[6] != method_name(b)[6]),
            (CallKind::RobotMove, CallKind::RobotInit) => assert(method_name(a)[6] != method_name(b)[6]),
            (CallKind::RobotMove, CallKind::RobotPose) => assert(method_name(a)[6] != method_name(b)[6]),
            (CallKind::RobotMove, CallKind::RobotMode) => assert(method_name(a)[8] != method_name(b)[8]),
            (CallKind::RobotMove, CallKind::NetStatus) => assert(method_name(a)[0] != method_name(b)[0]),
            (CallKind::RobotMove, CallKind::NetForget) => assert(method_name(a)[0] != method_name(b)[0]),
            (CallKind::RobotMove, CallKind::PadStatus) => assert(method_name(a)[0] != method_name(b)[0]),
            (CallKind::RobotMove, CallKind::PadForget) => assert(method_name(a)[0] != method_name(b)[0]),
            (CallKind::RobotMove, CallKind::TofStream) => assert(method_name(a)[0] != method_name(b)[0]),
            (CallKind::RobotHead, CallKind::Pin) => assert(method_name(a)[0] != method_name(b)[0]),
            (CallKind::RobotHead, CallKind::Log) => assert(method_name(a)[0] != method_name(b)[0]),
            (CallKind::RobotHead, CallKind::RobotMove) => assert(method_name(a)[6] != method_name(b)[6]),
            (CallKind::RobotHead, CallKind::RobotLook) => assert(method_name(a)[6] != method_name(b)[6]),
            (CallKind::RobotHead, CallKind::RobotStop) => assert(method_name(a)[6] != method_name(b)[6]),
            (CallKind::RobotHead, CallKind::RobotInit) => assert(method_name(a)[6] != method_name(b)[6]),
            (CallKind::RobotHead, CallKind::RobotPose) => assert(method_name(a)[6] != method_name(b)[6]),
            (CallKind::RobotHead, CallKind::RobotMode) => assert(method_name(a)[6] != method_name(b)[6]),
            (CallKind::RobotHead, CallKind::NetStatus) => assert(method_name(a)[0] != method_name(b)[0]),
            (CallKind::RobotHead, CallKind::NetForget) => assert(method_name(a)[0] != method_name(b)[0]),
            (CallKind::RobotHead, CallKind::PadStatus) => assert(method_name(a)[0] != method_name(b)[0]),
            (CallKind::RobotHead, CallKind::PadForget) => assert(method_name(a)[0] != method_name(b)[0]),
            (CallKind::RobotHead, CallKind::TofStream) => assert(method_name(a)[0] != method_name(b)[0]),
            (CallKind::RobotLook, CallKind::Pin) => assert(method_name(a)[0] != method_name(b)[0]),
            (CallKind::RobotLook, CallKind::Log) => assert(method_name(a)[0] != method_name(b)[0]),
            (CallKind::RobotLook, CallKind::RobotMove) => assert(method_name(a)[6] != method_name(b)[6]),
            (CallKind::RobotLook, CallKind::RobotHead) => assert(method_name(a)[6] != method_name(b)[6]),
            (CallKind::RobotLook, CallKind::RobotStop) => assert(method_name(a)[6] != method_name(b)[6]),
            (CallKind::RobotLook, CallKind::RobotInit) => assert(method_name(a)[6] != method_name(b)[6]),
            (CallKind::RobotLook, CallKind::RobotPose) => assert(method_name(a)[6] != method_name(b)[6]),
            (CallKind::RobotLook, CallKind::RobotMode) => assert(method_name(a)[6] != method_name(b)[6]),
            (CallKind::RobotLook, CallKind::NetStatus) => assert(method_name(a)[0] != method_name(b)[0]),
            (CallKind::RobotLook, CallKind::NetForget) => assert(method_name(a)[0] != method_name(b)[0]),
            (CallKind::RobotLook, CallKind::PadStatus) => assert(method_name(a)[0] != method_name(b)[0]),
            (CallKind::RobotLook, CallKind::PadForget) => assert(method_name(a)[0] != method_name(b)[0]),
            (CallKind::RobotLook, CallKind::TofStream) => assert(method_name(a)[0] != method_name(b)[0]),
            (CallKind::RobotStop, CallKind::Pin) => assert(method_name(a)[0] != method_name(b)[0]),
            (CallKind::RobotStop, CallKind::Log) => assert(method_name(a)[0] != method_name(b)[0]),
            (CallKind::RobotStop, CallKind::RobotMove) => assert(method_name(a)[6] != method_name(b)[6]),
            (CallKind::RobotStop, CallKind::RobotHead) => assert(method_name(a)[6] != method_name(b)[6]),
            (CallKind::RobotStop, CallKind::RobotLook) => assert(method_name(a)[6] != method_name(b)[6]),
            (CallKind::RobotStop, CallKind::RobotInit) => assert(method_name(a)[6] != method_name(b)[6]),
            (CallKind::RobotStop, CallKind::RobotPose) => assert(method_name(a)[6] != method_name(b)[6]),
            (CallKind::RobotStop, CallKind::RobotMode) => assert(method_name(a)[6] != method_name(b)[6]),
            (CallKind::RobotStop, CallKind::NetStatus) => assert(method_name(a)[0] != method_name(b)[0]),
            (CallKind::RobotStop, CallKind::NetForget) => assert(method_name(a)[0] != method_name(b)[0]),
            (CallKind::RobotStop, CallKind::PadStatus) => assert(method_name(a)[0] != method_name(b)[0]),
            (CallKind::RobotStop, CallKind::PadForget) => assert(method_name(a)[0] != method_name(b)[0]),
            (CallKind::RobotStop, CallKind::TofStream) => assert(method_name(a)[0] != method_name(b)[0]),
            (CallKind::RobotEnable, CallKind::Check) => assert(method_name(a)[0] != method_name(b)[0]),
            (CallKind::RobotEnable, CallKind::Apply) => assert(method_name(a)[0] != method_name(b)[0]),
            (CallKind::RobotEnable, CallKind::RobotHealth) => assert(method_name(a)[6] != method_name(b)[6]),
            (CallKind::RobotInit, CallKind::Pin) => assert(method_name(a)[0] != method_name(b)[0]),
            (CallKind::RobotInit, CallKind::Log) => assert(method_name(a)[0] != method_name(b)[0]),
            (CallKind::RobotInit, CallKind::RobotMove) => assert(method_name(a)[6] != method_name(b)[6]),
            (CallKind::RobotInit, CallKind::RobotHead) => assert(method_name(a)[6] != method_name(b)[6]),
            (CallKind::RobotInit, CallKind::RobotLook) => assert(method_name(a)[6] != method_name(b)[6]),
            (CallKind::RobotInit, CallKind::RobotStop) => assert(method_name(a)[6] != method_name(b)[6]),
            (CallKind::RobotInit, CallKind::RobotPose) => assert(method_name(a)[6] != method_name(b)[6]),
            (CallKind::RobotInit, CallKind::RobotMode) => assert(method_name(a)[6] != method_name(b)[6]),
            (CallKind::RobotInit, CallKind::NetStatus) => assert(method_name(a)[0] != method_name(b)[0]),
            (CallKind::RobotInit, CallKind::NetForget) => assert(method_name(a)[0] != method_name(b)[0]),
            (CallKind::RobotInit, CallKind::PadStatus) => assert(method_name(a)[0] != method_name(b)[0]),
            (CallKind::RobotInit, CallKind::PadForget) => assert(method_name(a)[0] != method_name(b)[0]),
            (CallKind::RobotInit, CallKind::TofStream) => assert(method_name(a)[0] != method_name(b)[0]),
            (CallKind::RobotRelax, CallKind::Show) => assert(method_name(a)[0] != method_name(b)[0]),
            (CallKind::RobotRelax, CallKind::RobotMouth) => assert(method_name(a)[6] != method_name(b)[6]),
            (CallKind::RobotRelax, CallKind::RobotSound) => assert(method_name(a)[6] != method_name(b)[6]),
            (CallKind::RobotRelax, CallKind::NetConnect) => assert(method_name(a)[0] != method_name(b)[0]),
            (CallKind::RobotRelax, CallKind::SystemInfo) => assert(method_name(a)[0] != method_name(b)[0]),
            (CallKind::RobotDo, CallKind::NetScan) => assert(method_name(a)[0] != method_name(b)[0]),
            (CallKind::RobotDo, CallKind::PadPair) => assert(method_name(a)[0] != method_name(b)[0]),
            (CallKind::RobotPose, CallKind::Pin) => assert(method_name(a)[0] != method_name(b)[0]),
            (CallKind::RobotPose, CallKind::Log) => assert(method_name(a)[0] != method_name(b)[0]),
            (CallKind::RobotPose, CallKind::RobotMove) => assert(method_name(a)[6] != method_name(b)[6]),
            (CallKind::RobotPose, CallKind::RobotHead) => assert(method_name(a)[6] != method_name(b)[6]),
            (CallKind::RobotPose, CallKind::RobotLook) => assert(method_name(a)[6] != method_name(b)[6]),
            (CallKind::RobotPose, CallKind::RobotStop) => assert(method_name(a)[6] != method_name(b)[6]),
            (CallKind::RobotPose, CallKind::RobotInit) => assert(method_name(a)[6] != method_name(b)[6]),
            (CallKind::RobotPose, CallKind::RobotMode) => assert(method_name(a)[6] != method_name(b)[6]),
            (CallKind::RobotPose, CallKind::NetStatus) => assert(method_name(a)[0] != method_name(b)[0]),
            (CallKind::RobotPose, CallKind::NetForget) => assert(method_name(a)[0] != method_name(b)[0]),
            (CallKind::RobotPose, CallKind::PadStatus) => assert(method_name(a)[0] != method_name(b)[0]),
            (CallKind::RobotPose, CallKind::PadForget) => assert(method_name(a)[0] != method_name(b)[0]),
            (CallKind::RobotPose, CallKind::TofStream) => assert(method_name(a)[0] != method_name(b)[0]),
            (CallKind::RobotMouth, CallKind::Show) => assert(method_name(a)[0] != method_name(b)[0]),
            (CallKind::RobotMouth, CallKind::RobotRelax) => assert(method_name(a)[6] != method_name(b)[6]),
            (CallKind::RobotMouth, CallKind::RobotSound) => assert(method_name(a)[6] != method_name(b)[6]),
            (CallKind::RobotMouth, CallKind::NetConnect) => assert(method_name(a)[0] != method_name(b)[0]),
            (CallKind::RobotMouth, CallKind::SystemInfo) => assert(method_name(a)[0] != method_name(b)[0]),
            (CallKind::RobotSound, CallKind::Show) => assert(method_name(a)[0] != method_name(b)[0]),
            (CallKind::RobotSound, CallKind::RobotRelax) => assert(method_name(a)[6] != method_name(b)[6]),
            (CallKind::RobotSound, CallKind::RobotMouth) => assert(method_name(a)[6] != method_name(b)[6]),
            (CallKind::RobotSound, CallKind::NetConnect) => assert(method_name(a)[0] != method_name(b)[0]),
            (CallKind::RobotSound, CallKind::SystemInfo) => assert(method_name(a)[0] != method_name(b)[0]),
            (CallKind::RobotTheremin, CallKind::RobotModelApi) => assert(method_name(a)[6] != method_name(b)[6]),
            (CallKind::RobotTheremin, CallKind::ChoraleBeaconSet) => assert(method_name(a)[0] != method_name(b)[0]),
            (CallKind::RobotTheremin, CallKind::RobotShutdown) => assert(method_name(a)[6] != method_name(b)[6]),
            (CallKind::RobotTheremin, CallKind::SystemSetName) => assert(method_name(a)[0] != method_name(b)[0]),
            (CallKind::RobotChorale, CallKind::Select) => assert(method_name(a)[0] != method_name(b)[0]),
            (CallKind::RobotChorale, CallKind::Status) => assert(method_name(a)[0] != method_name(b)[0]),
            (CallKind::RobotChorale, CallKind::ChoraleHeard) => assert(method_name(a)[0] != method_name(b)[0]),
            (CallKind::RobotChorale, CallKind::RobotSetMode) => assert(method_name(a)[6] != method_name(b)[6]),
            (CallKind::RobotChorale, CallKind::SystemReboot) => assert(method_name(a)[0] != method_name(b)[0]),
            (CallKind::ChoraleSubscribe, CallKind::SystemPairingPin) => assert(method_name(a)[0] != method_name(b)[0]),
            (CallKind::ChoraleBeaconSet, CallKind::RobotModelApi) => assert(method_name(a)[0] != method_name(b)[0]),
            (CallKind::ChoraleBeaconSet, CallKind::RobotTheremin) => assert(method_name(a)[0] != method_name(b)[0]),
            (CallKind::ChoraleBeaconSet, CallKind::RobotShutdown) => assert(method_name(a)[0] != method_name(b)[0]),
            (CallKind::ChoraleBeaconSet, CallKind::SystemSetName) => assert(method_name(a)[0] != method_name(b)[0]),
            (CallKind::ChoraleHeard, CallKind::Select) => assert(method_name(a)[0] != method_name(b)[0]),
            (CallKind::ChoraleHeard, CallKind::Status) => assert(method_name(a)[0] != method_name(b)[0]),
            (CallKind::ChoraleHeard, CallKind::RobotChorale) => assert(method_name(a)[0] != method_name(b)[0]),
            (CallKind::ChoraleHeard, CallKind::RobotSetMode) => assert(method_name(a)[0] != method_name(b)[0]),
            (CallKind::ChoraleHeard, CallKind::SystemReboot) => assert(method_name(a)[0] != method_name(b)[0]),
            (CallKind::RobotShutdown, CallKind::RobotModelApi) => assert(method_name(a)[6] != method_name(b)[6]),
            (CallKind::RobotShutdown, CallKind::RobotTheremin) => assert(method_name(a)[6] != method_name(b)[6]),
            (CallKind::RobotShutdown, CallKind::ChoraleBeaconSet) => assert(method_name(a)[0] != method_name(b)[0]),
            (CallKind::RobotShutdown, CallKind::SystemSetName) => assert(method_name(a)[0] != method_name(b)[0]),
            (CallKind::RobotMode, CallKind::Pin) => assert(method_name(a)[0] != method_name(b)[0]),
            (CallKind::RobotMode, CallKind::Log) => assert(method_name(a)[0] != method_name(b)[0]),
            (CallKind::RobotMode, CallKind::RobotMove) => assert(method_name(a)[8] != method_name(b)[8]),
            (CallKind::RobotMode, CallKind::RobotHead) => assert(method_name(a)[6] != method_name(b)[6]),
            (CallKind::RobotMode, CallKind::RobotLook) => assert(method_name(a)[6] != method_name(b)[6]),
            (CallKind::RobotMode, CallKind::RobotStop) => assert(method_name(a)[6] != method_name(b)[6]),
            (CallKind::RobotMode, CallKind::RobotInit) => assert(method_name(a)[6] != method_name(b)[6]),
            (CallKind::RobotMode, CallKind::RobotPose) => assert(method_name(a)[6] != method_name(b)[6]),
            (CallKind::RobotMode, CallKind::NetStatus) => assert(method_name(a)[0] != method_name(b)[0]),
            (CallKind::RobotMode, CallKind::NetForget) => assert(method_name(a)[0] != method_name(b)[0]),
            (CallKind::RobotMode, CallKind::PadStatus) => assert(method_name(a)[0] != method_name(b)[0]),
            (CallKind::RobotMode, CallKind::PadForget) => assert(method_name(a)[0] != method_name(b)[0]),
            (CallKind::RobotMode, CallKind::TofStream) => assert(method_name(a)[0] != method_name(b)[0]),
            (CallKind::RobotSetMode, CallKind::Select) => assert(method_name(a)[0] != method_name(b)[0]),
            (CallKind::RobotSetMode, CallKind::Status) => assert(method_name(a)[0] != method_name(b)[0]),
            (CallKind::RobotSetMode, CallKind::RobotChorale) => assert(method_name(a)[6] != method_name(b)[6]),
            (CallKind::RobotSetMode, CallKind::ChoraleHeard) => assert(method_name(a)[0] != method_name(b)[0]),
            (CallKind::RobotSetMode, CallKind::SystemReboot) => assert(method_name(a)[0] != method_name(b)[0]),
            (CallKind::RobotSubscribe, CallKind::Rollback) => assert(method_name(a)[0] != method_name(b)[0]),
            (CallKind::RobotSubscribe, CallKind::SystemServices) => assert(method_name(a)[0] != method_name(b)[0]),
            (CallKind::NetStatus, CallKind::Pin) => assert(method_name(a)[0] != method_name(b)[0]),
            (CallKind::NetStatus, CallKind::Log) => assert(method_name(a)[0] != method_name(b)[0]),
            (CallKind::NetStatus, CallKind::RobotMove) => assert(method_name(a)[0] != method_name(b)[0]),
            (CallKind::NetStatus, CallKind::RobotHead) => assert(method_name(a)[0] != method_name(b)[0]),
            (CallKind::NetStatus, CallKind::RobotLook) => assert(method_name(a)[0] != method_name(b)[0]),
            (CallKind::NetStatus, CallKind::RobotStop) => assert(method_name(a)[0] != method_name(b)[0]),
            (CallKind::NetStatus, CallKind::RobotInit) => assert(method_name(a)[0] != method_name(b)[0]),
            (CallKind::NetStatus, CallKind::RobotPose) => assert(method_name(a)[0] != method_name(b)[0]),
            (CallKind::NetStatus, CallKind::RobotMode) => assert(method_name(a)[0] != method_name(b)[0]),
            (CallKind::NetStatus, CallKind::NetForget) => assert(method_name(a)[4] != method_name(b)[4]),
            (CallKind::NetStatus, CallKind::PadStatus) => assert(method_name(a)[0] != method_name(b)[0]),
            (CallKind::NetStatus, CallKind::PadForget) => assert(method_name(a)[0] != method_name(b)[0]),
            (CallKind::NetStatus, CallKind::TofStream) => assert(method_name(a)[0] != method_name(b)[0]),
            (CallKind::NetScan, CallKind::RobotDo) => assert(method_name(a)[0] != method_name(b)[0]),
            (CallKind::NetScan, CallKind::PadPair) => assert(method_name(a)[0] != method_name(b)[0]),
            (CallKind::NetConnect, CallKind::Show) => assert(method_name(a)[0] != method_name(b)[0]),
            (CallKind::NetConnect, CallKind::RobotRelax) => assert(method_name(a)[0] != method_name(b)[0]),
            (CallKind::NetConnect, CallKind::RobotMouth) => assert(method_name(a)[0] != method_name(b)[0]),
            (CallKind::NetConnect, CallKind::RobotSound) => assert(method_name(a)[0] != method_name(b)[0]),
            (CallKind::NetConnect, CallKind::SystemInfo) => assert(method_name(a)[0] != method_name(b)[0]),
            (CallKind::NetForget, CallKind::Pin) => assert(method_name(a)[0] != method_name(b)[0]),
            (CallKind::NetForget, CallKind::Log) => assert(method_name(a)[0] != method_name(b)[0]),
            (CallKind::NetForget, CallKind::RobotMove) => assert(method_name(a)[0] != method_name(b)[0]),
            (CallKind::NetForget, CallKind::RobotHead) => assert(method_name(a)[0] != method_name(b)[0]),
            (CallKind::NetForget, CallKind::RobotLook) => assert(method_name(a)[0] != method_name(b)[0]),
            (CallKind::NetForget, CallKind::RobotStop) => assert(method_name(a)[0] != method_name(b)[0]),
            (CallKind::NetForget, CallKind::RobotInit) => assert(method_name(a)[0] != method_name(b)[0]),
            (CallKind::NetForget, CallKind::RobotPose) => assert(method_name(a)[0] != method_name(b)[0]),
            (CallKind::NetForget, CallKind::RobotMode) => assert(method_name(a)[0] != method_name(b)[0]),
            (CallKind::NetForget, CallKind::NetStatus) => assert(method_name(a)[4] != method_name(b)[4]),
            (CallKind::NetForget, CallKind::PadStatus) => assert(method_name(a)[0] != method_name(b)[0]),
            (CallKind::NetForget, CallKind::PadForget) => assert(method_name(a)[0] != method_name(b)[0]),
            (CallKind::NetForget, CallKind::TofStream) => assert(method_name(a)[0] != method_name(b)[0]),
            (CallKind::SystemInfo, CallKind::Show) => assert(method_name(a)[0] != method_name(b)[0]),
            (CallKind::SystemInfo, CallKind::RobotRelax) => assert(method_name(a)[0] != method_name(b)[0]),
            (CallKind::SystemInfo, CallKind::RobotMouth) => assert(method_name(a)[0] != method_name(b)[0]),
            (CallKind::SystemInfo, CallKind::RobotSound) => assert(method_name(a)[0] != method_name(b)[0]),
            (CallKind::SystemInfo, CallKind::NetConnect) => assert(method_name(a)[0] != method_name(b)[0]),
            (CallKind::SystemServices, CallKind::Rollback) => assert(method_name(a)[0] != method_name(b)[0]),
            (CallKind::SystemServices, CallKind::RobotSubscribe) => assert(method_name(a)[0] != method_name(b)[0]),
            (CallKind::SystemSetName, CallKind::RobotModelApi) => assert(method_name(a)[0] != method_name(b)[0]),
            (CallKind::SystemSetName, CallKind::RobotTheremin) => assert(method_name(a)[0] != method_name(b)[0]),
            (CallKind::SystemSetName, CallKind::ChoraleBeaconSet) => assert(method_name(a)[0] != method_name(b)[0]),
            (CallKind::SystemSetName, CallKind::RobotShutdown) => assert(method_name(a)[0] != method_name(b)[0]),
            (CallKind::SystemReboot, CallKind::Select) => assert(method_name(a)[0] != method_name(b)[0]),
            (CallKind::SystemReboot, CallKind::Status) => assert(method_name(a)[0] != method_name(b)[0]),
            (CallKind::SystemReboot, CallKind::RobotChorale) => assert(method_name(a)[0] != method_name(b)[0]),
            (CallKind::SystemReboot, CallKind::ChoraleHeard) => assert(method_name(a)[0] != method_name(b)[0]),
            (CallKind::SystemReboot, CallKind::RobotSetMode) => assert(method_name(a)[0] != method_name(b)[0]),
            (CallKind::SystemPairingPin, CallKind::ChoraleSubscribe) => assert(method_name(a)[0] != method_name(b)[0]),
            (CallKind::SystemSetPairingPin, CallKind::ResetToGolden) => assert(method_name(a)[0] != method_name(b)[0]),
            (CallKind::SystemSetPairingPin, CallKind::ListInstalled) => assert(method_name(a)[0] != method_name(b)[0]),
            (CallKind::SystemAuthenticate, CallKind::RobotSafeToRestart) => assert(method_name(a)[0] != method_name(b)[0]),
            (CallKind::PadStatus, CallKind::Pin) => assert(method_name(a)[0] != method_name(b)[0]),
            (CallKind::PadStatus, CallKind::Log) => assert(method_name(a)[0] != method_name(b)[0]),
            (CallKind::PadStatus, CallKind::RobotMove) => assert(method_name(a)[0] != method_name(b)[0]),
            (CallKind::PadStatus, CallKind::RobotHead) => assert(method_name(a)[0] != method_name(b)[0]),
            (CallKind::PadStatus, CallKind::RobotLook) => assert(method_name(a)[0] != method_name(b)[0]),
            (CallKind::PadStatus, CallKind::RobotStop) => assert(method_name(a)[0] != method_name(b)[0]),
            (CallKind::PadStatus, CallKind::RobotInit) => assert(method_name(a)[0] != method_name(b)[0]),
            (CallKind::PadStatus, CallKind::RobotPose) => assert(method_name(a)[0] != method_name(b)[0]),
            (CallKind::PadStatus, CallKind::RobotMode) => assert(method_name(a)[0] != method_name(b)[0]),
            (CallKind::PadStatus, CallKind::NetStatus) => assert(method_name(a)[0] != method_name(b)[0]),
            (CallKind::PadStatus, CallKind::NetForget) => assert(method_name(a)[0] != method_name(b)[0]),
            (CallKind::PadStatus, CallKind::PadForget) => assert(method_name(a)[4] != method_name(b)[4]),
            (CallKind::PadStatus, CallKind::TofStream) => assert(method_name(a)[0] != method_name(b)[0]),
            (CallKind::PadPair, CallKind::RobotDo) => assert(method_name(a)[0] != method_name(b)[0]),
            (CallKind::PadPair, CallKind::NetScan) => assert(method_name(a)[0] != method_name(b)[0]),
            (CallKind::PadForget, CallKind::Pin) => assert(method_name(a)[0] != method_name(b)[0]),
            (CallKind::PadForget, CallKind::Log) => assert(method_name(a)[0] != method_name(b)[0]),
            (CallKind::PadForget, CallKind::RobotMove) => assert(method_name(a)[0] != method_name(b)[0]),
            (CallKind::PadForget, CallKind::RobotHead) => assert(method_name(a)[0] != method_name(b)[0]),
            (CallKind::PadForget, CallKind::RobotLook) => assert(method_name(a)[0] != method_name(b)[0]),
            (CallKind::PadForget, CallKind::RobotStop) => assert(method_name(a)[0] != method_name(b)[0]),
            (CallKind::PadForget, CallKind::RobotInit) => assert(method_name(a)[0] != method_name(b)[0]),
            (CallKind::PadForget, CallKind::RobotPose) => assert(method_name(a)[0] != method_name(b)[0]),
            (CallKind::PadForget, CallKind::RobotMode) => assert(method_name(a)[0] != method_name(b)[0]),
            (CallKind::PadForget, CallKind::NetStatus) => assert(method_name(a)[0] != method_name(b)[0]),
            (CallKind::PadForget, CallKind::NetForget) => assert(method_name(a)[0] != method_name(b)[0]),
            (CallKind::PadForget, CallKind::PadStatus) => assert(method_name(a)[4] != method_name(b)[4]),
            (CallKind::PadForget, CallKind::TofStream) => assert(method_name(a)[0] != method_name(b)[0]),
            (CallKind::TofStream, CallKind::Pin) => assert(method_name(a)[0] != method_name(b)[0]),
            (CallKind::TofStream, CallKind::Log) => assert(method_name(a)[0] != method_name(b)[0]),
            (CallKind::TofStream, CallKind::RobotMove) => assert(method_name(a)[0] != method_name(b)[0]),
            (CallKind::TofStream, CallKind::RobotHead) => assert(method_name(a)[0] != method_name(b)[0]),
            (CallKind::TofStream, CallKind::RobotLook) => assert(method_name(a)[0] != method_name(b)[0]),
            (CallKind::TofStream, CallKind::RobotStop) => assert(method_name(a)[0] != method_name(b)[0]),
            (CallKind::TofStream, CallKind::RobotInit) => assert(method_name(a)[0] != method_name(b)[0]),
            (CallKind::TofStream, CallKind::RobotPose) => assert(method_name(a)[0] != method_name(b)[0]),
            (CallKind::TofStream, CallKind::RobotMode) => assert(method_name(a)[0] != method_name(b)[0]),
            (CallKind::TofStream, CallKind::NetStatus) => assert(method_name(a)[0] != method_name(b)[0]),
            (CallKind::TofStream, CallKind::NetForget) => assert(method_name(a)[0] != method_name(b)[0]),
            (CallKind::TofStream, CallKind::PadStatus) => assert(method_name(a)[0] != method_name(b)[0]),
            (CallKind::TofStream, CallKind::PadForget) => assert(method_name(a)[0] != method_name(b)[0]),
            _ => {},
        }
    }
}

/// A call's own method name reads back as that call.
pub proof fn method_name_reads_back(k: CallKind)
    ensures
        call_for_method(method_name(k)) == Some(k),
{
    let other = choose|j: CallKind| method_name(j) == method_name(k);
    if other != k {
        method_names_are_distinct(other, k);
    }
}

/// Every call has a service to answer it except three: the PIN check, which the transport answers
/// itself, and the two chorale notifications, which ride the connection `chorale.subscribe` opened.
pub proof fn unrouted_calls_are_the_transport_and_chorale_ones(k: CallKind)
    ensures
        route(k) is None <==> (k == CallKind::SystemAuthenticate || k == CallKind::ChoraleBeaconSet
            || k == CallKind::ChoraleHeard),
{
}

/// A stream holds its connection forever, so only subscriptions are on the stream lane.
pub proof fn only_subscriptions_stream(k: CallKind)
    ensures
        (route(k) matches Some((_, Lane::Stream))) <==> (k == CallKind::Subscribe || k
            == CallKind::RobotSubscribe || k == CallKind::ChoraleSubscribe || k == CallKind::PadInput
            || k == CallKind::TofStream),
{
}

/// Whatever holds a connection for the length of an operation changes the robot: an update,
/// joining a network, bonding a pad.
pub proof fn operations_are_mutating(k: CallKind)
    ensures
        (route(k) matches Some((_, Lane::Operation))) ==> mutates(k),
{
}

/// Every call that changes the robot is answered by some service, on a lane that answers.
pub proof fn mutating_calls_are_answered(k: CallKind)
    ensures
        mutates(k) ==> (route(k) matches Some((_, lane)) && lane != Lane::Stream),
{
}

/// `pad.pair` is the only method whose absent `params` member means "all defaults".
pub proof fn only_pairing_defaults_its_params(k: CallKind)
    ensures
        params_rule_of(k) == ParamsRule::DefaultsWhenAbsent <==> k == CallKind::PadPair,
{
}

/// A call that names a component is an `update.*` call, answered by `updaterd`.
pub proof fn component_calls_go_to_the_updater(k: CallKind)
    ensures
        names_component(k) ==> (route(k) matches Some((Service::Updater, _))),
{
}

/// Every call goes on the wire under the method constant of its own name: `robot.head` is the
/// head call, `robot.look` the look call, and so on for each of them.
pub proof fn each_call_is_named_by_its_method_constant()
    ensures
        method_name(CallKind::Hello) == method::HELLO@,
        method_name(CallKind::Check) == method::CHECK@,
        method_name(CallKind::Apply) == method::APPLY@,
        method_name(CallKind::Rollback) == method::ROLLBACK@,
        method_name(CallKind::ResetToGolden) == method::RESET_TO_GOLDEN@,
        method_name(CallKind::Select) == method::SELECT@,
        method_name(CallKind::Pin) == method::PIN@,
        method_name(CallKind::Status) == method::STATUS@,
        method_name(CallKind::ListInstalled) == method::LIST_INSTALLED@,
        method_name(CallKind::Log) == method::LOG@,
        method_name(CallKind::Show) == method::SHOW@,
        method_name(CallKind::Subscribe) == method::SUBSCRIBE@,
        method_name(CallKind::RobotSafeToRestart) == method::ROBOT_SAFE_TO_RESTART@,
        method_name(CallKind::RobotHealth) == method::ROBOT_HEALTH@,
        method_name(CallKind::RobotModelApi) == method::ROBOT_MODEL_API@,
        method_name(CallKind::RobotRemoteSessionActive) == method::ROBOT_SESSION_ACTIVE@,
        method_name(CallKind::RobotMove) == method::ROBOT_MOVE@,
        method_name(CallKind::RobotHead) == method::ROBOT_HEAD@,
        method_name(CallKind::RobotLook) == method::ROBOT_LOOK@,
        method_name(CallKind::RobotStop) == method::ROBOT_STOP@,
        method_name(CallKind::RobotEnable) == method::ROBOT_ENABLE@,
        method_name(CallKind::RobotInit) == method::ROBOT_INIT@,
        method_name(CallKind::RobotRelax) == method::ROBOT_RELAX@,
        method_name(CallKind::RobotDo) == method::ROBOT_DO@,
        method_name(CallKind::RobotPose) == method::ROBOT_POSE@,
        method_name(CallKind::RobotMouth) == method::ROBOT_MOUTH@,
        method_name(CallKind::RobotSound) == method::ROBOT_SOUND@,
        method_name(CallKind::RobotTheremin) == method::ROBOT_THEREMIN@,
        method_name(CallKind::RobotChorale) == method::ROBOT_CHORALE@,
        method_name(CallKind::ChoraleSubscribe) == method::CHORALE_SUBSCRIBE@,
        method_name(CallKind::ChoraleBeaconSet) == method::CHORALE_BEACON@,
        method_name(CallKind::ChoraleHeard) == method::CHORALE_HEARD@,
        method_name(CallKind::RobotShutdown) == method::ROBOT_SHUTDOWN@,
        method_name(CallKind::RobotMode) == method::ROBOT_MODE@,
        method_name(CallKind::RobotSetMode) == method::ROBOT_SET_MODE@,
        method_name(CallKind::RobotSubscribe) == method::ROBOT_SUBSCRIBE@,
        method_name(CallKind::NetStatus) == method::NET_STATUS@,
        method_name(CallKind::NetScan) == method::NET_SCAN@,
        method_name(CallKind::NetConnect) == method::NET_CONNECT@,
        method_name(CallKind::NetForget) == method::NET_FORGET@,
        method_name(CallKind::SystemInfo) == method::SYSTEM_INFO@,
        method_name(CallKind::SystemServices) == method::SYSTEM_SERVICES@,
        method_name(CallKind::SystemSetName) == method::SYSTEM_SET_NAME@,
        method_name(CallKind::SystemReboot) == method::SYSTEM_REBOOT@,
        method_name(CallKind::SystemPairingPin) == method::SYSTEM_PAIRING_PIN@,
        method_name(CallKind::SystemSetPairingPin) == method::SYSTEM_SET_PAIRING_PIN@,
        method_name(CallKind::SystemAuthenticate) == method::SYSTEM_AUTHENTICATE@,
        method_name(CallKind::PadStatus) == method::PAD_STATUS@,
        method_name(CallKind::PadPair) == method::PAD_PAIR@,
        method_name(CallKind::PadForget) == method::PAD_FORGET@,
        method_name(CallKind::PadInput) == method::PAD_INPUT@,
        method_name(CallKind::TofStream) == method::TOF_STREAM@,
{
    reveal_strlit("hello");
    reveal_strlit("update.check");
    reveal_strlit("update.apply");
    reveal_strlit("update.rollback");
    reveal_strlit("update.resetToGolden");
    reveal_strlit("update.select");
    reveal_strlit("update.pin");
    reveal_strlit("update.status");
    reveal_strlit("update.listInstalled");
    reveal_strlit("update.log");
    reveal_strlit("update.show");
    reveal_strlit("update.subscribe");
    reveal_strlit("robot.safeToRestart");
    reveal_strlit("robot.health");
    reveal_strlit("robot.modelApi");
    reveal_strlit("robot.remoteSessionActive");
    reveal_strlit("robot.move");
    reveal_strlit("robot.head");
    reveal_strlit("robot.look");
    reveal_strlit("robot.stop");
    reveal_strlit("robot.enable");
    reveal_strlit("robot.init");
    reveal_strlit("robot.relax");
    reveal_strlit("robot.do");
    reveal_strlit("robot.pose");
    reveal_strlit("robot.mouth");
    reveal_strlit("robot.sound");
    reveal_strlit("robot.theremin");
    reveal_strlit("robot.chorale");
    reveal_strlit("chorale.subscribe");
    reveal_strlit("chorale.beacon");
    reveal_strlit("chorale.heard");
    reveal_strlit("robot.shutdown");
    reveal_strlit("robot.mode");
    reveal_strlit("robot.setMode");
    reveal_strlit("robot.subscribe");
    reveal_strlit("net.status");
    reveal_strlit("net.scan");
    reveal_strlit("net.connect");
    reveal_strlit("net.forget");
    reveal_strlit("system.info");
    reveal_strlit("system.services");
    reveal_strlit("system.setName");
    reveal_strlit("system.reboot");
    reveal_strlit("system.pairingPin");
    reveal_strlit("system.setPairingPin");
    reveal_strlit("system.authenticate");
    reveal_strlit("pad.status");
    reveal_strlit("pad.pair");
    reveal_strlit("pad.forget");
    reveal_strlit("pad.input");
    reveal_strlit("tof.stream");
}

/// Whether a method name belongs to the namespace `ns`: it is `ns`, a dot, and a name.
pub open spec fn in_namespace(name: Seq<char>, ns: Seq<char>) -> bool {
    name.len() > ns.len() + 1 && name.take(ns.len() as int) == ns && name[ns.len() as int] == '.'
}

/// A call is answered by the service that owns its namespace: `hello` and `update.*` by
/// `updaterd`, `robot.*` and `chorale.subscribe` by `robotd`, `net.*`, `system.*` and the pad
/// bonding calls by `configd`, the raw pad stream by `padd` and the depth stream by `tofd`. The
/// only calls no service answers are the PIN check, which the transport answers, and the two
/// chorale notifications. Every `robot.*` call is answered promptly — it stores what the control
/// loop reads on its next tick — unless it is a subscription, and the slow lane carries only
/// reads.
pub proof fn calls_go_to_the_service_of_their_namespace(k: CallKind)
    ensures
        (method_name(k) == seq!['h', 'e', 'l', 'l', 'o'] || in_namespace(
            method_name(k),
            seq!['u', 'p', 'd', 'a', 't', 'e'],
        )) ==> (route(k) matches Some((Service::Updater, _))),
        in_namespace(method_name(k), seq!['r', 'o', 'b', 'o', 't']) ==> (route(k) matches Some(
            (Service::Robot, _),
        )),
        in_namespace(method_name(k), seq!['n', 'e', 't']) ==> (route(k) matches Some(
            (Service::Config, _),
        )),
        in_namespace(method_name(k), seq!['s', 'y', 's', 't', 'e', 'm']) ==> (k
            == CallKind::SystemAuthenticate || (route(k) matches Some((Service::Config, _)))),
        in_namespace(method_name(k), seq!['p', 'a', 'd']) ==> (k == CallKind::PadInput || (route(
            k,
        ) matches Some((Service::Config, _)))),
        in_namespace(method_name(k), seq!['t', 'o', 'f']) ==> (route(k) matches Some(
            (Service::Tof, _),
        )),
        in_namespace(method_name(k), seq!['c', 'h', 'o', 'r', 'a', 'l', 'e']) ==> (route(k) is None
            || (route(k) matches Some((Service::Robot, _)))),
        route(k) matches Some((Service::Pad, _)) <==> k == CallKind::PadInput,
        in_namespace(method_name(k), seq!['r', 'o', 'b', 'o', 't']) ==> (route(k) matches Some(
            (_, lane),
        ) && (lane == Lane::Prompt || lane == Lane::Stream)),
        (route(k) matches Some((_, Lane::Slow))) ==> !mutates(k),
        route(k) is None <==> (k == CallKind::SystemAuthenticate || k == CallKind::ChoraleBeaconSet
            || k == CallKind::ChoraleHeard),
{
}

/// The calls that carry nothing but their method: queries, streams and commands that take no
/// parameters of any kind.
pub open spec fn bare(k: CallKind) -> bool {
    k == CallKind::Status || k == CallKind::Subscribe || k == CallKind::RobotSafeToRestart || k
        == CallKind::RobotHealth || k == CallKind::RobotModelApi || k
        == CallKind::RobotRemoteSessionActive || k == CallKind::RobotStop || k == CallKind::RobotInit
        || k == CallKind::RobotRelax || k == CallKind::ChoraleSubscribe || k
        == CallKind::RobotShutdown || k == CallKind::RobotMode || k == CallKind::NetStatus || k
        == CallKind::NetScan || k == CallKind::SystemInfo || k == CallKind::SystemServices || k
        == CallKind::SystemReboot || k == CallKind::SystemPairingPin || k == CallKind::PadStatus
        || k == CallKind::PadInput || k == CallKind::TofStream
}

/// A call's `params` member is ignored exactly when the call carries no parameters; every call
/// that carries some has them decoded — required, except `pad.pair`, whose parameters are all
/// optional. In particular the calls that name a component, and every intent the robot acts on
/// (`robot.move`, `robot.sound`, `robot.do`, ...), have their parameters read.
pub proof fn params_are_read_exactly_when_a_call_carries_them(k: CallKind)
    ensures
        params_rule_of(k) == ParamsRule::Ignored <==> bare(k),
        !bare(k) && k != CallKind::PadPair ==> params_rule_of(k) == ParamsRule::Required,
        names_component(k) ==> params_rule_of(k) == ParamsRule::Required,
        k == CallKind::RobotMove || k == CallKind::RobotHead || k == CallKind::RobotLook || k
            == CallKind::RobotEnable || k == CallKind::RobotDo || k == CallKind::RobotPose || k
            == CallKind::RobotMouth || k == CallKind::RobotSound || k == CallKind::RobotTheremin
            || k == CallKind::RobotChorale || k == CallKind::RobotSetMode || k
            == CallKind::RobotSubscribe ==> params_rule_of(k) == ParamsRule::Required,
{
}

} // verus!
