//! Parameters and results of the calls, as plain values.
//!
//! Everything is radians and radians per second, in the robot's trunk frame, right-handed: `x`
//! forward, `y` left, `z` up. (The floating-point intents live with the wire layer.)
use vstd::prelude::*;

use crate::identity::Identity;
use crate::text::{concat, quote_debug, debug_quoted};

verus! {

broadcast use vstd::string::group_string_axioms;

/// Name of a component as declared in `updater.toml` (`daemon`, `model`). A string, not an enum:
/// the engine is config-driven so one binary serves different robots.
#[derive(Debug, Clone, PartialEq, Eq, PartialOrd, Ord, Hash)]
pub struct ComponentId(pub String);

impl ComponentId {
    pub fn new(s: String) -> (r: ComponentId)
        ensures
            r.0@ == s@,
    {
        ComponentId(s)
    }

    pub fn as_str(&self) -> (r: &str)
        ensures
            r@ == self.0@,
    {
        self.0.as_str()
    }

    /// The name itself — what the id displays as.
    pub fn to_string(&self) -> (r: String)
        ensures
            r@ == self.0@,
    {
        self.0.clone()
    }
}

#[derive(Debug, Clone, PartialEq, Eq)]
pub struct HelloParams {
    pub api_version: u32,
}

#[derive(Debug, Clone, PartialEq, Eq)]
pub struct ComponentParams {
    pub component: ComponentId,
}

/// A voice-bank tag — what kind of sound, not which file.
#[derive(Debug, Clone, Copy, PartialEq, Eq, Hash, Structural)]
pub enum SoundTag {
    /// Sharp honk.
    Alarm,
    /// Wake-up quack.
    Greet,
    /// Rising question.
    Inquire,
    /// Low "tock" — the goodbye before power-off.
    Peck,
    /// The mouth-trigger quack.
    Chirp,
    /// Drowsy, breathy — the petting response.
    Coo,
    /// The held joy ride: start → loop while held → end.
    Wheee,
}

/// The voice-bank directory name of each tag.
pub open spec fn sound_dir(tag: SoundTag) -> Seq<char> {
    match tag {
        SoundTag::Alarm => seq!['a', 'l', 'a', 'r', 'm'],
        SoundTag::Greet => seq!['g', 'r', 'e', 'e', 't'],
        SoundTag::Inquire => seq!['i', 'n', 'q', 'u', 'i', 'r', 'e'],
        SoundTag::Peck => seq!['p', 'e', 'c', 'k'],
        SoundTag::Chirp => seq!['c', 'h', 'i', 'r', 'p'],
        SoundTag::Coo => seq!['c', 'o', 'o'],
        SoundTag::Wheee => seq!['w', 'h', 'e', 'e', 'e'],
    }
}

impl SoundTag {
    /// The voice-bank directory name.
    pub fn as_str(&self) -> (r: &'static str)
        ensures
            r@ == sound_dir(*self),
    {
        proof {
            reveal_strlit("alarm");
            reveal_strlit("greet");
            reveal_strlit("inquire");
            reveal_strlit("peck");
            reveal_strlit("chirp");
            reveal_strlit("coo");
            reveal_strlit("wheee");
        }
        match self {
            SoundTag::Alarm => "alarm",
            SoundTag::Greet => "greet",
            SoundTag::Inquire => "inquire",
            SoundTag::Peck => "peck",
            SoundTag::Chirp => "chirp",
            SoundTag::Coo => "coo",
            SoundTag::Wheee => "wheee",
        }
    }
}

/// See [`crate::method::ROBOT_SOUND`].
#[derive(Debug, Clone, Copy, PartialEq, Eq)]
pub struct SoundParams {
    pub tag: SoundTag,
    /// Only meaningful for [`SoundTag::Wheee`]: `Some(true)` starts/keeps the ride,
    /// `Some(false)` releases it.
    pub hold: Option<bool>,
}

/// See [`crate::method::ROBOT_THEREMIN`].
#[derive(Debug, Clone, Copy, PartialEq, Eq)]
pub struct ThereminParams {
    /// True picks the instrument up, false puts it down. Idempotent both ways.
    pub active: bool,
}

/// Answer to `robot.theremin`.
#[derive(Debug, Clone, PartialEq, Eq)]
pub struct ThereminResult {
    pub accepted: bool,
    /// Why not, when `accepted` is false.
    pub reason: Option<String>,
}

impl Default for ThereminResult {
    /// Accepted, with nothing to explain.
    fn default() -> (r: Self)
        ensures
            r.accepted,
            r.reason is None,
    {
        ThereminResult { accepted: true, reason: None }
    }
}

/// The one-shot skills, plus the sit↔stand toggle. See [`crate::method::ROBOT_DO`].
#[derive(Debug, Clone, Copy, PartialEq, Eq, Hash, Structural)]
pub enum Skill {
    /// Phase-scripted pick from the ground.
    GroundPick,
    /// Left-leg kick.
    KickLeft,
    /// Right-leg kick.
    KickRight,
    /// Sit if standing, stand if sitting.
    SitToggle,
    /// Forward roll; a request arriving while a roll runs chains another.
    Roulade,
    /// Smooth head roll, generated by `robotd`.
    HeadTilt,
    /// Smooth left/right gaze sweep, generated by `robotd`.
    CuriousScan,
    /// Short familiar-person greeting pose.
    Greet,
    /// Crouch and inquisitive head movement inviting a person to interact.
    InvitePlay,
}

#[derive(Debug, Clone, Copy, PartialEq, Eq)]
pub struct DoParams {
    pub skill: Skill,
}

/// Which mode to switch to, for `robot.setMode`: `"walk"` or `"roller"`.
#[derive(Debug, Clone, Default, PartialEq, Eq)]
pub struct SetModeParams {
    pub mode: String,
}

/// Answer to `robot.mode`.
#[derive(Debug, Clone, Default, PartialEq, Eq)]
pub struct ModeResult {
    pub mode: String,
}

/// How often a subscriber wants `robot.state`.
#[derive(Debug, Clone, Copy, Default, PartialEq, Eq)]
pub struct SubscribeParams {
    /// Absent means every tick.
    pub hz: Option<u32>,
}

/// Answer to `robot.subscribe`: what is constant for the life of the process.
#[derive(Debug, Clone, Default, PartialEq, Eq)]
pub struct SubscribeResult {
    pub accepted: bool,
    pub walk: Option<String>,
    pub stand: Option<String>,
    pub unavailable: Option<String>,
    pub sitstand: Option<String>,
    pub ground_pick: Option<String>,
    pub kick_left: Option<String>,
    pub kick_right: Option<String>,
    pub roulade: Option<String>,
    /// `hardware` on `robotd`; a digital twin reports `simulator`.
    pub runtime: Option<String>,
    /// Behavior ids this runtime can execute now.
    pub available_behaviors: Vec<String>,
}

/// Whether the policy should run. See [`crate::method::ROBOT_ENABLE`].
#[derive(Debug, Clone, Copy, PartialEq, Eq)]
pub struct EnableParams {
    pub on: bool,
    /// Flip the robot's current state instead of setting `on` (which is then ignored).
    pub toggle: bool,
}

/// What an apply should move to.
#[derive(Debug, PartialEq, Eq)]
pub enum Target {
    /// Whatever the source advertises as newest.
    Latest,
    /// An exact version.
    Exact(semver::Version),
    /// A named ref — a branch, in practice.
    Ref(String),
    /// The newest release candidate.
    Staging,
    /// A named candidate.
    StagingExact(semver::Version),
}

#[derive(Debug, Clone, Default, PartialEq, Eq)]
pub struct ApplyOptions {
    /// Run every check and stop before the symlink swap.
    pub dry_run: bool,
    /// Skip *only* the "no active remote session" preflight check.
    pub interrupt_sessions: bool,
    /// Take the release from this directory on the robot instead of the configured source.
    pub from_dir: Option<String>,
}

#[derive(Debug, PartialEq, Eq)]
pub struct ApplyParams {
    pub component: ComponentId,
    pub target: Target,
    pub options: ApplyOptions,
}

#[derive(Debug, PartialEq, Eq)]
pub struct SelectParams {
    pub component: ComponentId,
    pub version: semver::Version,
}

#[derive(Debug, PartialEq, Eq)]
pub struct PinParams {
    pub component: ComponentId,
    /// `None` unpins.
    pub version: Option<semver::Version>,
}

#[derive(Debug, Clone, PartialEq, Eq)]
pub struct LogParams {
    pub limit: usize,
}

/// Which run to transcribe.
#[derive(Debug, Clone, PartialEq, Eq)]
pub struct ShowParams {
    /// `None` means the most recent run.
    pub run: Option<u64>,
}

/// Join a wifi network. Deliberately no `Debug`: its key must never reach a log, so the only
/// rendering offered is [`NetConnectParams::debug_string`], which redacts it.
#[derive(Clone, PartialEq, Eq)]
pub struct NetConnectParams {
    pub ssid: String,
    /// `None` for an open network.
    pub psk: Option<String>,
}

/// The log rendering of a wifi join: the SSID, and whether a key was sent — never the key.
pub open spec fn net_connect_debug(p: NetConnectParams) -> Seq<char> {
    "NetConnectParams { ssid: "@ + debug_quoted(p.ssid@) + ", psk: "@ + (if p.psk is Some {
        "\"<redacted>\""@
    } else {
        "\"<none>\""@
    }) + " }"@
}

impl NetConnectParams {
    /// What `{:?}` would show, with the key redacted: whether a key was supplied is
    /// diagnostically useful, so its *presence* is shown and its value never is.
    pub fn debug_string(&self) -> (r: String)
        ensures
            r@ == net_connect_debug(*self),
    {
        let ssid = quote_debug(self.ssid.as_str());
        let mut line = concat("NetConnectParams { ssid: ", ssid.as_str());
        line.append(", psk: ");
        if self.psk.is_some() {
            line.append("\"<redacted>\"");
        } else {
            line.append("\"<none>\"");
        }
        line.append(" }");
        line
    }
}

/// The key never reaches the log rendering: two joins to the same network render alike whatever
/// their keys, as long as both or neither send one.
pub proof fn a_wifi_key_never_reaches_the_log(a: NetConnectParams, b: NetConnectParams)
    requires
        a.ssid@ == b.ssid@,
        (a.psk is Some) == (b.psk is Some),
    ensures
        net_connect_debug(a) == net_connect_debug(b),
{
}

#[derive(Debug, Clone, PartialEq, Eq)]
pub struct NetForgetParams {
    pub ssid: String,
}

#[derive(Debug, Clone, PartialEq, Eq)]
pub struct SetNameParams {
    pub name: String,
}

/// Prove knowledge of the pairing PIN. No `Debug`, for the same reason as [`NetConnectParams`].
#[derive(Clone, PartialEq, Eq)]
pub struct AuthenticateParams {
    pub pin: String,
}

impl AuthenticateParams {
    /// What `{:?}` would show, with the PIN redacted.
    pub fn debug_string(&self) -> (r: String)
        ensures
            r@ == "AuthenticateParams { pin: \"<redacted>\" }"@,
    {
        String::from_str("AuthenticateParams { pin: \"<redacted>\" }")
    }
}

/// Answer to `system.authenticate`.
#[derive(Debug, Clone, PartialEq, Eq)]
pub struct AuthenticateResult {
    pub authenticated: bool,
    /// Tries left before the transport closes the session.
    pub attempts_remaining: u32,
}

/// Set the Bluetooth pairing PIN: six characters, leading zeros significant.
#[derive(Debug, Clone, PartialEq, Eq)]
pub struct SetPairingPinParams {
    pub pin: String,
}

/// Pair the gamepad that is in pairing mode now.
#[derive(Debug, Clone, Default, PartialEq, Eq)]
pub struct PadPairParams {
    /// Which pad, when the address is already known. Omit it in the normal case.
    pub mac: Option<String>,
    /// How long to look, in seconds. `None` means the service's own default.
    pub timeout_seconds: Option<u32>,
}

/// Forget one pad, by address.
#[derive(Debug, Clone, PartialEq, Eq)]
pub struct PadForgetParams {
    pub mac: String,
}

#[derive(Debug, PartialEq, Eq)]
pub struct HelloResult {
    pub api_version: u32,
    pub daemon_version: Option<semver::Version>,
    /// Source revision of the running binary, or `None` for a build that did not come from CI.
    pub revision: Option<String>,
}

/// Where an in-flight update has got to.
#[derive(Debug, Clone, Copy, PartialEq, Eq, Structural)]
pub enum Phase {
    Idle,
    Preflight,
    Checking,
    Downloading,
    Verifying,
    Extracting,
    RunningPreHook,
    Swapping,
    RunningPostHook,
    Applying,
    HealthGate,
    Committing,
    RollingBack,
}

/// Payload of a [`crate::method::PROGRESS`] notification.
#[derive(Debug, Clone, PartialEq, Eq)]
pub struct Progress {
    pub component: ComponentId,
    pub phase: Phase,
    /// 0-100 where meaningful (downloads); `None` otherwise.
    pub percent: Option<u8>,
    pub detail: Option<String>,
}

#[derive(Debug, PartialEq, Eq)]
pub struct ComponentStatus {
    pub component: ComponentId,
    pub installed: Option<semver::Version>,
    pub phase: Phase,
    /// `None` when no health probe is configured.
    pub healthy: Option<bool>,
    pub pinned: Option<semver::Version>,
    pub last_attempt: Option<LogEntry>,
}

#[derive(Debug, PartialEq, Eq)]
pub struct InstalledRelease {
    pub version: semver::Version,
    pub active: bool,
    pub golden: bool,
    /// Git SHA of the build, for provenance.
    pub source_revision: Option<String>,
}

#[derive(Debug, PartialEq, Eq)]
pub enum CheckResult {
    UpToDate { installed: semver::Version },
    Available {
        installed: Option<semver::Version>,
        candidate: semver::Version,
        /// True when `min_supported` makes this update non-optional.
        mandatory: bool,
        changelog: Option<String>,
    },
    /// A newer version exists but cannot be installed here.
    Incompatible { candidate: semver::Version, reason: String },
}

/// Result of an apply / rollback / select.
#[derive(Debug, PartialEq, Eq)]
pub enum ApplyResult {
    Applied { from: Option<semver::Version>, to: semver::Version },
    AlreadyCurrent {
        version: semver::Version,
        /// Units running something other than `version`, scheduled for a restart.
        stale: Vec<String>,
    },
    /// Everything verified; stopped before the swap because `dry_run` was set.
    DryRunPassed { candidate: semver::Version },
    /// Applied, failed its gate, reverted.
    RolledBack { attempted: semver::Version, reverted_to: Option<semver::Version>, reason: String },
    /// Failed its gate with nowhere to revert to.
    Stuck { version: semver::Version, reason: String },
}

#[derive(Debug, PartialEq, Eq)]
pub struct LogEntry {
    /// Unix seconds, stamped when the attempt finished.
    pub at: i64,
    pub component: ComponentId,
    pub from: Option<semver::Version>,
    pub to: Option<semver::Version>,
    pub outcome: Outcome,
    /// Which transcript holds what this attempt actually did.
    pub run: Option<u64>,
}

#[derive(Debug, Clone, PartialEq, Eq)]
pub enum Outcome {
    Success,
    RolledBack { reason: String },
    /// Refused before anything changed.
    Aborted { reason: String },
}

/// One line of an update's transcript.
#[derive(Debug, PartialEq, Eq)]
pub struct RunRecord {
    /// Unix seconds.
    pub at: i64,
    pub event: RunEvent,
}

/// What happened, at one moment of one update.
#[derive(Debug, PartialEq, Eq)]
pub enum RunEvent {
    /// The run opened: what was asked for, by whom, and what was live at the time.
    Began {
        component: ComponentId,
        target: String,
        installed: Option<semver::Version>,
        source: String,
        requested_by: Option<String>,
    },
    /// A phase boundary.
    Phase { phase: Phase, detail: Option<String> },
    /// The manifest that passed its signature check.
    Manifest {
        version: semver::Version,
        sha256: String,
        bytes: Option<u64>,
        url: Option<String>,
        signed_by: Option<String>,
        source_revision: Option<String>,
    },
    /// A hook ran, with its output verbatim.
    Hook { hook: String, exit_code: Option<i32>, output: String },
    /// A unit was restarted, reloaded, or scheduled for restart, and how that went.
    Unit { unit: String, action: String, detail: Option<String> },
    /// The health gate's verdict.
    Health { passed: bool, detail: Option<String> },
    /// Worth writing down, with no shape of its own.
    Note { text: String },
    /// How the run ended.
    Ended { outcome: Option<Outcome>, summary: String },
    /// The per-run caps stopped the writer, and this many events were dropped after it.
    Truncated { dropped: u64 },
    /// A variant from a later release.
    Unrecognised,
}

/// Answer to `update.show`: one run, in full.
#[derive(Debug, PartialEq, Eq)]
pub struct RunTranscript {
    pub run: u64,
    pub component: ComponentId,
    /// Oldest first.
    pub events: Vec<RunRecord>,
    /// Every run still on disk, newest first.
    pub available: Vec<u64>,
}

/// Answer to `robot.safeToRestart`.
#[derive(Debug, Clone, PartialEq, Eq)]
pub struct SafeToRestartResult {
    pub safe: bool,
    /// Why not, when `safe` is false.
    pub reason: Option<String>,
}

/// The motor bus, as the loop sees it. Zero counters mean "no failures".
#[derive(Debug, Clone, Copy, PartialEq, Eq, Default)]
pub struct BusHealth {
    /// Consecutive failed reads; any success resets it.
    pub consecutive_errors: u32,
    /// Failed attempts to bring the bus up at all.
    pub startup_failures: u32,
}

/// The IMU board, which rides the motor bus.
#[derive(Debug, Clone, Copy, PartialEq, Eq)]
pub struct ImuHealth {
    /// Has the orientation filter converged?
    pub ready: bool,
    /// Reads that returned the previous sample unchanged, cumulative since startup.
    pub stale_blocks: u64,
    /// Length of the current unbroken run of stale reads; any fresh block resets it to zero.
    pub consecutive_stale_blocks: u64,
}

impl Default for ImuHealth {
    /// Nothing to report: not converged, no stale reads, no run — which must never read as a
    /// frozen IMU.
    fn default() -> (r: Self)
        ensures
            !r.ready,
            r.stale_blocks == 0,
            r.consecutive_stale_blocks == 0,
            r.consecutive_stale_blocks < ImuHealth::FROZEN_RUN,
    {
        ImuHealth { ready: false, stale_blocks: 0, consecutive_stale_blocks: 0 }
    }
}

impl ImuHealth {
    /// Run length at which orientation is called frozen rather than hiccuping: half a second at
    /// 50 Hz.
    pub const FROZEN_RUN: u64 = 25;

    /// Is orientation frozen *now*, as opposed to having hiccuped at some point?
    pub fn frozen(&self) -> (r: bool)
        ensures
            r == (self.consecutive_stale_blocks >= Self::FROZEN_RUN),
    {
        self.consecutive_stale_blocks >= Self::FROZEN_RUN
    }
}

/// Answer to a discrete intent — `robot.stop`, `robot.enable`. `accepted: false` is a normal
/// outcome, not an error.
#[derive(Debug, Clone, PartialEq, Eq)]
pub struct IntentResult {
    pub accepted: bool,
    pub reason: Option<String>,
}

impl IntentResult {
    pub fn accepted() -> (r: IntentResult)
        ensures
            r.accepted,
            r.reason is None,
    {
        IntentResult { accepted: true, reason: None }
    }

    pub fn refused(reason: String) -> (r: IntentResult)
        ensures
            !r.accepted,
            r.reason matches Some(why) && why@ == reason@,
    {
        IntentResult { accepted: false, reason: Some(reason) }
    }
}

/// Answer to `robot.modelApi`.
#[derive(Debug, Clone, PartialEq, Eq)]
pub struct ModelApiResult {
    pub model_api: u32,
}

/// Answer to `robot.remoteSessionActive`.
#[derive(Debug, Clone, PartialEq, Eq)]
pub struct SessionActiveResult {
    pub active: bool,
}

/// What the wifi link is doing.
#[derive(Debug, Clone, Copy, PartialEq, Eq, Structural)]
pub enum NetState {
    Connected,
    Connecting,
    Disconnected,
    Unavailable,
}

/// Answer to `net.status`. Every field beyond `state` is absent when not connected.
#[derive(Debug, Clone, PartialEq, Eq)]
pub struct NetStatusResult {
    pub state: NetState,
    pub ssid: Option<String>,
    /// 0-100.
    pub signal: Option<u8>,
    pub ip4: Option<String>,
    pub ip6: Option<String>,
    pub mac: Option<String>,
    pub iface: Option<String>,
}

/// How a network is secured.
#[derive(Debug, Clone, Copy, PartialEq, Eq, Structural)]
pub enum Security {
    Open,
    Wep,
    WpaPsk,
    Wpa3Sae,
    Enterprise,
}

#[derive(Debug, Clone, PartialEq, Eq)]
pub struct Network {
    pub ssid: String,
    /// 0-100.
    pub signal: u8,
    pub security: Security,
    /// True when a stored profile already exists.
    pub saved: bool,
}

/// Answer to `net.scan`, strongest first.
#[derive(Debug, Clone, PartialEq, Eq)]
pub struct NetScanResult {
    pub networks: Vec<Network>,
}

/// Why a join failed.
#[derive(Debug, Clone, Copy, PartialEq, Eq, Structural)]
pub enum ConnectFailure {
    BadKey,
    NotFound,
    Timeout,
    Unsupported,
    Other,
}

/// Answer to `net.connect`.
#[derive(Debug, Clone, PartialEq, Eq)]
pub enum ConnectResult {
    Connected { ssid: String, ip4: Option<String> },
    Failed { reason: ConnectFailure, detail: Option<String> },
}

/// Answer to `net.forget`.
#[derive(Debug, Clone, PartialEq, Eq)]
pub struct ForgetResult {
    pub removed: bool,
}

/// Answer to `system.info`.
#[derive(Debug, Clone, PartialEq, Eq)]
pub struct SystemInfoResult {
    pub name: String,
    pub serial: Option<String>,
    pub uptime_seconds: u64,
}

/// Answer to `system.setName`.
#[derive(Debug, Clone, PartialEq, Eq)]
pub struct SetNameResult {
    pub name: String,
}

/// Answer to `system.pairingPin` and `system.setPairingPin`.
#[derive(Debug, Clone, PartialEq, Eq)]
pub struct PairingPinResult {
    /// Six digits, leading zeros included.
    pub pin: String,
    /// True while the robot is still on the factory PIN.
    pub is_default: bool,
}

/// Answer to `system.reboot`: the reboot is scheduled, not immediate.
#[derive(Debug, Clone, PartialEq, Eq)]
pub struct RebootResult {
    pub in_seconds: u64,
}

/// A gamepad this robot knows about.
#[derive(Debug, Clone, PartialEq, Eq)]
pub struct Pad {
    pub mac: String,
    pub name: String,
    pub paired: bool,
    pub trusted: bool,
    pub connected: bool,
}

/// Whether one of the robot's units is running, as systemd sees it.
#[derive(Debug, Clone, Copy, PartialEq, Eq, Structural)]
pub enum UnitState {
    Active,
    Inactive,
    Absent,
    Unknown,
}

/// One daemon, as systemd and its own published identity describe it.
#[derive(Debug, Clone, PartialEq, Eq)]
pub struct ServiceUnit {
    pub unit: String,
    pub state: UnitState,
    pub identity: Option<Identity>,
}

/// Answer to `pad.status`.
#[derive(Debug, Clone, PartialEq, Eq)]
pub struct PadStatusResult {
    /// Every pad the robot is bonded to, connected first.
    pub pads: Vec<Pad>,
    pub driver: UnitState,
}

/// Why pairing a pad failed.
#[derive(Debug, Clone, Copy, PartialEq, Eq, Structural)]
pub enum PadPairFailure {
    NotFound,
    Ambiguous,
    Timeout,
    NoAdapter,
    Rejected,
    Other,
}

/// Answer to `pad.pair`.
#[derive(Debug, Clone, PartialEq, Eq)]
pub enum PadPairResult {
    Paired { pad: Pad },
    Failed { reason: PadPairFailure, detail: Option<String> },
}

/// Answer to `pad.forget`.
#[derive(Debug, Clone, PartialEq, Eq)]
pub struct PadForgetResult {
    pub removed: bool,
}

} // verus!
