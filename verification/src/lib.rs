//! IPC contracts between the robot's services and their clients, and the decisions `robotd` makes
//! about what clients ask of it.
//!
//! Two namespaces over one wire format — JSON-RPC 2.0, one object per line, over a unix socket:
//! `update.*` is `updaterd`'s API, `robot.*` is `robotd`'s. A method and its parameters are always
//! paired through a call's kind: the method name, the service that answers it and the lane it
//! travels on are properties of the call, decided here once.
use vstd::prelude::*;

pub mod call;
pub mod chorale;
pub mod code;
pub mod control;
pub mod envelope;
pub mod error;
pub mod expression;
pub mod identity;
pub mod intents;
pub mod method;
pub mod pad;
pub mod pad_link;
pub mod socket;
pub mod text;
pub mod types;

pub use call::{CallKind, Lane, ParamsRule, Service};
pub use chorale::{ChoraleAdvertise, ChoraleBeacon, ChoraleHeard, ChoraleParams, ChoraleResult};
pub use envelope::{Request, Response};
pub use error::{Error, Id};
pub use identity::{
    camera_stats_path, identity_path, join_path, release_from_path, BuildInfo, Identity,
};
pub use intents::{PowerRequest, SkillRequests, WheeeHold};
pub use pad::{
    PadAxis, PadEvent, PadFrame, PadInputDevice, PadInputResult, PadKey, PadReport, TofFrame,
    TofStreamResult,
};
pub use types::{
    ApplyOptions, ApplyParams, ApplyResult, AuthenticateParams, AuthenticateResult, BusHealth,
    CheckResult, ComponentId, ComponentParams, ComponentStatus, ConnectFailure, ConnectResult,
    DoParams, EnableParams, ForgetResult, HelloParams, HelloResult, ImuHealth, InstalledRelease,
    IntentResult, LogEntry, LogParams, ModeResult, ModelApiResult, NetConnectParams,
    NetForgetParams, NetScanResult, NetState, NetStatusResult, Network, Outcome, Pad,
    PadForgetParams, PadForgetResult, PadPairFailure, PadPairParams, PadPairResult,
    PadStatusResult, PairingPinResult, Phase, PinParams, Progress, RebootResult, RunEvent,
    RunRecord, RunTranscript, SafeToRestartResult, Security, SelectParams, ServiceUnit,
    SessionActiveResult, SetModeParams, SetNameParams, SetNameResult, SetPairingPinParams,
    ShowParams, Skill, SoundParams, SoundTag, SubscribeParams, SubscribeResult,
    SystemInfoResult, Target, ThereminParams, ThereminResult, UnitState,
};

verus! {

pub const JSONRPC_VERSION: &'static str = "2.0";

/// Protocol version, exchanged via `hello`. Bumped on any incompatible change; a bump promises
/// nothing in either direction, and no daemon refuses a call because this number differs.
pub const API_VERSION: u32 = 17;

/// The longest an update may legitimately go quiet, in seconds — the pre-install hook's ceiling.
/// `updaterd` enforces it and every client sizes its own budget above it.
pub const UPDATE_MAX_SILENCE_SECONDS: u64 = 600;

pub const DEFAULT_SOCKET: &'static str = "/run/updaterd.sock";

/// The robot's joint order, as every positional vector on the wire is indexed.
/// Left leg (5) · neck/head/mouth (5) · right leg (5).
pub const JOINT_NAMES: [&'static str; 15] = [
    "left_hip_yaw",
    "left_hip_roll",
    "left_hip_pitch",
    "left_knee",
    "left_ankle",
    "neck_pitch",
    "head_pitch",
    "head_yaw",
    "head_roll",
    "mouth",
    "right_hip_yaw",
    "right_hip_roll",
    "right_hip_pitch",
    "right_knee",
    "right_ankle",
];

} // verus!
