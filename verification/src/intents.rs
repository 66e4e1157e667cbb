//! What clients ask the robot to do, as the control loop takes it: the encodings of the pending
//! requests that live in atomic cells between IPC tasks and the loop, and what the loop reads back
//! out of them.
//!
//! Each request is an *edge* a client sets and the loop takes once, or a bitmask of several such
//! edges, so that two different requests in one tick both arrive.
use vstd::prelude::*;

use crate::chorale::ChoraleHeard;
use crate::types::{Skill, SoundParams, SoundTag};

verus! {

/// "No mode switch pending" in the mode-switch cell: 255 rather than 0, because 0 is a real mode
/// code.
pub const MODE_NONE: u8 = 255;

/// No power request pending.
pub const POWER_NONE: u8 = 0;
/// Torque on, ramp to the home pose.
pub const POWER_INIT: u8 = 1;
/// Torque off.
pub const POWER_RELAX: u8 = 2;

/// No pick-up or put-down pending, for the theremin and the chorale.
pub const EDGE_NONE: u8 = 0;
/// Pick up / start.
pub const EDGE_UP: u8 = 1;
/// Put down / stop.
pub const EDGE_DOWN: u8 = 2;

/// How fresh a wheee hold must be to still count as held, in microseconds (300 ms). `padd`
/// re-notifies every 20 ms tick while the trigger is down.
pub const WHEEE_HOLD_FRESH_US: u64 = 300_000;

/// How many heard beacons wait for the loop at most; the oldest give way.
pub const HEARD_QUEUE_CAP: usize = 64;

/// Pending one-shot skill requests, taken once per tick.
#[derive(Debug, Clone, Copy, Default, PartialEq, Eq, Structural)]
pub struct SkillRequests {
    pub ground_pick: bool,
    pub kick_left: bool,
    pub kick_right: bool,
    pub sit_toggle: bool,
    /// Start a roll — or, arriving while one runs, chain another.
    pub roulade: bool,
    pub head_tilt: bool,
    pub curious_scan: bool,
    pub greet: bool,
    pub invite_play: bool,
}

/// Whether a set of requests holds a request for `skill`.
pub open spec fn requests(r: SkillRequests, skill: Skill) -> bool {
    match skill {
        Skill::GroundPick => r.ground_pick,
        Skill::KickLeft => r.kick_left,
        Skill::KickRight => r.kick_right,
        Skill::SitToggle => r.sit_toggle,
        Skill::Roulade => r.roulade,
        Skill::HeadTilt => r.head_tilt,
        Skill::CuriousScan => r.curious_scan,
        Skill::Greet => r.greet,
        Skill::InvitePlay => r.invite_play,
    }
}

/// The bit each skill request sets in the pending mask.
pub open spec fn skill_mask(skill: Skill) -> u32 {
    match skill {
        Skill::GroundPick => 1,
        Skill::KickLeft => 2,
        Skill::KickRight => 4,
        Skill::SitToggle => 8,
        Skill::Roulade => 16,
        Skill::HeadTilt => 32,
        Skill::CuriousScan => 64,
        Skill::Greet => 128,
        Skill::InvitePlay => 256,
    }
}

/// The requests a pending mask holds.
pub open spec fn requests_in(bits: u32) -> SkillRequests {
    SkillRequests {
        ground_pick: bits & 1 != 0,
        kick_left: bits & 2 != 0,
        kick_right: bits & 4 != 0,
        sit_toggle: bits & 8 != 0,
        roulade: bits & 16 != 0,
        head_tilt: bits & 32 != 0,
        curious_scan: bits & 64 != 0,
        greet: bits & 128 != 0,
        invite_play: bits & 256 != 0,
    }
}

impl SkillRequests {
    pub fn any(&self) -> (r: bool)
        ensures
            r == (self.ground_pick || self.kick_left || self.kick_right || self.sit_toggle
                || self.roulade || self.head_tilt || self.curious_scan || self.greet
                || self.invite_play),
    {
        self.ground_pick || self.kick_left || self.kick_right || self.sit_toggle || self.roulade
            || self.head_tilt || self.curious_scan || self.greet || self.invite_play
    }

    /// The requests a pending mask holds.
    pub fn from_bits(bits: u32) -> (r: SkillRequests)
        ensures
            r == requests_in(bits),
    {
        SkillRequests {
            ground_pick: bits & 1 != 0,
            kick_left: bits & 2 != 0,
            kick_right: bits & 4 != 0,
            sit_toggle: bits & 8 != 0,
            roulade: bits & 16 != 0,
            head_tilt: bits & 32 != 0,
            curious_scan: bits & 64 != 0,
            greet: bits & 128 != 0,
            invite_play: bits & 256 != 0,
        }
    }
}

/// The bit a skill request sets in the pending mask.
pub fn skill_bit(skill: Skill) -> (r: u32)
    ensures
        r == skill_mask(skill),
{
    match skill {
        Skill::GroundPick => 1,
        Skill::KickLeft => 2,
        Skill::KickRight => 4,
        Skill::SitToggle => 8,
        Skill::Roulade => 16,
        Skill::HeadTilt => 32,
        Skill::CuriousScan => 64,
        Skill::Greet => 128,
        Skill::InvitePlay => 256,
    }
}

proof fn lemma_or_sets(bits: u32, x: u32)
    requires
        x != 0,
    ensures
        (bits | x) & x != 0,
{
    assert((bits | x) & x != 0) by (bit_vector)
        requires
            x != 0,
    ;
}

proof fn lemma_or_keeps(bits: u32, x: u32, y: u32)
    requires
        x & y == 0,
    ensures
        ((bits | x) & y != 0) == (bits & y != 0),
{
    assert(((bits | x) & y != 0) == (bits & y != 0)) by (bit_vector)
        requires
            x & y == 0,
    ;
}

proof fn lemma_skill_masks_disjoint(a: Skill, b: Skill)
    requires
        a != b,
    ensures
        skill_mask(a) & skill_mask(b) == 0,
        skill_mask(a) != 0,
{
    let x = skill_mask(a);
    let y = skill_mask(b);
    assert(x == 1 || x == 2 || x == 4 || x == 8 || x == 16 || x == 32 || x == 64 || x == 128 || x
        == 256);
    assert(y == 1 || y == 2 || y == 4 || y == 8 || y == 16 || y == 32 || y == 64 || y == 128 || y
        == 256);
    assert(x != y);
    assert(x & y == 0) by (bit_vector)
        requires
            x == 1 || x == 2 || x == 4 || x == 8 || x == 16 || x == 32 || x == 64 || x == 128 || x
                == 256,
            y == 1 || y == 2 || y == 4 || y == 8 || y == 16 || y == 32 || y == 64 || y == 128 || y
                == 256,
            x != y,
    ;
}

/// A request that was queued is seen when the requests are taken, and queueing one request never
/// hides or invents another — two different buttons in one tick both arrive.
pub proof fn queued_skill_is_taken(bits: u32, skill: Skill, other: Skill)
    ensures
        requests(requests_in(bits | skill_mask(skill)), skill),
        other != skill ==> requests(requests_in(bits | skill_mask(skill)), other) == requests(
            requests_in(bits),
            other,
        ),
{
    let x = skill_mask(skill);
    if other != skill {
        lemma_skill_masks_disjoint(skill, other);
        lemma_or_keeps(bits, x, skill_mask(other));
    } else {
        let fallback = if skill == Skill::GroundPick { Skill::KickLeft } else { Skill::GroundPick };
        lemma_skill_masks_disjoint(skill, fallback);
    }
    lemma_or_sets(bits, x);
}

/// An emptied mask holds no request.
pub proof fn taken_mask_is_empty()
    ensures
        requests_in(0) == SkillRequests::default_spec(),
{
    assert(requests_in(0) == SkillRequests::default_spec()) by {
        assert(0u32 & 1 == 0 && 0u32 & 2 == 0 && 0u32 & 4 == 0 && 0u32 & 8 == 0 && 0u32 & 16 == 0
            && 0u32 & 32 == 0 && 0u32 & 64 == 0 && 0u32 & 128 == 0 && 0u32 & 256 == 0)
            by (bit_vector);
    }
}

impl SkillRequests {
    /// No request at all.
    pub open spec fn default_spec() -> SkillRequests {
        SkillRequests {
            ground_pick: false,
            kick_left: false,
            kick_right: false,
            sit_toggle: false,
            roulade: false,
            head_tilt: false,
            curious_scan: false,
            greet: false,
            invite_play: false,
        }
    }
}

/// The bit a one-shot sound sets in the pending mask: one per tag, in declaration order.
pub open spec fn sound_mask(tag: SoundTag) -> u32 {
    match tag {
        SoundTag::Alarm => 1,
        SoundTag::Greet => 2,
        SoundTag::Inquire => 4,
        SoundTag::Peck => 8,
        SoundTag::Chirp => 16,
        SoundTag::Coo => 32,
        SoundTag::Wheee => 64,
    }
}

/// The bit a one-shot sound sets in the pending mask.
pub fn sound_bit(tag: SoundTag) -> (r: u32)
    ensures
        r == sound_mask(tag),
{
    match tag {
        SoundTag::Alarm => 1,
        SoundTag::Greet => 2,
        SoundTag::Inquire => 4,
        SoundTag::Peck => 8,
        SoundTag::Chirp => 16,
        SoundTag::Coo => 32,
        SoundTag::Wheee => 64,
    }
}

/// `tag`, if the mask holds it.
pub open spec fn pending_tag(bits: u32, tag: SoundTag) -> Seq<SoundTag> {
    if bits & sound_mask(tag) != 0 {
        seq![tag]
    } else {
        Seq::empty()
    }
}

/// The one-shot sounds a mask holds, in declaration order. The wheee is never in the mask: it is
/// a held level, not an event.
pub open spec fn sounds_in(bits: u32) -> Seq<SoundTag> {
    pending_tag(bits, SoundTag::Alarm) + pending_tag(bits, SoundTag::Greet) + pending_tag(
        bits,
        SoundTag::Inquire,
    ) + pending_tag(bits, SoundTag::Peck) + pending_tag(bits, SoundTag::Chirp) + pending_tag(
        bits,
        SoundTag::Coo,
    )
}

/// The one-shot sounds a pending mask holds, in declaration order.
pub fn sounds_from_bits(bits: u32) -> (r: Vec<SoundTag>)
    ensures
        r@ == sounds_in(bits),
{
    let mut out: Vec<SoundTag> = Vec::new();
    if bits & 1 != 0 {
        out.push(SoundTag::Alarm);
    }
    if bits & 2 != 0 {
        out.push(SoundTag::Greet);
    }
    if bits & 4 != 0 {
        out.push(SoundTag::Inquire);
    }
    if bits & 8 != 0 {
        out.push(SoundTag::Peck);
    }
    if bits & 16 != 0 {
        out.push(SoundTag::Chirp);
    }
    if bits & 32 != 0 {
        out.push(SoundTag::Coo);
    }
    assert(out@ =~= sounds_in(bits));
    out
}

/// A one-shot sound that was queued is among the sounds taken, and the wheee never is.
pub proof fn queued_sound_is_taken(bits: u32, tag: SoundTag)
    ensures
        tag != SoundTag::Wheee ==> sounds_in(bits | sound_mask(tag)).contains(tag),
        !sounds_in(bits).contains(SoundTag::Wheee),
{
    let x = sound_mask(tag);
    if tag != SoundTag::Wheee {
        assert(x != 0);
        lemma_or_sets(bits, x);
        let all = sounds_in(bits | x);
        let b = bits | x;
        assert(pending_tag(b, tag) == seq![tag]);
        assert(all =~= pending_tag(b, SoundTag::Alarm) + pending_tag(b, SoundTag::Greet)
            + pending_tag(b, SoundTag::Inquire) + pending_tag(b, SoundTag::Peck) + pending_tag(
            b,
            SoundTag::Chirp,
        ) + pending_tag(b, SoundTag::Coo));
        match tag {
            SoundTag::Alarm => assert(all[0] == tag),
            SoundTag::Greet => assert(all[pending_tag(b, SoundTag::Alarm).len() as int] == tag),
            SoundTag::Inquire => assert(all[(pending_tag(b, SoundTag::Alarm).len() + pending_tag(
                b,
                SoundTag::Greet,
            ).len()) as int] == tag),
            SoundTag::Peck => assert(all[(pending_tag(b, SoundTag::Alarm).len() + pending_tag(
                b,
                SoundTag::Greet,
            ).len() + pending_tag(b, SoundTag::Inquire).len()) as int] == tag),
            SoundTag::Chirp => assert(all[(pending_tag(b, SoundTag::Alarm).len() + pending_tag(
                b,
                SoundTag::Greet,
            ).len() + pending_tag(b, SoundTag::Inquire).len() + pending_tag(
                b,
                SoundTag::Peck,
            ).len()) as int] == tag),
            SoundTag::Coo => assert(all[(all.len() - 1) as int] == tag),
            SoundTag::Wheee => {},
        }
    }
    let s = sounds_in(bits);
    assert forall|i: int| 0 <= i < s.len() implies s[i] != SoundTag::Wheee by {
        assert(s =~= pending_tag(bits, SoundTag::Alarm) + pending_tag(bits, SoundTag::Greet)
            + pending_tag(bits, SoundTag::Inquire) + pending_tag(bits, SoundTag::Peck)
            + pending_tag(bits, SoundTag::Chirp) + pending_tag(bits, SoundTag::Coo));
    }
}

proof fn lemma_sound_masks_disjoint(a: SoundTag, b: SoundTag)
    requires
        a != b,
    ensures
        sound_mask(a) & sound_mask(b) == 0,
        sound_mask(a) != 0,
{
    let x = sound_mask(a);
    let y = sound_mask(b);
    assert(x != y);
    assert(x & y == 0) by (bit_vector)
        requires
            x == 1 || x == 2 || x == 4 || x == 8 || x == 16 || x == 32 || x == 64,
            y == 1 || y == 2 || y == 4 || y == 8 || y == 16 || y == 32 || y == 64,
            x != y,
    ;
}

/// The sound mask after a run of sound requests at an emptied mask: each one-shot tag sets its
/// bit, and a wheee goes to its hold slot instead.
pub open spec fn sounds_requested(run: Seq<SoundParams>) -> u32
    decreases run.len(),
{
    if run.len() == 0 {
        0
    } else if wheee_level_of(run.last()) is None {
        sounds_requested(run.drop_last()) | sound_mask(run.last().tag)
    } else {
        sounds_requested(run.drop_last())
    }
}

/// Whether a run of requests asked for the one-shot sound `tag`.
pub open spec fn asked_for(run: Seq<SoundParams>, tag: SoundTag) -> bool {
    tag != SoundTag::Wheee && exists|i: int| 0 <= i < run.len() && (#[trigger] run[i]).tag == tag
}

/// `tag`, if the run asked for it.
pub open spec fn if_asked(run: Seq<SoundParams>, tag: SoundTag) -> Seq<SoundTag> {
    if asked_for(run, tag) {
        seq![tag]
    } else {
        Seq::empty()
    }
}

/// The one-shot sounds a run asked for, once each, in declaration order.
pub open spec fn asked_in_order(run: Seq<SoundParams>) -> Seq<SoundTag> {
    if_asked(run, SoundTag::Alarm) + if_asked(run, SoundTag::Greet) + if_asked(run, SoundTag::Inquire)
        + if_asked(run, SoundTag::Peck) + if_asked(run, SoundTag::Chirp) + if_asked(
        run,
        SoundTag::Coo,
    )
}

proof fn lemma_requested_bits(run: Seq<SoundParams>, tag: SoundTag)
    requires
        tag != SoundTag::Wheee,
    ensures
        (sounds_requested(run) & sound_mask(tag) != 0) == asked_for(run, tag),
    decreases run.len(),
{
    if run.len() == 0 {
        assert(0u32 & sound_mask(tag) == 0) by (bit_vector);
    } else {
        let shorter = run.drop_last();
        let last = run.last();
        lemma_requested_bits(shorter, tag);
        assert(asked_for(run, tag) == (asked_for(shorter, tag) || last.tag == tag)) by {
            if asked_for(shorter, tag) {
                let i = choose|i: int| 0 <= i < shorter.len() && (#[trigger] shorter[i]).tag == tag;
                assert(run[i] == shorter[i]);
            }
            if last.tag == tag {
                assert(run[run.len() - 1] == last);
            }
            if asked_for(run, tag) {
                let i = choose|i: int| 0 <= i < run.len() && (#[trigger] run[i]).tag == tag;
                if i < run.len() - 1 {
                    assert(shorter[i] == run[i]);
                }
            }
        }
        if wheee_level_of(last) is None {
            let before = sounds_requested(shorter);
            if last.tag == tag {
                lemma_sound_masks_disjoint(tag, SoundTag::Wheee);
                lemma_or_sets(before, sound_mask(tag));
            } else {
                lemma_sound_masks_disjoint(last.tag, tag);
                lemma_or_keeps(before, sound_mask(last.tag), sound_mask(tag));
            }
        }
    }
}

/// A run of sound requests, taken at the next tick, gives every one-shot sound that was asked
/// for, once each however often it was asked, in declaration order — and never the wheee, which
/// is a held level. A take leaves the mask empty, so the next take gives nothing.
pub proof fn a_run_of_sound_requests_is_taken_once_each(run: Seq<SoundParams>)
    ensures
        sounds_in(sounds_requested(run)) == asked_in_order(run),
        sounds_in(0) == Seq::<SoundTag>::empty(),
{
    let bits = sounds_requested(run);
    lemma_requested_bits(run, SoundTag::Alarm);
    lemma_requested_bits(run, SoundTag::Greet);
    lemma_requested_bits(run, SoundTag::Inquire);
    lemma_requested_bits(run, SoundTag::Peck);
    lemma_requested_bits(run, SoundTag::Chirp);
    lemma_requested_bits(run, SoundTag::Coo);
    assert(pending_tag(bits, SoundTag::Alarm) == if_asked(run, SoundTag::Alarm));
    assert(pending_tag(bits, SoundTag::Greet) == if_asked(run, SoundTag::Greet));
    assert(pending_tag(bits, SoundTag::Inquire) == if_asked(run, SoundTag::Inquire));
    assert(pending_tag(bits, SoundTag::Peck) == if_asked(run, SoundTag::Peck));
    assert(pending_tag(bits, SoundTag::Chirp) == if_asked(run, SoundTag::Chirp));
    assert(pending_tag(bits, SoundTag::Coo) == if_asked(run, SoundTag::Coo));
    assert(0u32 & 1 == 0 && 0u32 & 2 == 0 && 0u32 & 4 == 0 && 0u32 & 8 == 0 && 0u32 & 16 == 0
        && 0u32 & 32 == 0) by (bit_vector);
    assert(sounds_in(0) =~= Seq::<SoundTag>::empty());
}

/// How a sound request lands: the level a wheee request holds, `None` for a one-shot tag.
pub open spec fn wheee_level_of(params: SoundParams) -> Option<bool> {
    if params.tag == SoundTag::Wheee {
        Some(
            match params.hold {
                Some(h) => h,
                None => true,
            },
        )
    } else {
        None
    }
}

/// The hold state of a level of this age.
pub open spec fn hold_state(level: bool, age_us: u64) -> WheeeHold {
    if !level {
        WheeeHold::Released
    } else if age_us < WHEEE_HOLD_FRESH_US {
        WheeeHold::Held
    } else {
        WheeeHold::Decayed
    }
}

/// How a sound request lands: `Some(level)` for the wheee, which is a held level — a bare
/// `wheee` with no `hold` is a hold, one short ride — and `None` for a one-shot tag, which goes
/// into the mask.
pub fn wheee_level(params: SoundParams) -> (r: Option<bool>)
    ensures
        r == wheee_level_of(params),
{
    if params.tag == SoundTag::Wheee {
        Some(
            match params.hold {
                Some(h) => h,
                None => true,
            },
        )
    } else {
        None
    }
}

/// What the wheee level says, as the loop consumes it. Three states rather than a bool because
/// the two ways of *not* being held are different sounds.
#[derive(Debug, Clone, Copy, PartialEq, Eq, Structural)]
pub enum WheeeHold {
    /// A `hold: true` fresh enough to trust.
    Held,
    /// A client that is still there and said to stop.
    Released,
    /// A hold that went stale — the client stopped re-notifying, or stopped existing.
    Decayed,
}

/// How old a stamp is at `now`, both in microseconds since the same epoch; never negative.
pub fn stamp_age(now_us: u64, at_us: u64) -> (r: u64)
    ensures
        r == if now_us >= at_us { (now_us - at_us) as u64 } else { 0 },
{
    if now_us >= at_us {
        now_us - at_us
    } else {
        0
    }
}

/// The wheee hold, from the last level a client sent and how old it is.
pub fn wheee_hold(level: bool, age_us: u64) -> (r: WheeeHold)
    ensures
        r == hold_state(level, age_us),
{
    if !level {
        WheeeHold::Released
    } else if age_us < WHEEE_HOLD_FRESH_US {
        WheeeHold::Held
    } else {
        WheeeHold::Decayed
    }
}

/// The wheee's three states read back as sent: a fresh `hold: true` (or a bare `wheee`) is held,
/// an explicit `hold: false` is a release however old, and a hold that stopped arriving decays —
/// it never reads as a release.
pub proof fn wheee_hold_reads_back(params: SoundParams, age_us: u64)
    requires
        params.tag == SoundTag::Wheee,
    ensures
        params.hold == Some(false) ==> hold_state(wheee_level_of(params)->0, age_us)
            == WheeeHold::Released,
        params.hold != Some(false) && age_us < WHEEE_HOLD_FRESH_US ==> hold_state(
            wheee_level_of(params)->0,
            age_us,
        ) == WheeeHold::Held,
        params.hold != Some(false) && age_us >= WHEEE_HOLD_FRESH_US ==> hold_state(
            wheee_level_of(params)->0,
            age_us,
        ) == WheeeHold::Decayed,
{
}

/// A pending mode switch, from the mode-switch cell as the loop takes it.
pub fn mode_switch_from(code: u8) -> (r: Option<u8>)
    ensures
        r == if code == MODE_NONE { None } else { Some(code) },
{
    if code == MODE_NONE {
        None
    } else {
        Some(code)
    }
}

/// What a client asked for, once.
#[derive(Debug, Clone, Copy, PartialEq, Eq, Structural)]
pub enum PowerRequest {
    /// Torque on, ramp to the home pose.
    Init,
    /// Torque off. The robot collapses if nothing holds it.
    Relax,
}

/// What a power request puts in the power cell.
pub open spec fn power_code_of(req: PowerRequest) -> u8 {
    match req {
        PowerRequest::Init => POWER_INIT,
        PowerRequest::Relax => POWER_RELAX,
    }
}

/// What the power cell holds for a power request.
pub fn power_code(req: PowerRequest) -> (r: u8)
    ensures
        r == power_code_of(req),
{
    match req {
        PowerRequest::Init => POWER_INIT,
        PowerRequest::Relax => POWER_RELAX,
    }
}

/// The pending power request a power cell holds, as the loop takes it.
pub fn power_from(code: u8) -> (r: Option<PowerRequest>)
    ensures
        r == power_from_spec(code),
{
    if code == POWER_INIT {
        Some(PowerRequest::Init)
    } else if code == POWER_RELAX {
        Some(PowerRequest::Relax)
    } else {
        None
    }
}

/// What a pick-up (`true`) or put-down (`false`) puts in its cell.
pub open spec fn edge_code_of(active: bool) -> u8 {
    if active {
        EDGE_UP
    } else {
        EDGE_DOWN
    }
}

/// What a pick-up (`true`) or put-down (`false`) puts in its cell.
pub fn edge_code(active: bool) -> (r: u8)
    ensures
        r == edge_code_of(active),
{
    if active {
        EDGE_UP
    } else {
        EDGE_DOWN
    }
}

/// The pending pick-up or put-down a cell holds, as the loop takes it.
pub fn edge_from(code: u8) -> (r: Option<bool>)
    ensures
        r == if code == EDGE_UP {
            Some(true)
        } else if code == EDGE_DOWN {
            Some(false)
        } else {
            None
        },
{
    if code == EDGE_UP {
        Some(true)
    } else if code == EDGE_DOWN {
        Some(false)
    } else {
        None
    }
}

/// What a chorale request's pinned piece puts in the piece cell: piece ids start at 1, so zero is
/// "no pin".
pub fn piece_code(piece: Option<u8>) -> (r: u8)
    ensures
        r == match piece {
            Some(p) => p,
            None => 0,
        },
{
    match piece {
        Some(p) => p,
        None => 0,
    }
}

/// The pending chorale request, from the request cell and the piece cell as the loop takes them:
/// a start carries its pinned piece, a stop carries none.
pub fn chorale_from(code: u8, piece: u8) -> (r: Option<(bool, Option<u8>)>)
    ensures
        r == if code == EDGE_UP {
            Some((true, if piece == 0 { None } else { Some(piece) }))
        } else if code == EDGE_DOWN {
            Some((false, None))
        } else {
            None
        },
{
    let pinned = if piece == 0 {
        None
    } else {
        Some(piece)
    };
    if code == EDGE_UP {
        Some((true, pinned))
    } else if code == EDGE_DOWN {
        Some((false, None))
    } else {
        None
    }
}

/// A request read back is the request that was written: for power, for the theremin and chorale
/// switches, and for the chorale's pinned piece.
pub proof fn requests_read_back(req: PowerRequest, active: bool, piece: Option<u8>)
    requires
        piece != Some(0u8),
    ensures
        power_from_spec(power_code_of(req)) == Some(req),
        power_code_of(req) != POWER_NONE,
        edge_code_of(active) != EDGE_NONE,
        (if edge_code_of(active) == EDGE_UP {
            Some(true)
        } else if edge_code_of(active) == EDGE_DOWN {
            Some(false)
        } else {
            None
        }) == Some(active),
        ({
            let p = match piece {
                Some(p) => p,
                None => 0u8,
            };
            if edge_code_of(active) == EDGE_UP {
                Some((true, if p == 0 { None } else { Some(p) }))
            } else if edge_code_of(active) == EDGE_DOWN {
                Some((false, None::<u8>))
            } else {
                None
            }
        }) == Some((active, if active { piece } else { None })),
{
}

/// The queue after one heard beacon arrives: appended, the oldest giving way at the cap.
pub open spec fn pushed(queue: Seq<ChoraleHeard>, heard: ChoraleHeard) -> Seq<ChoraleHeard> {
    if queue.len() >= HEARD_QUEUE_CAP {
        queue.subrange(1, queue.len() as int).push(heard)
    } else {
        queue.push(heard)
    }
}

/// The queue after a run of heard beacons arrives, in order, at an emptied queue.
pub open spec fn heard_after(run: Seq<ChoraleHeard>) -> Seq<ChoraleHeard>
    decreases run.len(),
{
    if run.len() == 0 {
        Seq::empty()
    } else {
        pushed(heard_after(run.drop_last()), run.last())
    }
}

/// Queue a heard beacon for the loop. Bounded: a backlog means the loop is not running, in
/// which case the newest beacons are the only ones worth having, so the oldest gives way.
pub fn push_heard(queue: &mut Vec<ChoraleHeard>, heard: ChoraleHeard)
    ensures
        final(queue)@ == pushed(old(queue)@, heard),
{
    if queue.len() >= HEARD_QUEUE_CAP {
        queue.remove(0);
    }
    queue.push(heard);
}

/// The heard-beacon queue never grows past its cap, and the newest beacon is always kept.
pub proof fn heard_queue_stays_bounded(before: Seq<ChoraleHeard>, heard: ChoraleHeard)
    requires
        before.len() <= HEARD_QUEUE_CAP,
    ensures
        pushed(before, heard).len() <= HEARD_QUEUE_CAP,
        pushed(before, heard).last() == heard,
{
}

/// What the loop takes after a run of beacons arrived at an emptied queue is the newest
/// [`HEARD_QUEUE_CAP`] of them, in arrival order: none reordered, none but the oldest dropped.
pub proof fn the_newest_beacons_are_kept_in_order(run: Seq<ChoraleHeard>)
    ensures
        heard_after(run) == run.subrange(
            if run.len() > HEARD_QUEUE_CAP { run.len() - HEARD_QUEUE_CAP } else { 0 },
            run.len() as int,
        ),
    decreases run.len(),
{
    if run.len() > 0 {
        let shorter = run.drop_last();
        the_newest_beacons_are_kept_in_order(shorter);
        let m = shorter.len() as int;
        let n = run.len() as int;
        let cap = HEARD_QUEUE_CAP as int;
        if m >= cap {
            assert(shorter.subrange(m - cap, m).subrange(1, cap).push(run.last()) =~= run.subrange(
                n - cap,
                n,
            ));
        } else {
            assert(shorter.subrange(0, m).push(run.last()) =~= run.subrange(0, n));
        }
    } else {
        assert(run.subrange(0, 0) =~= Seq::<ChoraleHeard>::empty());
    }
}

/// The intents that bear on whether the policy drives and on what is already moving.
#[derive(Debug, Clone, Copy, PartialEq, Eq, Structural)]
pub enum ControlIntent {
    /// `robot.stop`: zero the velocity.
    Stop,
    /// `robot.enable`, with the state asked for.
    Enable(bool),
    /// `robot.init`: torque on, ramp to the home pose.
    Init,
    /// `robot.relax`: torque off.
    Relax,
}

/// What a control intent writes into the cells the loop reads: the enable flag where it sets
/// one, whether it raises the behavior-cancel edge, and the power request where it makes one.
/// (A stop also zeroes the twist, which is a floating-point slot of its own.)
#[derive(Debug, Clone, Copy, PartialEq, Eq, Structural)]
pub struct ControlWrites {
    pub enabled: Option<bool>,
    pub cancel: bool,
    pub power: Option<u8>,
}

/// What each control intent writes.
pub open spec fn control_writes(intent: ControlIntent) -> ControlWrites {
    match intent {
        ControlIntent::Stop => ControlWrites { enabled: None, cancel: true, power: None },
        ControlIntent::Enable(on) => ControlWrites { enabled: Some(on), cancel: !on, power: None },
        ControlIntent::Init => ControlWrites {
            enabled: None,
            cancel: false,
            power: Some(POWER_INIT),
        },
        ControlIntent::Relax => ControlWrites {
            enabled: Some(false),
            cancel: true,
            power: Some(POWER_RELAX),
        },
    }
}

/// What a control intent writes: a stop, a disable and a relax each interrupt whatever transient
/// skill is queued or running; a relax also stops the policy driving, since a robot asked to go
/// limp must not be brought straight back up by the next tick.
pub fn writes_for(intent: ControlIntent) -> (r: ControlWrites)
    ensures
        r == control_writes(intent),
{
    match intent {
        ControlIntent::Stop => ControlWrites { enabled: None, cancel: true, power: None },
        ControlIntent::Enable(on) => ControlWrites { enabled: Some(on), cancel: !on, power: None },
        ControlIntent::Init => ControlWrites {
            enabled: None,
            cancel: false,
            power: Some(POWER_INIT),
        },
        ControlIntent::Relax => ControlWrites {
            enabled: Some(false),
            cancel: true,
            power: Some(POWER_RELAX),
        },
    }
}

/// The emergency sequence is authoritative: a stop, a disable and a relax — and nothing else —
/// cancel queued and active transient skills. A stop is not a disable, and a relax is both a
/// disable and a torque-off request.
pub proof fn the_emergency_intents_cancel_transient_skills(intent: ControlIntent)
    ensures
        control_writes(intent).cancel <==> (intent == ControlIntent::Stop || intent
            == ControlIntent::Enable(false) || intent == ControlIntent::Relax),
        intent == ControlIntent::Stop ==> control_writes(intent).enabled is None,
        intent == ControlIntent::Relax ==> control_writes(intent).enabled == Some(false)
            && power_from_spec(control_writes(intent).power->0) == Some(PowerRequest::Relax),
        intent == ControlIntent::Init ==> power_from_spec(control_writes(intent).power->0) == Some(
            PowerRequest::Init,
        ),
{
}

/// The pending power request a power cell holds.
pub open spec fn power_from_spec(code: u8) -> Option<PowerRequest> {
    if code == POWER_INIT {
        Some(PowerRequest::Init)
    } else if code == POWER_RELAX {
        Some(PowerRequest::Relax)
    } else {
        None
    }
}

} // verus!
