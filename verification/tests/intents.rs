use duck_robot::chorale::{ChoraleBeacon, ChoraleHeard};
use duck_robot::intents::{
    chorale_from, edge_code, edge_from, mode_switch_from, piece_code, power_code, power_from,
    push_heard, skill_bit, sound_bit, sounds_from_bits, stamp_age, wheee_hold, wheee_level,
    writes_for, ControlIntent, ControlWrites, HEARD_QUEUE_CAP, MODE_NONE, POWER_INIT, POWER_RELAX,
    WHEEE_HOLD_FRESH_US,
};
use duck_robot::{PowerRequest, Skill, SkillRequests, SoundParams, SoundTag, WheeeHold};

#[test]
fn two_different_skill_requests_in_one_tick_both_arrive() {
    let bits = skill_bit(Skill::HeadTilt) | skill_bit(Skill::KickLeft);
    let taken = SkillRequests::from_bits(bits);
    assert!(taken.head_tilt && taken.kick_left);
    assert!(!taken.kick_right && !taken.ground_pick && !taken.roulade);
    assert!(taken.any());
    assert!(!SkillRequests::from_bits(0).any());
    assert_eq!(SkillRequests::from_bits(0), SkillRequests::default());
}

#[test]
fn every_skill_has_its_own_bit() {
    let skills = [
        Skill::GroundPick,
        Skill::KickLeft,
        Skill::KickRight,
        Skill::SitToggle,
        Skill::Roulade,
        Skill::HeadTilt,
        Skill::CuriousScan,
        Skill::Greet,
        Skill::InvitePlay,
    ];
    let mut seen = 0u32;
    for skill in skills {
        let bit = skill_bit(skill);
        assert_eq!(bit.count_ones(), 1);
        assert_eq!(seen & bit, 0);
        seen |= bit;
    }
    let all = SkillRequests::from_bits(seen);
    assert!(all.ground_pick && all.kick_left && all.kick_right && all.sit_toggle);
    assert!(all.roulade && all.head_tilt && all.curious_scan && all.greet && all.invite_play);
}

#[test]
fn one_shot_sounds_come_back_in_declaration_order() {
    let bits = sound_bit(SoundTag::Coo) | sound_bit(SoundTag::Alarm) | sound_bit(SoundTag::Chirp);
    assert_eq!(
        sounds_from_bits(bits),
        vec![SoundTag::Alarm, SoundTag::Chirp, SoundTag::Coo]
    );
    assert_eq!(sounds_from_bits(0), Vec::<SoundTag>::new());
    // The wheee is a level, never an event in the mask.
    assert_eq!(sounds_from_bits(sound_bit(SoundTag::Wheee)), Vec::<SoundTag>::new());
}

#[test]
fn a_stale_hold_reads_as_decayed_not_released() {
    let held = wheee_level(SoundParams { tag: SoundTag::Wheee, hold: Some(true) });
    assert_eq!(held, Some(true));
    assert_eq!(wheee_hold(false, 0), WheeeHold::Released, "nothing has ever held it");
    assert_eq!(wheee_hold(true, 0), WheeeHold::Held);
    assert_eq!(wheee_hold(true, WHEEE_HOLD_FRESH_US - 1), WheeeHold::Held);
    assert_eq!(wheee_hold(true, WHEEE_HOLD_FRESH_US + 50_000), WheeeHold::Decayed);
    let released = wheee_level(SoundParams { tag: SoundTag::Wheee, hold: Some(false) });
    assert_eq!(released, Some(false));
    assert_eq!(wheee_hold(false, WHEEE_HOLD_FRESH_US * 10), WheeeHold::Released);
    // A bare wheee is a hold; any other tag is a one-shot.
    assert_eq!(wheee_level(SoundParams { tag: SoundTag::Wheee, hold: None }), Some(true));
    assert_eq!(wheee_level(SoundParams { tag: SoundTag::Chirp, hold: Some(true) }), None);
}

#[test]
fn ages_never_run_backwards() {
    assert_eq!(stamp_age(1_000, 400), 600);
    assert_eq!(stamp_age(400, 1_000), 0);
}

#[test]
fn pending_requests_read_back() {
    assert_eq!(power_from(power_code(PowerRequest::Init)), Some(PowerRequest::Init));
    assert_eq!(power_from(power_code(PowerRequest::Relax)), Some(PowerRequest::Relax));
    assert_eq!(power_from(0), None);
    assert_eq!(edge_from(edge_code(true)), Some(true));
    assert_eq!(edge_from(edge_code(false)), Some(false));
    assert_eq!(edge_from(0), None);
    assert_eq!(mode_switch_from(MODE_NONE), None);
    assert_eq!(mode_switch_from(0), Some(0), "zero is a real mode code");
    assert_eq!(chorale_from(edge_code(true), piece_code(Some(3))), Some((true, Some(3))));
    assert_eq!(chorale_from(edge_code(true), piece_code(None)), Some((true, None)));
    assert_eq!(chorale_from(edge_code(false), piece_code(Some(3))), Some((false, None)));
    assert_eq!(chorale_from(0, 3), None);
}

fn heard(beat: u8) -> ChoraleHeard {
    ChoraleHeard {
        beacon: ChoraleBeacon { piece: 1, beat, register: 9, id: 7, roster: vec![] },
        from: "aa:bb".to_owned(),
        age_us: 12,
    }
}

#[test]
fn the_heard_queue_keeps_the_newest() {
    let mut queue = Vec::new();
    for beat in 0..HEARD_QUEUE_CAP as u8 {
        push_heard(&mut queue, heard(beat));
    }
    assert_eq!(queue.len(), HEARD_QUEUE_CAP);
    push_heard(&mut queue, heard(200));
    assert_eq!(queue.len(), HEARD_QUEUE_CAP);
    assert_eq!(queue[0].beacon.beat, 1, "the oldest gave way");
    assert_eq!(queue[HEARD_QUEUE_CAP - 1].beacon.beat, 200);
}

#[test]
fn a_long_run_of_beacons_keeps_the_newest_in_arrival_order() {
    let mut queue = Vec::new();
    for beat in 0..150u8 {
        push_heard(&mut queue, heard(beat));
    }
    let beats: Vec<u8> = queue.iter().map(|h| h.beacon.beat).collect();
    let expected: Vec<u8> = (150 - HEARD_QUEUE_CAP as u8..150).collect();
    assert_eq!(beats, expected);
    assert_eq!(std::mem::take(&mut queue).len(), HEARD_QUEUE_CAP);
    assert!(queue.is_empty());
}

#[test]
fn repeated_sound_requests_are_taken_once_each() {
    let mut bits = 0u32;
    for tag in [SoundTag::Coo, SoundTag::Alarm, SoundTag::Coo, SoundTag::Wheee, SoundTag::Alarm] {
        if wheee_level(SoundParams { tag, hold: None }).is_none() {
            bits |= sound_bit(tag);
        }
    }
    assert_eq!(sounds_from_bits(bits), vec![SoundTag::Alarm, SoundTag::Coo]);
    assert_eq!(sounds_from_bits(0), Vec::<SoundTag>::new());
}

#[test]
fn stop_disable_and_relax_cancel_transient_skills() {
    assert_eq!(
        writes_for(ControlIntent::Stop),
        ControlWrites { enabled: None, cancel: true, power: None }
    );
    assert_eq!(
        writes_for(ControlIntent::Enable(false)),
        ControlWrites { enabled: Some(false), cancel: true, power: None }
    );
    assert_eq!(
        writes_for(ControlIntent::Enable(true)),
        ControlWrites { enabled: Some(true), cancel: false, power: None }
    );
    assert_eq!(
        writes_for(ControlIntent::Relax),
        ControlWrites { enabled: Some(false), cancel: true, power: Some(POWER_RELAX) }
    );
    assert_eq!(
        writes_for(ControlIntent::Init),
        ControlWrites { enabled: None, cancel: false, power: Some(POWER_INIT) }
    );
    assert_eq!(power_from(POWER_RELAX), Some(PowerRequest::Relax));
}
