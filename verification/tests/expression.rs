use duck_robot::expression::Kind;
use duck_robot::{Skill, SoundTag};

#[test]
fn trained_skills_are_not_mistaken_for_expressions() {
    assert!(Kind::of(Skill::KickLeft).is_none());
    for skill in [Skill::GroundPick, Skill::KickLeft, Skill::KickRight, Skill::SitToggle, Skill::Roulade] {
        assert!(Kind::of(skill).is_none(), "{skill:?}");
    }
}

#[test]
fn expressions_keep_their_skill_names_and_voices() {
    let greet = Kind::of(Skill::Greet).unwrap();
    assert_eq!(greet.label(), "greet");
    assert_eq!(greet.sound(), Some(SoundTag::Greet));
    let invite = Kind::of(Skill::InvitePlay).unwrap();
    assert_eq!(invite.label(), "invite_play");
    assert_eq!(invite.sound(), Some(SoundTag::Inquire));
    let tilt = Kind::of(Skill::HeadTilt).unwrap();
    assert_eq!(tilt.label(), "head_tilt");
    assert_eq!(tilt.sound(), None);
    let scan = Kind::of(Skill::CuriousScan).unwrap();
    assert_eq!(scan.label(), "curious_scan");
    assert_eq!(scan.sound(), None);
}
