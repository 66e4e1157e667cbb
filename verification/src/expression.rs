//! Small pet expressions that need no dedicated network: smooth command trajectories fed
//! through the standing policy. Which skills are expressions, what each is called on the wire,
//! and which sound goes with it.
use vstd::prelude::*;

use crate::types::{Skill, SoundTag};

verus! {

broadcast use vstd::string::group_string_axioms;

/// The four expressions.
#[derive(Debug, Clone, Copy, PartialEq, Eq, Structural)]
pub enum Kind {
    HeadTilt,
    CuriousScan,
    Greet,
    InvitePlay,
}

/// The expression a skill names, if it names one rather than a trained network.
pub open spec fn expression_of(skill: Skill) -> Option<Kind> {
    match skill {
        Skill::HeadTilt => Some(Kind::HeadTilt),
        Skill::CuriousScan => Some(Kind::CuriousScan),
        Skill::Greet => Some(Kind::Greet),
        Skill::InvitePlay => Some(Kind::InvitePlay),
        _ => None,
    }
}

/// The wire label of each expression — the same id the skill has.
pub open spec fn expression_label(kind: Kind) -> Seq<char> {
    match kind {
        Kind::HeadTilt => seq!['h', 'e', 'a', 'd', '_', 't', 'i', 'l', 't'],
        Kind::CuriousScan => seq!['c', 'u', 'r', 'i', 'o', 'u', 's', '_', 's', 'c', 'a', 'n'],
        Kind::Greet => seq!['g', 'r', 'e', 'e', 't'],
        Kind::InvitePlay => seq!['i', 'n', 'v', 'i', 't', 'e', '_', 'p', 'l', 'a', 'y'],
    }
}

/// The voice-bank sound that opens each expression, where it has one.
pub open spec fn expression_sound(kind: Kind) -> Option<SoundTag> {
    match kind {
        Kind::Greet => Some(SoundTag::Greet),
        Kind::InvitePlay => Some(SoundTag::Inquire),
        _ => None,
    }
}

impl Kind {
    /// The expression a skill names; `None` for a trained skill.
    pub fn of(skill: Skill) -> (r: Option<Kind>)
        ensures
            r == expression_of(skill),
    {
        match skill {
            Skill::HeadTilt => Some(Kind::HeadTilt),
            Skill::CuriousScan => Some(Kind::CuriousScan),
            Skill::Greet => Some(Kind::Greet),
            Skill::InvitePlay => Some(Kind::InvitePlay),
            _ => None,
        }
    }

    /// The wire label.
    pub fn label(self) -> (r: &'static str)
        ensures
            r@ == expression_label(self),
    {
        proof {
            reveal_strlit("head_tilt");
            reveal_strlit("curious_scan");
            reveal_strlit("greet");
            reveal_strlit("invite_play");
        }
        match self {
            Kind::HeadTilt => "head_tilt",
            Kind::CuriousScan => "curious_scan",
            Kind::Greet => "greet",
            Kind::InvitePlay => "invite_play",
        }
    }

    /// The sound to play as the expression starts.
    pub fn sound(self) -> (r: Option<SoundTag>)
        ensures
            r == expression_sound(self),
    {
        match self {
            Kind::Greet => Some(SoundTag::Greet),
            Kind::InvitePlay => Some(SoundTag::Inquire),
            _ => None,
        }
    }
}

/// Trained skills are never mistaken for expressions, and every expression comes from the skill
/// of the same name.
pub proof fn expressions_are_the_untrained_skills(skill: Skill)
    ensures
        expression_of(skill) is None <==> (skill == Skill::GroundPick || skill == Skill::KickLeft
            || skill == Skill::KickRight || skill == Skill::SitToggle || skill == Skill::Roulade),
{
}

} // verus!
