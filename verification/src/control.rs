//! The skill scheduler's decisions, apart from its clocks: which scripted move may start, which
//! network drives a tick and what command it is fed, and which tuning that network runs at.
//!
//! The priority chain is roulade > kick > ground pick > sit/rise > stand-by-magnitude > walk. Two
//! of its subtleties are easy to "fix" by accident: a kick window and the sitstand *rise* both run
//! at standing tuning when the standing transition fires on their all-zero command, while the
//! *sit* does not (its posture flag makes the twist magnitude 1).
use vstd::prelude::*;

verus! {

broadcast use vstd::string::group_string_axioms;

/// Where the robot is in the sit↔stand cycle.
#[derive(Debug, Clone, Copy, PartialEq, Eq, Structural)]
pub enum SitPhase {
    Up,
    /// The sitstand network holds the seat (posture flag 1).
    Sitting,
    /// The sitstand network rises (posture flag 0), then the main policy takes over.
    Rising,
}

/// The networks a tick can run.
#[derive(Debug, Clone, Copy, PartialEq, Eq, Structural)]
pub enum Network {
    Walk,
    Stand,
    SitStand,
    GroundPick,
    KickLeft,
    KickRight,
    Roulade,
}

/// Which scripted moves are running, without their clocks.
#[derive(Debug, Clone, Copy, PartialEq, Eq, Structural)]
pub struct Windows {
    pub ground_pick: bool,
    /// An active kick window, and whether it is the left leg's.
    pub kick: Option<bool>,
    pub roulade: bool,
    pub sit: SitPhase,
}

/// What the chosen network is fed.
#[derive(Debug, Clone, Copy, PartialEq, Eq, Structural)]
pub enum Feed {
    /// Every command slot at zero — head and body included, whatever the client holds.
    Zero,
    /// The twist slots carry the ground-pick phase as `[cos, sin, 0]`; the rest is zero.
    PickPhase,
    /// The client's command, with the twist replaced by the posture flag `[1, 0, 0]` (sit).
    ClientSitFlag,
    /// The client's command, with the twist zeroed.
    ClientStill,
    /// The client's command as it stands.
    Client,
}

/// Which row of tuning a tick's scale and gain come from.
#[derive(Debug, Clone, Copy, PartialEq, Eq, Structural)]
pub enum TuningRow {
    /// The roulade's own scale and gain ratio.
    Roulade,
    /// The ground pick's own scale and gain ratio.
    GroundPick,
    /// Scale 1, at the standing gain.
    SitStandSoft,
    /// Scale 1, at the full gain.
    SitStandFull,
    /// The standing scale and gain.
    Standing,
    /// The running scale and gain.
    Running,
}

impl Windows {
    /// A scripted move is mid-flight. Sitting itself is not busy — a seated robot is parked.
    pub open spec fn is_busy(self) -> bool {
        self.ground_pick || self.kick is Some || self.roulade || self.sit == SitPhase::Rising
    }

    /// Nothing running, standing up.
    pub fn idle() -> (r: Windows)
        ensures
            r == (Windows { ground_pick: false, kick: None, roulade: false, sit: SitPhase::Up }),
    {
        Windows { ground_pick: false, kick: None, roulade: false, sit: SitPhase::Up }
    }

    pub fn busy(&self) -> (r: bool)
        ensures
            r == self.is_busy(),
    {
        self.ground_pick || self.kick.is_some() || self.roulade || self.sit == SitPhase::Rising
    }

    /// Interrupt every transient skill. A seated posture is kept: stopping a resting duck must
    /// not make it stand.
    pub fn cancelled(&self) -> (r: Windows)
        ensures
            r == (Windows {
                ground_pick: false,
                kick: None,
                roulade: false,
                sit: if self.sit == SitPhase::Rising { SitPhase::Up } else { self.sit },
            }),
    {
        Windows {
            ground_pick: false,
            kick: None,
            roulade: false,
            sit: if self.sit == SitPhase::Rising {
                SitPhase::Up
            } else {
                self.sit
            },
        }
    }
}

/// Cancelling leaves nothing mid-flight, and a seated robot seated.
pub proof fn cancelling_stops_every_move(w: Windows)
    ensures
        !(Windows {
            ground_pick: false,
            kick: None,
            roulade: false,
            sit: if w.sit == SitPhase::Rising { SitPhase::Up } else { w.sit },
        }).is_busy(),
        w.sit == SitPhase::Sitting ==> (if w.sit == SitPhase::Rising {
            SitPhase::Up
        } else {
            w.sit
        }) == SitPhase::Sitting,
{
}

/// The windows at the top of a tick once those whose time ran out have closed, and whether a
/// new roll starts. `kick_over`, `roll_over` and `rise_over` say that the running kick, roll and
/// rise have used up their time; a flag for a move that is not running says nothing. The end of a
/// roll is a fork: a request that landed within the chain window (`chain_held`) starts another
/// roll from wherever this one landed, and otherwise the roll hands back.
pub open spec fn expired(w: Windows, kick_over: bool, roll_over: bool, chain_held: bool, rise_over: bool) -> (Windows, bool) {
    (
        Windows {
            ground_pick: w.ground_pick,
            kick: if kick_over { None } else { w.kick },
            roulade: if w.roulade && roll_over { chain_held } else { w.roulade },
            sit: if w.sit == SitPhase::Rising && rise_over { SitPhase::Up } else { w.sit },
        },
        w.roulade && roll_over && chain_held,
    )
}

/// Closes the windows whose time ran out, before the tick that would otherwise run one more frame
/// of a finished move. The second result says a chained roll starts, for the caller to rewind the
/// roll's clock.
pub fn expire(w: &Windows, kick_over: bool, roll_over: bool, chain_held: bool, rise_over: bool) -> (r: (Windows, bool))
    ensures
        r == expired(*w, kick_over, roll_over, chain_held, rise_over),
{
    let roll_ends = w.roulade && roll_over;
    let next = Windows {
        ground_pick: w.ground_pick,
        kick: if kick_over {
            None
        } else {
            w.kick
        },
        roulade: if roll_ends {
            chain_held
        } else {
            w.roulade
        },
        sit: if w.sit == SitPhase::Rising && rise_over {
            SitPhase::Up
        } else {
            w.sit
        },
    };
    (next, roll_ends && chain_held)
}

/// Time running out never starts a move: every window open after expiry was open before, and a
/// roll only stays open by chaining.
pub proof fn expiry_only_closes_windows(w: Windows, kick_over: bool, roll_over: bool, chain_held: bool, rise_over: bool)
    ensures
        ({
            let (next, chained) = expired(w, kick_over, roll_over, chain_held, rise_over);
            &&& next.ground_pick == w.ground_pick
            &&& next.kick is Some ==> next.kick == w.kick
            &&& next.roulade ==> w.roulade
            &&& (next.roulade && roll_over) ==> chained
            &&& next.sit == SitPhase::Rising ==> w.sit == SitPhase::Rising && !rise_over
            &&& (w.sit == SitPhase::Sitting) == (next.sit == SitPhase::Sitting)
        }),
{
}

/// May a ground pick start? Gated on nothing but the network existing and the pick not already
/// running — a pick can preempt a kick's tail.
pub fn ground_pick_gate(has_policy: bool, w: &Windows) -> (r: Result<(), &'static str>)
    ensures
        r is Ok <==> (has_policy && !w.ground_pick),
        r matches Err(why) ==> why@ == if !has_policy {
            "no ground-pick policy loaded"@
        } else {
            "ground pick already running"@
        },
{
    if !has_policy {
        return Err("no ground-pick policy loaded");
    }
    if w.ground_pick {
        return Err("ground pick already running");
    }
    Ok(())
}

/// May a kick window start? Blocked while any scripted move runs.
pub fn kick_gate(has_policy: bool, w: &Windows) -> (r: Result<(), &'static str>)
    ensures
        r is Ok <==> (has_policy && w.kick is None && !w.ground_pick && !w.roulade),
        r matches Err(why) ==> why@ == if !has_policy {
            "no kick policy loaded for that leg"@
        } else {
            "a scripted move is already running"@
        },
{
    if !has_policy {
        return Err("no kick policy loaded for that leg");
    }
    if w.kick.is_some() || w.ground_pick || w.roulade {
        return Err("a scripted move is already running");
    }
    Ok(())
}

/// A roulade request: `Ok(true)` starts a roll; `Ok(false)` — one is already running — keeps the
/// chain alive, so the caller stays quiet: a held button lands here fifty times a second.
pub fn roulade_gate(has_policy: bool, w: &Windows) -> (r: Result<bool, &'static str>)
    ensures
        w.roulade ==> r == Ok::<bool, &'static str>(false),
        !w.roulade ==> (r is Ok <==> (has_policy && !w.ground_pick)),
        !w.roulade && r is Ok ==> r == Ok::<bool, &'static str>(true),
        r matches Err(why) ==> why@ == if !has_policy {
            "no roulade policy loaded"@
        } else {
            "a ground pick is running"@
        },
{
    if w.roulade {
        return Ok(false);
    }
    if !has_policy {
        return Err("no roulade policy loaded");
    }
    if w.ground_pick {
        return Err("a ground pick is running");
    }
    Ok(true)
}

/// Sit if standing, stand if sitting: the next phase and the word for what was done. Refused
/// mid-rise, and from standing where there is no sitstand network.
pub fn sit_toggle(has_sitstand: bool, sit: SitPhase) -> (r: Result<(SitPhase, &'static str), &'static str>)
    ensures
        match sit {
            SitPhase::Up => if has_sitstand {
                r matches Ok((next, word)) && next == SitPhase::Sitting && word@ == "sit"@
            } else {
                r matches Err(why) && why@ == "no sitstand policy loaded"@
            },
            SitPhase::Sitting => r matches Ok((next, word)) && next == SitPhase::Rising && word@
                == "stand"@,
            SitPhase::Rising => r matches Err(why) && why@ == "already standing up"@,
        },
{
    match sit {
        SitPhase::Up => {
            if !has_sitstand {
                return Err("no sitstand policy loaded");
            }
            Ok((SitPhase::Sitting, "sit"))
        },
        SitPhase::Sitting => Ok((SitPhase::Rising, "stand")),
        SitPhase::Rising => Err("already standing up"),
    }
}

/// What the tick's network is fed.
pub open spec fn feed_for(w: Windows, body_active: bool) -> Feed {
    if w.roulade || w.kick is Some {
        Feed::Zero
    } else if w.ground_pick {
        Feed::PickPhase
    } else {
        match w.sit {
            SitPhase::Sitting => Feed::ClientSitFlag,
            SitPhase::Rising => Feed::ClientStill,
            SitPhase::Up => if body_active {
                Feed::ClientStill
            } else {
                Feed::Client
            },
        }
    }
}

/// The network a tick runs. `stands` is the policy's standing test on the fed command's twist
/// magnitude; holding the body pose forces the standing network where there is one.
pub open spec fn network_for(w: Windows, body_active: bool, stands: bool, has_standing: bool) -> Network {
    if w.roulade {
        Network::Roulade
    } else if w.kick is Some {
        if w.kick->0 {
            Network::KickLeft
        } else {
            Network::KickRight
        }
    } else if w.ground_pick {
        Network::GroundPick
    } else {
        match w.sit {
            SitPhase::Sitting | SitPhase::Rising => Network::SitStand,
            SitPhase::Up => if stands || (body_active && has_standing) {
                Network::Stand
            } else {
                Network::Walk
            },
        }
    }
}

/// The wire label of the tick: which network drove, and for the sitstand network which way.
pub open spec fn tick_label(net: Network, sit: SitPhase) -> Seq<char> {
    match net {
        Network::Roulade => "roulade"@,
        Network::KickLeft => "kick_left"@,
        Network::KickRight => "kick_right"@,
        Network::GroundPick => "ground_pick"@,
        Network::SitStand => if sit == SitPhase::Sitting {
            "sit"@
        } else {
            "rise"@
        },
        Network::Stand => "stand"@,
        Network::Walk => "walk"@,
    }
}

/// What the tick's network is fed.
pub fn feed(w: &Windows, body_active: bool) -> (r: Feed)
    ensures
        r == feed_for(*w, body_active),
{
    if w.roulade || w.kick.is_some() {
        Feed::Zero
    } else if w.ground_pick {
        Feed::PickPhase
    } else {
        match w.sit {
            SitPhase::Sitting => Feed::ClientSitFlag,
            SitPhase::Rising => Feed::ClientStill,
            SitPhase::Up => if body_active {
                Feed::ClientStill
            } else {
                Feed::Client
            },
        }
    }
}

/// The network a tick runs, and its wire label.
pub fn select(w: &Windows, body_active: bool, stands: bool, has_standing: bool) -> (r: (Network, &'static str))
    ensures
        r.0 == network_for(*w, body_active, stands, has_standing),
        r.1@ == tick_label(r.0, w.sit),
{
    if w.roulade {
        (Network::Roulade, "roulade")
    } else if let Some(left) = w.kick {
        if left {
            (Network::KickLeft, "kick_left")
        } else {
            (Network::KickRight, "kick_right")
        }
    } else if w.ground_pick {
        (Network::GroundPick, "ground_pick")
    } else {
        match w.sit {
            SitPhase::Sitting => (Network::SitStand, "sit"),
            SitPhase::Rising => (Network::SitStand, "rise"),
            SitPhase::Up => if stands || (body_active && has_standing) {
                (Network::Stand, "stand")
            } else {
                (Network::Walk, "walk")
            },
        }
    }
}

/// Which tuning a network runs at. `stands` is the standing test on the fed command, which is how
/// a kick window and the rise end up at standing tuning.
pub open spec fn tuning_for(net: Network, stands: bool) -> TuningRow {
    match net {
        Network::Roulade => TuningRow::Roulade,
        Network::GroundPick => TuningRow::GroundPick,
        Network::SitStand => if stands {
            TuningRow::SitStandSoft
        } else {
            TuningRow::SitStandFull
        },
        Network::Stand => TuningRow::Standing,
        Network::KickLeft | Network::KickRight => if stands {
            TuningRow::Standing
        } else {
            TuningRow::Running
        },
        Network::Walk => TuningRow::Running,
    }
}

/// Which tuning a network runs at.
pub fn tuning(net: Network, stands: bool) -> (r: TuningRow)
    ensures
        r == tuning_for(net, stands),
{
    match net {
        Network::Roulade => TuningRow::Roulade,
        Network::GroundPick => TuningRow::GroundPick,
        Network::SitStand => if stands {
            TuningRow::SitStandSoft
        } else {
            TuningRow::SitStandFull
        },
        Network::Stand => TuningRow::Standing,
        Network::KickLeft | Network::KickRight => if stands {
            TuningRow::Standing
        } else {
            TuningRow::Running
        },
        Network::Walk => TuningRow::Running,
    }
}

/// The scripted moves are fed all-zero commands whatever the client holds, and a roll outranks
/// everything, then a kick, then a ground pick.
pub proof fn scripted_moves_take_priority(w: Windows, body_active: bool, stands: bool, has_standing: bool)
    ensures
        w.roulade ==> network_for(w, body_active, stands, has_standing) == Network::Roulade,
        !w.roulade && w.kick is Some ==> feed_for(w, body_active) == Feed::Zero,
        !w.roulade && w.kick is None && w.ground_pick ==> network_for(w, body_active, stands, has_standing)
            == Network::GroundPick,
        !w.is_busy() && w.sit == SitPhase::Up && body_active && has_standing ==> network_for(
            w,
            body_active,
            stands,
            has_standing,
        ) == Network::Stand,
{
}

/// Tuning follows the fed command, not the leg: a kick window, either leg, runs at standing
/// tuning when its fed command passes the standing test and at running tuning otherwise, as the
/// standing network always does and the walk never does (the walk is only chosen when the test
/// fails). The two kick windows run at the same tuning whatever the test says, and the roll and
/// the ground pick run at their own tuning whatever it says.
pub proof fn tuning_follows_the_standing_test(net: Network, stands: bool)
    ensures
        tuning_for(Network::KickLeft, stands) == tuning_for(Network::KickRight, stands),
        tuning_for(Network::Roulade, stands) == TuningRow::Roulade,
        tuning_for(Network::GroundPick, stands) == TuningRow::GroundPick,
        (net == Network::KickLeft || net == Network::KickRight || net == Network::Stand) && stands
            ==> tuning_for(net, stands) == TuningRow::Standing,
        net == Network::Stand ==> tuning_for(net, stands) == TuningRow::Standing,
        tuning_for(net, stands) == TuningRow::Standing ==> stands || net == Network::Stand,
        (net == Network::KickLeft || net == Network::KickRight || net == Network::Walk) && !stands
            ==> tuning_for(net, stands) == TuningRow::Running,
        net == Network::SitStand ==> tuning_for(net, stands) == if stands {
            TuningRow::SitStandSoft
        } else {
            TuningRow::SitStandFull
        },
{
}

/// The walking network is only chosen when the fed command fails the standing test, so the walk's
/// running tuning never stands in for a standing one.
pub proof fn the_walk_is_only_chosen_when_the_stand_fails(w: Windows, body_active: bool, stands: bool, has_standing: bool)
    ensures
        network_for(w, body_active, stands, has_standing) == Network::Walk ==> !stands,
{
}

} // verus!
