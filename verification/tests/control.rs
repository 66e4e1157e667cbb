use duck_robot::control::{
    expire, feed, ground_pick_gate, kick_gate, roulade_gate, select, sit_toggle, tuning, Feed, Network,
    SitPhase, TuningRow, Windows,
};

#[test]
fn scripted_moves_are_gated_on_what_is_running() {
    let idle = Windows::idle();
    assert_eq!(ground_pick_gate(true, &idle), Ok(()));
    assert_eq!(ground_pick_gate(false, &idle), Err("no ground-pick policy loaded"));
    let picking = Windows { ground_pick: true, ..idle };
    assert_eq!(ground_pick_gate(true, &picking), Err("ground pick already running"));
    // A pick can preempt a kick's tail.
    let kicking = Windows { kick: Some(true), ..idle };
    assert_eq!(ground_pick_gate(true, &kicking), Ok(()));
    assert_eq!(kick_gate(true, &kicking), Err("a scripted move is already running"));
    assert_eq!(kick_gate(false, &idle), Err("no kick policy loaded for that leg"));
    assert_eq!(kick_gate(true, &idle), Ok(()));
}

#[test]
fn a_held_roulade_chains_instead_of_restarting() {
    let idle = Windows::idle();
    assert_eq!(roulade_gate(true, &idle), Ok(true));
    let rolling = Windows { roulade: true, ..idle };
    assert_eq!(roulade_gate(true, &rolling), Ok(false));
    assert_eq!(roulade_gate(false, &rolling), Ok(false));
    assert_eq!(roulade_gate(false, &idle), Err("no roulade policy loaded"));
    let picking = Windows { ground_pick: true, ..idle };
    assert_eq!(roulade_gate(true, &picking), Err("a ground pick is running"));
    // A roll may start out of the seat.
    let seated = Windows { sit: SitPhase::Sitting, ..idle };
    assert_eq!(roulade_gate(true, &seated), Ok(true));
}

#[test]
fn the_sit_toggle_cycles_and_refuses_mid_rise() {
    assert_eq!(sit_toggle(true, SitPhase::Up), Ok((SitPhase::Sitting, "sit")));
    assert_eq!(sit_toggle(false, SitPhase::Up), Err("no sitstand policy loaded"));
    assert_eq!(sit_toggle(false, SitPhase::Sitting), Ok((SitPhase::Rising, "stand")));
    assert_eq!(sit_toggle(true, SitPhase::Rising), Err("already standing up"));
}

#[test]
fn sitting_is_parked_and_cancelling_keeps_the_seat() {
    let seated = Windows { sit: SitPhase::Sitting, ..Windows::idle() };
    assert!(!seated.busy());
    let rising = Windows { sit: SitPhase::Rising, ..Windows::idle() };
    assert!(rising.busy());
    assert_eq!(rising.cancelled().sit, SitPhase::Up);
    let everything = Windows { ground_pick: true, kick: Some(false), roulade: true, sit: SitPhase::Sitting };
    let cancelled = everything.cancelled();
    assert!(!cancelled.busy());
    assert_eq!(cancelled.sit, SitPhase::Sitting);
}

#[test]
fn the_priority_chain_picks_the_network() {
    let idle = Windows::idle();
    let all = Windows { ground_pick: true, kick: Some(true), roulade: true, sit: SitPhase::Sitting };
    assert_eq!(select(&all, false, false, true), (Network::Roulade, "roulade"));
    assert_eq!(feed(&all, false), Feed::Zero);
    let kick = Windows { roulade: false, ..all };
    assert_eq!(select(&kick, false, false, true), (Network::KickLeft, "kick_left"));
    let right = Windows { kick: Some(false), ..kick };
    assert_eq!(select(&right, false, false, true), (Network::KickRight, "kick_right"));
    let pick = Windows { kick: None, ..kick };
    assert_eq!(select(&pick, false, false, true), (Network::GroundPick, "ground_pick"));
    assert_eq!(feed(&pick, true), Feed::PickPhase);
    let sit = Windows { ground_pick: false, ..pick };
    assert_eq!(select(&sit, false, false, true), (Network::SitStand, "sit"));
    assert_eq!(feed(&sit, false), Feed::ClientSitFlag);
    let rise = Windows { sit: SitPhase::Rising, ..sit };
    assert_eq!(select(&rise, false, true, true), (Network::SitStand, "rise"));
    assert_eq!(feed(&rise, false), Feed::ClientStill);
    assert_eq!(select(&idle, false, false, true), (Network::Walk, "walk"));
    assert_eq!(select(&idle, false, true, false), (Network::Stand, "stand"));
    assert_eq!(select(&idle, true, false, true), (Network::Stand, "stand"));
    assert_eq!(select(&idle, true, false, false), (Network::Walk, "walk"));
    assert_eq!(feed(&idle, true), Feed::ClientStill);
    assert_eq!(feed(&idle, false), Feed::Client);
}

#[test]
fn kicks_and_the_rise_run_at_standing_tuning_when_the_stand_fires() {
    assert_eq!(tuning(Network::KickLeft, true), TuningRow::Standing);
    assert_eq!(tuning(Network::KickRight, false), TuningRow::Running);
    assert_eq!(tuning(Network::SitStand, true), TuningRow::SitStandSoft);
    assert_eq!(tuning(Network::SitStand, false), TuningRow::SitStandFull);
    assert_eq!(tuning(Network::Stand, false), TuningRow::Standing);
    assert_eq!(tuning(Network::Walk, true), TuningRow::Running);
    assert_eq!(tuning(Network::Roulade, true), TuningRow::Roulade);
    assert_eq!(tuning(Network::GroundPick, true), TuningRow::GroundPick);
}

#[test]
fn finished_moves_close_and_a_held_roll_chains() {
    let rolling = Windows { roulade: true, ..Windows::idle() };
    // Time left: nothing changes, whatever the chain says.
    assert_eq!(expire(&rolling, false, false, true, false), (rolling, false));
    // The roll ran out with the button held: another roll starts.
    assert_eq!(expire(&rolling, false, true, true, false), (rolling, true));
    // Released: the roll hands back.
    assert_eq!(expire(&rolling, false, true, false, false), (Windows::idle(), false));

    let kicking = Windows { kick: Some(true), ..Windows::idle() };
    assert_eq!(expire(&kicking, true, false, false, false), (Windows::idle(), false));
    assert_eq!(expire(&kicking, false, false, false, false), (kicking, false));

    let rising = Windows { sit: SitPhase::Rising, ..Windows::idle() };
    assert_eq!(expire(&rising, false, false, false, true), (Windows::idle(), false));
    let seated = Windows { sit: SitPhase::Sitting, ..Windows::idle() };
    assert_eq!(expire(&seated, true, true, true, true), (seated, false));

    // A ground pick ends by its phase, not by expiry.
    let picking = Windows { ground_pick: true, ..Windows::idle() };
    assert_eq!(expire(&picking, true, true, true, true), (picking, false));
}
