use rand::rngs::SmallRng;
use rand::SeedableRng;

use swarmsim::battlefield::{Overwatch, SimOpts};
use swarmsim::bugs::{Broodmother, Bug};
use swarmsim::troopers::{Commander, Trooper, TrooperClass, TrooperStats, WeaponProfile};

fn rng(seed: u64) -> SmallRng {
    SmallRng::seed_from_u64(seed)
}

fn scout(hp: u32, ap: u32, accuracy: u32, agility: u32, dmg: (u32, u32, u32)) -> Trooper {
    Trooper::from_stats(
        TrooperClass::Scout,
        TrooperStats::new(hp, ap, 1_000_000, accuracy, agility),
        WeaponProfile { dmg: dmg.0, hp_dmg: dmg.1, ap_dmg: dmg.2, acc_delta: 0 },
    )
}

fn neutral_opts() -> SimOpts {
    SimOpts {
        clamp: (50_000, 950_000),
        scale: 600_000,
        round_cap: 50,
        adv_trooper: 0,
        adv_bug: 0,
        rebalance_hp: 1_000_000,
        rebalance_ap: 1_000_000,
        rebalance_dmg: 1_000_000,
    }
}

#[test]
fn armor_absorbs_before_health() {
    let mut t = scout(100, 30, 1_000_000, 500_000, (10, 10, 10));
    t.take_damage(0, 50, 20);
    assert_eq!(t.ap(), 10);
    assert_eq!(t.hp(), 100);
    // The second identical hit exhausts the armor and lets the health
    // damage through in the same call.
    t.take_damage(0, 50, 20);
    assert_eq!(t.ap(), 0);
    assert_eq!(t.hp(), 50);
}

#[test]
fn bug_armor_absorbs_before_health() {
    let mut b = Bug::from_stats(100, 30, 5, 1_000_000, 100_000);
    b.take_damage(0, 50, 20);
    assert_eq!(b.hp(), 100);
    assert_eq!(b.ap(), 10);
    b.take_damage(0, 50, 20);
    assert_eq!(b.hp(), 50);
    assert_eq!(b.ap(), 0);
}

#[test]
fn unarmored_target_takes_health_damage_directly() {
    let mut t = scout(100, 0, 1_000_000, 500_000, (10, 10, 10));
    t.take_damage(0, 30, 20);
    assert_eq!(t.hp(), 70);
    assert_eq!(t.ap(), 0);
}

#[test]
fn lone_duel_ends_with_one_side_wiped() {
    // One squad member (hp 100, accuracy 1.0, agility 0.5, damage
    // (10,10,10)) against one swarm member (hp 50, accuracy 1.0, agility
    // 0.1, damage (5,5,5)) must finish inside the round cap with exactly
    // one side standing.
    let team = vec![scout(100, 0, 1_000_000, 500_000, (10, 10, 10))];
    let mut wave = vec![Bug::from_stats(50, 0, 5, 1_000_000, 100_000)];
    let mut ow = Overwatch::from_parts(2024, team);
    let summary = ow.run_wave(&mut wave, neutral_opts());
    assert!(summary.rounds <= 50);
    // The reported swarm survivors are the fought wave's real final state.
    assert_eq!(summary.bug_alive, wave.iter().filter(|b| b.is_alive()).count());
    assert!(summary.trooper_rolls.attempts as usize >= summary.rounds);
    assert!(
        (summary.trooper_alive == 0) != (summary.bug_alive == 0),
        "exactly one side must be wiped: troopers {} bugs {}",
        summary.trooper_alive,
        summary.bug_alive,
    );
    assert_eq!(summary.trooper_rolls.attempts, summary.trooper_pity.total);
    assert_eq!(
        summary.trooper_rolls.miss + summary.trooper_rolls.graze + summary.trooper_rolls.hit
            + summary.trooper_rolls.crit,
        summary.trooper_rolls.attempts,
    );
}

#[test]
fn engagement_is_reproducible_from_the_seed() {
    let run = || {
        let team = vec![scout(120, 10, 1_000_000, 400_000, (8, 8, 8))];
        let wave = vec![
            Bug::from_stats(40, 0, 6, 1_000_000, 300_000),
            Bug::from_stats(40, 5, 6, 1_000_000, 300_000),
        ];
        let mut ow = Overwatch::from_parts(555, team);
        let mut wave = wave;
        ow.run_wave(&mut wave, neutral_opts())
    };
    let a = run();
    let b = run();
    assert_eq!(a.rounds, b.rounds);
    assert_eq!(a.trooper_alive, b.trooper_alive);
    assert_eq!(a.bug_alive, b.bug_alive);
    assert_eq!(a.trooper_rolls.attempts, b.trooper_rolls.attempts);
    assert_eq!(a.trooper_rolls.p_sum, b.trooper_rolls.p_sum);
    assert_eq!(a.bug_pity.used, b.bug_pity.used);
}

#[test]
fn harmless_bugs_hit_the_round_cap() {
    // Neither side can deal damage, so the fight runs the full cap and
    // both sides survive.
    let team = vec![scout(100, 0, 1_000_000, 500_000, (0, 0, 0))];
    let mut wave = vec![Bug::from_stats(50, 0, 0, 1_000_000, 100_000)];
    let mut ow = Overwatch::from_parts(9, team);
    let summary = ow.run_wave(&mut wave, neutral_opts());
    assert_eq!(summary.rounds, 50);
    // Fifty rounds of one attack per side fill the tallies.
    assert_eq!(summary.trooper_rolls.attempts, 50);
    assert_eq!(summary.bug_rolls.attempts, 50);
    assert_eq!(summary.trooper_alive, 1);
    assert_eq!(summary.bug_alive, 1);
}

#[test]
fn dead_wave_ends_before_the_first_round() {
    // A wave with no living bug never fights: zero rounds, untouched
    // squad.
    let team = vec![scout(100, 0, 1_000_000, 500_000, (10, 10, 10))];
    let mut wave = vec![Bug::from_stats(0, 0, 5, 1_000_000, 100_000)];
    let mut ow = Overwatch::from_parts(6, team);
    let summary = ow.run_wave(&mut wave, neutral_opts());
    assert_eq!(summary.rounds, 0);
    assert_eq!(wave.len(), 1);
    assert_eq!(summary.bug_alive, 0);
    assert_eq!(summary.trooper_alive, 1);
    assert_eq!(ow.commander.team[0].hp(), 100);
    assert_eq!(summary.trooper_rolls.attempts, 0);
}

#[test]
fn campaign_stops_at_the_wiping_wave() {
    // Three waves; the middle one is overwhelming.  The campaign must
    // report one cleared wave, stop on wave two, and never touch wave
    // three.
    let team = vec![scout(100, 0, 1_000_000, 500_000, (10, 10, 10))];
    let pushover = || vec![Bug::from_stats(1, 0, 0, 1_000_000, 100_000)];
    let overwhelming = || {
        (0..60).map(|_| Bug::from_stats(1_000_000, 0, 1_000_000, 1_500_000, 0)).collect::<Vec<_>>()
    };
    let mut waves = vec![pushover(), overwhelming(), pushover()];
    let mut ow = Overwatch::from_parts(77, team);
    let campaign = ow.run_waves(&mut waves, neutral_opts());
    assert_eq!(campaign.waves_cleared, 1);
    assert_eq!(campaign.last_wave.trooper_alive, 0);
    assert!(campaign.last_wave.bug_alive > 0);
    assert!(campaign.last_wave.rounds >= 1);
    // Wave three was never executed: it is still queued.
    assert_eq!(waves.len(), 1);
}

#[test]
fn campaign_clears_every_pushover_wave() {
    let team = vec![scout(200, 50, 1_000_000, 500_000, (25, 25, 25))];
    let pushover = || vec![Bug::from_stats(1, 0, 0, 1_000_000, 100_000)];
    let mut waves = vec![pushover(), pushover(), pushover()];
    let mut ow = Overwatch::from_parts(31, team);
    let campaign = ow.run_waves(&mut waves, neutral_opts());
    assert_eq!(campaign.waves_cleared, 3);
    assert_eq!(campaign.last_wave.rounds, 0);
    assert_eq!(campaign.last_wave.bug_alive, 0);
    assert_eq!(campaign.last_wave.trooper_alive, 1);
    assert_eq!(waves.len(), 0);
}

#[test]
fn rebalance_scales_both_rosters() {
    let mut commander =
        Commander::from_team(vec![scout(100, 30, 1_000_000, 500_000, (10, 10, 10))]);
    commander.rebalance_team(1_550_000, 1_550_000);
    assert_eq!(commander.team[0].hp(), 155);
    // 30 * 1.55 = 46.5 rounds to 47.
    assert_eq!(commander.team[0].ap(), 47);

    let brood = Broodmother::new();
    let mut wave = vec![Bug::from_stats(50, 0, 20, 1_000_000, 100_000)];
    brood.rebalance_wave(&mut wave, 850_000);
    assert_eq!(wave[0].damage(), (17, 17, 17));
    // 5 * 0.85 = 4.25 rounds down to 4.
    let mut small = vec![Bug::from_stats(50, 0, 5, 1_000_000, 100_000)];
    brood.rebalance_wave(&mut small, 850_000);
    assert_eq!(small[0].damage(), (4, 4, 4));
}

#[test]
fn default_options_match_the_engine_policy() {
    let opts = SimOpts::default();
    assert_eq!(opts.clamp, (50_000, 950_000));
    assert_eq!(opts.scale, 600_000);
    assert_eq!(opts.round_cap, 50);
    assert_eq!(opts.adv_trooper, 0);
    assert_eq!(opts.adv_bug, 0);
    assert_eq!(opts.rebalance_hp, 1_550_000);
    assert_eq!(opts.rebalance_ap, 1_550_000);
    assert_eq!(opts.rebalance_dmg, 850_000);
}

#[test]
fn commander_spawns_the_requested_squad() {
    let weapon = WeaponProfile { dmg: 10, hp_dmg: 8, ap_dmg: 6, acc_delta: 0 };
    let mut r = rng(12);
    let commander = Commander::new(5, weapon, &mut r);
    assert_eq!(commander.team.len(), 5);
    for t in &commander.team {
        assert!(t.hp() >= 10 && t.hp() <= 200);
        assert!(t.ap() <= 100);
        assert!(t.is_alive());
    }
}

#[test]
fn overwatch_new_builds_a_squad_of_three() {
    let weapon = WeaponProfile { dmg: 10, hp_dmg: 8, ap_dmg: 6, acc_delta: 0 };
    let ow = Overwatch::new(Some(1), weapon);
    assert_eq!(ow.commander.team.len(), 3);
}

#[test]
fn trooper_attack_lands_its_triple_on_the_bug() {
    let t = scout(100, 0, 1_000_000, 500_000, (10, 8, 6));
    let mut b = Bug::from_stats(50, 0, 5, 1_000_000, 100_000);
    t.attack(&mut b);
    assert_eq!(b.hp(), 42);
    let commander = Commander::from_team(vec![t]);
    let mut b2 = Bug::from_stats(50, 10, 5, 1_000_000, 100_000);
    commander.trooper_attack(&commander.team[0], &mut b2);
    assert_eq!(b2.ap(), 4);
    assert_eq!(b2.hp(), 50);
}
