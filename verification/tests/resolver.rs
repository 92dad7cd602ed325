use rand::rngs::SmallRng;
use rand::SeedableRng;

use swarmsim::combat::{AttackContext, DamageInputs, HitInputs, HitOutcome, Joker};
use swarmsim::UNIT;

fn rng(seed: u64) -> SmallRng {
    SmallRng::seed_from_u64(seed)
}

#[test]
fn hit_probability_is_half_at_even_odds() {
    let h = HitInputs::new(1_000_000, 1_000_000, None, None);
    assert_eq!(Joker::hit_probability(&h, 600_000), 500_000);
}

#[test]
fn hit_probability_is_bit_identical_on_repeat() {
    let h1 = HitInputs::new(1_000_000, 100_000, Some(900_000), Some(1_100_000));
    let h2 = HitInputs::new(1_000_000, 100_000, Some(900_000), Some(1_100_000));
    let a = Joker::hit_probability(&h1, 600_000);
    let b = Joker::hit_probability(&h2, 600_000);
    assert_eq!(a, b);
    let c = Joker::hit_probability(&h1, 600_000);
    assert_eq!(a, c);
}

#[test]
fn hit_probability_is_symmetric_around_half() {
    // Swapping attack and defence mirrors the probability around 1/2.
    let up = HitInputs::new(1_000_000, 100_000, None, None);
    let down = HitInputs::new(100_000, 1_000_000, None, None);
    let p_up = Joker::hit_probability(&up, 600_000);
    let p_down = Joker::hit_probability(&down, 600_000);
    assert_eq!(p_up + p_down, UNIT);
    assert!(p_up > 500_000);
    assert!(p_down < 500_000);
}

#[test]
fn hit_probability_grows_with_the_score() {
    let scale = 600_000;
    let low = Joker::hit_probability(&HitInputs::new(500_000, 500_000, None, None), scale);
    let mid = Joker::hit_probability(&HitInputs::new(1_000_000, 500_000, None, None), scale);
    let high = Joker::hit_probability(&HitInputs::new(1_500_000, 500_000, None, None), scale);
    assert!(low < mid && mid < high);
    assert!(high <= UNIT);
}

#[test]
fn hit_probability_applies_cover_and_situational() {
    // Cover scales the evasion side: more cover, lower hit probability.
    let bare = Joker::hit_probability(&HitInputs::new(1_000_000, 500_000, None, None), 600_000);
    let covered = Joker::hit_probability(
        &HitInputs::new(1_000_000, 500_000, Some(1_500_000), None),
        600_000,
    );
    assert!(covered < bare);
    // A situational bonus scales the attack side up.
    let boosted = Joker::hit_probability(
        &HitInputs::new(1_000_000, 500_000, None, Some(1_200_000)),
        600_000,
    );
    assert!(boosted > bare);
}

#[test]
fn apply_pity_lifts_linearly_and_caps() {
    assert_eq!(Joker::apply_pity(500_000, 0, 30_000, 970_000), 500_000);
    assert_eq!(Joker::apply_pity(500_000, 2, 30_000, 970_000), 560_000);
    assert_eq!(Joker::apply_pity(960_000, 1, 30_000, 970_000), 970_000);
    // A base already over the cap is pulled down to the cap.
    assert_eq!(Joker::apply_pity(980_000, 0, 30_000, 970_000), 970_000);
}

#[test]
fn apply_pity_is_monotone_in_the_streak() {
    let mut last = 0;
    for streak in 0..=255u8 {
        let lifted = Joker::apply_pity(300_000, streak, 30_000, 970_000);
        assert!(lifted >= last);
        assert!(lifted <= 970_000);
        last = lifted;
    }
}

#[test]
fn outcome_bands_partition_the_roll_space() {
    let p = 800_000;
    // crit threshold = 0.15 * p = 120_000; graze = p + 0.25 * (1 - p).
    assert_eq!(Joker::outcome_from_roll(0, p), HitOutcome::Crit);
    assert_eq!(Joker::outcome_from_roll(119_999, p), HitOutcome::Crit);
    assert_eq!(Joker::outcome_from_roll(120_000, p), HitOutcome::Hit);
    assert_eq!(Joker::outcome_from_roll(799_999, p), HitOutcome::Hit);
    assert_eq!(Joker::outcome_from_roll(800_000, p), HitOutcome::Graze);
    assert_eq!(Joker::outcome_from_roll(849_999, p), HitOutcome::Graze);
    assert_eq!(Joker::outcome_from_roll(850_000, p), HitOutcome::Miss);
    assert_eq!(Joker::outcome_from_roll(999_999, p), HitOutcome::Miss);
}

#[test]
fn outcome_at_zero_probability_never_lands() {
    for r in [0u32, 1, 100, 999_999] {
        let o = Joker::outcome_from_roll(r, 0);
        // graze band still covers the bottom quarter of the roll space
        assert!(o == HitOutcome::Graze || o == HitOutcome::Miss);
    }
}

#[test]
fn outcome_at_full_probability_always_lands() {
    for r in [0u32, 149_999, 150_000, 999_999] {
        let o = Joker::outcome_from_roll(r, UNIT);
        assert!(o == HitOutcome::Hit || o == HitOutcome::Crit);
    }
}

#[test]
fn crit_mass_stays_under_its_band() {
    // Over many seeded rolls at p = 0.8, the crit share must stay clearly
    // under p * 0.15 of all rolls (the midpoint-favouring roll makes low
    // values rarer than uniform, so the band is a generous ceiling).
    let mut r = rng(7);
    let p = 800_000;
    let n = 20_000;
    let mut crits = 0u32;
    for _ in 0..n {
        if Joker::roll_outcome(&mut r, p) == HitOutcome::Crit {
            crits += 1;
        }
    }
    let ceiling = (n as u64 * 120_000 / 1_000_000) as u32;
    assert!(crits < ceiling, "crits {crits} ceiling {ceiling}");
}

#[test]
fn rank_orders_the_outcomes() {
    assert_eq!(Joker::rank(HitOutcome::Miss), 0);
    assert_eq!(Joker::rank(HitOutcome::Graze), 1);
    assert_eq!(Joker::rank(HitOutcome::Hit), 2);
    assert_eq!(Joker::rank(HitOutcome::Crit), 3);
}

#[test]
fn best_and_worst_pick_by_rank() {
    assert_eq!(Joker::best(HitOutcome::Miss, HitOutcome::Hit), HitOutcome::Hit);
    assert_eq!(Joker::best(HitOutcome::Crit, HitOutcome::Graze), HitOutcome::Crit);
    assert_eq!(Joker::worst(HitOutcome::Miss, HitOutcome::Hit), HitOutcome::Miss);
    assert_eq!(Joker::worst(HitOutcome::Crit, HitOutcome::Graze), HitOutcome::Graze);
    assert_eq!(Joker::best(HitOutcome::Hit, HitOutcome::Hit), HitOutcome::Hit);
}

#[test]
fn advantage_dominates_neutral_dominates_disadvantage() {
    // Stochastic dominance in aggregate: the mean outcome rank under
    // advantage beats the neutral mean, which beats disadvantage.
    let ctx_with = |advantage: i8| {
        AttackContext::new(
            HitInputs::new(1_000_000, 800_000, None, None),
            DamageInputs::new(10, 10, 10, 1_000_000),
            advantage,
            (50_000, 950_000),
            0,
        )
    };
    let mean_rank = |advantage: i8, seed: u64| -> f64 {
        let mut r = rng(seed);
        let ctx = ctx_with(advantage);
        let n = 4000;
        let mut sum = 0u64;
        for _ in 0..n {
            let res = Joker::resolve(&mut r, &ctx, 600_000);
            sum += Joker::rank(res.outcome) as u64;
        }
        sum as f64 / n as f64
    };
    let adv = mean_rank(1, 11);
    let neutral = mean_rank(0, 11);
    let disadv = mean_rank(-1, 11);
    assert!(adv > neutral, "advantage {adv} vs neutral {neutral}");
    assert!(neutral > disadv, "neutral {neutral} vs disadvantage {disadv}");
}

#[test]
fn scale_damage_truncates_and_zeroes_on_miss() {
    // Miss multiplier wipes every component.
    assert_eq!(Joker::scale_damage(1_000_000, 1_000_000, 0), 0);
    // Crit at neutral modifier is floor(base * 1.5).
    assert_eq!(Joker::scale_damage(10, 1_000_000, 1_500_000), 15);
    assert_eq!(Joker::scale_damage(7, 1_000_000, 1_500_000), 10);
    // Graze at neutral modifier is floor(base * 0.4).
    assert_eq!(Joker::scale_damage(7, 1_000_000, 400_000), 2);
    // The damage modifier multiplies in before truncation.
    assert_eq!(Joker::scale_damage(10, 2_000_000, 1_500_000), 30);
    assert_eq!(Joker::scale_damage(10, 850_000, 1_000_000), 8);
}

#[test]
fn resolve_reports_base_probability_pity_and_damage() {
    let mut r = rng(3);
    let ctx = AttackContext::new(
        HitInputs::new(1_000_000, 1_000_000, None, None),
        DamageInputs::new(10, 20, 30, 1_000_000),
        0,
        (50_000, 950_000),
        2,
    );
    let res = Joker::resolve(&mut r, &ctx, 600_000);
    assert_eq!(res.base_p, 500_000);
    assert_eq!(res.hit_prob_used, 560_000);
    assert_eq!(res.pity_lift, 60_000);
    let mult: u64 = match res.outcome {
        HitOutcome::Miss => 0,
        HitOutcome::Graze => 400_000,
        HitOutcome::Hit => 1_000_000,
        HitOutcome::Crit => 1_500_000,
    };
    assert_eq!(res.final_dmg.0 as u64, 10 * mult / 1_000_000);
    assert_eq!(res.final_dmg.1 as u64, 20 * mult / 1_000_000);
    assert_eq!(res.final_dmg.2 as u64, 30 * mult / 1_000_000);
}

#[test]
fn resolve_clamps_the_base_probability() {
    let mut r = rng(4);
    // A hopeless attacker is still clamped up to the floor.
    let hopeless = AttackContext::new(
        HitInputs::new(0, 1_500_000, None, None),
        DamageInputs::new(1, 1, 1, 1_000_000),
        0,
        (50_000, 950_000),
        0,
    );
    let res = Joker::resolve(&mut r, &hopeless, 100_000);
    assert_eq!(res.base_p, 50_000);
    // An unmissable attacker is clamped down to the ceiling.
    let sure = AttackContext::new(
        HitInputs::new(1_500_000, 0, None, None),
        DamageInputs::new(1, 1, 1, 1_000_000),
        0,
        (50_000, 950_000),
        0,
    );
    let res = Joker::resolve(&mut r, &sure, 100_000);
    assert_eq!(res.base_p, 950_000);
}

#[test]
fn resolve_consumes_the_stream_deterministically() {
    let ctx = AttackContext::new(
        HitInputs::new(1_000_000, 500_000, None, None),
        DamageInputs::new(10, 10, 10, 1_000_000),
        0,
        (50_000, 950_000),
        0,
    );
    let mut r1 = rng(99);
    let mut r2 = rng(99);
    for _ in 0..100 {
        let a = Joker::resolve(&mut r1, &ctx, 600_000);
        let b = Joker::resolve(&mut r2, &ctx, 600_000);
        assert_eq!(a.outcome, b.outcome);
        assert_eq!(a.final_dmg, b.final_dmg);
    }
}
