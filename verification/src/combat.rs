//! The attack resolver: hit probability, pity lift, outcome sampling and
//! damage scaling.
//!
//! Probabilities and stat multipliers are in parts per million (ppm); see
//! the crate root.  `Joker` computes a hit probability from the attacker's
//! and defender's stats on a logistic curve, lifts it by the attacker's
//! pity streak, samples one of four outcomes from a roll, and scales the
//! damage triple by the outcome's multiplier.

use vstd::prelude::*;
use crate::{UNIT, valid_prob};
use crate::curve::{spec_logistic, logistic_ppm, lemma_logistic_bounds};
use crate::rng::rand_below;

verus! {

/// Lift added to the hit probability per point of pity streak (0.03).
pub const PITY_STEP: u32 = 30_000;

/// The pity lift never pushes the probability past this cap (0.97).
pub const PITY_CAP: u32 = 970_000;

/// Fraction of the hit mass that is promoted to a critical (0.15).
pub const CRIT_BAND: u32 = 150_000;

/// Fraction of the remaining miss mass that softens to a graze (0.25).
pub const GRAZE_BAND: u32 = 250_000;

/// Damage multiplier on a critical hit (1.5).
pub const CRIT_MULT: u32 = 1_500_000;

/// Damage multiplier on a graze (0.4).
pub const GRAZE_MULT: u32 = 400_000;

#[derive(Copy, Debug, Clone, PartialEq, Eq, Structural)]
pub enum HitOutcome { Miss, Graze, Hit, Crit }

/// The stats one attack reads: attacker accuracy, defender evasion, and
/// optional cover and situational multipliers, all in ppm.
pub struct HitInputs {
    pub attacker_acc: u32,
    pub defender_evasion: u32,
    pub cover: Option<u32>,
    pub situational: Option<u32>,
}

/// The attack score: attack strength minus defence strength, in ppm.
/// An absent multiplier counts as one whole.
pub open spec fn spec_score(h: HitInputs) -> int {
    let situational = match h.situational {
        Some(s) => s as int,
        None => UNIT as int,
    };
    let cover = match h.cover {
        Some(c) => c as int,
        None => UNIT as int,
    };
    let atk = h.attacker_acc * situational / (UNIT as int);
    let def = h.defender_evasion * cover / (UNIT as int);
    atk - def
}

impl HitInputs {
    pub fn new(
        attacker_acc: u32,
        defender_evasion: u32,
        cover: Option<u32>,
        situational: Option<u32>,
    ) -> (h: HitInputs)
        ensures
            h == (HitInputs { attacker_acc, defender_evasion, cover, situational }),
    {
        HitInputs { attacker_acc, defender_evasion, cover, situational }
    }
}

/// The damage side of an attack: a base triple, the attacker's damage
/// modifier (ppm, one whole = neutral) and the per-outcome multiplier
/// table, indexed by outcome rank.
pub struct DamageInputs {
    pub base_dmg: u32,
    pub base_hp: u32,
    pub base_ap: u32,
    pub attacker_dmg_mod: u32,
    pub outcome_mults: [u32; 4],
}

impl DamageInputs {
    pub fn new(base_dmg: u32, base_hp: u32, base_ap: u32, attacker_dmg_mod: u32) -> (d:
        DamageInputs)
        ensures
            d.base_dmg == base_dmg,
            d.base_hp == base_hp,
            d.base_ap == base_ap,
            d.attacker_dmg_mod == attacker_dmg_mod,
            d.outcome_mults@ == seq![0u32, GRAZE_MULT, UNIT, CRIT_MULT],
    {
        let outcome_mults = [0u32, GRAZE_MULT, UNIT, CRIT_MULT];
        proof {
            assert(outcome_mults@ =~= seq![0u32, GRAZE_MULT, UNIT, CRIT_MULT]);
        }
        DamageInputs { base_dmg, base_hp, base_ap, attacker_dmg_mod, outcome_mults }
    }
}

pub struct AttackContext {
    pub hit: HitInputs,
    pub dmg: DamageInputs,
    /// Positive for advantage, negative for disadvantage.
    pub advantage: i8,
    /// Lower and upper clamp on the base hit probability, in ppm.
    pub clamp_min_max: (u32, u32),
    /// Consecutive misses and grazes carried into this attack.
    pub pity_streak: u8,
}

impl AttackContext {
    pub fn new(
        hit: HitInputs,
        dmg: DamageInputs,
        advantage: i8,
        clamp_min_max: (u32, u32),
        pity_streak: u8,
    ) -> (c: AttackContext)
        ensures
            c == (AttackContext { hit, dmg, advantage, clamp_min_max, pity_streak }),
    {
        AttackContext { hit, dmg, advantage, clamp_min_max, pity_streak }
    }
}

pub struct AttackResult {
    pub outcome: HitOutcome,
    pub final_dmg: (u32, u32, u32),
    /// The probability the roll actually used, after the pity lift.
    pub hit_prob_used: u32,
    /// The clamped probability before the pity lift.
    pub base_p: u32,
    /// `hit_prob_used - base_p`; negative when the base probability already
    /// sat above the pity cap.
    pub pity_lift: i64,
}

/// Outcomes ordered by rank: Miss < Graze < Hit < Crit.
pub open spec fn spec_rank(o: HitOutcome) -> int {
    match o {
        HitOutcome::Miss => 0,
        HitOutcome::Graze => 1,
        HitOutcome::Hit => 2,
        HitOutcome::Crit => 3,
    }
}

pub open spec fn spec_best(a: HitOutcome, b: HitOutcome) -> HitOutcome {
    if spec_rank(a) >= spec_rank(b) { a } else { b }
}

pub open spec fn spec_worst(a: HitOutcome, b: HitOutcome) -> HitOutcome {
    if spec_rank(a) <= spec_rank(b) { a } else { b }
}

pub open spec fn spec_clamp(v: int, lo: int, hi: int) -> int {
    if v < lo { lo } else if v > hi { hi } else { v }
}

/// The pity rule: a linear lift per streak point, capped.
pub open spec fn spec_apply_pity(p: int, streak: int, step: int, cap: int) -> int {
    if p + streak * step > cap { cap } else { p + streak * step }
}

/// The hit probability before clamping: the logistic curve on the score.
pub open spec fn spec_hit_probability(h: HitInputs, scale: int) -> int {
    spec_logistic(spec_score(h), scale)
}

/// The threshold below which a roll is a critical.
pub open spec fn spec_crit_threshold(p: int) -> int {
    p * (CRIT_BAND as int) / (UNIT as int)
}

/// The threshold below which a roll at least grazes: the hit mass plus a
/// fixed fraction of what remains above it.
pub open spec fn spec_graze_threshold(p: int) -> int {
    p + (UNIT as int - p) * (GRAZE_BAND as int) / (UNIT as int)
}

/// Which outcome a unit roll `r` maps to under hit probability `p`.
pub open spec fn spec_outcome(r: int, p: int) -> HitOutcome {
    if r < spec_crit_threshold(p) {
        HitOutcome::Crit
    } else if r < p {
        HitOutcome::Hit
    } else if r < spec_graze_threshold(p) {
        HitOutcome::Graze
    } else {
        HitOutcome::Miss
    }
}

/// `o` can come from banding a single unit roll under probability `p`.
pub open spec fn spec_sampled(o: HitOutcome, p: int) -> bool {
    exists|r: int| 0 <= r < UNIT && o == spec_outcome(r, p)
}

/// `o` is the better of two outcomes sampled under probability `p`.
pub open spec fn spec_sampled_best(o: HitOutcome, p: int) -> bool {
    exists|a: HitOutcome, b: HitOutcome|
        spec_sampled(a, p) && spec_sampled(b, p) && o == spec_best(a, b)
}

/// `o` is the worse of two outcomes sampled under probability `p`.
pub open spec fn spec_sampled_worst(o: HitOutcome, p: int) -> bool {
    exists|a: HitOutcome, b: HitOutcome|
        spec_sampled(a, p) && spec_sampled(b, p) && o == spec_worst(a, b)
}

/// One damage component scaled by the attacker's modifier and the
/// outcome's multiplier, truncated, and saturated at the component type.
pub open spec fn spec_scaled_damage(base: int, dmg_mod: int, mult: int) -> int {
    let full = base * dmg_mod * mult / 1_000_000_000_000;
    if full > u32::MAX as int { u32::MAX as int } else { full }
}

/// The multiplier the table assigns to an outcome.
pub open spec fn spec_outcome_mult(d: DamageInputs, o: HitOutcome) -> int {
    d.outcome_mults@[spec_rank(o)] as int
}

pub struct Joker;

impl Joker {
    pub fn new() -> Joker {
        Joker
    }

    /// The logistic hit probability from the attack score; never clamps.
    pub fn hit_probability(h: &HitInputs, scale: u32) -> (p: u32)
        requires
            scale > 0,
        ensures
            p == spec_hit_probability(*h, scale as int),
            valid_prob(p as int),
    {
        let situational: u32 = match h.situational {
            Some(s) => s,
            None => UNIT,
        };
        let cover: u32 = match h.cover {
            Some(c) => c,
            None => UNIT,
        };
        proof {
            assert(h.attacker_acc as int * situational as int <= 0xffff_ffff * 0xffff_ffff)
                by (nonlinear_arith)
                requires h.attacker_acc <= 0xffff_ffffu32 && situational <= 0xffff_ffffu32;
            assert(h.defender_evasion as int * cover as int <= 0xffff_ffff * 0xffff_ffff)
                by (nonlinear_arith)
                requires h.defender_evasion <= 0xffff_ffffu32 && cover <= 0xffff_ffffu32;
        }
        let atk: u128 = (h.attacker_acc as u128) * (situational as u128) / (UNIT as u128);
        let def: u128 = (h.defender_evasion as u128) * (cover as u128) / (UNIT as u128);
        proof {
            vstd::arithmetic::div_mod::lemma_div_pos_is_pos(
                h.attacker_acc as int * situational as int, UNIT as int);
            vstd::arithmetic::div_mod::lemma_div_pos_is_pos(
                h.defender_evasion as int * cover as int, UNIT as int);
            vstd::arithmetic::div_mod::lemma_div_is_ordered(
                h.attacker_acc as int * situational as int, 0xffff_ffffint * 0xffff_ffff,
                UNIT as int);
            vstd::arithmetic::div_mod::lemma_div_is_ordered(
                h.defender_evasion as int * cover as int, 0xffff_ffffint * 0xffff_ffff,
                UNIT as int);
        }
        let score: i64 = (atk as i64) - (def as i64);
        proof {
            lemma_logistic_bounds(score as int, scale as int);
        }
        logistic_ppm(score, scale)
    }

    /// The pity lift: `min(p + streak * step, cap)`.
    pub fn apply_pity(p: u32, streak: u8, step: u32, cap: u32) -> (lifted: u32)
        ensures
            lifted == spec_apply_pity(p as int, streak as int, step as int, cap as int),
    {
        proof {
            assert(streak as int * step as int <= 255 * 0xffff_ffff) by (nonlinear_arith)
                requires streak <= 255u8 && step <= 0xffff_ffffu32;
        }
        let lifted: u64 = p as u64 + (streak as u64) * (step as u64);
        if lifted > cap as u64 {
            cap
        } else {
            lifted as u32
        }
    }

    /// The outcome a given unit roll maps to; the deterministic half of
    /// `roll_outcome`, usable on any roll however it was drawn.
    pub fn outcome_from_roll(r: u32, p: u32) -> (o: HitOutcome)
        requires
            r < UNIT,
            valid_prob(p as int),
        ensures
            o == spec_outcome(r as int, p as int),
    {
        let crit_t: u64 = (p as u64) * (CRIT_BAND as u64) / (UNIT as u64);
        let graze_t: u64 = p as u64 + ((UNIT - p) as u64) * (GRAZE_BAND as u64) / (UNIT as u64);
        if (r as u64) < crit_t {
            HitOutcome::Crit
        } else if r < p {
            HitOutcome::Hit
        } else if (r as u64) < graze_t {
            HitOutcome::Graze
        } else {
            HitOutcome::Miss
        }
    }

    /// Samples an outcome: the roll is the mean of two independent unit
    /// draws (favouring mid values), then banded by `spec_outcome`.
    pub fn roll_outcome(rng: &mut rand::rngs::SmallRng, p: u32) -> (o: HitOutcome)
        requires
            valid_prob(p as int),
        ensures
            spec_sampled(o, p as int),
    {
        let a = rand_below(rng, UNIT as usize);
        let b = rand_below(rng, UNIT as usize);
        let r: u32 = ((a + b) / 2) as u32;
        let o = Self::outcome_from_roll(r, p);
        proof {
            let rr = r as int;
            assert(0 <= rr < UNIT && o == spec_outcome(rr, p as int));
        }
        o
    }

    /// One damage component scaled by modifier and outcome multiplier.
    pub fn scale_damage(base: u32, dmg_mod: u32, mult: u32) -> (d: u32)
        ensures
            d == spec_scaled_damage(base as int, dmg_mod as int, mult as int),
    {
        proof {
            assert(0 <= base as int * dmg_mod as int <= 0xffff_ffffint * 0xffff_ffff)
                by (nonlinear_arith)
                requires
                    base <= 0xffff_ffffu32 && dmg_mod <= 0xffff_ffffu32;
            assert(base as int * dmg_mod as int * mult as int <= 0xffff_ffffint * 0xffff_ffff
                * 0xffff_ffff) by (nonlinear_arith)
                requires
                    0 <= base as int * dmg_mod as int <= 0xffff_ffffint * 0xffff_ffff
                        && mult <= 0xffff_ffffu32;
            assert(0 <= base as int * dmg_mod as int * mult as int) by (nonlinear_arith)
                requires
                    0 <= base as int * dmg_mod as int && 0 <= mult as int;
        }
        let full: u128 = (base as u128) * (dmg_mod as u128) * (mult as u128)
            / 1_000_000_000_000;
        if full > u32::MAX as u128 {
            u32::MAX
        } else {
            full as u32
        }
    }

    /// Resolves one attack: clamp the curve probability to the context's
    /// bounds, lift it by pity, sample once (twice under advantage or
    /// disadvantage, keeping the better or worse outcome), and scale the
    /// three damage components by the outcome's multiplier.
    pub fn resolve(rng: &mut rand::rngs::SmallRng, ctx: &AttackContext, scale: u32) -> (res:
        AttackResult)
        requires
            scale > 0,
            ctx.clamp_min_max.0 <= ctx.clamp_min_max.1,
            ctx.clamp_min_max.1 <= UNIT,
            ctx.dmg.outcome_mults@.len() == 4,
        ensures
            res.base_p == spec_clamp(
                spec_hit_probability(ctx.hit, scale as int),
                ctx.clamp_min_max.0 as int,
                ctx.clamp_min_max.1 as int,
            ),
            res.hit_prob_used == spec_apply_pity(
                res.base_p as int,
                ctx.pity_streak as int,
                PITY_STEP as int,
                PITY_CAP as int,
            ),
            res.pity_lift == res.hit_prob_used - res.base_p,
            valid_prob(res.hit_prob_used as int),
            ctx.advantage == 0 ==> spec_sampled(res.outcome, res.hit_prob_used as int),
            ctx.advantage > 0 ==> spec_sampled_best(res.outcome, res.hit_prob_used as int),
            ctx.advantage < 0 ==> spec_sampled_worst(res.outcome, res.hit_prob_used as int),
            res.final_dmg.0 == spec_scaled_damage(
                ctx.dmg.base_dmg as int,
                ctx.dmg.attacker_dmg_mod as int,
                spec_outcome_mult(ctx.dmg, res.outcome),
            ),
            res.final_dmg.1 == spec_scaled_damage(
                ctx.dmg.base_hp as int,
                ctx.dmg.attacker_dmg_mod as int,
                spec_outcome_mult(ctx.dmg, res.outcome),
            ),
            res.final_dmg.2 == spec_scaled_damage(
                ctx.dmg.base_ap as int,
                ctx.dmg.attacker_dmg_mod as int,
                spec_outcome_mult(ctx.dmg, res.outcome),
            ),
    {
        let raw = Self::hit_probability(&ctx.hit, scale);
        let base_p: u32 = if raw < ctx.clamp_min_max.0 {
            ctx.clamp_min_max.0
        } else if raw > ctx.clamp_min_max.1 {
            ctx.clamp_min_max.1
        } else {
            raw
        };
        let p = Self::apply_pity(base_p, ctx.pity_streak, PITY_STEP, PITY_CAP);

        let outcome = if ctx.advantage > 0 {
            let a = Self::roll_outcome(rng, p);
            let b = Self::roll_outcome(rng, p);
            let o = Self::best(a, b);
            proof {
                assert(spec_sampled(a, p as int) && spec_sampled(b, p as int) && o
                    == spec_best(a, b));
            }
            o
        } else if ctx.advantage < 0 {
            let a = Self::roll_outcome(rng, p);
            let b = Self::roll_outcome(rng, p);
            let o = Self::worst(a, b);
            proof {
                assert(spec_sampled(a, p as int) && spec_sampled(b, p as int) && o
                    == spec_worst(a, b));
            }
            o
        } else {
            Self::roll_outcome(rng, p)
        };

        let mult: u32 = match outcome {
            HitOutcome::Miss => ctx.dmg.outcome_mults[0],
            HitOutcome::Graze => ctx.dmg.outcome_mults[1],
            HitOutcome::Hit => ctx.dmg.outcome_mults[2],
            HitOutcome::Crit => ctx.dmg.outcome_mults[3],
        };

        AttackResult {
            outcome,
            final_dmg: (
                Self::scale_damage(ctx.dmg.base_dmg, ctx.dmg.attacker_dmg_mod, mult),
                Self::scale_damage(ctx.dmg.base_hp, ctx.dmg.attacker_dmg_mod, mult),
                Self::scale_damage(ctx.dmg.base_ap, ctx.dmg.attacker_dmg_mod, mult),
            ),
            hit_prob_used: p,
            base_p,
            pity_lift: p as i64 - base_p as i64,
        }
    }

    pub fn rank(o: HitOutcome) -> (r: u8)
        ensures
            r == spec_rank(o),
    {
        match o {
            HitOutcome::Miss => 0,
            HitOutcome::Graze => 1,
            HitOutcome::Hit => 2,
            HitOutcome::Crit => 3,
        }
    }

    pub fn best(a: HitOutcome, b: HitOutcome) -> (o: HitOutcome)
        ensures
            o == spec_best(a, b),
    {
        if Self::rank(a) >= Self::rank(b) { a } else { b }
    }

    pub fn worst(a: HitOutcome, b: HitOutcome) -> (o: HitOutcome)
        ensures
            o == spec_worst(a, b),
    {
        if Self::rank(a) <= Self::rank(b) { a } else { b }
    }
}

/// Law: the pity lift is monotone non-decreasing in the streak, and its
/// result never exceeds the cap.
pub proof fn lemma_apply_pity_monotone(p: int, s1: int, s2: int, step: int, cap: int)
    requires
        0 <= p,
        0 <= step,
        0 <= cap,
        0 <= s1 <= s2,
    ensures
        spec_apply_pity(p, s1, step, cap) <= spec_apply_pity(p, s2, step, cap),
        spec_apply_pity(p, s2, step, cap) <= cap,
{
    assert(s1 * step <= s2 * step) by (nonlinear_arith)
        requires 0 <= step && s1 <= s2;
    assert(0 <= s1 * step) by (nonlinear_arith)
        requires 0 <= s1 && 0 <= step;
}

/// Law: the outcome bands are ordered.  The crit threshold sits inside the
/// hit mass, and the graze threshold between the hit mass and one whole.
pub proof fn lemma_outcome_bands(p: int)
    requires
        valid_prob(p),
    ensures
        0 <= spec_crit_threshold(p) <= p,
        p <= spec_graze_threshold(p) <= UNIT,
{
    let u = UNIT as int;
    assert(0 <= p * (CRIT_BAND as int) <= p * u) by (nonlinear_arith)
        requires 0 <= p && 0 <= CRIT_BAND as int <= u;
    vstd::arithmetic::div_mod::lemma_div_pos_is_pos(p * (CRIT_BAND as int), u);
    vstd::arithmetic::div_mod::lemma_div_is_ordered(p * (CRIT_BAND as int), p * u, u);
    assert(p * u == u * p) by (nonlinear_arith);
    vstd::arithmetic::div_mod::lemma_div_multiples_vanish(p, u);

    let rest = u - p;
    assert(0 <= rest * (GRAZE_BAND as int) <= rest * u) by (nonlinear_arith)
        requires 0 <= rest && 0 <= GRAZE_BAND as int <= u;
    vstd::arithmetic::div_mod::lemma_div_pos_is_pos(rest * (GRAZE_BAND as int), u);
    vstd::arithmetic::div_mod::lemma_div_is_ordered(rest * (GRAZE_BAND as int), rest * u, u);
    assert(rest * u == u * rest) by (nonlinear_arith);
    vstd::arithmetic::div_mod::lemma_div_multiples_vanish(rest, u);
}

/// Law: a lower roll never gives a worse-ranked outcome; the bands answer
/// in rank order as the roll climbs.
pub proof fn lemma_outcome_rank_antitone(r1: int, r2: int, p: int)
    requires
        valid_prob(p),
        r1 <= r2,
    ensures
        spec_rank(spec_outcome(r1, p)) >= spec_rank(spec_outcome(r2, p)),
{
    lemma_outcome_bands(p);
}

/// Law: a roll lands (hit or better) exactly when it falls below the hit
/// probability — the landing mass of the unit interval is exactly `p` —
/// and both the crit band and the landing band only grow as `p` grows.
pub proof fn lemma_band_mass(r: int, p1: int, p2: int)
    requires
        valid_prob(p1),
        valid_prob(p2),
        p1 <= p2,
    ensures
        spec_rank(spec_outcome(r, p1)) >= 2 <==> r < p1,
        spec_crit_threshold(p1) <= spec_crit_threshold(p2),
{
    lemma_outcome_bands(p1);
    assert(p1 * (CRIT_BAND as int) <= p2 * (CRIT_BAND as int)) by (nonlinear_arith)
        requires p1 <= p2 && CRIT_BAND as int >= 0;
    assert(0 <= p1 * (CRIT_BAND as int)) by (nonlinear_arith)
        requires 0 <= p1 && 0 <= CRIT_BAND as int;
    vstd::arithmetic::div_mod::lemma_div_is_ordered(
        p1 * (CRIT_BAND as int),
        p2 * (CRIT_BAND as int),
        UNIT as int,
    );
}

/// Law: a roll is a critical exactly when it falls below the crit
/// threshold, and that threshold is at most the fraction `CRIT_BAND` of the
/// hit probability (so no more than `p * 0.15` of the unit interval can
/// ever produce a critical).
pub proof fn lemma_crit_band(r: int, p: int)
    requires
        valid_prob(p),
    ensures
        spec_outcome(r, p) == HitOutcome::Crit <==> r < spec_crit_threshold(p),
        (UNIT as int) * spec_crit_threshold(p) <= p * (CRIT_BAND as int),
{
    let u = UNIT as int;
    lemma_outcome_bands(p);
    assert(0 <= p * (CRIT_BAND as int)) by (nonlinear_arith)
        requires 0 <= p && 0 <= CRIT_BAND as int;
    vstd::arithmetic::div_mod::lemma_fundamental_div_mod(p * (CRIT_BAND as int), u);
    vstd::arithmetic::div_mod::lemma_mod_pos_bound(p * (CRIT_BAND as int), u);
}

/// Law: the better of two outcomes ranks at least as high as either, and
/// is one of the two; taking the best of two rolls can only help.
pub proof fn lemma_best_dominates(a: HitOutcome, b: HitOutcome)
    ensures
        spec_rank(spec_best(a, b)) >= spec_rank(a),
        spec_rank(spec_best(a, b)) >= spec_rank(b),
        spec_best(a, b) == a || spec_best(a, b) == b,
{
}

/// Law: the worse of two outcomes ranks at most as low as either, and is
/// one of the two; taking the worst of two rolls can only hurt.
pub proof fn lemma_worst_dominated(a: HitOutcome, b: HitOutcome)
    ensures
        spec_rank(spec_worst(a, b)) <= spec_rank(a),
        spec_rank(spec_worst(a, b)) <= spec_rank(b),
        spec_worst(a, b) == a || spec_worst(a, b) == b,
{
}

/// Law: a miss deals exactly zero on every component, whatever the base
/// damage; a critical under a neutral damage modifier deals exactly
/// `floor(base * 1.5)`, saturated at the component type.
pub proof fn lemma_damage_scaling(base: int, dmg_mod: int)
    requires
        0 <= base,
        0 <= dmg_mod,
    ensures
        spec_scaled_damage(base, dmg_mod, 0) == 0,
        spec_scaled_damage(base, UNIT as int, CRIT_MULT as int) == (if 3 * base / 2
            <= u32::MAX as int {
            3 * base / 2
        } else {
            u32::MAX as int
        }),
{
    let u = UNIT as int;
    assert(base * dmg_mod * 0 == 0) by (nonlinear_arith);
    assert(0int / 1_000_000_000_000 == 0);

    assert(base * u * (CRIT_MULT as int) == 500_000_000_000 * (3 * base)) by (nonlinear_arith)
        requires u == 1_000_000 && CRIT_MULT as int == 1_500_000;
    assert((3 * base) / 2 == (500_000_000_000int * (3 * base)) / (500_000_000_000int * 2)) by {
        vstd::arithmetic::div_mod::lemma_div_multiples_vanish_quotient(
            500_000_000_000, 3 * base, 2);
    }
}

} // verus!
