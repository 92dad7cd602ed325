//! The engagement loop and campaign runner.
//!
//! `Overwatch` drives alternating attack phases between the squad and one
//! wave of the swarm, round by round, tracking per-combatant pity streaks
//! and folding roll and pity statistics, until one side is wiped or the
//! round cap stops a degenerate fight.  `run_waves` sequences engagements
//! into a campaign that stops early once the squad is wiped.

use vstd::prelude::*;
use crate::{UNIT, valid_prob};
use crate::rng::rng_from_seed;
use crate::utils::{RngHub, spec_scale_round};
use crate::hive::Cartographer;
use crate::bugs::{Broodmother, Bug};
use crate::troopers::{Commander, Trooper, WeaponProfile, spec_trooper_accuracy,
    spec_damage_mod};
use crate::combat::{Joker, HitOutcome, HitInputs, DamageInputs, AttackContext, spec_rank,
    GRAZE_MULT, CRIT_MULT};

verus! {

/// Either roster member, seen through the four attributes the resolver
/// needs.  Members are plain values, so the view holds copies.
pub enum Combatant {
    Trooper(Trooper),
    Bug(Bug),
}

/// The accuracy the resolver sees for this combatant, in ppm.
pub open spec fn spec_cmb_accuracy(c: Combatant) -> int {
    match c {
        Combatant::Trooper(t) => spec_trooper_accuracy(t.stats, t.weapon),
        Combatant::Bug(b) => b.stats.accuracy as int,
    }
}

/// The evasion proxy: the combatant's agility, in ppm.
pub open spec fn spec_cmb_agility(c: Combatant) -> int {
    match c {
        Combatant::Trooper(t) => t.stats.agility as int,
        Combatant::Bug(b) => b.stats.agility as int,
    }
}

/// The damage triple the combatant attacks with.
pub open spec fn spec_cmb_damage(c: Combatant) -> (int, int, int) {
    match c {
        Combatant::Trooper(t) => (
            spec_damage_mod(t.weapon.dmg as int, t.stats.dmg_mod as int),
            t.weapon.hp_dmg as int,
            t.weapon.ap_dmg as int,
        ),
        Combatant::Bug(b) => (b.stats.damage as int, b.stats.damage as int, b.stats.damage as int),
    }
}

impl Combatant {
    pub fn accuracy(&self) -> (acc: u32)
        ensures
            acc == spec_cmb_accuracy(*self),
    {
        match self {
            Combatant::Trooper(t) => t.accuracy(),
            Combatant::Bug(b) => b.accuracy(),
        }
    }

    pub fn agility(&self) -> (ag: u32)
        ensures
            ag == spec_cmb_agility(*self),
    {
        match self {
            Combatant::Trooper(t) => t.agility(),
            Combatant::Bug(b) => b.agility(),
        }
    }

    /// The attack triple `(generic, health, armor)` this combatant deals.
    pub fn damage_tuple(&self) -> (d: (u32, u32, u32))
        ensures
            (d.0 as int, d.1 as int, d.2 as int) == spec_cmb_damage(*self),
    {
        match self {
            Combatant::Trooper(t) => t.damage(),
            Combatant::Bug(b) => b.damage(),
        }
    }

    /// The attacker-side damage modifier; neutral for both rosters, since
    /// a trooper's class modifier is already folded into its damage.
    pub fn dmg_mod(&self) -> (m: u32)
        ensures
            m == UNIT,
    {
        match self {
            Combatant::Trooper(_) => UNIT,
            Combatant::Bug(_) => UNIT,
        }
    }
}

/// Outcome counters for one side of one engagement.
pub struct RollStats {
    pub attempts: u32,
    pub miss: u32,
    pub graze: u32,
    pub hit: u32,
    pub crit: u32,
    /// Sum of the probabilities used, in ppm.
    pub p_sum: u64,
}

/// The counters tally: every attempt is exactly one of the four outcomes,
/// and the probability sum fits its count.
pub open spec fn spec_roll_wf(s: RollStats) -> bool {
    &&& s.miss + s.graze + s.hit + s.crit == s.attempts
    &&& s.p_sum <= s.attempts * (UNIT as int)
}

pub open spec fn spec_empty_rolls() -> RollStats {
    RollStats { attempts: 0, miss: 0, graze: 0, hit: 0, crit: 0, p_sum: 0 }
}

impl Default for RollStats {
    fn default() -> (s: RollStats)
        ensures
            s == spec_empty_rolls(),
    {
        RollStats { attempts: 0, miss: 0, graze: 0, hit: 0, crit: 0, p_sum: 0 }
    }
}

impl RollStats {
    /// Folds one resolved outcome and the probability it used.
    pub fn record(&mut self, o: HitOutcome, p: u32)
        requires
            spec_roll_wf(*old(self)),
            old(self).attempts < u32::MAX,
            valid_prob(p as int),
        ensures
            spec_roll_wf(*final(self)),
            final(self).attempts == old(self).attempts + 1,
            final(self).p_sum == old(self).p_sum + p,
            final(self).miss == old(self).miss + (if o == HitOutcome::Miss { 1int } else { 0 }),
            final(self).graze == old(self).graze + (if o == HitOutcome::Graze { 1int } else { 0 }),
            final(self).hit == old(self).hit + (if o == HitOutcome::Hit { 1int } else { 0 }),
            final(self).crit == old(self).crit + (if o == HitOutcome::Crit { 1int } else { 0 }),
    {
        proof {
            let a = old(self).attempts as int;
            let s = old(self).p_sum as int;
            assert(s + p <= (a + 1) * (UNIT as int)) by (nonlinear_arith)
                requires
                    s <= a * (UNIT as int),
                    p <= UNIT,
                    UNIT == 1_000_000u32;
            assert((a + 1) * (UNIT as int) <= 0xffff_ffffint * 1_000_000) by (nonlinear_arith)
                requires a + 1 <= 0xffff_ffffint && UNIT == 1_000_000u32;
        }
        self.attempts = self.attempts + 1;
        self.p_sum = self.p_sum + p as u64;
        match o {
            HitOutcome::Miss => self.miss = self.miss + 1,
            HitOutcome::Graze => self.graze = self.graze + 1,
            HitOutcome::Hit => self.hit = self.hit + 1,
            HitOutcome::Crit => self.crit = self.crit + 1,
        }
    }
}

/// Pity-mechanic counters for one side of one engagement.
pub struct PityStats {
    pub total: u32,
    /// Attacks made with a live streak.
    pub used: u32,
    /// Sum of the lifts applied; can dip negative when the base
    /// probability already sat above the pity cap.
    pub sum_lift: i64,
    /// Sum of the streak lengths on the attacks that used pity.
    pub sum_streak: u64,
    pub max_streak: u8,
    /// Pity was live and the outcome still landed (hit or crit).
    pub broke_streak: u32,
}

pub open spec fn spec_pity_wf(p: PityStats) -> bool {
    &&& p.used <= p.total
    &&& p.broke_streak <= p.used
    &&& p.sum_streak <= p.total * 255
    &&& -(p.total * (UNIT as int)) <= p.sum_lift <= p.total * (UNIT as int)
}

pub open spec fn spec_empty_pity() -> PityStats {
    PityStats { total: 0, used: 0, sum_lift: 0, sum_streak: 0, max_streak: 0, broke_streak: 0 }
}

impl Default for PityStats {
    fn default() -> (s: PityStats)
        ensures
            s == spec_empty_pity(),
    {
        PityStats { total: 0, used: 0, sum_lift: 0, sum_streak: 0, max_streak: 0, broke_streak: 0 }
    }
}

impl PityStats {
    /// Folds one attack: when a streak was live, its lift, length and
    /// whether the attack broke it.
    pub fn record(&mut self, base_p: u32, p: u32, streak: u8, outcome: HitOutcome)
        requires
            spec_pity_wf(*old(self)),
            old(self).total < u32::MAX,
            valid_prob(base_p as int),
            valid_prob(p as int),
        ensures
            spec_pity_wf(*final(self)),
            final(self).total == old(self).total + 1,
            streak == 0 ==> final(self).used == old(self).used && final(self).sum_lift == old(
                self,
            ).sum_lift && final(self).sum_streak == old(self).sum_streak && final(self).max_streak
                == old(self).max_streak && final(self).broke_streak == old(self).broke_streak,
            streak > 0 ==> final(self).used == old(self).used + 1 && final(self).sum_lift == old(
                self,
            ).sum_lift + (p - base_p) && final(self).sum_streak == old(self).sum_streak + streak
                && final(self).max_streak == (if streak > old(self).max_streak {
                streak
            } else {
                old(self).max_streak
            }) && final(self).broke_streak == old(self).broke_streak + (
            if spec_rank(outcome) >= 2 {
                1int
            } else {
                0
            }),
    {
        proof {
            let t = old(self).total as int;
            assert((t + 1) * 255 == t * 255 + 255) by (nonlinear_arith);
            assert((t + 1) * (UNIT as int) == t * (UNIT as int) + UNIT) by (nonlinear_arith);
            assert(t * 255 <= 0xffff_ffffint * 255) by (nonlinear_arith)
                requires t <= 0xffff_ffffint;
            assert(t * (UNIT as int) <= 0xffff_ffffint * 1_000_000) by (nonlinear_arith)
                requires t <= 0xffff_ffffint && UNIT == 1_000_000u32;
        }
        self.total = self.total + 1;
        if streak > 0 {
            self.used = self.used + 1;
            self.sum_lift = self.sum_lift + (p as i64 - base_p as i64);
            self.sum_streak = self.sum_streak + streak as u64;
            if streak > self.max_streak {
                self.max_streak = streak;
            }
            match outcome {
                HitOutcome::Hit => self.broke_streak = self.broke_streak + 1,
                HitOutcome::Crit => self.broke_streak = self.broke_streak + 1,
                _ => {},
            }
        }
    }
}

/// Tunable policy for one engagement.
#[derive(Clone, Copy)]
pub struct SimOpts {
    /// Lower and upper clamp on the base hit probability, in ppm.
    pub clamp: (u32, u32),
    /// Steepness of the logistic hit curve, in ppm.
    pub scale: u32,
    /// Hard stop on the number of rounds in one engagement.
    pub round_cap: usize,
    pub adv_trooper: i8,
    pub adv_bug: i8,
    /// Pre-engagement multipliers, in ppm.
    pub rebalance_hp: u32,
    pub rebalance_ap: u32,
    pub rebalance_dmg: u32,
}

/// The bounds an engagement needs of its options: a sane clamp and a
/// positive curve scale.
pub open spec fn spec_opts_wf(o: SimOpts) -> bool {
    &&& o.clamp.0 <= o.clamp.1
    &&& o.clamp.1 <= UNIT
    &&& o.scale > 0
}

impl Default for SimOpts {
    fn default() -> (o: SimOpts)
        ensures
            o.clamp == (50_000u32, 950_000u32),
            o.scale == 600_000,
            o.round_cap == 50,
            o.adv_trooper == 0,
            o.adv_bug == 0,
            o.rebalance_hp == 1_550_000,
            o.rebalance_ap == 1_550_000,
            o.rebalance_dmg == 850_000,
            spec_opts_wf(o),
    {
        SimOpts {
            clamp: (50_000, 950_000),
            scale: 600_000,
            round_cap: 50,
            adv_trooper: 0,
            adv_bug: 0,
            rebalance_hp: 1_550_000,
            rebalance_ap: 1_550_000,
            rebalance_dmg: 850_000,
        }
    }
}

/// What one engagement reports back.
pub struct WaveSummary {
    pub rounds: usize,
    pub trooper_alive: usize,
    pub bug_alive: usize,
    pub trooper_rolls: RollStats,
    pub bug_rolls: RollStats,
    pub trooper_pity: PityStats,
    pub bug_pity: PityStats,
}

/// What a campaign reports back: waves fully survived, and the summary of
/// the last engagement that ran (or a synthetic zero-round one on a full
/// clear).
pub struct CampaignSummary {
    pub waves_cleared: usize,
    pub last_wave: WaveSummary,
}

/// Living troopers in a team, counted from the back.
pub open spec fn spec_alive_troopers(s: Seq<Trooper>) -> int
    decreases s.len(),
{
    if s.len() == 0 {
        0
    } else {
        spec_alive_troopers(s.drop_last()) + (if s.last().stats.hp > 0 {
            1int
        } else {
            0
        })
    }
}

/// Living bugs in a wave, counted from the back.
pub open spec fn spec_alive_bugs(s: Seq<Bug>) -> int
    decreases s.len(),
{
    if s.len() == 0 {
        0
    } else {
        spec_alive_bugs(s.drop_last()) + (if s.last().stats.hp > 0 {
            1int
        } else {
            0
        })
    }
}

/// The alive count is bounded by the roster size and is zero exactly when
/// nobody lives.
pub proof fn lemma_alive_troopers(s: Seq<Trooper>)
    ensures
        0 <= spec_alive_troopers(s) <= s.len(),
        (spec_alive_troopers(s) == 0 <==> forall|i: int|
            0 <= i < s.len() ==> (#[trigger] s[i]).stats.hp == 0),
    decreases s.len(),
{
    if s.len() > 0 {
        lemma_alive_troopers(s.drop_last());
        if spec_alive_troopers(s) == 0 {
            assert forall|i: int| 0 <= i < s.len() implies (#[trigger] s[i]).stats.hp == 0 by {
                if i < s.len() - 1 {
                    assert(s.drop_last()[i] == s[i]);
                } else {
                    assert(s.last() == s[i]);
                }
            }
        }
        if forall|i: int| 0 <= i < s.len() ==> (#[trigger] s[i]).stats.hp == 0 {
            assert forall|i: int| 0 <= i < s.drop_last().len() implies (#[trigger] s.drop_last()[
                i
            ]).stats.hp == 0 by {
                assert(s.drop_last()[i] == s[i]);
            }
            assert(s.last() == s[s.len() - 1]);
        }
    }
}

pub proof fn lemma_alive_bugs(s: Seq<Bug>)
    ensures
        0 <= spec_alive_bugs(s) <= s.len(),
        (spec_alive_bugs(s) == 0 <==> forall|i: int|
            0 <= i < s.len() ==> (#[trigger] s[i]).stats.hp == 0),
    decreases s.len(),
{
    if s.len() > 0 {
        lemma_alive_bugs(s.drop_last());
        if spec_alive_bugs(s) == 0 {
            assert forall|i: int| 0 <= i < s.len() implies (#[trigger] s[i]).stats.hp == 0 by {
                if i < s.len() - 1 {
                    assert(s.drop_last()[i] == s[i]);
                } else {
                    assert(s.last() == s[i]);
                }
            }
        }
        if forall|i: int| 0 <= i < s.len() ==> (#[trigger] s[i]).stats.hp == 0 {
            assert forall|i: int| 0 <= i < s.drop_last().len() implies (#[trigger] s.drop_last()[
                i
            ]).stats.hp == 0 by {
                assert(s.drop_last()[i] == s[i]);
            }
            assert(s.last() == s[s.len() - 1]);
        }
    }
}

/// Combat moves only health and armor: every other field of a squad
/// member stands untouched through an engagement.
pub open spec fn spec_member_framed(pre: Trooper, post: Trooper) -> bool {
    &&& post.class == pre.class
    &&& post.perk == pre.perk
    &&& post.traits == pre.traits
    &&& post.flaws == pre.flaws
    &&& post.weapon == pre.weapon
    &&& post.stats.dmg_mod == pre.stats.dmg_mod
    &&& post.stats.accuracy == pre.stats.accuracy
    &&& post.stats.agility == pre.stats.agility
}

/// Scaling zero health leaves it at zero: the fallen stay fallen through
/// a rebalance.
pub proof fn lemma_scale_round_zero(factor: int)
    requires
        0 <= factor,
    ensures
        spec_scale_round(0, factor) == 0,
{
    assert(0 * factor == 0) by (nonlinear_arith);
}

/// Pointwise survival bounds the alive count: where nobody rises from the
/// dead, the count can only fall.
pub proof fn lemma_alive_troopers_le(s1: Seq<Trooper>, s2: Seq<Trooper>)
    requires
        s1.len() == s2.len(),
        forall|i: int| 0 <= i < s2.len() && (#[trigger] s2[i]).stats.hp > 0 ==> s1[i].stats.hp > 0,
    ensures
        spec_alive_troopers(s2) <= spec_alive_troopers(s1),
    decreases s2.len(),
{
    if s2.len() > 0 {
        assert forall|i: int|
            0 <= i < s2.drop_last().len() && (#[trigger] s2.drop_last()[i]).stats.hp > 0
                implies s1.drop_last()[i].stats.hp > 0 by {
            assert(s2.drop_last()[i] == s2[i]);
            assert(s1.drop_last()[i] == s1[i]);
        }
        lemma_alive_troopers_le(s1.drop_last(), s2.drop_last());
        assert(s2.last() == s2[s2.len() - 1]);
        assert(s1.last() == s1[s1.len() - 1]);
    }
}

/// The streak update rule: a landed outcome (hit or crit) resets the
/// streak; a miss or graze lengthens it, saturating.
pub open spec fn spec_update_pity(streak: int, o: HitOutcome) -> int {
    if spec_rank(o) >= 2 {
        0
    } else if streak >= 255 {
        255
    } else {
        streak + 1
    }
}

fn update_pity(streak: u8, o: HitOutcome) -> (s: u8)
    ensures
        s == spec_update_pity(streak as int, o),
{
    match o {
        HitOutcome::Hit => 0,
        HitOutcome::Crit => 0,
        _ => if streak == 255 {
            255
        } else {
            streak + 1
        },
    }
}

pub struct Overwatch {
    pub turn: usize,
    pub master_rng: rand::rngs::SmallRng,
    pub cartographer: Cartographer,
    pub commander: Commander,
    pub broodmother: Broodmother,
    pub joker: Joker,
}

impl Overwatch {
    /// A fresh game: the master seed (given or drawn) feeds one generator
    /// that every later draw consumes from, and the commander rolls a
    /// squad of three around the given weapon profile.
    pub fn new(master_seed: Option<u64>, weapon: WeaponProfile) -> (ow: Overwatch)
        ensures
            ow.commander.team@.len() == 3,
            forall|i: int|
                0 <= i < ow.commander.team@.len() ==> (#[trigger] ow.commander.team@[i]).stats
                    == crate::troopers::spec_modified_trooper_stats(
                    crate::troopers::spec_class_base_stats(ow.commander.team@[i].class),
                    ow.commander.team@[i].traits,
                    ow.commander.team@[i].flaws,
                ) && ow.commander.team@[i].weapon == weapon,
    {
        let hub = RngHub::new(master_seed);
        let mut master_rng = rng_from_seed(hub.master_seed);
        let commander = Commander::new(3, weapon, &mut master_rng);
        Overwatch {
            turn: 0,
            master_rng,
            cartographer: Cartographer::new(),
            commander,
            broodmother: Broodmother::new(),
            joker: Joker::new(),
        }
    }

    /// A game over a team assembled elsewhere, reproducible from the seed.
    pub fn from_parts(master_seed: u64, team: Vec<Trooper>) -> (ow: Overwatch)
        ensures
            ow.commander.team == team,
    {
        Overwatch {
            turn: 0,
            master_rng: rng_from_seed(master_seed),
            cartographer: Cartographer::new(),
            commander: Commander::from_team(team),
            broodmother: Broodmother::new(),
            joker: Joker::new(),
        }
    }

    fn build_hit_inputs(attacker: &Combatant, defender: &Combatant) -> (h: HitInputs)
        ensures
            h.attacker_acc == spec_cmb_accuracy(*attacker),
            h.defender_evasion == spec_cmb_agility(*defender),
            h.cover is None,
            h.situational is None,
    {
        HitInputs::new(attacker.accuracy(), defender.agility(), None, None)
    }

    fn build_dmg_inputs(attacker: &Combatant) -> (d: DamageInputs)
        ensures
            (d.base_dmg as int, d.base_hp as int, d.base_ap as int) == spec_cmb_damage(*attacker),
            d.attacker_dmg_mod == UNIT,
            d.outcome_mults@ == seq![0u32, GRAZE_MULT, UNIT, CRIT_MULT],
    {
        let (dmg, hp_dmg, ap_dmg) = attacker.damage_tuple();
        DamageInputs::new(dmg, hp_dmg, ap_dmg, attacker.dmg_mod())
    }

    fn build_context(
        attacker: Combatant,
        defender: Combatant,
        advantage: i8,
        clamp_min_max: (u32, u32),
        pity_streak: u8,
    ) -> (c: AttackContext)
        ensures
            c.hit.attacker_acc == spec_cmb_accuracy(attacker),
            c.hit.defender_evasion == spec_cmb_agility(defender),
            c.hit.cover is None,
            c.hit.situational is None,
            (c.dmg.base_dmg as int, c.dmg.base_hp as int, c.dmg.base_ap as int)
                == spec_cmb_damage(attacker),
            c.dmg.attacker_dmg_mod == UNIT,
            c.dmg.outcome_mults@ == seq![0u32, GRAZE_MULT, UNIT, CRIT_MULT],
            c.advantage == advantage,
            c.clamp_min_max == clamp_min_max,
            c.pity_streak == pity_streak,
    {
        AttackContext::new(
            Self::build_hit_inputs(&attacker, &defender),
            Self::build_dmg_inputs(&attacker),
            advantage,
            clamp_min_max,
            pity_streak,
        )
    }

    fn any_trooper_alive(&self) -> (alive: bool)
        ensures
            alive == (exists|i: int|
                0 <= i < self.commander.team@.len() && (#[trigger] self.commander.team@[
                    i
                ]).stats.hp > 0),
    {
        let n = self.commander.team.len();
        let mut i: usize = 0;
        while i < n
            invariant
                i <= n,
                n == self.commander.team@.len(),
                forall|j: int|
                    0 <= j < i ==> (#[trigger] self.commander.team@[j]).stats.hp == 0,
            decreases n - i,
        {
            if self.commander.team[i].is_alive() {
                return true;
            }
            i = i + 1;
        }
        false
    }

    fn any_bug_alive(wave: &Vec<Bug>) -> (alive: bool)
        ensures
            alive == (exists|i: int|
                0 <= i < wave@.len() && (#[trigger] wave@[i]).stats.hp > 0),
    {
        let n = wave.len();
        let mut i: usize = 0;
        while i < n
            invariant
                i <= n,
                n == wave@.len(),
                forall|j: int| 0 <= j < i ==> (#[trigger] wave@[j]).stats.hp == 0,
            decreases n - i,
        {
            if wave[i].is_alive() {
                return true;
            }
            i = i + 1;
        }
        false
    }

    /// The fixed targeting policy: the first living member in roster order.
    fn first_alive_trooper_idx(&self) -> (r: Option<usize>)
        ensures
            r matches Some(i) ==> i < self.commander.team@.len() && self.commander.team@[
                i as int
            ].stats.hp > 0 && (forall|j: int|
                0 <= j < i ==> (#[trigger] self.commander.team@[j]).stats.hp == 0),
            r is None ==> forall|j: int|
                0 <= j < self.commander.team@.len() ==> (#[trigger] self.commander.team@[
                    j
                ]).stats.hp == 0,
    {
        let n = self.commander.team.len();
        let mut i: usize = 0;
        while i < n
            invariant
                i <= n,
                n == self.commander.team@.len(),
                forall|j: int|
                    0 <= j < i ==> (#[trigger] self.commander.team@[j]).stats.hp == 0,
            decreases n - i,
        {
            if self.commander.team[i].is_alive() {
                return Some(i);
            }
            i = i + 1;
        }
        None
    }

    fn first_alive_bug_idx(wave: &Vec<Bug>) -> (r: Option<usize>)
        ensures
            r matches Some(i) ==> i < wave@.len() && wave@[i as int].stats.hp > 0 && (forall|
                j: int,
            |
                0 <= j < i ==> (#[trigger] wave@[j]).stats.hp == 0),
            r is None ==> forall|j: int|
                0 <= j < wave@.len() ==> (#[trigger] wave@[j]).stats.hp == 0,
    {
        let n = wave.len();
        let mut i: usize = 0;
        while i < n
            invariant
                i <= n,
                n == wave@.len(),
                forall|j: int| 0 <= j < i ==> (#[trigger] wave@[j]).stats.hp == 0,
            decreases n - i,
        {
            if wave[i].is_alive() {
                return Some(i);
            }
            i = i + 1;
        }
        None
    }

    fn count_alive_troopers(&self) -> (n: usize)
        ensures
            n == spec_alive_troopers(self.commander.team@),
    {
        let len = self.commander.team.len();
        let mut n: usize = 0;
        let mut i: usize = 0;
        proof {
            lemma_alive_troopers(self.commander.team@);
            assert(self.commander.team@.subrange(0, 0) =~= Seq::<Trooper>::empty());
        }
        while i < len
            invariant
                i <= len,
                len == self.commander.team@.len(),
                n <= i,
                n == spec_alive_troopers(self.commander.team@.subrange(0, i as int)),
            decreases len - i,
        {
            proof {
                let s = self.commander.team@;
                assert(s.subrange(0, i + 1).drop_last() =~= s.subrange(0, i as int));
                assert(s.subrange(0, i + 1).last() == s[i as int]);
            }
            if self.commander.team[i].is_alive() {
                n = n + 1;
            }
            i = i + 1;
        }
        proof {
            assert(self.commander.team@.subrange(0, len as int) =~= self.commander.team@);
        }
        n
    }

    fn count_alive_bugs(wave: &Vec<Bug>) -> (n: usize)
        ensures
            n == spec_alive_bugs(wave@),
    {
        let len = wave.len();
        let mut n: usize = 0;
        let mut i: usize = 0;
        proof {
            lemma_alive_bugs(wave@);
            assert(wave@.subrange(0, 0) =~= Seq::<Bug>::empty());
        }
        while i < len
            invariant
                i <= len,
                len == wave@.len(),
                n <= i,
                n == spec_alive_bugs(wave@.subrange(0, i as int)),
            decreases len - i,
        {
            proof {
                assert(wave@.subrange(0, i + 1).drop_last() =~= wave@.subrange(0, i as int));
                assert(wave@.subrange(0, i + 1).last() == wave@[i as int]);
            }
            if wave[i].is_alive() {
                n = n + 1;
            }
            i = i + 1;
        }
        proof {
            assert(wave@.subrange(0, len as int) =~= wave@);
        }
        n
    }

    /// The pre-engagement rebalancing hooks on both rosters: squad health
    /// and armor scale by their factors, bug damage by its; nothing else
    /// moves, and in particular bug health is untouched.
    fn rebalance(&mut self, wave: &mut Vec<Bug>, hp_factor: u32, ap_factor: u32, dmg_factor: u32)
        ensures
            final(self).commander.team@.len() == old(self).commander.team@.len(),
            final(wave)@.len() == old(wave)@.len(),
            forall|i: int|
                0 <= i < old(self).commander.team@.len() ==> spec_member_framed(
                    old(self).commander.team@[i],
                    #[trigger] final(self).commander.team@[i],
                ) && final(self).commander.team@[i].stats.hp == spec_scale_round(
                    old(self).commander.team@[i].stats.hp as int,
                    hp_factor as int,
                ) && final(self).commander.team@[i].stats.ap == spec_scale_round(
                    old(self).commander.team@[i].stats.ap as int,
                    ap_factor as int,
                ),
            forall|j: int|
                0 <= j < old(wave)@.len() ==> (#[trigger] final(wave)@[j]).stats.hp == old(
                    wave,
                )@[j].stats.hp && final(wave)@[j].stats.ap == old(wave)@[j].stats.ap,
    {
        self.commander.rebalance_team(hp_factor, ap_factor);
        self.broodmother.rebalance_wave(wave, dmg_factor);
    }

    /// An extension point between waves; deliberately does nothing yet.
    pub fn between_waves(&mut self)
        ensures
            *final(self) == *old(self),
    {
    }

    /// Runs one engagement to its end.  Both rosters are rebalanced, then
    /// the squad and the wave trade phases round by round — each living
    /// attacker in roster order striking the first living defender — until
    /// one side has no living member or the round cap stops the fight.
    /// The summary reports the rounds run (a fight decided inside its
    /// first round reports zero, as does one that never starts), the true
    /// survivor count on each side, and both sides' roll and pity
    /// statistics — each side records at least one roll per round run.
    /// Combat moves only health and armor: every other squad field
    /// stands, and the fallen stay fallen on both sides.
    pub fn run_wave(&mut self, wave: &mut Vec<Bug>, opts: SimOpts) -> (summary: WaveSummary)
        requires
            old(self).commander.team@.len() >= 1,
            old(wave)@.len() >= 1,
            spec_opts_wf(opts),
            (opts.round_cap + 1) * (old(self).commander.team@.len() + old(wave)@.len())
                < u32::MAX,
        ensures
            final(self).commander.team@.len() == old(self).commander.team@.len(),
            final(wave)@.len() == old(wave)@.len(),
            forall|i: int|
                0 <= i < old(self).commander.team@.len() ==> spec_member_framed(
                    old(self).commander.team@[i],
                    #[trigger] final(self).commander.team@[i],
                ) && final(self).commander.team@[i].stats.hp <= spec_scale_round(
                    old(self).commander.team@[i].stats.hp as int,
                    opts.rebalance_hp as int,
                ) && final(self).commander.team@[i].stats.ap <= spec_scale_round(
                    old(self).commander.team@[i].stats.ap as int,
                    opts.rebalance_ap as int,
                ),
            forall|j: int|
                0 <= j < old(wave)@.len() ==> (#[trigger] final(wave)@[j]).stats.hp <= old(
                    wave,
                )@[j].stats.hp,
            summary.rounds <= opts.round_cap,
            summary.trooper_alive == spec_alive_troopers(final(self).commander.team@),
            summary.bug_alive == spec_alive_bugs(final(wave)@),
            summary.trooper_alive == 0 || summary.bug_alive == 0 || summary.rounds
                == opts.round_cap,
            summary.trooper_alive == 0 && summary.bug_alive == 0 ==> summary.rounds == 0,
            opts.round_cap == 0 ==> summary.rounds == 0,
            (forall|i: int|
                0 <= i < old(self).commander.team@.len() ==> spec_scale_round(
                    (#[trigger] old(self).commander.team@[i]).stats.hp as int,
                    opts.rebalance_hp as int,
                ) == 0) ==> summary.rounds == 0,
            (forall|j: int| 0 <= j < old(wave)@.len() ==> (#[trigger] old(wave)@[j]).stats.hp
                == 0) ==> summary.rounds == 0,
            (spec_alive_bugs(old(wave)@) > 0 && opts.round_cap >= 1 && (exists|i: int|
                0 <= i < old(self).commander.team@.len() && spec_scale_round(
                    (#[trigger] old(self).commander.team@[i]).stats.hp as int,
                    opts.rebalance_hp as int,
                ) > 0)) ==> !(summary.trooper_alive == 0 && summary.bug_alive == 0)
                && summary.trooper_rolls.attempts >= 1,
            summary.trooper_rolls.attempts >= summary.rounds,
            summary.bug_rolls.attempts >= summary.rounds,
            spec_roll_wf(summary.trooper_rolls),
            spec_roll_wf(summary.bug_rolls),
            spec_pity_wf(summary.trooper_pity),
            spec_pity_wf(summary.bug_pity),
    {
        let clamp = opts.clamp;
        let scale = opts.scale;
        let cap = opts.round_cap;

        self.rebalance(wave, opts.rebalance_hp, opts.rebalance_ap, opts.rebalance_dmg);

        let tlen = self.commander.team.len();
        let blen = wave.len();
        let ghost team_r = self.commander.team@;
        let ghost wave_r = wave@;
        let ghost fight_due = (exists|i: int| 0 <= i < tlen && team_r[i].stats.hp > 0) && (
        exists|j: int| 0 <= j < blen && wave_r[j].stats.hp > 0) && cap >= 1;

        proof {
            assert(cap + 1 < u32::MAX) by (nonlinear_arith)
                requires
                    (cap + 1) * (tlen + blen) < u32::MAX,
                    tlen >= 1,
                    blen >= 1,
                    cap >= 0;
        }
        let mut round: usize = 1;
        let mut trooper_stats = RollStats::default();
        let mut bug_stats = RollStats::default();
        let mut t_pity_stats = PityStats::default();
        let mut b_pity_stats = PityStats::default();
        let mut t_pity = zero_streaks(tlen);
        let mut b_pity = zero_streaks(blen);

        proof {
            if fight_due {
                let i = choose|i: int| 0 <= i < tlen && team_r[i].stats.hp > 0;
                assert(self.commander.team@[i].stats.hp > 0);
                let j = choose|j: int| 0 <= j < blen && wave_r[j].stats.hp > 0;
                assert(wave@[j].stats.hp > 0);
            }
        }
        while self.any_trooper_alive() && Self::any_bug_alive(wave) && round <= cap
            invariant_except_break
                trooper_stats.attempts <= (round - 1) * tlen,
                bug_stats.attempts <= (round - 1) * blen,
                round > 1 ==> (exists|j: int|
                    0 <= j < blen && (#[trigger] wave@[j]).stats.hp > 0),
                round == 1 ==> self.commander.team@ == team_r && wave@ == wave_r,
                fight_due && round == 1 ==> ((exists|i: int|
                    0 <= i < tlen && (#[trigger] self.commander.team@[i]).stats.hp > 0) && (
                exists|j: int| 0 <= j < blen && (#[trigger] wave@[j]).stats.hp > 0)),
            invariant
                tlen >= 1,
                blen >= 1,
                (cap + 1) * (tlen + blen) < u32::MAX,
                scale > 0,
                clamp.0 <= clamp.1,
                clamp.1 <= UNIT,
                self.commander.team@.len() == tlen,
                wave@.len() == blen,
                wave_r.len() == blen,
                t_pity@.len() == tlen,
                b_pity@.len() == blen,
                1 <= round <= cap + 1,
                spec_roll_wf(trooper_stats),
                spec_roll_wf(bug_stats),
                spec_pity_wf(t_pity_stats),
                spec_pity_wf(b_pity_stats),
                t_pity_stats.total == trooper_stats.attempts,
                b_pity_stats.total == bug_stats.attempts,
                cap + 1 < u32::MAX,
                old(self).commander.team@.len() == tlen,
                fight_due ==> cap >= 1,
                trooper_stats.attempts >= round - 1,
                bug_stats.attempts >= round - 1,
                forall|i: int|
                    0 <= i < tlen ==> spec_member_framed(
                        old(self).commander.team@[i],
                        #[trigger] self.commander.team@[i],
                    ) && self.commander.team@[i].stats.hp <= spec_scale_round(
                        old(self).commander.team@[i].stats.hp as int,
                        opts.rebalance_hp as int,
                    ) && self.commander.team@[i].stats.ap <= spec_scale_round(
                        old(self).commander.team@[i].stats.ap as int,
                        opts.rebalance_ap as int,
                    ),
                forall|j: int|
                    0 <= j < blen ==> (#[trigger] wave@[j]).stats.hp <= wave_r[j].stats.hp,
                round > 1 ==> (exists|i: int|
                    0 <= i < tlen && spec_scale_round(
                        (#[trigger] old(self).commander.team@[i]).stats.hp as int,
                        opts.rebalance_hp as int,
                    ) > 0),
                round > 1 ==> (exists|j: int|
                    0 <= j < blen && (#[trigger] wave_r[j]).stats.hp > 0),
            ensures
                self.commander.team@.len() == tlen,
                wave@.len() == blen,
                1 <= round <= cap + 1,
                spec_roll_wf(trooper_stats),
                spec_roll_wf(bug_stats),
                spec_pity_wf(t_pity_stats),
                spec_pity_wf(b_pity_stats),
                trooper_stats.attempts >= round - 1,
                bug_stats.attempts >= round - 1,
                fight_due ==> trooper_stats.attempts >= 1,
                forall|i: int|
                    0 <= i < tlen ==> spec_member_framed(
                        old(self).commander.team@[i],
                        #[trigger] self.commander.team@[i],
                    ) && self.commander.team@[i].stats.hp <= spec_scale_round(
                        old(self).commander.team@[i].stats.hp as int,
                        opts.rebalance_hp as int,
                    ) && self.commander.team@[i].stats.ap <= spec_scale_round(
                        old(self).commander.team@[i].stats.ap as int,
                        opts.rebalance_ap as int,
                    ),
                forall|j: int|
                    0 <= j < blen ==> (#[trigger] wave@[j]).stats.hp <= wave_r[j].stats.hp,
                fight_due ==> ((exists|i: int|
                    0 <= i < tlen && (#[trigger] self.commander.team@[i]).stats.hp > 0) || (
                exists|j: int| 0 <= j < blen && (#[trigger] wave@[j]).stats.hp > 0)),
                round == 1 || (exists|i: int|
                    0 <= i < tlen && (#[trigger] self.commander.team@[i]).stats.hp > 0) || (
                exists|j: int| 0 <= j < blen && (#[trigger] wave@[j]).stats.hp > 0),
                round > 1 ==> (exists|i: int|
                    0 <= i < tlen && spec_scale_round(
                        (#[trigger] old(self).commander.team@[i]).stats.hp as int,
                        opts.rebalance_hp as int,
                    ) > 0),
                round > 1 ==> (exists|j: int|
                    0 <= j < blen && (#[trigger] wave_r[j]).stats.hp > 0),
                (forall|i: int|
                    0 <= i < self.commander.team@.len() ==> (#[trigger] self.commander.team@[
                        i
                    ]).stats.hp == 0) || (forall|i: int|
                    0 <= i < wave@.len() ==> (#[trigger] wave@[i]).stats.hp == 0) || round == cap
                    + 1,
            decreases cap + 1 - round,
        {
            // ----- squad phase -----
            let ghost team_a = self.commander.team@;
            let ghost wave_a0 = wave@;
            let ghost ta0 = trooper_stats.attempts as int;
            let mut ti: usize = 0;
            while ti < tlen
                invariant_except_break
                    trooper_stats.attempts <= (round - 1) * tlen + ti,
                invariant
                    tlen >= 1,
                    blen >= 1,
                    (cap + 1) * (tlen + blen) < u32::MAX,
                    scale > 0,
                    clamp.0 <= clamp.1,
                    clamp.1 <= UNIT,
                    ti <= tlen,
                    1 <= round,
                    self.commander.team@ == team_a,
                    self.commander.team@.len() == tlen,
                    wave@.len() == blen,
                    wave_r.len() == blen,
                    wave_a0.len() == blen,
                    t_pity@.len() == tlen,
                    b_pity@.len() == blen,
                    round <= cap,
                    spec_roll_wf(trooper_stats),
                    spec_pity_wf(t_pity_stats),
                    t_pity_stats.total == trooper_stats.attempts,
                    trooper_stats.attempts >= ta0,
                    ta0 >= 0,
                    trooper_stats.attempts == ta0 ==> (wave@ == wave_a0 && (forall|k: int|
                        0 <= k < ti ==> (#[trigger] team_a[k]).stats.hp == 0)),
                    forall|j: int|
                        0 <= j < blen ==> (#[trigger] wave@[j]).stats.hp <= wave_r[j].stats.hp,
                ensures
                    self.commander.team@ == team_a,
                    self.commander.team@.len() == tlen,
                    wave@.len() == blen,
                    t_pity@.len() == tlen,
                    b_pity@.len() == blen,
                    spec_roll_wf(trooper_stats),
                    spec_pity_wf(t_pity_stats),
                    t_pity_stats.total == trooper_stats.attempts,
                    trooper_stats.attempts <= (round - 1) * tlen + tlen,
                    trooper_stats.attempts >= ta0,
                    ((exists|k: int| 0 <= k < tlen && (#[trigger] team_a[k]).stats.hp > 0) && (
                    exists|j: int| 0 <= j < blen && (#[trigger] wave_a0[j]).stats.hp > 0))
                        ==> trooper_stats.attempts >= ta0 + 1,
                    forall|j: int|
                        0 <= j < blen ==> (#[trigger] wave@[j]).stats.hp <= wave_r[j].stats.hp,
                decreases tlen - ti,
            {
                if self.commander.team[ti].is_alive() {
                    let target_idx = Self::first_alive_bug_idx(wave);
                    match target_idx {
                        None => {
                            break;
                        },
                        Some(bi) => {
                            let pity = t_pity[ti];
                            let atk = Combatant::Trooper(self.commander.team[ti]);
                            let def = Combatant::Bug(wave[bi]);
                            let ctx = Self::build_context(
                                atk,
                                def,
                                opts.adv_trooper,
                                clamp,
                                pity,
                            );
                            let res = Joker::resolve(&mut self.master_rng, &ctx, scale);
                            proof {
                                lemma_attack_budget(
                                    round as int,
                                    ti as int,
                                    tlen as int,
                                    blen as int,
                                    cap as int,
                                );
                            }
                            trooper_stats.record(res.outcome, res.hit_prob_used);
                            t_pity_stats.record(res.base_p, res.hit_prob_used, pity, res.outcome);
                            t_pity.set(ti, update_pity(pity, res.outcome));
                            let (dmg, hp_dmg, ap_dmg) = res.final_dmg;
                            let mut target = wave[bi];
                            self.broodmother.bug_attacked(&mut target, dmg, hp_dmg, ap_dmg);
                            wave.set(bi, target);
                            if !Self::any_bug_alive(wave) {
                                break;
                            }
                        },
                    }
                }
                ti = ti + 1;
            }

            if !Self::any_bug_alive(wave) {
                proof {
                    let k = choose|i: int| 0 <= i < tlen && (#[trigger] team_a[i]).stats.hp > 0;
                    assert(self.commander.team@[k].stats.hp > 0);
                    if fight_due && round == 1 {
                        assert(trooper_stats.attempts >= ta0 + 1);
                    }
                }
                break;
            }

            // ----- swarm phase -----
            let ghost team_b = self.commander.team@;
            let ghost wave_b = wave@;
            let ghost bb0 = bug_stats.attempts as int;
            let mut bi: usize = 0;
            while bi < blen
                invariant_except_break
                    bug_stats.attempts <= (round - 1) * blen + bi,
                invariant
                    tlen >= 1,
                    blen >= 1,
                    (cap + 1) * (tlen + blen) < u32::MAX,
                    scale > 0,
                    clamp.0 <= clamp.1,
                    clamp.1 <= UNIT,
                    bi <= blen,
                    1 <= round,
                    self.commander.team@.len() == tlen,
                    wave@ == wave_b,
                    wave@.len() == blen,
                    t_pity@.len() == tlen,
                    b_pity@.len() == blen,
                    round <= cap,
                    spec_roll_wf(bug_stats),
                    spec_pity_wf(b_pity_stats),
                    b_pity_stats.total == bug_stats.attempts,
                    old(self).commander.team@.len() == tlen,
                    team_b.len() == tlen,
                    bug_stats.attempts >= bb0,
                    bb0 >= 0,
                    bug_stats.attempts == bb0 ==> (self.commander.team@ == team_b && (forall|
                        k: int,
                    |
                        0 <= k < bi ==> (#[trigger] wave_b[k]).stats.hp == 0)),
                    forall|i: int|
                        0 <= i < tlen ==> spec_member_framed(
                            old(self).commander.team@[i],
                            #[trigger] self.commander.team@[i],
                        ) && self.commander.team@[i].stats.hp <= spec_scale_round(
                            old(self).commander.team@[i].stats.hp as int,
                            opts.rebalance_hp as int,
                        ) && self.commander.team@[i].stats.ap <= spec_scale_round(
                            old(self).commander.team@[i].stats.ap as int,
                            opts.rebalance_ap as int,
                        ),
                ensures
                    self.commander.team@.len() == tlen,
                    wave@ == wave_b,
                    wave@.len() == blen,
                    t_pity@.len() == tlen,
                    b_pity@.len() == blen,
                    spec_roll_wf(bug_stats),
                    spec_pity_wf(b_pity_stats),
                    b_pity_stats.total == bug_stats.attempts,
                    bug_stats.attempts <= (round - 1) * blen + blen,
                    bug_stats.attempts >= bb0,
                    ((exists|k: int| 0 <= k < blen && (#[trigger] wave_b[k]).stats.hp > 0) && (
                    exists|i: int| 0 <= i < tlen && (#[trigger] team_b[i]).stats.hp > 0))
                        ==> bug_stats.attempts >= bb0 + 1,
                    forall|i: int|
                        0 <= i < tlen ==> spec_member_framed(
                            old(self).commander.team@[i],
                            #[trigger] self.commander.team@[i],
                        ) && self.commander.team@[i].stats.hp <= spec_scale_round(
                            old(self).commander.team@[i].stats.hp as int,
                            opts.rebalance_hp as int,
                        ) && self.commander.team@[i].stats.ap <= spec_scale_round(
                            old(self).commander.team@[i].stats.ap as int,
                            opts.rebalance_ap as int,
                        ),
                decreases blen - bi,
            {
                if wave[bi].is_alive() {
                    let target_idx = self.first_alive_trooper_idx();
                    match target_idx {
                        None => {
                            break;
                        },
                        Some(ti) => {
                            let pity = b_pity[bi];
                            let atk = Combatant::Bug(wave[bi]);
                            let def = Combatant::Trooper(self.commander.team[ti]);
                            let ctx = Self::build_context(atk, def, opts.adv_bug, clamp, pity);
                            let res = Joker::resolve(&mut self.master_rng, &ctx, scale);
                            proof {
                                lemma_attack_budget(
                                    round as int,
                                    bi as int,
                                    blen as int,
                                    tlen as int,
                                    cap as int,
                                );
                            }
                            bug_stats.record(res.outcome, res.hit_prob_used);
                            b_pity_stats.record(res.base_p, res.hit_prob_used, pity, res.outcome);
                            b_pity.set(bi, update_pity(pity, res.outcome));
                            let (dmg, hp_dmg, ap_dmg) = res.final_dmg;
                            self.commander.apply_damage_to_trooper(ti, dmg, hp_dmg, ap_dmg);
                            if !self.any_trooper_alive() {
                                break;
                            }
                        },
                    }
                }
                bi = bi + 1;
            }

            proof {
                lemma_attempts_roll_over(round as int, tlen as int, trooper_stats.attempts as int);
                lemma_attempts_roll_over(round as int, blen as int, bug_stats.attempts as int);
                let a = choose|i: int| 0 <= i < tlen && (#[trigger] team_a[i]).stats.hp > 0;
                assert(spec_scale_round(
                    old(self).commander.team@[a].stats.hp as int,
                    opts.rebalance_hp as int,
                ) > 0);
                let b = choose|j: int| 0 <= j < blen && (#[trigger] wave@[j]).stats.hp > 0;
                assert(wave_r[b].stats.hp > 0);
            }
            round = round + 1;
        }

        let alive_t = self.count_alive_troopers();
        let alive_b = Self::count_alive_bugs(wave);
        proof {
            lemma_alive_troopers(self.commander.team@);
            lemma_alive_bugs(wave@);
            lemma_alive_bugs(old(wave)@);
            if spec_alive_bugs(old(wave)@) > 0 && cap >= 1 && (exists|i: int|
                0 <= i < old(self).commander.team@.len() && spec_scale_round(
                    (#[trigger] old(self).commander.team@[i]).stats.hp as int,
                    opts.rebalance_hp as int,
                ) > 0) {
                let j = choose|j: int|
                    0 <= j < old(wave)@.len() && (#[trigger] old(wave)@[j]).stats.hp > 0;
                assert(wave_r[j].stats.hp > 0);
                let i = choose|i: int|
                    0 <= i < old(self).commander.team@.len() && spec_scale_round(
                        (#[trigger] old(self).commander.team@[i]).stats.hp as int,
                        opts.rebalance_hp as int,
                    ) > 0;
                assert(team_r[i].stats.hp > 0);
                assert(fight_due);
            }
        }

        WaveSummary {
            rounds: round - 1,
            trooper_alive: alive_t,
            bug_alive: alive_b,
            trooper_rolls: trooper_stats,
            bug_rolls: bug_stats,
            trooper_pity: t_pity_stats,
            bug_pity: b_pity_stats,
        }
    }

    /// Sequences pre-generated waves into a campaign: each wave runs as
    /// one engagement, a fully-survived wave counts as cleared, and a
    /// squad wipe stops the campaign at that wave's summary.  A full
    /// clear means every wave was survived — the squad still stands — and
    /// reports a synthetic zero-round, empty-statistics final summary with
    /// the squad's survivor count.  Waves are consumed from
    /// the front of the queue as they run, so whatever the campaign never
    /// reached is exactly what remains queued.
    pub fn run_waves(&mut self, waves: &mut Vec<Vec<Bug>>, opts: SimOpts) -> (campaign:
        CampaignSummary)
        requires
            old(self).commander.team@.len() >= 1,
            spec_opts_wf(opts),
            forall|i: int| 0 <= i < old(waves)@.len() ==> (#[trigger] old(waves)@[i])@.len() >= 1,
            forall|i: int|
                0 <= i < old(waves)@.len() ==> (opts.round_cap + 1) * (
                old(self).commander.team@.len() + (#[trigger] old(waves)@[i])@.len()) < u32::MAX,
        ensures
            final(self).commander.team@.len() == old(self).commander.team@.len(),
            campaign.waves_cleared <= old(waves)@.len(),
            campaign.last_wave.trooper_alive == spec_alive_troopers(final(self).commander.team@),
            campaign.waves_cleared == old(waves)@.len() ==> campaign.last_wave.rounds == 0
                && campaign.last_wave.bug_alive == 0 && campaign.last_wave.trooper_rolls
                == spec_empty_rolls() && campaign.last_wave.bug_rolls == spec_empty_rolls()
                && campaign.last_wave.trooper_pity == spec_empty_pity()
                && campaign.last_wave.bug_pity == spec_empty_pity(),
            old(waves)@.len() > 0 && campaign.waves_cleared == old(waves)@.len()
                ==> campaign.last_wave.trooper_alive > 0,
            campaign.waves_cleared < old(waves)@.len() ==> campaign.last_wave.trooper_alive == 0,
            campaign.waves_cleared == old(waves)@.len() ==> final(waves)@.len() == 0,
            campaign.waves_cleared < old(waves)@.len() ==> final(waves)@ == old(waves)@.skip(
                campaign.waves_cleared + 1,
            ),
            spec_roll_wf(campaign.last_wave.trooper_rolls),
            spec_roll_wf(campaign.last_wave.bug_rolls),
            spec_pity_wf(campaign.last_wave.trooper_pity),
            spec_pity_wf(campaign.last_wave.bug_pity),
    {
        let ghost waves0 = old(waves)@;
        proof {
            assert(waves0.len() == waves.len());
            assert(waves@ =~= waves0.skip(0));
        }
        let mut cleared: usize = 0;
        while waves.len() > 0
            invariant
                waves0 == old(waves)@,
                waves0.len() <= usize::MAX,
                self.commander.team@.len() == old(self).commander.team@.len(),
                old(self).commander.team@.len() >= 1,
                spec_opts_wf(opts),
                forall|i: int| 0 <= i < waves0.len() ==> (#[trigger] waves0[i])@.len() >= 1,
                forall|i: int|
                    0 <= i < waves0.len() ==> (opts.round_cap + 1) * (
                    old(self).commander.team@.len() + (#[trigger] waves0[i])@.len()) < u32::MAX,
                cleared <= waves0.len(),
                cleared + waves@.len() == waves0.len(),
                waves@ == waves0.skip(cleared as int),
                cleared > 0 ==> spec_alive_troopers(self.commander.team@) > 0,
                forall|i: int|
                    0 <= i < waves@.len() ==> waves@[i] == waves0[cleared + i],
            decreases waves@.len(),
        {
            self.between_waves();
            let mut wave = waves.remove(0);
            proof {
                assert(wave == waves0[cleared as int]);
                assert(waves@ =~= waves0.skip(cleared + 1));
            }
            let enc = self.run_wave(&mut wave, opts);
            if enc.trooper_alive == 0 {
                return CampaignSummary { waves_cleared: cleared, last_wave: enc };
            }
            cleared = cleared + 1;
            proof {
                assert(waves@ =~= waves0.skip(cleared as int));
                assert(forall|i: int|
                    0 <= i < waves@.len() ==> waves@[i] == waves0[cleared + i]);
            }
        }
        let final_enc = WaveSummary {
            rounds: 0,
            trooper_alive: self.count_alive_troopers(),
            bug_alive: 0,
            trooper_rolls: RollStats::default(),
            bug_rolls: RollStats::default(),
            trooper_pity: PityStats::default(),
            bug_pity: PityStats::default(),
        };
        CampaignSummary { waves_cleared: cleared, last_wave: final_enc }
    }

    /// One engagement under the default options; the summary is dropped,
    /// but the squad keeps its identity and can only have lost ground.
    pub fn fight_sim(&mut self, wave: Vec<Bug>)
        requires
            old(self).commander.team@.len() >= 1,
            wave@.len() >= 1,
            51 * (old(self).commander.team@.len() + wave@.len()) < u32::MAX,
        ensures
            final(self).commander.team@.len() == old(self).commander.team@.len(),
            forall|i: int|
                0 <= i < old(self).commander.team@.len() ==> spec_member_framed(
                    old(self).commander.team@[i],
                    #[trigger] final(self).commander.team@[i],
                ),
            spec_alive_troopers(final(self).commander.team@) <= spec_alive_troopers(
                old(self).commander.team@,
            ),
    {
        let opts = SimOpts::default();
        let ghost team0 = self.commander.team@;
        let mut wave = wave;
        let _enc = self.run_wave(&mut wave, opts);
        proof {
            assert forall|i: int|
                0 <= i < team0.len() && (#[trigger] self.commander.team@[i]).stats.hp > 0
                    implies team0[i].stats.hp > 0 by {
                if team0[i].stats.hp == 0 {
                    lemma_scale_round_zero(opts.rebalance_hp as int);
                }
            }
            lemma_alive_troopers_le(team0, self.commander.team@);
        }
    }
}

/// A streak slot per roster member, all starting at zero.
fn zero_streaks(n: usize) -> (v: Vec<u8>)
    ensures
        v@.len() == n,
{
    let mut v: Vec<u8> = Vec::new();
    let mut i: usize = 0;
    while i < n
        invariant
            i <= n,
            v@.len() == i,
        decreases n - i,
    {
        v.push(0);
        i = i + 1;
    }
    v
}

/// The attacks one side makes never outrun the engagement's budget: in
/// round `r` of at most `cap`, after `k` of the side's `mine` members have
/// acted, fewer than `(cap + 1) * (mine + theirs)` attacks have happened.
proof fn lemma_attack_budget(r: int, k: int, mine: int, theirs: int, cap: int)
    requires
        1 <= r <= cap,
        0 <= k < mine,
        1 <= theirs,
    ensures
        (r - 1) * mine + k < (cap + 1) * (mine + theirs),
{
    assert((r - 1) * mine + k < (cap + 1) * (mine + theirs)) by (nonlinear_arith)
        requires 1 <= r <= cap && 0 <= k < mine && 1 <= theirs;
}

/// A full phase's worth of attacks folds into the next round's budget.
proof fn lemma_attempts_roll_over(r: int, mine: int, attempts: int)
    requires
        attempts <= (r - 1) * mine + mine,
    ensures
        attempts <= ((r + 1) - 1) * mine,
{
    assert((r - 1) * mine + mine == r * mine) by (nonlinear_arith);
}

} // verus!
