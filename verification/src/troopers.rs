//! The squad side of the roster: trooper classes, rolled traits and flaws,
//! derived stats, and the commander that owns the team.
//!
//! Health and armor are plain points; damage modifier, accuracy and agility
//! are in parts per million.  The content catalog (weapons and gear) lives
//! outside the simulation core: a trooper carries the damage triple and
//! accuracy delta of whatever was equipped, handed in as plain values.

use vstd::prelude::*;
use crate::UNIT;
use crate::rng::rand_below;
use crate::utils::{RandBools, clamp_u32, round_centi, scale_round, spec_round_centi,
    spec_scale_round, SafeSub};
use crate::combat::spec_clamp;
use crate::bugs::{Bug, spec_ap_after, spec_hp_after, spec_add_if};

verus! {

#[derive(Debug, Copy, Clone, PartialEq, Eq, Hash, Structural)]
pub enum TrooperClass { Heavy, Scout, Engineer, Medic, ExoTech, Handler, Decoy }

#[derive(Debug, Copy, Clone, PartialEq, Eq, Structural)]
pub enum ClassPerk {
    MoraleAura,
    BugScan,
    DeployBoost,
    CombatTriage,
    ArmorShred,
    HiveScent,
    EchoProtocol,
}

#[derive(Debug, Copy, Clone, PartialEq, Eq, Structural)]
pub struct TrooperTraits {
    pub steadfast: bool,
    pub adrenal_surge: bool,
    pub quickdraw: bool,
    pub hardy: bool,
    pub mechanic: bool,
    pub lucky: bool,
    pub second_wind: bool,
    pub sharpshooter: bool,
    pub stubborn: bool,
    pub battle_medic: bool,
    pub fast_reflexes: bool,
}

#[derive(Debug, Copy, Clone, PartialEq, Eq, Structural)]
pub struct TrooperFlaws {
    pub old_wounds: bool,
    pub ammo_glutton: bool,
    pub jittery: bool,
    pub acid_phobia: bool,
    pub nervous_trigger: bool,
    pub clumsy: bool,
    pub loudmouth: bool,
    pub fragile_armor: bool,
    pub slow_recovery: bool,
    pub tunnel_vision: bool,
    pub glass_jaw: bool,
}

#[derive(Debug, Copy, Clone, PartialEq, Eq, Structural)]
pub struct TrooperStats {
    pub hp: u32,
    pub ap: u32,
    pub dmg_mod: u32,
    pub accuracy: u32,
    pub agility: u32,
}

impl TrooperStats {
    pub fn new(hp: u32, ap: u32, dmg_mod: u32, accuracy: u32, agility: u32) -> (s: TrooperStats)
        ensures
            s == (TrooperStats { hp, ap, dmg_mod, accuracy, agility }),
    {
        TrooperStats { hp, ap, dmg_mod, accuracy, agility }
    }
}

/// What the equipped weapon contributes to a trooper: a damage triple and
/// an accuracy delta in ppm (can be negative).  The catalog that produces
/// these values is an outside collaborator.
#[derive(Debug, Copy, Clone, PartialEq, Eq, Structural)]
pub struct WeaponProfile {
    pub dmg: u32,
    pub hp_dmg: u32,
    pub ap_dmg: u32,
    pub acc_delta: i32,
}

/// The trait flag order used by the roll pool.
pub open spec fn spec_trooper_trait_flags(t: TrooperTraits) -> Seq<bool> {
    seq![
        t.steadfast,
        t.adrenal_surge,
        t.quickdraw,
        t.hardy,
        t.mechanic,
        t.lucky,
        t.second_wind,
        t.sharpshooter,
        t.stubborn,
        t.battle_medic,
        t.fast_reflexes,
    ]
}

/// The flaw flag order used by the roll pool.
pub open spec fn spec_trooper_flaw_flags(f: TrooperFlaws) -> Seq<bool> {
    seq![
        f.old_wounds,
        f.ammo_glutton,
        f.jittery,
        f.acid_phobia,
        f.nervous_trigger,
        f.clumsy,
        f.loudmouth,
        f.fragile_armor,
        f.slow_recovery,
        f.tunnel_vision,
        f.glass_jaw,
    ]
}

#[verifier::rlimit(100)]
fn trooper_trait_flags(t: &TrooperTraits) -> (v: Vec<bool>)
    ensures
        v@ == spec_trooper_trait_flags(*t),
{
    let mut v: Vec<bool> = Vec::new();
    v.push(t.steadfast);
    v.push(t.adrenal_surge);
    v.push(t.quickdraw);
    v.push(t.hardy);
    v.push(t.mechanic);
    v.push(t.lucky);
    v.push(t.second_wind);
    v.push(t.sharpshooter);
    v.push(t.stubborn);
    v.push(t.battle_medic);
    v.push(t.fast_reflexes);
    proof {
        assert(v@ =~= spec_trooper_trait_flags(*t));
    }
    v
}

fn trooper_traits_from_flags(v: &Vec<bool>) -> (t: TrooperTraits)
    requires
        v@.len() == 11,
    ensures
        spec_trooper_trait_flags(t) == v@,
{
    let t = TrooperTraits {
        steadfast: v[0],
        adrenal_surge: v[1],
        quickdraw: v[2],
        hardy: v[3],
        mechanic: v[4],
        lucky: v[5],
        second_wind: v[6],
        sharpshooter: v[7],
        stubborn: v[8],
        battle_medic: v[9],
        fast_reflexes: v[10],
    };
    proof {
        assert(spec_trooper_trait_flags(t) =~= v@);
    }
    t
}

#[verifier::rlimit(100)]
fn trooper_flaw_flags(f: &TrooperFlaws) -> (v: Vec<bool>)
    ensures
        v@ == spec_trooper_flaw_flags(*f),
{
    let mut v: Vec<bool> = Vec::new();
    v.push(f.old_wounds);
    v.push(f.ammo_glutton);
    v.push(f.jittery);
    v.push(f.acid_phobia);
    v.push(f.nervous_trigger);
    v.push(f.clumsy);
    v.push(f.loudmouth);
    v.push(f.fragile_armor);
    v.push(f.slow_recovery);
    v.push(f.tunnel_vision);
    v.push(f.glass_jaw);
    proof {
        assert(v@ =~= spec_trooper_flaw_flags(*f));
    }
    v
}

fn trooper_flaws_from_flags(v: &Vec<bool>) -> (f: TrooperFlaws)
    requires
        v@.len() == 11,
    ensures
        spec_trooper_flaw_flags(f) == v@,
{
    let f = TrooperFlaws {
        old_wounds: v[0],
        ammo_glutton: v[1],
        jittery: v[2],
        acid_phobia: v[3],
        nervous_trigger: v[4],
        clumsy: v[5],
        loudmouth: v[6],
        fragile_armor: v[7],
        slow_recovery: v[8],
        tunnel_vision: v[9],
        glass_jaw: v[10],
    };
    proof {
        assert(spec_trooper_flaw_flags(f) =~= v@);
    }
    f
}

/// The base stat block per class, before traits and flaws.
pub open spec fn spec_class_base_stats(class: TrooperClass) -> TrooperStats {
    match class {
        TrooperClass::Heavy => TrooperStats {
            hp: 130, ap: 30, dmg_mod: 2_000_000, accuracy: 850_000, agility: 200_000,
        },
        TrooperClass::Scout => TrooperStats {
            hp: 70, ap: 10, dmg_mod: 1_250_000, accuracy: 1_150_000, agility: 650_000,
        },
        TrooperClass::Engineer => TrooperStats {
            hp: 100, ap: 20, dmg_mod: 1_700_000, accuracy: 1_050_000, agility: 350_000,
        },
        TrooperClass::Medic => TrooperStats {
            hp: 90, ap: 15, dmg_mod: 1_150_000, accuracy: 1_050_000, agility: 350_000,
        },
        TrooperClass::ExoTech => TrooperStats {
            hp: 115, ap: 20, dmg_mod: 1_900_000, accuracy: 900_000, agility: 250_000,
        },
        TrooperClass::Handler => TrooperStats {
            hp: 80, ap: 14, dmg_mod: 1_300_000, accuracy: 1_000_000, agility: 400_000,
        },
        TrooperClass::Decoy => TrooperStats {
            hp: 110, ap: 16, dmg_mod: 1_100_000, accuracy: 800_000, agility: 500_000,
        },
    }
}

/// The sharpshooter boost and old-wounds penalty, then the stat clamps and
/// the rounding to hundredths, in order.
pub open spec fn spec_modified_trooper_stats(
    s: TrooperStats,
    t: TrooperTraits,
    f: TrooperFlaws,
) -> TrooperStats {
    let acc1 = spec_add_if(t.sharpshooter, s.accuracy as int, 150_000);
    let hp1 = if f.old_wounds { s.hp as int * 85 / 100 } else { s.hp as int };
    TrooperStats {
        hp: spec_clamp(hp1, 10, 200) as u32,
        ap: spec_clamp(s.ap as int, 0, 100) as u32,
        dmg_mod: spec_round_centi(spec_clamp(s.dmg_mod as int, 500_000, 2_000_000)) as u32,
        accuracy: spec_round_centi(spec_clamp(acc1, 500_000, 1_500_000)) as u32,
        agility: spec_round_centi(spec_clamp(s.agility as int, 0, 1_000_000)) as u32,
    }
}

/// The effective accuracy a trooper attacks with: class accuracy times the
/// weapon's accuracy multiplier, which never drops below a half.
pub open spec fn spec_trooper_accuracy(stats: TrooperStats, weapon: WeaponProfile) -> int {
    let mult = if UNIT as int + weapon.acc_delta < 500_000 {
        500_000int
    } else {
        UNIT as int + weapon.acc_delta
    };
    let acc = stats.accuracy * mult / (UNIT as int);
    if acc > u32::MAX as int { u32::MAX as int } else { acc }
}

/// The weapon's base damage scaled by the trooper's damage modifier,
/// truncated, saturated at the component type.
pub open spec fn spec_damage_mod(base: int, dmg_mod: int) -> int {
    let scaled = base * dmg_mod / (UNIT as int);
    if scaled > u32::MAX as int { u32::MAX as int } else { scaled }
}

#[derive(Debug, Copy, Clone)]
pub struct Trooper {
    pub class: TrooperClass,
    pub perk: ClassPerk,
    pub traits: TrooperTraits,
    pub flaws: TrooperFlaws,
    pub stats: TrooperStats,
    pub weapon: WeaponProfile,
}

impl Trooper {
    /// A trooper rolled from its class: fixed perk, rolled traits and
    /// flaws, the stat block they produce, and the given weapon.
    pub fn new(class: TrooperClass, weapon: WeaponProfile, rng: &mut rand::rngs::SmallRng) -> (t:
        Trooper)
        ensures
            t.class == class,
            t.perk == spec_class_perk(class),
            t.weapon == weapon,
            t.stats == spec_modified_trooper_stats(spec_class_base_stats(class), t.traits, t.flaws),
    {
        let perk = Self::get_class_perk(&class);
        let traits = Self::determine_trait(rng);
        let flaws = Self::determine_flaw(rng);
        let stats = Self::get_stats(class, &traits, &flaws);
        Trooper { class, perk, traits, flaws, stats, weapon }
    }

    /// A trooper with the stat block and weapon given directly; the narrow
    /// interface the engagement loop and its callers actually need.
    pub fn from_stats(class: TrooperClass, stats: TrooperStats, weapon: WeaponProfile) -> (t:
        Trooper)
        ensures
            t.class == class,
            t.stats == stats,
            t.weapon == weapon,
    {
        Trooper {
            class,
            perk: Self::get_class_perk(&class),
            traits: TrooperTraits {
                steadfast: false,
                adrenal_surge: false,
                quickdraw: false,
                hardy: false,
                mechanic: false,
                lucky: false,
                second_wind: false,
                sharpshooter: false,
                stubborn: false,
                battle_medic: false,
                fast_reflexes: false,
            },
            flaws: TrooperFlaws {
                old_wounds: false,
                ammo_glutton: false,
                jittery: false,
                acid_phobia: false,
                nervous_trigger: false,
                clumsy: false,
                loudmouth: false,
                fragile_armor: false,
                slow_recovery: false,
                tunnel_vision: false,
                glass_jaw: false,
            },
            stats,
            weapon,
        }
    }

    pub fn get_class_perk(class: &TrooperClass) -> (p: ClassPerk)
        ensures
            p == spec_class_perk(*class),
    {
        match class {
            TrooperClass::Heavy => ClassPerk::MoraleAura,
            TrooperClass::Scout => ClassPerk::BugScan,
            TrooperClass::Engineer => ClassPerk::DeployBoost,
            TrooperClass::Medic => ClassPerk::CombatTriage,
            TrooperClass::ExoTech => ClassPerk::ArmorShred,
            TrooperClass::Handler => ClassPerk::HiveScent,
            TrooperClass::Decoy => ClassPerk::EchoProtocol,
        }
    }

    /// Rolls at most one trait, with one guaranteed.
    pub fn determine_trait(rng: &mut rand::rngs::SmallRng) -> (t: TrooperTraits)
        ensures
            exists|i: int|
                0 <= i < spec_trooper_trait_flags(t).len() && spec_trooper_trait_flags(t)[i],
    {
        let mut flags = trooper_trait_flags(&TrooperTraits {
            steadfast: false,
            adrenal_surge: false,
            quickdraw: false,
            hardy: false,
            mechanic: false,
            lucky: false,
            second_wind: false,
            sharpshooter: false,
            stubborn: false,
            battle_medic: false,
            fast_reflexes: false,
        });
        let mut pool = full_pool(11);
        RandBools::roll_bools(rng, &mut flags, &mut pool, 1, 500_000, true);
        trooper_traits_from_flags(&flags)
    }

    /// Rolls at most one flaw, with one guaranteed.
    pub fn determine_flaw(rng: &mut rand::rngs::SmallRng) -> (f: TrooperFlaws)
        ensures
            exists|i: int|
                0 <= i < spec_trooper_flaw_flags(f).len() && spec_trooper_flaw_flags(f)[i],
    {
        let mut flags = trooper_flaw_flags(&TrooperFlaws {
            old_wounds: false,
            ammo_glutton: false,
            jittery: false,
            acid_phobia: false,
            nervous_trigger: false,
            clumsy: false,
            loudmouth: false,
            fragile_armor: false,
            slow_recovery: false,
            tunnel_vision: false,
            glass_jaw: false,
        });
        let mut pool = full_pool(11);
        RandBools::roll_bools(rng, &mut flags, &mut pool, 1, 500_000, true);
        trooper_flaws_from_flags(&flags)
    }

    pub fn get_base_stats(class: TrooperClass) -> (s: TrooperStats)
        ensures
            s == spec_class_base_stats(class),
    {
        match class {
            TrooperClass::Heavy => TrooperStats::new(130, 30, 2_000_000, 850_000, 200_000),
            TrooperClass::Scout => TrooperStats::new(70, 10, 1_250_000, 1_150_000, 650_000),
            TrooperClass::Engineer => TrooperStats::new(100, 20, 1_700_000, 1_050_000, 350_000),
            TrooperClass::Medic => TrooperStats::new(90, 15, 1_150_000, 1_050_000, 350_000),
            TrooperClass::ExoTech => TrooperStats::new(115, 20, 1_900_000, 900_000, 250_000),
            TrooperClass::Handler => TrooperStats::new(80, 14, 1_300_000, 1_000_000, 400_000),
            TrooperClass::Decoy => TrooperStats::new(110, 16, 1_100_000, 800_000, 500_000),
        }
    }

    /// The trait boost and flaw penalty, then the clamps and rounding,
    /// exactly as `spec_modified_trooper_stats` states.
    pub fn apply_modifiers(stats: &TrooperStats, traits: &TrooperTraits, flaws: &TrooperFlaws) -> (
        s: TrooperStats)
        requires
            stats.hp <= 100_000,
            stats.accuracy <= 3_000_000,
        ensures
            s == spec_modified_trooper_stats(*stats, *traits, *flaws),
    {
        let accuracy: u32 = if traits.sharpshooter {
            stats.accuracy + 150_000
        } else {
            stats.accuracy
        };
        let hp: u32 = if flaws.old_wounds {
            (stats.hp as u64 * 85 / 100) as u32
        } else {
            stats.hp
        };
        TrooperStats {
            hp: clamp_u32(hp, 10, 200),
            ap: clamp_u32(stats.ap, 0, 100),
            dmg_mod: round_centi(clamp_u32(stats.dmg_mod, 500_000, 2_000_000)),
            accuracy: round_centi(clamp_u32(accuracy, 500_000, 1_500_000)),
            agility: round_centi(clamp_u32(stats.agility, 0, 1_000_000)),
        }
    }

    pub fn get_stats(class: TrooperClass, traits: &TrooperTraits, flaws: &TrooperFlaws) -> (s:
        TrooperStats)
        ensures
            s == spec_modified_trooper_stats(spec_class_base_stats(class), *traits, *flaws),
    {
        let base = Self::get_base_stats(class);
        Self::apply_modifiers(&base, traits, flaws)
    }

    fn damage_mod(&self, base_dmg: u32) -> (d: u32)
        ensures
            d == spec_damage_mod(base_dmg as int, self.stats.dmg_mod as int),
    {
        proof {
            assert(0 <= base_dmg as int * self.stats.dmg_mod as int <= 0xffff_ffffint
                * 0xffff_ffff) by (nonlinear_arith)
                requires base_dmg <= 0xffff_ffffu32 && self.stats.dmg_mod <= 0xffff_ffffu32;
        }
        let scaled: u64 = (base_dmg as u64) * (self.stats.dmg_mod as u64) / (UNIT as u64);
        if scaled > u32::MAX as u64 {
            u32::MAX
        } else {
            scaled as u32
        }
    }

    pub fn hp(&self) -> (hp: u32)
        ensures
            hp == self.stats.hp,
    {
        self.stats.hp
    }

    pub fn ap(&self) -> (ap: u32)
        ensures
            ap == self.stats.ap,
    {
        self.stats.ap
    }

    /// The attack triple: the weapon's base damage scaled by the class
    /// damage modifier, and the weapon's targeted components as they are.
    pub fn damage(&self) -> (d: (u32, u32, u32))
        ensures
            d.0 == spec_damage_mod(self.weapon.dmg as int, self.stats.dmg_mod as int),
            d.1 == self.weapon.hp_dmg,
            d.2 == self.weapon.ap_dmg,
    {
        (self.damage_mod(self.weapon.dmg), self.weapon.hp_dmg, self.weapon.ap_dmg)
    }

    /// Class accuracy scaled by the weapon's accuracy multiplier.
    pub fn accuracy(&self) -> (acc: u32)
        ensures
            acc == spec_trooper_accuracy(self.stats, self.weapon),
    {
        let m0: i64 = UNIT as i64 + self.weapon.acc_delta as i64;
        let mult: u64 = if m0 < 500_000 {
            500_000u64
        } else {
            m0 as u64
        };
        proof {
            assert(0 <= self.stats.accuracy as int * mult as int <= 0xffff_ffffint
                * 0x1_0000_0000) by (nonlinear_arith)
                requires self.stats.accuracy <= 0xffff_ffffu32 && 0 <= mult as int
                    <= 0x1_0000_0000;
        }
        let acc: u64 = (self.stats.accuracy as u64) * mult / (UNIT as u64);
        if acc > u32::MAX as u64 {
            u32::MAX
        } else {
            acc as u32
        }
    }

    pub fn agility(&self) -> (ag: u32)
        ensures
            ag == self.stats.agility,
    {
        self.stats.agility
    }

    pub fn is_alive(&self) -> (alive: bool)
        ensures
            alive == (self.stats.hp > 0),
    {
        self.stats.hp > 0
    }

    /// Lands this trooper's full damage triple on one bug.
    pub fn attack(&self, target: &mut Bug)
        ensures
            final(target).stats.ap == spec_ap_after(
                old(target).stats.ap as int,
                self.weapon.ap_dmg as int,
            ),
            final(target).stats.hp == spec_hp_after(
                old(target).stats.hp as int,
                old(target).stats.ap as int,
                self.weapon.hp_dmg as int,
                self.weapon.ap_dmg as int,
            ),
    {
        let (dmg, hp_dmg, ap_dmg) = self.damage();
        target.take_damage(dmg, hp_dmg, ap_dmg);
    }

    /// Armor-then-health, as for bugs: armor soaks the hit while it lasts,
    /// and once it is gone (including by this very hit) health takes the
    /// health damage.  The generic component moves no pool.
    pub fn take_damage(&mut self, dmg: u32, hp_dmg: u32, ap_dmg: u32)
        ensures
            final(self).stats.ap == spec_ap_after(old(self).stats.ap as int, ap_dmg as int),
            final(self).stats.hp == spec_hp_after(
                old(self).stats.hp as int,
                old(self).stats.ap as int,
                hp_dmg as int,
                ap_dmg as int,
            ),
            final(self).stats.dmg_mod == old(self).stats.dmg_mod,
            final(self).stats.accuracy == old(self).stats.accuracy,
            final(self).stats.agility == old(self).stats.agility,
            final(self).class == old(self).class,
            final(self).perk == old(self).perk,
            final(self).weapon == old(self).weapon,
            final(self).traits == old(self).traits,
            final(self).flaws == old(self).flaws,
    {
        let _ = dmg;
        if self.stats.ap != 0 {
            self.stats.ap = self.stats.ap.safe_sub(ap_dmg);
        }
        if self.stats.ap == 0 {
            self.stats.hp = self.stats.hp.safe_sub(hp_dmg);
        }
    }
}

/// The class perk table.
pub open spec fn spec_class_perk(class: TrooperClass) -> ClassPerk {
    match class {
        TrooperClass::Heavy => ClassPerk::MoraleAura,
        TrooperClass::Scout => ClassPerk::BugScan,
        TrooperClass::Engineer => ClassPerk::DeployBoost,
        TrooperClass::Medic => ClassPerk::CombatTriage,
        TrooperClass::ExoTech => ClassPerk::ArmorShred,
        TrooperClass::Handler => ClassPerk::HiveScent,
        TrooperClass::Decoy => ClassPerk::EchoProtocol,
    }
}

/// The pool `0, 1, .., n-1`: every flag index is a candidate.
fn full_pool(n: usize) -> (v: Vec<usize>)
    ensures
        v@.len() == n,
        forall|i: int| 0 <= i < n ==> v@[i] == i,
{
    let mut v: Vec<usize> = Vec::new();
    let mut i: usize = 0;
    while i < n
        invariant
            i <= n,
            v@.len() == i,
            forall|j: int| 0 <= j < i ==> v@[j] == j,
        decreases n - i,
    {
        v.push(i);
        i = i + 1;
    }
    v
}

pub struct Commander {
    pub team: Vec<Trooper>,
}

impl Commander {
    /// A commander over `count` troopers of random classes, all carrying
    /// the given weapon profile.
    pub fn new(count: usize, weapon: WeaponProfile, rng: &mut rand::rngs::SmallRng) -> (c:
        Commander)
        ensures
            c.team@.len() == count,
            forall|i: int|
                0 <= i < c.team@.len() ==> (#[trigger] c.team@[i]).stats
                    == spec_modified_trooper_stats(
                    spec_class_base_stats(c.team@[i].class),
                    c.team@[i].traits,
                    c.team@[i].flaws,
                ) && c.team@[i].weapon == weapon,
    {
        let team = Self::test_trooper_creation(count, weapon, rng);
        Commander { team }
    }

    /// A commander over a team assembled elsewhere.
    pub fn from_team(team: Vec<Trooper>) -> (c: Commander)
        ensures
            c.team == team,
    {
        Commander { team }
    }

    /// Rolls `count` troopers of uniformly drawn classes.
    pub fn test_trooper_creation(
        count: usize,
        weapon: WeaponProfile,
        rng: &mut rand::rngs::SmallRng,
    ) -> (team: Vec<Trooper>)
        ensures
            team@.len() == count,
            forall|i: int|
                0 <= i < team@.len() ==> (#[trigger] team@[i]).stats
                    == spec_modified_trooper_stats(
                    spec_class_base_stats(team@[i].class),
                    team@[i].traits,
                    team@[i].flaws,
                ) && team@[i].weapon == weapon,
    {
        let class_pool: [TrooperClass; 7] = [
            TrooperClass::Heavy,
            TrooperClass::Scout,
            TrooperClass::Engineer,
            TrooperClass::Medic,
            TrooperClass::ExoTech,
            TrooperClass::Handler,
            TrooperClass::Decoy,
        ];
        let mut team: Vec<Trooper> = Vec::new();
        let mut i: usize = 0;
        while i < count
            invariant
                i <= count,
                team@.len() == i,
                forall|j: int|
                    0 <= j < team@.len() ==> (#[trigger] team@[j]).stats
                        == spec_modified_trooper_stats(
                        spec_class_base_stats(team@[j].class),
                        team@[j].traits,
                        team@[j].flaws,
                    ) && team@[j].weapon == weapon,
            decreases count - i,
        {
            let c = rand_below(rng, 7);
            let trooper = Trooper::new(class_pool[c], weapon, rng);
            team.push(trooper);
            i = i + 1;
        }
        team
    }

    /// Forwards one trooper's attack onto a bug.
    pub fn trooper_attack(&self, trooper: &Trooper, target: &mut Bug)
        ensures
            final(target).stats.ap == spec_ap_after(
                old(target).stats.ap as int,
                trooper.weapon.ap_dmg as int,
            ),
            final(target).stats.hp == spec_hp_after(
                old(target).stats.hp as int,
                old(target).stats.ap as int,
                trooper.weapon.hp_dmg as int,
                trooper.weapon.ap_dmg as int,
            ),
    {
        trooper.attack(target);
    }

    /// Forwards a resolved attack's damage onto one trooper.
    pub fn trooper_attacked(&self, trooper: &mut Trooper, dmg: u32, hp_dmg: u32, ap_dmg: u32)
        ensures
            final(trooper).stats.ap == spec_ap_after(old(trooper).stats.ap as int, ap_dmg as int),
            final(trooper).stats.hp == spec_hp_after(
                old(trooper).stats.hp as int,
                old(trooper).stats.ap as int,
                hp_dmg as int,
                ap_dmg as int,
            ),
    {
        trooper.take_damage(dmg, hp_dmg, ap_dmg);
    }

    /// Lands a resolved attack's damage on the team member at `idx`;
    /// everyone else is untouched.
    pub fn apply_damage_to_trooper(&mut self, idx: usize, dmg: u32, hp_dmg: u32, ap_dmg: u32)
        requires
            idx < old(self).team@.len(),
        ensures
            final(self).team@.len() == old(self).team@.len(),
            forall|i: int|
                0 <= i < old(self).team@.len() && i != idx ==> final(self).team@[i] == old(
                    self,
                ).team@[i],
            final(self).team@[idx as int].stats.ap == spec_ap_after(
                old(self).team@[idx as int].stats.ap as int,
                ap_dmg as int,
            ),
            final(self).team@[idx as int].stats.hp == spec_hp_after(
                old(self).team@[idx as int].stats.hp as int,
                old(self).team@[idx as int].stats.ap as int,
                hp_dmg as int,
                ap_dmg as int,
            ),
            final(self).team@[idx as int].stats.accuracy == old(
                self,
            ).team@[idx as int].stats.accuracy,
            final(self).team@[idx as int].stats.agility == old(
                self,
            ).team@[idx as int].stats.agility,
            final(self).team@[idx as int].stats.dmg_mod == old(
                self,
            ).team@[idx as int].stats.dmg_mod,
            final(self).team@[idx as int].weapon == old(self).team@[idx as int].weapon,
            final(self).team@[idx as int].class == old(self).team@[idx as int].class,
            final(self).team@[idx as int].perk == old(self).team@[idx as int].perk,
            final(self).team@[idx as int].traits == old(self).team@[idx as int].traits,
            final(self).team@[idx as int].flaws == old(self).team@[idx as int].flaws,
    {
        let mut target = self.team[idx];
        target.take_damage(dmg, hp_dmg, ap_dmg);
        self.team.set(idx, target);
    }

    /// Scales every trooper's health and armor by ppm factors, rounded to
    /// the nearest point.
    pub fn rebalance_team(&mut self, hp_factor: u32, ap_factor: u32)
        ensures
            final(self).team@.len() == old(self).team@.len(),
            forall|i: int|
                0 <= i < old(self).team@.len() ==> (#[trigger] final(self).team@[i]).stats.hp
                    == spec_scale_round(old(self).team@[i].stats.hp as int, hp_factor as int)
                    && final(self).team@[i].stats.ap == spec_scale_round(
                    old(self).team@[i].stats.ap as int,
                    ap_factor as int,
                ) && final(self).team@[i].stats.accuracy == old(self).team@[i].stats.accuracy
                    && final(self).team@[i].stats.agility == old(self).team@[i].stats.agility
                    && final(self).team@[i].stats.dmg_mod == old(self).team@[i].stats.dmg_mod
                    && final(self).team@[i].weapon == old(self).team@[i].weapon
                    && final(self).team@[i].class == old(self).team@[i].class
                    && final(self).team@[i].perk == old(self).team@[i].perk
                    && final(self).team@[i].traits == old(self).team@[i].traits
                    && final(self).team@[i].flaws == old(self).team@[i].flaws,
    {
        let ghost team0 = old(self).team@;
        let n = self.team.len();
        let mut i: usize = 0;
        while i < n
            invariant
                i <= n,
                self.team@.len() == n,
                team0.len() == n,
                forall|j: int| i <= j < n ==> self.team@[j] == team0[j],
                forall|j: int|
                    0 <= j < i ==> (#[trigger] self.team@[j]).stats.hp == spec_scale_round(
                        team0[j].stats.hp as int,
                        hp_factor as int,
                    ) && self.team@[j].stats.ap == spec_scale_round(
                        team0[j].stats.ap as int,
                        ap_factor as int,
                    ) && self.team@[j].stats.accuracy == team0[j].stats.accuracy
                        && self.team@[j].stats.agility == team0[j].stats.agility
                        && self.team@[j].stats.dmg_mod == team0[j].stats.dmg_mod
                        && self.team@[j].weapon == team0[j].weapon
                        && self.team@[j].class == team0[j].class
                        && self.team@[j].perk == team0[j].perk
                        && self.team@[j].traits == team0[j].traits
                        && self.team@[j].flaws == team0[j].flaws,
            decreases n - i,
        {
            let mut t = self.team[i];
            t.stats.hp = scale_round(t.stats.hp, hp_factor);
            t.stats.ap = scale_round(t.stats.ap, ap_factor);
            self.team.set(i, t);
            i = i + 1;
        }
    }
}

} // verus!
