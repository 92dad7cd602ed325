//! The swarm side of the roster: bug species, their rolled traits and
//! flaws, derived stats, and the brood that spawns waves.
//!
//! Health, armor and damage are plain points; accuracy and agility are in
//! parts per million, like every probability-flavoured stat in the crate.

use vstd::prelude::*;
use crate::rng::rand_below;
use crate::utils::{RandBools, clamp_u32, round_centi, scale_round, spec_sub0,
    spec_round_centi, spec_scale_round, SafeSub};
use crate::combat::spec_clamp;

verus! {

#[derive(Debug, Copy, Clone, PartialEq, Eq, Structural)]
pub enum BugClass { Charger, Spitter, Swarmer, Hivemind, Pincer, Burrower, Exploder, Jumper, Tank }

#[derive(Debug, Copy, Clone, PartialEq, Eq, Structural)]
pub enum BugTactic { Ambush, Rushdown, Flank, Protect, Bait, Adapt, Enrage, Distract, HiveLink }

#[derive(Debug, Copy, Clone, PartialEq, Eq, Structural)]
pub enum BugSpecies {
    Snapper,
    Maw,
    Noodle,
    Priest,
    Skitter,
    Leaper,
    Sporebelly,
    Fleshcrawler,
    Blinker,
    Skulker,
    Tornaut,
    Queen,
}

#[derive(Debug, Copy, Clone, PartialEq, Eq, Structural)]
pub struct BugTraits {
    pub acidic: bool,
    pub adaptive: bool,
    pub armored: bool,
    pub camouflaged: bool,
    pub explosive: bool,
    pub hivelink: bool,
    pub psychic: bool,
    pub regenerative: bool,
}

#[derive(Debug, Copy, Clone, PartialEq, Eq, Structural)]
pub struct BugFlaws {
    pub acid_leak: bool,
    pub cracked_shell: bool,
    pub sickness: bool,
    pub neural_misfire: bool,
    pub outcast: bool,
    pub poor_eyesight: bool,
    pub sensory_lag: bool,
    pub sluggish: bool,
}

#[derive(Debug, Copy, Clone, PartialEq, Eq, Structural)]
pub struct BugStats {
    pub hp: u32,
    pub ap: u32,
    pub damage: u32,
    pub accuracy: u32,
    pub agility: u32,
}

impl BugStats {
    pub fn new(hp: u32, ap: u32, damage: u32, accuracy: u32, agility: u32) -> (s: BugStats)
        ensures
            s == (BugStats { hp, ap, damage, accuracy, agility }),
    {
        BugStats { hp, ap, damage, accuracy, agility }
    }
}

/// The trait flag order used by the index pools.
pub open spec fn spec_trait_flags(t: BugTraits) -> Seq<bool> {
    seq![
        t.acidic,
        t.adaptive,
        t.armored,
        t.camouflaged,
        t.explosive,
        t.hivelink,
        t.psychic,
        t.regenerative,
    ]
}

/// The flaw flag order used by the index pools.
pub open spec fn spec_flaw_flags(f: BugFlaws) -> Seq<bool> {
    seq![
        f.acid_leak,
        f.cracked_shell,
        f.sickness,
        f.neural_misfire,
        f.outcast,
        f.poor_eyesight,
        f.sensory_lag,
        f.sluggish,
    ]
}

fn trait_flags(t: &BugTraits) -> (v: Vec<bool>)
    ensures
        v@ == spec_trait_flags(*t),
{
    let mut v: Vec<bool> = Vec::new();
    v.push(t.acidic);
    v.push(t.adaptive);
    v.push(t.armored);
    v.push(t.camouflaged);
    v.push(t.explosive);
    v.push(t.hivelink);
    v.push(t.psychic);
    v.push(t.regenerative);
    proof {
        assert(v@ =~= spec_trait_flags(*t));
    }
    v
}

fn traits_from_flags(v: &Vec<bool>) -> (t: BugTraits)
    requires
        v@.len() == 8,
    ensures
        spec_trait_flags(t) == v@,
{
    let t = BugTraits {
        acidic: v[0],
        adaptive: v[1],
        armored: v[2],
        camouflaged: v[3],
        explosive: v[4],
        hivelink: v[5],
        psychic: v[6],
        regenerative: v[7],
    };
    proof {
        assert(spec_trait_flags(t) =~= v@);
    }
    t
}

fn flaw_flags(f: &BugFlaws) -> (v: Vec<bool>)
    ensures
        v@ == spec_flaw_flags(*f),
{
    let mut v: Vec<bool> = Vec::new();
    v.push(f.acid_leak);
    v.push(f.cracked_shell);
    v.push(f.sickness);
    v.push(f.neural_misfire);
    v.push(f.outcast);
    v.push(f.poor_eyesight);
    v.push(f.sensory_lag);
    v.push(f.sluggish);
    proof {
        assert(v@ =~= spec_flaw_flags(*f));
    }
    v
}

fn flaws_from_flags(v: &Vec<bool>) -> (f: BugFlaws)
    requires
        v@.len() == 8,
    ensures
        spec_flaw_flags(f) == v@,
{
    let f = BugFlaws {
        acid_leak: v[0],
        cracked_shell: v[1],
        sickness: v[2],
        neural_misfire: v[3],
        outcast: v[4],
        poor_eyesight: v[5],
        sensory_lag: v[6],
        sluggish: v[7],
    };
    proof {
        assert(spec_flaw_flags(f) =~= v@);
    }
    f
}

/// The class each species belongs to.
pub open spec fn spec_species_class(species: BugSpecies) -> BugClass {
    match species {
        BugSpecies::Snapper => BugClass::Charger,
        BugSpecies::Maw => BugClass::Pincer,
        BugSpecies::Noodle => BugClass::Spitter,
        BugSpecies::Priest => BugClass::Hivemind,
        BugSpecies::Skitter => BugClass::Swarmer,
        BugSpecies::Leaper => BugClass::Jumper,
        BugSpecies::Sporebelly => BugClass::Exploder,
        BugSpecies::Fleshcrawler => BugClass::Burrower,
        BugSpecies::Blinker => BugClass::Jumper,
        BugSpecies::Skulker => BugClass::Burrower,
        BugSpecies::Tornaut => BugClass::Tank,
        BugSpecies::Queen => BugClass::Hivemind,
    }
}

/// The tactics a species may open with; never empty.
pub open spec fn spec_tactic_options(species: BugSpecies) -> Seq<BugTactic> {
    match species {
        BugSpecies::Snapper => seq![
            BugTactic::Rushdown, BugTactic::Enrage, BugTactic::Flank, BugTactic::Protect,
        ],
        BugSpecies::Maw => seq![
            BugTactic::Flank, BugTactic::Ambush, BugTactic::Bait, BugTactic::Distract,
            BugTactic::HiveLink,
        ],
        BugSpecies::Noodle => seq![
            BugTactic::Adapt, BugTactic::Flank, BugTactic::HiveLink, BugTactic::Distract,
        ],
        BugSpecies::Priest => seq![
            BugTactic::HiveLink, BugTactic::Distract, BugTactic::Adapt, BugTactic::Bait,
            BugTactic::Protect,
        ],
        BugSpecies::Skitter => seq![
            BugTactic::Rushdown, BugTactic::Bait, BugTactic::Distract, BugTactic::HiveLink,
        ],
        BugSpecies::Leaper => seq![
            BugTactic::Ambush, BugTactic::Flank, BugTactic::Enrage, BugTactic::Distract,
            BugTactic::Adapt,
        ],
        BugSpecies::Sporebelly => seq![
            BugTactic::Rushdown, BugTactic::Enrage, BugTactic::Protect, BugTactic::Flank,
        ],
        BugSpecies::Fleshcrawler => seq![
            BugTactic::Ambush, BugTactic::Adapt, BugTactic::Bait, BugTactic::HiveLink,
            BugTactic::Flank,
        ],
        BugSpecies::Blinker => seq![
            BugTactic::Protect, BugTactic::Enrage, BugTactic::Ambush, BugTactic::Adapt,
            BugTactic::Flank,
        ],
        BugSpecies::Skulker => seq![BugTactic::Ambush, BugTactic::Flank, BugTactic::Bait],
        BugSpecies::Tornaut => seq![
            BugTactic::Rushdown, BugTactic::Enrage, BugTactic::Protect, BugTactic::HiveLink,
            BugTactic::Distract,
        ],
        BugSpecies::Queen => seq![
            BugTactic::Ambush, BugTactic::Rushdown, BugTactic::Flank, BugTactic::Protect,
            BugTactic::Bait, BugTactic::Adapt, BugTactic::Enrage, BugTactic::Distract,
            BugTactic::HiveLink,
        ],
    }
}

/// The trait a species always carries is present in `t` (species without
/// a fixed trait ask nothing).
pub open spec fn spec_has_species_trait(species: BugSpecies, t: BugTraits) -> bool {
    match species {
        BugSpecies::Snapper => t.armored,
        BugSpecies::Priest => t.psychic,
        BugSpecies::Skitter => t.hivelink,
        BugSpecies::Leaper => t.hivelink,
        BugSpecies::Sporebelly => t.explosive,
        BugSpecies::Blinker => t.camouflaged,
        BugSpecies::Tornaut => t.armored,
        _ => true,
    }
}

/// The trait some species always carry, written onto `t`.
pub open spec fn spec_with_species_trait(species: BugSpecies, t: BugTraits) -> BugTraits {
    match species {
        BugSpecies::Snapper => BugTraits { armored: true, ..t },
        BugSpecies::Priest => BugTraits { psychic: true, ..t },
        BugSpecies::Skitter => BugTraits { hivelink: true, ..t },
        BugSpecies::Leaper => BugTraits { hivelink: true, ..t },
        BugSpecies::Sporebelly => BugTraits { explosive: true, ..t },
        BugSpecies::Blinker => BugTraits { camouflaged: true, ..t },
        BugSpecies::Tornaut => BugTraits { armored: true, ..t },
        _ => t,
    }
}

/// Indices (into the trait flag order) a species can roll extra traits
/// from.
pub open spec fn spec_trait_pool(species: BugSpecies) -> Seq<usize> {
    match species {
        BugSpecies::Snapper => seq![7usize, 4, 5, 0],
        BugSpecies::Maw => seq![1usize, 7, 3, 5],
        BugSpecies::Noodle => seq![1usize, 6, 2, 7, 3],
        BugSpecies::Priest => seq![2usize, 1, 0, 3],
        BugSpecies::Skitter => seq![4usize, 0, 3],
        BugSpecies::Leaper => seq![2usize, 1, 3, 0, 7],
        BugSpecies::Sporebelly => seq![2usize, 5, 0],
        BugSpecies::Fleshcrawler => seq![3usize, 1, 0, 4, 6, 2],
        BugSpecies::Blinker => seq![7usize, 6, 1, 0],
        BugSpecies::Skulker => seq![2usize, 7, 5, 1],
        BugSpecies::Tornaut => seq![4usize, 3, 5, 0],
        BugSpecies::Queen => seq![2usize, 7, 6, 4, 3, 1, 0, 5],
    }
}

/// Indices (into the flaw flag order) a species can roll flaws from.
pub open spec fn spec_flaw_pool(species: BugSpecies) -> Seq<usize> {
    match species {
        BugSpecies::Snapper => seq![0usize, 6, 4, 7],
        BugSpecies::Maw => seq![1usize, 3, 2, 5],
        BugSpecies::Noodle => seq![5usize, 1, 0, 6, 3],
        BugSpecies::Priest => seq![4usize, 7, 3],
        BugSpecies::Skitter => seq![1usize, 0, 6, 7],
        BugSpecies::Leaper => seq![7usize, 5, 3, 2],
        BugSpecies::Sporebelly => seq![0usize, 1, 7, 3],
        BugSpecies::Fleshcrawler => seq![5usize, 4, 2, 1, 0],
        BugSpecies::Blinker => seq![5usize, 0, 4, 2, 3],
        BugSpecies::Skulker => seq![0usize, 6, 1],
        BugSpecies::Tornaut => seq![5usize, 3, 7, 1],
        BugSpecies::Queen => seq![6usize, 5],
    }
}

/// The base stat block per species, before traits and flaws.
pub open spec fn spec_base_stats(species: BugSpecies) -> BugStats {
    match species {
        BugSpecies::Snapper => BugStats {
            hp: 105, ap: 10, damage: 14, accuracy: 1_000_000, agility: 400_000,
        },
        BugSpecies::Maw => BugStats {
            hp: 170, ap: 32, damage: 25, accuracy: 1_000_000, agility: 400_000,
        },
        BugSpecies::Noodle => BugStats {
            hp: 125, ap: 20, damage: 25, accuracy: 1_000_000, agility: 700_000,
        },
        BugSpecies::Priest => BugStats {
            hp: 150, ap: 40, damage: 15, accuracy: 1_000_000, agility: 500_000,
        },
        BugSpecies::Skitter => BugStats {
            hp: 90, ap: 10, damage: 10, accuracy: 1_000_000, agility: 700_000,
        },
        BugSpecies::Leaper => BugStats {
            hp: 140, ap: 30, damage: 25, accuracy: 1_000_000, agility: 800_000,
        },
        BugSpecies::Sporebelly => BugStats {
            hp: 105, ap: 15, damage: 7, accuracy: 1_000_000, agility: 200_000,
        },
        BugSpecies::Fleshcrawler => BugStats {
            hp: 130, ap: 27, damage: 20, accuracy: 1_000_000, agility: 600_000,
        },
        BugSpecies::Blinker => BugStats {
            hp: 140, ap: 30, damage: 25, accuracy: 1_000_000, agility: 900_000,
        },
        BugSpecies::Skulker => BugStats {
            hp: 130, ap: 27, damage: 20, accuracy: 1_000_000, agility: 600_000,
        },
        BugSpecies::Tornaut => BugStats {
            hp: 250, ap: 50, damage: 30, accuracy: 1_000_000, agility: 100_000,
        },
        BugSpecies::Queen => BugStats {
            hp: 280, ap: 50, damage: 60, accuracy: 1_000_000, agility: 300_000,
        },
    }
}

/// A conditional boost: `v + d` when `cond` holds, else `v` unchanged.
pub open spec fn spec_add_if(cond: bool, v: int, d: int) -> int {
    if cond { v + d } else { v }
}

/// A conditional penalty, floored at zero.
pub open spec fn spec_sub_if(cond: bool, v: int, d: int) -> int {
    if cond { spec_sub0(v, d) } else { v }
}

fn add_if(cond: bool, v: u32, d: u32) -> (r: u32)
    requires
        v + d <= u32::MAX,
    ensures
        r == spec_add_if(cond, v as int, d as int),
{
    if cond { v + d } else { v }
}

fn sub_if(cond: bool, v: u32, d: u32) -> (r: u32)
    ensures
        r == spec_sub_if(cond, v as int, d as int),
{
    if cond { v.safe_sub(d) } else { v }
}

/// Every boost, penalty, clamp and rounding a bug's stat block goes
/// through once its traits and flaws are known, in order.
pub open spec fn spec_modified_stats(s: BugStats, t: BugTraits, f: BugFlaws) -> BugStats {
    let hp0 = s.hp as int;
    let ap0 = s.ap as int;
    let dm0 = s.damage as int;
    let acc0 = s.accuracy as int;
    let ag0 = s.agility as int;

    let ap1 = spec_add_if(t.armored, ap0, 20);
    let ag1 = spec_add_if(t.adaptive, ag0, 100_000);
    let dm1 = spec_add_if(t.explosive, dm0, 50);
    let hp1 = spec_sub_if(t.explosive, hp0, 10);
    let ap2 = spec_sub_if(t.explosive, ap1, 5);
    let ag2 = if t.camouflaged { 1_000_000int } else { ag1 };
    let hp2 = spec_sub_if(t.camouflaged, hp1, 10);
    let ap3 = spec_sub_if(t.camouflaged, ap2, 10);
    let hp3 = spec_add_if(t.hivelink, hp2, 10);
    let dm2 = spec_add_if(t.psychic, dm1, 10);
    let hp4 = spec_add_if(t.regenerative, hp3, 10);

    let hp5 = spec_sub_if(f.acid_leak, hp4, 10);
    let ap4 = spec_sub_if(f.cracked_shell, ap3, 10);
    let ag3 = spec_sub_if(f.sluggish, ag2, 300_000);
    let hp6 = spec_sub_if(f.sickness, hp5, 20);
    let ap5 = spec_sub_if(f.sickness, ap4, 5);
    let dm3 = spec_sub_if(f.sickness, dm2, 10);
    let acc1 = spec_sub_if(f.poor_eyesight, acc0, 300_000);
    let dm4 = spec_sub_if(f.poor_eyesight, dm3, 5);
    let ap6 = spec_sub_if(f.outcast, ap5, 10);

    BugStats {
        hp: spec_clamp(hp6, 10, 300) as u32,
        ap: spec_clamp(ap6, 0, 100) as u32,
        damage: spec_clamp(dm4, 5, 100) as u32,
        accuracy: spec_round_centi(spec_clamp(acc1, 100_000, 1_000_000)) as u32,
        agility: spec_round_centi(spec_clamp(ag3, 100_000, 1_000_000)) as u32,
    }
}

/// Armor soaks the hit while it lasts; whatever leaves the armor at zero
/// lets the health damage through, floored at zero.
pub open spec fn spec_ap_after(ap: int, ap_dmg: int) -> int {
    if ap > 0 {
        spec_sub0(ap, ap_dmg)
    } else {
        ap
    }
}

pub open spec fn spec_hp_after(hp: int, ap: int, hp_dmg: int, ap_dmg: int) -> int {
    if spec_ap_after(ap, ap_dmg) == 0 {
        spec_sub0(hp, hp_dmg)
    } else {
        hp
    }
}

#[derive(Debug, Copy, Clone)]
pub struct Bug {
    pub species: BugSpecies,
    pub name: &'static str,
    pub family: &'static str,
    pub class: BugClass,
    pub tactic: BugTactic,
    pub traits: BugTraits,
    pub flaws: BugFlaws,
    pub stats: BugStats,
}

impl Bug {
    /// A bug rolled from its species: fixed class and lore, a tactic from
    /// the species list, rolled traits and flaws, and the stat block they
    /// produce.
    pub fn new(species: BugSpecies, rng: &mut rand::rngs::SmallRng) -> (b: Bug)
        ensures
            b.species == species,
            b.class == spec_species_class(species),
            spec_tactic_options(species).contains(b.tactic),
            spec_has_species_trait(species, b.traits),
            b.stats == spec_modified_stats(spec_base_stats(species), b.traits, b.flaws),
    {
        let (class, name, family) = Self::get_species_info(species);
        let tactic = Self::determine_tactic(species, rng);
        let traits = Self::determine_traits(species, rng);
        let flaws = Self::determine_flaws(species, rng);
        let stats = Self::get_stats(species, &traits, &flaws);
        Bug { species, name, family, class, tactic, traits, flaws, stats }
    }

    /// A bug with the stat block given directly; the narrow interface the
    /// engagement loop and its callers actually need.
    pub fn from_stats(hp: u32, ap: u32, damage: u32, accuracy: u32, agility: u32) -> (b: Bug)
        ensures
            b.stats == (BugStats { hp, ap, damage, accuracy, agility }),
    {
        Bug {
            species: BugSpecies::Skitter,
            name: "Zunari ulithra",
            family: "Zunari",
            class: BugClass::Swarmer,
            tactic: BugTactic::Rushdown,
            traits: BugTraits {
                acidic: false,
                adaptive: false,
                armored: false,
                camouflaged: false,
                explosive: false,
                hivelink: false,
                psychic: false,
                regenerative: false,
            },
            flaws: BugFlaws {
                acid_leak: false,
                cracked_shell: false,
                sickness: false,
                neural_misfire: false,
                outcast: false,
                poor_eyesight: false,
                sensory_lag: false,
                sluggish: false,
            },
            stats: BugStats { hp, ap, damage, accuracy, agility },
        }
    }

    /// Class and lore strings per species.
    pub fn get_species_info(species: BugSpecies) -> (info: (BugClass, &'static str, &'static str))
        ensures
            info.0 == spec_species_class(species),
    {
        match species {
            BugSpecies::Snapper => (BugClass::Charger, "Tharnyx brutus", "Tharnyx"),
            BugSpecies::Maw => (BugClass::Pincer, "Tharnyx dagkitra", "Tharnyx"),
            BugSpecies::Noodle => (BugClass::Spitter, "Varnith ludfliq", "Varnith"),
            BugSpecies::Priest => (BugClass::Hivemind, "Varnith prexis", "Varnith"),
            BugSpecies::Skitter => (BugClass::Swarmer, "Zunari ulithra", "Zunari"),
            BugSpecies::Leaper => (BugClass::Jumper, "Zunari hummari", "Zunari"),
            BugSpecies::Sporebelly => (BugClass::Exploder, "Skolexid mukora", "Skolexid"),
            BugSpecies::Fleshcrawler => (BugClass::Burrower, "Skolexid gorex", "Skolexid"),
            BugSpecies::Blinker => (BugClass::Jumper, "Xethari veletrex", "Xethari"),
            BugSpecies::Skulker => (BugClass::Burrower, "Xethari vitrinar", "Xethari"),
            BugSpecies::Tornaut => (BugClass::Tank, "Tharnyx magna", "Tharnyx"),
            BugSpecies::Queen => (BugClass::Hivemind, "Xethari regina", "Xethari"),
        }
    }

    fn tactic_options(species: BugSpecies) -> (v: Vec<BugTactic>)
        ensures
            v@ == spec_tactic_options(species),
            v@.len() >= 1,
    {
        let mut v: Vec<BugTactic> = Vec::new();
        match species {
            BugSpecies::Snapper => {
                v.push(BugTactic::Rushdown);
                v.push(BugTactic::Enrage);
                v.push(BugTactic::Flank);
                v.push(BugTactic::Protect);
            },
            BugSpecies::Maw => {
                v.push(BugTactic::Flank);
                v.push(BugTactic::Ambush);
                v.push(BugTactic::Bait);
                v.push(BugTactic::Distract);
                v.push(BugTactic::HiveLink);
            },
            BugSpecies::Noodle => {
                v.push(BugTactic::Adapt);
                v.push(BugTactic::Flank);
                v.push(BugTactic::HiveLink);
                v.push(BugTactic::Distract);
            },
            BugSpecies::Priest => {
                v.push(BugTactic::HiveLink);
                v.push(BugTactic::Distract);
                v.push(BugTactic::Adapt);
                v.push(BugTactic::Bait);
                v.push(BugTactic::Protect);
            },
            BugSpecies::Skitter => {
                v.push(BugTactic::Rushdown);
                v.push(BugTactic::Bait);
                v.push(BugTactic::Distract);
                v.push(BugTactic::HiveLink);
            },
            BugSpecies::Leaper => {
                v.push(BugTactic::Ambush);
                v.push(BugTactic::Flank);
                v.push(BugTactic::Enrage);
                v.push(BugTactic::Distract);
                v.push(BugTactic::Adapt);
            },
            BugSpecies::Sporebelly => {
                v.push(BugTactic::Rushdown);
                v.push(BugTactic::Enrage);
                v.push(BugTactic::Protect);
                v.push(BugTactic::Flank);
            },
            BugSpecies::Fleshcrawler => {
                v.push(BugTactic::Ambush);
                v.push(BugTactic::Adapt);
                v.push(BugTactic::Bait);
                v.push(BugTactic::HiveLink);
                v.push(BugTactic::Flank);
            },
            BugSpecies::Blinker => {
                v.push(BugTactic::Protect);
                v.push(BugTactic::Enrage);
                v.push(BugTactic::Ambush);
                v.push(BugTactic::Adapt);
                v.push(BugTactic::Flank);
            },
            BugSpecies::Skulker => {
                v.push(BugTactic::Ambush);
                v.push(BugTactic::Flank);
                v.push(BugTactic::Bait);
            },
            BugSpecies::Tornaut => {
                v.push(BugTactic::Rushdown);
                v.push(BugTactic::Enrage);
                v.push(BugTactic::Protect);
                v.push(BugTactic::HiveLink);
                v.push(BugTactic::Distract);
            },
            BugSpecies::Queen => {
                v.push(BugTactic::Ambush);
                v.push(BugTactic::Rushdown);
                v.push(BugTactic::Flank);
                v.push(BugTactic::Protect);
                v.push(BugTactic::Bait);
                v.push(BugTactic::Adapt);
                v.push(BugTactic::Enrage);
                v.push(BugTactic::Distract);
                v.push(BugTactic::HiveLink);
            },
        }
        proof {
            assert(v@ =~= spec_tactic_options(species));
        }
        v
    }

    /// One tactic from the species' list, uniformly drawn.
    pub fn determine_tactic(species: BugSpecies, rng: &mut rand::rngs::SmallRng) -> (t: BugTactic)
        ensures
            spec_tactic_options(species).contains(t),
    {
        let options = Self::tactic_options(species);
        let i = rand_below(rng, options.len());
        options[i]
    }

    /// Writes the trait this species always carries, if any.
    pub fn get_species_trait(species: BugSpecies, traits: &mut BugTraits)
        ensures
            *final(traits) == spec_with_species_trait(species, *old(traits)),
    {
        match species {
            BugSpecies::Snapper => traits.armored = true,
            BugSpecies::Priest => traits.psychic = true,
            BugSpecies::Skitter => traits.hivelink = true,
            BugSpecies::Leaper => traits.hivelink = true,
            BugSpecies::Sporebelly => traits.explosive = true,
            BugSpecies::Blinker => traits.camouflaged = true,
            BugSpecies::Tornaut => traits.armored = true,
            _ => {},
        }
    }

    fn get_species_trait_pool(species: BugSpecies) -> (v: Vec<usize>)
        ensures
            v@ == spec_trait_pool(species),
            forall|i: int| 0 <= i < v@.len() ==> v@[i] < 8,
    {
        let mut v: Vec<usize> = Vec::new();
        match species {
            BugSpecies::Snapper => {
                v.push(7);
                v.push(4);
                v.push(5);
                v.push(0);
            },
            BugSpecies::Maw => {
                v.push(1);
                v.push(7);
                v.push(3);
                v.push(5);
            },
            BugSpecies::Noodle => {
                v.push(1);
                v.push(6);
                v.push(2);
                v.push(7);
                v.push(3);
            },
            BugSpecies::Priest => {
                v.push(2);
                v.push(1);
                v.push(0);
                v.push(3);
            },
            BugSpecies::Skitter => {
                v.push(4);
                v.push(0);
                v.push(3);
            },
            BugSpecies::Leaper => {
                v.push(2);
                v.push(1);
                v.push(3);
                v.push(0);
                v.push(7);
            },
            BugSpecies::Sporebelly => {
                v.push(2);
                v.push(5);
                v.push(0);
            },
            BugSpecies::Fleshcrawler => {
                v.push(3);
                v.push(1);
                v.push(0);
                v.push(4);
                v.push(6);
                v.push(2);
            },
            BugSpecies::Blinker => {
                v.push(7);
                v.push(6);
                v.push(1);
                v.push(0);
            },
            BugSpecies::Skulker => {
                v.push(2);
                v.push(7);
                v.push(5);
                v.push(1);
            },
            BugSpecies::Tornaut => {
                v.push(4);
                v.push(3);
                v.push(5);
                v.push(0);
            },
            BugSpecies::Queen => {
                v.push(2);
                v.push(7);
                v.push(6);
                v.push(4);
                v.push(3);
                v.push(1);
                v.push(0);
                v.push(5);
            },
        }
        proof {
            assert(v@ =~= spec_trait_pool(species));
        }
        v
    }

    /// Rolls up to two extra traits from the species pool on top of the
    /// species' fixed trait, which always survives the roll.
    pub fn determine_traits(species: BugSpecies, rng: &mut rand::rngs::SmallRng) -> (t: BugTraits)
        ensures
            spec_has_species_trait(species, t),
    {
        let mut traits = BugTraits {
            acidic: false,
            adaptive: false,
            armored: false,
            camouflaged: false,
            explosive: false,
            hivelink: false,
            psychic: false,
            regenerative: false,
        };
        Self::get_species_trait(species, &mut traits);
        let mut flags = trait_flags(&traits);
        let mut pool = Self::get_species_trait_pool(species);
        RandBools::roll_bools(rng, &mut flags, &mut pool, 2, 500_000, true);
        traits_from_flags(&flags)
    }

    fn get_species_flaw_pool(species: BugSpecies) -> (v: Vec<usize>)
        ensures
            v@ == spec_flaw_pool(species),
            forall|i: int| 0 <= i < v@.len() ==> v@[i] < 8,
    {
        let mut v: Vec<usize> = Vec::new();
        match species {
            BugSpecies::Snapper => {
                v.push(0);
                v.push(6);
                v.push(4);
                v.push(7);
            },
            BugSpecies::Maw => {
                v.push(1);
                v.push(3);
                v.push(2);
                v.push(5);
            },
            BugSpecies::Noodle => {
                v.push(5);
                v.push(1);
                v.push(0);
                v.push(6);
                v.push(3);
            },
            BugSpecies::Priest => {
                v.push(4);
                v.push(7);
                v.push(3);
            },
            BugSpecies::Skitter => {
                v.push(1);
                v.push(0);
                v.push(6);
                v.push(7);
            },
            BugSpecies::Leaper => {
                v.push(7);
                v.push(5);
                v.push(3);
                v.push(2);
            },
            BugSpecies::Sporebelly => {
                v.push(0);
                v.push(1);
                v.push(7);
                v.push(3);
            },
            BugSpecies::Fleshcrawler => {
                v.push(5);
                v.push(4);
                v.push(2);
                v.push(1);
                v.push(0);
            },
            BugSpecies::Blinker => {
                v.push(5);
                v.push(0);
                v.push(4);
                v.push(2);
                v.push(3);
            },
            BugSpecies::Skulker => {
                v.push(0);
                v.push(6);
                v.push(1);
            },
            BugSpecies::Tornaut => {
                v.push(5);
                v.push(3);
                v.push(7);
                v.push(1);
            },
            BugSpecies::Queen => {
                v.push(6);
                v.push(5);
            },
        }
        proof {
            assert(v@ =~= spec_flaw_pool(species));
        }
        v
    }

    /// Sometimes rolls up to three flaws from the species pool; often rolls
    /// none at all.
    pub fn determine_flaws(species: BugSpecies, rng: &mut rand::rngs::SmallRng) -> (f: BugFlaws) {
        let mut flags = flaw_flags(&BugFlaws {
            acid_leak: false,
            cracked_shell: false,
            sickness: false,
            neural_misfire: false,
            outcast: false,
            poor_eyesight: false,
            sensory_lag: false,
            sluggish: false,
        });
        let mut pool = Self::get_species_flaw_pool(species);
        RandBools::maybe_roll_bools(rng, &mut flags, &mut pool, 3, 500_000, false, 400_000);
        flaws_from_flags(&flags)
    }

    pub fn get_base_stats(species: BugSpecies) -> (s: BugStats)
        ensures
            s == spec_base_stats(species),
    {
        match species {
            BugSpecies::Snapper => BugStats::new(105, 10, 14, 1_000_000, 400_000),
            BugSpecies::Maw => BugStats::new(170, 32, 25, 1_000_000, 400_000),
            BugSpecies::Noodle => BugStats::new(125, 20, 25, 1_000_000, 700_000),
            BugSpecies::Priest => BugStats::new(150, 40, 15, 1_000_000, 500_000),
            BugSpecies::Skitter => BugStats::new(90, 10, 10, 1_000_000, 700_000),
            BugSpecies::Leaper => BugStats::new(140, 30, 25, 1_000_000, 800_000),
            BugSpecies::Sporebelly => BugStats::new(105, 15, 7, 1_000_000, 200_000),
            BugSpecies::Fleshcrawler => BugStats::new(130, 27, 20, 1_000_000, 600_000),
            BugSpecies::Blinker => BugStats::new(140, 30, 25, 1_000_000, 900_000),
            BugSpecies::Skulker => BugStats::new(130, 27, 20, 1_000_000, 600_000),
            BugSpecies::Tornaut => BugStats::new(250, 50, 30, 1_000_000, 100_000),
            BugSpecies::Queen => BugStats::new(280, 50, 60, 1_000_000, 300_000),
        }
    }

    /// Applies every trait boost and flaw penalty, then the stat clamps and
    /// the rounding to hundredths, exactly as `spec_modified_stats` states.
    #[verifier::rlimit(100)]
    pub fn apply_modifiers(stats: &BugStats, traits: &BugTraits, flaws: &BugFlaws) -> (s: BugStats)
        requires
            stats.hp <= 100_000,
            stats.ap <= 100_000,
            stats.damage <= 100_000,
            stats.accuracy <= 3_000_000,
            stats.agility <= 3_000_000,
        ensures
            s == spec_modified_stats(*stats, *traits, *flaws),
    {
        let mut hp: u32 = stats.hp;
        let mut ap: u32 = stats.ap;
        let mut damage: u32 = stats.damage;
        let mut accuracy: u32 = stats.accuracy;
        let mut agility: u32 = stats.agility;

        ap = add_if(traits.armored, ap, 20);
        agility = add_if(traits.adaptive, agility, 100_000);
        damage = add_if(traits.explosive, damage, 50);
        hp = sub_if(traits.explosive, hp, 10);
        ap = sub_if(traits.explosive, ap, 5);
        if traits.camouflaged {
            agility = 1_000_000;
        }
        hp = sub_if(traits.camouflaged, hp, 10);
        ap = sub_if(traits.camouflaged, ap, 10);
        hp = add_if(traits.hivelink, hp, 10);
        damage = add_if(traits.psychic, damage, 10);
        hp = add_if(traits.regenerative, hp, 10);

        hp = sub_if(flaws.acid_leak, hp, 10);
        ap = sub_if(flaws.cracked_shell, ap, 10);
        agility = sub_if(flaws.sluggish, agility, 300_000);
        hp = sub_if(flaws.sickness, hp, 20);
        ap = sub_if(flaws.sickness, ap, 5);
        damage = sub_if(flaws.sickness, damage, 10);
        accuracy = sub_if(flaws.poor_eyesight, accuracy, 300_000);
        damage = sub_if(flaws.poor_eyesight, damage, 5);
        ap = sub_if(flaws.outcast, ap, 10);

        hp = clamp_u32(hp, 10, 300);
        ap = clamp_u32(ap, 0, 100);
        damage = clamp_u32(damage, 5, 100);
        accuracy = round_centi(clamp_u32(accuracy, 100_000, 1_000_000));
        agility = round_centi(clamp_u32(agility, 100_000, 1_000_000));

        BugStats { hp, ap, damage, accuracy, agility }
    }

    pub fn get_stats(species: BugSpecies, traits: &BugTraits, flaws: &BugFlaws) -> (s: BugStats)
        ensures
            s == spec_modified_stats(spec_base_stats(species), *traits, *flaws),
    {
        let base = Self::get_base_stats(species);
        Self::apply_modifiers(&base, traits, flaws)
    }

    pub fn hp(&self) -> (hp: u32)
        ensures
            hp == self.stats.hp,
    {
        self.stats.hp
    }

    pub fn ap(&self) -> (ap: u32)
        ensures
            ap == self.stats.ap,
    {
        self.stats.ap
    }

    pub fn accuracy(&self) -> (acc: u32)
        ensures
            acc == self.stats.accuracy,
    {
        self.stats.accuracy
    }

    pub fn agility(&self) -> (ag: u32)
        ensures
            ag == self.stats.agility,
    {
        self.stats.agility
    }

    /// A bug's single damage stat drives all three attack components.
    pub fn damage(&self) -> (d: (u32, u32, u32))
        ensures
            d == (self.stats.damage, self.stats.damage, self.stats.damage),
    {
        (self.stats.damage, self.stats.damage, self.stats.damage)
    }

    pub fn is_alive(&self) -> (alive: bool)
        ensures
            alive == (self.stats.hp > 0),
    {
        self.stats.hp > 0
    }

    /// Armor-then-health: armor soaks the hit while it lasts, and once it
    /// is gone (including by this very hit) health takes the health damage.
    /// The generic component is recorded nowhere; only the targeted pools
    /// move.
    pub fn take_damage(&mut self, dmg: u32, hp_dmg: u32, ap_dmg: u32)
        ensures
            final(self).stats.ap == spec_ap_after(old(self).stats.ap as int, ap_dmg as int),
            final(self).stats.hp == spec_hp_after(
                old(self).stats.hp as int,
                old(self).stats.ap as int,
                hp_dmg as int,
                ap_dmg as int,
            ),
            final(self).stats.damage == old(self).stats.damage,
            final(self).stats.accuracy == old(self).stats.accuracy,
            final(self).stats.agility == old(self).stats.agility,
            final(self).species == old(self).species,
            final(self).name == old(self).name,
            final(self).family == old(self).family,
            final(self).class == old(self).class,
            final(self).tactic == old(self).tactic,
            final(self).traits == old(self).traits,
            final(self).flaws == old(self).flaws,
    {
        let _ = dmg;
        if self.stats.ap != 0 {
            self.stats.ap = self.stats.ap.safe_sub(ap_dmg);
        }
        if self.stats.ap == 0 {
            self.stats.hp = self.stats.hp.safe_sub(hp_dmg);
        }
    }
}

pub struct Broodmother;

impl Broodmother {
    pub fn new() -> Broodmother {
        Broodmother
    }

    /// A wave of `count` bugs of uniformly drawn species.
    pub fn spawn_test_wave(&self, count: usize, rng: &mut rand::rngs::SmallRng) -> (wave: Vec<
        Bug,
    >)
        ensures
            wave@.len() == count,
            forall|i: int|
                0 <= i < wave@.len() ==> (#[trigger] wave@[i]).stats == spec_modified_stats(
                    spec_base_stats(wave@[i].species),
                    wave@[i].traits,
                    wave@[i].flaws,
                ),
    {
        let species_pool: [BugSpecies; 12] = [
            BugSpecies::Snapper,
            BugSpecies::Maw,
            BugSpecies::Noodle,
            BugSpecies::Priest,
            BugSpecies::Skitter,
            BugSpecies::Leaper,
            BugSpecies::Sporebelly,
            BugSpecies::Fleshcrawler,
            BugSpecies::Blinker,
            BugSpecies::Skulker,
            BugSpecies::Tornaut,
            BugSpecies::Queen,
        ];
        let mut wave: Vec<Bug> = Vec::new();
        let mut i: usize = 0;
        while i < count
            invariant
                i <= count,
                wave@.len() == i,
                forall|j: int|
                    0 <= j < wave@.len() ==> (#[trigger] wave@[j]).stats == spec_modified_stats(
                        spec_base_stats(wave@[j].species),
                        wave@[j].traits,
                        wave@[j].flaws,
                    ),
            decreases count - i,
        {
            let s = rand_below(rng, 12);
            let bug = Bug::new(species_pool[s], rng);
            wave.push(bug);
            i = i + 1;
        }
        wave
    }

    /// Forwards a resolved attack's damage onto one bug.
    pub fn bug_attacked(&self, bug: &mut Bug, dmg: u32, hp_dmg: u32, ap_dmg: u32)
        ensures
            final(bug).stats.ap == spec_ap_after(old(bug).stats.ap as int, ap_dmg as int),
            final(bug).stats.hp == spec_hp_after(
                old(bug).stats.hp as int,
                old(bug).stats.ap as int,
                hp_dmg as int,
                ap_dmg as int,
            ),
            final(bug).stats.damage == old(bug).stats.damage,
            final(bug).stats.accuracy == old(bug).stats.accuracy,
            final(bug).stats.agility == old(bug).stats.agility,
            final(bug).species == old(bug).species,
            final(bug).name == old(bug).name,
            final(bug).family == old(bug).family,
            final(bug).class == old(bug).class,
            final(bug).tactic == old(bug).tactic,
            final(bug).traits == old(bug).traits,
            final(bug).flaws == old(bug).flaws,
    {
        bug.take_damage(dmg, hp_dmg, ap_dmg);
    }

    /// Scales every bug's damage stat by a ppm factor, rounded to the
    /// nearest point.
    pub fn rebalance_wave(&self, wave: &mut Vec<Bug>, dmg_factor: u32)
        ensures
            final(wave)@.len() == old(wave)@.len(),
            forall|i: int|
                0 <= i < old(wave)@.len() ==> (#[trigger] final(wave)@[i]).stats.damage
                    == spec_scale_round(old(wave)@[i].stats.damage as int, dmg_factor as int)
                    && final(wave)@[i].stats.hp == old(wave)@[i].stats.hp
                    && final(wave)@[i].stats.ap == old(wave)@[i].stats.ap
                    && final(wave)@[i].stats.accuracy == old(wave)@[i].stats.accuracy
                    && final(wave)@[i].stats.agility == old(wave)@[i].stats.agility
                    && final(wave)@[i].species == old(wave)@[i].species
                    && final(wave)@[i].name == old(wave)@[i].name
                    && final(wave)@[i].family == old(wave)@[i].family
                    && final(wave)@[i].class == old(wave)@[i].class
                    && final(wave)@[i].tactic == old(wave)@[i].tactic
                    && final(wave)@[i].traits == old(wave)@[i].traits
                    && final(wave)@[i].flaws == old(wave)@[i].flaws,
    {
        let ghost wave0 = old(wave)@;
        let n = wave.len();
        let mut i: usize = 0;
        while i < n
            invariant
                i <= n,
                wave@.len() == n,
                wave0.len() == n,
                forall|j: int| i <= j < n ==> wave@[j] == wave0[j],
                forall|j: int|
                    0 <= j < i ==> (#[trigger] wave@[j]).stats.damage == spec_scale_round(
                        wave0[j].stats.damage as int,
                        dmg_factor as int,
                    ) && wave@[j].stats.hp == wave0[j].stats.hp && wave@[j].stats.ap == wave0[
                        j
                    ].stats.ap && wave@[j].stats.accuracy == wave0[j].stats.accuracy
                        && wave@[j].stats.agility == wave0[j].stats.agility
                        && wave@[j].species == wave0[j].species
                        && wave@[j].name == wave0[j].name
                        && wave@[j].family == wave0[j].family
                        && wave@[j].class == wave0[j].class
                        && wave@[j].tactic == wave0[j].tactic
                        && wave@[j].traits == wave0[j].traits
                        && wave@[j].flaws == wave0[j].flaws,
            decreases n - i,
        {
            let mut bug = wave[i];
            bug.stats.damage = scale_round(bug.stats.damage, dmg_factor);
            wave.set(i, bug);
            i = i + 1;
        }
    }
}

} // verus!
