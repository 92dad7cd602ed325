use rand::rngs::SmallRng;
use rand::SeedableRng;

use swarmsim::bugs::{Broodmother, Bug, BugClass, BugFlaws, BugSpecies, BugStats, BugTraits};
use swarmsim::debug::{Log, Message, MessageType};
use swarmsim::hive::{Cartographer, ChamberType, ChamberWeight};
use swarmsim::troopers::{ClassPerk, Trooper, TrooperClass, TrooperFlaws, TrooperStats,
    TrooperTraits, WeaponProfile};
use swarmsim::utils::{dec_string, RandBools, RngHub, SafeSub};

fn rng(seed: u64) -> SmallRng {
    SmallRng::seed_from_u64(seed)
}

fn no_bug_traits() -> BugTraits {
    BugTraits {
        acidic: false,
        adaptive: false,
        armored: false,
        camouflaged: false,
        explosive: false,
        hivelink: false,
        psychic: false,
        regenerative: false,
    }
}

fn no_bug_flaws() -> BugFlaws {
    BugFlaws {
        acid_leak: false,
        cracked_shell: false,
        sickness: false,
        neural_misfire: false,
        outcast: false,
        poor_eyesight: false,
        sensory_lag: false,
        sluggish: false,
    }
}

fn no_trooper_traits() -> TrooperTraits {
    TrooperTraits {
        steadfast: false,
        adrenal_surge: false,
        quickdraw: false,
        hardy: false,
        mechanic: false,
        lucky: false,
        second_wind: false,
        sharpshooter: false,
        stubborn: false,
        battle_medic: false,
        fast_reflexes: false,
    }
}

fn no_trooper_flaws() -> TrooperFlaws {
    TrooperFlaws {
        old_wounds: false,
        ammo_glutton: false,
        jittery: false,
        acid_phobia: false,
        nervous_trigger: false,
        clumsy: false,
        loudmouth: false,
        fragile_armor: false,
        slow_recovery: false,
        tunnel_vision: false,
        glass_jaw: false,
    }
}

#[test]
fn safe_sub_floors_at_zero() {
    assert_eq!(5u32.safe_sub(3), 2);
    assert_eq!(3u32.safe_sub(5), 0);
    assert_eq!(0u32.safe_sub(0), 0);
}

#[test]
fn rand_bool_respects_the_extremes() {
    let mut r = rng(5);
    for _ in 0..100 {
        assert!(!RandBools::rand_bool(&mut r, 0));
        assert!(RandBools::rand_bool(&mut r, 1_000_000));
    }
}

#[test]
fn roll_bools_raises_only_pooled_flags() {
    let mut r = rng(6);
    let mut flags = vec![false; 5];
    let mut pool = vec![1usize, 3];
    RandBools::roll_bools(&mut r, &mut flags, &mut pool, 2, 1_000_000, false);
    assert_eq!(flags, vec![false, true, false, true, false]);
}

#[test]
fn roll_bools_guarantees_one_even_at_zero_probability() {
    let mut r = rng(8);
    let mut flags = vec![false; 6];
    let mut pool = vec![0usize, 1, 2, 3, 4, 5];
    RandBools::roll_bools(&mut r, &mut flags, &mut pool, 1, 0, true);
    assert_eq!(flags.iter().filter(|f| **f).count(), 1);
}

#[test]
fn roll_bools_without_guarantee_can_stay_silent() {
    let mut r = rng(8);
    let mut flags = vec![false; 6];
    let mut pool = vec![0usize, 1, 2, 3, 4, 5];
    RandBools::roll_bools(&mut r, &mut flags, &mut pool, 3, 0, false);
    assert_eq!(flags.iter().filter(|f| **f).count(), 0);
}

#[test]
fn maybe_roll_bools_respects_the_gate() {
    let mut r = rng(9);
    let mut flags = vec![false; 4];
    let mut pool = vec![0usize, 1, 2, 3];
    RandBools::maybe_roll_bools(&mut r, &mut flags, &mut pool, 2, 1_000_000, true, 0);
    assert_eq!(flags.iter().filter(|f| **f).count(), 0);
}

#[test]
fn dec_string_renders_decimal() {
    assert_eq!(dec_string(0), "0");
    assert_eq!(dec_string(7), "7");
    assert_eq!(dec_string(12345), "12345");
    assert_eq!(dec_string(u64::MAX), "18446744073709551615");
}

#[test]
fn rng_hub_keeps_a_given_seed_and_logs_it() {
    let hub = RngHub::new(Some(42));
    assert_eq!(hub.master_seed, 42);
    let mut log = Log::new();
    hub.log_master_seed(&mut log);
    assert_eq!(log.messages.len(), 1);
    assert_eq!(log.messages[0].content, "MASTER SEED: 42");
    assert!(matches!(log.messages[0].mtype, MessageType::Debug));
}

#[test]
fn message_levels_parse_case_insensitively() {
    assert!(matches!(MessageType::from_str("info"), MessageType::Info));
    assert!(matches!(MessageType::from_str("INFO"), MessageType::Info));
    assert!(matches!(MessageType::from_str("note"), MessageType::Note));
    assert!(matches!(MessageType::from_str("Debug"), MessageType::Debug));
    assert!(matches!(MessageType::from_str("warn"), MessageType::Warn));
    assert!(matches!(MessageType::from_str("Error"), MessageType::Error));
    assert!(matches!(MessageType::from_str("bogus"), MessageType::Info));
    assert!(matches!(MessageType::from_str(""), MessageType::Info));
}

#[test]
fn log_appends_and_clears() {
    let mut log = Log::new();
    assert_eq!(log.messages.len(), 0);
    log.add(MessageType::Info, String::from("first"), false);
    log.add(MessageType::Warn, String::from("second"), true);
    assert_eq!(log.messages.len(), 2);
    assert_eq!(log.messages[0].content, "first");
    assert_eq!(log.messages[1].content, "second");
    assert!(log.messages[1].line_break);
    log.clear();
    assert_eq!(log.messages.len(), 0);
    let m = Message::new(MessageType::Note, String::from("x"), true);
    assert_eq!(m.content, "x");
}

#[test]
fn bug_base_stats_match_the_species_table() {
    let s = Bug::get_base_stats(BugSpecies::Snapper);
    assert_eq!(s, BugStats::new(105, 10, 14, 1_000_000, 400_000));
    let q = Bug::get_base_stats(BugSpecies::Queen);
    assert_eq!(q, BugStats::new(280, 50, 60, 1_000_000, 300_000));
    let t = Bug::get_base_stats(BugSpecies::Tornaut);
    assert_eq!(t.hp, 250);
    assert_eq!(t.agility, 100_000);
}

#[test]
fn bug_modifiers_boost_and_clamp() {
    let base = Bug::get_base_stats(BugSpecies::Snapper);
    let armored = BugTraits { armored: true, ..no_bug_traits() };
    let s = Bug::apply_modifiers(&base, &armored, &no_bug_flaws());
    assert_eq!(s.ap, 30);
    assert_eq!(s.hp, 105);

    // Explosive: +50 damage, -10 hp, -5 ap, clamped to the 100 damage cap.
    let explosive = BugTraits { explosive: true, ..no_bug_traits() };
    let q = Bug::apply_modifiers(&Bug::get_base_stats(BugSpecies::Queen), &explosive,
        &no_bug_flaws());
    assert_eq!(q.damage, 100);
    assert_eq!(q.hp, 270);
    assert_eq!(q.ap, 45);

    // Sickness hits hp, ap and damage; the damage floor is 5.
    let sick = BugFlaws { sickness: true, ..no_bug_flaws() };
    let sb = Bug::apply_modifiers(&Bug::get_base_stats(BugSpecies::Sporebelly),
        &no_bug_traits(), &sick);
    assert_eq!(sb.hp, 85);
    assert_eq!(sb.ap, 10);
    assert_eq!(sb.damage, 5);

    // Poor eyesight drops accuracy by 0.3, rounded to hundredths.
    let blind = BugFlaws { poor_eyesight: true, ..no_bug_flaws() };
    let m = Bug::apply_modifiers(&Bug::get_base_stats(BugSpecies::Maw), &no_bug_traits(),
        &blind);
    assert_eq!(m.accuracy, 700_000);
    assert_eq!(m.damage, 20);
}

#[test]
fn bug_species_info_and_tactics_come_from_the_tables() {
    let (class, name, family) = Bug::get_species_info(BugSpecies::Queen);
    assert!(matches!(class, BugClass::Hivemind));
    assert_eq!(name, "Xethari regina");
    assert_eq!(family, "Xethari");
    let mut r = rng(14);
    for _ in 0..50 {
        let t = Bug::determine_tactic(BugSpecies::Skulker, &mut r);
        assert!(matches!(
            t,
            swarmsim::bugs::BugTactic::Ambush | swarmsim::bugs::BugTactic::Flank
                | swarmsim::bugs::BugTactic::Bait
        ));
    }
}

#[test]
fn rolled_bugs_carry_their_species_guarantees() {
    let mut r = rng(21);
    for _ in 0..20 {
        let b = Bug::new(BugSpecies::Snapper, &mut r);
        assert!(b.traits.armored);
        assert!(matches!(b.class, BugClass::Charger));
        assert!(b.stats.hp >= 10 && b.stats.hp <= 300);
        assert!(b.stats.damage >= 5 && b.stats.damage <= 100);
    }
}

#[test]
fn spawn_test_wave_fills_the_requested_count() {
    let brood = Broodmother::new();
    let mut r = rng(2);
    let wave = brood.spawn_test_wave(7, &mut r);
    assert_eq!(wave.len(), 7);
    for b in &wave {
        assert!(b.is_alive());
    }
}

#[test]
fn trooper_base_stats_match_the_class_table() {
    let h = Trooper::get_base_stats(TrooperClass::Heavy);
    assert_eq!(h, TrooperStats::new(130, 30, 2_000_000, 850_000, 200_000));
    let s = Trooper::get_base_stats(TrooperClass::Scout);
    assert_eq!(s, TrooperStats::new(70, 10, 1_250_000, 1_150_000, 650_000));
}

#[test]
fn trooper_modifiers_boost_and_clamp() {
    let sharp = TrooperTraits { sharpshooter: true, ..no_trooper_traits() };
    let s = Trooper::apply_modifiers(&Trooper::get_base_stats(TrooperClass::Heavy), &sharp,
        &no_trooper_flaws());
    assert_eq!(s.accuracy, 1_000_000);

    let wounded = TrooperFlaws { old_wounds: true, ..no_trooper_flaws() };
    let w = Trooper::apply_modifiers(&Trooper::get_base_stats(TrooperClass::Heavy),
        &no_trooper_traits(), &wounded);
    assert_eq!(w.hp, 110);

    // Scout accuracy 1.15 clamps within [0.5, 1.5] untouched; a
    // sharpshooter scout caps below the 1.5 ceiling.
    let ss = Trooper::apply_modifiers(&Trooper::get_base_stats(TrooperClass::Scout), &sharp,
        &no_trooper_flaws());
    assert_eq!(ss.accuracy, 1_300_000);
}

#[test]
fn class_perks_are_fixed() {
    assert!(matches!(Trooper::get_class_perk(&TrooperClass::Heavy), ClassPerk::MoraleAura));
    assert!(matches!(Trooper::get_class_perk(&TrooperClass::Decoy), ClassPerk::EchoProtocol));
}

#[test]
fn weapon_profile_shapes_accuracy_and_damage() {
    let t = Trooper::from_stats(
        TrooperClass::Heavy,
        TrooperStats::new(100, 20, 2_000_000, 1_000_000, 300_000),
        WeaponProfile { dmg: 10, hp_dmg: 7, ap_dmg: 3, acc_delta: 150_000 },
    );
    assert_eq!(t.accuracy(), 1_150_000);
    // Damage modifier 2.0 doubles the weapon's base component only.
    assert_eq!(t.damage(), (20, 7, 3));

    // The weapon accuracy multiplier never drops below one half.
    let clumsy = Trooper::from_stats(
        TrooperClass::Heavy,
        TrooperStats::new(100, 20, 1_000_000, 1_000_000, 300_000),
        WeaponProfile { dmg: 10, hp_dmg: 7, ap_dmg: 3, acc_delta: -800_000 },
    );
    assert_eq!(clumsy.accuracy(), 500_000);
}

#[test]
fn hive_corridor_opens_and_closes_correctly() {
    let cart = Cartographer::new();
    let mut r = rng(10);
    let chambers = cart.spawn_chambers(5, &mut r);
    assert!(chambers.len() >= 7 && chambers.len() <= 10);
    assert!(matches!(chambers[0].kind, ChamberType::Entrance));
    assert!(matches!(chambers[chambers.len() - 1].kind, ChamberType::EggChamber));
    for (i, c) in chambers.iter().enumerate() {
        assert_eq!(c.id, i);
    }
    // Middle chambers link to both neighbours, ends to one.
    assert_eq!(chambers[0].neighbors, vec![1]);
    assert_eq!(chambers[1].neighbors, vec![0, 2]);
    assert_eq!(chambers[chambers.len() - 1].neighbors, vec![chambers.len() - 2]);
    // The guaranteed rooms made it in.
    let has = |kind: ChamberType| chambers.iter().any(|c| c.kind == kind);
    assert!(has(ChamberType::Clearing));
    assert!(has(ChamberType::Flooded));
    assert!(has(ChamberType::FoodStorage));
    // No three equal rooms in a row among the walked part.
    for w in chambers.windows(3) {
        assert!(!(w[0].kind == w[1].kind && w[1].kind == w[2].kind));
    }
}

#[test]
fn check_validity_blocks_triples_and_misplaced_rooms() {
    let list = vec![ChamberType::Entrance, ChamberType::Tunnel, ChamberType::Tunnel];
    assert!(!Cartographer::check_validity(&list, ChamberType::Tunnel, 3));
    assert!(Cartographer::check_validity(&list, ChamberType::Clearing, 1));
    // A required room may not take the first or last slot.
    assert!(!Cartographer::check_validity(&list, ChamberType::Flooded, 0));
    assert!(!Cartographer::check_validity(&list, ChamberType::FoodStorage, 2));
    assert!(Cartographer::check_validity(&list, ChamberType::BroodChamber, 3));
}

#[test]
fn restrict_chambers_drops_exactly_one_kind() {
    let mut pool = vec![
        ChamberWeight { kind: ChamberType::Tunnel, weight: 5 },
        ChamberWeight { kind: ChamberType::FoodStorage, weight: 2 },
        ChamberWeight { kind: ChamberType::Clearing, weight: 1 },
    ];
    Cartographer::restrict_chambers(&mut pool, ChamberType::FoodStorage);
    assert_eq!(pool.len(), 2);
    assert!(pool.iter().all(|cw| cw.kind != ChamberType::FoodStorage));
    assert!(pool.iter().any(|cw| cw.kind == ChamberType::Tunnel));
    assert!(pool.iter().any(|cw| cw.kind == ChamberType::Clearing));
}

#[test]
fn get_chamber_weight_finds_by_kind() {
    let pool = vec![
        ChamberWeight { kind: ChamberType::Tunnel, weight: 5 },
        ChamberWeight { kind: ChamberType::Clearing, weight: 1 },
    ];
    assert_eq!(Cartographer::get_chamber_weight(ChamberType::Clearing, &pool), Some(1));
    assert_eq!(Cartographer::get_chamber_weight(ChamberType::Flooded, &pool), None);
}
