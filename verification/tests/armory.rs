use swarmsim::armory::{all_gear_ids, all_weapon_ids, Armory, EquipmentID, GearID, WeaponID};
use swarmsim::troopers::TrooperClass;

#[test]
fn restriction_rows_gate_by_class() {
    assert!(Armory::allowed_for_class(
        EquipmentID::WeaponID(WeaponID::Minigun),
        TrooperClass::Heavy
    ));
    assert!(!Armory::allowed_for_class(
        EquipmentID::WeaponID(WeaponID::Minigun),
        TrooperClass::Scout
    ));
    // Flamethrower is open to two classes.
    assert!(Armory::allowed_for_class(
        EquipmentID::WeaponID(WeaponID::Flamethrower),
        TrooperClass::ExoTech
    ));
    assert!(!Armory::allowed_for_class(
        EquipmentID::WeaponID(WeaponID::Flamethrower),
        TrooperClass::Medic
    ));
    // An unrestricted weapon is open to everyone.
    assert!(Armory::allowed_for_class(
        EquipmentID::WeaponID(WeaponID::AssaultRifle),
        TrooperClass::Decoy
    ));
    // Gear rows work the same way.
    assert!(Armory::allowed_for_class(
        EquipmentID::GearID(GearID::HoloDecoy),
        TrooperClass::Decoy
    ));
    assert!(!Armory::allowed_for_class(
        EquipmentID::GearID(GearID::HoloDecoy),
        TrooperClass::Heavy
    ));
    assert!(Armory::allowed_for_class(
        EquipmentID::GearID(GearID::FragGrenade),
        TrooperClass::Handler
    ));
}

#[test]
fn catalogs_hold_the_full_stock() {
    assert_eq!(all_weapon_ids().len(), 37);
    assert_eq!(all_gear_ids().len(), 38);
}

#[test]
fn fetchers_return_exactly_the_allowed_stock() {
    let scout_weapons = Armory::fetch_allowed_weapons(TrooperClass::Scout);
    assert!(scout_weapons.contains(&WeaponID::ScopedRifle));
    assert!(scout_weapons.contains(&WeaponID::AssaultRifle));
    assert!(!scout_weapons.contains(&WeaponID::Minigun));
    for id in &scout_weapons {
        assert!(Armory::allowed_for_class(EquipmentID::WeaponID(*id), TrooperClass::Scout));
    }

    let medic_gear = Armory::fetch_allowed_gear(TrooperClass::Medic);
    assert!(medic_gear.contains(&GearID::Painkillers));
    assert!(medic_gear.contains(&GearID::StimPack));
    assert!(!medic_gear.contains(&GearID::AutoTurret));
    for id in &medic_gear {
        assert!(Armory::allowed_for_class(EquipmentID::GearID(*id), TrooperClass::Medic));
    }

    // Heavy stock: 4 exclusive, 5 shared with other classes, 8 open.
    let heavy_weapons = Armory::fetch_allowed_weapons(TrooperClass::Heavy);
    assert_eq!(heavy_weapons.len(), 17);
}
