//! The armory's loadout rules: which weapons and which gear each trooper
//! class may carry.
//!
//! The flavour catalog (names, stats, effect wiring) is presentation-side
//! content and stays outside the simulation core; what is verified here is
//! the class-restriction rule itself and the fetchers built on it.

use vstd::prelude::*;
use crate::troopers::TrooperClass;

verus! {

#[derive(Debug, Copy, Clone, PartialEq, Eq, Structural)]
pub enum Distance { Far, Normal, Near, Close }

#[derive(Debug, Copy, Clone, PartialEq, Eq, Structural)]
pub enum TargetType { Itself, Ally, Enemy, Area, All }

#[derive(Debug, Copy, Clone, PartialEq, Eq, Structural)]
pub enum Area { Immediate, Neighbors }

#[derive(Debug, Copy, Clone, PartialEq, Eq, Structural)]
pub enum ReloadPenaltyType { AfterMove, AfterFire, AfterSpecial }

/// What a piece of equipment can do to the battlefield; the turn handler
/// that would apply these is an outside collaborator.
#[derive(Debug, Copy, Clone)]
pub enum Effect {
    Stun { turns: u8, area: Option<Area> },
    Bleed { dmg: u32, turns: u8 },
    Burn { dmg: u32, turns: u8, aoe: bool },
    Poison { dmg: u32, turns: u8, stacks: u8 },
    Corrode { dmg: u32, turns: u8, stacks: u8 },
    Knockback { dist: Distance },
    ChainDamage { dmg: u32, max_targets: u8 },
    Cleave { targets: u8 },
    AoE { dmg: u32, aoe: Area },
    Suppress { acc_penalty: i8, turns: u8 },
    ArmorPierce { percent: u8 },
    IgnoreArmor,
    BuffAP { ap: i32, turns: u8, area: Option<Area> },
    BuffMove { mv: i8, turns: u8 },
    BuffAccuracy { acc: i8, turns: u8 },
    Heal { hp: u32, target: TargetType },
    Regen { hp_per_turn: u32, turns: u8 },
    Revive { hp: u32 },
    CleanseDebuffs { target: TargetType },
    QuickDraw,
    InfiniteAmmo,
    RecoverAmmoOnCrit,
    AlwaysSilent,
    MarkTarget,
    RevealTraits,
    ActionRefill,
    Cloak { turns: u8 },
    Decoy { duration: u8 },
    HoloDouble { turns: u8 },
    Immobilize { turns: u8 },
    Trap { duration: u8 },
    Pacify { turns: u8 },
    Confuse { turns: u8 },
    Blind { turns: u8, acc_penalty: i8 },
    AggroPull { turns: u8 },
    Custom(&'static str),
}

#[derive(Debug, Copy, Clone, PartialEq, Eq, Hash, Structural)]
pub enum WeaponID {
    Minigun,
    Chaingun,
    ScopedRifle,
    PulseSMG,
    MagShellCannon,
    VenomSpiker,
    Flamethrower,
    SlugCannon,
    MarksmanCarbine,
    Railgun,
    Crossbolt,
    Spikeshot,
    AntigenBeam,
    IonScattergun,
    AssaultRifle,
    SMG,
    RepeaterBow,
    AutoPistol,
    SawedOffShotgun,
    PulsePistol,
    Spikeling,
    MicroGrenadeLauncher,
    HandCannon,
    Syringer,
    PlasmaDerringer,
    BackupRevolver,
    LightSMG,
    CombatKnife,
    PowerMace,
    ShockBlade,
    Cleaver,
    InjectorGauntlet,
    DoomWrench,
    AspLash,
    ArcGauntlet,
    MonofilamentBlade,
    TacticalBaton,
}

#[derive(Debug, Copy, Clone, PartialEq, Eq, Hash, Structural)]
pub enum GearID {
    ReinforcedPlating,
    AmmoFeederRig,
    BlastShield,
    ShockwaveGrenade,
    CloakFieldUnit,
    GrappleLauncher,
    EchoBeacon,
    HoloDecoy,
    NanoMistInjector,
    StabilizerDrone,
    AntitoxinSpray,
    Painkillers,
    AutoTurret,
    PatchKit,
    SensorNode,
    LaserTripwire,
    PortableMinefield,
    ArcWelder,
    DetonationRemote,
    NanoGlueBomb,
    PlasmaCutter,
    HiveScanner,
    ChitinBait,
    ConfusionCollar,
    BugPheromoneBomb,
    ShellPack,
    PlasmaShield,
    UltraShredRounds,
    GravityField,
    EchoPulse,
    HoloDoubler,
    DoppelgangerSuit,
    NanoPatch,
    StimPack,
    FragGrenade,
    SmokeBomb,
    AdrenalineInjector,
    TrapKit,
}

pub enum EquipmentID {
    WeaponID(WeaponID),
    GearID(GearID),
}

/// The weapon restriction table: which classes may carry each weapon; an
/// unrestricted weapon is open to every class.
pub open spec fn spec_weapon_allowed(id: WeaponID, class: TrooperClass) -> bool {
    match id {
        WeaponID::Minigun => class == TrooperClass::Heavy,
        WeaponID::Chaingun => class == TrooperClass::Heavy,
        WeaponID::ScopedRifle => class == TrooperClass::Scout,
        WeaponID::PulseSMG => class == TrooperClass::Medic,
        WeaponID::MagShellCannon => class == TrooperClass::ExoTech,
        WeaponID::VenomSpiker => class == TrooperClass::Handler,
        WeaponID::Flamethrower => class == TrooperClass::Heavy || class == TrooperClass::ExoTech,
        WeaponID::SlugCannon => class == TrooperClass::Heavy,
        WeaponID::MarksmanCarbine => class == TrooperClass::Scout,
        WeaponID::Railgun => class == TrooperClass::Engineer,
        WeaponID::Crossbolt => class == TrooperClass::Engineer,
        WeaponID::Spikeshot => class == TrooperClass::Handler,
        WeaponID::AntigenBeam => class == TrooperClass::Medic,
        WeaponID::IonScattergun => class == TrooperClass::ExoTech,
        WeaponID::AssaultRifle => true,
        WeaponID::SMG => true,
        WeaponID::RepeaterBow => true,
        WeaponID::AutoPistol => true,
        WeaponID::SawedOffShotgun => class == TrooperClass::Heavy || class == TrooperClass::Scout,
        WeaponID::PulsePistol => class == TrooperClass::Medic || class == TrooperClass::ExoTech,
        WeaponID::Spikeling => class == TrooperClass::Handler,
        WeaponID::MicroGrenadeLauncher => class == TrooperClass::Heavy || class == TrooperClass::Engineer,
        WeaponID::HandCannon => class == TrooperClass::Heavy,
        WeaponID::Syringer => class == TrooperClass::Scout,
        WeaponID::PlasmaDerringer => class == TrooperClass::ExoTech,
        WeaponID::BackupRevolver => true,
        WeaponID::LightSMG => true,
        WeaponID::CombatKnife => true,
        WeaponID::PowerMace => class == TrooperClass::Heavy || class == TrooperClass::ExoTech,
        WeaponID::ShockBlade => class == TrooperClass::Scout || class == TrooperClass::Medic,
        WeaponID::Cleaver => class == TrooperClass::Heavy || class == TrooperClass::ExoTech,
        WeaponID::InjectorGauntlet => class == TrooperClass::Handler || class == TrooperClass::Medic,
        WeaponID::DoomWrench => class == TrooperClass::Engineer,
        WeaponID::AspLash => class == TrooperClass::Handler,
        WeaponID::ArcGauntlet => class == TrooperClass::ExoTech,
        WeaponID::MonofilamentBlade => class == TrooperClass::Scout,
        WeaponID::TacticalBaton => true,
    }
}

/// The gear restriction table, as for weapons.
pub open spec fn spec_gear_allowed(id: GearID, class: TrooperClass) -> bool {
    match id {
        GearID::ReinforcedPlating => class == TrooperClass::Heavy,
        GearID::AmmoFeederRig => class == TrooperClass::Heavy,
        GearID::BlastShield => class == TrooperClass::Heavy,
        GearID::ShockwaveGrenade => class == TrooperClass::Heavy,
        GearID::CloakFieldUnit => class == TrooperClass::Scout,
        GearID::GrappleLauncher => class == TrooperClass::Scout,
        GearID::EchoBeacon => class == TrooperClass::Scout,
        GearID::HoloDecoy => class == TrooperClass::Scout || class == TrooperClass::Decoy,
        GearID::NanoMistInjector => class == TrooperClass::Medic,
        GearID::StabilizerDrone => class == TrooperClass::Medic,
        GearID::AntitoxinSpray => class == TrooperClass::Medic,
        GearID::Painkillers => class == TrooperClass::Medic,
        GearID::AutoTurret => class == TrooperClass::Engineer,
        GearID::PatchKit => class == TrooperClass::Engineer,
        GearID::SensorNode => class == TrooperClass::Engineer,
        GearID::LaserTripwire => class == TrooperClass::Engineer,
        GearID::PortableMinefield => class == TrooperClass::Engineer,
        GearID::ArcWelder => class == TrooperClass::Engineer,
        GearID::DetonationRemote => class == TrooperClass::Engineer,
        GearID::NanoGlueBomb => class == TrooperClass::Engineer,
        GearID::PlasmaCutter => class == TrooperClass::Engineer,
        GearID::HiveScanner => class == TrooperClass::Handler,
        GearID::ChitinBait => class == TrooperClass::Handler,
        GearID::ConfusionCollar => class == TrooperClass::Handler,
        GearID::BugPheromoneBomb => class == TrooperClass::Handler,
        GearID::ShellPack => class == TrooperClass::ExoTech,
        GearID::PlasmaShield => class == TrooperClass::ExoTech,
        GearID::UltraShredRounds => class == TrooperClass::ExoTech,
        GearID::GravityField => class == TrooperClass::ExoTech,
        GearID::EchoPulse => class == TrooperClass::Decoy,
        GearID::HoloDoubler => class == TrooperClass::Decoy,
        GearID::DoppelgangerSuit => class == TrooperClass::Decoy,
        GearID::NanoPatch => true,
        GearID::StimPack => true,
        GearID::FragGrenade => true,
        GearID::SmokeBomb => true,
        GearID::AdrenalineInjector => true,
        GearID::TrapKit => true,
    }
}

fn weapon_allowed(id: WeaponID, class: TrooperClass) -> (b: bool)
    ensures
        b == spec_weapon_allowed(id, class),
{
    match id {
        WeaponID::Minigun => class == TrooperClass::Heavy,
        WeaponID::Chaingun => class == TrooperClass::Heavy,
        WeaponID::ScopedRifle => class == TrooperClass::Scout,
        WeaponID::PulseSMG => class == TrooperClass::Medic,
        WeaponID::MagShellCannon => class == TrooperClass::ExoTech,
        WeaponID::VenomSpiker => class == TrooperClass::Handler,
        WeaponID::Flamethrower => class == TrooperClass::Heavy || class == TrooperClass::ExoTech,
        WeaponID::SlugCannon => class == TrooperClass::Heavy,
        WeaponID::MarksmanCarbine => class == TrooperClass::Scout,
        WeaponID::Railgun => class == TrooperClass::Engineer,
        WeaponID::Crossbolt => class == TrooperClass::Engineer,
        WeaponID::Spikeshot => class == TrooperClass::Handler,
        WeaponID::AntigenBeam => class == TrooperClass::Medic,
        WeaponID::IonScattergun => class == TrooperClass::ExoTech,
        WeaponID::AssaultRifle => true,
        WeaponID::SMG => true,
        WeaponID::RepeaterBow => true,
        WeaponID::AutoPistol => true,
        WeaponID::SawedOffShotgun => class == TrooperClass::Heavy || class == TrooperClass::Scout,
        WeaponID::PulsePistol => class == TrooperClass::Medic || class == TrooperClass::ExoTech,
        WeaponID::Spikeling => class == TrooperClass::Handler,
        WeaponID::MicroGrenadeLauncher => class == TrooperClass::Heavy || class == TrooperClass::Engineer,
        WeaponID::HandCannon => class == TrooperClass::Heavy,
        WeaponID::Syringer => class == TrooperClass::Scout,
        WeaponID::PlasmaDerringer => class == TrooperClass::ExoTech,
        WeaponID::BackupRevolver => true,
        WeaponID::LightSMG => true,
        WeaponID::CombatKnife => true,
        WeaponID::PowerMace => class == TrooperClass::Heavy || class == TrooperClass::ExoTech,
        WeaponID::ShockBlade => class == TrooperClass::Scout || class == TrooperClass::Medic,
        WeaponID::Cleaver => class == TrooperClass::Heavy || class == TrooperClass::ExoTech,
        WeaponID::InjectorGauntlet => class == TrooperClass::Handler || class == TrooperClass::Medic,
        WeaponID::DoomWrench => class == TrooperClass::Engineer,
        WeaponID::AspLash => class == TrooperClass::Handler,
        WeaponID::ArcGauntlet => class == TrooperClass::ExoTech,
        WeaponID::MonofilamentBlade => class == TrooperClass::Scout,
        WeaponID::TacticalBaton => true,
    }
}

fn gear_allowed(id: GearID, class: TrooperClass) -> (b: bool)
    ensures
        b == spec_gear_allowed(id, class),
{
    match id {
        GearID::ReinforcedPlating => class == TrooperClass::Heavy,
        GearID::AmmoFeederRig => class == TrooperClass::Heavy,
        GearID::BlastShield => class == TrooperClass::Heavy,
        GearID::ShockwaveGrenade => class == TrooperClass::Heavy,
        GearID::CloakFieldUnit => class == TrooperClass::Scout,
        GearID::GrappleLauncher => class == TrooperClass::Scout,
        GearID::EchoBeacon => class == TrooperClass::Scout,
        GearID::HoloDecoy => class == TrooperClass::Scout || class == TrooperClass::Decoy,
        GearID::NanoMistInjector => class == TrooperClass::Medic,
        GearID::StabilizerDrone => class == TrooperClass::Medic,
        GearID::AntitoxinSpray => class == TrooperClass::Medic,
        GearID::Painkillers => class == TrooperClass::Medic,
        GearID::AutoTurret => class == TrooperClass::Engineer,
        GearID::PatchKit => class == TrooperClass::Engineer,
        GearID::SensorNode => class == TrooperClass::Engineer,
        GearID::LaserTripwire => class == TrooperClass::Engineer,
        GearID::PortableMinefield => class == TrooperClass::Engineer,
        GearID::ArcWelder => class == TrooperClass::Engineer,
        GearID::DetonationRemote => class == TrooperClass::Engineer,
        GearID::NanoGlueBomb => class == TrooperClass::Engineer,
        GearID::PlasmaCutter => class == TrooperClass::Engineer,
        GearID::HiveScanner => class == TrooperClass::Handler,
        GearID::ChitinBait => class == TrooperClass::Handler,
        GearID::ConfusionCollar => class == TrooperClass::Handler,
        GearID::BugPheromoneBomb => class == TrooperClass::Handler,
        GearID::ShellPack => class == TrooperClass::ExoTech,
        GearID::PlasmaShield => class == TrooperClass::ExoTech,
        GearID::UltraShredRounds => class == TrooperClass::ExoTech,
        GearID::GravityField => class == TrooperClass::ExoTech,
        GearID::EchoPulse => class == TrooperClass::Decoy,
        GearID::HoloDoubler => class == TrooperClass::Decoy,
        GearID::DoppelgangerSuit => class == TrooperClass::Decoy,
        GearID::NanoPatch => true,
        GearID::StimPack => true,
        GearID::FragGrenade => true,
        GearID::SmokeBomb => true,
        GearID::AdrenalineInjector => true,
        GearID::TrapKit => true,
    }
}

/// Every weapon the armory stocks, in catalog order.
#[verifier::rlimit(100)]
pub fn all_weapon_ids() -> (ids: Vec<WeaponID>)
    ensures
        ids@.len() == 37,
        ids@[0] == WeaponID::Minigun,
        ids@[1] == WeaponID::Chaingun,
        ids@[2] == WeaponID::ScopedRifle,
        ids@[3] == WeaponID::PulseSMG,
        ids@[4] == WeaponID::MagShellCannon,
        ids@[5] == WeaponID::VenomSpiker,
        ids@[6] == WeaponID::Flamethrower,
        ids@[7] == WeaponID::SlugCannon,
        ids@[8] == WeaponID::MarksmanCarbine,
        ids@[9] == WeaponID::Railgun,
        ids@[10] == WeaponID::Crossbolt,
        ids@[11] == WeaponID::Spikeshot,
        ids@[12] == WeaponID::AntigenBeam,
        ids@[13] == WeaponID::IonScattergun,
        ids@[14] == WeaponID::AssaultRifle,
        ids@[15] == WeaponID::SMG,
        ids@[16] == WeaponID::RepeaterBow,
        ids@[17] == WeaponID::AutoPistol,
        ids@[18] == WeaponID::SawedOffShotgun,
        ids@[19] == WeaponID::PulsePistol,
        ids@[20] == WeaponID::Spikeling,
        ids@[21] == WeaponID::MicroGrenadeLauncher,
        ids@[22] == WeaponID::HandCannon,
        ids@[23] == WeaponID::Syringer,
        ids@[24] == WeaponID::PlasmaDerringer,
        ids@[25] == WeaponID::BackupRevolver,
        ids@[26] == WeaponID::LightSMG,
        ids@[27] == WeaponID::CombatKnife,
        ids@[28] == WeaponID::PowerMace,
        ids@[29] == WeaponID::ShockBlade,
        ids@[30] == WeaponID::Cleaver,
        ids@[31] == WeaponID::InjectorGauntlet,
        ids@[32] == WeaponID::DoomWrench,
        ids@[33] == WeaponID::AspLash,
        ids@[34] == WeaponID::ArcGauntlet,
        ids@[35] == WeaponID::MonofilamentBlade,
        ids@[36] == WeaponID::TacticalBaton,
{
    let mut ids: Vec<WeaponID> = Vec::new();
    ids.push(WeaponID::Minigun);
    ids.push(WeaponID::Chaingun);
    ids.push(WeaponID::ScopedRifle);
    ids.push(WeaponID::PulseSMG);
    ids.push(WeaponID::MagShellCannon);
    ids.push(WeaponID::VenomSpiker);
    ids.push(WeaponID::Flamethrower);
    ids.push(WeaponID::SlugCannon);
    ids.push(WeaponID::MarksmanCarbine);
    ids.push(WeaponID::Railgun);
    ids.push(WeaponID::Crossbolt);
    ids.push(WeaponID::Spikeshot);
    ids.push(WeaponID::AntigenBeam);
    ids.push(WeaponID::IonScattergun);
    ids.push(WeaponID::AssaultRifle);
    ids.push(WeaponID::SMG);
    ids.push(WeaponID::RepeaterBow);
    ids.push(WeaponID::AutoPistol);
    ids.push(WeaponID::SawedOffShotgun);
    ids.push(WeaponID::PulsePistol);
    ids.push(WeaponID::Spikeling);
    ids.push(WeaponID::MicroGrenadeLauncher);
    ids.push(WeaponID::HandCannon);
    ids.push(WeaponID::Syringer);
    ids.push(WeaponID::PlasmaDerringer);
    ids.push(WeaponID::BackupRevolver);
    ids.push(WeaponID::LightSMG);
    ids.push(WeaponID::CombatKnife);
    ids.push(WeaponID::PowerMace);
    ids.push(WeaponID::ShockBlade);
    ids.push(WeaponID::Cleaver);
    ids.push(WeaponID::InjectorGauntlet);
    ids.push(WeaponID::DoomWrench);
    ids.push(WeaponID::AspLash);
    ids.push(WeaponID::ArcGauntlet);
    ids.push(WeaponID::MonofilamentBlade);
    ids.push(WeaponID::TacticalBaton);
    ids
}

/// Every piece of gear the armory stocks, in catalog order.
#[verifier::rlimit(100)]
pub fn all_gear_ids() -> (ids: Vec<GearID>)
    ensures
        ids@.len() == 38,
        ids@[0] == GearID::ReinforcedPlating,
        ids@[1] == GearID::AmmoFeederRig,
        ids@[2] == GearID::BlastShield,
        ids@[3] == GearID::ShockwaveGrenade,
        ids@[4] == GearID::CloakFieldUnit,
        ids@[5] == GearID::GrappleLauncher,
        ids@[6] == GearID::EchoBeacon,
        ids@[7] == GearID::HoloDecoy,
        ids@[8] == GearID::NanoMistInjector,
        ids@[9] == GearID::StabilizerDrone,
        ids@[10] == GearID::AntitoxinSpray,
        ids@[11] == GearID::Painkillers,
        ids@[12] == GearID::AutoTurret,
        ids@[13] == GearID::PatchKit,
        ids@[14] == GearID::SensorNode,
        ids@[15] == GearID::LaserTripwire,
        ids@[16] == GearID::PortableMinefield,
        ids@[17] == GearID::ArcWelder,
        ids@[18] == GearID::DetonationRemote,
        ids@[19] == GearID::NanoGlueBomb,
        ids@[20] == GearID::PlasmaCutter,
        ids@[21] == GearID::HiveScanner,
        ids@[22] == GearID::ChitinBait,
        ids@[23] == GearID::ConfusionCollar,
        ids@[24] == GearID::BugPheromoneBomb,
        ids@[25] == GearID::ShellPack,
        ids@[26] == GearID::PlasmaShield,
        ids@[27] == GearID::UltraShredRounds,
        ids@[28] == GearID::GravityField,
        ids@[29] == GearID::EchoPulse,
        ids@[30] == GearID::HoloDoubler,
        ids@[31] == GearID::DoppelgangerSuit,
        ids@[32] == GearID::NanoPatch,
        ids@[33] == GearID::StimPack,
        ids@[34] == GearID::FragGrenade,
        ids@[35] == GearID::SmokeBomb,
        ids@[36] == GearID::AdrenalineInjector,
        ids@[37] == GearID::TrapKit,
{
    let mut ids: Vec<GearID> = Vec::new();
    ids.push(GearID::ReinforcedPlating);
    ids.push(GearID::AmmoFeederRig);
    ids.push(GearID::BlastShield);
    ids.push(GearID::ShockwaveGrenade);
    ids.push(GearID::CloakFieldUnit);
    ids.push(GearID::GrappleLauncher);
    ids.push(GearID::EchoBeacon);
    ids.push(GearID::HoloDecoy);
    ids.push(GearID::NanoMistInjector);
    ids.push(GearID::StabilizerDrone);
    ids.push(GearID::AntitoxinSpray);
    ids.push(GearID::Painkillers);
    ids.push(GearID::AutoTurret);
    ids.push(GearID::PatchKit);
    ids.push(GearID::SensorNode);
    ids.push(GearID::LaserTripwire);
    ids.push(GearID::PortableMinefield);
    ids.push(GearID::ArcWelder);
    ids.push(GearID::DetonationRemote);
    ids.push(GearID::NanoGlueBomb);
    ids.push(GearID::PlasmaCutter);
    ids.push(GearID::HiveScanner);
    ids.push(GearID::ChitinBait);
    ids.push(GearID::ConfusionCollar);
    ids.push(GearID::BugPheromoneBomb);
    ids.push(GearID::ShellPack);
    ids.push(GearID::PlasmaShield);
    ids.push(GearID::UltraShredRounds);
    ids.push(GearID::GravityField);
    ids.push(GearID::EchoPulse);
    ids.push(GearID::HoloDoubler);
    ids.push(GearID::DoppelgangerSuit);
    ids.push(GearID::NanoPatch);
    ids.push(GearID::StimPack);
    ids.push(GearID::FragGrenade);
    ids.push(GearID::SmokeBomb);
    ids.push(GearID::AdrenalineInjector);
    ids.push(GearID::TrapKit);
    ids
}


/// Any weaponid occurs in the full catalog sequence.
proof fn lemma_weapon_catalog_covers(s: Seq<WeaponID>, id: WeaponID)
    requires
        s.len() == 37,
        s[0] == WeaponID::Minigun,
        s[1] == WeaponID::Chaingun,
        s[2] == WeaponID::ScopedRifle,
        s[3] == WeaponID::PulseSMG,
        s[4] == WeaponID::MagShellCannon,
        s[5] == WeaponID::VenomSpiker,
        s[6] == WeaponID::Flamethrower,
        s[7] == WeaponID::SlugCannon,
        s[8] == WeaponID::MarksmanCarbine,
        s[9] == WeaponID::Railgun,
        s[10] == WeaponID::Crossbolt,
        s[11] == WeaponID::Spikeshot,
        s[12] == WeaponID::AntigenBeam,
        s[13] == WeaponID::IonScattergun,
        s[14] == WeaponID::AssaultRifle,
        s[15] == WeaponID::SMG,
        s[16] == WeaponID::RepeaterBow,
        s[17] == WeaponID::AutoPistol,
        s[18] == WeaponID::SawedOffShotgun,
        s[19] == WeaponID::PulsePistol,
        s[20] == WeaponID::Spikeling,
        s[21] == WeaponID::MicroGrenadeLauncher,
        s[22] == WeaponID::HandCannon,
        s[23] == WeaponID::Syringer,
        s[24] == WeaponID::PlasmaDerringer,
        s[25] == WeaponID::BackupRevolver,
        s[26] == WeaponID::LightSMG,
        s[27] == WeaponID::CombatKnife,
        s[28] == WeaponID::PowerMace,
        s[29] == WeaponID::ShockBlade,
        s[30] == WeaponID::Cleaver,
        s[31] == WeaponID::InjectorGauntlet,
        s[32] == WeaponID::DoomWrench,
        s[33] == WeaponID::AspLash,
        s[34] == WeaponID::ArcGauntlet,
        s[35] == WeaponID::MonofilamentBlade,
        s[36] == WeaponID::TacticalBaton,
    ensures
        s.contains(id),
{
    match id {
        WeaponID::Minigun => assert(s.contains(s[0])),
        WeaponID::Chaingun => assert(s.contains(s[1])),
        WeaponID::ScopedRifle => assert(s.contains(s[2])),
        WeaponID::PulseSMG => assert(s.contains(s[3])),
        WeaponID::MagShellCannon => assert(s.contains(s[4])),
        WeaponID::VenomSpiker => assert(s.contains(s[5])),
        WeaponID::Flamethrower => assert(s.contains(s[6])),
        WeaponID::SlugCannon => assert(s.contains(s[7])),
        WeaponID::MarksmanCarbine => assert(s.contains(s[8])),
        WeaponID::Railgun => assert(s.contains(s[9])),
        WeaponID::Crossbolt => assert(s.contains(s[10])),
        WeaponID::Spikeshot => assert(s.contains(s[11])),
        WeaponID::AntigenBeam => assert(s.contains(s[12])),
        WeaponID::IonScattergun => assert(s.contains(s[13])),
        WeaponID::AssaultRifle => assert(s.contains(s[14])),
        WeaponID::SMG => assert(s.contains(s[15])),
        WeaponID::RepeaterBow => assert(s.contains(s[16])),
        WeaponID::AutoPistol => assert(s.contains(s[17])),
        WeaponID::SawedOffShotgun => assert(s.contains(s[18])),
        WeaponID::PulsePistol => assert(s.contains(s[19])),
        WeaponID::Spikeling => assert(s.contains(s[20])),
        WeaponID::MicroGrenadeLauncher => assert(s.contains(s[21])),
        WeaponID::HandCannon => assert(s.contains(s[22])),
        WeaponID::Syringer => assert(s.contains(s[23])),
        WeaponID::PlasmaDerringer => assert(s.contains(s[24])),
        WeaponID::BackupRevolver => assert(s.contains(s[25])),
        WeaponID::LightSMG => assert(s.contains(s[26])),
        WeaponID::CombatKnife => assert(s.contains(s[27])),
        WeaponID::PowerMace => assert(s.contains(s[28])),
        WeaponID::ShockBlade => assert(s.contains(s[29])),
        WeaponID::Cleaver => assert(s.contains(s[30])),
        WeaponID::InjectorGauntlet => assert(s.contains(s[31])),
        WeaponID::DoomWrench => assert(s.contains(s[32])),
        WeaponID::AspLash => assert(s.contains(s[33])),
        WeaponID::ArcGauntlet => assert(s.contains(s[34])),
        WeaponID::MonofilamentBlade => assert(s.contains(s[35])),
        WeaponID::TacticalBaton => assert(s.contains(s[36])),
    }
}

/// Any gearid occurs in the full catalog sequence.
proof fn lemma_gear_catalog_covers(s: Seq<GearID>, id: GearID)
    requires
        s.len() == 38,
        s[0] == GearID::ReinforcedPlating,
        s[1] == GearID::AmmoFeederRig,
        s[2] == GearID::BlastShield,
        s[3] == GearID::ShockwaveGrenade,
        s[4] == GearID::CloakFieldUnit,
        s[5] == GearID::GrappleLauncher,
        s[6] == GearID::EchoBeacon,
        s[7] == GearID::HoloDecoy,
        s[8] == GearID::NanoMistInjector,
        s[9] == GearID::StabilizerDrone,
        s[10] == GearID::AntitoxinSpray,
        s[11] == GearID::Painkillers,
        s[12] == GearID::AutoTurret,
        s[13] == GearID::PatchKit,
        s[14] == GearID::SensorNode,
        s[15] == GearID::LaserTripwire,
        s[16] == GearID::PortableMinefield,
        s[17] == GearID::ArcWelder,
        s[18] == GearID::DetonationRemote,
        s[19] == GearID::NanoGlueBomb,
        s[20] == GearID::PlasmaCutter,
        s[21] == GearID::HiveScanner,
        s[22] == GearID::ChitinBait,
        s[23] == GearID::ConfusionCollar,
        s[24] == GearID::BugPheromoneBomb,
        s[25] == GearID::ShellPack,
        s[26] == GearID::PlasmaShield,
        s[27] == GearID::UltraShredRounds,
        s[28] == GearID::GravityField,
        s[29] == GearID::EchoPulse,
        s[30] == GearID::HoloDoubler,
        s[31] == GearID::DoppelgangerSuit,
        s[32] == GearID::NanoPatch,
        s[33] == GearID::StimPack,
        s[34] == GearID::FragGrenade,
        s[35] == GearID::SmokeBomb,
        s[36] == GearID::AdrenalineInjector,
        s[37] == GearID::TrapKit,
    ensures
        s.contains(id),
{
    match id {
        GearID::ReinforcedPlating => assert(s.contains(s[0])),
        GearID::AmmoFeederRig => assert(s.contains(s[1])),
        GearID::BlastShield => assert(s.contains(s[2])),
        GearID::ShockwaveGrenade => assert(s.contains(s[3])),
        GearID::CloakFieldUnit => assert(s.contains(s[4])),
        GearID::GrappleLauncher => assert(s.contains(s[5])),
        GearID::EchoBeacon => assert(s.contains(s[6])),
        GearID::HoloDecoy => assert(s.contains(s[7])),
        GearID::NanoMistInjector => assert(s.contains(s[8])),
        GearID::StabilizerDrone => assert(s.contains(s[9])),
        GearID::AntitoxinSpray => assert(s.contains(s[10])),
        GearID::Painkillers => assert(s.contains(s[11])),
        GearID::AutoTurret => assert(s.contains(s[12])),
        GearID::PatchKit => assert(s.contains(s[13])),
        GearID::SensorNode => assert(s.contains(s[14])),
        GearID::LaserTripwire => assert(s.contains(s[15])),
        GearID::PortableMinefield => assert(s.contains(s[16])),
        GearID::ArcWelder => assert(s.contains(s[17])),
        GearID::DetonationRemote => assert(s.contains(s[18])),
        GearID::NanoGlueBomb => assert(s.contains(s[19])),
        GearID::PlasmaCutter => assert(s.contains(s[20])),
        GearID::HiveScanner => assert(s.contains(s[21])),
        GearID::ChitinBait => assert(s.contains(s[22])),
        GearID::ConfusionCollar => assert(s.contains(s[23])),
        GearID::BugPheromoneBomb => assert(s.contains(s[24])),
        GearID::ShellPack => assert(s.contains(s[25])),
        GearID::PlasmaShield => assert(s.contains(s[26])),
        GearID::UltraShredRounds => assert(s.contains(s[27])),
        GearID::GravityField => assert(s.contains(s[28])),
        GearID::EchoPulse => assert(s.contains(s[29])),
        GearID::HoloDoubler => assert(s.contains(s[30])),
        GearID::DoppelgangerSuit => assert(s.contains(s[31])),
        GearID::NanoPatch => assert(s.contains(s[32])),
        GearID::StimPack => assert(s.contains(s[33])),
        GearID::FragGrenade => assert(s.contains(s[34])),
        GearID::SmokeBomb => assert(s.contains(s[35])),
        GearID::AdrenalineInjector => assert(s.contains(s[36])),
        GearID::TrapKit => assert(s.contains(s[37])),
    }
}

pub struct Armory;

impl Armory {
    /// Whether one piece of equipment is open to one trooper class, per
    /// the restriction tables.
    pub fn allowed_for_class(id: EquipmentID, class: TrooperClass) -> (b: bool)
        ensures
            b == (match id {
                EquipmentID::WeaponID(wid) => spec_weapon_allowed(wid, class),
                EquipmentID::GearID(gid) => spec_gear_allowed(gid, class),
            }),
    {
        match id {
            EquipmentID::WeaponID(wid) => weapon_allowed(wid, class),
            EquipmentID::GearID(gid) => gear_allowed(gid, class),
        }
    }

    /// The weapons a class may draw from, in catalog order: exactly the
    /// catalog entries its restriction row admits.
    pub fn fetch_allowed_weapons(class: TrooperClass) -> (ids: Vec<WeaponID>)
        ensures
            forall|i: int|
                0 <= i < ids@.len() ==> spec_weapon_allowed(#[trigger] ids@[i], class),
            forall|id: WeaponID| spec_weapon_allowed(id, class) ==> ids@.contains(id),
    {
        let all = all_weapon_ids();
        let n = all.len();
        let mut ids: Vec<WeaponID> = Vec::new();
        let mut i: usize = 0;
        while i < n
            invariant
                i <= n,
                n == all@.len(),
                forall|j: int|
                    0 <= j < ids@.len() ==> spec_weapon_allowed(#[trigger] ids@[j], class),
                forall|j: int|
                    0 <= j < i && spec_weapon_allowed(#[trigger] all@[j], class)
                        ==> ids@.contains(all@[j]),
            decreases n - i,
        {
            let ghost ids_before = ids@;
            if Self::allowed_for_class(EquipmentID::WeaponID(all[i]), class) {
                ids.push(all[i]);
            }
            proof {
                assert forall|j: int|
                    0 <= j < i + 1 && spec_weapon_allowed(#[trigger] all@[j], class)
                        implies ids@.contains(all@[j]) by {
                    if j < i {
                        let w = choose|w: int|
                            0 <= w < ids_before.len() && ids_before[w] == all@[j];
                        assert(ids@[w] == all@[j]);
                    } else {
                        assert(ids@[ids@.len() - 1] == all@[j]);
                    }
                }
            }
            i = i + 1;
        }
        proof {
            assert forall|id: WeaponID| spec_weapon_allowed(id, class) implies ids@.contains(
                id) by {
                lemma_weapon_catalog_covers(all@, id);
                let j = choose|j: int| 0 <= j < all@.len() && all@[j] == id;
            }
        }
        ids
    }

    /// The gear a class may draw from, in catalog order.
    pub fn fetch_allowed_gear(class: TrooperClass) -> (ids: Vec<GearID>)
        ensures
            forall|i: int|
                0 <= i < ids@.len() ==> spec_gear_allowed(#[trigger] ids@[i], class),
            forall|id: GearID| spec_gear_allowed(id, class) ==> ids@.contains(id),
    {
        let all = all_gear_ids();
        let n = all.len();
        let mut ids: Vec<GearID> = Vec::new();
        let mut i: usize = 0;
        while i < n
            invariant
                i <= n,
                n == all@.len(),
                forall|j: int|
                    0 <= j < ids@.len() ==> spec_gear_allowed(#[trigger] ids@[j], class),
                forall|j: int|
                    0 <= j < i && spec_gear_allowed(#[trigger] all@[j], class)
                        ==> ids@.contains(all@[j]),
            decreases n - i,
        {
            let ghost ids_before = ids@;
            if Self::allowed_for_class(EquipmentID::GearID(all[i]), class) {
                ids.push(all[i]);
            }
            proof {
                assert forall|j: int|
                    0 <= j < i + 1 && spec_gear_allowed(#[trigger] all@[j], class)
                        implies ids@.contains(all@[j]) by {
                    if j < i {
                        let w = choose|w: int|
                            0 <= w < ids_before.len() && ids_before[w] == all@[j];
                        assert(ids@[w] == all@[j]);
                    } else {
                        assert(ids@[ids@.len() - 1] == all@[j]);
                    }
                }
            }
            i = i + 1;
        }
        proof {
            assert forall|id: GearID| spec_gear_allowed(id, class) implies ids@.contains(
                id) by {
                lemma_gear_catalog_covers(all@, id);
                let j = choose|j: int| 0 <= j < all@.len() && all@[j] == id;
            }
        }
        ids
    }
}

} // verus!
