use vstd::prelude::*;
use crate::phase::{Phase, Side};

verus! {

/// A unit's psychological condition.
#[derive(Clone, Copy, Debug, PartialEq, Eq, Structural)]
pub enum Condition {
    Broken,
    Composed,
}

/// Kinds of support weapon. The three machine guns count as one kind of
/// weapon when the rule on firing one weapon of a kind per phase applies.
#[derive(Clone, Copy, Debug, PartialEq, Eq, Structural)]
pub enum WeaponType {
    Rifle,
    LMG,
    MMG,
    HMG,
    Mortar,
    Demolition,
    Flamethrower,
    APMine,
    ATMine,
    ATRifle,
    ATGun,
    TankGun,
    Artillery,
}

/// What the rule of one weapon of a kind per fire phase counts: the three
/// machine guns are one category, every other weapon type its own.
#[derive(Clone, Copy, Debug, PartialEq, Eq, Structural)]
pub enum WeaponCategory {
    MachineGun,
    Rifle,
    Mortar,
    Demolition,
    Flamethrower,
    APMine,
    ATMine,
    ATRifle,
    ATGun,
    TankGun,
    Artillery,
}

pub open spec fn category(w: WeaponType) -> WeaponCategory {
    match w {
            WeaponType::Rifle => WeaponCategory::Rifle,
            WeaponType::LMG => WeaponCategory::MachineGun,
            WeaponType::MMG => WeaponCategory::MachineGun,
            WeaponType::HMG => WeaponCategory::MachineGun,
            WeaponType::Mortar => WeaponCategory::Mortar,
            WeaponType::Demolition => WeaponCategory::Demolition,
            WeaponType::Flamethrower => WeaponCategory::Flamethrower,
            WeaponType::APMine => WeaponCategory::APMine,
            WeaponType::ATMine => WeaponCategory::ATMine,
            WeaponType::ATRifle => WeaponCategory::ATRifle,
            WeaponType::ATGun => WeaponCategory::ATGun,
            WeaponType::TankGun => WeaponCategory::TankGun,
            WeaponType::Artillery => WeaponCategory::Artillery,
    }
}

impl WeaponType {
    pub fn category(&self) -> (r: WeaponCategory)
        ensures
            r == category(*self),
    {
        match self {
                WeaponType::Rifle => WeaponCategory::Rifle,
                WeaponType::LMG => WeaponCategory::MachineGun,
                WeaponType::MMG => WeaponCategory::MachineGun,
                WeaponType::HMG => WeaponCategory::MachineGun,
                WeaponType::Mortar => WeaponCategory::Mortar,
                WeaponType::Demolition => WeaponCategory::Demolition,
                WeaponType::Flamethrower => WeaponCategory::Flamethrower,
                WeaponType::APMine => WeaponCategory::APMine,
                WeaponType::ATMine => WeaponCategory::ATMine,
                WeaponType::ATRifle => WeaponCategory::ATRifle,
                WeaponType::ATGun => WeaponCategory::ATGun,
                WeaponType::TankGun => WeaponCategory::TankGun,
                WeaponType::Artillery => WeaponCategory::Artillery,
        }
    }

    /// Whether the weapon fires indirectly and so needs no line of sight.
    pub fn is_mortar(&self) -> (r: bool)
        ensures
            r == (*self == WeaponType::Mortar),
    {
        match self {
            WeaponType::Mortar => true,
            _ => false,
        }
    }
}

#[derive(Clone, Copy, Debug, PartialEq, Eq, Structural)]
pub struct Squad {
    pub firepower: u8,
    pub range: u8,
    pub morale: u8,
}

/// A leader. Its leadership, usually negative, modifies the tests of the
/// units it commands.
#[derive(Clone, Copy, Debug, PartialEq, Eq, Structural)]
pub struct Leader {
    pub firepower: u8,
    pub range: u8,
    pub morale: u8,
    pub leadership: i8,
}

impl Leader {
    pub fn get_leadership_modifier(&self) -> (r: i8)
        ensures
            r == self.leadership,
    {
        self.leadership
    }
}

/// A support weapon. Penetration is the number of hexes along the line of
/// fire that one shot affects; breakdown is the roll at which it malfunctions.
#[derive(Clone, Copy, Debug, PartialEq, Eq, Structural)]
pub struct SupportWeapon {
    pub weapon: WeaponType,
    pub firepower: u8,
    pub penetration: u8,
    pub range: u8,
    pub breakdown: u8,
}

#[derive(Clone, Copy, Debug, PartialEq, Eq, Structural)]
pub struct Vehicle {
    pub mf: u8,
}

#[derive(Clone, Copy, Debug, PartialEq, Eq, Structural)]
pub enum UnitKind {
    Squad(Squad),
    Leader(Leader),
    SupportWeapon(SupportWeapon),
    Vehicle(Vehicle),
}

/// Movement factors of a squad.
pub const SQUAD_MF: u32 = 4;

/// Movement factors of a leader.
pub const LEADER_MF: u32 = 6;

/// Bonus of a squad that moves together with a leader.
pub const LEADER_BONUS_MF: u32 = 2;

/// Portage points a squad can always carry one hex in the Advance phase.
pub const SQUAD_PORTAGE_LIMIT: u8 = 5;

/// Portage points a leader can always carry one hex in the Advance phase.
pub const LEADER_PORTAGE_LIMIT: u8 = 3;

/// A squad that moved carrying this many portage points may not fire in
/// the ensuing AdvancingFire phase.
pub const SQUAD_PORTAGE_FORFEIT: u8 = 4;

/// The same threshold for a leader.
pub const LEADER_PORTAGE_FORFEIT: u8 = 2;

pub open spec fn allotment_of(kind: UnitKind) -> nat {
    match kind {
        UnitKind::Squad(_) => SQUAD_MF as nat,
        UnitKind::Leader(_) => LEADER_MF as nat,
        UnitKind::Vehicle(v) => v.mf as nat,
        UnitKind::SupportWeapon(_) => 0,
    }
}

pub open spec fn rated_firepower(kind: UnitKind) -> nat {
    match kind {
        UnitKind::Squad(s) => s.firepower as nat,
        UnitKind::Leader(l) => l.firepower as nat,
        UnitKind::SupportWeapon(w) => w.firepower as nat,
        UnitKind::Vehicle(_) => 0,
    }
}

pub open spec fn rated_range(kind: UnitKind) -> nat {
    match kind {
        UnitKind::Squad(s) => s.range as nat,
        UnitKind::Leader(l) => l.range as nat,
        UnitKind::SupportWeapon(w) => w.range as nat,
        UnitKind::Vehicle(_) => 0,
    }
}

/// Portage a unit may carry on an Advance; `None` where no limit applies.
pub open spec fn portage_limit(kind: UnitKind) -> Option<u8> {
    match kind {
        UnitKind::Squad(_) => Some(SQUAD_PORTAGE_LIMIT),
        UnitKind::Leader(_) => Some(LEADER_PORTAGE_LIMIT),
        _ => None,
    }
}

/// Portage carried in Movement at which support weapon fire is forfeited.
pub open spec fn portage_forfeit(kind: UnitKind) -> Option<u8> {
    match kind {
        UnitKind::Squad(_) => Some(SQUAD_PORTAGE_FORFEIT),
        UnitKind::Leader(_) => Some(LEADER_PORTAGE_FORFEIT),
        _ => None,
    }
}

/// A set of weapon categories, one flag for each.
#[derive(Clone, Copy, Debug, PartialEq, Eq, Structural)]
pub struct CategorySet {
    pub machine_gun: bool,
    pub rifle: bool,
    pub mortar: bool,
    pub demolition: bool,
    pub flamethrower: bool,
    pub ap_mine: bool,
    pub at_mine: bool,
    pub at_rifle: bool,
    pub at_gun: bool,
    pub tank_gun: bool,
    pub artillery: bool,
}

impl CategorySet {
    pub open spec fn contains(self, c: WeaponCategory) -> bool {
        match c {
            WeaponCategory::MachineGun => self.machine_gun,
            WeaponCategory::Rifle => self.rifle,
            WeaponCategory::Mortar => self.mortar,
            WeaponCategory::Demolition => self.demolition,
            WeaponCategory::Flamethrower => self.flamethrower,
            WeaponCategory::APMine => self.ap_mine,
            WeaponCategory::ATMine => self.at_mine,
            WeaponCategory::ATRifle => self.at_rifle,
            WeaponCategory::ATGun => self.at_gun,
            WeaponCategory::TankGun => self.tank_gun,
            WeaponCategory::Artillery => self.artillery,
        }
    }

    /// The set with `c` added.
    pub open spec fn with(self, c: WeaponCategory) -> CategorySet {
        match c {
            WeaponCategory::MachineGun => CategorySet { machine_gun: true, ..self },
            WeaponCategory::Rifle => CategorySet { rifle: true, ..self },
            WeaponCategory::Mortar => CategorySet { mortar: true, ..self },
            WeaponCategory::Demolition => CategorySet { demolition: true, ..self },
            WeaponCategory::Flamethrower => CategorySet { flamethrower: true, ..self },
            WeaponCategory::APMine => CategorySet { ap_mine: true, ..self },
            WeaponCategory::ATMine => CategorySet { at_mine: true, ..self },
            WeaponCategory::ATRifle => CategorySet { at_rifle: true, ..self },
            WeaponCategory::ATGun => CategorySet { at_gun: true, ..self },
            WeaponCategory::TankGun => CategorySet { tank_gun: true, ..self },
            WeaponCategory::Artillery => CategorySet { artillery: true, ..self },
        }
    }

    pub open spec fn empty_spec() -> CategorySet {
        CategorySet { machine_gun: false, rifle: false, mortar: false, demolition: false, flamethrower: false, ap_mine: false, at_mine: false, at_rifle: false, at_gun: false, tank_gun: false, artillery: false }
    }

    pub fn empty() -> (r: CategorySet)
        ensures
            r == CategorySet::empty_spec(),
    {
        CategorySet { machine_gun: false, rifle: false, mortar: false, demolition: false, flamethrower: false, ap_mine: false, at_mine: false, at_rifle: false, at_gun: false, tank_gun: false, artillery: false }
    }

    pub fn has(&self, c: WeaponCategory) -> (r: bool)
        ensures
            r == self.contains(c),
    {
        match c {
            WeaponCategory::MachineGun => self.machine_gun,
            WeaponCategory::Rifle => self.rifle,
            WeaponCategory::Mortar => self.mortar,
            WeaponCategory::Demolition => self.demolition,
            WeaponCategory::Flamethrower => self.flamethrower,
            WeaponCategory::APMine => self.ap_mine,
            WeaponCategory::ATMine => self.at_mine,
            WeaponCategory::ATRifle => self.at_rifle,
            WeaponCategory::ATGun => self.at_gun,
            WeaponCategory::TankGun => self.tank_gun,
            WeaponCategory::Artillery => self.artillery,
        }
    }

    pub fn insert(&mut self, c: WeaponCategory)
        ensures
            *final(self) == old(self).with(c),
    {
        match c {
            WeaponCategory::MachineGun => self.machine_gun = true,
            WeaponCategory::Rifle => self.rifle = true,
            WeaponCategory::Mortar => self.mortar = true,
            WeaponCategory::Demolition => self.demolition = true,
            WeaponCategory::Flamethrower => self.flamethrower = true,
            WeaponCategory::APMine => self.ap_mine = true,
            WeaponCategory::ATMine => self.at_mine = true,
            WeaponCategory::ATRifle => self.at_rifle = true,
            WeaponCategory::ATGun => self.at_gun = true,
            WeaponCategory::TankGun => self.tank_gun = true,
            WeaponCategory::Artillery => self.artillery = true,
        }
    }
}

/// The support weapon categories a unit has fired in one fire phase.
#[derive(Clone, Copy, Debug, PartialEq, Eq, Structural)]
pub struct WeaponFire {
    pub phase: Phase,
    pub categories: CategorySet,
}

/// What a unit has done in the current game turn.
#[derive(Clone, Copy, Debug, PartialEq, Eq, Structural)]
pub struct ActionRecord {
    pub moved: bool,
    pub prep_fired: bool,
    /// The support weapon categories fired in the latest fire phase in
    /// which the unit fired one.
    pub weapons_fired: Option<WeaponFire>,
    /// Portage points carried when the unit moved.
    pub portage_load: u8,
}

impl ActionRecord {
    pub open spec fn is_empty(self) -> bool {
        self == ActionRecord::empty_spec()
    }

    pub open spec fn empty_spec() -> ActionRecord {
        ActionRecord { moved: false, prep_fired: false, weapons_fired: None, portage_load: 0 }
    }

    pub fn empty() -> (r: ActionRecord)
        ensures
            r == ActionRecord::empty_spec(),
    {
        ActionRecord { moved: false, prep_fired: false, weapons_fired: None, portage_load: 0 }
    }
}

/// A combat unit on the map.
#[derive(Clone, Copy, Debug, PartialEq, Eq, Structural)]
pub struct Unit {
    pub id: u32,
    pub owner: Side,
    /// Index of the hex the unit stands on.
    pub hex: usize,
    pub condition: Condition,
    pub kind: UnitKind,
    /// Portage points the unit carries now.
    pub portage: u8,
    pub record: ActionRecord,
}

impl Unit {
    pub open spec fn is_broken(self) -> bool {
        self.condition == Condition::Broken
    }

    /// A unit at the start of play: composed, with an empty record.
    pub fn new(id: u32, owner: Side, hex: usize, kind: UnitKind, portage: u8) -> (u: Unit)
        ensures
            u.id == id,
            u.owner == owner,
            u.hex == hex,
            u.kind == kind,
            u.portage == portage,
            u.condition == Condition::Composed,
            u.record.is_empty(),
    {
        Unit { id, owner, hex, condition: Condition::Composed, kind, portage, record: ActionRecord::empty() }
    }

    pub fn has_moved(&self) -> (r: bool)
        ensures
            r == self.record.moved,
    {
        self.record.moved
    }

    pub fn has_prepfired(&self) -> (r: bool)
        ensures
            r == self.record.prep_fired,
    {
        self.record.prep_fired
    }

    pub fn broken(&self) -> (r: bool)
        ensures
            r == self.is_broken(),
    {
        match self.condition {
            Condition::Broken => true,
            Condition::Composed => false,
        }
    }

    /// Puts the unit on another hex; nothing else changes.
    pub fn move_to_dest(&mut self, dest: usize)
        ensures
            *final(self) == (Unit { hex: dest, ..*old(self) }),
    {
        self.hex = dest;
    }

    /// Movement factors the unit has for a turn, before any leader bonus.
    pub fn movement_allotment(&self) -> (r: u32)
        ensures
            r == allotment_of(self.kind),
    {
        match self.kind {
            UnitKind::Squad(_) => SQUAD_MF,
            UnitKind::Leader(_) => LEADER_MF,
            UnitKind::Vehicle(v) => v.mf as u32,
            UnitKind::SupportWeapon(_) => 0,
        }
    }

    pub fn firepower(&self) -> (r: u32)
        ensures
            r == rated_firepower(self.kind),
    {
        match self.kind {
            UnitKind::Squad(s) => s.firepower as u32,
            UnitKind::Leader(l) => l.firepower as u32,
            UnitKind::SupportWeapon(w) => w.firepower as u32,
            UnitKind::Vehicle(_) => 0,
        }
    }

    pub fn range(&self) -> (r: u32)
        ensures
            r == rated_range(self.kind),
    {
        match self.kind {
            UnitKind::Squad(s) => s.range as u32,
            UnitKind::Leader(l) => l.range as u32,
            UnitKind::SupportWeapon(w) => w.range as u32,
            UnitKind::Vehicle(_) => 0,
        }
    }

    /// Sets the condition, as a rally or a morale result decides it.
    pub fn set_condition(&mut self, c: Condition)
        ensures
            *final(self) == (Unit { condition: c, ..*old(self) }),
    {
        self.condition = c;
    }

    /// Clears the action record at the start of a game turn.
    pub fn reset_record(&mut self)
        ensures
            *final(self) == (Unit { record: ActionRecord::empty_spec(), ..*old(self) }),
    {
        self.record = ActionRecord::empty();
    }
}

/// Whether a unit may carry its load one hex in the Advance phase.
pub fn carry_during_advance_phase(u: &Unit) -> (r: bool)
    ensures
        r == match portage_limit(u.kind) {
            Some(limit) => u.portage <= limit,
            None => true,
        },
{
    match u.kind {
        UnitKind::Squad(_) => u.portage <= SQUAD_PORTAGE_LIMIT,
        UnitKind::Leader(_) => u.portage <= LEADER_PORTAGE_LIMIT,
        _ => true,
    }
}

/// Whether a unit may fire in the AdvancingFire phase, given the portage
/// it carried when it moved this turn.
pub fn may_fire_support_weapon(u: &Unit) -> (r: bool)
    ensures
        r == !(u.record.moved && match portage_forfeit(u.kind) {
            Some(t) => u.record.portage_load >= t,
            None => false,
        }),
{
    if !u.record.moved {
        return true;
    }
    match u.kind {
        UnitKind::Squad(_) => u.record.portage_load < SQUAD_PORTAGE_FORFEIT,
        UnitKind::Leader(_) => u.record.portage_load < LEADER_PORTAGE_FORFEIT,
        _ => true,
    }
}

/// Anything that can carry equipment and portable weapons.
pub trait Carrier {
    /// Whether it can pick up a load.
    fn carry() -> bool;

    /// Whether it can leave its load behind.
    fn abandon() -> bool;
}

impl Carrier for Squad {
    fn carry() -> bool {
        true
    }

    fn abandon() -> bool {
        true
    }
}

impl Carrier for Leader {
    fn carry() -> bool {
        true
    }

    fn abandon() -> bool {
        true
    }
}

impl Carrier for Vehicle {
    fn carry() -> bool {
        true
    }

    fn abandon() -> bool {
        true
    }
}

} // verus!
