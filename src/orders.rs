use vstd::prelude::*;
use crate::phase::{Phase, TurnState};
use crate::unit::{
    ActionRecord, CategorySet, Condition, Unit, WeaponFire, WeaponType, category, portage_limit,
    portage_forfeit, carry_during_advance_phase, may_fire_support_weapon,
};

verus! {

#[derive(Clone, Copy, Debug, PartialEq, Eq, Structural)]
pub enum OrderKind {
    Move,
    PrepFire,
    DefensiveFire,
    AdvancedFire,
    Advance,
    Rally,
}

/// Why an order was refused.
#[derive(Clone, Copy, Debug, PartialEq, Eq, Structural)]
pub enum Rejection {
    EntityBroken,
    AlreadyPrepFired,
    AlreadyMoved,
    WrongPhase,
    NotActiveSide,
    SameWeaponTypeAlreadyFired,
    OverPortage,
}

/// The answer to an order.
#[derive(Clone, Copy, Debug, PartialEq, Eq, Structural)]
pub enum OrderResponse {
    CopyThat,
    Refused(Rejection),
}

/// The one phase in which each kind of order may be given.
pub open spec fn legal_phase(kind: OrderKind) -> Phase {
    match kind {
        OrderKind::Move => Phase::Movement,
        OrderKind::PrepFire => Phase::PrepFire,
        OrderKind::DefensiveFire => Phase::DefensiveFire,
        OrderKind::AdvancedFire => Phase::AdvancingFire,
        OrderKind::Advance => Phase::Advance,
        OrderKind::Rally => Phase::Rally,
    }
}

pub open spec fn is_fire(kind: OrderKind) -> bool {
    matches!(kind, OrderKind::PrepFire | OrderKind::DefensiveFire | OrderKind::AdvancedFire)
}

/// Both players may give these orders; the others only the active player.
pub open spec fn open_to_both(kind: OrderKind) -> bool {
    matches!(kind, OrderKind::Rally | OrderKind::DefensiveFire)
}

pub open spec fn over_portage(kind: OrderKind, weapon: Option<WeaponType>, u: Unit) -> bool {
    ||| (kind == OrderKind::Move || kind == OrderKind::Advance) && match portage_limit(u.kind) {
        Some(limit) => u.portage > limit,
        None => false,
    }
    ||| kind == OrderKind::AdvancedFire && u.record.moved && match portage_forfeit(u.kind) {
        Some(t) => u.record.portage_load >= t,
        None => false,
    }
}

pub open spec fn repeats_weapon(kind: OrderKind, weapon: Option<WeaponType>, u: Unit, phase: Phase) -> bool {
    &&& is_fire(kind)
    &&& weapon matches Some(w)
    &&& u.record.weapons_fired matches Some(f)
    &&& f.phase == phase
    &&& f.categories.contains(category(w))
}

/// The categories fired in `phase` after firing `w` in it.
pub open spec fn fired_after(prev: Option<WeaponFire>, w: WeaponType, phase: Phase) -> WeaponFire {
    let before = match prev {
        Some(f) => if f.phase == phase {
            f.categories
        } else {
            CategorySet::empty_spec()
        },
        None => CategorySet::empty_spec(),
    };
    WeaponFire { phase, categories: before.with(category(w)) }
}

/// The reason an order is refused, checked in this order, or `None` if it
/// is accepted. `weapon` is the support weapon a fire order uses, if any.
pub open spec fn rejection(kind: OrderKind, weapon: Option<WeaponType>, u: Unit, s: TurnState) -> Option<Rejection> {
    if u.condition == Condition::Broken && kind != OrderKind::Rally {
        Some(Rejection::EntityBroken)
    } else if s.phase != legal_phase(kind) {
        Some(Rejection::WrongPhase)
    } else if !open_to_both(kind) && u.owner != s.active() {
        Some(Rejection::NotActiveSide)
    } else if (kind == OrderKind::Move || kind == OrderKind::AdvancedFire) && u.record.prep_fired {
        Some(Rejection::AlreadyPrepFired)
    } else if (kind == OrderKind::Move || kind == OrderKind::PrepFire) && u.record.moved {
        Some(Rejection::AlreadyMoved)
    } else if repeats_weapon(kind, weapon, u, s.phase) {
        Some(Rejection::SameWeaponTypeAlreadyFired)
    } else if over_portage(kind, weapon, u) {
        Some(Rejection::OverPortage)
    } else {
        None
    }
}

/// The action record after an accepted order.
pub open spec fn recorded(kind: OrderKind, weapon: Option<WeaponType>, u: Unit, phase: Phase) -> ActionRecord {
    let r = u.record;
    let r1 = if kind == OrderKind::Move {
        ActionRecord { moved: true, portage_load: u.portage, ..r }
    } else if kind == OrderKind::PrepFire {
        ActionRecord { prep_fired: true, ..r }
    } else {
        r
    };
    if is_fire(kind) && weapon.is_some() {
        ActionRecord { weapons_fired: Some(fired_after(r.weapons_fired, weapon.unwrap(), phase)), ..r1 }
    } else {
        r1
    }
}

/// Checks an order against the unit's condition and record and the state of
/// play. Changes nothing.
pub fn validate(kind: OrderKind, weapon: Option<WeaponType>, u: &Unit, s: &TurnState) -> (r: Result<(), Rejection>)
    ensures
        r is Ok <==> rejection(kind, weapon, *u, *s).is_none(),
        r is Err ==> rejection(kind, weapon, *u, *s) == Some(r->Err_0),
{
    let broken = u.broken();
    if broken && kind != OrderKind::Rally {
        return Err(Rejection::EntityBroken);
    }
    let phase_ok = match kind {
        OrderKind::Move => s.phase == Phase::Movement,
        OrderKind::PrepFire => s.phase == Phase::PrepFire,
        OrderKind::DefensiveFire => s.phase == Phase::DefensiveFire,
        OrderKind::AdvancedFire => s.phase == Phase::AdvancingFire,
        OrderKind::Advance => s.phase == Phase::Advance,
        OrderKind::Rally => s.phase == Phase::Rally,
    };
    if !phase_ok {
        return Err(Rejection::WrongPhase);
    }
    let both = kind == OrderKind::Rally || kind == OrderKind::DefensiveFire;
    if !both && u.owner != s.active_side() {
        return Err(Rejection::NotActiveSide);
    }
    if (kind == OrderKind::Move || kind == OrderKind::AdvancedFire) && u.has_prepfired() {
        return Err(Rejection::AlreadyPrepFired);
    }
    if (kind == OrderKind::Move || kind == OrderKind::PrepFire) && u.has_moved() {
        return Err(Rejection::AlreadyMoved);
    }
    let fire = kind == OrderKind::PrepFire || kind == OrderKind::DefensiveFire || kind
        == OrderKind::AdvancedFire;
    if fire {
        if let Some(w) = weapon {
            if let Some(f) = u.record.weapons_fired {
                if f.phase == s.phase && f.categories.has(w.category()) {
                    return Err(Rejection::SameWeaponTypeAlreadyFired);
                }
            }
        }
    }
    if (kind == OrderKind::Move || kind == OrderKind::Advance) && !carry_during_advance_phase(u) {
        return Err(Rejection::OverPortage);
    }
    if kind == OrderKind::AdvancedFire && !may_fire_support_weapon(u) {
        return Err(Rejection::OverPortage);
    }
    Ok(())
}

/// Updates the unit's action record for an accepted order.
pub fn record_order(u: &mut Unit, kind: OrderKind, weapon: Option<WeaponType>, phase: Phase)
    ensures
        *final(u) == (Unit { record: recorded(kind, weapon, *old(u), phase), ..*old(u) }),
{
    if kind == OrderKind::Move {
        u.record.moved = true;
        u.record.portage_load = u.portage;
    } else if kind == OrderKind::PrepFire {
        u.record.prep_fired = true;
    }
    let fire = kind == OrderKind::PrepFire || kind == OrderKind::DefensiveFire || kind
        == OrderKind::AdvancedFire;
    if fire {
        if let Some(w) = weapon {
            let mut categories = match u.record.weapons_fired {
                Some(f) => if f.phase == phase {
                    f.categories
                } else {
                    CategorySet::empty()
                },
                None => CategorySet::empty(),
            };
            categories.insert(w.category());
            u.record.weapons_fired = Some(WeaponFire { phase, categories });
        }
    }
}

/// Checks an order and, when it is accepted, records it on the unit at once.
/// A refused order leaves the unit unchanged.
pub fn order_unit(u: &mut Unit, kind: OrderKind, weapon: Option<WeaponType>, s: &TurnState) -> (r: Result<(), Rejection>)
    ensures
        r is Ok <==> rejection(kind, weapon, *old(u), *s).is_none(),
        r is Err ==> rejection(kind, weapon, *old(u), *s) == Some(r->Err_0) && *final(u) == *old(u),
        r is Ok ==> *final(u) == (Unit { record: recorded(kind, weapon, *old(u), s.phase), ..*old(u) }),
{
    match validate(kind, weapon, u, s) {
        Err(e) => Err(e),
        Ok(()) => {
            record_order(u, kind, weapon, s.phase);
            Ok(())
        },
    }
}

/// A broken unit is refused every order but Rally, for that reason first.
pub proof fn lemma_broken_refused(kind: OrderKind, weapon: Option<WeaponType>, u: Unit, s: TurnState)
    requires
        u.condition == Condition::Broken,
    ensures
        kind != OrderKind::Rally ==> rejection(kind, weapon, u, s) == Some(Rejection::EntityBroken),
        kind == OrderKind::Rally ==> rejection(kind, weapon, u, s) != Some(Rejection::EntityBroken),
{
}

/// A squad that prep-fires may not move in the ensuing Movement phase.
pub proof fn lemma_prep_fire_then_move(weapon: Option<WeaponType>, u: Unit, s: TurnState)
    requires
        s.wf(),
        !s.complete,
        s.phase == Phase::PrepFire,
        u.kind is Squad,
        rejection(OrderKind::PrepFire, weapon, u, s).is_none(),
    ensures
        ({
            let u2 = Unit { record: recorded(OrderKind::PrepFire, weapon, u, s.phase), ..u };
            rejection(OrderKind::Move, None, u2, s.step()) == Some(Rejection::AlreadyPrepFired)
        }),
{
}

/// The message a unit answers an order with.
pub open spec fn response_text(r: OrderResponse) -> Seq<char> {
    match r {
        OrderResponse::CopyThat => "Copy that, Sir! Executing order."@,
        OrderResponse::Refused(Rejection::EntityBroken) => "The unit is broken and unable to execute the order."@,
        OrderResponse::Refused(Rejection::AlreadyPrepFired) => "The unit fired during the prep fire phase and is therefore not eligable for this order."@,
        OrderResponse::Refused(Rejection::AlreadyMoved) => "The unit moved this turn and is therefore not eligible for this order."@,
        OrderResponse::Refused(Rejection::WrongPhase) => "This order cannot be given in the current phase."@,
        OrderResponse::Refused(Rejection::NotActiveSide) => "The unit's side is not the one to act in this phase."@,
        OrderResponse::Refused(Rejection::SameWeaponTypeAlreadyFired) => "The unit already fired a weapon of this type in this phase."@,
        OrderResponse::Refused(Rejection::OverPortage) => "The unit carries too much to execute the order."@,
    }
}

pub fn response_to_order(response: OrderResponse) -> (r: String)
    ensures
        r@ == response_text(response),
{
    match response {
        OrderResponse::CopyThat => String::from_str("Copy that, Sir! Executing order."),
        OrderResponse::Refused(Rejection::EntityBroken) => String::from_str("The unit is broken and unable to execute the order."),
        OrderResponse::Refused(Rejection::AlreadyPrepFired) => String::from_str("The unit fired during the prep fire phase and is therefore not eligable for this order."),
        OrderResponse::Refused(Rejection::AlreadyMoved) => String::from_str("The unit moved this turn and is therefore not eligible for this order."),
        OrderResponse::Refused(Rejection::WrongPhase) => String::from_str("This order cannot be given in the current phase."),
        OrderResponse::Refused(Rejection::NotActiveSide) => String::from_str("The unit's side is not the one to act in this phase."),
        OrderResponse::Refused(Rejection::SameWeaponTypeAlreadyFired) => String::from_str("The unit already fired a weapon of this type in this phase."),
        OrderResponse::Refused(Rejection::OverPortage) => String::from_str("The unit carries too much to execute the order."),
    }
}

/// Anything on the battlefield that can be given an order and answers it.
pub trait Orderable {
    /// The answer to an order that will be carried out.
    fn copythat() -> String;
}

impl Orderable for Unit {
    fn copythat() -> String {
        response_to_order(OrderResponse::CopyThat)
    }
}

} // verus!
