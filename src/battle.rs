use vstd::prelude::*;
use crate::grid::{Grid, Hex, map_ok, at_coord, hex_distance, coord_distance, get_distance};
use crate::phase::{Phase, PhaseError, Side, TurnState, game_loop};
use crate::terrain::Terrain;
use crate::unit::{Condition, Unit, UnitKind, SupportWeapon, ActionRecord, LEADER_BONUS_MF, allotment_of, rated_range};
use crate::sight::{get_los, line_on_map, sight_clear};
use crate::orders::{OrderKind, Rejection, rejection, recorded, validate, record_order, is_fire};
use crate::movement::{MovementError, path_cost, path_in_bounds, path_adjacent, plan_path};
use crate::fire::{
    FireError, FireOutcome, shot_refusal, determine_fire_effect, affected_coords, applied_firepower,
    shot_firepower,
};
use crate::combat::{Engagement, engagements, close_combat};

verus! {

/// Why an order submitted to a battle failed. Nothing changes when it does.
#[derive(Clone, Copy, Debug, PartialEq, Eq, Structural)]
pub enum OrderError {
    /// A unit index names no unit.
    UnknownUnit,
    /// The escort named for a move is not a composed leader of the same side
    /// on the squad's hex that may itself move.
    InvalidEscort,
    /// The weapon named is not a support weapon of the firer's side on the
    /// firer's hex.
    InvalidWeapon,
    Rejected(Rejection),
    Movement(MovementError),
    Fire(FireError),
}

#[derive(Clone, Copy, Debug, PartialEq, Eq, Structural)]
pub enum LoadError {
    /// A hex is malformed or two hexes share coordinates.
    InvalidMap,
    /// A unit stands on a hex the map does not have.
    UnitOffMap,
    /// The scenario has no game turn.
    NoTurns,
}

/// Some unit of another side than `side` stands on hex `h`.
pub open spec fn enemy_on(units: Seq<Unit>, h: int, side: Side) -> bool {
    exists|i: int| 0 <= i < units.len() && (#[trigger] units[i]).hex == h && units[i].owner != side
}

/// The unit after an accepted move to `dest`.
pub open spec fn moved(u: Unit, dest: usize, phase: Phase) -> Unit {
    Unit { hex: dest, record: recorded(OrderKind::Move, None, u, phase), ..u }
}

/// The leader `l` may escort squad `s` through a whole move.
pub open spec fn escort_ok(units: Seq<Unit>, s: int, l: int, t: TurnState) -> bool {
    &&& 0 <= l < units.len()
    &&& l != s
    &&& units[s].kind is Squad
    &&& units[l].kind is Leader
    &&& units[l].owner == units[s].owner
    &&& units[l].hex == units[s].hex
    &&& rejection(OrderKind::Move, None, units[l], t).is_none()
}

/// The whole session: the map, the units and the state of play.
#[derive(Clone, Debug)]
pub struct BattleManager {
    pub grid: Grid,
    pub units: Vec<Unit>,
    pub turn: TurnState,
}

impl BattleManager {
    pub open spec fn wf(&self) -> bool {
        &&& self.grid.wf()
        &&& self.turn.wf()
        &&& forall|i: int| 0 <= i < self.units@.len() ==> (#[trigger] self.units@[i]).hex < self.grid.len()
    }

    /// Loads a scenario: a map, units on it and a number of game turns.
    pub fn new(hexes: Vec<Hex>, units: Vec<Unit>, turns: u32) -> (r: Result<BattleManager, LoadError>)
        ensures
            r matches Ok(b) ==> b.wf() && b.grid.hexes@ == hexes@ && b.units@ == units@ && b.turn
                == TurnState::new_spec(turns),
            !map_ok(hexes@) ==> r == Err::<BattleManager, LoadError>(LoadError::InvalidMap),
            map_ok(hexes@) && !(forall|i: int| 0 <= i < units@.len() ==> (#[trigger] units@[i]).hex < hexes@.len())
                ==> r == Err::<BattleManager, LoadError>(LoadError::UnitOffMap),
            map_ok(hexes@) && (forall|i: int| 0 <= i < units@.len() ==> (#[trigger] units@[i]).hex < hexes@.len())
                ==> (r is Ok <==> turns >= 1),
    {
        let ghost hs = hexes@;
        let grid = match Grid::from_hexes(hexes) {
            None => {
                return Err(LoadError::InvalidMap);
            },
            Some(g) => g,
        };
        let mut i: usize = 0;
        while i < units.len()
            invariant
                i <= units.len(),
                grid.wf(),
                grid.hexes@ == hs,
                hs == hexes@,
                forall|k: int| 0 <= k < i ==> (#[trigger] units@[k]).hex < hs.len(),
            decreases units.len() - i,
        {
            if units[i].hex >= grid.hexes.len() {
                return Err(LoadError::UnitOffMap);
            }
            i = i + 1;
        }
        if turns == 0 {
            return Err(LoadError::NoTurns);
        }
        Ok(BattleManager { grid, units, turn: TurnState::new(turns) })
    }

    pub fn is_scenario_complete(&self) -> (r: bool)
        ensures
            r == self.turn.complete,
    {
        self.turn.is_complete()
    }

    /// A copy of unit `id`, if there is one.
    pub fn query_entity(&self, id: usize) -> (r: Option<Unit>)
        ensures
            id < self.units@.len() ==> r == Some(self.units@[id as int]),
            id >= self.units@.len() ==> r is None,
    {
        if id < self.units.len() {
            Some(self.units[id])
        } else {
            None
        }
    }

    /// Moves play on by one phase. When a new game turn begins, every unit's
    /// action record is cleared; at no other time.
    pub fn advance_phase(&mut self) -> (r: Result<Phase, PhaseError>)
        requires
            old(self).wf(),
        ensures
            final(self).wf(),
            final(self).grid == old(self).grid,
            old(self).turn.complete ==> r == Err::<Phase, PhaseError>(PhaseError::AlreadyComplete)
                && *final(self) == *old(self),
            !old(self).turn.complete ==> r == Ok::<Phase, PhaseError>(final(self).turn.phase)
                && final(self).turn == old(self).turn.step(),
            final(self).units@.len() == old(self).units@.len(),
            final(self).turn.turn != old(self).turn.turn ==> forall|i: int|
                0 <= i < final(self).units@.len() ==> #[trigger] final(self).units@[i] == (Unit {
                    record: ActionRecord::empty_spec(),
                    ..old(self).units@[i]
                }),
            final(self).turn.turn == old(self).turn.turn ==> final(self).units@ == old(self).units@,
    {
        let before = self.turn.turn;
        let r = game_loop(&mut self.turn);
        if self.turn.turn != before {
            let ghost prev = self.units@;
            let ghost s0 = *self;
            let mut i: usize = 0;
            while i < self.units.len()
                invariant
                    s0.wf(),
                    s0.units@ == prev,
                    self.grid == s0.grid,
                    self.turn == s0.turn,
                    i <= self.units@.len(),
                    self.units@.len() == prev.len(),
                    forall|k: int| 0 <= k < i ==> #[trigger] self.units@[k] == (Unit {
                        record: ActionRecord::empty_spec(),
                        ..prev[k]
                    }),
                    forall|k: int| i <= k < prev.len() ==> #[trigger] self.units@[k] == prev[k],
                decreases self.units.len() - i,
            {
                let mut u = self.units[i];
                u.reset_record();
                self.units.set(i, u);
                i = i + 1;
            }
        }
        assert(forall|k: int| 0 <= k < self.units@.len() ==> (#[trigger] self.units@[k]).hex < self.grid.len()) by {
            assert(forall|k: int| 0 <= k < self.units@.len() ==> (#[trigger] self.units@[k]).hex == old(self).units@[k].hex);
        }
        r
    }

    /// Whether unit `unit` may be ordered to move now.
    pub fn unit_can_move(&self, unit: usize) -> (r: Result<(), Rejection>)
        requires
            unit < self.units@.len(),
        ensures
            r is Ok <==> rejection(OrderKind::Move, None, self.units@[unit as int], self.turn).is_none(),
            r matches Err(e) ==> rejection(OrderKind::Move, None, self.units@[unit as int], self.turn) == Some(e),
    {
        validate(OrderKind::Move, None, &self.units[unit], &self.turn)
    }
}

/// Why a move of unit `unit` along `path`, escorted by `escort` if given,
/// is refused, in the order the checks are made.
pub open spec fn move_refusal(b: BattleManager, unit: int, path: Seq<usize>, escort: Option<usize>) -> Option<OrderError> {
    let units = b.units@;
    let g = b.grid.hexes@;
    if unit < 0 || unit >= units.len() {
        Some(OrderError::UnknownUnit)
    } else if rejection(OrderKind::Move, None, units[unit], b.turn) is Some {
        Some(OrderError::Rejected(rejection(OrderKind::Move, None, units[unit], b.turn)->0))
    } else if escort matches Some(l) && !escort_ok(units, unit, l as int, b.turn) {
        Some(OrderError::InvalidEscort)
    } else if !path_in_bounds(g, units[unit].hex, path) {
        Some(OrderError::Movement(MovementError::OutOfBounds))
    } else if !path_adjacent(g, units[unit].hex, path) {
        Some(OrderError::Movement(MovementError::NotAdjacent))
    } else if path_cost(g, units[unit].hex, path, path.len() as int) > move_allotment(units[unit], escort) {
        Some(OrderError::Movement(MovementError::InsufficientMovementFactors))
    } else if path.len() > 0 && enemy_on(units, path.last() as int, units[unit].owner) {
        Some(OrderError::Movement(MovementError::EnemyOccupiedDestination))
    } else {
        None
    }
}

/// Movement factors for a move: the unit's own, plus the leader bonus when
/// escorted.
pub open spec fn move_allotment(u: Unit, escort: Option<usize>) -> nat {
    allotment_of(u.kind) + if escort is Some {
        LEADER_BONUS_MF as nat
    } else {
        0
    }
}

/// The hex a move along `path` from `start` ends on.
pub open spec fn destination(start: usize, path: Seq<usize>) -> usize {
    if path.len() == 0 {
        start
    } else {
        path.last()
    }
}

/// The units after an accepted move: the mover, and its escort if any,
/// stand on the destination and have moved.
pub open spec fn after_move(units: Seq<Unit>, unit: int, dest: usize, escort: Option<usize>, phase: Phase) -> Seq<Unit> {
    let once = units.update(unit, moved(units[unit], dest, phase));
    match escort {
        Some(l) => once.update(l as int, moved(units[l as int], dest, phase)),
        None => once,
    }
}

/// An accepted move spent `cost`, the cost of the path, and left `after`
/// as the units.
pub open spec fn move_accepted(
    b: BattleManager,
    unit: int,
    path: Seq<usize>,
    escort: Option<usize>,
    cost: u32,
    after: Seq<Unit>,
) -> bool {
    let u = b.units@[unit];
    &&& cost == path_cost(b.grid.hexes@, u.hex, path, path.len() as int)
    &&& after == after_move(b.units@, unit, destination(u.hex, path), escort, b.turn.phase)
}

/// Why an Advance of unit `unit` into hex `dest` is refused.
pub open spec fn advance_refusal(b: BattleManager, unit: int, dest: usize) -> Option<OrderError> {
    let units = b.units@;
    let g = b.grid.hexes@;
    if unit < 0 || unit >= units.len() {
        Some(OrderError::UnknownUnit)
    } else if rejection(OrderKind::Advance, None, units[unit], b.turn) is Some {
        Some(OrderError::Rejected(rejection(OrderKind::Advance, None, units[unit], b.turn)->0))
    } else if dest >= g.len() {
        Some(OrderError::Movement(MovementError::OutOfBounds))
    } else if hex_distance(g[units[unit].hex as int].coord, g[dest as int].coord) != 1 {
        Some(OrderError::Movement(MovementError::NotAdjacent))
    } else {
        None
    }
}

/// After an accepted Advance the unit stands on `dest`; nothing else changes.
pub open spec fn advance_accepted(b: BattleManager, unit: int, dest: usize, after: Seq<Unit>) -> bool {
    after == b.units@.update(unit, Unit { hex: dest, ..b.units@[unit] })
}

/// Why a rally attempt by unit `unit` is refused.
pub open spec fn rally_refusal(b: BattleManager, unit: int) -> Option<OrderError> {
    if unit < 0 || unit >= b.units@.len() {
        Some(OrderError::UnknownUnit)
    } else if rejection(OrderKind::Rally, None, b.units@[unit], b.turn) is Some {
        Some(OrderError::Rejected(rejection(OrderKind::Rally, None, b.units@[unit], b.turn)->0))
    } else {
        None
    }
}

/// After an accepted rally a recovered unit is composed; nothing else changes.
pub open spec fn rally_accepted(b: BattleManager, unit: int, recovered: bool, after: Seq<Unit>) -> bool {
    after == if recovered {
        b.units@.update(unit, Unit { condition: Condition::Composed, ..b.units@[unit] })
    } else {
        b.units@
    }
}

impl BattleManager {
    /// Whether a unit of another side than `side` stands on hex `h`.
    pub fn enemy_present(&self, h: usize, side: Side) -> (r: bool)
        ensures
            r == enemy_on(self.units@, h as int, side),
    {
        let mut i: usize = 0;
        while i < self.units.len()
            invariant
                i <= self.units@.len(),
                forall|k: int| 0 <= k < i ==> !((#[trigger] self.units@[k]).hex == h && self.units@[k].owner != side),
            decreases self.units.len() - i,
        {
            if self.units[i].hex == h && self.units[i].owner != side {
                return true;
            }
            i = i + 1;
        }
        false
    }

    /// Orders unit `unit` to move along `path`, the hexes it enters in
    /// order, optionally escorted by the leader `escort`, which moves with
    /// it and earns it a bonus. Returns the movement factors spent.
    pub fn order_move(&mut self, unit: usize, path: &Vec<usize>, escort: Option<usize>) -> (r: Result<u32, OrderError>)
        requires
            old(self).wf(),
        ensures
            final(self).wf(),
            final(self).grid == old(self).grid,
            final(self).turn == old(self).turn,
            move_refusal(*old(self), unit as int, path@, escort) matches Some(e) ==> r == Err::<u32, OrderError>(e)
                && *final(self) == *old(self),
            move_refusal(*old(self), unit as int, path@, escort) is None ==> (r matches Ok(c)
                && move_accepted(*old(self), unit as int, path@, escort, c, final(self).units@)),
    {
        if unit >= self.units.len() {
            return Err(OrderError::UnknownUnit);
        }
        let u = self.units[unit];
        if let Err(e) = validate(OrderKind::Move, None, &u, &self.turn) {
            return Err(OrderError::Rejected(e));
        }
        let mut allotment = u.movement_allotment();
        if let Some(l) = escort {
            if l >= self.units.len() || l == unit {
                return Err(OrderError::InvalidEscort);
            }
            let leader = self.units[l];
            let kinds_ok = match (u.kind, leader.kind) {
                (UnitKind::Squad(_), UnitKind::Leader(_)) => true,
                _ => false,
            };
            if !kinds_ok || leader.owner != u.owner || leader.hex != u.hex {
                return Err(OrderError::InvalidEscort);
            }
            if validate(OrderKind::Move, None, &leader, &self.turn).is_err() {
                return Err(OrderError::InvalidEscort);
            }
            allotment = allotment + LEADER_BONUS_MF;
        }
        let cost = match plan_path(&self.grid, u.hex, path, allotment) {
            Err(e) => {
                return Err(OrderError::Movement(e));
            },
            Ok(c) => c,
        };
        let dest = if path.len() == 0 {
            u.hex
        } else {
            path[path.len() - 1]
        };
        if path.len() > 0 && self.enemy_present(dest, u.owner) {
            return Err(OrderError::Movement(MovementError::EnemyOccupiedDestination));
        }
        let phase = self.turn.phase;
        let mut mover = u;
        record_order(&mut mover, OrderKind::Move, None, phase);
        mover.move_to_dest(dest);
        self.units.set(unit, mover);
        if let Some(l) = escort {
            let mut leader = self.units[l];
            record_order(&mut leader, OrderKind::Move, None, phase);
            leader.move_to_dest(dest);
            self.units.set(l, leader);
        }
        proof {
            assert(dest < self.grid.len());
            assert forall|k: int| 0 <= k < self.units@.len() implies (#[trigger] self.units@[k]).hex < self.grid.len() by {
                if k != unit && (escort is None || k != escort->0) {
                    assert(self.units@[k] == old(self).units@[k]);
                }
            }
        }
        Ok(cost)
    }
}

/// The support weapon named by index `w`, if it is one.
pub open spec fn weapon_at(units: Seq<Unit>, w: int) -> Option<SupportWeapon> {
    if 0 <= w < units.len() && units[w].kind is SupportWeapon {
        Some(units[w].kind->SupportWeapon_0)
    } else {
        None
    }
}

pub open spec fn weapon_ok(units: Seq<Unit>, firer: int, w: int) -> bool {
    &&& weapon_at(units, w) is Some
    &&& units[w].owner == units[firer].owner
    &&& units[w].hex == units[firer].hex
}

pub open spec fn weapon_used(units: Seq<Unit>, weapon: Option<usize>) -> Option<SupportWeapon> {
    match weapon {
        Some(w) => weapon_at(units, w as int),
        None => None,
    }
}

/// Why a fire order is refused, in the order the checks are made.
pub open spec fn fire_order_refusal(
    b: BattleManager,
    kind: OrderKind,
    firer: int,
    weapon: Option<usize>,
    target: int,
    extra: Seq<u32>,
) -> Option<OrderError> {
    let units = b.units@;
    if firer < 0 || firer >= units.len() || target < 0 || target >= units.len() {
        Some(OrderError::UnknownUnit)
    } else if weapon matches Some(w) && !weapon_ok(units, firer, w as int) {
        Some(OrderError::InvalidWeapon)
    } else {
        let sw = weapon_used(units, weapon);
        let wt = match sw {
            Some(x) => Some(x.weapon),
            None => None,
        };
        if rejection(kind, wt, units[firer], b.turn) is Some {
            Some(OrderError::Rejected(rejection(kind, wt, units[firer], b.turn)->0))
        } else if shot_refusal(b.grid.hexes@, units[firer], sw, units[target].hex as int, b.turn.phase, extra) is Some {
            Some(OrderError::Fire(shot_refusal(b.grid.hexes@, units[firer], sw, units[target].hex as int, b.turn.phase, extra)->0))
        } else {
            None
        }
    }
}

/// What an accepted fire order brings: the firepower applied, the terrain
/// effect of the target's hex, the target hex then the chosen hexes beyond
/// it, and the firer's record noting the shot, all else unchanged.
pub open spec fn fire_accepted(
    b: BattleManager,
    kind: OrderKind,
    firer: int,
    weapon: Option<usize>,
    target: int,
    extra: Seq<u32>,
    o: FireOutcome,
    after: Seq<Unit>,
) -> bool {
    let units = b.units@;
    let g = b.grid.hexes@;
    let sw = weapon_used(units, weapon);
    let wt = match sw {
        Some(x) => Some(x.weapon),
        None => None,
    };
    let from = units[firer].hex as int;
    let at = units[target].hex as int;
    &&& o.firepower == applied_firepower(shot_firepower(units[firer], sw), units[firer], b.turn.phase)
    &&& o.affected@.len() == extra.len() + 1
    &&& o.affected@[0] == units[target].hex
    &&& o.terrain_effect == g[at].combat_cost()
    &&& forall|k: int|
        0 <= k < o.affected@.len() ==> #[trigger] o.affected@[k] < g.len() && at_coord(
            g[o.affected@[k] as int],
            affected_coords(g, from, at, extra)[k].0,
            affected_coords(g, from, at, extra)[k].1,
        )
    &&& after == units.update(
        firer,
        Unit { record: recorded(kind, wt, units[firer], b.turn.phase), ..units[firer] },
    )
}

impl BattleManager {
    /// Orders unit `firer` to fire, with the support weapon `weapon` if
    /// given, at unit `target`, affecting in addition the hexes `extra` steps
    /// beyond it. On success the firer's record notes the shot.
    pub fn order_fire(
        &mut self,
        kind: OrderKind,
        firer: usize,
        weapon: Option<usize>,
        target: usize,
        extra: &Vec<u32>,
    ) -> (r: Result<FireOutcome, OrderError>)
        requires
            old(self).wf(),
            is_fire(kind),
        ensures
            final(self).wf(),
            final(self).grid == old(self).grid,
            final(self).turn == old(self).turn,
            fire_order_refusal(*old(self), kind, firer as int, weapon, target as int, extra@) matches Some(e)
                ==> r matches Err(e2) && e2 == e && *final(self) == *old(self),
            fire_order_refusal(*old(self), kind, firer as int, weapon, target as int, extra@) is None ==> (r
                matches Ok(o) && fire_accepted(
                *old(self),
                kind,
                firer as int,
                weapon,
                target as int,
                extra@,
                o,
                final(self).units@,
            )),
    {
        if firer >= self.units.len() || target >= self.units.len() {
            return Err(OrderError::UnknownUnit);
        }
        let u = self.units[firer];
        let mut sw: Option<SupportWeapon> = None;
        if let Some(w) = weapon {
            if w >= self.units.len() {
                return Err(OrderError::InvalidWeapon);
            }
            let carried = self.units[w];
            match carried.kind {
                UnitKind::SupportWeapon(x) => {
                    if carried.owner != u.owner || carried.hex != u.hex {
                        return Err(OrderError::InvalidWeapon);
                    }
                    sw = Some(x);
                },
                _ => {
                    return Err(OrderError::InvalidWeapon);
                },
            }
        }
        let wt = match sw {
            Some(x) => Some(x.weapon),
            None => None,
        };
        if let Err(e) = validate(kind, wt, &u, &self.turn) {
            return Err(OrderError::Rejected(e));
        }
        let phase = self.turn.phase;
        let target_hex = self.units[target].hex;
        let outcome = match determine_fire_effect(&self.grid, &u, sw, target_hex, phase, extra) {
            Err(e) => {
                return Err(OrderError::Fire(e));
            },
            Ok(o) => o,
        };
        let mut shooter = u;
        record_order(&mut shooter, kind, wt, phase);
        self.units.set(firer, shooter);
        proof {
            assert forall|k: int| 0 <= k < self.units@.len() implies (#[trigger] self.units@[k]).hex < self.grid.len() by {
                if k != firer {
                    assert(self.units@[k] == old(self).units@[k]);
                }
            }
        }
        Ok(outcome)
    }

    /// Orders a rally attempt by unit `unit`; `recovered` is the outcome of
    /// its morale test. A recovered unit becomes composed.
    pub fn rally(&mut self, unit: usize, recovered: bool) -> (r: Result<(), OrderError>)
        requires
            old(self).wf(),
        ensures
            final(self).wf(),
            final(self).grid == old(self).grid,
            final(self).turn == old(self).turn,
            rally_refusal(*old(self), unit as int) matches Some(e) ==> r == Err::<(), OrderError>(e)
                && *final(self) == *old(self),
            rally_refusal(*old(self), unit as int) is None ==> r is Ok && rally_accepted(
                *old(self),
                unit as int,
                recovered,
                final(self).units@,
            ),
    {
        if unit >= self.units.len() {
            return Err(OrderError::UnknownUnit);
        }
        let mut u = self.units[unit];
        if let Err(e) = validate(OrderKind::Rally, None, &u, &self.turn) {
            return Err(OrderError::Rejected(e));
        }
        if recovered {
            u.set_condition(Condition::Composed);
            self.units.set(unit, u);
        }
        proof {
            assert forall|k: int| 0 <= k < self.units@.len() implies (#[trigger] self.units@[k]).hex < self.grid.len() by {
                if k != unit {
                    assert(self.units@[k] == old(self).units@[k]);
                }
            }
        }
        Ok(())
    }

    /// The close-combat engagements: every hex where units of both sides stand.
    pub fn collect_engagements(&self) -> (r: Vec<Engagement>)
        ensures
            r@.len() == engagements(self.units@, self.grid.len() as int).len(),
            forall|i: int|
                0 <= i < r@.len() ==> (#[trigger] r@[i]).hex == engagements(self.units@, self.grid.len() as int)[i].0
                    && r@[i].units@ == engagements(self.units@, self.grid.len() as int)[i].1,
    {
        close_combat(&self.units, self.grid.hexes.len())
    }
}

/// Leader `l` commands unit `s`: a composed leader of its side on its hex.
pub open spec fn commands(units: Seq<Unit>, s: int, l: int) -> bool {
    &&& 0 <= l < units.len()
    &&& l != s
    &&& units[l].kind is Leader
    &&& units[l].condition == Condition::Composed
    &&& units[l].owner == units[s].owner
    &&& units[l].hex == units[s].hex
}

impl BattleManager {
    /// The leader commanding unit `unit`, the first in order if there are
    /// several, found when asked rather than stored.
    pub fn led_by(&self, unit: usize) -> (r: Option<usize>)
        requires
            unit < self.units@.len(),
        ensures
            r matches Some(l) ==> commands(self.units@, unit as int, l as int) && forall|k: int|
                0 <= k < l ==> !commands(self.units@, unit as int, k),
            r is None ==> forall|k: int| 0 <= k < self.units@.len() ==> !commands(self.units@, unit as int, k),
    {
        let u = self.units[unit];
        let mut i: usize = 0;
        while i < self.units.len()
            invariant
                unit < self.units@.len(),
                u == self.units@[unit as int],
                i <= self.units@.len(),
                forall|k: int| 0 <= k < i ==> !commands(self.units@, unit as int, k),
            decreases self.units.len() - i,
        {
            let c = self.units[i];
            let is_leader = match c.kind {
                UnitKind::Leader(_) => true,
                _ => false,
            };
            if i != unit && is_leader && !c.broken() && c.owner == u.owner && c.hex == u.hex {
                return Some(i);
            }
            i = i + 1;
        }
        None
    }

    /// The leadership modifier that applies to unit `unit`: that of the
    /// leader commanding it, or zero.
    pub fn leadership_modifier(&self, unit: usize) -> (r: i8)
        requires
            unit < self.units@.len(),
        ensures
            ({
                let units = self.units@;
                &&& (exists|l: int| commands(units, unit as int, l)) ==> exists|l: int|
                    commands(units, unit as int, l) && r == units[l].kind->Leader_0.leadership
                &&& !(exists|l: int| commands(units, unit as int, l)) ==> r == 0
            }),
    {
        match self.led_by(unit) {
            Some(l) => match self.units[l].kind {
                UnitKind::Leader(x) => x.get_leadership_modifier(),
                _ => 0,
            },
            None => 0,
        }
    }
}

/// Woods and buildings give cover.
pub open spec fn is_cover(h: Hex) -> bool {
    h.hinders_sight()
}

/// A unit of another side stands on a hex next to that of unit `unit`.
pub open spec fn enemy_adjacent(b: BattleManager, unit: int) -> bool {
    let units = b.units@;
    let g = b.grid.hexes@;
    exists|i: int|
        0 <= i < units.len() && (#[trigger] units[i]).owner != units[unit].owner && hex_distance(
            g[units[unit].hex as int].coord,
            g[units[i].hex as int].coord,
        ) == 1
}

/// Whether unit `unit` must rout in the Rout phase: it is broken and either
/// stands outside cover or has an enemy next to it.
pub fn broken_in_cover(b: &BattleManager, unit: usize) -> (r: bool)
    requires
        b.wf(),
        unit < b.units@.len(),
    ensures
        r == (b.units@[unit as int].is_broken() && (!is_cover(b.grid.hexes@[b.units@[unit as int].hex as int])
            || enemy_adjacent(*b, unit as int))),
{
    let u = b.units[unit];
    if !u.broken() {
        return false;
    }
    if !b.grid.hexes[u.hex].blocks_sight() {
        return true;
    }
    let mut i: usize = 0;
    while i < b.units.len()
        invariant
            b.wf(),
            unit < b.units@.len(),
            u == b.units@[unit as int],
            u.is_broken(),
            is_cover(b.grid.hexes@[u.hex as int]),
            i <= b.units@.len(),
            forall|k: int|
                0 <= k < i ==> !((#[trigger] b.units@[k]).owner != u.owner && hex_distance(
                    b.grid.hexes@[u.hex as int].coord,
                    b.grid.hexes@[b.units@[k].hex as int].coord,
                ) == 1),
        decreases b.units.len() - i,
    {
        let other = b.units[i];
        if other.owner != u.owner {
            if coord_distance(b.grid.hexes[u.hex].coord, b.grid.hexes[other.hex].coord) == 1 {
                assert(b.units@[i as int].owner != b.units@[unit as int].owner);
                return true;
            }
        }
        i = i + 1;
    }
    false
}

/// Moves unit `unit` one hex, to the neighbouring hex `dest`, in the Advance
/// phase. The hex may hold enemy units.
pub fn advance_unit(b: &mut BattleManager, unit: usize, dest: usize) -> (r: Result<(), OrderError>)
    requires
        old(b).wf(),
    ensures
        final(b).wf(),
        final(b).grid == old(b).grid,
        final(b).turn == old(b).turn,
        advance_refusal(*old(b), unit as int, dest) matches Some(e) ==> r == Err::<(), OrderError>(e),
        advance_refusal(*old(b), unit as int, dest) is None ==> r is Ok && advance_accepted(
            *old(b),
            unit as int,
            dest,
            final(b).units@,
        ),
        r is Err ==> *final(b) == *old(b),
{
    if unit >= b.units.len() {
        return Err(OrderError::UnknownUnit);
    }
    let mut u = b.units[unit];
    if let Err(e) = validate(OrderKind::Advance, None, &u, &b.turn) {
        return Err(OrderError::Rejected(e));
    }
    if dest >= b.grid.hexes.len() {
        return Err(OrderError::Movement(MovementError::OutOfBounds));
    }
    if get_distance(&b.grid.hexes[u.hex], &b.grid.hexes[dest]) != 1 {
        return Err(OrderError::Movement(MovementError::NotAdjacent));
    }
    u.move_to_dest(dest);
    b.units.set(unit, u);
    proof {
        assert forall|k: int| 0 <= k < b.units@.len() implies (#[trigger] b.units@[k]).hex < b.grid.len() by {
            if k != unit {
                assert(b.units@[k] == old(b).units@[k]);
            }
        }
    }
    Ok(())
}

/// The data of a fire order.
#[derive(Clone, Debug)]
pub struct FireOrder {
    pub firer: usize,
    /// A support weapon on the firer's hex that the firer uses.
    pub weapon: Option<usize>,
    /// The unit fired at.
    pub target: usize,
    /// Hexes beyond the target to affect, as steps past it, in order.
    pub extra: Vec<u32>,
}

/// An order to one unit.
#[derive(Clone, Debug)]
pub enum Order {
    Move { unit: usize, path: Vec<usize>, escort: Option<usize> },
    PrepFire(FireOrder),
    DefensiveFire(FireOrder),
    AdvancedFire(FireOrder),
    Advance { unit: usize, dest: usize },
    /// `recovered` is the outcome of the unit's morale test.
    Rally { unit: usize, recovered: bool },
}

/// What an accepted order did.
#[derive(Clone, Debug)]
pub enum Accepted {
    /// The movement factors spent.
    Moved(u32),
    Fired(FireOutcome),
    Advanced,
    Rallied,
}

/// The result of submitting a fire order of kind `kind`: its refusal, or
/// the outcome and units of an accepted shot.
pub open spec fn fire_submitted(
    b: BattleManager,
    kind: OrderKind,
    f: FireOrder,
    r: Result<Accepted, OrderError>,
    after: Seq<Unit>,
) -> bool {
    let why = fire_order_refusal(b, kind, f.firer as int, f.weapon, f.target as int, f.extra@);
    &&& why matches Some(e) ==> r == Err::<Accepted, OrderError>(e)
    &&& why is None ==> (r matches Ok(Accepted::Fired(o)) && fire_accepted(
        b,
        kind,
        f.firer as int,
        f.weapon,
        f.target as int,
        f.extra@,
        o,
        after,
    ))
}

impl BattleManager {
    /// Checks an order and carries it out when it is accepted. A refused
    /// order changes nothing.
    pub fn submit_order(&mut self, order: Order) -> (r: Result<Accepted, OrderError>)
        requires
            old(self).wf(),
        ensures
            final(self).wf(),
            final(self).grid == old(self).grid,
            final(self).turn == old(self).turn,
            r is Err ==> *final(self) == *old(self),
            order matches Order::Move { unit, path, escort } ==> ({
                let why = move_refusal(*old(self), unit as int, path@, escort);
                &&& why matches Some(e) ==> r == Err::<Accepted, OrderError>(e)
                &&& why is None ==> (r matches Ok(Accepted::Moved(c)) && move_accepted(
                    *old(self),
                    unit as int,
                    path@,
                    escort,
                    c,
                    final(self).units@,
                ))
            }),
            order matches Order::PrepFire(f) ==> fire_submitted(*old(self), OrderKind::PrepFire, f, r, final(self).units@),
            order matches Order::DefensiveFire(f) ==> fire_submitted(*old(self), OrderKind::DefensiveFire, f, r, final(self).units@),
            order matches Order::AdvancedFire(f) ==> fire_submitted(*old(self), OrderKind::AdvancedFire, f, r, final(self).units@),
            order matches Order::Advance { unit, dest } ==> ({
                let why = advance_refusal(*old(self), unit as int, dest);
                &&& why matches Some(e) ==> r == Err::<Accepted, OrderError>(e)
                &&& why is None ==> (r matches Ok(Accepted::Advanced) && advance_accepted(
                    *old(self),
                    unit as int,
                    dest,
                    final(self).units@,
                ))
            }),
            order matches Order::Rally { unit, recovered } ==> ({
                let why = rally_refusal(*old(self), unit as int);
                &&& why matches Some(e) ==> r == Err::<Accepted, OrderError>(e)
                &&& why is None ==> (r matches Ok(Accepted::Rallied) && rally_accepted(
                    *old(self),
                    unit as int,
                    recovered,
                    final(self).units@,
                ))
            }),
    {
        match order {
            Order::Move { unit, path, escort } => match self.order_move(unit, &path, escort) {
                Ok(c) => Ok(Accepted::Moved(c)),
                Err(e) => Err(e),
            },
            Order::PrepFire(f) => match self.order_fire(OrderKind::PrepFire, f.firer, f.weapon, f.target, &f.extra) {
                Ok(o) => Ok(Accepted::Fired(o)),
                Err(e) => Err(e),
            },
            Order::DefensiveFire(f) => match self.order_fire(OrderKind::DefensiveFire, f.firer, f.weapon, f.target, &f.extra) {
                Ok(o) => Ok(Accepted::Fired(o)),
                Err(e) => Err(e),
            },
            Order::AdvancedFire(f) => match self.order_fire(OrderKind::AdvancedFire, f.firer, f.weapon, f.target, &f.extra) {
                Ok(o) => Ok(Accepted::Fired(o)),
                Err(e) => Err(e),
            },
            Order::Advance { unit, dest } => match advance_unit(self, unit, dest) {
                Ok(()) => Ok(Accepted::Advanced),
                Err(e) => Err(e),
            },
            Order::Rally { unit, recovered } => match self.rally(unit, recovered) {
                Ok(()) => Ok(Accepted::Rallied),
                Err(e) => Err(e),
            },
        }
    }

    /// A copy of hex `id`, if the map has one.
    pub fn query_hex(&self, id: usize) -> (r: Option<Hex>)
        ensures
            id >= self.grid.len() ==> r is None,
            id < self.grid.len() ==> (r matches Some(h) && h.coord == self.grid.hexes@[id as int].coord
                && h.elevation == self.grid.hexes@[id as int].elevation
                && h.terrain@ == self.grid.hexes@[id as int].terrain@),
    {
        if id < self.grid.hexes.len() {
            let h = &self.grid.hexes[id];
            Some(Hex { coord: h.coord, elevation: h.elevation, terrain: copy_tags(&h.terrain) })
        } else {
            None
        }
    }
}

fn copy_tags(tags: &Vec<Terrain>) -> (r: Vec<Terrain>)
    ensures
        r@ == tags@,
{
    let mut out: Vec<Terrain> = Vec::new();
    let mut i: usize = 0;
    while i < tags.len()
        invariant
            i <= tags.len(),
            out@ == tags@.subrange(0, i as int),
        decreases tags.len() - i,
    {
        out.push(tags[i]);
        i = i + 1;
    }
    assert(tags@.subrange(0, tags@.len() as int) == tags@);
    out
}

/// A target that unit `firer` may fire on from where it stands: a unit of
/// the other side within its range and in its sight.
pub open spec fn viable_target(b: BattleManager, firer: int, t: int) -> bool {
    let units = b.units@;
    let g = b.grid.hexes@;
    let a = units[firer].hex as int;
    let h = units[t].hex as int;
    &&& units[t].owner != units[firer].owner
    &&& hex_distance(g[a].coord, g[h].coord) <= rated_range(units[firer].kind)
    &&& line_on_map(g, a, h)
    &&& sight_clear(g, a, h)
}

/// Indices below `m` of the viable targets of `firer`, in increasing order.
pub open spec fn viable_targets(b: BattleManager, firer: int, m: int) -> Seq<usize>
    decreases m,
{
    if m <= 0 {
        seq![]
    } else if viable_target(b, firer, m - 1) {
        viable_targets(b, firer, m - 1).push((m - 1) as usize)
    } else {
        viable_targets(b, firer, m - 1)
    }
}

/// The units the defending unit `firer` may fire on: every enemy unit in
/// its range and sight.
pub fn order_defensive_fire(b: &BattleManager, firer: usize) -> (r: Vec<usize>)
    requires
        b.wf(),
        firer < b.units@.len(),
    ensures
        r@ == viable_targets(*b, firer as int, b.units@.len() as int),
{
    let u = b.units[firer];
    let range = u.range();
    let mut out: Vec<usize> = Vec::new();
    let mut i: usize = 0;
    while i < b.units.len()
        invariant
            b.wf(),
            firer < b.units@.len(),
            u == b.units@[firer as int],
            range == rated_range(u.kind),
            i <= b.units@.len(),
            out@ == viable_targets(*b, firer as int, i as int),
        decreases b.units.len() - i,
    {
        let t = b.units[i];
        let mut ok = false;
        if t.owner != u.owner && get_distance(&b.grid.hexes[u.hex], &b.grid.hexes[t.hex]) <= range {
            ok = match get_los(&b.grid, u.hex, t.hex) {
                Ok(v) => v,
                Err(_) => false,
            };
        }
        if ok {
            out.push(i);
        }
        i = i + 1;
    }
    out
}

} // verus!
