use vstd::prelude::*;
use crate::grid::{Grid, Hex, get_distance, at_coord, on_map, blocked_at, hex_distance, coord_distance, locate, lemma_distance_symmetric, terrain_effect_combat};
use crate::phase::Phase;
use crate::sight::{RAY_LIMIT, line_point, line_coord, line_on_map, sight_clear, get_los};
use crate::unit::{Unit, SupportWeapon, WeaponType, rated_firepower, rated_range};

verus! {

#[derive(Clone, Copy, Debug, PartialEq, Eq, Structural)]
pub enum FireError {
    FirerBroken,
    AlreadyPrepFired,
    OutOfRange,
    NoLineOfSight,
    /// A hex index, or a hex on the line of fire, lies outside the map.
    OutOfBounds,
    /// The hexes chosen beyond the target exceed the weapon's penetration,
    /// are out of order, leave the map, or lie behind terrain that hinders
    /// sight.
    PenetrationDenied,
}

/// What a shot brings to bear: the firepower applied and the hexes it
/// affects (the target hex first). The effect on units is read from an
/// external table.
#[derive(Clone, Debug)]
pub struct FireOutcome {
    pub firepower: u32,
    pub affected: Vec<usize>,
    /// The cumulative terrain effect of the target hex.
    pub terrain_effect: u32,
}

/// Firepower after movement: half, rounded down.
pub fn order_moved_fire(firepower: u32) -> (r: u32)
    ensures
        r == firepower / 2,
{
    firepower / 2
}

/// Firepower a unit brings in `phase`: full, or halved if it moved this turn
/// and fires in AdvancingFire.
pub open spec fn applied_firepower(rated: nat, u: Unit, phase: Phase) -> nat {
    if u.record.moved && phase == Phase::AdvancingFire {
        rated / 2
    } else {
        rated
    }
}

/// Whether the unit may fire at all in `phase`.
pub open spec fn fire_refusal(u: Unit, phase: Phase) -> Option<FireError> {
    if u.is_broken() {
        Some(FireError::FirerBroken)
    } else if phase == Phase::AdvancingFire && u.record.prep_fired {
        Some(FireError::AlreadyPrepFired)
    } else {
        None
    }
}

/// The firepower a unit fires with, from its rated firepower `rated` (its
/// own or that of the support weapon it uses).
pub fn order_aimed_fire(u: &Unit, rated: u32, phase: Phase) -> (r: Result<u32, FireError>)
    ensures
        fire_refusal(*u, phase) is Some ==> r == Err::<u32, FireError>(fire_refusal(*u, phase)->0),
        fire_refusal(*u, phase) is None ==> r == Ok::<u32, FireError>(
            applied_firepower(rated as nat, *u, phase) as u32,
        ),
{
    if u.broken() {
        return Err(FireError::FirerBroken);
    }
    if phase == Phase::AdvancingFire && u.has_prepfired() {
        return Err(FireError::AlreadyPrepFired);
    }
    if u.has_moved() && phase == Phase::AdvancingFire {
        Ok(order_moved_fire(rated))
    } else {
        Ok(rated)
    }
}

/// A unit that moved and fires in AdvancingFire brings half its rated
/// firepower, rounded down; one that neither moved nor prep-fired brings all
/// of it.
pub proof fn lemma_moved_fire_halved(rated: nat, u: Unit, phase: Phase)
    ensures
        u.record.moved && phase == Phase::AdvancingFire ==> applied_firepower(rated, u, phase)
            == rated / 2,
        !u.record.moved && !u.record.prep_fired ==> applied_firepower(rated, u, phase) == rated
            && fire_refusal(u, phase) != Some(FireError::AlreadyPrepFired),
{
}

/// Penetration of a shot: one hex when firer and target stand at different
/// elevations, else the weapon's rating.
pub open spec fn effective_penetration(origin: Hex, target: Hex, rated: u8) -> u8 {
    if origin.elevation != target.elevation {
        1
    } else {
        rated
    }
}

pub fn sw_calc_penetration(origin: &Hex, target: &Hex, rated: u8) -> (r: u8)
    ensures
        r == effective_penetration(*origin, *target, rated),
{
    if origin.elevation != target.elevation {
        1
    } else {
        rated
    }
}

/// The hex `s` steps beyond hex `b` on the line from hex `a`.
pub open spec fn beyond(g: Seq<Hex>, a: int, b: int, s: int) -> (int, int) {
    line_point(g[a].coord, g[b].coord, hex_distance(g[a].coord, g[b].coord) + s)
}

/// The hex `s` steps beyond the target can be affected: it is on the map,
/// and so is every hex before it, none of which hinders sight.
pub open spec fn reachable_beyond(g: Seq<Hex>, a: int, b: int, s: int) -> bool {
    &&& hex_distance(g[a].coord, g[b].coord) > 0
    &&& 1 <= s
    &&& hex_distance(g[a].coord, g[b].coord) + s <= RAY_LIMIT
    &&& forall|j: int| 1 <= j <= s ==> on_map(g, #[trigger] beyond(g, a, b, j).0, beyond(g, a, b, j).1)
    &&& forall|j: int| 1 <= j < s ==> !blocked_at(g, #[trigger] beyond(g, a, b, j).0, beyond(g, a, b, j).1)
}

/// A choice of hexes beyond the target, as step counts past it, is allowed
/// for a shot of penetration `pen`.
pub open spec fn selection_ok(g: Seq<Hex>, a: int, b: int, extra: Seq<u32>, pen: nat) -> bool {
    &&& extra.len() + 1 <= pen
    &&& forall|k: int| 0 <= k < extra.len() ==> reachable_beyond(g, a, b, #[trigger] extra[k] as int)
    &&& forall|k: int| 0 <= k < extra.len() - 1 ==> #[trigger] extra[k] < extra[k + 1]
}

/// The hexes affected by a shot from hex `a` at hex `b`: `b`, then the chosen
/// hexes beyond it.
pub open spec fn affected_coords(g: Seq<Hex>, a: int, b: int, extra: Seq<u32>) -> Seq<(int, int)> {
    seq![(g[b].coord.q as int, g[b].coord.r as int)] + extra.map_values(|s: u32| beyond(g, a, b, s as int))
}

proof fn lemma_selection_prefix(g: Seq<Hex>, a: int, b: int, extra: Seq<u32>, pen: nat, k: int)
    requires
        0 <= k <= extra.len(),
        !selection_ok(g, a, b, extra.subrange(0, k), pen),
        k <= extra.len(),
    ensures
        !selection_ok(g, a, b, extra, pen),
{
    let sub = extra.subrange(0, k);
    if selection_ok(g, a, b, extra, pen) {
        assert forall|i: int| 0 <= i < sub.len() implies reachable_beyond(g, a, b, #[trigger] sub[i] as int) by {
            assert(sub[i] == extra[i]);
        }
        assert forall|i: int| 0 <= i < sub.len() - 1 implies #[trigger] sub[i] < sub[i + 1] by {
            assert(sub[i] == extra[i]);
            assert(sub[i + 1] == extra[i + 1]);
        }
    }
}

/// Checks whether the hex `s` steps beyond the target may be affected, and
/// returns its index.
fn hex_beyond(g: &Grid, a: usize, b: usize, s: u32) -> (r: Option<usize>)
    requires
        g.wf(),
        a < g.len(),
        b < g.len(),
    ensures
        r is Some <==> reachable_beyond(g.hexes@, a as int, b as int, s as int),
        r matches Some(k) ==> k < g.len() && at_coord(
            g.hexes@[k as int],
            beyond(g.hexes@, a as int, b as int, s as int).0,
            beyond(g.hexes@, a as int, b as int, s as int).1,
        ),
{
    let ghost gs = g.hexes@;
    let ac = g.hexes[a].coord;
    let bc = g.hexes[b].coord;
    let n = coord_distance(ac, bc) as i64;
    proof {
        lemma_distance_symmetric(ac, bc);
    }
    if n == 0 || s == 0 {
        return None;
    }
    let mut j: u32 = 1;
    let mut found: usize = 0;
    while j <= s
        invariant
            g.wf(),
            gs == g.hexes@,
            a < g.len(),
            b < g.len(),
            ac == gs[a as int].coord,
            bc == gs[b as int].coord,
            n == hex_distance(ac, bc),
            1 <= n <= 40000,
            1 <= j,
            j <= s + 1,
            forall|i: int| 1 <= i < j ==> on_map(gs, #[trigger] beyond(gs, a as int, b as int, i).0, beyond(gs, a as int, b as int, i).1),
            forall|i: int| 1 <= i < j - 1 ==> !blocked_at(gs, #[trigger] beyond(gs, a as int, b as int, i).0, beyond(gs, a as int, b as int, i).1),
            j > 1 ==> found < g.len() && at_coord(
                gs[found as int],
                beyond(gs, a as int, b as int, j - 1).0,
                beyond(gs, a as int, b as int, j - 1).1,
            ),
            j > 1 ==> (blocked_at(gs, beyond(gs, a as int, b as int, j - 1).0, beyond(gs, a as int, b as int, j - 1).1) <==> gs[found as int].hinders_sight()),
        decreases s - j + 1,
    {
        if j > 1 && g.hexes[found].blocks_sight() {
            return None;
        }
        let p = line_coord(ac, bc, n + j as i64);
        assert(p.0 == beyond(gs, a as int, b as int, j as int).0);
        assert(p.1 == beyond(gs, a as int, b as int, j as int).1);
        match locate(g, p.0, p.1) {
            None => {
                assert(!on_map(gs, beyond(gs, a as int, b as int, j as int).0, beyond(gs, a as int, b as int, j as int).1));
                return None;
            },
            Some(k) => {
                found = k;
            },
        }
        if j == u32::MAX {
            return Some(found);
        }
        j = j + 1;
    }
    Some(found)
}

/// Checks the hexes a penetrating shot from hex `origin` at hex `target`
/// affects beyond the target, given as step counts past it in increasing
/// order, and returns every affected hex, the target first.
pub fn can_penetrate(g: &Grid, origin: usize, target: usize, extra: &Vec<u32>, penetration: u8) -> (r: Result<Vec<usize>, FireError>)
    requires
        g.wf(),
        origin < g.len(),
        target < g.len(),
    ensures
        r is Ok <==> selection_ok(g.hexes@, origin as int, target as int, extra@, penetration as nat),
        r is Err ==> r == Err::<Vec<usize>, FireError>(FireError::PenetrationDenied),
        r matches Ok(v) ==> v@.len() == extra@.len() + 1 && v@[0] == target && forall|k: int|
            0 <= k < v@.len() ==> #[trigger] v@[k] < g.len() && at_coord(
                g.hexes@[v@[k] as int],
                affected_coords(g.hexes@, origin as int, target as int, extra@)[k].0,
                affected_coords(g.hexes@, origin as int, target as int, extra@)[k].1,
            ),
{
    let ghost gs = g.hexes@;
    let ghost (a, b) = (origin as int, target as int);
    let ghost pen = penetration as nat;
    if extra.len() >= penetration as usize {
        return Err(FireError::PenetrationDenied);
    }
    let mut hexes: Vec<usize> = Vec::new();
    hexes.push(target);
    let mut k: usize = 0;
    while k < extra.len()
        invariant
            g.wf(),
            gs == g.hexes@,
            a == origin,
            b == target,
            origin < g.len(),
            target < g.len(),
            pen == penetration,
            extra@.len() + 1 <= pen,
            k <= extra.len(),
            selection_ok(gs, a, b, extra@.subrange(0, k as int), pen),
            hexes@.len() == k + 1,
            hexes@[0] == target,
            forall|i: int| 0 <= i < hexes@.len() ==> #[trigger] hexes@[i] < g.len() && at_coord(
                gs[hexes@[i] as int],
                affected_coords(gs, a, b, extra@)[i].0,
                affected_coords(gs, a, b, extra@)[i].1,
            ),
        decreases extra.len() - k,
    {
        let ghost sub = extra@.subrange(0, k as int);
        let ghost next = extra@.subrange(0, k + 1);
        if k > 0 && extra[k - 1] >= extra[k] {
            proof {
                assert(next[k - 1] == extra@[k - 1]);
                assert(next[k as int] == extra@[k as int]);
                lemma_selection_prefix(gs, a, b, extra@, pen, k + 1);
            }
            return Err(FireError::PenetrationDenied);
        }
        match hex_beyond(g, origin, target, extra[k]) {
            None => {
                proof {
                    assert(next[k as int] == extra@[k as int]);
                    lemma_selection_prefix(gs, a, b, extra@, pen, k + 1);
                }
                return Err(FireError::PenetrationDenied);
            },
            Some(h) => {
                proof {
                    assert forall|i: int| 0 <= i < next.len() implies reachable_beyond(gs, a, b, #[trigger] next[i] as int) by {
                        if i < k {
                            assert(next[i] == sub[i]);
                        }
                    }
                    assert forall|i: int| 0 <= i < next.len() - 1 implies #[trigger] next[i] < next[i + 1] by {
                        assert(next[i] == extra@[i]);
                        assert(next[i + 1] == extra@[i + 1]);
                        if i + 1 < k {
                            assert(sub[i] == extra@[i]);
                            assert(sub[i + 1] == extra@[i + 1]);
                        }
                    }
                    assert(affected_coords(gs, a, b, extra@)[k + 1] == beyond(gs, a, b, extra@[k as int] as int));
                }
                hexes.push(h);
            },
        }
        k = k + 1;
    }
    assert(extra@.subrange(0, extra@.len() as int) == extra@);
    Ok(hexes)
}

/// The point `p` lies on the line of fire from hex `a` through hex `b`,
/// beyond `b`.
pub open spec fn on_line_beyond(g: Seq<Hex>, a: int, b: int, p: (int, int)) -> bool {
    exists|i: int|
        i > hex_distance(g[a].coord, g[b].coord) && p == #[trigger] line_point(
            g[a].coord,
            g[b].coord,
            i,
        )
}

/// A shot affects no more hexes than its penetration: with penetration one
/// only the target, with penetration three the target and at most two more;
/// and every further hex lies on the line of fire beyond the target.
pub proof fn lemma_penetration_on_line(g: Seq<Hex>, a: int, b: int, extra: Seq<u32>, pen: nat)
    requires
        selection_ok(g, a, b, extra, pen),
    ensures
        affected_coords(g, a, b, extra).len() <= pen,
        pen == 1 ==> affected_coords(g, a, b, extra).len() == 1,
        forall|k: int|
            1 <= k < affected_coords(g, a, b, extra).len() ==> on_line_beyond(
                g,
                a,
                b,
                #[trigger] affected_coords(g, a, b, extra)[k],
            ),
{
    assert forall|k: int| 1 <= k < affected_coords(g, a, b, extra).len() implies on_line_beyond(
        g,
        a,
        b,
        #[trigger] affected_coords(g, a, b, extra)[k],
    ) by {
        assert(reachable_beyond(g, a, b, extra[k - 1] as int));
        let i = hex_distance(g[a].coord, g[b].coord) + extra[k - 1] as int;
        assert(affected_coords(g, a, b, extra)[k] == line_point(g[a].coord, g[b].coord, i));
    }
}

/// Firepower, range and penetration of a shot: those of the support
/// weapon if one is used, else the unit's own with a penetration of one.
pub open spec fn shot_firepower(u: Unit, weapon: Option<SupportWeapon>) -> nat {
    match weapon {
        Some(w) => w.firepower as nat,
        None => rated_firepower(u.kind),
    }
}

pub open spec fn shot_range(u: Unit, weapon: Option<SupportWeapon>) -> nat {
    match weapon {
        Some(w) => w.range as nat,
        None => rated_range(u.kind),
    }
}

pub open spec fn shot_penetration(weapon: Option<SupportWeapon>) -> u8 {
    match weapon {
        Some(w) => w.penetration,
        None => 1,
    }
}

/// Mortars fire indirectly and need no line of sight.
pub open spec fn shot_indirect(weapon: Option<SupportWeapon>) -> bool {
    weapon matches Some(w) && w.weapon == WeaponType::Mortar
}

/// Why a shot from `u` at hex `t` is refused, in the order the checks are made.
pub open spec fn shot_refusal(
    g: Seq<Hex>,
    u: Unit,
    weapon: Option<SupportWeapon>,
    t: int,
    phase: Phase,
    extra: Seq<u32>,
) -> Option<FireError> {
    let a = u.hex as int;
    if fire_refusal(u, phase) is Some {
        fire_refusal(u, phase)
    } else if a >= g.len() || t < 0 || t >= g.len() {
        Some(FireError::OutOfBounds)
    } else if hex_distance(g[a].coord, g[t].coord) > shot_range(u, weapon) {
        Some(FireError::OutOfRange)
    } else if !shot_indirect(weapon) && !line_on_map(g, a, t) {
        Some(FireError::OutOfBounds)
    } else if !shot_indirect(weapon) && !sight_clear(g, a, t) {
        Some(FireError::NoLineOfSight)
    } else if !selection_ok(
        g,
        a,
        t,
        extra,
        effective_penetration(g[a], g[t], shot_penetration(weapon)) as nat,
    ) {
        Some(FireError::PenetrationDenied)
    } else {
        None
    }
}

/// Resolves a shot by unit `u`, using `weapon` if given, at hex `target`,
/// affecting in addition the hexes `extra` steps beyond it.
pub fn determine_fire_effect(
    g: &Grid,
    u: &Unit,
    weapon: Option<SupportWeapon>,
    target: usize,
    phase: Phase,
    extra: &Vec<u32>,
) -> (r: Result<FireOutcome, FireError>)
    requires
        g.wf(),
    ensures
        shot_refusal(g.hexes@, *u, weapon, target as int, phase, extra@) matches Some(e) ==> (r
            matches Err(e2) && e2 == e),
        shot_refusal(g.hexes@, *u, weapon, target as int, phase, extra@) is None ==> (r matches Ok(o)
            && o.firepower == applied_firepower(shot_firepower(*u, weapon), *u, phase)
            && o.terrain_effect == g.hexes@[target as int].combat_cost()
            && o.affected@.len() == extra@.len() + 1
            && o.affected@[0] == target
            && forall|k: int|
            0 <= k < o.affected@.len() ==> #[trigger] o.affected@[k] < g.len() && at_coord(
                g.hexes@[o.affected@[k] as int],
                affected_coords(g.hexes@, u.hex as int, target as int, extra@)[k].0,
                affected_coords(g.hexes@, u.hex as int, target as int, extra@)[k].1,
            )),
{
    let rated: u32 = match weapon {
        Some(w) => w.firepower as u32,
        None => u.firepower(),
    };
    let firepower = match order_aimed_fire(u, rated, phase) {
        Err(e) => {
            return Err(e);
        },
        Ok(f) => f,
    };
    if u.hex >= g.hexes.len() || target >= g.hexes.len() {
        return Err(FireError::OutOfBounds);
    }
    let range: u32 = match weapon {
        Some(w) => w.range as u32,
        None => u.range(),
    };
    if get_distance(&g.hexes[u.hex], &g.hexes[target]) > range {
        return Err(FireError::OutOfRange);
    }
    let indirect = match weapon {
        Some(w) => w.weapon.is_mortar(),
        None => false,
    };
    if !indirect {
        match get_los(g, u.hex, target) {
            Err(_) => {
                return Err(FireError::OutOfBounds);
            },
            Ok(false) => {
                return Err(FireError::NoLineOfSight);
            },
            Ok(true) => {},
        }
    }
    let rated_pen: u8 = match weapon {
        Some(w) => w.penetration,
        None => 1,
    };
    let pen = sw_calc_penetration(&g.hexes[u.hex], &g.hexes[target], rated_pen);
    let affected = match can_penetrate(g, u.hex, target, extra, pen) {
        Err(e) => {
            return Err(e);
        },
        Ok(v) => v,
    };
    let terrain_effect = terrain_effect_combat(&g.hexes[target]);
    Ok(FireOutcome { firepower, affected, terrain_effect })
}

/// A shot that is not refused affects no more hexes than its effective
/// penetration allows: the target alone when that is one (a weapon rated one,
/// or a shot across an elevation change), and otherwise only hexes on the
/// line of fire beyond the target.
pub proof fn lemma_shot_on_line(
    g: Seq<Hex>,
    u: Unit,
    weapon: Option<SupportWeapon>,
    t: int,
    phase: Phase,
    extra: Seq<u32>,
)
    requires
        shot_refusal(g, u, weapon, t, phase, extra) is None,
    ensures
        ({
            let a = u.hex as int;
            let pen = effective_penetration(g[a], g[t], shot_penetration(weapon));
            let c = affected_coords(g, a, t, extra);
            &&& c.len() <= pen
            &&& c[0] == (g[t].coord.q as int, g[t].coord.r as int)
            &&& pen == 1 ==> c.len() == 1
            &&& forall|k: int| 1 <= k < c.len() ==> on_line_beyond(g, a, t, #[trigger] c[k])
        }),
{
    let a = u.hex as int;
    let pen = effective_penetration(g[a], g[t], shot_penetration(weapon));
    lemma_penetration_on_line(g, a, t, extra, pen as nat);
}

/// Anything that can be fired upon: a unit, a building, a vehicle. A force
/// must exceed the armor to do damage; at zero health the target is
/// destroyed for good.
#[derive(Clone, Copy, Debug, PartialEq, Eq, Structural)]
pub struct Target {
    pub location: usize,
    pub elevation: u8,
    pub armor: u8,
    pub health: u8,
}

impl Target {
    pub open spec fn destroyed(self) -> bool {
        self.health == 0
    }

    /// Health left after a hit of `force`.
    pub open spec fn health_after(self, force: u8) -> u8 {
        if force <= self.armor {
            self.health
        } else if (force - self.armor) as u8 >= self.health {
            0
        } else {
            (self.health - (force - self.armor)) as u8
        }
    }

    pub fn is_destroyed(&self) -> (r: bool)
        ensures
            r == self.destroyed(),
    {
        self.health == 0
    }

    /// Applies a hit: the force beyond the armor comes off the health, which
    /// stops at zero.
    pub fn hit(&mut self, force: u8)
        ensures
            *final(self) == (Target { health: old(self).health_after(force), ..*old(self) }),
            old(self).destroyed() ==> *final(self) == *old(self),
    {
        if force > self.armor {
            let damage = force - self.armor;
            if damage >= self.health {
                self.health = 0;
            } else {
                self.health = self.health - damage;
            }
        }
    }
}

} // verus!
