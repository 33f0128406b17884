use vstd::prelude::*;
use crate::terrain::{Terrain, tags_move_cost, lemma_distinct_tags_len, lemma_tags_move_cost_bound};
use crate::grid::{Grid, Hex, hex_distance, coord_distance, get_terrain_effect_on_move};

verus! {

#[derive(Clone, Copy, Debug, PartialEq, Eq, Structural)]
pub enum MovementError {
    InsufficientMovementFactors,
    EnemyOccupiedDestination,
    OutOfBounds,
    /// Two consecutive hexes of the path are not neighbours.
    NotAdjacent,
}

pub open spec fn is_road(h: Hex) -> bool {
    h.has_tag(Terrain::OnRoad)
}

/// The hex a step of the path starts from.
pub open spec fn step_origin(start: usize, path: Seq<usize>, i: int) -> usize {
    if i == 0 {
        start
    } else {
        path[i - 1]
    }
}

/// Number of road hexes in a row in the path that end at step `i`.
pub open spec fn road_run(g: Seq<Hex>, path: Seq<usize>, i: int) -> nat
    decreases i + 1,
{
    if i < 0 || !is_road(g[path[i] as int]) {
        0
    } else {
        road_run(g, path, i - 1) + 1
    }
}

/// Every second road hex in a row costs nothing for its road.
pub open spec fn road_discount(g: Seq<Hex>, path: Seq<usize>, i: int) -> bool {
    is_road(g[path[i] as int]) && road_run(g, path, i) % 2 == 0
}

/// Cost of entering `to` from `from`: the terrain cost of `to` (less the road
/// when discounted), doubled when climbing, plus one for crossing a wall.
pub open spec fn enter_cost(from: Hex, to: Hex, discount: bool) -> nat {
    let base = if discount {
        (to.move_cost() - Terrain::OnRoad.move_cost()) as nat
    } else {
        to.move_cost()
    };
    let climbed = if to.elevation > from.elevation {
        2 * base
    } else {
        base
    };
    climbed + if to.has_tag(Terrain::OverWall) {
        1nat
    } else {
        0nat
    }
}

pub open spec fn step_cost(g: Seq<Hex>, start: usize, path: Seq<usize>, i: int) -> nat {
    enter_cost(
        g[step_origin(start, path, i) as int],
        g[path[i] as int],
        road_discount(g, path, i),
    )
}

/// Cost of the first `k` steps of the path.
pub open spec fn path_cost(g: Seq<Hex>, start: usize, path: Seq<usize>, k: int) -> nat
    decreases k,
{
    if k <= 0 {
        0
    } else {
        path_cost(g, start, path, k - 1) + step_cost(g, start, path, k - 1)
    }
}

pub open spec fn path_in_bounds(g: Seq<Hex>, start: usize, path: Seq<usize>) -> bool {
    &&& start < g.len()
    &&& forall|i: int| 0 <= i < path.len() ==> #[trigger] path[i] < g.len()
}

pub open spec fn path_adjacent(g: Seq<Hex>, start: usize, path: Seq<usize>) -> bool {
    forall|i: int|
        0 <= i < path.len() ==> hex_distance(
            g[step_origin(start, path, i) as int].coord,
            (#[trigger] g[path[i] as int]).coord,
        ) == 1
}

proof fn lemma_tag_cost_included(s: Seq<Terrain>, t: Terrain)
    requires
        s.contains(t),
    ensures
        tags_move_cost(s) >= t.move_cost(),
    decreases s.len(),
{
    if s.last() != t {
        let k = choose|k: int| 0 <= k < s.len() && s[k] == t;
        assert(s.drop_last()[k] == t);
        lemma_tag_cost_included(s.drop_last(), t);
    }
}

/// Step costs are never negative, so the cost of a path only grows as it
/// gets longer.
pub proof fn lemma_path_cost_monotonic(g: Seq<Hex>, start: usize, path: Seq<usize>, j: int, k: int)
    requires
        j <= k,
    ensures
        path_cost(g, start, path, j) <= path_cost(g, start, path, k),
    decreases k - j,
{
    if j < k {
        lemma_path_cost_monotonic(g, start, path, j, k - 1);
    }
}

proof fn lemma_road_run_prefix(g: Seq<Hex>, p: Seq<usize>, q: Seq<usize>, i: int)
    requires
        q.len() <= p.len(),
        forall|k: int| 0 <= k < q.len() ==> q[k] == p[k],
        i < q.len(),
    ensures
        road_run(g, q, i) == road_run(g, p, i),
    decreases i + 1,
{
    if i >= 0 {
        lemma_road_run_prefix(g, p, q, i - 1);
    }
}

proof fn lemma_path_cost_prefix_equal(g: Seq<Hex>, start: usize, p: Seq<usize>, q: Seq<usize>, k: int)
    requires
        q.len() <= p.len(),
        forall|j: int| 0 <= j < q.len() ==> q[j] == p[j],
        k <= q.len(),
    ensures
        path_cost(g, start, q, k) == path_cost(g, start, p, k),
    decreases k,
{
    if k > 0 {
        lemma_path_cost_prefix_equal(g, start, p, q, k - 1);
        lemma_road_run_prefix(g, p, q, k - 1);
        assert(step_origin(start, q, k - 1) == step_origin(start, p, k - 1));
    }
}

/// A path that begins another costs no more than it: appending steps never
/// lowers the cost.
pub proof fn lemma_path_cost_prefix(g: Seq<Hex>, start: usize, p: Seq<usize>, q: Seq<usize>)
    requires
        q.len() <= p.len(),
        forall|j: int| 0 <= j < q.len() ==> q[j] == p[j],
    ensures
        path_cost(g, start, q, q.len() as int) <= path_cost(g, start, p, p.len() as int),
{
    lemma_path_cost_prefix_equal(g, start, p, q, q.len() as int);
    lemma_path_cost_monotonic(g, start, p, q.len() as int, p.len() as int);
}

/// Climbing into a hex doubles its cost; level or downhill it counts once.
/// So between two hexes of equal cost and different elevation, with no wall
/// and no road, the step up costs twice the step down.
pub proof fn lemma_uphill_doubles(a: Hex, b: Hex)
    requires
        b.elevation > a.elevation,
        !a.has_tag(Terrain::OverWall),
        !b.has_tag(Terrain::OverWall),
        a.move_cost() == b.move_cost(),
    ensures
        enter_cost(a, b, false) == 2 * b.move_cost(),
        enter_cost(b, a, false) == a.move_cost(),
        a.move_cost() > 0 ==> enter_cost(a, b, false) != enter_cost(b, a, false),
{
}

/// Cost in movement factors of entering hex `to` from the neighbouring hex
/// `from`, with or without the road discount.
pub fn terrain_effect_movement(from: &Hex, to: &Hex, discount: bool) -> (r: u32)
    requires
        from.wf(),
        to.wf(),
        discount ==> is_road(*to),
    ensures
        r == enter_cost(*from, *to, discount),
        r <= 37,
{
    proof {
        lemma_distinct_tags_len(to.terrain@);
        lemma_tags_move_cost_bound(to.terrain@);
        if discount {
            lemma_tag_cost_included(to.terrain@, Terrain::OnRoad);
        }
    }
    let cost = get_terrain_effect_on_move(to);
    let base = if discount {
        cost - Terrain::OnRoad.movement_cost()
    } else {
        cost
    };
    let climbed = if to.elevation > from.elevation {
        2 * base
    } else {
        base
    };
    if to.has(Terrain::OverWall) {
        climbed + 1
    } else {
        climbed
    }
}

fn path_bounds_ok(g: &Grid, start: usize, path: &Vec<usize>) -> (r: bool)
    ensures
        r == path_in_bounds(g.hexes@, start, path@),
{
    if start >= g.hexes.len() {
        return false;
    }
    let mut i: usize = 0;
    while i < path.len()
        invariant
            i <= path.len(),
            forall|k: int| 0 <= k < i ==> #[trigger] path@[k] < g.hexes@.len(),
        decreases path.len() - i,
    {
        if path[i] >= g.hexes.len() {
            return false;
        }
        i = i + 1;
    }
    true
}

fn path_adjacent_ok(g: &Grid, start: usize, path: &Vec<usize>) -> (r: bool)
    requires
        g.wf(),
        path_in_bounds(g.hexes@, start, path@),
    ensures
        r == path_adjacent(g.hexes@, start, path@),
{
    let ghost gs = g.hexes@;
    let mut i: usize = 0;
    while i < path.len()
        invariant
            g.wf(),
            i <= path.len(),
            gs == g.hexes@,
            path_in_bounds(gs, start, path@),
            forall|k: int|
                0 <= k < i ==> hex_distance(
                    gs[step_origin(start, path@, k) as int].coord,
                    (#[trigger] gs[path@[k] as int]).coord,
                ) == 1,
        decreases path.len() - i,
    {
        let from = if i == 0 {
            start
        } else {
            path[i - 1]
        };
        assert(path@[i as int] < gs.len());
        if coord_distance(g.hexes[from].coord, g.hexes[path[i]].coord) != 1 {
            return false;
        }
        i = i + 1;
    }
    true
}

/// The cost of step `i` of the path, given the road run up to step `i - 1`,
/// and the road run up to step `i`.
fn step_at(g: &Grid, start: usize, path: &Vec<usize>, i: usize, run: usize) -> (r: (u32, usize))
    requires
        g.wf(),
        path_in_bounds(g.hexes@, start, path@),
        i < path@.len(),
        run == road_run(g.hexes@, path@, i - 1),
        run <= i,
    ensures
        r.0 == step_cost(g.hexes@, start, path@, i as int),
        r.0 <= 37,
        r.1 == road_run(g.hexes@, path@, i as int),
        r.1 <= i + 1,
{
    let from = if i == 0 {
        start
    } else {
        path[i - 1]
    };
    let to = path[i];
    assert(path@[i as int] < g.hexes@.len());
    let road = g.hexes[to].has(Terrain::OnRoad);
    assert(run < path.len());
    let run = if road {
        run + 1
    } else {
        0
    };
    let discount = road && run % 2 == 0;
    let step = terrain_effect_movement(&g.hexes[from], &g.hexes[to], discount);
    (step, run)
}

fn accumulate_cost(g: &Grid, start: usize, path: &Vec<usize>, allotment: u32) -> (r: Option<u32>)
    requires
        g.wf(),
        path_in_bounds(g.hexes@, start, path@),
    ensures
        ({
            let cost = path_cost(g.hexes@, start, path@, path@.len() as int);
            &&& cost <= allotment ==> r == Some(cost as u32)
            &&& cost > allotment ==> r is None
        }),
{
    let ghost gs = g.hexes@;
    let mut total: u64 = 0;
    let mut run: usize = 0;
    let mut i: usize = 0;
    while i < path.len()
        invariant
            g.wf(),
            i <= path.len(),
            gs == g.hexes@,
            path_in_bounds(gs, start, path@),
            total == path_cost(gs, start, path@, i as int),
            total <= allotment,
            run == road_run(gs, path@, i - 1),
            run <= i,
        decreases path.len() - i,
    {
        let (step, r) = step_at(g, start, path, i, run);
        run = r;
        proof {
            assert(path_cost(gs, start, path@, i + 1) == path_cost(gs, start, path@, i as int) + step_cost(gs, start, path@, i as int));
        }
        total = total + step as u64;
        i = i + 1;
        if total > allotment as u64 {
            proof {
                lemma_path_cost_monotonic(gs, start, path@, i as int, path@.len() as int);
            }
            return None;
        }
    }
    Some(total as u32)
}

/// Cost of moving from hex `start` along `path` (the hexes entered, in
/// order) within `allotment` movement factors.
pub fn plan_path(g: &Grid, start: usize, path: &Vec<usize>, allotment: u32) -> (r: Result<
    u32,
    MovementError,
>)
    requires
        g.wf(),
    ensures
        !path_in_bounds(g.hexes@, start, path@) ==> r == Err::<u32, MovementError>(
            MovementError::OutOfBounds,
        ),
        path_in_bounds(g.hexes@, start, path@) && !path_adjacent(g.hexes@, start, path@) ==> r
            == Err::<u32, MovementError>(MovementError::NotAdjacent),
        path_in_bounds(g.hexes@, start, path@) && path_adjacent(g.hexes@, start, path@) ==> ({
            let cost = path_cost(g.hexes@, start, path@, path@.len() as int);
            &&& cost <= allotment ==> r == Ok::<u32, MovementError>(cost as u32)
            &&& cost > allotment ==> r == Err::<u32, MovementError>(
                MovementError::InsufficientMovementFactors,
            )
        }),
{
    if !path_bounds_ok(g, start, path) {
        return Err(MovementError::OutOfBounds);
    }
    if !path_adjacent_ok(g, start, path) {
        return Err(MovementError::NotAdjacent);
    }
    match accumulate_cost(g, start, path, allotment) {
        Some(c) => Ok(c),
        None => Err(MovementError::InsufficientMovementFactors),
    }
}

} // verus!
