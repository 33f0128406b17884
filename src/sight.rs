use vstd::prelude::*;
use vstd::arithmetic::div_mod::{lemma_fundamental_div_mod, lemma_fundamental_div_mod_converse, lemma_mod_bound};
use crate::grid::{
    Grid, Hex, HexCoord, abs, hex_distance, coord_distance, locate, on_map, blocked_at,
    lemma_distance_symmetric,
};

verus! {

/// Largest step index along a line of fire that is ever computed.
pub const RAY_LIMIT: i64 = 0x2_0000_0000;

#[derive(Clone, Copy, Debug, PartialEq, Eq, Structural)]
pub enum GridError {
    /// A hex index, or a hex on a sight line, lies outside the map.
    OutOfBounds,
}

/// `x / n` rounded to the nearest integer, halves rounded up.
pub open spec fn round_div(x: int, n: int) -> int {
    (2 * x + n) / (2 * n)
}

/// The hex nearest to the point at `i / n` of the way from the centre of
/// `a` to the centre of `b`, where `n` is their distance; for `i > n` the
/// point lies beyond `b` on the same straight line. The point is rounded in
/// cube coordinates: each coordinate to the nearest integer, then the one
/// that moved most is recomputed from the other two.
pub open spec fn line_point(a: HexCoord, b: HexCoord, i: int) -> (int, int) {
    let n = hex_distance(a, b);
    if n == 0 {
        (a.q as int, a.r as int)
    } else {
        let x = a.q * n + (b.q - a.q) * i;
        let z = a.r * n + (b.r - a.r) * i;
        let y = -x - z;
        let rx = round_div(x, n);
        let ry = round_div(y, n);
        let rz = round_div(z, n);
        let dx = abs(rx * n - x);
        let dy = abs(ry * n - y);
        let dz = abs(rz * n - z);
        if dx > dy && dx > dz {
            (-ry - rz, rz)
        } else if dy > dz {
            (rx, rz)
        } else {
            (rx, -rx - ry)
        }
    }
}

proof fn lemma_round_div(x: int, n: int)
    requires
        n > 0,
    ensures
        2 * (round_div(x, n) * n) <= 2 * x + n,
        2 * x + n < 2 * (round_div(x, n) * n) + 2 * n,
{
    lemma_fundamental_div_mod(2 * x + n, 2 * n);
    lemma_mod_bound(2 * x + n, 2 * n);
    let q = round_div(x, n);
    assert(2 * (q * n) == (2 * n) * q) by (nonlinear_arith);
}

proof fn lemma_factor_bound(v: int, n: int, bound: int)
    requires
        n >= 1,
        -bound <= v * n <= bound,
    ensures
        -bound <= v <= bound,
{
    assert(-bound <= v <= bound) by (nonlinear_arith)
        requires
            n >= 1,
            -bound <= v * n <= bound;
}

/// Floor division by a positive divisor.
fn floor_div(p: i64, d: i64) -> (r: i64)
    requires
        d > 0,
        p > i64::MIN,
    ensures
        r == p / d,
{
    if p >= 0 {
        (p as u64 / d as u64) as i64
    } else {
        let m: u64 = (-p) as u64;
        let q: u64 = (m + d as u64 - 1) / d as u64;
        proof {
            let mi = m as int;
            let di = d as int;
            let qi = q as int;
            lemma_fundamental_div_mod(mi + di - 1, di);
            lemma_mod_bound(mi + di - 1, di);
            let rem = (mi + di - 1) % di;
            assert(qi * di == (mi + di - 1) - rem) by (nonlinear_arith)
                requires
                    mi + di - 1 == di * ((mi + di - 1) / di) + rem,
                    qi == (mi + di - 1) / di;
            assert(qi <= mi) by (nonlinear_arith)
                requires
                    qi * di <= mi + di - 1,
                    di >= 1,
                    mi >= 1,
                    qi >= 0;
            assert((-qi) * di == -(qi * di)) by (nonlinear_arith);
            lemma_fundamental_div_mod_converse(p as int, di, -qi, qi * di - mi);
        }
        -(q as i64)
    }
}

fn round_div_exec(x: i64, n: i64) -> (r: i64)
    requires
        n > 0,
        -0x1000_0000_0000_0000 <= x <= 0x1000_0000_0000_0000,
        n <= 0x1000_0000,
    ensures
        r == round_div(x as int, n as int),
{
    floor_div(2 * x + n, 2 * n)
}

/// The coordinates of `line_point(a, b, i)`.
pub fn line_coord(a: HexCoord, b: HexCoord, i: i64) -> (r: (i64, i64))
    requires
        a.in_limits(),
        b.in_limits(),
        0 <= i <= RAY_LIMIT,
    ensures
        r.0 == line_point(a, b, i as int).0,
        r.1 == line_point(a, b, i as int).1,
{
    let n: i64 = coord_distance(a, b) as i64;
    if n == 0 {
        return (a.q as i64, a.r as i64);
    }
    proof {
        lemma_distance_symmetric(a, b);
        assert(n <= 40000);
        let dq = b.q - a.q;
        let dr = b.r - a.r;
        assert(-20000 <= dq <= 20000);
        assert(-20000 <= dr <= 20000);
        assert(-0x40_0000_0000_0000 <= dq * i <= 0x40_0000_0000_0000) by (nonlinear_arith)
            requires
                -20000 <= dq <= 20000,
                0 <= i <= 0x2_0000_0000;
        assert(-0x40_0000_0000_0000 <= dr * i <= 0x40_0000_0000_0000) by (nonlinear_arith)
            requires
                -20000 <= dr <= 20000,
                0 <= i <= 0x2_0000_0000;
        assert(-400000000 <= a.q * n <= 400000000) by (nonlinear_arith)
            requires
                -10000 <= a.q <= 10000,
                0 <= n <= 40000;
        assert(-400000000 <= a.r * n <= 400000000) by (nonlinear_arith)
            requires
                -10000 <= a.r <= 10000,
                0 <= n <= 40000;
    }
    let x: i64 = a.q as i64 * n + (b.q as i64 - a.q as i64) * i;
    let z: i64 = a.r as i64 * n + (b.r as i64 - a.r as i64) * i;
    let y: i64 = -x - z;
    let rx = round_div_exec(x, n);
    let ry = round_div_exec(y, n);
    let rz = round_div_exec(z, n);
    proof {
        lemma_round_div(x as int, n as int);
        lemma_round_div(y as int, n as int);
        lemma_round_div(z as int, n as int);
        lemma_factor_bound(rx as int, n as int, 0x100_0000_0000_0000);
        lemma_factor_bound(ry as int, n as int, 0x100_0000_0000_0000);
        lemma_factor_bound(rz as int, n as int, 0x100_0000_0000_0000);
    }
    let ex: i64 = rx * n - x;
    let ey: i64 = ry * n - y;
    let ez: i64 = rz * n - z;
    let dx: i64 = if ex < 0 { -ex } else { ex };
    let dy: i64 = if ey < 0 { -ey } else { ey };
    let dz: i64 = if ez < 0 { -ez } else { ez };
    if dx > dy && dx > dz {
        (-ry - rz, rz)
    } else if dy > dz {
        (rx, rz)
    } else {
        (rx, -rx - ry)
    }
}

} // verus!

verus! {

/// Whether the `i`-th hex of the sight line from hex `a` to hex `b` hinders
/// sight; the last one, at the distance between them, is `b` itself.
pub open spec fn line_blocks(g: Seq<Hex>, a: int, b: int, i: int) -> bool {
    let n = hex_distance(g[a].coord, g[b].coord);
    if i >= n {
        g[b].hinders_sight()
    } else {
        let p = line_point(g[a].coord, g[b].coord, i);
        blocked_at(g, p.0, p.1)
    }
}

/// Every hex strictly between `a` and `b` on the sight line is on the map.
pub open spec fn line_on_map(g: Seq<Hex>, a: int, b: int) -> bool {
    forall|i: int|
        1 <= i < hex_distance(g[a].coord, g[b].coord) ==> on_map(
            g,
            #[trigger] line_point(g[a].coord, g[b].coord, i).0,
            line_point(g[a].coord, g[b].coord, i).1,
        )
}

/// Sight extends into woods and buildings but not through them: the line is
/// clear unless two consecutive hexes after the origin hinder sight.
pub open spec fn sight_clear(g: Seq<Hex>, a: int, b: int) -> bool {
    forall|i: int|
        1 <= i < hex_distance(g[a].coord, g[b].coord) ==> !(#[trigger] line_blocks(g, a, b, i)
            && line_blocks(g, a, b, i + 1))
}

/// Two consecutive hexes of the list hinder sight.
pub open spec fn obstructs(g: Seq<Hex>, line: Seq<usize>) -> bool {
    exists|j: int|
        0 <= j < line.len() - 1 && (#[trigger] g[line[j] as int]).hinders_sight() && g[line[j
            + 1] as int].hinders_sight()
}

/// Whether a sight line, given as the hexes after the origin up to the
/// target, is obstructed: two consecutive hexes of it hinder sight.
pub fn los_obstructed(g: &Grid, line: &Vec<usize>) -> (r: bool)
    requires
        g.wf(),
        forall|j: int| 0 <= j < line@.len() ==> #[trigger] line@[j] < g.len(),
    ensures
        r == obstructs(g.hexes@, line@),
{
    if line.len() < 2 {
        return false;
    }
    let mut prev = g.hexes[line[0]].blocks_sight();
    let mut j: usize = 1;
    while j < line.len()
        invariant
            g.wf(),
            forall|k: int| 0 <= k < line@.len() ==> #[trigger] line@[k] < g.len(),
            1 <= j <= line.len(),
            prev == g.hexes@[line@[j - 1] as int].hinders_sight(),
            forall|k: int|
                0 <= k < j - 1 ==> !((#[trigger] g.hexes@[line@[k] as int]).hinders_sight()
                    && g.hexes@[line@[k + 1] as int].hinders_sight()),
        decreases line.len() - j,
    {
        let cur = g.hexes[line[j]].blocks_sight();
        if prev && cur {
            assert(g.hexes@[line@[j - 1] as int].hinders_sight());
            return true;
        }
        prev = cur;
        j = j + 1;
    }
    false
}

/// Whether a unit in hex `origin` can see hex `target`. A hex sees itself.
/// Fails when either index, or a hex the line passes, is off the map.
pub fn get_los(g: &Grid, origin: usize, target: usize) -> (r: Result<bool, GridError>)
    requires
        g.wf(),
    ensures
        r is Err ==> r == Err::<bool, GridError>(GridError::OutOfBounds),
        (origin >= g.len() || target >= g.len()) ==> r is Err,
        origin < g.len() && target < g.len() ==> (r is Ok <==> line_on_map(
            g.hexes@,
            origin as int,
            target as int,
        )),
        r matches Ok(v) ==> v == sight_clear(g.hexes@, origin as int, target as int),
{
    if origin >= g.hexes.len() || target >= g.hexes.len() {
        return Err(GridError::OutOfBounds);
    }
    let a = g.hexes[origin].coord;
    let b = g.hexes[target].coord;
    let n: usize = coord_distance(a, b) as usize;
    proof {
        lemma_distance_symmetric(a, b);
    }
    let ghost gs = g.hexes@;
    let ghost (oi, ti) = (origin as int, target as int);
    let mut line: Vec<usize> = Vec::new();
    let mut i: usize = 1;
    while i < n
        invariant
            g.wf(),
            gs == g.hexes@,
            oi == origin,
            ti == target,
            origin < g.len(),
            target < g.len(),
            a == gs[oi].coord,
            b == gs[ti].coord,
            n == hex_distance(a, b),
            n <= 40000,
            1 <= i,
            i <= n || i == 1,
            line@.len() == i - 1,
            forall|k: int| 0 <= k < line@.len() ==> #[trigger] line@[k] < g.len(),
            forall|k: int|
                0 <= k < line@.len() ==> (#[trigger] g.hexes@[line@[k] as int]).hinders_sight()
                    == line_blocks(gs, oi, ti, k + 1),
            forall|k: int|
                1 <= k < i ==> on_map(
                    gs,
                    #[trigger] line_point(a, b, k).0,
                    line_point(a, b, k).1,
                ),
        decreases n - i,
    {
        let p = line_coord(a, b, i as i64);
        match locate(g, p.0, p.1) {
            None => {
                return Err(GridError::OutOfBounds);
            },
            Some(k) => {
                line.push(k);
            },
        }
        i = i + 1;
    }
    line.push(target);
    let blocked = los_obstructed(g, &line);
    proof {
        let ln = line@;
        if n >= 1 {
            assert(ln.len() == n);
            assert(line_blocks(gs, oi, ti, n as int) == gs[ti].hinders_sight());
            assert forall|k: int| 0 <= k < ln.len() implies (#[trigger] gs[ln[k] as int]).hinders_sight()
                == line_blocks(gs, oi, ti, k + 1) by {
                if k == ln.len() - 1 {
                    assert(ln[k] == target);
                }
            }
            if blocked {
                let j = choose|j: int| 0 <= j < ln.len() - 1 && (#[trigger] gs[ln[j] as int]).hinders_sight()
                    && gs[ln[j + 1] as int].hinders_sight();
                assert(line_blocks(gs, oi, ti, j + 1) && line_blocks(gs, oi, ti, j + 2));
                assert(!sight_clear(gs, oi, ti));
            } else {
                assert forall|m: int| 1 <= m < n implies !(#[trigger] line_blocks(gs, oi, ti, m)
                    && line_blocks(gs, oi, ti, m + 1)) by {
                    assert(gs[ln[m - 1] as int].hinders_sight() == line_blocks(gs, oi, ti, m));
                    assert(gs[ln[m] as int].hinders_sight() == line_blocks(gs, oi, ti, m + 1));
                }
                assert(sight_clear(gs, oi, ti));
            }
        } else {
            assert(ln.len() == 1);
            assert(!blocked);
            assert(sight_clear(gs, oi, ti));
        }
    }
    Ok(!blocked)
}

} // verus!
