use vstd::prelude::*;
use crate::terrain::{Terrain, tags_move_cost, tags_combat_cost, tags_hinder_sight, lemma_distinct_tags_len, lemma_tags_move_cost_bound, lemma_tags_combat_cost_bound};

verus! {

/// Largest magnitude of a coordinate on a map.
pub const COORD_LIMIT: i32 = 10000;

/// Axial coordinates of a hex: `q` runs along a row, `r` across rows.
#[derive(Clone, Copy, Debug, PartialEq, Eq, Structural)]
pub struct HexCoord {
    pub q: i32,
    pub r: i32,
}

impl HexCoord {
    pub open spec fn in_limits(self) -> bool {
        -COORD_LIMIT <= self.q <= COORD_LIMIT && -COORD_LIMIT <= self.r <= COORD_LIMIT
    }
}

pub open spec fn abs(x: int) -> int {
    if x < 0 { -x } else { x }
}

pub open spec fn max3(a: int, b: int, c: int) -> int {
    if a >= b && a >= c { a } else if b >= c { b } else { c }
}

/// Number of hex steps between two hexes: the largest of the three cube
/// coordinate differences.
pub open spec fn hex_distance(a: HexCoord, b: HexCoord) -> int {
    let dq = a.q - b.q;
    let dr = a.r - b.r;
    max3(abs(dq), abs(dr), abs(dq + dr))
}

/// A map hex: its place, its elevation and its terrain tags.
#[derive(Clone, Debug)]
pub struct Hex {
    pub coord: HexCoord,
    pub elevation: u8,
    pub terrain: Vec<Terrain>,
}

impl Hex {
    /// Tags are held once each and the hex lies inside the coordinate limits.
    pub open spec fn wf(&self) -> bool {
        &&& self.coord.in_limits()
        &&& self.terrain@.no_duplicates()
    }

    pub open spec fn move_cost(&self) -> nat {
        tags_move_cost(self.terrain@)
    }

    pub open spec fn combat_cost(&self) -> nat {
        tags_combat_cost(self.terrain@)
    }

    pub open spec fn hinders_sight(&self) -> bool {
        tags_hinder_sight(self.terrain@)
    }

    pub open spec fn has_tag(&self, t: Terrain) -> bool {
        self.terrain@.contains(t)
    }

    /// Builds a hex; repeated tags are collapsed into one.
    pub fn new(coord: HexCoord, elevation: u8, tags: Vec<Terrain>) -> (h: Hex)
        requires
            coord.in_limits(),
        ensures
            h.wf(),
            h.coord == coord,
            h.elevation == elevation,
            h.terrain@.to_set() == tags@.to_set(),
    {
        let mut terrain: Vec<Terrain> = Vec::new();
        let mut i: usize = 0;
        while i < tags.len()
            invariant
                i <= tags.len(),
                terrain@.no_duplicates(),
                terrain@.to_set() == tags@.subrange(0, i as int).to_set(),
            decreases tags.len() - i,
        {
            let t = tags[i];
            let mut present = false;
            let mut j: usize = 0;
            while j < terrain.len()
                invariant
                    j <= terrain.len(),
                    present == (exists|k: int| 0 <= k < j && terrain@[k] == t),
                decreases terrain.len() - j,
            {
                if terrain[j] == t {
                    present = true;
                }
                j = j + 1;
            }
            assert(present == terrain@.contains(t));
            proof {
                assert(tags@.subrange(0, i + 1) == tags@.subrange(0, i as int).push(t));
                tags@.subrange(0, i as int).lemma_push_to_set_commute(t);
                if !present {
                    terrain@.lemma_push_to_set_commute(t);
                }
            }
            if !present {
                terrain.push(t);
            }
            proof {
                if present {
                    assert(terrain@.to_set().insert(t) =~= terrain@.to_set());
                }
            }
            i = i + 1;
        }
        assert(tags@.subrange(0, tags.len() as int) == tags@);
        Hex { coord, elevation, terrain }
    }

    /// Whether the hex carries the given tag.
    pub fn has(&self, t: Terrain) -> (r: bool)
        ensures
            r == self.has_tag(t),
    {
        let mut i: usize = 0;
        while i < self.terrain.len()
            invariant
                i <= self.terrain.len(),
                forall|k: int| 0 <= k < i ==> self.terrain@[k] != t,
            decreases self.terrain.len() - i,
        {
            if self.terrain[i] == t {
                return true;
            }
            i = i + 1;
        }
        false
    }

    /// Whether any tag of the hex hinders sight.
    pub fn blocks_sight(&self) -> (r: bool)
        ensures
            r == self.hinders_sight(),
    {
        let mut i: usize = 0;
        while i < self.terrain.len()
            invariant
                i <= self.terrain.len(),
                forall|k: int| 0 <= k < i ==> !(#[trigger] self.terrain@[k]).hinders_sight(),
            decreases self.terrain.len() - i,
        {
            if self.terrain[i].blocks_sight() {
                return true;
            }
            i = i + 1;
        }
        false
    }
}

/// Cost in movement factors of entering a hex: the sum of the costs of its
/// terrain tags.
pub fn get_terrain_effect_on_move(hex: &Hex) -> (r: u32)
    requires
        hex.wf(),
    ensures
        r == hex.move_cost(),
{
    proof {
        lemma_distinct_tags_len(hex.terrain@);
    }
    let mut total: u32 = 0;
    let mut i: usize = 0;
    while i < hex.terrain.len()
        invariant
            i <= hex.terrain.len() <= 9,
            total == tags_move_cost(hex.terrain@.subrange(0, i as int)),
        decreases hex.terrain.len() - i,
    {
        proof {
            let s = hex.terrain@.subrange(0, i + 1);
            assert(s.drop_last() == hex.terrain@.subrange(0, i as int));
            lemma_tags_move_cost_bound(hex.terrain@.subrange(0, i as int));
        }
        total = total + hex.terrain[i].movement_cost();
        i = i + 1;
    }
    assert(hex.terrain@.subrange(0, i as int) == hex.terrain@);
    total
}

/// What the terrain of a hex adds to fire against it: the sum over its tags.
pub fn terrain_effect_combat(hex: &Hex) -> (r: u32)
    requires
        hex.wf(),
    ensures
        r == hex.combat_cost(),
{
    proof {
        lemma_distinct_tags_len(hex.terrain@);
    }
    let mut total: u32 = 0;
    let mut i: usize = 0;
    while i < hex.terrain.len()
        invariant
            i <= hex.terrain.len() <= 9,
            total == tags_combat_cost(hex.terrain@.subrange(0, i as int)),
        decreases hex.terrain.len() - i,
    {
        proof {
            let s = hex.terrain@.subrange(0, i + 1);
            assert(s.drop_last() == hex.terrain@.subrange(0, i as int));
            lemma_tags_combat_cost_bound(hex.terrain@.subrange(0, i as int));
        }
        total = total + hex.terrain[i].combat_effect();
        i = i + 1;
    }
    assert(hex.terrain@.subrange(0, i as int) == hex.terrain@);
    total
}

/// Distance in hexes between two hexes.
pub fn get_distance(origin: &Hex, target: &Hex) -> (r: u32)
    requires
        origin.wf(),
        target.wf(),
    ensures
        r == hex_distance(origin.coord, target.coord),
{
    coord_distance(origin.coord, target.coord)
}

pub fn coord_distance(a: HexCoord, b: HexCoord) -> (r: u32)
    requires
        a.in_limits(),
        b.in_limits(),
    ensures
        r == hex_distance(a, b),
{
    let dq: i64 = a.q as i64 - b.q as i64;
    let dr: i64 = a.r as i64 - b.r as i64;
    let ds: i64 = dq + dr;
    let aq: i64 = if dq < 0 { -dq } else { dq };
    let ar: i64 = if dr < 0 { -dr } else { dr };
    let as_: i64 = if ds < 0 { -ds } else { ds };
    let m: i64 = if aq >= ar && aq >= as_ { aq } else if ar >= as_ { ar } else { as_ };
    m as u32
}

/// Distance is symmetric, and a hex is at distance zero from itself and
/// from no other hex.
pub proof fn lemma_distance_symmetric(a: HexCoord, b: HexCoord)
    ensures
        hex_distance(a, b) == hex_distance(b, a),
        hex_distance(a, a) == 0,
        hex_distance(a, b) >= 0,
        hex_distance(a, b) == 0 <==> a == b,
{
}

} // verus!

verus! {

/// Whether a hex stands at the given coordinates, taken as integers.
pub open spec fn at_coord(h: Hex, q: int, r: int) -> bool {
    h.coord.q == q && h.coord.r == r
}

/// Whether some hex of the map stands at `(q, r)`.
pub open spec fn on_map(g: Seq<Hex>, q: int, r: int) -> bool {
    exists|k: int| 0 <= k < g.len() && at_coord(#[trigger] g[k], q, r)
}

/// Whether the hex of the map at `(q, r)` hinders sight.
pub open spec fn blocked_at(g: Seq<Hex>, q: int, r: int) -> bool {
    exists|k: int| 0 <= k < g.len() && at_coord(#[trigger] g[k], q, r) && g[k].hinders_sight()
}

/// No two hexes of the list share coordinates.
#[verifier::opaque]
pub open spec fn coords_unique(g: Seq<Hex>) -> bool {
    forall|j: int, k: int|
        0 <= j < g.len() && 0 <= k < g.len() && j != k ==> #[trigger] g[j].coord
            != #[trigger] g[k].coord
}

/// Every hex is well formed and no two share coordinates.
pub open spec fn map_ok(g: Seq<Hex>) -> bool {
    &&& forall|k: int| 0 <= k < g.len() ==> (#[trigger] g[k]).wf()
    &&& coords_unique(g)
}

/// The map: its hexes, each known by its index. Elevation and terrain do not
/// change during play.
#[derive(Clone, Debug)]
pub struct Grid {
    pub hexes: Vec<Hex>,
}

impl Grid {
    pub open spec fn wf(&self) -> bool {
        map_ok(self.hexes@)
    }

    pub open spec fn len(&self) -> nat {
        self.hexes@.len()
    }

    pub fn hex_count(&self) -> (r: usize)
        ensures
            r == self.len(),
    {
        self.hexes.len()
    }
}

/// Finds the hex at `(q, r)`.
pub fn locate(g: &Grid, q: i64, r: i64) -> (res: Option<usize>)
    requires
        g.wf(),
    ensures
        res matches Some(k) ==> k < g.len() && at_coord(g.hexes@[k as int], q as int, r as int),
        res is None <==> !on_map(g.hexes@, q as int, r as int),
        res matches Some(k) ==> (blocked_at(g.hexes@, q as int, r as int) <==> g.hexes@[k as int].hinders_sight()),
{
    let mut k: usize = 0;
    while k < g.hexes.len()
        invariant
            g.wf(),
            k <= g.hexes.len(),
            forall|j: int| 0 <= j < k ==> !at_coord(#[trigger] g.hexes@[j], q as int, r as int),
        decreases g.hexes.len() - k,
    {
        let c = g.hexes[k].coord;
        if c.q as i64 == q && c.r as i64 == r {
            proof {
                if blocked_at(g.hexes@, q as int, r as int) {
                    let j = choose|j: int| 0 <= j < g.hexes@.len() && at_coord(#[trigger] g.hexes@[j], q as int, r as int) && g.hexes@[j].hinders_sight();
                    assert(g.hexes@[j].coord == g.hexes@[k as int].coord);
                    reveal(coords_unique);
                    assert(j == k);
                }
                if g.hexes@[k as int].hinders_sight() {
                    assert(at_coord(g.hexes@[k as int], q as int, r as int));
                }
            }
            return Some(k);
        }
        k = k + 1;
    }
    None
}

/// The index of the hex at the given coordinates, if the map has one.
pub fn get_grid_coordinate(g: &Grid, coord: HexCoord) -> (res: Option<usize>)
    requires
        g.wf(),
    ensures
        res matches Some(k) ==> k < g.len() && g.hexes@[k as int].coord == coord,
        res is None <==> forall|k: int| 0 <= k < g.len() ==> (#[trigger] g.hexes@[k]).coord != coord,
{
    let res = locate(g, coord.q as i64, coord.r as i64);
    proof {
        if res is None {
            assert forall|k: int| 0 <= k < g.len() implies (#[trigger] g.hexes@[k]).coord != coord by {
                assert(!at_coord(g.hexes@[k], coord.q as int, coord.r as int));
            }
        }
    }
    res
}

} // verus!

verus! {

impl Grid {
    /// Builds the map from its hexes; `None` when a hex is malformed (a
    /// coordinate beyond the limits or a repeated tag) or two hexes share
    /// coordinates.
    pub fn from_hexes(hexes: Vec<Hex>) -> (r: Option<Grid>)
        ensures
            r matches Some(g) ==> g.wf() && g.hexes@ == hexes@,
            r is None <==> !map_ok(hexes@),
    {
        let ghost hs = hexes@;
        let mut i: usize = 0;
        while i < hexes.len()
            invariant
                hs == hexes@,
                i <= hexes.len(),
                forall|k: int| 0 <= k < i ==> (#[trigger] hs[k]).wf(),
                forall|j: int, k: int| 0 <= j < i && 0 <= k < hs.len() && j != k ==> #[trigger] hs[j].coord != #[trigger] hs[k].coord,
            decreases hexes.len() - i,
        {
            let c = hexes[i].coord;
            if c.q < -COORD_LIMIT || c.q > COORD_LIMIT || c.r < -COORD_LIMIT || c.r > COORD_LIMIT {
                return None;
            }
            if !tags_distinct(&hexes[i].terrain) {
                return None;
            }
            let mut j: usize = 0;
            while j < hexes.len()
                invariant
                    hs == hexes@,
                    i < hexes.len(),
                    j <= hexes.len(),
                    c == hs[i as int].coord,
                    forall|k: int| 0 <= k < j && k != i ==> hs[i as int].coord != #[trigger] hs[k].coord,
                decreases hexes.len() - j,
            {
                if j != i && hexes[j].coord == c {
                    proof {
                        reveal(coords_unique);
                    }
                    return None;
                }
                j = j + 1;
            }
            i = i + 1;
        }
        proof {
            reveal(coords_unique);
        }
        Some(Grid { hexes })
    }
}

/// Whether no tag occurs twice in the list.
pub fn tags_distinct(tags: &Vec<Terrain>) -> (r: bool)
    ensures
        r == tags@.no_duplicates(),
{
    let mut i: usize = 0;
    while i < tags.len()
        invariant
            i <= tags.len(),
            forall|j: int, k: int| 0 <= j < i && 0 <= k < tags@.len() && j != k ==> tags@[j] != tags@[k],
        decreases tags.len() - i,
    {
        let mut k: usize = 0;
        while k < tags.len()
            invariant
                i < tags.len(),
                k <= tags.len(),
                forall|j: int, m: int| 0 <= j < i && 0 <= m < tags@.len() && j != m ==> tags@[j] != tags@[m],
                forall|m: int| 0 <= m < k && m != i ==> tags@[i as int] != tags@[m],
            decreases tags.len() - k,
        {
            if k != i && tags[k] == tags[i] {
                return false;
            }
            k = k + 1;
        }
        i = i + 1;
    }
    true
}

} // verus!
