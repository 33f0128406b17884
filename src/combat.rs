use vstd::prelude::*;
use crate::phase::Side;
use crate::unit::Unit;

verus! {

/// Units of both sides sharing a hex, who must fight it out.
#[derive(Clone, Debug)]
pub struct Engagement {
    pub hex: usize,
    /// Indices of every unit on the hex, in increasing order.
    pub units: Vec<usize>,
}

/// Indices below `m` of the units standing on hex `h`, in increasing order.
pub open spec fn occupants(units: Seq<Unit>, h: int, m: int) -> Seq<usize>
    decreases m,
{
    if m <= 0 {
        seq![]
    } else if units[m - 1].hex == h {
        occupants(units, h, m - 1).push((m - 1) as usize)
    } else {
        occupants(units, h, m - 1)
    }
}

pub open spec fn side_on(units: Seq<Unit>, h: int, s: Side) -> bool {
    exists|i: int| 0 <= i < units.len() && (#[trigger] units[i]).hex == h && units[i].owner == s
}

/// Units of both sides stand on hex `h`.
pub open spec fn contested(units: Seq<Unit>, h: int) -> bool {
    side_on(units, h, Side::First) && side_on(units, h, Side::Second)
}

/// The engagements on hexes below `k`, by hex, each with all units on it.
pub open spec fn engagements(units: Seq<Unit>, k: int) -> Seq<(int, Seq<usize>)>
    decreases k,
{
    if k <= 0 {
        seq![]
    } else if contested(units, k - 1) {
        engagements(units, k - 1).push((k - 1, occupants(units, k - 1, units.len() as int)))
    } else {
        engagements(units, k - 1)
    }
}

proof fn lemma_occupants(units: Seq<Unit>, h: int, m: int)
    requires
        0 <= m <= units.len(),
        units.len() <= usize::MAX,
    ensures
        forall|k: int|
            0 <= k < occupants(units, h, m).len() ==> (#[trigger] occupants(units, h, m)[k]) < m
                && units[occupants(units, h, m)[k] as int].hex == h,
        forall|i: int| 0 <= i < m && (#[trigger] units[i]).hex == h ==> occupants(units, h, m).contains(i as usize),
    decreases m,
{
    if m > 0 {
        lemma_occupants(units, h, m - 1);
        let prev = occupants(units, h, m - 1);
        if units[m - 1].hex == h {
            let cur = occupants(units, h, m);
            assert forall|k: int| 0 <= k < cur.len() implies (#[trigger] cur[k]) < m && units[cur[k] as int].hex == h by {
                if k < prev.len() {
                    assert(cur[k] == prev[k]);
                }
            }
            assert forall|i: int| 0 <= i < m && (#[trigger] units[i]).hex == h implies occupants(units, h, m).contains(i as usize) by {
                if i < m - 1 {
                    let k = choose|k: int| 0 <= k < prev.len() && prev[k] == i as usize;
                    assert(occupants(units, h, m)[k] == i as usize);
                } else {
                    assert(occupants(units, h, m)[prev.len() as int] == i as usize);
                }
            }
        }
    }
}

proof fn lemma_engagements(units: Seq<Unit>, k: int)
    requires
        0 <= k,
    ensures
        forall|i: int|
            0 <= i < engagements(units, k).len() ==> 0 <= (#[trigger] engagements(units, k)[i]).0 < k
                && contested(units, engagements(units, k)[i].0)
                && engagements(units, k)[i].1 == occupants(units, engagements(units, k)[i].0, units.len() as int),
        forall|h: int|
            0 <= h < k && #[trigger] contested(units, h) ==> exists|i: int|
                0 <= i < engagements(units, k).len() && (#[trigger] engagements(units, k)[i]).0 == h,
    decreases k,
{
    if k > 0 {
        lemma_engagements(units, k - 1);
        let prev = engagements(units, k - 1);
        assert forall|h: int| 0 <= h < k && #[trigger] contested(units, h) implies exists|i: int|
            0 <= i < engagements(units, k).len() && (#[trigger] engagements(units, k)[i]).0 == h by {
            if h < k - 1 {
                let i = choose|i: int| 0 <= i < prev.len() && (#[trigger] prev[i]).0 == h;
                assert(engagements(units, k)[i] == prev[i]);
            } else {
                assert(engagements(units, k)[prev.len() as int].0 == h);
            }
        }
    }
}

/// Close combat is found exactly where opposing units share a hex: every
/// unit listed in an engagement stands on its hex, and any two opposing
/// units on one hex of the map appear together in the engagement of that
/// hex.
pub proof fn lemma_engagements_colocated(units: Seq<Unit>, hex_count: int)
    requires
        0 <= hex_count,
        units.len() <= usize::MAX,
    ensures
        forall|e: int, k: int|
            0 <= e < engagements(units, hex_count).len() && 0 <= k < engagements(units, hex_count)[e].1.len()
                ==> units[#[trigger] engagements(units, hex_count)[e].1[k] as int].hex == engagements(units, hex_count)[e].0,
        forall|i: int, j: int|
            0 <= i < units.len() && 0 <= j < units.len() && units[i].hex == units[j].hex && units[i].hex < hex_count
                && #[trigger] units[i].owner != #[trigger] units[j].owner ==> exists|e: int|
                0 <= e < engagements(units, hex_count).len() && engagements(units, hex_count)[e].0 == units[i].hex
                    && (#[trigger] engagements(units, hex_count)[e]).1.contains(i as usize)
                    && engagements(units, hex_count)[e].1.contains(j as usize),
{
    lemma_engagements(units, hex_count);
    let es = engagements(units, hex_count);
    assert forall|e: int, k: int|
        0 <= e < es.len() && 0 <= k < es[e].1.len() implies units[#[trigger] es[e].1[k] as int].hex == es[e].0 by {
        lemma_occupants(units, es[e].0, units.len() as int);
    }
    assert forall|i: int, j: int|
        0 <= i < units.len() && 0 <= j < units.len() && units[i].hex == units[j].hex && units[i].hex < hex_count
            && #[trigger] units[i].owner != #[trigger] units[j].owner implies exists|e: int|
            0 <= e < es.len() && es[e].0 == units[i].hex && (#[trigger] es[e]).1.contains(i as usize)
                && es[e].1.contains(j as usize) by {
        let h = units[i].hex as int;
        assert(side_on(units, h, units[i].owner));
        assert(side_on(units, h, units[j].owner));
        assert(contested(units, h));
        let e = choose|e: int| 0 <= e < es.len() && (#[trigger] es[e]).0 == h;
        lemma_occupants(units, h, units.len() as int);
        assert(es[e].1.contains(i as usize));
        assert(es[e].1.contains(j as usize));
    }
}

/// Finds every hex below `hex_count` where units of both sides stand, with
/// all the units on it.
pub fn close_combat(units: &Vec<Unit>, hex_count: usize) -> (r: Vec<Engagement>)
    ensures
        r@.len() == engagements(units@, hex_count as int).len(),
        forall|i: int|
            0 <= i < r@.len() ==> (#[trigger] r@[i]).hex == engagements(units@, hex_count as int)[i].0
                && r@[i].units@ == engagements(units@, hex_count as int)[i].1,
{
    let mut out: Vec<Engagement> = Vec::new();
    let mut h: usize = 0;
    while h < hex_count
        invariant
            h <= hex_count,
            out@.len() == engagements(units@, h as int).len(),
            forall|i: int|
                0 <= i < out@.len() ==> (#[trigger] out@[i]).hex == engagements(units@, h as int)[i].0
                    && out@[i].units@ == engagements(units@, h as int)[i].1,
        decreases hex_count - h,
    {
        let mut here: Vec<usize> = Vec::new();
        let mut first = false;
        let mut second = false;
        let mut k: usize = 0;
        while k < units.len()
            invariant
                k <= units.len(),
                here@ == occupants(units@, h as int, k as int),
                first == exists|i: int| 0 <= i < k && (#[trigger] units@[i]).hex == h && units@[i].owner == Side::First,
                second == exists|i: int| 0 <= i < k && (#[trigger] units@[i]).hex == h && units@[i].owner == Side::Second,
            decreases units.len() - k,
        {
            if units[k].hex == h {
                here.push(k);
                match units[k].owner {
                    Side::First => first = true,
                    Side::Second => second = true,
                }
            }
            k = k + 1;
        }
        let ghost prev = out@;
        if first && second {
            out.push(Engagement { hex: h, units: here });
        }
        assert forall|i: int| 0 <= i < out@.len() implies (#[trigger] out@[i]).hex == engagements(units@, h + 1)[i].0
            && out@[i].units@ == engagements(units@, h + 1)[i].1 by {
            if i < prev.len() {
                assert(out@[i] == prev[i]);
            }
        }
        h = h + 1;
    }
    out
}

} // verus!
