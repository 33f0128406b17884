use vstd::prelude::*;

verus! {

/// A terrain category. A hex may carry several of them, and their effects
/// on movement and on combat are cumulative.
#[derive(Clone, Copy, Debug, PartialEq, Eq, Structural)]
pub enum Terrain {
    OpenGround,
    Shellhole,
    Wheatfield,
    OnRoad,
    OntoRoad,
    Woods,
    EnterBuilding,
    WithinBuilding,
    OverWall,
}

impl Terrain {
    /// Movement factors that this terrain adds to the cost of entering a hex.
    pub open spec fn move_cost(self) -> nat {
        match self {
            Terrain::Woods | Terrain::EnterBuilding | Terrain::WithinBuilding => 2,
            _ => 1,
        }
    }

    /// What this terrain adds to the fire resolution against a hex.
    pub open spec fn combat_cost(self) -> nat {
        match self {
            Terrain::Shellhole | Terrain::Woods | Terrain::OverWall => 1,
            Terrain::EnterBuilding | Terrain::WithinBuilding => 2,
            _ => 0,
        }
    }

    /// Woods and buildings hinder sight.
    pub open spec fn hinders_sight(self) -> bool {
        matches!(self, Terrain::Woods | Terrain::EnterBuilding | Terrain::WithinBuilding)
    }

    pub fn movement_cost(&self) -> (r: u32)
        ensures
            r == self.move_cost(),
    {
        match self {
            Terrain::OpenGround => 1,
            Terrain::Shellhole => 1,
            Terrain::Wheatfield => 1,
            Terrain::OnRoad => 1,
            Terrain::OntoRoad => 1,
            Terrain::Woods => 2,
            Terrain::EnterBuilding => 2,
            Terrain::WithinBuilding => 2,
            Terrain::OverWall => 1,
        }
    }

    pub fn combat_effect(&self) -> (r: u32)
        ensures
            r == self.combat_cost(),
    {
        match self {
            Terrain::Shellhole | Terrain::Woods | Terrain::OverWall => 1,
            Terrain::EnterBuilding | Terrain::WithinBuilding => 2,
            _ => 0,
        }
    }

    pub fn blocks_sight(&self) -> (r: bool)
        ensures
            r == self.hinders_sight(),
    {
        match self {
            Terrain::Woods | Terrain::EnterBuilding | Terrain::WithinBuilding => true,
            _ => false,
        }
    }
}

/// Every terrain category.
pub open spec fn all_terrain() -> Set<Terrain> {
    set![
        Terrain::OpenGround,
        Terrain::Shellhole,
        Terrain::Wheatfield,
        Terrain::OnRoad,
        Terrain::OntoRoad,
        Terrain::Woods,
        Terrain::EnterBuilding,
        Terrain::WithinBuilding,
        Terrain::OverWall,
    ]
}

/// Sum of the movement costs of a list of terrain tags.
pub open spec fn tags_move_cost(s: Seq<Terrain>) -> nat
    decreases s.len(),
{
    if s.len() == 0 {
        0
    } else {
        tags_move_cost(s.drop_last()) + s.last().move_cost()
    }
}

/// Sum of the combat effects of a list of terrain tags.
pub open spec fn tags_combat_cost(s: Seq<Terrain>) -> nat
    decreases s.len(),
{
    if s.len() == 0 {
        0
    } else {
        tags_combat_cost(s.drop_last()) + s.last().combat_cost()
    }
}

pub open spec fn tags_hinder_sight(s: Seq<Terrain>) -> bool {
    exists|i: int| 0 <= i < s.len() && #[trigger] s[i].hinders_sight()
}

/// A list of distinct tags holds at most one of each category.
pub proof fn lemma_distinct_tags_len(s: Seq<Terrain>)
    requires
        s.no_duplicates(),
    ensures
        s.len() <= 9,
{
    s.unique_seq_to_set();
    let all = all_terrain();
    assert(s.to_set().subset_of(all)) by {
        assert forall|t: Terrain| s.to_set().contains(t) implies all.contains(t) by {
            match t {
                Terrain::OpenGround => {},
                Terrain::Shellhole => {},
                Terrain::Wheatfield => {},
                Terrain::OnRoad => {},
                Terrain::OntoRoad => {},
                Terrain::Woods => {},
                Terrain::EnterBuilding => {},
                Terrain::WithinBuilding => {},
                Terrain::OverWall => {},
            }
        }
    }
    vstd::set_lib::lemma_len_subset(s.to_set(), all);
    assert(all.len() == 9);
}

pub proof fn lemma_tags_move_cost_bound(s: Seq<Terrain>)
    ensures
        tags_move_cost(s) <= 2 * s.len(),
    decreases s.len(),
{
    if s.len() > 0 {
        lemma_tags_move_cost_bound(s.drop_last());
    }
}

pub proof fn lemma_tags_combat_cost_bound(s: Seq<Terrain>)
    ensures
        tags_combat_cost(s) <= 2 * s.len(),
    decreases s.len(),
{
    if s.len() > 0 {
        lemma_tags_combat_cost_bound(s.drop_last());
    }
}

} // verus!
