//! A rule engine for a squad-level tactical wargame played on a hex grid.
//!
//! The crate models legal states and legal transitions of play: the hex map
//! (distance, line of sight, terrain), the combat units and their per-turn
//! action records, the phase sequence of a game turn, order validation, and
//! the movement, fire and close-combat calculations that a game shell drives.
//! Every rule is stated as a contract and proved.

mod terrain;
mod grid;
mod phase;
mod unit;
mod orders;
mod sight;
mod movement;
mod fire;
mod combat;
mod battle;

pub use terrain::Terrain;
pub use grid::{
    COORD_LIMIT, Grid, Hex, HexCoord, coord_distance, get_distance, get_grid_coordinate,
    get_terrain_effect_on_move, locate, tags_distinct, terrain_effect_combat,
};
pub use phase::{Phase, PhaseError, Side, TurnState, game_loop, update_scenario_turn};
pub use unit::{
    ActionRecord, Carrier, Condition, Leader, Squad, SupportWeapon, Unit, UnitKind, Vehicle,
    CategorySet, WeaponCategory, WeaponFire, WeaponType, LEADER_BONUS_MF, LEADER_MF, SQUAD_MF, carry_during_advance_phase,
    may_fire_support_weapon,
};
pub use orders::{
    OrderKind, OrderResponse, Orderable, Rejection, order_unit, record_order, response_to_order,
    validate,
};
pub use sight::{GridError, RAY_LIMIT, get_los, line_coord, los_obstructed};
pub use movement::{MovementError, plan_path, terrain_effect_movement};
pub use fire::{
    FireError, FireOutcome, Target, can_penetrate, determine_fire_effect, order_aimed_fire,
    order_moved_fire, sw_calc_penetration,
};
pub use combat::{Engagement, close_combat};
pub use battle::{
    Accepted, BattleManager, FireOrder, LoadError, Order, OrderError, advance_unit, broken_in_cover,
    order_defensive_fire,
};
