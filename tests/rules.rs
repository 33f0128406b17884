use squadleader::{
    advance_unit, broken_in_cover, game_loop, can_penetrate, close_combat, get_distance, get_los,
    order_aimed_fire, order_moved_fire, plan_path, response_to_order, sw_calc_penetration,
    validate, BattleManager, Condition, FireError, Grid, Hex, HexCoord, Leader, LoadError,
    MovementError, OrderError, OrderKind, OrderResponse, Phase, PhaseError, Rejection, Side,
    Squad, SupportWeapon, Terrain, TurnState, Unit, UnitKind, WeaponType,
};

fn hex(q: i32, r: i32, elevation: u8, tags: Vec<Terrain>) -> Hex {
    Hex::new(HexCoord { q, r }, elevation, tags)
}

fn squad(id: u32, owner: Side, at: usize) -> Unit {
    Unit::new(id, owner, at, UnitKind::Squad(Squad { firepower: 7, range: 6, morale: 7 }), 0)
}

fn leader(id: u32, owner: Side, at: usize, leadership: i8) -> Unit {
    Unit::new(
        id,
        owner,
        at,
        UnitKind::Leader(Leader { firepower: 1, range: 1, morale: 8, leadership }),
        0,
    )
}

fn weapon(id: u32, owner: Side, at: usize, kind: WeaponType, penetration: u8) -> Unit {
    Unit::new(
        id,
        owner,
        at,
        UnitKind::SupportWeapon(SupportWeapon {
            weapon: kind,
            firepower: 4,
            penetration,
            range: 8,
            breakdown: 12,
        }),
        0,
    )
}

/// A straight row of open hexes from (0, 0) to (n - 1, 0).
fn open_row(n: i32) -> Vec<Hex> {
    let mut hexes = Vec::new();
    for q in 0..n {
        hexes.push(hex(q, 0, 0, vec![Terrain::OpenGround]));
    }
    hexes
}

fn advance_to(b: &mut BattleManager, phase: Phase) {
    while b.turn.phase != phase {
        b.advance_phase().unwrap();
    }
}

#[test]
fn distance_is_symmetric_and_zero_on_itself() {
    let coords = [(0, 0), (3, -1), (-2, 5), (4, 4), (-3, -3)];
    for &(q1, r1) in coords.iter() {
        let a = hex(q1, r1, 0, vec![]);
        assert_eq!(get_distance(&a, &a), 0);
        for &(q2, r2) in coords.iter() {
            let b = hex(q2, r2, 0, vec![]);
            assert_eq!(get_distance(&a, &b), get_distance(&b, &a));
        }
    }
    assert_eq!(get_distance(&hex(0, 0, 0, vec![]), &hex(3, -1, 0, vec![])), 3);
    assert_eq!(get_distance(&hex(0, 0, 0, vec![]), &hex(2, 2, 0, vec![])), 4);
    assert_eq!(get_distance(&hex(0, 0, 0, vec![]), &hex(1, 0, 0, vec![])), 1);
}

#[test]
fn broken_units_may_only_rally() {
    let mut u = squad(1, Side::First, 0);
    u.set_condition(Condition::Broken);
    let mut state = TurnState::new(2);
    let kinds = [
        OrderKind::Move,
        OrderKind::PrepFire,
        OrderKind::DefensiveFire,
        OrderKind::AdvancedFire,
        OrderKind::Advance,
    ];
    for _ in 0..8 {
        for k in kinds.iter() {
            assert_eq!(validate(*k, None, &u, &state), Err(Rejection::EntityBroken));
        }
        state.phase = match state.phase {
            Phase::Rally => Phase::PrepFire,
            Phase::PrepFire => Phase::Movement,
            Phase::Movement => Phase::DefensiveFire,
            Phase::DefensiveFire => Phase::AdvancingFire,
            Phase::AdvancingFire => Phase::Rout,
            Phase::Rout => Phase::Advance,
            _ => Phase::CloseCombat,
        };
    }
    let rally = TurnState::new(2);
    assert_eq!(validate(OrderKind::Rally, None, &u, &rally), Ok(()));
}

#[test]
fn prep_fire_then_move_is_refused() {
    let units = vec![squad(1, Side::First, 0), squad(2, Side::Second, 3)];
    let mut b = BattleManager::new(open_row(5), units, 2).unwrap();
    advance_to(&mut b, Phase::PrepFire);
    let shot = b.order_fire(OrderKind::PrepFire, 0, None, 1, &vec![]).unwrap();
    assert_eq!(shot.firepower, 7);
    assert!(b.units[0].has_prepfired());
    advance_to(&mut b, Phase::Movement);
    assert_eq!(b.unit_can_move(0), Err(Rejection::AlreadyPrepFired));
    assert_eq!(
        b.order_move(0, &vec![1], None),
        Err(OrderError::Rejected(Rejection::AlreadyPrepFired))
    );
    assert_eq!(b.units[0].hex, 0);
}

#[test]
fn moving_halves_advancing_fire() {
    let units = vec![squad(1, Side::First, 0), squad(2, Side::Second, 4)];
    let mut b = BattleManager::new(open_row(6), units, 2).unwrap();
    advance_to(&mut b, Phase::Movement);
    assert_eq!(b.order_move(0, &vec![1], None), Ok(1));
    advance_to(&mut b, Phase::AdvancingFire);
    let shot = b.order_fire(OrderKind::AdvancedFire, 0, None, 1, &vec![]).unwrap();
    assert_eq!(shot.firepower, 3);

    let still = squad(3, Side::First, 0);
    assert_eq!(order_aimed_fire(&still, 7, Phase::AdvancingFire), Ok(7));
    let mut walked = squad(4, Side::First, 0);
    walked.record.moved = true;
    assert_eq!(order_aimed_fire(&walked, 7, Phase::AdvancingFire), Ok(3));
    assert_eq!(order_aimed_fire(&walked, 8, Phase::AdvancingFire), Ok(4));
    assert_eq!(order_moved_fire(9), 4);
}

#[test]
fn uphill_costs_double_downhill_does_not() {
    let hexes = vec![
        hex(0, 0, 0, vec![Terrain::OpenGround]),
        hex(1, 0, 1, vec![Terrain::OpenGround]),
    ];
    let g = Grid::from_hexes(hexes).unwrap();
    assert_eq!(plan_path(&g, 0, &vec![1], 10), Ok(2));
    assert_eq!(plan_path(&g, 1, &vec![0], 10), Ok(1));
}

#[test]
fn longer_path_never_costs_less() {
    let g = Grid::from_hexes(open_row(5)).unwrap();
    let mut last = 0;
    for n in 1..5usize {
        let path: Vec<usize> = (1..=n).collect();
        let cost = plan_path(&g, 0, &path, 100).unwrap();
        assert!(cost >= last);
        last = cost;
    }
}

#[test]
fn penetration_follows_the_line_of_fire() {
    let g = Grid::from_hexes(open_row(6)).unwrap();
    assert_eq!(can_penetrate(&g, 0, 1, &vec![], 1), Ok(vec![1]));
    assert_eq!(can_penetrate(&g, 0, 1, &vec![1], 1), Err(FireError::PenetrationDenied));
    assert_eq!(can_penetrate(&g, 0, 1, &vec![1, 3], 3), Ok(vec![1, 2, 4]));
    assert_eq!(can_penetrate(&g, 0, 1, &vec![1, 2, 3], 3), Err(FireError::PenetrationDenied));
    assert_eq!(can_penetrate(&g, 0, 1, &vec![3, 1], 3), Err(FireError::PenetrationDenied));
    assert_eq!(can_penetrate(&g, 0, 1, &vec![5], 3), Err(FireError::PenetrationDenied));
}

#[test]
fn penetration_stops_at_woods() {
    let mut hexes = open_row(6);
    hexes[3] = hex(3, 0, 0, vec![Terrain::Woods]);
    let g = Grid::from_hexes(hexes).unwrap();
    assert_eq!(can_penetrate(&g, 0, 1, &vec![2], 3), Ok(vec![1, 3]));
    assert_eq!(can_penetrate(&g, 0, 1, &vec![3], 3), Err(FireError::PenetrationDenied));
}

#[test]
fn elevation_change_limits_penetration() {
    let low = hex(0, 0, 0, vec![]);
    let high = hex(1, 0, 2, vec![]);
    assert_eq!(sw_calc_penetration(&low, &high, 3), 1);
    assert_eq!(sw_calc_penetration(&low, &low, 3), 3);
}

#[test]
fn three_hex_scenario() {
    let hexes = vec![
        hex(0, 0, 0, vec![]),
        hex(1, 0, 0, vec![Terrain::Woods]),
        hex(2, 0, 1, vec![Terrain::OpenGround]),
    ];
    let g = Grid::from_hexes(hexes.clone()).unwrap();
    assert_eq!(plan_path(&g, 0, &vec![1, 2], 4), Ok(4));
    assert_eq!(
        plan_path(&g, 0, &vec![1, 2], 3),
        Err(MovementError::InsufficientMovementFactors)
    );

    let mut b = BattleManager::new(hexes, vec![squad(1, Side::First, 0)], 1).unwrap();
    advance_to(&mut b, Phase::Movement);
    assert_eq!(b.order_move(0, &vec![1, 2], None), Ok(4));
    assert_eq!(b.units[0].hex, 2);
    assert!(b.units[0].has_moved());
}

#[test]
fn opposing_units_on_one_hex_engage() {
    let units = vec![
        squad(1, Side::First, 2),
        squad(2, Side::Second, 2),
        squad(3, Side::First, 0),
        squad(4, Side::Second, 4),
    ];
    let found = close_combat(&units, 5);
    assert_eq!(found.len(), 1);
    assert_eq!(found[0].hex, 2);
    assert_eq!(found[0].units, vec![0, 1]);

    let apart = vec![squad(1, Side::First, 1), squad(2, Side::Second, 2)];
    assert!(close_combat(&apart, 5).is_empty());
}

#[test]
fn advance_into_enemy_hex_brings_close_combat() {
    let units = vec![squad(1, Side::First, 0), squad(2, Side::Second, 1)];
    let mut b = BattleManager::new(open_row(3), units, 1).unwrap();
    advance_to(&mut b, Phase::Movement);
    assert_eq!(
        b.order_move(0, &vec![1], None),
        Err(OrderError::Movement(MovementError::EnemyOccupiedDestination))
    );
    advance_to(&mut b, Phase::Advance);
    assert_eq!(advance_unit(&mut b, 0, 1), Ok(()));
    let found = b.collect_engagements();
    assert_eq!(found.len(), 1);
    assert_eq!(found[0].hex, 1);
    assert_eq!(found[0].units, vec![0, 1]);
}

#[test]
fn roles_swap_after_both_player_turns() {
    let mut s = TurnState::new(3);
    assert_eq!(s.active_side(), Side::First);
    for _ in 0..7 {
        game_loop(&mut s).unwrap();
        assert_eq!(s.turn, 1);
    }
    assert_eq!(s.current_phase(), Phase::CloseCombat);
    assert_eq!(game_loop(&mut s), Ok(Phase::Rally));
    assert_eq!(s.active_side(), Side::Second);
    assert_eq!(s.turn, 1);
    for _ in 0..7 {
        game_loop(&mut s).unwrap();
        assert_eq!(s.turn, 1);
    }
    assert_eq!(game_loop(&mut s), Ok(Phase::Rally));
    assert_eq!(s.turn, 2);
    assert_eq!(s.attacker, Side::Second);
    assert_eq!(s.active_side(), Side::Second);
}

#[test]
fn scenario_ends_after_last_turn() {
    let mut s = TurnState::new(1);
    for _ in 0..15 {
        assert!(game_loop(&mut s).is_ok());
    }
    assert!(!s.is_complete());
    assert_eq!(game_loop(&mut s), Ok(Phase::CloseCombat));
    assert!(s.is_complete());
    assert_eq!(game_loop(&mut s), Err(PhaseError::AlreadyComplete));
    assert_eq!(s.turn, 1);
}

#[test]
fn records_clear_at_a_new_turn_only() {
    let units = vec![squad(1, Side::First, 0), squad(2, Side::Second, 4)];
    let mut b = BattleManager::new(open_row(5), units, 2).unwrap();
    advance_to(&mut b, Phase::Movement);
    b.order_move(0, &vec![1], None).unwrap();
    for _ in 0..13 {
        b.advance_phase().unwrap();
        assert!(b.units[0].has_moved());
    }
    assert_eq!(b.turn.phase, Phase::CloseCombat);
    assert!(b.turn.second_pass);
    b.advance_phase().unwrap();
    assert_eq!(b.turn.turn, 2);
    assert!(!b.units[0].has_moved());
}

#[test]
fn sight_passes_one_woods_hex_but_not_two() {
    let mut hexes = open_row(4);
    hexes[1] = hex(1, 0, 0, vec![Terrain::Woods]);
    let g = Grid::from_hexes(hexes.clone()).unwrap();
    assert_eq!(get_los(&g, 0, 3), Ok(true));
    assert_eq!(get_los(&g, 0, 0), Ok(true));

    hexes[2] = hex(2, 0, 0, vec![Terrain::EnterBuilding]);
    let g = Grid::from_hexes(hexes.clone()).unwrap();
    assert_eq!(get_los(&g, 0, 3), Ok(false));
    assert_eq!(get_los(&g, 0, 2), Ok(false));
    assert_eq!(get_los(&g, 0, 1), Ok(true));

    let mut into_woods = open_row(4);
    into_woods[2] = hex(2, 0, 0, vec![Terrain::Woods]);
    into_woods[3] = hex(3, 0, 0, vec![Terrain::Woods]);
    let g = Grid::from_hexes(into_woods).unwrap();
    assert_eq!(get_los(&g, 0, 2), Ok(true));
    assert_eq!(get_los(&g, 0, 3), Ok(false));
}

#[test]
fn sight_off_the_map_fails() {
    let hexes = vec![hex(0, 0, 0, vec![]), hex(2, 0, 0, vec![])];
    let g = Grid::from_hexes(hexes).unwrap();
    assert!(get_los(&g, 0, 1).is_err());
    assert!(get_los(&g, 0, 7).is_err());
}

#[test]
fn map_and_scenario_loading() {
    let twice = vec![hex(0, 0, 0, vec![]), hex(0, 0, 1, vec![])];
    assert!(Grid::from_hexes(twice.clone()).is_none());
    assert_eq!(
        BattleManager::new(twice, vec![], 1).err(),
        Some(LoadError::InvalidMap)
    );
    assert_eq!(
        BattleManager::new(open_row(2), vec![squad(1, Side::First, 5)], 1).err(),
        Some(LoadError::UnitOffMap)
    );
    assert_eq!(BattleManager::new(open_row(2), vec![], 0).err(), Some(LoadError::NoTurns));
    let h = hex(0, 0, 0, vec![Terrain::Woods, Terrain::Woods, Terrain::OverWall]);
    assert_eq!(h.terrain.len(), 2);
}

#[test]
fn terrain_costs_add_up() {
    let h = hex(0, 0, 0, vec![Terrain::Woods, Terrain::OverWall]);
    assert_eq!(squadleader::get_terrain_effect_on_move(&h), 3);
    assert_eq!(squadleader::terrain_effect_combat(&h), 2);
    assert_eq!(Terrain::EnterBuilding.movement_cost(), 2);
    let flat = hex(1, 0, 0, vec![Terrain::OpenGround]);
    assert_eq!(squadleader::terrain_effect_movement(&flat, &h, false), 4);
}

#[test]
fn every_second_road_hex_is_free() {
    let mut hexes = Vec::new();
    for q in 0..5 {
        hexes.push(hex(q, 0, 0, vec![Terrain::OnRoad]));
    }
    let g = Grid::from_hexes(hexes).unwrap();
    assert_eq!(plan_path(&g, 0, &vec![1, 2, 3, 4], 10), Ok(2));
    assert_eq!(plan_path(&g, 0, &vec![1], 10), Ok(1));
}

#[test]
fn movement_errors() {
    let g = Grid::from_hexes(open_row(4)).unwrap();
    assert_eq!(plan_path(&g, 0, &vec![2], 10), Err(MovementError::NotAdjacent));
    assert_eq!(plan_path(&g, 0, &vec![1, 9], 10), Err(MovementError::OutOfBounds));
    assert_eq!(plan_path(&g, 9, &vec![], 10), Err(MovementError::OutOfBounds));
    assert_eq!(plan_path(&g, 0, &vec![], 0), Ok(0));
}

#[test]
fn order_rejections() {
    let units = vec![
        squad(1, Side::First, 0),
        squad(2, Side::Second, 3),
        weapon(3, Side::First, 0, WeaponType::LMG, 1),
        weapon(4, Side::First, 0, WeaponType::MMG, 1),
        weapon(5, Side::First, 0, WeaponType::Mortar, 1),
    ];
    let mut b = BattleManager::new(open_row(5), units, 2).unwrap();
    assert_eq!(
        b.order_move(0, &vec![1], None),
        Err(OrderError::Rejected(Rejection::WrongPhase))
    );
    advance_to(&mut b, Phase::PrepFire);
    assert!(b.order_fire(OrderKind::PrepFire, 0, Some(2), 1, &vec![]).is_ok());
    assert_eq!(
        b.order_fire(OrderKind::PrepFire, 0, Some(3), 1, &vec![]).err(),
        Some(OrderError::Rejected(Rejection::SameWeaponTypeAlreadyFired))
    );
    assert!(b.order_fire(OrderKind::PrepFire, 0, Some(4), 1, &vec![]).is_ok());
    assert_eq!(
        b.order_fire(OrderKind::PrepFire, 0, Some(3), 1, &vec![]).err(),
        Some(OrderError::Rejected(Rejection::SameWeaponTypeAlreadyFired))
    );
    assert_eq!(
        b.order_fire(OrderKind::PrepFire, 0, Some(1), 1, &vec![]).err(),
        Some(OrderError::InvalidWeapon)
    );
    assert_eq!(
        b.order_fire(OrderKind::PrepFire, 1, None, 0, &vec![]).err(),
        Some(OrderError::Rejected(Rejection::NotActiveSide))
    );
    advance_to(&mut b, Phase::Movement);
    assert_eq!(
        b.order_move(1, &vec![2], None),
        Err(OrderError::Rejected(Rejection::NotActiveSide))
    );
    assert_eq!(b.order_move(9, &vec![], None), Err(OrderError::UnknownUnit));
}

#[test]
fn moving_twice_and_overloading() {
    let mut loaded = squad(2, Side::First, 0);
    loaded.portage = 6;
    let units = vec![squad(1, Side::First, 0), loaded];
    let mut b = BattleManager::new(open_row(4), units, 1).unwrap();
    advance_to(&mut b, Phase::Movement);
    assert_eq!(b.order_move(0, &vec![1], None), Ok(1));
    assert_eq!(
        b.order_move(0, &vec![2], None),
        Err(OrderError::Rejected(Rejection::AlreadyMoved))
    );
    assert_eq!(
        b.order_move(1, &vec![1], None),
        Err(OrderError::Rejected(Rejection::OverPortage))
    );
}

#[test]
fn heavy_move_forfeits_support_weapon_fire() {
    let mut carrier = squad(1, Side::First, 0);
    carrier.portage = 4;
    let units = vec![carrier, squad(2, Side::Second, 4), weapon(3, Side::First, 0, WeaponType::LMG, 1)];
    let mut b = BattleManager::new(open_row(5), units, 1).unwrap();
    advance_to(&mut b, Phase::Movement);
    assert_eq!(b.order_move(0, &vec![1], None), Ok(1));
    advance_to(&mut b, Phase::AdvancingFire);
    assert!(squadleader::may_fire_support_weapon(&b.units[0]) == false);
}

#[test]
fn leader_escort_adds_two_movement_factors() {
    let units = vec![squad(1, Side::First, 0), leader(2, Side::First, 0, -1)];
    let mut b = BattleManager::new(open_row(8), units.clone(), 1).unwrap();
    advance_to(&mut b, Phase::Movement);
    let path: Vec<usize> = (1..=6).collect();
    assert_eq!(
        b.order_move(0, &path, None),
        Err(OrderError::Movement(MovementError::InsufficientMovementFactors))
    );
    assert_eq!(b.order_move(0, &path, Some(1)), Ok(6));
    assert_eq!(b.units[0].hex, 6);
    assert_eq!(b.units[1].hex, 6);
    assert_eq!(b.leadership_modifier(0), -1);
    assert_eq!(b.led_by(0), Some(1));
}

#[test]
fn fire_errors() {
    let mut hexes = open_row(10);
    hexes[1] = hex(1, 0, 0, vec![Terrain::Woods]);
    hexes[2] = hex(2, 0, 0, vec![Terrain::Woods]);
    let units = vec![
        squad(1, Side::First, 0),
        squad(2, Side::Second, 3),
        squad(3, Side::Second, 9),
        weapon(4, Side::First, 0, WeaponType::Mortar, 1),
    ];
    let mut b = BattleManager::new(hexes, units, 1).unwrap();
    advance_to(&mut b, Phase::PrepFire);
    assert_eq!(
        b.order_fire(OrderKind::PrepFire, 0, None, 2, &vec![]).err(),
        Some(OrderError::Fire(FireError::OutOfRange))
    );
    assert_eq!(
        b.order_fire(OrderKind::PrepFire, 0, None, 1, &vec![]).err(),
        Some(OrderError::Fire(FireError::NoLineOfSight))
    );
    let shot = b.order_fire(OrderKind::PrepFire, 0, Some(3), 1, &vec![]).unwrap();
    assert_eq!(shot.firepower, 4);
    assert_eq!(shot.affected, vec![3]);

    let mut broken = squad(5, Side::First, 0);
    broken.set_condition(Condition::Broken);
    assert_eq!(order_aimed_fire(&broken, 7, Phase::PrepFire), Err(FireError::FirerBroken));
    let mut fired = squad(6, Side::First, 0);
    fired.record.prep_fired = true;
    assert_eq!(
        order_aimed_fire(&fired, 7, Phase::AdvancingFire),
        Err(FireError::AlreadyPrepFired)
    );
}

#[test]
fn rout_and_rally() {
    let mut hexes = open_row(4);
    hexes[1] = hex(1, 0, 0, vec![Terrain::Woods]);
    let mut in_woods = squad(1, Side::First, 1);
    in_woods.set_condition(Condition::Broken);
    let mut in_open = squad(2, Side::First, 3);
    in_open.set_condition(Condition::Broken);
    let units = vec![in_woods, in_open, squad(3, Side::Second, 3)];
    let mut b = BattleManager::new(hexes, units, 1).unwrap();
    assert!(!broken_in_cover(&b, 0));
    assert!(broken_in_cover(&b, 1));
    assert!(!broken_in_cover(&b, 2));
    b.units[2].hex = 2;
    assert!(broken_in_cover(&b, 0));

    assert_eq!(b.rally(0, true), Ok(()));
    assert_eq!(b.units[0].condition, Condition::Composed);
    assert_eq!(b.rally(1, false), Ok(()));
    assert!(b.units[1].broken());
    b.advance_phase().unwrap();
    assert_eq!(b.rally(1, true), Err(OrderError::Rejected(Rejection::WrongPhase)));
}

#[test]
fn answers_to_orders() {
    assert_eq!(response_to_order(OrderResponse::CopyThat), "Copy that, Sir! Executing order.");
    assert_eq!(
        response_to_order(OrderResponse::Refused(Rejection::EntityBroken)),
        "The unit is broken and unable to execute the order."
    );
    assert_eq!(
        <Unit as squadleader::Orderable>::copythat(),
        "Copy that, Sir! Executing order."
    );
}

#[test]
fn targets_take_damage_beyond_armor() {
    let mut t = squadleader::Target { location: 0, elevation: 0, armor: 2, health: 5 };
    t.hit(2);
    assert_eq!(t.health, 5);
    t.hit(4);
    assert_eq!(t.health, 3);
    assert!(!t.is_destroyed());
    t.hit(9);
    assert_eq!(t.health, 0);
    assert!(t.is_destroyed());
    t.hit(9);
    assert_eq!(t.health, 0);
}

#[test]
fn orders_through_the_session() {
    let units = vec![squad(1, Side::First, 0), squad(2, Side::Second, 3)];
    let mut b = BattleManager::new(open_row(5), units, 1).unwrap();
    assert!(matches!(
        b.submit_order(squadleader::Order::Rally { unit: 0, recovered: true }),
        Ok(squadleader::Accepted::Rallied)
    ));
    advance_to(&mut b, Phase::PrepFire);
    let fire = squadleader::FireOrder { firer: 0, weapon: None, target: 1, extra: vec![] };
    match b.submit_order(squadleader::Order::PrepFire(fire)) {
        Ok(squadleader::Accepted::Fired(o)) => {
            assert_eq!(o.firepower, 7);
            assert_eq!(o.affected, vec![3]);
            assert_eq!(o.terrain_effect, 0);
        }
        _ => panic!("prep fire refused"),
    }
    advance_to(&mut b, Phase::Movement);
    let moved = b.submit_order(squadleader::Order::Move { unit: 0, path: vec![1], escort: None });
    assert_eq!(moved.err(), Some(OrderError::Rejected(Rejection::AlreadyPrepFired)));
    assert_eq!(b.query_entity(0).unwrap().hex, 0);
    assert!(b.query_entity(7).is_none());
    let h = b.query_hex(2).unwrap();
    assert_eq!(h.coord, HexCoord { q: 2, r: 0 });
    assert!(b.query_hex(5).is_none());
    assert!(!b.is_scenario_complete());
}

#[test]
fn defensive_fire_sees_enemies_in_range() {
    let mut hexes = open_row(8);
    hexes[4] = hex(4, 0, 0, vec![Terrain::Woods]);
    hexes[5] = hex(5, 0, 0, vec![Terrain::Woods]);
    let units = vec![
        squad(1, Side::Second, 0),
        squad(2, Side::First, 2),
        squad(3, Side::First, 6),
        squad(4, Side::Second, 1),
        squad(5, Side::First, 7),
    ];
    let b = BattleManager::new(hexes, units, 1).unwrap();
    assert_eq!(squadleader::order_defensive_fire(&b, 0), vec![1]);
}

#[test]
fn prep_fired_answer_text() {
    assert_eq!(
        response_to_order(OrderResponse::Refused(Rejection::AlreadyPrepFired)),
        "The unit fired during the prep fire phase and is therefore not eligable for this order."
    );
}

#[test]
fn enemy_on_own_hex_is_not_adjacent() {
    let mut hexes = open_row(3);
    hexes[1] = hex(1, 0, 0, vec![Terrain::Woods]);
    let mut hiding = squad(1, Side::First, 1);
    hiding.set_condition(Condition::Broken);
    let units = vec![hiding, squad(2, Side::Second, 1)];
    let b = BattleManager::new(hexes, units, 1).unwrap();
    assert!(!broken_in_cover(&b, 0));
}

#[test]
fn heavy_move_forfeits_advancing_fire() {
    let mut carrier = squad(1, Side::First, 0);
    carrier.portage = 4;
    let units = vec![carrier, squad(2, Side::Second, 4)];
    let mut b = BattleManager::new(open_row(5), units, 1).unwrap();
    advance_to(&mut b, Phase::Movement);
    assert_eq!(b.order_move(0, &vec![1], None), Ok(1));
    advance_to(&mut b, Phase::AdvancingFire);
    assert_eq!(
        b.order_fire(OrderKind::AdvancedFire, 0, None, 1, &vec![]).err(),
        Some(OrderError::Rejected(Rejection::OverPortage))
    );
}

#[test]
fn submitted_orders_do_their_work() {
    let units = vec![squad(1, Side::First, 0), squad(2, Side::Second, 4)];
    let mut b = BattleManager::new(open_row(5), units, 1).unwrap();
    advance_to(&mut b, Phase::Movement);
    let moved = b.submit_order(squadleader::Order::Move { unit: 0, path: vec![1, 2], escort: None });
    assert!(matches!(moved, Ok(squadleader::Accepted::Moved(2))));
    assert_eq!(b.units[0].hex, 2);
    assert!(b.units[0].has_moved());
    advance_to(&mut b, Phase::Advance);
    let advanced = b.submit_order(squadleader::Order::Advance { unit: 0, dest: 3 });
    assert!(matches!(advanced, Ok(squadleader::Accepted::Advanced)));
    assert_eq!(b.units[0].hex, 3);
    let far = b.submit_order(squadleader::Order::Advance { unit: 0, dest: 0 });
    assert_eq!(far.err(), Some(OrderError::Movement(MovementError::NotAdjacent)));
    assert_eq!(b.units[0].hex, 3);
}
