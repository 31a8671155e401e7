use road_tools::paving::{
    target_cell, PavingAction, PavingEvent, PavingMachine, PavingPhase, RpmError, State, Tool,
};
use road_tools::world::{Content, Direction, LibErrorKind, TileType};

fn grid(t: TileType) -> Vec<Vec<Option<TileType>>> {
    vec![vec![Some(t); 3]; 3]
}

/// Runs the machine on the given reports, returning every action asked for.
fn drive(
    direction: Direction,
    state: State,
    has_rock: bool,
    within: bool,
    row: usize,
    col: usize,
    map: Option<Vec<Vec<Option<TileType>>>>,
    outcome: Result<usize, LibErrorKind>,
) -> Vec<PavingAction> {
    let (mut m, first) = Tool::road_paving_machine(direction, state);
    let mut actions = vec![first];
    let mut events = vec![
        PavingEvent::Located,
        PavingEvent::Backpack { has_rock },
        PavingEvent::Bounds { within },
        PavingEvent::Surroundings { row, col, map },
        PavingEvent::Outcome(outcome),
    ]
    .into_iter();
    loop {
        let ev = events.next().unwrap();
        assert!(m.accepts_event(&ev));
        let a = m.step(ev);
        actions.push(a);
        if let PavingAction::Return(_) = a {
            return actions;
        }
    }
}

#[test]
fn error_handing_maps_every_kind() {
    assert_eq!(Tool::error_handing(Ok(0)), Ok(()));
    assert_eq!(Tool::error_handing(Ok(7)), Ok(()));
    assert_eq!(Tool::error_handing(Err(LibErrorKind::NotEnoughEnergy)), Err(RpmError::NotEnoughEnergy));
    assert_eq!(Tool::error_handing(Err(LibErrorKind::OutOfBounds)), Err(RpmError::OutOfBounds));
    assert_eq!(
        Tool::error_handing(Err(LibErrorKind::NotEnoughContentInBackPack)),
        Err(RpmError::NotEnoughMaterial)
    );
    assert_eq!(
        Tool::error_handing(Err(LibErrorKind::ContentNotAllowedOnTile)),
        Err(RpmError::CannotPlaceHere)
    );
    assert_eq!(
        Tool::error_handing(Err(LibErrorKind::MustDestroyContentFirst)),
        Err(RpmError::MustDestroyContentFirst)
    );
    assert_eq!(Tool::error_handing(Err(LibErrorKind::NoContent)), Err(RpmError::NoRockHere));
    assert_eq!(
        Tool::error_handing(Err(LibErrorKind::NotEnoughContentProvided)),
        Err(RpmError::NotEnoughMaterial)
    );
    assert_eq!(Tool::error_handing(Err(LibErrorKind::Other)), Err(RpmError::UndefinedError));
}

#[test]
fn machine_starts_by_locating_the_robot() {
    let (m, a) = Tool::road_paving_machine(Direction::Right, State::MAKE_ROAD);
    assert_eq!(a, PavingAction::LocateRobot);
    assert_eq!(
        m,
        PavingMachine {
            direction: Direction::Right,
            state: State::MAKE_ROAD,
            phase: PavingPhase::AwaitLocation
        }
    );
}

#[test]
fn gathering_stones_destroys_then_reports() {
    let acts = drive(Direction::Down, State::GET_STONES, true, true, 1, 1, Some(grid(TileType::Street)), Ok(1));
    assert_eq!(
        acts,
        vec![
            PavingAction::LocateRobot,
            PavingAction::ReadBackpack,
            PavingAction::CheckBounds(Direction::Down),
            PavingAction::ReadSurroundings,
            PavingAction::Destroy(Direction::Down),
            PavingAction::Return(Ok(())),
        ]
    );
}

#[test]
fn gathering_stones_passes_on_the_destroy_error() {
    let acts = drive(
        Direction::Up,
        State::GET_STONES,
        true,
        true,
        1,
        1,
        Some(grid(TileType::Grass)),
        Err(LibErrorKind::NotEnoughEnergy),
    );
    assert_eq!(*acts.last().unwrap(), PavingAction::Return(Err(RpmError::NotEnoughEnergy)));
}

#[test]
fn making_road_lays_the_material_of_each_ground() {
    let cases = [
        (TileType::DeepWater, Content::Rock(0), 3),
        (TileType::ShallowWater, Content::Rock(0), 2),
        (TileType::Sand, Content::Rock(0), 1),
        (TileType::Grass, Content::Rock(0), 1),
        (TileType::Hill, Content::Rock(0), 1),
        (TileType::Mountain, Content::Nothing, 0),
        (TileType::Snow, Content::Rock(0), 1),
        (TileType::Lava, Content::Rock(0), 3),
    ];
    for (t, content, quantity) in cases {
        let acts = drive(Direction::Left, State::MAKE_ROAD, true, true, 1, 1, Some(grid(t)), Ok(quantity));
        assert_eq!(acts[4], PavingAction::Put { content, quantity, direction: Direction::Left });
        assert_eq!(acts[5], PavingAction::Return(Ok(())));
        assert_eq!(acts.len(), 6);
    }
}

#[test]
fn making_road_refuses_street_teleport_and_wall() {
    for t in [TileType::Street, TileType::Teleport(false), TileType::Teleport(true), TileType::Wall] {
        let acts = drive(Direction::Right, State::MAKE_ROAD, true, true, 1, 1, Some(grid(t)), Ok(0));
        assert_eq!(acts.len(), 5);
        assert_eq!(acts[4], PavingAction::Return(Err(RpmError::CannotPlaceHere)));
    }
}

#[test]
fn making_road_passes_on_the_put_error() {
    let acts = drive(
        Direction::Right,
        State::MAKE_ROAD,
        true,
        true,
        1,
        1,
        Some(grid(TileType::Sand)),
        Err(LibErrorKind::MustDestroyContentFirst),
    );
    assert_eq!(acts[5], PavingAction::Return(Err(RpmError::MustDestroyContentFirst)));
}

#[test]
fn no_rock_in_backpack_stops_the_machine() {
    let acts = drive(Direction::Right, State::MAKE_ROAD, false, true, 1, 1, None, Ok(0));
    assert_eq!(
        acts,
        vec![
            PavingAction::LocateRobot,
            PavingAction::ReadBackpack,
            PavingAction::Return(Err(RpmError::NotEnoughMaterial)),
        ]
    );
}

#[test]
fn failed_bounds_check_is_out_of_bounds() {
    let acts = drive(Direction::Right, State::GET_STONES, true, false, 1, 1, None, Ok(0));
    assert_eq!(acts.len(), 4);
    assert_eq!(acts[3], PavingAction::Return(Err(RpmError::OutOfBounds)));
}

#[test]
fn missing_map_is_out_of_bounds() {
    let acts = drive(Direction::Right, State::MAKE_ROAD, true, true, 1, 1, None, Ok(0));
    assert_eq!(acts.len(), 5);
    assert_eq!(acts[4], PavingAction::Return(Err(RpmError::OutOfBounds)));
}

#[test]
fn the_target_is_the_tile_beside_the_robot() {
    // Only the tile right of (0, 0) is lava; the rest is street.
    let mut map = grid(TileType::Street);
    map[0][1] = Some(TileType::Lava);
    let acts = drive(Direction::Right, State::MAKE_ROAD, true, true, 0, 0, Some(map), Ok(3));
    assert_eq!(acts[4], PavingAction::Put { content: Content::Rock(0), quantity: 3, direction: Direction::Right });
}

#[test]
fn target_cell_moves_one_tile() {
    assert_eq!(target_cell(2, 3, Direction::Up), (1, 3));
    assert_eq!(target_cell(2, 3, Direction::Down), (3, 3));
    assert_eq!(target_cell(2, 3, Direction::Left), (2, 2));
    assert_eq!(target_cell(2, 3, Direction::Right), (2, 4));
}

#[test]
fn surroundings_the_tool_cannot_read_are_refused() {
    let mut m = PavingMachine {
        direction: Direction::Up,
        state: State::MAKE_ROAD,
        phase: PavingPhase::AwaitSurroundings,
    };
    // Row 0 has no tile above it.
    assert!(!m.accepts_event(&PavingEvent::Surroundings { row: 0, col: 0, map: None }));
    // The tile above is not known.
    let mut map = grid(TileType::Grass);
    map[0][1] = None;
    assert!(!m.accepts_event(&PavingEvent::Surroundings { row: 1, col: 1, map: Some(map) }));
    // The map is too small.
    assert!(!m.accepts_event(&PavingEvent::Surroundings { row: 5, col: 5, map: Some(grid(TileType::Grass)) }));
    // An event of another phase.
    assert!(!m.accepts_event(&PavingEvent::Located));
    assert!(m.accepts_event(&PavingEvent::Surroundings { row: 1, col: 1, map: Some(grid(TileType::Grass)) }));
    let a = m.step(PavingEvent::Surroundings { row: 1, col: 1, map: Some(grid(TileType::Grass)) });
    assert_eq!(a, PavingAction::Put { content: Content::Rock(0), quantity: 1, direction: Direction::Up });
    assert_eq!(m.phase, PavingPhase::AwaitOutcome);
}
