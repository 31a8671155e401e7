use road_tools::radar::{
    cell_coordinates, scan_view, RadarAction, RadarEvent, RadarOutcome, RadarPhase, RadarScan, Tool,
};
use road_tools::world::{Direction, TileType};

/// A view `rows` tiles far, three tiles wide, all of ground `t`.
fn view(rows: usize, t: TileType) -> Vec<Vec<TileType>> {
    vec![vec![t; 3]; rows]
}

fn step(scan: &mut RadarScan, ev: RadarEvent) -> RadarAction {
    assert!(scan.accepts_event(&ev));
    scan.step(ev)
}

#[test]
fn radar_starts_by_locating_the_robot() {
    let (scan, a) = Tool::radar(Direction::Up, 10, TileType::Lava);
    assert_eq!(a, RadarAction::LocateRobot);
    assert_eq!(scan.phase, RadarPhase::AwaitLocation);
    assert_eq!(scan.target, TileType::Lava);
    assert_eq!(scan.distance, 10);
}

#[test]
fn no_length_finds_nothing_without_looking() {
    let (mut scan, _) = Tool::radar(Direction::Up, 0, TileType::Lava);
    let a = step(&mut scan, RadarEvent::Located { row: 4, col: 4 });
    assert_eq!(a, RadarAction::Return(RadarOutcome::NotFound));
    assert_eq!(scan.phase, RadarPhase::Finished);
}

#[test]
fn reach_one_is_searched() {
    let (mut scan, _) = Tool::radar(Direction::Right, 1, TileType::Sand);
    assert_eq!(
        step(&mut scan, RadarEvent::Located { row: 3, col: 7 }),
        RadarAction::View { direction: Direction::Right, distance: 1 }
    );
    let a = step(&mut scan, RadarEvent::Viewed(Some(vec![vec![TileType::Grass, TileType::Grass, TileType::Sand]])));
    assert_eq!(a, RadarAction::Return(RadarOutcome::Found { view_row: 0, view_col: 2, row: 4, col: 8 }));
}

#[test]
fn views_grow_by_three_until_the_whole_reach() {
    let (mut scan, _) = Tool::radar(Direction::Up, 10, TileType::Lava);
    assert_eq!(
        step(&mut scan, RadarEvent::Located { row: 20, col: 4 }),
        RadarAction::View { direction: Direction::Up, distance: 2 }
    );
    assert_eq!(
        step(&mut scan, RadarEvent::Viewed(Some(view(2, TileType::Grass)))),
        RadarAction::View { direction: Direction::Up, distance: 5 }
    );
    assert_eq!(
        step(&mut scan, RadarEvent::Viewed(Some(view(5, TileType::Grass)))),
        RadarAction::View { direction: Direction::Up, distance: 8 }
    );
    assert_eq!(
        step(&mut scan, RadarEvent::Viewed(Some(view(8, TileType::Grass)))),
        RadarAction::View { direction: Direction::Up, distance: 10 }
    );
    assert_eq!(
        step(&mut scan, RadarEvent::Viewed(Some(view(10, TileType::Grass)))),
        RadarAction::Return(RadarOutcome::NotFound)
    );
}

#[test]
fn a_view_full_of_the_target_gives_the_nearest_tile() {
    let (mut scan, _) = Tool::radar(Direction::Up, 10, TileType::Lava);
    step(&mut scan, RadarEvent::Located { row: 4, col: 4 });
    let a = step(&mut scan, RadarEvent::Viewed(Some(view(2, TileType::Lava))));
    assert_eq!(a, RadarAction::Return(RadarOutcome::Found { view_row: 0, view_col: 0, row: 3, col: 3 }));
}

#[test]
fn the_closest_row_wins() {
    // Scanning right from (3, 7): the target lies 2 steps ahead in the
    // middle line and 3 steps ahead on the first line.
    let (mut scan, _) = Tool::radar(Direction::Right, 10, TileType::Sand);
    step(&mut scan, RadarEvent::Located { row: 3, col: 7 });
    let a = step(&mut scan, RadarEvent::Viewed(Some(view(2, TileType::Grass))));
    assert_eq!(a, RadarAction::View { direction: Direction::Right, distance: 5 });
    let mut tiles = view(5, TileType::Grass);
    tiles[2][0] = TileType::Sand;
    tiles[1][1] = TileType::Sand;
    tiles[4][2] = TileType::Sand;
    let a = step(&mut scan, RadarEvent::Viewed(Some(tiles)));
    assert_eq!(a, RadarAction::Return(RadarOutcome::Found { view_row: 1, view_col: 1, row: 3, col: 9 }));
}

#[test]
fn coordinates_follow_the_direction() {
    // The tile 2 steps ahead on the line of index 2, from (10, 20).
    let mut tiles = view(2, TileType::Grass);
    tiles[1][2] = TileType::Wall;
    let cases = [
        (Direction::Up, 8, 21),
        (Direction::Down, 12, 21),
        (Direction::Left, 11, 18),
        (Direction::Right, 11, 22),
    ];
    for (d, r, c) in cases {
        let (mut scan, _) = Tool::radar(d, 2, TileType::Wall);
        step(&mut scan, RadarEvent::Located { row: 10, col: 20 });
        let a = step(&mut scan, RadarEvent::Viewed(Some(tiles.clone())));
        assert_eq!(a, RadarAction::Return(RadarOutcome::Found { view_row: 1, view_col: 2, row: r, col: c }));
    }
}

#[test]
fn failed_view_ends_the_scan() {
    // At column 0 scanning left the rectangle leaves the world: the view
    // fails and the scan fails with the view's error.
    let (mut scan, _) = Tool::radar(Direction::Left, 10, TileType::Sand);
    assert!(scan.accepts_event(&RadarEvent::Located { row: 0, col: 0 }));
    step(&mut scan, RadarEvent::Located { row: 0, col: 0 });
    assert_eq!(step(&mut scan, RadarEvent::Viewed(None)), RadarAction::Return(RadarOutcome::ViewFailed));
}

#[test]
fn row_zero_scanning_down_is_an_ordinary_search() {
    let (mut scan, _) = Tool::radar(Direction::Down, 4, TileType::Snow);
    assert_eq!(
        step(&mut scan, RadarEvent::Located { row: 0, col: 1 }),
        RadarAction::View { direction: Direction::Down, distance: 2 }
    );
    assert_eq!(
        step(&mut scan, RadarEvent::Viewed(Some(view(2, TileType::Grass)))),
        RadarAction::View { direction: Direction::Down, distance: 4 }
    );
    let mut tiles = view(4, TileType::Grass);
    tiles[3][1] = TileType::Snow;
    assert_eq!(
        step(&mut scan, RadarEvent::Viewed(Some(tiles))),
        RadarAction::Return(RadarOutcome::Found { view_row: 3, view_col: 1, row: 4, col: 1 })
    );
}

#[test]
fn tiles_outside_the_rectangle_are_not_read() {
    // A view reaching 1 tile reads only its first row, and only three tiles.
    let tiles = vec![vec![TileType::Grass, TileType::Grass, TileType::Grass, TileType::Lava], vec![TileType::Lava; 3]];
    assert_eq!(scan_view(&tiles, 1, TileType::Lava), None);
    assert_eq!(scan_view(&tiles, 2, TileType::Lava), Some((1, 0)));
    assert_eq!(scan_view(&vec![], 5, TileType::Lava), None);
    assert_eq!(scan_view(&vec![vec![], vec![TileType::Teleport(true)]], 5, TileType::Teleport(true)), Some((1, 0)));
    assert_eq!(scan_view(&vec![vec![TileType::Teleport(true)]], 5, TileType::Teleport(false)), None);
}

#[test]
fn a_find_without_coordinates_is_refused() {
    // Scanning up from row 0, a view that claims a tile above the world.
    let (mut scan, _) = Tool::radar(Direction::Up, 2, TileType::Sand);
    step(&mut scan, RadarEvent::Located { row: 0, col: 5 });
    assert!(!scan.accepts_event(&RadarEvent::Viewed(Some(view(2, TileType::Sand)))));
    assert!(scan.accepts_event(&RadarEvent::Viewed(Some(view(2, TileType::Grass)))));
    assert!(scan.accepts_event(&RadarEvent::Viewed(None)));
    assert!(!scan.accepts_event(&RadarEvent::Located { row: 5, col: 5 }));
}

#[test]
fn cell_coordinates_by_direction() {
    assert_eq!(cell_coordinates(5, 5, Direction::Up, 0, 1), Some((4, 5)));
    assert_eq!(cell_coordinates(5, 5, Direction::Down, 2, 0), Some((8, 4)));
    assert_eq!(cell_coordinates(5, 5, Direction::Left, 1, 2), Some((6, 3)));
    assert_eq!(cell_coordinates(5, 5, Direction::Right, 0, 0), Some((4, 6)));
    assert_eq!(cell_coordinates(0, 5, Direction::Up, 0, 1), None);
    assert_eq!(cell_coordinates(5, 0, Direction::Down, 0, 0), None);
    assert_eq!(cell_coordinates(usize::MAX, 5, Direction::Left, 0, 2), None);
    assert_eq!(cell_coordinates(5, usize::MAX, Direction::Right, 0, 1), None);
}
