//! The radar: it searches the rectangle ahead of the robot in one direction,
//! three tiles wide (the robot's own line and the line on each side of it)
//! and as long as the distance asked for, and returns the closest tile of the
//! wanted type with that tile's own world coordinates.
//!
//! It looks ahead in views that grow: first 2 tiles far (or the whole
//! distance, if that is shorter), then 3 tiles further each time, the last
//! view reaching exactly the distance asked for. It stops at the first view
//! that holds the wanted type, so a search that finds a tile close by does
//! not pay for the longer views.
//!
//! The radar never touches the world itself. It is a state machine: each step
//! takes what the last world operation reported and names the next operation
//! to perform, until it names the result of the scan.
//!
//! Layout of a view. A view `d` tiles far in direction `dir`, seen from the
//! robot at (`row`, `col`) (rows grow downwards, columns to the right), is
//! read as `d` rows: row `k` holds the tiles `k + 1` steps ahead of the robot,
//! and tile `j` (0, 1 or 2) of that row lies on the line `-1 + j` across the
//! direction. So tile (`k`, `j`) is the world cell
//! - up: (`row - (k + 1)`, `col - 1 + j`),
//! - down: (`row + (k + 1)`, `col - 1 + j`),
//! - left: (`row - 1 + j`, `col - (k + 1)`),
//! - right: (`row - 1 + j`, `col + (k + 1)`)
//!
//! (see `cell_of`). Tiles of a view beyond these `d` rows and 3 columns lie
//! outside the rectangle and are not read.
use vstd::prelude::*;
use crate::world::{Direction, TileType};

verus! {

/// The two jobs of the robot's tools (gathering stones, making road); the
/// radar itself does not read it.
#[allow(non_camel_case_types)]
#[derive(Clone, Copy, Debug, PartialEq, Eq, Structural)]
pub enum State {
    GET_STONES,
    MAKE_ROAD,
}

/// The errors of the robot's tools. A radar scan does not return them: it
/// fails with the error of the world operation that failed, or with "no
/// content" when nothing was found (see `RadarOutcome`).
#[derive(Clone, Copy, Debug, PartialEq, Eq, Structural)]
pub enum RadarError {
    NotEnoughEnergy,
    CannotPlaceHere,
    OutOfBounds,
    NotEnoughMaterial,
    NoRockHere,
    MustDestroyContentFirst,
    UndefinedError,
}

/// The tool that owns the radar.
pub struct Tool {}

/// How the radar ended.
#[derive(Clone, Copy, Debug, PartialEq, Eq, Structural)]
pub enum RadarOutcome {
    /// Tile (`view_row`, `view_col`) of the last view is the closest tile of
    /// the wanted type; (`row`, `col`) are its world coordinates.
    Found { view_row: usize, view_col: usize, row: usize, col: usize },
    /// The last view failed (for instance because the rectangle leaves the
    /// world, or the robot lacks energy); the scan fails with the view's own
    /// error.
    ViewFailed,
    /// The rectangle holds no tile of the wanted type; the scan fails with
    /// "no content".
    NotFound,
}

/// The next world operation the radar asks for, or the result of the scan.
#[derive(Clone, Copy, Debug, PartialEq, Eq, Structural)]
pub enum RadarAction {
    /// Locate the robot and report its coordinates.
    LocateRobot,
    /// Look `distance` tiles far in `direction` and report the tiles seen.
    View { direction: Direction, distance: usize },
    /// The scan is over.
    Return(RadarOutcome),
}

/// What a world operation reported back to the radar.
pub enum RadarEvent {
    /// The robot stands at (`row`, `col`).
    Located { row: usize, col: usize },
    /// The tile types of the view, row by row (see the layout above), or
    /// `None` if the view failed.
    Viewed(Option<Vec<Vec<TileType>>>),
}

/// Where the radar stands in its scan.
#[derive(Clone, Copy, Debug, PartialEq, Eq, Structural)]
pub enum RadarPhase {
    AwaitLocation,
    AwaitView,
    Finished,
}

/// One radar scan.
#[derive(Clone, Copy, Debug, PartialEq, Eq, Structural)]
pub struct RadarScan {
    pub direction: Direction,
    /// How far the radar searches: the length of the rectangle.
    pub distance: usize,
    /// The tile type looked for.
    pub target: TileType,
    /// Where the robot stands.
    pub row: usize,
    pub col: usize,
    /// How far the current view reaches.
    pub curr_dist: usize,
    pub phase: RadarPhase,
}

/// The world cell of tile (`k`, `j`) of a view in direction `d` seen from
/// (`row`, `col`).
pub open spec fn cell_of(row: int, col: int, d: Direction, k: int, j: int) -> (int, int) {
    match d {
        Direction::Up => (row - (k + 1), col - 1 + j),
        Direction::Down => (row + (k + 1), col - 1 + j),
        Direction::Left => (row - 1 + j, col - (k + 1)),
        Direction::Right => (row - 1 + j, col + (k + 1)),
    }
}

/// Cell (`r`, `c`) lies in the rectangle `reach` tiles long ahead of the
/// robot at (`row`, `col`) in direction `d`: 1 to `reach` steps ahead, and
/// at most one line to either side.
pub open spec fn in_rectangle(row: int, col: int, d: Direction, reach: int, r: int, c: int) -> bool {
    match d {
        Direction::Up => row - reach <= r <= row - 1 && col - 1 <= c <= col + 1,
        Direction::Down => row + 1 <= r <= row + reach && col - 1 <= c <= col + 1,
        Direction::Left => row - 1 <= r <= row + 1 && col - reach <= c <= col - 1,
        Direction::Right => row - 1 <= r <= row + 1 && col + 1 <= c <= col + reach,
    }
}

/// Tile (`k`, `j`) is in the view and in the part of it that a view `dist`
/// tiles far covers of the rectangle.
pub open spec fn in_view(tiles: Vec<Vec<TileType>>, dist: int, k: int, j: int) -> bool {
    &&& 0 <= k < dist
    &&& k < tiles@.len()
    &&& 0 <= j < 3
    &&& j < tiles@[k]@.len()
}

/// Tile (`k`, `j`) of the view is of type `target`.
pub open spec fn target_at(tiles: Vec<Vec<TileType>>, dist: int, target: TileType, k: int, j: int) -> bool {
    in_view(tiles, dist, k, j) && tiles@[k]@[j] == target
}

/// Tile (`k1`, `j1`) comes before tile (`k2`, `j2`) in the radar's order:
/// closer along the direction, or as close and of a lower index across it.
pub open spec fn before(k1: int, j1: int, k2: int, j2: int) -> bool {
    k1 < k2 || (k1 == k2 && j1 < j2)
}

/// Tile (`k`, `j`) is a tile of type `target` and no tile before it is.
pub open spec fn first_target(tiles: Vec<Vec<TileType>>, dist: int, target: TileType, k: int, j: int) -> bool {
    &&& target_at(tiles, dist, target, k, j)
    &&& forall|k2: int, j2: int|
        before(k2, j2, k, j) ==> !#[trigger] target_at(tiles, dist, target, k2, j2)
}

/// The view holds a tile of type `target` in the rectangle.
pub open spec fn holds_target(tiles: Vec<Vec<TileType>>, dist: int, target: TileType) -> bool {
    exists|k: int, j: int| #[trigger] target_at(tiles, dist, target, k, j)
}

/// The tile the radar picks in a view: the first tile of type `target`.
pub open spec fn view_hit(tiles: Vec<Vec<TileType>>, dist: int, target: TileType) -> Option<(int, int)> {
    if exists|p: (int, int)| first_target(tiles, dist, target, p.0, p.1) {
        Some(choose|p: (int, int)| first_target(tiles, dist, target, p.0, p.1))
    } else {
        None
    }
}

/// The cell's coordinates fit in `usize`.
pub open spec fn cell_fits(row: usize, col: usize, d: Direction, k: int, j: int) -> bool {
    let (r, c) = cell_of(row as int, col as int, d, k, j);
    0 <= r <= usize::MAX && 0 <= c <= usize::MAX
}

/// The distance of the first view: 2, or the whole distance if shorter.
pub open spec fn first_view(reach: int) -> int {
    if reach <= 2 {
        reach
    } else {
        2
    }
}

/// The distance of the view after one `curr` tiles far: 3 tiles further,
/// but not beyond the reach.
pub open spec fn following_view(curr: int, reach: int) -> int {
    if reach - curr <= 3 {
        reach
    } else {
        curr + 3
    }
}

/// Two first tiles of a view are the same tile.
proof fn lemma_first_target_unique(
    tiles: Vec<Vec<TileType>>,
    dist: int,
    target: TileType,
    k1: int,
    j1: int,
    k2: int,
    j2: int,
)
    requires
        first_target(tiles, dist, target, k1, j1),
        first_target(tiles, dist, target, k2, j2),
    ensures
        k1 == k2 && j1 == j2,
{
    if before(k1, j1, k2, j2) {
        assert(!target_at(tiles, dist, target, k1, j1));
    } else if before(k2, j2, k1, j1) {
        assert(!target_at(tiles, dist, target, k2, j2));
    }
}

/// A view that holds the wanted type has a first tile of it.
proof fn lemma_first_target_exists(tiles: Vec<Vec<TileType>>, dist: int, target: TileType, k: int, j: int)
    requires
        target_at(tiles, dist, target, k, j),
    ensures
        exists|p: (int, int)| first_target(tiles, dist, target, p.0, p.1),
    decreases k * 3 + j,
{
    if exists|k2: int, j2: int| before(k2, j2, k, j) && target_at(tiles, dist, target, k2, j2) {
        let (k2, j2) = choose|k2: int, j2: int|
            before(k2, j2, k, j) && target_at(tiles, dist, target, k2, j2);
        assert(k2 * 3 + j2 < k * 3 + j);
        lemma_first_target_exists(tiles, dist, target, k2, j2);
    } else {
        let p = (k, j);
        assert(first_target(tiles, dist, target, p.0, p.1));
    }
}

/// The picked tile is the first tile of type `target`, and there is one
/// exactly when the view holds that type.
proof fn lemma_view_hit(tiles: Vec<Vec<TileType>>, dist: int, target: TileType)
    ensures
        view_hit(tiles, dist, target) is Some <==> holds_target(tiles, dist, target),
        view_hit(tiles, dist, target) matches Some((k, j)) ==> first_target(
            tiles,
            dist,
            target,
            k,
            j,
        ),
{
    if holds_target(tiles, dist, target) {
        let (k, j) = choose|k: int, j: int| #[trigger] target_at(tiles, dist, target, k, j);
        lemma_first_target_exists(tiles, dist, target, k, j);
    }
}

impl RadarScan {
    /// The radar before it has located the robot.
    pub open spec fn fresh(direction: Direction, distance: usize, target: TileType) -> RadarScan {
        RadarScan {
            direction,
            distance,
            target,
            row: 0,
            col: 0,
            curr_dist: 0,
            phase: RadarPhase::AwaitLocation,
        }
    }

    /// The radar moves on to a view `d` tiles far; a view of no length ends
    /// the scan.
    pub open spec fn advance(self, d: int) -> (RadarScan, RadarAction) {
        if d >= 1 {
            (
                RadarScan { curr_dist: d as usize, phase: RadarPhase::AwaitView, ..self },
                RadarAction::View { direction: self.direction, distance: d as usize },
            )
        } else {
            (
                RadarScan { curr_dist: d as usize, phase: RadarPhase::Finished, ..self },
                RadarAction::Return(RadarOutcome::NotFound),
            )
        }
    }

    /// The radar is waiting for `event`, and a tile it would report has
    /// coordinates, as every tile of the world has.
    pub open spec fn accepts(self, event: RadarEvent) -> bool {
        match (self.phase, event) {
            (RadarPhase::AwaitLocation, RadarEvent::Located { .. }) => true,
            (RadarPhase::AwaitView, RadarEvent::Viewed(view)) => match view {
                None => true,
                Some(tiles) => view_hit(tiles, self.curr_dist as int, self.target) matches Some((k, j))
                    ==> cell_fits(self.row, self.col, self.direction, k, j),
            },
            _ => false,
        }
    }

    /// The radar after `event`, and the operation it asks for next.
    pub open spec fn next(self, event: RadarEvent) -> (RadarScan, RadarAction)
        recommends
            self.accepts(event),
    {
        match (self.phase, event) {
            (RadarPhase::AwaitLocation, RadarEvent::Located { row, col }) => RadarScan {
                row,
                col,
                ..self
            }.advance(first_view(self.distance as int)),
            (RadarPhase::AwaitView, RadarEvent::Viewed(view)) => match view {
                None => (
                    RadarScan { phase: RadarPhase::Finished, ..self },
                    RadarAction::Return(RadarOutcome::ViewFailed),
                ),
                Some(tiles) => match view_hit(tiles, self.curr_dist as int, self.target) {
                    Some((k, j)) => {
                        let (r, c) = cell_of(self.row as int, self.col as int, self.direction, k, j);
                        (
                            RadarScan { phase: RadarPhase::Finished, ..self },
                            RadarAction::Return(
                                RadarOutcome::Found {
                                    view_row: k as usize,
                                    view_col: j as usize,
                                    row: r as usize,
                                    col: c as usize,
                                },
                            ),
                        )
                    },
                    None => if self.curr_dist >= self.distance {
                        (
                            RadarScan { phase: RadarPhase::Finished, ..self },
                            RadarAction::Return(RadarOutcome::NotFound),
                        )
                    } else {
                        self.advance(following_view(self.curr_dist as int, self.distance as int))
                    },
                },
            },
            _ => arbitrary(),
        }
    }

    /// The scan's invariant: while it waits for a view, the view reaches at
    /// least one tile and at most the distance asked for.
    pub open spec fn wf(self) -> bool {
        self.phase == RadarPhase::AwaitView ==> 1 <= self.curr_dist <= self.distance
    }

    /// Whether the radar is waiting for `event` and can take it.
    pub fn accepts_event(&self, event: &RadarEvent) -> (b: bool)
        ensures
            b == self.accepts(*event),
    {
        match (self.phase, event) {
            (RadarPhase::AwaitLocation, RadarEvent::Located { .. }) => true,
            (RadarPhase::AwaitView, RadarEvent::Viewed(view)) => match view {
                None => true,
                Some(tiles) => {
                    let hit = scan_view(tiles, self.curr_dist, self.target);
                    proof {
                        lemma_view_hit(*tiles, self.curr_dist as int, self.target);
                    }
                    match hit {
                        Some((k, j)) => {
                            proof {
                                let p = choose|p: (int, int)|
                                    first_target(*tiles, self.curr_dist as int, self.target, p.0, p.1);
                                lemma_first_target_unique(
                                    *tiles,
                                    self.curr_dist as int,
                                    self.target,
                                    k as int,
                                    j as int,
                                    p.0,
                                    p.1,
                                );
                            }
                            cell_coordinates(self.row, self.col, self.direction, k, j).is_some()
                        },
                        None => true,
                    }
                },
            },
            _ => false,
        }
    }

    /// Moves on to a view `d` tiles far.
    fn advance_to(&mut self, d: usize) -> (action: RadarAction)
        ensures
            (*final(self), action) == old(self).advance(d as int),
    {
        self.curr_dist = d;
        if d >= 1 {
            self.phase = RadarPhase::AwaitView;
            RadarAction::View { direction: self.direction, distance: d }
        } else {
            self.phase = RadarPhase::Finished;
            RadarAction::Return(RadarOutcome::NotFound)
        }
    }

    /// Feeds `event` to the radar and returns the operation it asks for
    /// next; once it returns `RadarAction::Return`, the scan is over.
    pub fn step(&mut self, event: RadarEvent) -> (action: RadarAction)
        requires
            old(self).accepts(event),
        ensures
            (*final(self), action) == old(self).next(event),
    {
        match event {
            RadarEvent::Located { row, col } => {
                self.row = row;
                self.col = col;
                let first = if self.distance <= 2 {
                    self.distance
                } else {
                    2
                };
                self.advance_to(first)
            },
            RadarEvent::Viewed(view) => match view {
                None => {
                    self.phase = RadarPhase::Finished;
                    RadarAction::Return(RadarOutcome::ViewFailed)
                },
                Some(tiles) => {
                    let hit = scan_view(&tiles, self.curr_dist, self.target);
                    proof {
                        lemma_view_hit(tiles, self.curr_dist as int, self.target);
                    }
                    match hit {
                        Some((k, j)) => {
                            proof {
                                let p = choose|p: (int, int)|
                                    first_target(tiles, self.curr_dist as int, self.target, p.0, p.1);
                                lemma_first_target_unique(
                                    tiles,
                                    self.curr_dist as int,
                                    self.target,
                                    k as int,
                                    j as int,
                                    p.0,
                                    p.1,
                                );
                            }
                            let rc = cell_coordinates(self.row, self.col, self.direction, k, j);
                            let (r, c) = rc.unwrap();
                            self.phase = RadarPhase::Finished;
                            RadarAction::Return(
                                RadarOutcome::Found { view_row: k, view_col: j, row: r, col: c },
                            )
                        },
                        None => {
                            if self.curr_dist >= self.distance {
                                self.phase = RadarPhase::Finished;
                                RadarAction::Return(RadarOutcome::NotFound)
                            } else {
                                let d = if self.distance - self.curr_dist <= 3 {
                                    self.distance
                                } else {
                                    self.curr_dist + 3
                                };
                                self.advance_to(d)
                            }
                        },
                    }
                },
            },
        }
    }
}

/// The world coordinates of tile (`k`, `j`) of a view in direction `d`
/// seen from (`row`, `col`), or `None` if they do not fit in `usize`.
pub fn cell_coordinates(row: usize, col: usize, d: Direction, k: usize, j: usize) -> (rc: Option<
    (usize, usize),
>)
    requires
        j < 3,
    ensures
        rc is Some <==> cell_fits(row, col, d, k as int, j as int),
        rc matches Some((r, c)) ==> (r as int, c as int) == cell_of(
            row as int,
            col as int,
            d,
            k as int,
            j as int,
        ),
{
    // The line across the direction: the robot's column (up, down) or row
    // (left, right), moved by `j - 1`.
    let across = match d {
        Direction::Up | Direction::Down => col,
        Direction::Left | Direction::Right => row,
    };
    let side = if j == 0 {
        if across == 0 {
            return None;
        }
        across - 1
    } else if j == 1 {
        across
    } else {
        if across == usize::MAX {
            return None;
        }
        across + 1
    };
    // The line along the direction: `k + 1` steps ahead.
    if k == usize::MAX {
        return None;
    }
    let steps = k + 1;
    match d {
        Direction::Up => if row < steps {
            None
        } else {
            Some((row - steps, side))
        },
        Direction::Down => if row > usize::MAX - steps {
            None
        } else {
            Some((row + steps, side))
        },
        Direction::Left => if col < steps {
            None
        } else {
            Some((side, col - steps))
        },
        Direction::Right => if col > usize::MAX - steps {
            None
        } else {
            Some((side, col + steps))
        },
    }
}

/// The first tile of type `target` in the part of the view that a view
/// `dist` tiles far covers of the rectangle: rows from the nearest to the
/// farthest, and in a row the tiles by index.
pub fn scan_view(tiles: &Vec<Vec<TileType>>, dist: usize, target: TileType) -> (hit: Option<
    (usize, usize),
>)
    ensures
        match hit {
            Some((k, j)) => first_target(*tiles, dist as int, target, k as int, j as int),
            None => !holds_target(*tiles, dist as int, target),
        },
{
    let mut k: usize = 0;
    while k < tiles.len() && k < dist
        invariant
            k <= tiles@.len(),
            forall|k2: int, j2: int|
                0 <= k2 < k ==> !#[trigger] target_at(*tiles, dist as int, target, k2, j2),
        decreases tiles@.len() - k,
    {
        let mut j: usize = 0;
        while j < tiles[k].len() && j < 3
            invariant
                k < tiles@.len(),
                k < dist,
                j <= 3,
                forall|k2: int, j2: int|
                    before(k2, j2, k as int, j as int) ==> !#[trigger] target_at(
                        *tiles,
                        dist as int,
                        target,
                        k2,
                        j2,
                    ),
            decreases 3 - j,
        {
            if tiles[k][j] == target {
                return Some((k, j));
            }
            j = j + 1;
        }
        assert forall|k2: int, j2: int| 0 <= k2 < k + 1 implies !#[trigger] target_at(
            *tiles,
            dist as int,
            target,
            k2,
            j2,
        ) by {
            if k2 == k && j2 >= j {
                assert(!in_view(*tiles, dist as int, k2, j2));
            } else {
                assert(before(k2, j2, k as int, j as int));
            }
        }
        k = k + 1;
    }
    None
}

/// Law: every step of a well-formed scan leaves it well formed.
pub proof fn law_step_keeps_wf(scan: RadarScan, event: RadarEvent)
    requires
        scan.wf(),
        scan.accepts(event),
    ensures
        scan.next(event).0.wf(),
{
}

/// Law: the views a scan asks for look in the scan's direction; the first
/// reaches 2 tiles (or the whole distance, if shorter), each next one 3
/// tiles further than the last but never beyond the distance asked for, so
/// the views grow until one reaches exactly that distance.
pub proof fn law_view_distances(scan: RadarScan, event: RadarEvent)
    requires
        scan.wf(),
        scan.accepts(event),
    ensures
        scan.next(event).1 matches RadarAction::View { direction, distance } ==> {
            &&& direction == scan.direction
            &&& 1 <= distance <= scan.distance
            &&& distance == if scan.phase == RadarPhase::AwaitLocation {
                first_view(scan.distance as int)
            } else {
                following_view(scan.curr_dist as int, scan.distance as int)
            }
            &&& scan.phase == RadarPhase::AwaitView ==> scan.curr_dist < distance
        },
{
}

/// Law: the scan answers "not found" exactly when the rectangle has no
/// length, or when the view reaching the whole distance holds no tile of the
/// wanted type.
pub proof fn law_not_found_only_after_whole_rectangle(scan: RadarScan, event: RadarEvent)
    requires
        scan.wf(),
        scan.accepts(event),
    ensures
        scan.next(event).1 == RadarAction::Return(RadarOutcome::NotFound) <==> {
            ||| (scan.phase == RadarPhase::AwaitLocation && scan.distance == 0)
            ||| {
                &&& scan.phase == RadarPhase::AwaitView
                &&& event matches RadarEvent::Viewed(Some(t))
                &&& !holds_target(t, scan.curr_dist as int, scan.target)
                &&& scan.curr_dist == scan.distance
            }
        },
{
    if let RadarEvent::Viewed(Some(t)) = event {
        lemma_view_hit(t, scan.curr_dist as int, scan.target);
    }
}

/// Law: a view that holds the wanted type in the rectangle makes the scan
/// report a tile.
pub proof fn law_target_in_view_is_found(scan: RadarScan, tiles: Vec<Vec<TileType>>)
    requires
        scan.wf(),
        scan.accepts(RadarEvent::Viewed(Some(tiles))),
        scan.phase == RadarPhase::AwaitView,
        holds_target(tiles, scan.curr_dist as int, scan.target),
    ensures
        scan.next(RadarEvent::Viewed(Some(tiles))).1 matches RadarAction::Return(
            RadarOutcome::Found { .. },
        ),
{
    lemma_view_hit(tiles, scan.curr_dist as int, scan.target);
}

/// Law: a tile the radar reports is of the wanted type, it is the closest
/// such tile of the view (no tile of that type lies fewer steps ahead, nor as
/// many steps ahead at a lower index), and the coordinates reported are its
/// own world coordinates, which lie in the rectangle ahead of the robot.
pub proof fn law_found_is_closest_in_rectangle(scan: RadarScan, tiles: Vec<Vec<TileType>>)
    requires
        scan.wf(),
        scan.accepts(RadarEvent::Viewed(Some(tiles))),
        scan.phase == RadarPhase::AwaitView,
    ensures
        scan.next(RadarEvent::Viewed(Some(tiles))).1 matches RadarAction::Return(
            RadarOutcome::Found { view_row, view_col, row, col },
        ) ==> {
            &&& view_row < tiles@.len()
            &&& view_col < tiles@[view_row as int]@.len()
            &&& tiles@[view_row as int]@[view_col as int] == scan.target
            &&& forall|k: int, j: int|
                before(k, j, view_row as int, view_col as int) ==> !#[trigger] target_at(
                    tiles,
                    scan.curr_dist as int,
                    scan.target,
                    k,
                    j,
                )
            &&& (row as int, col as int) == cell_of(
                scan.row as int,
                scan.col as int,
                scan.direction,
                view_row as int,
                view_col as int,
            )
            &&& in_rectangle(
                scan.row as int,
                scan.col as int,
                scan.direction,
                scan.distance as int,
                row as int,
                col as int,
            )
        },
{
    lemma_view_hit(tiles, scan.curr_dist as int, scan.target);
}

/// Law: locating the robot records where it stands, and a failed view ends
/// the scan with that view's error.
pub proof fn law_location_and_failed_view(scan: RadarScan, event: RadarEvent)
    requires
        scan.accepts(event),
    ensures
        event matches RadarEvent::Located { row, col } ==> scan.next(event).0.row == row
            && scan.next(event).0.col == col,
        event matches RadarEvent::Viewed(None) ==> scan.next(event).1 == RadarAction::Return(
            RadarOutcome::ViewFailed,
        ),
        scan.next(event).0.direction == scan.direction,
        scan.next(event).0.distance == scan.distance,
        scan.next(event).0.target == scan.target,
{
}

/// Law: the views a scan asks for, spelled out: the first view reaches 2
/// tiles, or the whole distance if that is shorter; after a view that found
/// nothing, the next reaches 3 tiles further, or the whole distance if fewer
/// than 4 tiles remain; a distance of 0 asks for no view.
pub proof fn law_view_schedule(scan: RadarScan, event: RadarEvent)
    requires
        scan.wf(),
        scan.accepts(event),
    ensures
        scan.phase == RadarPhase::AwaitLocation ==> scan.next(event).1 == if scan.distance == 0 {
            RadarAction::Return(RadarOutcome::NotFound)
        } else if scan.distance <= 2 {
            RadarAction::View { direction: scan.direction, distance: scan.distance }
        } else {
            RadarAction::View { direction: scan.direction, distance: 2 }
        },
        scan.phase == RadarPhase::AwaitView ==> (scan.next(event).1 matches RadarAction::View {
            direction,
            distance,
        } ==> {
            &&& direction == scan.direction
            &&& distance == if scan.distance - scan.curr_dist <= 3 {
                scan.distance as int
            } else {
                scan.curr_dist + 3
            }
        }),
{
}

/// Law: a tile the radar reports, spelled out: it is `view_row + 1` steps
/// ahead of the robot along the scan's direction and `view_col - 1` lines
/// across it (rows grow downwards, columns to the right), within the
/// distance asked for.
pub proof fn law_found_coordinates(scan: RadarScan, tiles: Vec<Vec<TileType>>)
    requires
        scan.wf(),
        scan.accepts(RadarEvent::Viewed(Some(tiles))),
        scan.phase == RadarPhase::AwaitView,
    ensures
        scan.next(RadarEvent::Viewed(Some(tiles))).1 matches RadarAction::Return(
            RadarOutcome::Found { view_row, view_col, row, col },
        ) ==> {
            let steps = view_row + 1;
            let across = view_col - 1;
            &&& 1 <= steps <= scan.distance
            &&& -1 <= across <= 1
            &&& scan.direction == Direction::Up ==> row == scan.row - steps && col == scan.col
                + across
            &&& scan.direction == Direction::Down ==> row == scan.row + steps && col == scan.col
                + across
            &&& scan.direction == Direction::Left ==> row == scan.row + across && col == scan.col
                - steps
            &&& scan.direction == Direction::Right ==> row == scan.row + across && col == scan.col
                + steps
        },
{
    lemma_view_hit(tiles, scan.curr_dist as int, scan.target);
}

/// Law: what the radar reports of a view, in terms of the view's tiles: it
/// reads rows `0 .. curr_dist` and in each row tiles `0 .. 3`. If one of
/// those tiles has the wanted type, the radar reports a tile, of that type,
/// with no such tile in an earlier row or earlier in its row; if none has,
/// it reports no tile, and ends with "not found" only if the view reached
/// the whole distance.
pub proof fn law_view_search(scan: RadarScan, tiles: Vec<Vec<TileType>>)
    requires
        scan.wf(),
        scan.accepts(RadarEvent::Viewed(Some(tiles))),
        scan.phase == RadarPhase::AwaitView,
    ensures
        (exists|k: int, j: int|
            #![trigger tiles@[k]@[j]]
            0 <= k < scan.curr_dist && k < tiles@.len() && 0 <= j < 3 && j < tiles@[k]@.len()
                && tiles@[k]@[j] == scan.target) ==> match scan.next(
            RadarEvent::Viewed(Some(tiles)),
        ).1 {
            RadarAction::Return(RadarOutcome::Found { .. }) => true,
            _ => false,
        },
        match scan.next(RadarEvent::Viewed(Some(tiles))).1 {
            RadarAction::Return(RadarOutcome::Found { view_row, view_col, .. }) => {
                &&& view_row < scan.curr_dist
                &&& view_row < tiles@.len()
                &&& view_col < 3
                &&& view_col < tiles@[view_row as int]@.len()
                &&& tiles@[view_row as int]@[view_col as int] == scan.target
                &&& forall|k: int, j: int|
                    #![trigger tiles@[k]@[j]]
                    0 <= k < tiles@.len() && 0 <= j < 3 && j < tiles@[k]@.len() && (k < view_row || (
                    k == view_row && j < view_col)) ==> tiles@[k]@[j] != scan.target
            },
            _ => true,
        },
        scan.next(RadarEvent::Viewed(Some(tiles))).1 == RadarAction::Return(RadarOutcome::NotFound)
            <==> {
            &&& forall|k: int, j: int|
                #![trigger tiles@[k]@[j]]
                0 <= k < scan.curr_dist && k < tiles@.len() && 0 <= j < 3 && j < tiles@[k]@.len()
                    ==> tiles@[k]@[j] != scan.target
            &&& scan.curr_dist == scan.distance
        },
{
    lemma_view_hit(tiles, scan.curr_dist as int, scan.target);
    if exists|k: int, j: int|
        #![trigger tiles@[k]@[j]]
        0 <= k < scan.curr_dist && k < tiles@.len() && 0 <= j < 3 && j < tiles@[k]@.len()
            && tiles@[k]@[j] == scan.target {
        let (k, j) = choose|k: int, j: int|
            #![trigger tiles@[k]@[j]]
            0 <= k < scan.curr_dist && k < tiles@.len() && 0 <= j < 3 && j < tiles@[k]@.len()
                && tiles@[k]@[j] == scan.target;
        assert(target_at(tiles, scan.curr_dist as int, scan.target, k, j));
    }
    if holds_target(tiles, scan.curr_dist as int, scan.target) {
        let (k, j) = choose|k: int, j: int|
            #[trigger] target_at(tiles, scan.curr_dist as int, scan.target, k, j);
        assert(tiles@[k]@[j] == scan.target);
    }
    match scan.next(RadarEvent::Viewed(Some(tiles))).1 {
        RadarAction::Return(RadarOutcome::Found { view_row, view_col, .. }) => {
            assert forall|k: int, j: int|
                #![trigger tiles@[k]@[j]]
                0 <= k < tiles@.len() && 0 <= j < 3 && j < tiles@[k]@.len() && (k < view_row || (k
                    == view_row && j < view_col)) implies tiles@[k]@[j] != scan.target by {
                assert(before(k, j, view_row as int, view_col as int));
                assert(!target_at(tiles, scan.curr_dist as int, scan.target, k, j));
            }
        },
        _ => {},
    }
}

/// Law: the radar takes every report it waits for on the inputs on which it
/// works: any location, a failed view, and any view whose tiles in the
/// rectangle all have world coordinates (as tiles of the world do).
pub proof fn law_accepts_ordinary_reports(scan: RadarScan, event: RadarEvent)
    requires
        match (scan.phase, event) {
            (RadarPhase::AwaitLocation, RadarEvent::Located { .. }) => true,
            (RadarPhase::AwaitView, RadarEvent::Viewed(None)) => true,
            (RadarPhase::AwaitView, RadarEvent::Viewed(Some(tiles))) => forall|k: int, j: int|
                #![trigger tiles@[k]@[j]]
                0 <= k < scan.curr_dist && k < tiles@.len() && 0 <= j < 3 && j < tiles@[k]@.len()
                    ==> {
                    let (steps, across) = (k + 1, j - 1);
                    let (r, c) = if scan.direction == Direction::Up {
                        (scan.row - steps, scan.col + across)
                    } else if scan.direction == Direction::Down {
                        (scan.row + steps, scan.col + across)
                    } else if scan.direction == Direction::Left {
                        (scan.row + across, scan.col - steps)
                    } else {
                        (scan.row + across, scan.col + steps)
                    };
                    0 <= r <= usize::MAX && 0 <= c <= usize::MAX
                },
            _ => false,
        },
    ensures
        scan.accepts(event),
{
    if let RadarEvent::Viewed(Some(tiles)) = event {
        lemma_view_hit(tiles, scan.curr_dist as int, scan.target);
    }
}

impl Tool {
    /// Starts a radar scan in `direction` of the rectangle `distance` tiles
    /// long, for a tile of type `tile_type`: the radar, and the first
    /// operation it asks for, which is to locate the robot.
    pub fn radar(direction: Direction, distance: usize, tile_type: TileType) -> (res: (
        RadarScan,
        RadarAction,
    ))
        ensures
            res.0 == RadarScan::fresh(direction, distance, tile_type),
            res.1 == RadarAction::LocateRobot,
    {
        (
            RadarScan {
                direction,
                distance,
                target: tile_type,
                row: 0,
                col: 0,
                curr_dist: 0,
                phase: RadarPhase::AwaitLocation,
            },
            RadarAction::LocateRobot,
        )
    }
}

} // verus!
