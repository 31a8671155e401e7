//! The road-paving machine. It either breaks the content of the tile beside
//! the robot to gather rocks, or lays as many rocks on that tile as its ground
//! needs to become road.
//!
//! The machine never touches the world itself. It is a state machine: each
//! step takes what the last world operation reported and names the next
//! operation to perform, until it names the result of the whole run.
use vstd::prelude::*;
use crate::world::{Content, Direction, LibErrorKind, TileType};

verus! {

/// What the machine is asked to do.
#[allow(non_camel_case_types)]
#[derive(Clone, Copy, Debug, PartialEq, Eq, Structural)]
pub enum State {
    /// Break the content of the tile beside the robot.
    GET_STONES,
    /// Lay rocks on the tile beside the robot.
    MAKE_ROAD,
}

/// Why a run of the machine failed.
#[derive(Clone, Copy, Debug, PartialEq, Eq, Structural)]
pub enum RpmError {
    NotEnoughEnergy,
    CannotPlaceHere,
    OutOfBounds,
    NotEnoughMaterial,
    NoRockHere,
    MustDestroyContentFirst,
    UndefinedError,
}

/// The tool that owns the machine.
pub struct Tool {}

/// The machine's answer to an error kind reported by a world operation.
pub open spec fn rpm_error_of(e: LibErrorKind) -> RpmError {
    match e {
        LibErrorKind::NotEnoughEnergy => RpmError::NotEnoughEnergy,
        LibErrorKind::OutOfBounds => RpmError::OutOfBounds,
        LibErrorKind::NotEnoughContentInBackPack => RpmError::NotEnoughMaterial,
        LibErrorKind::ContentNotAllowedOnTile => RpmError::CannotPlaceHere,
        LibErrorKind::MustDestroyContentFirst => RpmError::MustDestroyContentFirst,
        LibErrorKind::NoContent => RpmError::NoRockHere,
        LibErrorKind::NotEnoughContentProvided => RpmError::NotEnoughMaterial,
        LibErrorKind::Other => RpmError::UndefinedError,
    }
}

/// The machine's result for what a destroy or put operation reported.
pub open spec fn handled(result: Result<usize, LibErrorKind>) -> Result<(), RpmError> {
    match result {
        Ok(_) => Ok(()),
        Err(e) => Err(rpm_error_of(e)),
    }
}

/// The content and the amount that the machine lays on a tile of ground `t`
/// to pave it; `None` for ground that cannot be paved.
pub open spec fn road_material(t: TileType) -> Option<(Content, usize)> {
    match t {
        TileType::DeepWater => Some((Content::Rock(0), 3)),
        TileType::ShallowWater => Some((Content::Rock(0), 2)),
        TileType::Sand => Some((Content::Rock(0), 1)),
        TileType::Grass => Some((Content::Rock(0), 1)),
        TileType::Street => None,
        TileType::Hill => Some((Content::Rock(0), 1)),
        TileType::Mountain => Some((Content::Nothing, 0)),
        TileType::Snow => Some((Content::Rock(0), 1)),
        TileType::Lava => Some((Content::Rock(0), 3)),
        TileType::Teleport(_) => None,
        TileType::Wall => None,
    }
}

/// The cell next to (`row`, `col`) in direction `d`; rows grow downwards.
pub open spec fn neighbour(row: int, col: int, d: Direction) -> (int, int) {
    match d {
        Direction::Up => (row - 1, col),
        Direction::Down => (row + 1, col),
        Direction::Left => (row, col - 1),
        Direction::Right => (row, col + 1),
    }
}

/// The neighbour of (`row`, `col`) has coordinates that fit in `usize`.
pub open spec fn neighbour_fits(row: usize, col: usize, d: Direction) -> bool {
    let (r, c) = neighbour(row as int, col as int, d);
    0 <= r <= usize::MAX && 0 <= c <= usize::MAX
}

/// The known map holds a known tile at (`r`, `c`).
pub open spec fn known_at(map: Vec<Vec<Option<TileType>>>, r: int, c: int) -> bool {
    &&& 0 <= r < map@.len()
    &&& 0 <= c < map@[r]@.len()
    &&& map@[r]@[c] is Some
}

/// The tile type at (`r`, `c`) of a known map.
pub open spec fn tile_at(map: Vec<Vec<Option<TileType>>>, r: int, c: int) -> TileType {
    map@[r]@[c].unwrap()
}

/// The next world operation the machine asks for, or the result of the run.
#[derive(Clone, Copy, Debug, PartialEq, Eq)]
pub enum PavingAction {
    /// Locate the robot in the world (this also reveals its surroundings).
    LocateRobot,
    /// Report whether the backpack holds an entry for rocks.
    ReadBackpack,
    /// Report whether the tile in this direction is inside the world.
    CheckBounds(Direction),
    /// Report the robot's coordinates and the map that the robot knows.
    ReadSurroundings,
    /// Break the content of the tile in this direction.
    Destroy(Direction),
    /// Place `quantity` of `content` on the tile in `direction`.
    Put { content: Content, quantity: usize, direction: Direction },
    /// The run is over with this result.
    Return(Result<(), RpmError>),
}

/// What a world operation reported back to the machine.
pub enum PavingEvent {
    /// The robot was located.
    Located,
    /// Whether the backpack holds an entry for rocks.
    Backpack { has_rock: bool },
    /// Whether the bounds check of the target tile succeeded.
    Bounds { within: bool },
    /// The robot's coordinates and the map it knows, if any.
    Surroundings { row: usize, col: usize, map: Option<Vec<Vec<Option<TileType>>>> },
    /// What the destroy or put operation returned.
    Outcome(Result<usize, LibErrorKind>),
}

/// Where the machine stands in its run.
#[derive(Clone, Copy, Debug, PartialEq, Eq, Structural)]
pub enum PavingPhase {
    AwaitLocation,
    AwaitBackpack,
    AwaitBounds,
    AwaitSurroundings,
    AwaitOutcome,
    Finished,
}

/// One run of the road-paving machine towards the tile in `direction`.
#[derive(Clone, Copy, Debug, PartialEq, Eq, Structural)]
pub struct PavingMachine {
    pub direction: Direction,
    pub state: State,
    pub phase: PavingPhase,
}

/// What the machine does once it knows the ground of the target tile:
/// breaking its content, laying the road material, or refusing.
pub open spec fn action_for_tile(state: State, t: TileType, d: Direction) -> PavingAction {
    match state {
        State::GET_STONES => PavingAction::Destroy(d),
        State::MAKE_ROAD => match road_material(t) {
            Some((content, quantity)) => PavingAction::Put { content, quantity, direction: d },
            None => PavingAction::Return(Err(RpmError::CannotPlaceHere)),
        },
    }
}

/// The result of a whole run, read off what each world operation reported:
/// the backpack check, the bounds check, the robot's coordinates, its known
/// map and, when the machine acted, what the action returned.
pub open spec fn paving_outcome(
    direction: Direction,
    state: State,
    has_rock: bool,
    within: bool,
    row: usize,
    col: usize,
    map: Option<Vec<Vec<Option<TileType>>>>,
    outcome: Result<usize, LibErrorKind>,
) -> Result<(), RpmError> {
    if !has_rock {
        Err(RpmError::NotEnoughMaterial)
    } else if !within {
        Err(RpmError::OutOfBounds)
    } else {
        match map {
            None => Err(RpmError::OutOfBounds),
            Some(m) => {
                let (r, c) = neighbour(row as int, col as int, direction);
                match action_for_tile(state, tile_at(m, r, c), direction) {
                    PavingAction::Return(res) => res,
                    _ => handled(outcome),
                }
            },
        }
    }
}

impl PavingMachine {
    /// The machine is waiting for `event`, and the event is one on which the
    /// tool does not fail: the target tile has coordinates, and a known map
    /// holds that tile.
    pub open spec fn accepts(self, event: PavingEvent) -> bool {
        match (self.phase, event) {
            (PavingPhase::AwaitLocation, PavingEvent::Located) => true,
            (PavingPhase::AwaitBackpack, PavingEvent::Backpack { .. }) => true,
            (PavingPhase::AwaitBounds, PavingEvent::Bounds { .. }) => true,
            (PavingPhase::AwaitSurroundings, PavingEvent::Surroundings { row, col, map }) => {
                &&& neighbour_fits(row, col, self.direction)
                &&& (map matches Some(m) ==> {
                    let (r, c) = neighbour(row as int, col as int, self.direction);
                    known_at(m, r, c)
                })
            },
            (PavingPhase::AwaitOutcome, PavingEvent::Outcome(_)) => true,
            _ => false,
        }
    }

    /// The machine after `event`, and the operation it asks for next.
    pub open spec fn next(self, event: PavingEvent) -> (PavingMachine, PavingAction)
        recommends
            self.accepts(event),
    {
        let finish = |res: Result<(), RpmError>|
            (PavingMachine { phase: PavingPhase::Finished, ..self }, PavingAction::Return(res));
        match (self.phase, event) {
            (PavingPhase::AwaitLocation, PavingEvent::Located) => (
                PavingMachine { phase: PavingPhase::AwaitBackpack, ..self },
                PavingAction::ReadBackpack,
            ),
            (PavingPhase::AwaitBackpack, PavingEvent::Backpack { has_rock }) => if has_rock {
                (
                    PavingMachine { phase: PavingPhase::AwaitBounds, ..self },
                    PavingAction::CheckBounds(self.direction),
                )
            } else {
                finish(Err(RpmError::NotEnoughMaterial))
            },
            (PavingPhase::AwaitBounds, PavingEvent::Bounds { within }) => if within {
                (
                    PavingMachine { phase: PavingPhase::AwaitSurroundings, ..self },
                    PavingAction::ReadSurroundings,
                )
            } else {
                finish(Err(RpmError::OutOfBounds))
            },
            (PavingPhase::AwaitSurroundings, PavingEvent::Surroundings { row, col, map }) => {
                match map {
                    None => finish(Err(RpmError::OutOfBounds)),
                    Some(m) => {
                        let (r, c) = neighbour(row as int, col as int, self.direction);
                        let a = action_for_tile(self.state, tile_at(m, r, c), self.direction);
                        match a {
                            PavingAction::Return(res) => finish(res),
                            _ => (PavingMachine { phase: PavingPhase::AwaitOutcome, ..self }, a),
                        }
                    },
                }
            },
            (PavingPhase::AwaitOutcome, PavingEvent::Outcome(o)) => finish(handled(o)),
            _ => arbitrary(),
        }
    }

    /// The actions the machine asks for while it is fed `events`, one action
    /// per event, until it has finished.
    pub open spec fn run(self, events: Seq<PavingEvent>) -> Seq<PavingAction>
        decreases events.len(),
    {
        if events.len() == 0 || self.phase == PavingPhase::Finished {
            Seq::empty()
        } else {
            let (m, a) = self.next(events[0]);
            seq![a].add(m.run(events.drop_first()))
        }
    }

    /// Whether the machine is waiting for `event` and can take it.
    pub fn accepts_event(&self, event: &PavingEvent) -> (b: bool)
        ensures
            b == self.accepts(*event),
    {
        match (self.phase, event) {
            (PavingPhase::AwaitLocation, PavingEvent::Located) => true,
            (PavingPhase::AwaitBackpack, PavingEvent::Backpack { .. }) => true,
            (PavingPhase::AwaitBounds, PavingEvent::Bounds { .. }) => true,
            (PavingPhase::AwaitSurroundings, PavingEvent::Surroundings { row, col, map }) => {
                let fits = match self.direction {
                    Direction::Up => *row >= 1,
                    Direction::Down => *row < usize::MAX,
                    Direction::Left => *col >= 1,
                    Direction::Right => *col < usize::MAX,
                };
                if !fits {
                    false
                } else {
                    match map {
                        None => true,
                        Some(m) => {
                            let (r, c) = target_cell(*row, *col, self.direction);
                            if r < m.len() && c < m[r].len() {
                                m[r][c].is_some()
                            } else {
                                false
                            }
                        },
                    }
                }
            },
            (PavingPhase::AwaitOutcome, PavingEvent::Outcome(_)) => true,
            _ => false,
        }
    }

    /// Feeds `event` to the machine and returns the operation it asks for
    /// next; once it returns `PavingAction::Return`, the run is over.
    pub fn step(&mut self, event: PavingEvent) -> (action: PavingAction)
        requires
            old(self).accepts(event),
        ensures
            (*final(self), action) == old(self).next(event),
    {
        match event {
            PavingEvent::Located => {
                self.phase = PavingPhase::AwaitBackpack;
                PavingAction::ReadBackpack
            },
            PavingEvent::Backpack { has_rock } => {
                if !has_rock {
                    self.phase = PavingPhase::Finished;
                    return PavingAction::Return(Err(RpmError::NotEnoughMaterial));
                }
                self.phase = PavingPhase::AwaitBounds;
                PavingAction::CheckBounds(self.direction)
            },
            PavingEvent::Bounds { within } => {
                if !within {
                    self.phase = PavingPhase::Finished;
                    return PavingAction::Return(Err(RpmError::OutOfBounds));
                }
                self.phase = PavingPhase::AwaitSurroundings;
                PavingAction::ReadSurroundings
            },
            PavingEvent::Surroundings { row, col, map } => {
                let (r, c) = target_cell(row, col, self.direction);
                match map {
                    None => {
                        self.phase = PavingPhase::Finished;
                        PavingAction::Return(Err(RpmError::OutOfBounds))
                    },
                    Some(m) => {
                        let tile = m[r][c].unwrap();
                        let a = match self.state {
                            State::GET_STONES => PavingAction::Destroy(self.direction),
                            State::MAKE_ROAD => match tile {
                                TileType::DeepWater => PavingAction::Put {
                                    content: Content::Rock(0),
                                    quantity: 3,
                                    direction: self.direction,
                                },
                                TileType::ShallowWater => PavingAction::Put {
                                    content: Content::Rock(0),
                                    quantity: 2,
                                    direction: self.direction,
                                },
                                TileType::Sand => PavingAction::Put {
                                    content: Content::Rock(0),
                                    quantity: 1,
                                    direction: self.direction,
                                },
                                TileType::Grass => PavingAction::Put {
                                    content: Content::Rock(0),
                                    quantity: 1,
                                    direction: self.direction,
                                },
                                TileType::Street => PavingAction::Return(
                                    Err(RpmError::CannotPlaceHere),
                                ),
                                TileType::Hill => PavingAction::Put {
                                    content: Content::Rock(0),
                                    quantity: 1,
                                    direction: self.direction,
                                },
                                TileType::Mountain => PavingAction::Put {
                                    content: Content::Nothing,
                                    quantity: 0,
                                    direction: self.direction,
                                },
                                TileType::Snow => PavingAction::Put {
                                    content: Content::Rock(0),
                                    quantity: 1,
                                    direction: self.direction,
                                },
                                TileType::Lava => PavingAction::Put {
                                    content: Content::Rock(0),
                                    quantity: 3,
                                    direction: self.direction,
                                },
                                TileType::Teleport(_) => PavingAction::Return(
                                    Err(RpmError::CannotPlaceHere),
                                ),
                                TileType::Wall => PavingAction::Return(
                                    Err(RpmError::CannotPlaceHere),
                                ),
                            },
                        };
                        match a {
                            PavingAction::Return(_) => {
                                self.phase = PavingPhase::Finished;
                            },
                            _ => {
                                self.phase = PavingPhase::AwaitOutcome;
                            },
                        }
                        a
                    },
                }
            },
            PavingEvent::Outcome(o) => {
                self.phase = PavingPhase::Finished;
                PavingAction::Return(Tool::error_handing(o))
            },
        }
    }
}

/// The coordinates of the tile next to (`row`, `col`) in direction `d`.
pub fn target_cell(row: usize, col: usize, d: Direction) -> (rc: (usize, usize))
    requires
        neighbour_fits(row, col, d),
    ensures
        (rc.0 as int, rc.1 as int) == neighbour(row as int, col as int, d),
{
    let mut r = row;
    let mut c = col;
    match d {
        Direction::Up => {
            r -= 1;
        },
        Direction::Down => {
            r += 1;
        },
        Direction::Left => {
            c -= 1;
        },
        Direction::Right => {
            c += 1;
        },
    }
    (r, c)
}

/// The reports of one run, in the order in which the machine asks for them.
pub open spec fn observed_events(
    has_rock: bool,
    within: bool,
    row: usize,
    col: usize,
    map: Option<Vec<Vec<Option<TileType>>>>,
    outcome: Result<usize, LibErrorKind>,
) -> Seq<PavingEvent> {
    seq![
        PavingEvent::Located,
        PavingEvent::Backpack { has_rock },
        PavingEvent::Bounds { within },
        PavingEvent::Surroundings { row, col, map },
        PavingEvent::Outcome(outcome),
    ]
}

/// The start of a run towards `direction`.
pub open spec fn initial_machine(direction: Direction, state: State) -> PavingMachine {
    PavingMachine { direction, state, phase: PavingPhase::AwaitLocation }
}

/// Law: a run of the machine, fed the reports of the world operations that it
/// asks for, ends with exactly the result that the road-paving tool gives for
/// those reports (`paving_outcome`); every action before the last one is a
/// world operation, and the run ends with its last action.
pub proof fn law_run_gives_paving_outcome(
    direction: Direction,
    state: State,
    has_rock: bool,
    within: bool,
    row: usize,
    col: usize,
    map: Option<Vec<Vec<Option<TileType>>>>,
    outcome: Result<usize, LibErrorKind>,
)
    requires
        has_rock && within ==> neighbour_fits(row, col, direction),
        has_rock && within ==> (map matches Some(m) ==> {
            let (r, c) = neighbour(row as int, col as int, direction);
            known_at(m, r, c)
        }),
    ensures
        ({
            let acts = initial_machine(direction, state).run(
                observed_events(has_rock, within, row, col, map, outcome),
            );
            &&& acts.len() >= 1
            &&& acts.last() == PavingAction::Return(
                paving_outcome(direction, state, has_rock, within, row, col, map, outcome),
            )
            &&& forall|i: int| 0 <= i < acts.len() - 1 ==> !(#[trigger] acts[i] is Return)
        }),
{
    let evs = observed_events(has_rock, within, row, col, map, outcome);
    let m0 = initial_machine(direction, state);
    reveal_with_fuel(PavingMachine::run, 6);
    let (m1, a1) = m0.next(evs[0]);
    let (m2, a2) = m1.next(evs[1]);
    let (m3, a3) = m2.next(evs[2]);
    let (m4, a4) = m3.next(evs[3]);
    let (m5, a5) = m4.next(evs[4]);
    assert(evs.drop_first() =~= seq![evs[1], evs[2], evs[3], evs[4]]);
    assert(evs.drop_first().drop_first() =~= seq![evs[2], evs[3], evs[4]]);
    assert(evs.drop_first().drop_first().drop_first() =~= seq![evs[3], evs[4]]);
    assert(evs.drop_first().drop_first().drop_first().drop_first() =~= seq![evs[4]]);
    assert(evs.drop_first().drop_first().drop_first().drop_first().drop_first() =~= Seq::<
        PavingEvent,
    >::empty());
}

/// Law: the machine acts on the world only towards the direction it was
/// started with; it breaks content only when gathering stones, and lays
/// material only when making road, and then exactly the content and amount
/// that the target tile's ground needs.
pub proof fn law_actions_follow_state(m: PavingMachine, event: PavingEvent)
    requires
        m.accepts(event),
    ensures
        m.next(event).0.direction == m.direction,
        m.next(event).0.state == m.state,
        m.next(event).1 matches PavingAction::CheckBounds(d) ==> d == m.direction,
        m.next(event).1 matches PavingAction::Destroy(d) ==> d == m.direction && m.state
            == State::GET_STONES,
        m.next(event).1 matches PavingAction::Put { content, quantity, direction } ==> {
            &&& direction == m.direction
            &&& m.state == State::MAKE_ROAD
            &&& event matches PavingEvent::Surroundings { row, col, map }
            &&& map matches Some(mm)
            &&& {
                let (r, c) = neighbour(row as int, col as int, m.direction);
                road_material(tile_at(mm, r, c)) == Some((content, quantity))
            }
        },
{
}

/// The cell beside (`row`, `col`) in direction `d`, spelled out: up is the
/// row above, down the row below, left the column before, right the column
/// after.
pub open spec fn beside(row: usize, col: usize, d: Direction) -> (int, int) {
    if d == Direction::Up {
        (row - 1, col as int)
    } else if d == Direction::Down {
        (row + 1, col as int)
    } else if d == Direction::Left {
        (row as int, col - 1)
    } else {
        (row as int, col + 1)
    }
}

/// Law: the machine's target tile is the cell beside the robot: the row
/// above, the row below, the column before or the column after it.
pub proof fn law_target_is_beside(row: usize, col: usize, d: Direction)
    ensures
        neighbour(row as int, col as int, d) == beside(row, col, d),
{
}

/// Law: the machine takes every event it waits for on the inputs on which
/// the tool works: any report in the other phases, and surroundings whose
/// tile beside the robot has coordinates and is known on a given map (or
/// no map at all).
pub proof fn law_accepts_ordinary_reports(m: PavingMachine, event: PavingEvent)
    requires
        match (m.phase, event) {
            (PavingPhase::AwaitLocation, PavingEvent::Located) => true,
            (PavingPhase::AwaitBackpack, PavingEvent::Backpack { .. }) => true,
            (PavingPhase::AwaitBounds, PavingEvent::Bounds { .. }) => true,
            (PavingPhase::AwaitOutcome, PavingEvent::Outcome(_)) => true,
            (PavingPhase::AwaitSurroundings, PavingEvent::Surroundings { row, col, map }) => {
                let (r, c) = beside(row, col, m.direction);
                &&& 0 <= r <= usize::MAX
                &&& 0 <= c <= usize::MAX
                &&& map matches Some(mm) ==> {
                    &&& r < mm@.len()
                    &&& c < mm@[r]@.len()
                    &&& mm@[r]@[c] is Some
                }
            },
            _ => false,
        },
    ensures
        m.accepts(event),
{
}

/// Law: before acting, the machine checks in this order that the backpack
/// holds rocks (else the run fails with "not enough material"), that the tile
/// in the machine's own direction is inside the world (else "out of
/// bounds"), and that the robot knows a map (else "out of bounds").
pub proof fn law_checks_before_acting(m: PavingMachine, event: PavingEvent)
    requires
        m.accepts(event),
    ensures
        m.phase == PavingPhase::AwaitLocation ==> m.next(event).1 == PavingAction::ReadBackpack,
        event == (PavingEvent::Backpack { has_rock: true }) ==> m.next(event).1
            == PavingAction::CheckBounds(m.direction),
        event == (PavingEvent::Backpack { has_rock: false }) ==> m.next(event).1
            == PavingAction::Return(Err(RpmError::NotEnoughMaterial)),
        event == (PavingEvent::Bounds { within: true }) ==> m.next(event).1
            == PavingAction::ReadSurroundings,
        event == (PavingEvent::Bounds { within: false }) ==> m.next(event).1
            == PavingAction::Return(Err(RpmError::OutOfBounds)),
        event matches PavingEvent::Surroundings { map: None, .. } ==> m.next(event).1
            == PavingAction::Return(Err(RpmError::OutOfBounds)),
{
}

/// Law: gathering stones breaks the content of the tile beside the robot
/// whatever its ground: on known surroundings the next action is always to
/// destroy in the machine's direction.
pub proof fn law_gathering_always_destroys(
    m: PavingMachine,
    row: usize,
    col: usize,
    map: Vec<Vec<Option<TileType>>>,
)
    requires
        m.state == State::GET_STONES,
        m.accepts(PavingEvent::Surroundings { row, col, map: Some(map) }),
    ensures
        m.next(PavingEvent::Surroundings { row, col, map: Some(map) }).1 == PavingAction::Destroy(
            m.direction,
        ),
        m.next(PavingEvent::Surroundings { row, col, map: Some(map) }).0.phase
            == PavingPhase::AwaitOutcome,
{
}

/// Law: making road lays on the tile beside the robot (the row above, the
/// row below, the column before or after it) the rocks its ground needs:
/// three on deep water and lava, two on shallow water, one on sand, grass,
/// hill and snow, an empty put on a mountain; it refuses street, teleport
/// and wall with "cannot place here".
pub proof fn law_road_needs_per_ground(
    m: PavingMachine,
    row: usize,
    col: usize,
    map: Vec<Vec<Option<TileType>>>,
)
    requires
        m.state == State::MAKE_ROAD,
        m.accepts(PavingEvent::Surroundings { row, col, map: Some(map) }),
    ensures
        ({
            let (r, c) = beside(row, col, m.direction);
            let d = m.direction;
            let a = m.next(PavingEvent::Surroundings { row, col, map: Some(map) }).1;
            let rock = |n: usize| PavingAction::Put { content: Content::Rock(0), quantity: n, direction: d };
            match map@[r]@[c].unwrap() {
                TileType::DeepWater => a == rock(3),
                TileType::ShallowWater => a == rock(2),
                TileType::Sand => a == rock(1),
                TileType::Grass => a == rock(1),
                TileType::Street => a == PavingAction::Return(Err(RpmError::CannotPlaceHere)),
                TileType::Hill => a == rock(1),
                TileType::Mountain => a == (PavingAction::Put {
                    content: Content::Nothing,
                    quantity: 0,
                    direction: d,
                }),
                TileType::Snow => a == rock(1),
                TileType::Lava => a == rock(3),
                TileType::Teleport(_) => a == PavingAction::Return(Err(RpmError::CannotPlaceHere)),
                TileType::Wall => a == PavingAction::Return(Err(RpmError::CannotPlaceHere)),
            }
        }),
{
}

/// Law: the destroy or put decides the run's result, in either state:
/// success for any count, and each error of the operation into the
/// machine's error by this table: no energy is "not enough energy", out of
/// bounds is "out of bounds", too little in the backpack or too little
/// provided is "not enough material", content not allowed is "cannot place
/// here", content to destroy first is "must destroy content first", no
/// content is "no rock here", and any other error is "undefined".
pub proof fn law_operation_decides_result(m: PavingMachine, o: Result<usize, LibErrorKind>)
    requires
        m.phase == PavingPhase::AwaitOutcome,
    ensures
        m.next(PavingEvent::Outcome(o)).1 == PavingAction::Return(
            match o {
                Ok(_) => Ok(()),
                Err(LibErrorKind::NotEnoughEnergy) => Err(RpmError::NotEnoughEnergy),
                Err(LibErrorKind::OutOfBounds) => Err(RpmError::OutOfBounds),
                Err(LibErrorKind::NotEnoughContentInBackPack) => Err(RpmError::NotEnoughMaterial),
                Err(LibErrorKind::ContentNotAllowedOnTile) => Err(RpmError::CannotPlaceHere),
                Err(LibErrorKind::MustDestroyContentFirst) => Err(RpmError::MustDestroyContentFirst),
                Err(LibErrorKind::NoContent) => Err(RpmError::NoRockHere),
                Err(LibErrorKind::NotEnoughContentProvided) => Err(RpmError::NotEnoughMaterial),
                Err(LibErrorKind::Other) => Err(RpmError::UndefinedError),
            },
        ),
        m.next(PavingEvent::Outcome(o)).0.phase == PavingPhase::Finished,
{
}

/// Law: a run reports success only right after the destroy or put reported
/// success.
pub proof fn law_success_only_after_ok(m: PavingMachine, event: PavingEvent)
    requires
        m.accepts(event),
    ensures
        m.next(event).1 == PavingAction::Return(Ok(())) ==> {
            &&& m.phase == PavingPhase::AwaitOutcome
            &&& event matches PavingEvent::Outcome(Ok(_))
        },
{
}

impl Tool {
    /// Turns what a destroy or put operation returned into the machine's
    /// result: success on any count, and each error kind into the machine's
    /// own error.
    pub fn error_handing(error: Result<usize, LibErrorKind>) -> (res: Result<(), RpmError>)
        ensures
            res == handled(error),
    {
        match error {
            Ok(_) => Ok(()),
            Err(e) => match e {
                LibErrorKind::NotEnoughEnergy => Err(RpmError::NotEnoughEnergy),
                LibErrorKind::OutOfBounds => Err(RpmError::OutOfBounds),
                LibErrorKind::NotEnoughContentInBackPack => Err(RpmError::NotEnoughMaterial),
                LibErrorKind::ContentNotAllowedOnTile => Err(RpmError::CannotPlaceHere),
                LibErrorKind::MustDestroyContentFirst => Err(RpmError::MustDestroyContentFirst),
                LibErrorKind::NoContent => Err(RpmError::NoRockHere),
                LibErrorKind::NotEnoughContentProvided => Err(RpmError::NotEnoughMaterial),
                _ => Err(RpmError::UndefinedError),
            },
        }
    }

    /// Starts a run of the road-paving machine on the tile beside the robot
    /// in `direction`: the machine, and the first operation it asks for,
    /// which is to locate the robot.
    pub fn road_paving_machine(direction: Direction, state: State) -> (res: (
        PavingMachine,
        PavingAction,
    ))
        ensures
            res.0 == (PavingMachine { direction, state, phase: PavingPhase::AwaitLocation }),
            res.1 == PavingAction::LocateRobot,
    {
        (PavingMachine { direction, state, phase: PavingPhase::AwaitLocation }, PavingAction::LocateRobot)
    }
}

} // verus!
