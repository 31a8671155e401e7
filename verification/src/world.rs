//! The robot world as the tools see it: directions, tile types, tile contents,
//! the kinds of error a world operation can report, and the generator of the
//! small test world.
use vstd::prelude::*;

verus! {

/// A direction in which the robot looks or acts.
#[derive(Clone, Copy, Debug, PartialEq, Eq, Structural)]
pub enum Direction {
    Up,
    Down,
    Left,
    Right,
}

/// The ground of a tile.
#[derive(Clone, Copy, Debug, PartialEq, Eq, Structural)]
pub enum TileType {
    DeepWater,
    ShallowWater,
    Sand,
    Grass,
    Street,
    Hill,
    Mountain,
    Snow,
    Lava,
    Teleport(bool),
    Wall,
}

/// What lies on a tile, or what the robot places on one.
/// The variants with two numbers hold a half-open range `start..end`.
#[derive(Clone, Copy, Debug, PartialEq, Eq, Structural)]
pub enum Content {
    Rock(usize),
    Tree(usize),
    Garbage(usize),
    Fire,
    Coin(usize),
    Bin(usize, usize),
    Crate(usize, usize),
    Bank(usize, usize),
    Water(usize),
    Nothing,
    Fish(usize),
    Market(usize),
    Building,
    Bush(usize),
    JollyBlock(usize),
    Scarecrow,
}

/// A tile of the world: its ground, what lies on it, and its height.
#[derive(Clone, Copy, Debug, PartialEq, Eq, Structural)]
pub struct Tile {
    pub tile_type: TileType,
    pub content: Content,
    pub elevation: usize,
}

/// The kind of error that a world operation (destroy, put, a bounds check)
/// reports. `Other` stands for every kind that the tools do not tell apart.
#[derive(Clone, Copy, Debug, PartialEq, Eq, Structural)]
pub enum LibErrorKind {
    NotEnoughEnergy,
    OutOfBounds,
    NotEnoughContentInBackPack,
    ContentNotAllowedOnTile,
    MustDestroyContentFirst,
    NoContent,
    NotEnoughContentProvided,
    Other,
}

/// The tile type that the generator's draw `i` stands for.
pub open spec fn tile_type_of_index(i: usize) -> TileType {
    if i == 0 {
        TileType::DeepWater
    } else if i == 1 {
        TileType::ShallowWater
    } else if i == 2 {
        TileType::Sand
    } else if i == 3 {
        TileType::Grass
    } else if i == 4 {
        TileType::Street
    } else if i == 5 {
        TileType::Hill
    } else if i == 6 {
        TileType::Mountain
    } else if i == 7 {
        TileType::Snow
    } else if i == 8 {
        TileType::Lava
    } else if i == 9 {
        TileType::Teleport(false)
    } else {
        TileType::Grass
    }
}

/// Turns a random draw into a tile type; draws past the table give grass.
pub fn tile_type_from_index(i: usize) -> (t: TileType)
    ensures
        t == tile_type_of_index(i),
{
    match i {
        0 => TileType::DeepWater,
        1 => TileType::ShallowWater,
        2 => TileType::Sand,
        3 => TileType::Grass,
        4 => TileType::Street,
        5 => TileType::Hill,
        6 => TileType::Mountain,
        7 => TileType::Snow,
        8 => TileType::Lava,
        9 => TileType::Teleport(false),
        _ => TileType::Grass,
    }
}

/// The content that the generator's draw `i` stands for.
pub open spec fn content_of_index(i: usize) -> Content {
    if i == 0 {
        Content::Rock(0)
    } else if i == 1 {
        Content::Tree(2)
    } else if i == 2 {
        Content::Garbage(2)
    } else if i == 3 {
        Content::Fire
    } else if i == 4 {
        Content::Coin(2)
    } else if i == 5 {
        Content::Bin(2, 3)
    } else if i == 6 {
        Content::Crate(2, 3)
    } else if i == 7 {
        Content::Bank(3, 54)
    } else if i == 8 {
        Content::Water(20)
    } else if i == 9 {
        Content::Nothing
    } else if i == 10 {
        Content::Fish(3)
    } else if i == 11 {
        Content::Market(20)
    } else if i == 12 {
        Content::Building
    } else if i == 13 {
        Content::Bush(2)
    } else if i == 14 {
        Content::JollyBlock(2)
    } else if i == 15 {
        Content::Scarecrow
    } else {
        Content::Nothing
    }
}

/// Turns a random draw into a content; draws past the table give no content.
pub fn content_from_index(i: usize) -> (c: Content)
    ensures
        c == content_of_index(i),
{
    match i {
        0 => Content::Rock(0),
        1 => Content::Tree(2),
        2 => Content::Garbage(2),
        3 => Content::Fire,
        4 => Content::Coin(2),
        5 => Content::Bin(2, 3),
        6 => Content::Crate(2, 3),
        7 => Content::Bank(3, 54),
        8 => Content::Water(20),
        9 => Content::Nothing,
        10 => Content::Fish(3),
        11 => Content::Market(20),
        12 => Content::Building,
        13 => Content::Bush(2),
        14 => Content::JollyBlock(2),
        15 => Content::Scarecrow,
        _ => Content::Nothing,
    }
}

/// Builds the square test world: `size` by `size` tiles.
pub struct WorldGenerator {
    size: usize,
}

/// Cell (`row`, `col`) of the generated world: a column of lava at
/// column 1, grass everywhere else; no content and elevation 0 everywhere.
pub open spec fn generated_tile(row: int, col: int) -> Tile {
    Tile {
        tile_type: if col == 1 {
            TileType::Lava
        } else {
            TileType::Grass
        },
        content: Content::Nothing,
        elevation: 0,
    }
}

/// Law: the generator's draws: 0 to 9 give, in order, deep water, shallow
/// water, sand, grass, street, hill, mountain, snow, lava and an inactive
/// teleport; every later draw gives grass, so a wall is never drawn.
pub proof fn law_tile_type_draws(i: usize)
    ensures
        i == 0 ==> tile_type_of_index(i) == TileType::DeepWater,
        i == 1 ==> tile_type_of_index(i) == TileType::ShallowWater,
        i == 2 ==> tile_type_of_index(i) == TileType::Sand,
        i == 3 ==> tile_type_of_index(i) == TileType::Grass,
        i == 4 ==> tile_type_of_index(i) == TileType::Street,
        i == 5 ==> tile_type_of_index(i) == TileType::Hill,
        i == 6 ==> tile_type_of_index(i) == TileType::Mountain,
        i == 7 ==> tile_type_of_index(i) == TileType::Snow,
        i == 8 ==> tile_type_of_index(i) == TileType::Lava,
        i == 9 ==> tile_type_of_index(i) == TileType::Teleport(false),
        i >= 10 ==> tile_type_of_index(i) == TileType::Grass,
        tile_type_of_index(i) != TileType::Wall,
{
}

/// Law: the generator's content draws: 0 to 15 give, in order, a rock of
/// size 0, a tree of 2, garbage of 2, fire, a coin of 2, a bin and a crate
/// of range 2..3, a bank of range 3..54, water of 20, nothing, fish of 3, a
/// market of 20, a building, a bush of 2, a jolly block of 2 and a
/// scarecrow; every later draw gives nothing.
pub proof fn law_content_draws(i: usize)
    ensures
        i == 0 ==> content_of_index(i) == Content::Rock(0),
        i == 1 ==> content_of_index(i) == Content::Tree(2),
        i == 2 ==> content_of_index(i) == Content::Garbage(2),
        i == 3 ==> content_of_index(i) == Content::Fire,
        i == 4 ==> content_of_index(i) == Content::Coin(2),
        i == 5 ==> content_of_index(i) == Content::Bin(2, 3),
        i == 6 ==> content_of_index(i) == Content::Crate(2, 3),
        i == 7 ==> content_of_index(i) == Content::Bank(3, 54),
        i == 8 ==> content_of_index(i) == Content::Water(20),
        i == 9 ==> content_of_index(i) == Content::Nothing,
        i == 10 ==> content_of_index(i) == Content::Fish(3),
        i == 11 ==> content_of_index(i) == Content::Market(20),
        i == 12 ==> content_of_index(i) == Content::Building,
        i == 13 ==> content_of_index(i) == Content::Bush(2),
        i == 14 ==> content_of_index(i) == Content::JollyBlock(2),
        i == 15 ==> content_of_index(i) == Content::Scarecrow,
        i >= 16 ==> content_of_index(i) == Content::Nothing,
{
}

/// Law: the generated world is grass with one column of lava: a cell is lava
/// exactly when it lies in column 1 and grass otherwise, and no cell has
/// content or height.
pub proof fn law_generated_world(row: int, col: int)
    ensures
        generated_tile(row, col).tile_type == TileType::Lava <==> col == 1,
        col != 1 ==> generated_tile(row, col).tile_type == TileType::Grass,
        generated_tile(row, col).content == Content::Nothing,
        generated_tile(row, col).elevation == 0,
{
}

impl WorldGenerator {
    pub closed spec fn spec_size(&self) -> usize {
        self.size
    }

    /// A generator of a `size` by `size` world.
    pub fn init(size: usize) -> (g: Self)
        ensures
            g.spec_size() == size,
    {
        WorldGenerator { size }
    }

    /// The side of the square world.
    pub fn size(&self) -> (s: usize)
        ensures
            s == self.spec_size(),
    {
        self.size
    }

    /// Every tile of the world, row by row. Every tile is grass but those
    /// of column 1, which are lava; no tile has content, and all have
    /// elevation 0. A world of side 1 has no column 1 to overwrite, which
    /// the generator does not allow.
    pub fn layout(&self) -> (map: Vec<Vec<Tile>>)
        requires
            self.spec_size() != 1,
        ensures
            map.len() == self.spec_size(),
            forall|r: int|
                0 <= r < map.len() ==> #[trigger] map[r].len() == self.spec_size(),
            forall|r: int, c: int|
                0 <= r < map.len() && 0 <= c < map[r].len() ==> #[trigger] map[r][c]
                    == generated_tile(r, c),
            forall|r: int, c: int|
                0 <= r < map.len() && 0 <= c < map[r].len() ==> {
                    &&& (#[trigger] map[r][c]).tile_type == TileType::Lava <==> c == 1
                    &&& c != 1 ==> map[r][c].tile_type == TileType::Grass
                    &&& map[r][c].content == Content::Nothing
                    &&& map[r][c].elevation == 0
                },
    {
        let size = self.size;
        let mut map: Vec<Vec<Tile>> = Vec::new();
        let mut r: usize = 0;
        while r < size
            invariant
                r <= size,
                size != 1,
                map.len() == r,
                forall|i: int| 0 <= i < map.len() ==> #[trigger] map[i].len() == size,
                forall|i: int, c: int|
                    0 <= i < map.len() && 0 <= c < map[i].len() ==> #[trigger] map[i][c]
                        == generated_tile(i, c),
            decreases size - r,
        {
            let grass = Tile { tile_type: TileType::Grass, content: Content::Nothing, elevation: 0 };
            let lava = Tile { tile_type: TileType::Lava, content: Content::Nothing, elevation: 0 };
            let mut row: Vec<Tile> = Vec::new();
            let mut c: usize = 0;
            while c < size
                invariant
                    c <= size,
                    row.len() == c,
                    grass == generated_tile(0, 0),
                    forall|k: int| 0 <= k < row.len() ==> #[trigger] row[k] == grass,
                decreases size - c,
            {
                row.push(grass);
                c = c + 1;
            }
            row.set(1, lava);
            map.push(row);
            r = r + 1;
        }
        map
    }
}

} // verus!
