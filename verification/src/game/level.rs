//! The track: tiles on a grid of square cells, kept in a map from a flattened
//! cell index to the tile that covers the cell.

use crate::fixed::{narrow, saturate};
use crate::math::Point;
use crate::game::grid::{grid_get, grid_insert, grid_new, grid_tiles};
use ahash::AHashMap;
use vstd::prelude::*;

verus! {

/// The edge of a cell.
pub const TILE_SIZE: i64 = 24_000_000;

/// The number of columns of the map; also the stride of the flattened index.
pub const MAP_WIDTH: usize = 500;

/// The number of rows of the map.
pub const MAP_HEIGHT: usize = 250;

/// How far from the top left corner of its starting cell, along each axis, a
/// vehicle is put at the start of a race: 4.0, a sixth of the edge of a cell.
pub const SPAWN_INSET: i64 = 4_000_000;

/// The number of columns of the tile atlas.
pub const ATLAS_COLUMNS: usize = 5;

/// The number of rows of the tile atlas.
pub const ATLAS_ROWS: usize = 3;

#[derive(Clone)]
pub struct Levels {
    pub levels: Vec<LevelConfig>,
}

/// A level as its author wrote it down.
#[derive(Clone, Debug)]
pub struct LevelConfig {
    pub name: String,
    pub background_path: String,
    pub tiles_texture_path: String,
    pub music_path: String,
    pub starting_position: [usize; 2],
    pub tiles: Vec<Tile>,
}

/// One cell of the track: where it is (column, row), what it shows, and how
/// it is turned.
#[derive(Debug, Clone, Copy, PartialEq)]
pub struct Tile {
    pub position: [usize; 2],
    pub tile_type: TileType,
    pub rotation: Rotation,
}

#[derive(Debug, Clone, Copy, PartialEq, Eq, Structural)]
pub enum TileType {
    StartingLine,
    Base1,
    Base2,
    Base3,
    Base4,
    Base5,
    Base6,
    HardTurnInterior,
    HardTurnExterior,
    SoftTurnInterior,
    SoftTurnInterior2,
    SoftTurnExterior,
    SoftTurnExterior2,
    StraightBorder,
    DiagBorder,
}

/// A turn of a tile by a multiple of a quarter turn.
#[derive(Clone, Copy, Debug, PartialEq, Eq, Structural)]
pub enum Rotation {
    PiSur2,
    Pi,
    PiFois3Sur2,
    PiFois2,
}

/// What a check of a level's tiles can find.
#[derive(Clone, Copy, Debug, PartialEq, Eq, Structural)]
pub enum LevelError {
    /// The starting cell lies outside the map.
    StartOutsideMap,
    /// The tile at this place of the list lies outside the map.
    TileOutsideMap { tile: usize },
    /// The tiles at these two places of the list have one flattened index, so
    /// the second replaces the first on the track.
    Aliased { first: usize, second: usize },
}

/// A level ready to be driven on.
pub struct Level {
    pub name: String,
    pub starting_position: [usize; 2],
    pub tiles: AHashMap<usize, Tile>,
}

/// Whether the cell `(col, row)` lies on the map.
pub open spec fn in_map(col: int, row: int) -> bool {
    0 <= col < MAP_WIDTH && 0 <= row < MAP_HEIGHT
}

/// The flattened index of the cell `(col, row)`.
pub open spec fn flat_index(col: int, row: int) -> int {
    col * MAP_WIDTH + row % (MAP_WIDTH as int)
}

/// The corner of the cell `(col, row)` that lies `dx` cells to the right of
/// and `dy` cells below its top left corner.
pub open spec fn cell_corner(col: int, row: int, dx: int, dy: int) -> Point {
    Point {
        x: saturate((col + dx) * TILE_SIZE) as i64,
        y: saturate((row + dy) * TILE_SIZE) as i64,
    }
}

/// Where a vehicle that starts in the cell `(col, row)` is put: the top left
/// corner of the cell, moved into the cell by [`SPAWN_INSET`] along each
/// axis. In the cell `(2, 2)` that is the point `(52.0, 52.0)`.
pub open spec fn cell_spawn(col: int, row: int) -> Point {
    Point {
        x: saturate(col * TILE_SIZE + SPAWN_INSET) as i64,
        y: saturate(row * TILE_SIZE + SPAWN_INSET) as i64,
    }
}

/// Whether the point lies on the map.
pub open spec fn in_world(p: Point) -> bool {
    0 <= p.x < MAP_WIDTH * TILE_SIZE && 0 <= p.y < MAP_HEIGHT * TILE_SIZE
}

/// The track that a list of tiles makes: each tile is stored under the
/// flattened index of its position, and a later tile replaces an earlier one
/// with the same index.
pub open spec fn grid_of(tiles: Seq<Tile>) -> Map<usize, Tile>
    decreases tiles.len(),
{
    if tiles.len() == 0 {
        Map::empty()
    } else {
        let tile = tiles.last();
        grid_of(tiles.drop_last()).insert(
            flat_index(tile.position[0] as int, tile.position[1] as int) as usize,
            tile,
        )
    }
}

/// The tile atlas as it is drawn: three rows of five tiles.
pub open spec fn atlas_layout() -> Seq<Seq<TileType>> {
    seq![
        seq![
            TileType::StartingLine,
            TileType::HardTurnInterior,
            TileType::SoftTurnInterior,
            TileType::SoftTurnExterior,
            TileType::StraightBorder,
        ],
        seq![
            TileType::Base1,
            TileType::HardTurnExterior,
            TileType::SoftTurnInterior2,
            TileType::SoftTurnExterior2,
            TileType::DiagBorder,
        ],
        seq![
            TileType::Base2,
            TileType::Base3,
            TileType::Base4,
            TileType::Base5,
            TileType::Base6,
        ],
    ]
}

/// A count of cells, times the edge of a cell, fits in 128 bits with room to spare.
proof fn lemma_cell_extent(cells: int)
    by (nonlinear_arith)
    requires
        0 <= cells <= 0x1_0000_0000_0000_0100,
    ensures
        0 <= cells * TILE_SIZE <= 0x1_0000_0000_0000_0100 * 24_000_000,
{
}

/// Flattens a cell position to the index under which the track stores it.
///
/// The index must fit in a `usize`; every position on the map does.
#[inline]
pub fn tile_position_flatten(pos: [usize; 2]) -> (index: usize)
    requires
        flat_index(pos[0] as int, pos[1] as int) <= usize::MAX,
    ensures
        index == flat_index(pos[0] as int, pos[1] as int),
{
    pos[0] * MAP_WIDTH + pos[1] % MAP_WIDTH
}

/// The world position of a corner of a cell; `dx` and `dy` are 0 or 1.
pub fn corner_of_cell(cell: [usize; 2], dx: u8, dy: u8) -> (p: Point)
    ensures
        p == cell_corner(cell[0] as int, cell[1] as int, dx as int, dy as int),
{
    let col: i128 = cell[0] as i128 + dx as i128;
    let row: i128 = cell[1] as i128 + dy as i128;
    proof {
        lemma_cell_extent(col as int);
        lemma_cell_extent(row as int);
    }
    Point { x: narrow(col * (TILE_SIZE as i128)), y: narrow(row * (TILE_SIZE as i128)) }
}

/// The world position at which a vehicle that starts in a cell is put.
pub fn spawn_in_cell(cell: [usize; 2]) -> (p: Point)
    ensures
        p == cell_spawn(cell[0] as int, cell[1] as int),
{
    let inset: i128 = SPAWN_INSET as i128;
    proof {
        lemma_cell_extent(cell[0] as int);
        lemma_cell_extent(cell[1] as int);
    }
    let x: i128 = (cell[0] as i128) * (TILE_SIZE as i128) + inset;
    let y: i128 = (cell[1] as i128) * (TILE_SIZE as i128) + inset;
    Point { x: narrow(x), y: narrow(y) }
}

/// The cell that holds a point: each coordinate divided by the edge of a
/// cell. A point off the map is in no cell.
pub fn cell_of(p: Point) -> (cell: Option<[usize; 2]>)
    ensures
        cell is Some <==> in_world(p),
        cell matches Some(c) ==> c[0] == p.x / TILE_SIZE && c[1] == p.y / TILE_SIZE && in_map(
            c[0] as int,
            c[1] as int,
        ),
{
    if p.x < 0 || p.y < 0 {
        return None;
    }
    let col: i64 = p.x / TILE_SIZE;
    let row: i64 = p.y / TILE_SIZE;
    if col >= MAP_WIDTH as i64 || row >= MAP_HEIGHT as i64 {
        return None;
    }
    Some([col as usize, row as usize])
}

impl Rotation {
    /// The number of quarter turns: 0 to 3.
    pub open spec fn spec_ordinal(self) -> usize {
        match self {
            Rotation::PiFois2 => 0,
            Rotation::PiSur2 => 1,
            Rotation::Pi => 2,
            Rotation::PiFois3Sur2 => 3,
        }
    }

    /// The number of quarter turns: 0 to 3.
    #[verifier::when_used_as_spec(spec_ordinal)]
    pub fn ordinal(self) -> (n: usize)
        ensures
            n == self.spec_ordinal(),
            n < 4,
    {
        match self {
            Rotation::PiFois2 => 0,
            Rotation::PiSur2 => 1,
            Rotation::Pi => 2,
            Rotation::PiFois3Sur2 => 3,
        }
    }
}

impl TileType {
    /// The column and the row of this kind of tile in the atlas.
    pub fn atlas_cell(self) -> (cell: (usize, usize))
        ensures
            cell.0 < ATLAS_COLUMNS,
            cell.1 < ATLAS_ROWS,
            atlas_layout()[cell.1 as int][cell.0 as int] == self,
    {
        match self {
            TileType::StartingLine => (0, 0),
            TileType::HardTurnInterior => (1, 0),
            TileType::SoftTurnInterior => (2, 0),
            TileType::SoftTurnExterior => (3, 0),
            TileType::StraightBorder => (4, 0),
            TileType::Base1 => (0, 1),
            TileType::HardTurnExterior => (1, 1),
            TileType::SoftTurnInterior2 => (2, 1),
            TileType::SoftTurnExterior2 => (3, 1),
            TileType::DiagBorder => (4, 1),
            TileType::Base2 => (0, 2),
            TileType::Base3 => (1, 2),
            TileType::Base4 => (2, 2),
            TileType::Base5 => (3, 2),
            TileType::Base6 => (4, 2),
        }
    }

    /// The top left corner, in the atlas texture, of the picture of this kind
    /// of tile.
    pub fn mapatlas_source(self) -> (source: (i64, i64))
        ensures
            exists|col: int, row: int|
                0 <= col < ATLAS_COLUMNS && 0 <= row < ATLAS_ROWS
                    && #[trigger] atlas_layout()[row][col] == self
                    && source.0 == col * TILE_SIZE && source.1 == row * TILE_SIZE,
    {
        let (col, row) = self.atlas_cell();
        (col as i64 * TILE_SIZE, row as i64 * TILE_SIZE)
    }
}

impl Tile {
    pub fn new(position: [usize; 2], tile_type: TileType, rotation: Rotation) -> (tile: Tile)
        ensures
            tile == (Tile { position, tile_type, rotation }),
    {
        Tile { position, tile_type, rotation }
    }

    /// Whether the tile lies on the map.
    pub open spec fn on_map(self) -> bool {
        in_map(self.position[0] as int, self.position[1] as int)
    }

    /// The flattened index of the tile's position.
    pub open spec fn index(self) -> int {
        flat_index(self.position[0] as int, self.position[1] as int)
    }

    /// Whether the tile lies on the map.
    pub fn is_on_map(&self) -> (b: bool)
        ensures
            b == self.on_map(),
    {
        self.position[0] < MAP_WIDTH && self.position[1] < MAP_HEIGHT
    }
}

/// The tile that a track holds for the cell `(col, row)`. A cell off the map
/// has no tile.
pub open spec fn tile_at(grid: Map<usize, Tile>, col: int, row: int) -> Option<Tile> {
    if in_map(col, row) && grid.dom().contains(flat_index(col, row) as usize) {
        Some(grid[flat_index(col, row) as usize])
    } else {
        None
    }
}

/// Looks a cell up on a track.
pub fn lookup(tiles: &AHashMap<usize, Tile>, cell: [usize; 2]) -> (found: Option<Tile>)
    ensures
        found == tile_at(grid_tiles(*tiles), cell[0] as int, cell[1] as int),
{
    if cell[0] < MAP_WIDTH && cell[1] < MAP_HEIGHT {
        grid_get(tiles, tile_position_flatten(cell))
    } else {
        None
    }
}

impl LevelConfig {
    /// Whether the flattened index of every tile fits in a `usize`.
    pub open spec fn indexable(&self) -> bool {
        forall|i: int| 0 <= i < self.tiles.len() ==> (#[trigger] self.tiles[i]).index() <= usize::MAX
    }

    /// Whether the starting cell and every tile lie on the map and no two
    /// tiles have the same flattened index.
    pub open spec fn valid(&self) -> bool {
        &&& in_map(self.starting_position[0] as int, self.starting_position[1] as int)
        &&& forall|i: int| 0 <= i < self.tiles.len() ==> (#[trigger] self.tiles[i]).on_map()
        &&& forall|i: int, j: int|
            0 <= i < j < self.tiles.len() ==> (#[trigger] self.tiles[i]).index() != (
            #[trigger] self.tiles[j]).index()
    }

    /// Whether the flattened index of every tile fits in a `usize`.
    pub fn is_indexable(&self) -> (b: bool)
        ensures
            b == self.indexable(),
    {
        let mut i: usize = 0;
        while i < self.tiles.len()
            invariant
                i <= self.tiles.len(),
                forall|j: int| 0 <= j < i ==> (#[trigger] self.tiles[j]).index() <= usize::MAX,
            decreases self.tiles.len() - i,
        {
            let pos = self.tiles[i].position;
            let fits = match pos[0].checked_mul(MAP_WIDTH) {
                Some(base) => base.checked_add(pos[1] % MAP_WIDTH).is_some(),
                None => false,
            };
            if !fits {
                return false;
            }
            i += 1;
        }
        true
    }

    /// Checks the level: the starting cell and every tile must lie on the
    /// map, and no two tiles may share a flattened index.
    ///
    /// Reports the first tile off the map, or else the first tile that
    /// replaces an earlier one together with the earliest tile it replaces.
    pub fn validate(&self) -> (r: Result<(), LevelError>)
        ensures
            match r {
                Ok(_) => self.valid(),
                Err(LevelError::StartOutsideMap) => !in_map(
                    self.starting_position[0] as int,
                    self.starting_position[1] as int,
                ),
                Err(LevelError::TileOutsideMap { tile }) => {
                    &&& in_map(self.starting_position[0] as int, self.starting_position[1] as int)
                    &&& tile < self.tiles.len()
                    &&& !self.tiles[tile as int].on_map()
                    &&& forall|i: int| 0 <= i < tile ==> (#[trigger] self.tiles[i]).on_map()
                },
                Err(LevelError::Aliased { first, second }) => {
                    &&& in_map(self.starting_position[0] as int, self.starting_position[1] as int)
                    &&& forall|i: int| 0 <= i < self.tiles.len() ==> (#[trigger] self.tiles[i]).on_map()
                    &&& first < second < self.tiles.len()
                    &&& self.tiles[first as int].index() == self.tiles[second as int].index()
                    &&& forall|i: int|
                        0 <= i < first ==> (#[trigger] self.tiles[i]).index()
                            != self.tiles[second as int].index()
                    &&& forall|i: int, j: int|
                        0 <= i < j < second ==> (#[trigger] self.tiles[i]).index() != (
                        #[trigger] self.tiles[j]).index()
                },
            },
    {
        if !(self.starting_position[0] < MAP_WIDTH && self.starting_position[1] < MAP_HEIGHT) {
            return Err(LevelError::StartOutsideMap);
        }
        let n = self.tiles.len();
        let mut k: usize = 0;
        while k < n
            invariant
                in_map(self.starting_position[0] as int, self.starting_position[1] as int),
                n == self.tiles.len(),
                k <= n,
                forall|i: int| 0 <= i < k ==> (#[trigger] self.tiles[i]).on_map(),
            decreases n - k,
        {
            if !self.tiles[k].is_on_map() {
                return Err(LevelError::TileOutsideMap { tile: k });
            }
            k += 1;
        }
        let mut second: usize = 0;
        while second < n
            invariant
                in_map(self.starting_position[0] as int, self.starting_position[1] as int),
                n == self.tiles.len(),
                second <= n,
                forall|i: int| 0 <= i < n ==> (#[trigger] self.tiles[i]).on_map(),
                forall|i: int, j: int|
                    0 <= i < j < second ==> (#[trigger] self.tiles[i]).index() != (
                    #[trigger] self.tiles[j]).index(),
            decreases n - second,
        {
            let index = tile_position_flatten(self.tiles[second].position);
            let mut first: usize = 0;
            while first < second
                invariant
                    in_map(self.starting_position[0] as int, self.starting_position[1] as int),
                    n == self.tiles.len(),
                    first <= second < n,
                    forall|i: int, j: int|
                        0 <= i < j < second ==> (#[trigger] self.tiles[i]).index() != (
                        #[trigger] self.tiles[j]).index(),
                    index == self.tiles[second as int].index(),
                    forall|i: int| 0 <= i < n ==> (#[trigger] self.tiles[i]).on_map(),
                    forall|i: int| 0 <= i < first ==> (#[trigger] self.tiles[i]).index() != index,
                decreases second - first,
            {
                if tile_position_flatten(self.tiles[first].position) == index {
                    return Err(LevelError::Aliased { first, second });
                }
                first += 1;
            }
            second += 1;
        }
        Ok(())
    }

    /// A level that passes the check can be loaded.
    pub proof fn lemma_valid_is_indexable(&self)
        requires
            self.valid(),
        ensures
            self.indexable(),
    {
    }
}

impl Level {
    /// Builds the track of a level from its list of tiles, in the order of
    /// the list: a later tile replaces an earlier one with the same flattened
    /// index.
    pub fn load(conf: &LevelConfig) -> (level: Level)
        requires
            conf.indexable(),
        ensures
            level.name@ == conf.name@,
            level.starting_position == conf.starting_position,
            grid_tiles(level.tiles) == grid_of(conf.tiles@),
    {
        let mut tiles = grid_new();
        let mut i: usize = 0;
        while i < conf.tiles.len()
            invariant
                i <= conf.tiles.len(),
                conf.indexable(),
                grid_tiles(tiles) == grid_of(conf.tiles@.take(i as int)),
            decreases conf.tiles.len() - i,
        {
            let tile = conf.tiles[i];
            grid_insert(&mut tiles, tile_position_flatten(tile.position), tile);
            assert(conf.tiles@.take(i + 1).drop_last() =~= conf.tiles@.take(i as int));
            i += 1;
        }
        assert(conf.tiles@.take(i as int) =~= conf.tiles@);
        Level { name: conf.name.clone(), starting_position: conf.starting_position, tiles }
    }

    /// The tile that covers a cell, if the track has one there.
    pub fn lookup(&self, cell: [usize; 2]) -> (found: Option<Tile>)
        ensures
            found == tile_at(grid_tiles(self.tiles), cell[0] as int, cell[1] as int),
    {
        lookup(&self.tiles, cell)
    }
}

/// Two cells whose rows are below the width of the map have the same
/// flattened index only if they are the same cell. On the map, flattening
/// loses nothing.
pub proof fn lemma_flatten_injective(col1: int, row1: int, col2: int, row2: int)
    requires
        0 <= row1 < MAP_WIDTH,
        0 <= row2 < MAP_WIDTH,
        flat_index(col1, row1) == flat_index(col2, row2),
    ensures
        col1 == col2,
        row1 == row2,
{
}

/// A cell whose row is at or beyond the width of the map has the flattened
/// index of the cell that lies one map width of rows above it.
pub proof fn lemma_flatten_aliases(col: int, row: int)
    requires
        row >= MAP_WIDTH,
    ensures
        flat_index(col, row) == flat_index(col, row - MAP_WIDTH),
{
}

/// Every cell of the map has an index that fits in a `usize`.
pub proof fn lemma_map_is_indexable(col: int, row: int)
    requires
        in_map(col, row),
    ensures
        0 <= flat_index(col, row) < MAP_WIDTH * MAP_WIDTH,
        flat_index(col, row) == col * MAP_WIDTH + row,
{
}

/// The last tile wins: an index is on the track exactly if some tile of the
/// list has it, and the track then holds the last such tile.
pub proof fn lemma_grid_last_wins(tiles: Seq<Tile>, index: usize)
    ensures
        grid_of(tiles).dom().contains(index) <==> exists|i: int|
            0 <= i < tiles.len() && (#[trigger] tiles[i]).index() as usize == index,
        grid_of(tiles).dom().contains(index) ==> exists|i: int|
            {
                &&& 0 <= i < tiles.len()
                &&& grid_of(tiles)[index] == #[trigger] tiles[i]
                &&& tiles[i].index() as usize == index
                &&& forall|j: int| i < j < tiles.len() ==> (#[trigger] tiles[j]).index() as usize != index
            },
    decreases tiles.len(),
{
    if tiles.len() > 0 {
        let rest = tiles.drop_last();
        lemma_grid_last_wins(rest, index);
        assert(forall|i: int| 0 <= i < rest.len() ==> rest[i] == tiles[i]);
        if tiles.last().index() as usize != index && grid_of(rest).dom().contains(index) {
            let i = choose|i: int|
                {
                    &&& 0 <= i < rest.len()
                    &&& grid_of(rest)[index] == #[trigger] rest[i]
                    &&& rest[i].index() as usize == index
                    &&& forall|j: int|
                        i < j < rest.len() ==> (#[trigger] rest[j]).index() as usize != index
                };
            assert(forall|j: int|
                i < j < tiles.len() ==> (#[trigger] tiles[j]).index() as usize != index);
        }
    }
}

/// On the track of a level that passes the check, every tile of the list is
/// found in its own cell.
pub proof fn lemma_valid_level_finds_every_tile(conf: LevelConfig, i: int)
    requires
        conf.valid(),
        0 <= i < conf.tiles.len(),
    ensures
        tile_at(
            grid_of(conf.tiles@),
            conf.tiles[i].position[0] as int,
            conf.tiles[i].position[1] as int,
        ) == Some(conf.tiles[i]),
{
    let tiles = conf.tiles@;
    let tile = tiles[i];
    let index = tile.index() as usize;
    lemma_grid_last_wins(tiles, index);
}

/// On the track of a level that passes the check, the tile found for a cell
/// is a tile of the list, and it lies in that cell.
pub proof fn lemma_valid_level_tiles_are_in_place(conf: LevelConfig, col: int, row: int)
    requires
        conf.valid(),
        tile_at(grid_of(conf.tiles@), col, row) is Some,
    ensures
        conf.tiles@.contains(tile_at(grid_of(conf.tiles@), col, row)->0),
        tile_at(grid_of(conf.tiles@), col, row)->0.position[0] == col,
        tile_at(grid_of(conf.tiles@), col, row)->0.position[1] == row,
{
    let tiles = conf.tiles@;
    let index = flat_index(col, row) as usize;
    lemma_grid_last_wins(tiles, index);
    let k = choose|k: int|
        {
            &&& 0 <= k < tiles.len()
            &&& grid_of(tiles)[index] == #[trigger] tiles[k]
            &&& tiles[k].index() as usize == index
            &&& forall|j: int| k < j < tiles.len() ==> (#[trigger] tiles[j]).index() as usize != index
        };
    lemma_flatten_injective(col, row, tiles[k].position[0] as int, tiles[k].position[1] as int);
}

/// The atlas shows each kind of tile once: two places of the atlas that show
/// the same kind are the same place.
pub proof fn lemma_atlas_shows_each_kind_once(col1: int, row1: int, col2: int, row2: int)
    requires
        0 <= col1 < ATLAS_COLUMNS,
        0 <= row1 < ATLAS_ROWS,
        0 <= col2 < ATLAS_COLUMNS,
        0 <= row2 < ATLAS_ROWS,
        atlas_layout()[row1][col1] == atlas_layout()[row2][col2],
    ensures
        col1 == col2,
        row1 == row2,
{
}

/// A vehicle that starts in a cell of the map is put inside that cell, and in
/// the cell `(2, 2)` at the point `(52.0, 52.0)`.
pub proof fn lemma_spawn_is_in_its_cell(col: int, row: int)
    requires
        in_map(col, row),
    ensures
        in_world(cell_spawn(col, row)),
        cell_spawn(col, row).x / TILE_SIZE == col,
        cell_spawn(col, row).y / TILE_SIZE == row,
        cell_spawn(col, row).x == col * TILE_SIZE + SPAWN_INSET,
        cell_spawn(col, row).y == row * TILE_SIZE + SPAWN_INSET,
        cell_spawn(2, 2) == (Point { x: 52_000_000, y: 52_000_000 }),
{
}

} // verus!
