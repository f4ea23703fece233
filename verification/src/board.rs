use vstd::prelude::*;
use vstd::arithmetic::div_mod::{
    lemma_fundamental_div_mod, lemma_div_by_multiple, lemma_mod_multiples_basic,
    lemma_multiply_divide_lt,
};

verus! {

/// Width and height of one board tile, in pixel units.
pub const TILE_SIZE: i32 = 8;

/// Number of tile columns in the fixed maze.
pub const BOARD_WIDTH: usize = 28;

/// Number of tile rows in the fixed maze.
pub const BOARD_HEIGHT: usize = 31;

/// A discrete position on the board, in tile units.
#[derive(Clone, Copy, PartialEq, Eq, Structural, Debug)]
pub struct BoardPos {
    pub x: usize,
    pub y: usize,
}

/// A position in pixel space; `TILE_SIZE` pixel units cover one tile.
#[derive(Clone, Copy, PartialEq, Eq, Structural, Debug)]
pub struct PixelPos {
    pub x: i32,
    pub y: i32,
}

/// A maze character denotes a wall.
pub open spec fn char_is_wall(c: char) -> bool {
    c == 'X'
}

/// A maze character denotes a pellet.
pub open spec fn char_is_pellet(c: char) -> bool {
    c == '.'
}

/// A maze character denotes a power pellet.
pub open spec fn char_is_power_pellet(c: char) -> bool {
    c == 'o'
}

/// A maze character denotes a tunnel tile.
pub open spec fn char_is_tunnel(c: char) -> bool {
    c == 't'
}

/// The fixed maze layout as one row-major string, `BOARD_WIDTH` characters per
/// row and `BOARD_HEIGHT` rows: `X` is a wall, `.` a pellet, `o` a power
/// pellet, `t` a tunnel, and any other character plain open floor.
pub open spec fn spec_maze() -> Seq<char> {
    "\
        XXXXXXXXXXXXXXXXXXXXXXXXXXXX\
        X............XX............X\
        X.XXXX.XXXXX.XX.XXXXX.XXXX.X\
        XoXXXX.XXXXX.XX.XXXXX.XXXXoX\
        X.XXXX.XXXXX.XX.XXXXX.XXXX.X\
        X..........................X\
        X.XXXX.XX.XXXXXXXX.XX.XXXX.X\
        X.XXXX.XX.XXXXXXXX.XX.XXXX.X\
        X......XX....XX....XX......X\
        XXXXXX.XXXXX XX XXXXX.XXXXXX\
        XXXXXX.XXXXX XX XXXXX.XXXXXX\
        XXXXXX.XX          XX.XXXXXX\
        XXXXXX.XX XXX--XXX XX.XXXXXX\
        XXXXXX.XX X      X XX.XXXXXX\
        tttttt.   X      X   .tttttt\
        XXXXXX.XX X      X XX.XXXXXX\
        XXXXXX.XX XXXXXXXX XX.XXXXXX\
        XXXXXX.XX          XX.XXXXXX\
        XXXXXX.XX XXXXXXXX XX.XXXXXX\
        XXXXXX.XX XXXXXXXX XX.XXXXXX\
        X............XX............X\
        X.XXXX.XXXXX.XX.XXXXX.XXXX.X\
        X.XXXX.XXXXX.XX.XXXXX.XXXX.X\
        Xo..XX.......  .......XX..oX\
        XXX.XX.XX.XXXXXXXX.XX.XX.XXX\
        XXX.XX.XX.XXXXXXXX.XX.XX.XXX\
        X......XX....XX....XX......X\
        X.XXXXXXXXXX.XX.XXXXXXXXXX.X\
        X.XXXXXXXXXX.XX.XXXXXXXXXX.X\
        X..........................X\
        XXXXXXXXXXXXXXXXXXXXXXXXXXXX\
        "@
}

/// The maze string parsed by `Board::new`; its view is `spec_maze()`.
pub fn maze_def() -> (s: &'static str)
    ensures
        s@ == spec_maze(),
{
    "\
        XXXXXXXXXXXXXXXXXXXXXXXXXXXX\
        X............XX............X\
        X.XXXX.XXXXX.XX.XXXXX.XXXX.X\
        XoXXXX.XXXXX.XX.XXXXX.XXXXoX\
        X.XXXX.XXXXX.XX.XXXXX.XXXX.X\
        X..........................X\
        X.XXXX.XX.XXXXXXXX.XX.XXXX.X\
        X.XXXX.XX.XXXXXXXX.XX.XXXX.X\
        X......XX....XX....XX......X\
        XXXXXX.XXXXX XX XXXXX.XXXXXX\
        XXXXXX.XXXXX XX XXXXX.XXXXXX\
        XXXXXX.XX          XX.XXXXXX\
        XXXXXX.XX XXX--XXX XX.XXXXXX\
        XXXXXX.XX X      X XX.XXXXXX\
        tttttt.   X      X   .tttttt\
        XXXXXX.XX X      X XX.XXXXXX\
        XXXXXX.XX XXXXXXXX XX.XXXXXX\
        XXXXXX.XX          XX.XXXXXX\
        XXXXXX.XX XXXXXXXX XX.XXXXXX\
        XXXXXX.XX XXXXXXXX XX.XXXXXX\
        X............XX............X\
        X.XXXX.XXXXX.XX.XXXXX.XXXX.X\
        X.XXXX.XXXXX.XX.XXXXX.XXXX.X\
        Xo..XX.......  .......XX..oX\
        XXX.XX.XX.XXXXXXXX.XX.XX.XXX\
        XXX.XX.XX.XXXXXXXX.XX.XX.XXX\
        X......XX....XX....XX......X\
        X.XXXXXXXXXX.XX.XXXXXXXXXX.X\
        X.XXXXXXXXXX.XX.XXXXXXXXXX.X\
        X..........................X\
        XXXXXXXXXXXXXXXXXXXXXXXXXXXX\
        "
}

/// The fixed maze definition holds exactly one character per tile of the
/// `BOARD_WIDTH` by `BOARD_HEIGHT` grid.
pub proof fn lemma_maze_tile_count()
    ensures
        spec_maze().len() == BOARD_WIDTH * BOARD_HEIGHT,
{
    reveal_strlit("\
        XXXXXXXXXXXXXXXXXXXXXXXXXXXX\
        X............XX............X\
        X.XXXX.XXXXX.XX.XXXXX.XXXX.X\
        XoXXXX.XXXXX.XX.XXXXX.XXXXoX\
        X.XXXX.XXXXX.XX.XXXXX.XXXX.X\
        X..........................X\
        X.XXXX.XX.XXXXXXXX.XX.XXXX.X\
        X.XXXX.XX.XXXXXXXX.XX.XXXX.X\
        X......XX....XX....XX......X\
        XXXXXX.XXXXX XX XXXXX.XXXXXX\
        XXXXXX.XXXXX XX XXXXX.XXXXXX\
        XXXXXX.XX          XX.XXXXXX\
        XXXXXX.XX XXX--XXX XX.XXXXXX\
        XXXXXX.XX X      X XX.XXXXXX\
        tttttt.   X      X   .tttttt\
        XXXXXX.XX X      X XX.XXXXXX\
        XXXXXX.XX XXXXXXXX XX.XXXXXX\
        XXXXXX.XX          XX.XXXXXX\
        XXXXXX.XX XXXXXXXX XX.XXXXXX\
        XXXXXX.XX XXXXXXXX XX.XXXXXX\
        X............XX............X\
        X.XXXX.XXXXX.XX.XXXXX.XXXX.X\
        X.XXXX.XXXXX.XX.XXXXX.XXXX.X\
        Xo..XX.......  .......XX..oX\
        XXX.XX.XX.XXXXXXXX.XX.XX.XXX\
        XXX.XX.XX.XXXXXXXX.XX.XX.XXX\
        X......XX....XX....XX......X\
        X.XXXXXXXXXX.XX.XXXXXXXXXX.X\
        X.XXXXXXXXXX.XX.XXXXXXXXXX.X\
        X..........................X\
        XXXXXXXXXXXXXXXXXXXXXXXXXXXX\
        ");
}

/// The maze grid: four parallel per-tile boolean classifications indexed by
/// the flat row-major tile index `h` in `[0, num_tiles)`. Immutable after
/// construction; queried, never mutated.
pub struct Board {
    pub is_traversable: Vec<bool>,
    pub is_tunnel: Vec<bool>,
    pub has_pellet: Vec<bool>,
    pub has_power_pellet: Vec<bool>,
    pub width: usize,
    pub height: usize,
    pub num_tiles: usize,
}

impl Board {
    /// Tunnel, pellet and power pellet are mutually exclusive on tile `h` and
    /// each sits on traversable floor.
    pub open spec fn tile_classes_consistent(self, h: int) -> bool {
        &&& self.is_tunnel@[h] ==> self.is_traversable@[h]
        &&& self.has_pellet@[h] ==> self.is_traversable@[h]
        &&& self.has_power_pellet@[h] ==> self.is_traversable@[h]
        &&& !(self.is_tunnel@[h] && self.has_pellet@[h])
        &&& !(self.is_tunnel@[h] && self.has_power_pellet@[h])
        &&& !(self.has_pellet@[h] && self.has_power_pellet@[h])
    }

    /// Well-formed board: positive dimensions, `num_tiles` is `width * height`,
    /// every classification vector covers every tile, and the classifications
    /// are consistent on every tile.
    pub open spec fn wf(self) -> bool {
        &&& 0 < self.width
        &&& 0 < self.height
        &&& self.num_tiles == (self.width as int) * (self.height as int)
        &&& self.is_traversable@.len() == self.num_tiles
        &&& self.is_tunnel@.len() == self.num_tiles
        &&& self.has_pellet@.len() == self.num_tiles
        &&& self.has_power_pellet@.len() == self.num_tiles
        &&& forall|h: int| 0 <= h < self.num_tiles ==> self.tile_classes_consistent(h)
    }

    /// The four classifications are exactly the per-character reading of `maze`.
    pub open spec fn matches_maze(self, maze: Seq<char>) -> bool {
        &&& self.num_tiles == maze.len()
        &&& forall|h: int|
            0 <= h < maze.len() ==> {
                &&& self.is_traversable@[h] == !char_is_wall(maze[h])
                &&& self.is_tunnel@[h] == char_is_tunnel(maze[h])
                &&& self.has_pellet@[h] == char_is_pellet(maze[h])
                &&& self.has_power_pellet@[h] == char_is_power_pellet(maze[h])
            }
    }

    /// Tile `h` is a wall.
    pub open spec fn spec_tile_is_wall(self, h: int) -> bool {
        !self.is_traversable@[h]
    }

    /// Tile `h` is open floor without tunnel, pellet or power pellet.
    pub open spec fn spec_tile_is_plain_floor(self, h: int) -> bool {
        &&& self.is_traversable@[h]
        &&& !self.is_tunnel@[h]
        &&& !self.has_pellet@[h]
        &&& !self.has_power_pellet@[h]
    }

    /// Board width in pixel units.
    pub open spec fn spec_extent_x(self) -> int {
        (self.width as int) * (TILE_SIZE as int)
    }

    /// Board height in pixel units.
    pub open spec fn spec_extent_y(self) -> int {
        (self.height as int) * (TILE_SIZE as int)
    }

    /// The pixel extents stay inside `i32`, with room for one further tile step.
    pub open spec fn extent_fits(self) -> bool {
        &&& self.spec_extent_x() + TILE_SIZE <= i32::MAX
        &&& self.spec_extent_y() + TILE_SIZE <= i32::MAX
    }

    /// Board width in pixel units.
    pub fn extent_x(&self) -> (r: i32)
        requires
            self.wf(),
            self.extent_fits(),
        ensures
            r == self.spec_extent_x(),
    {
        (self.width as i32) * TILE_SIZE
    }

    /// Board height in pixel units.
    pub fn extent_y(&self) -> (r: i32)
        requires
            self.wf(),
            self.extent_fits(),
        ensures
            r == self.spec_extent_y(),
    {
        (self.height as i32) * TILE_SIZE
    }

    /// Parse a maze string into a board of the given dimensions. Fails, with
    /// `None`, exactly when a dimension is zero or the character count of the
    /// maze does not equal `width * height`.
    pub fn from_maze(maze: &str, width: usize, height: usize) -> (r: Option<Board>)
        ensures
            match r {
                Some(b) => {
                    &&& 0 < width
                    &&& 0 < height
                    &&& maze@.len() == (width as int) * (height as int)
                    &&& b.width == width
                    &&& b.height == height
                    &&& b.num_tiles == maze@.len()
                    &&& b.wf()
                    &&& b.matches_maze(maze@)
                },
                None => !(0 < width && 0 < height && maze@.len() == (width as int) * (height as int)),
            },
    {
        let n = maze.unicode_len();
        if width == 0 || height == 0 {
            return None;
        }
        if n / width != height || n % width != 0 {
            proof {
                if maze@.len() == (width as int) * (height as int) {
                    assert((width as int) * (height as int) == (height as int) * (width as int));
                    lemma_div_by_multiple(height as int, width as int);
                    lemma_mod_multiples_basic(height as int, width as int);
                    assert(false);
                }
            }
            return None;
        }
        proof {
            lemma_fundamental_div_mod(n as int, width as int);
        }
        let mut is_traversable: Vec<bool> = Vec::new();
        let mut is_tunnel: Vec<bool> = Vec::new();
        let mut has_pellet: Vec<bool> = Vec::new();
        let mut has_power_pellet: Vec<bool> = Vec::new();
        let mut i: usize = 0;
        while i < n
            invariant
                i <= n,
                n as nat == maze@.len(),
                is_traversable@.len() == i,
                is_tunnel@.len() == i,
                has_pellet@.len() == i,
                has_power_pellet@.len() == i,
                forall|j: int|
                    0 <= j < i ==> {
                        &&& is_traversable@[j] == !char_is_wall(maze@[j])
                        &&& is_tunnel@[j] == char_is_tunnel(maze@[j])
                        &&& has_pellet@[j] == char_is_pellet(maze@[j])
                        &&& has_power_pellet@[j] == char_is_power_pellet(maze@[j])
                    },
            decreases n - i,
        {
            let c = maze.get_char(i);
            is_traversable.push(c != 'X');
            is_tunnel.push(c == 't');
            has_pellet.push(c == '.');
            has_power_pellet.push(c == 'o');
            i = i + 1;
        }
        let b = Board { is_traversable, is_tunnel, has_pellet, has_power_pellet, width, height, num_tiles: n };
        proof {
            assert forall|h: int| 0 <= h < b.num_tiles implies b.tile_classes_consistent(h) by {
                assert(b.is_traversable@[h] == !char_is_wall(maze@[h]));
                assert(b.is_tunnel@[h] == char_is_tunnel(maze@[h]));
                assert(b.has_pellet@[h] == char_is_pellet(maze@[h]));
                assert(b.has_power_pellet@[h] == char_is_power_pellet(maze@[h]));
            }
        }
        Some(b)
    }

    /// Parse the fixed maze. The tile count of the fixed maze provably matches
    /// the fixed dimensions, so construction cannot fail.
    pub fn new() -> (b: Board)
        ensures
            b.wf(),
            b.extent_fits(),
            b.width == BOARD_WIDTH,
            b.height == BOARD_HEIGHT,
            b.num_tiles == BOARD_WIDTH * BOARD_HEIGHT,
            b.matches_maze(spec_maze()),
    {
        let maze = maze_def();
        proof {
            lemma_maze_tile_count();
        }
        let r = Board::from_maze(maze, BOARD_WIDTH, BOARD_HEIGHT);
        match r {
            Some(b) => b,
            None => {
                proof {
                    assert(false);
                }
                vstd::pervasive::unreached()
            },
        }
    }

    /// Board coordinates of tile `h`: column `h % width`, row `h / width`.
    pub fn get_board_pos_of_tile(&self, h: usize) -> (r: BoardPos)
        requires
            self.wf(),
            h < self.num_tiles,
        ensures
            r.x == (h as int) % (self.width as int),
            r.y == (h as int) / (self.width as int),
            r.x < self.width,
            r.y < self.height,
    {
        proof {
            lemma_multiply_divide_lt(h as int, self.width as int, self.height as int);
        }
        BoardPos { x: h % self.width, y: h / self.width }
    }

    /// Flat tile index of a board position: `y * width + x`.
    pub fn get_tile_of_board_pos(&self, board_pos: BoardPos) -> (h: usize)
        requires
            self.wf(),
            board_pos.x < self.width,
            board_pos.y < self.height,
        ensures
            h == (board_pos.y as int) * (self.width as int) + (board_pos.x as int),
            h < self.num_tiles,
    {
        proof {
            assert((board_pos.y as int) * (self.width as int) + (board_pos.x as int)
                < (self.width as int) * (self.height as int)) by (nonlinear_arith)
                requires
                    (board_pos.x as int) < (self.width as int),
                    (board_pos.y as int) < (self.height as int),
                    0 < (self.width as int),
                    0 < (self.height as int),
            ;
        }
        board_pos.y * self.width + board_pos.x
    }

    /// Pixel position of the top-left corner of tile `h`.
    pub fn get_local_pos_of_tile(&self, h: usize) -> (r: PixelPos)
        requires
            self.wf(),
            self.extent_fits(),
            h < self.num_tiles,
        ensures
            r.x == ((h as int) % (self.width as int)) * (TILE_SIZE as int),
            r.y == ((h as int) / (self.width as int)) * (TILE_SIZE as int),
    {
        let pos = self.get_board_pos_of_tile(h);
        PixelPos { x: (pos.x as i32) * TILE_SIZE, y: (pos.y as i32) * TILE_SIZE }
    }

    /// Tile `h` can be entered by the character.
    pub fn tile_is_traversable(&self, h: usize) -> (r: bool)
        requires
            self.wf(),
            h < self.num_tiles,
        ensures
            r == self.is_traversable@[h as int],
    {
        self.is_traversable[h]
    }

    /// Tile `h` is a tunnel tile.
    pub fn tile_is_tunnel(&self, h: usize) -> (r: bool)
        requires
            self.wf(),
            h < self.num_tiles,
        ensures
            r == self.is_tunnel@[h as int],
    {
        self.is_tunnel[h]
    }

    /// Tile `h` carries a pellet.
    pub fn tile_has_pellet(&self, h: usize) -> (r: bool)
        requires
            self.wf(),
            h < self.num_tiles,
        ensures
            r == self.has_pellet@[h as int],
    {
        self.has_pellet[h]
    }

    /// Tile `h` carries a power pellet.
    pub fn tile_has_power_pellet(&self, h: usize) -> (r: bool)
        requires
            self.wf(),
            h < self.num_tiles,
        ensures
            r == self.has_power_pellet@[h as int],
    {
        self.has_power_pellet[h]
    }
}

impl BoardPos {
    /// The board position containing a pixel position: floor division of each
    /// axis by `TILE_SIZE`. Callers keep pixel positions non-negative, so
    /// truncating division coincides with floor division.
    pub fn from_pixel_pos(p: PixelPos) -> (r: BoardPos)
        requires
            0 <= p.x,
            0 <= p.y,
        ensures
            r.x == (p.x as int) / (TILE_SIZE as int),
            r.y == (p.y as int) / (TILE_SIZE as int),
    {
        BoardPos { x: (p.x as usize) / (TILE_SIZE as usize), y: (p.y as usize) / (TILE_SIZE as usize) }
    }
}

/// Round trip: for every valid tile index, converting to a board position and
/// back yields the same index.
pub proof fn lemma_board_pos_round_trip(board: Board, h: int)
    requires
        board.wf(),
        0 <= h < board.num_tiles,
    ensures
        (h / (board.width as int)) * (board.width as int) + h % (board.width as int) == h,
{
    lemma_fundamental_div_mod(h, board.width as int);
}

/// Every tile has exactly one classification among wall, tunnel, pellet,
/// power pellet and plain floor, and each of the middle three implies
/// traversability.
pub proof fn lemma_tile_classification_exclusive(board: Board, h: int)
    requires
        board.wf(),
        0 <= h < board.num_tiles,
    ensures
        board.spec_tile_is_wall(h) || board.is_tunnel@[h] || board.has_pellet@[h]
            || board.has_power_pellet@[h] || board.spec_tile_is_plain_floor(h),
        board.spec_tile_is_wall(h) ==> !board.is_tunnel@[h] && !board.has_pellet@[h]
            && !board.has_power_pellet@[h] && !board.spec_tile_is_plain_floor(h),
        board.is_tunnel@[h] ==> !board.has_pellet@[h] && !board.has_power_pellet@[h]
            && !board.spec_tile_is_plain_floor(h) && board.is_traversable@[h],
        board.has_pellet@[h] ==> !board.has_power_pellet@[h]
            && !board.spec_tile_is_plain_floor(h) && board.is_traversable@[h],
        board.has_power_pellet@[h] ==> !board.spec_tile_is_plain_floor(h)
            && board.is_traversable@[h],
{
    assert(board.tile_classes_consistent(h));
}

} // verus!
