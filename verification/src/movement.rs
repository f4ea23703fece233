use vstd::prelude::*;
use vstd::arithmetic::div_mod::{
    lemma_mod_add_multiples_vanish, lemma_mod_sub_multiples_vanish, lemma_multiply_divide_lt,
};
use crate::board::{Board, BoardPos, PixelPos, TILE_SIZE};
use crate::input::GameInput;

verus! {

/// A facing direction: one axis-aligned unit step, or standing still.
#[derive(Clone, Copy, PartialEq, Eq, Structural, Debug)]
pub enum Dir {
    Up,
    Down,
    Left,
    Right,
    Still,
}

impl Dir {
    /// Unit step of this direction along the x axis.
    pub open spec fn spec_dx(self) -> int {
        match self {
            Dir::Left => -1,
            Dir::Right => 1,
            _ => 0,
        }
    }

    /// Unit step of this direction along the y axis; the y axis grows downward.
    pub open spec fn spec_dy(self) -> int {
        match self {
            Dir::Up => -1,
            Dir::Down => 1,
            _ => 0,
        }
    }

    /// Executable unit step along the x axis.
    pub fn dx(self) -> (r: i32)
        ensures
            r == self.spec_dx(),
    {
        match self {
            Dir::Left => -1,
            Dir::Right => 1,
            _ => 0,
        }
    }

    /// Executable unit step along the y axis.
    pub fn dy(self) -> (r: i32)
        ensures
            r == self.spec_dy(),
    {
        match self {
            Dir::Up => -1,
            Dir::Down => 1,
            _ => 0,
        }
    }
}

/// The player character: a pixel position and the latched facing direction.
pub struct CharacterState {
    pub position: PixelPos,
    pub move_dir: Dir,
}

impl CharacterState {
    /// The position lies inside the board's pixel extents.
    pub open spec fn in_bounds(self, board: Board) -> bool {
        &&& 0 <= self.position.x < board.spec_extent_x()
        &&& 0 <= self.position.y < board.spec_extent_y()
    }
}

/// The whole simulation state: the character, the board it moves through, and
/// the per-tick commit flag, reset every tick once consumed.
pub struct GameState {
    pub player: CharacterState,
    pub board: Board,
    pub ready_to_process_turn: bool,
}

impl GameState {
    /// Well-formed state: a well-formed board whose pixel extents fit `i32`
    /// with room for one tile step, and a character inside those extents.
    pub open spec fn wf(self) -> bool {
        &&& self.board.wf()
        &&& self.board.extent_fits()
        &&& self.player.in_bounds(self.board)
    }
}

/// The intent is one of the four steering intents.
pub open spec fn is_directional(input: GameInput) -> bool {
    match input {
        GameInput::Down => true,
        GameInput::Up => true,
        GameInput::Right => true,
        GameInput::Left => true,
        _ => false,
    }
}

/// The facing direction a steering intent sets; the other intents steer nowhere.
pub open spec fn dir_of_intent(input: GameInput) -> Dir {
    match input {
        GameInput::Down => Dir::Down,
        GameInput::Up => Dir::Up,
        GameInput::Right => Dir::Right,
        GameInput::Left => Dir::Left,
        _ => Dir::Still,
    }
}

/// Folding one intent into the state: a directional intent overwrites the
/// latched facing direction, a step intent raises the commit flag, and an
/// ignored key changes nothing.
pub open spec fn spec_apply_input(gs: GameState, input: GameInput) -> GameState {
    GameState {
        player: CharacterState {
            position: gs.player.position,
            move_dir: if is_directional(input) {
                dir_of_intent(input)
            } else {
                gs.player.move_dir
            },
        },
        board: gs.board,
        ready_to_process_turn: gs.ready_to_process_turn || input == GameInput::Step,
    }
}

/// Folding an ordered intent sequence, left to right.
pub open spec fn spec_process_inputs(gs: GameState, inputs: Seq<GameInput>) -> GameState
    decreases inputs.len(),
{
    if inputs.len() == 0 {
        gs
    } else {
        spec_process_inputs(spec_apply_input(gs, inputs[0]), inputs.skip(1))
    }
}

/// Fold one tick's intent sequence into the state: later directional intents
/// overwrite the latched facing direction, any step intent raises the commit
/// flag, and the position and the board are untouched.
pub fn process_input_stream(gamestate: GameState, input_queue: Vec<GameInput>) -> (r: GameState)
    ensures
        r == spec_process_inputs(gamestate, input_queue@),
{
    let ghost orig = gamestate;
    let mut gs = gamestate;
    let n = input_queue.len();
    let mut i: usize = 0;
    proof {
        assert(input_queue@.skip(0) =~= input_queue@);
    }
    while i < n
        invariant
            i <= n,
            n == input_queue@.len(),
            spec_process_inputs(gs, input_queue@.skip(i as int))
                == spec_process_inputs(orig, input_queue@),
        decreases n - i,
    {
        let ghost pre = gs;
        let input = input_queue[i];
        match input {
            GameInput::Down => gs.player.move_dir = Dir::Down,
            GameInput::Up => gs.player.move_dir = Dir::Up,
            GameInput::Right => gs.player.move_dir = Dir::Right,
            GameInput::Left => gs.player.move_dir = Dir::Left,
            _ => {},
        }
        if input == GameInput::Step {
            gs.ready_to_process_turn = true;
        }
        proof {
            assert(gs == spec_apply_input(pre, input));
            assert(input_queue@.skip(i as int)[0] == input_queue@[i as int]);
            assert(input_queue@.skip(i as int).skip(1) =~= input_queue@.skip(i as int + 1));
        }
        i = i + 1;
    }
    proof {
        assert(input_queue@.skip(n as int) =~= Seq::<GameInput>::empty());
    }
    gs
}

/// Pixel coordinate after per-axis wrap-around into `[0, extent)`: below zero
/// re-enters at `extent - 1`; at or beyond `extent` re-enters at zero.
pub open spec fn spec_wrap(v: int, extent: int) -> int {
    if v < 0 {
        extent - 1
    } else if v >= extent {
        0
    } else {
        v
    }
}

/// Executable per-axis wrap-around.
pub fn wrap_coord(v: i32, extent: i32) -> (r: i32)
    requires
        0 < extent,
    ensures
        r == spec_wrap(v as int, extent as int),
        0 <= r < extent,
{
    if v < 0 {
        extent - 1
    } else if v >= extent {
        0
    } else {
        v
    }
}

/// x coordinate of the wrapped move target, one tile step ahead of the player.
pub open spec fn spec_candidate_x(gs: GameState) -> int {
    spec_wrap(
        gs.player.position.x + gs.player.move_dir.spec_dx() * TILE_SIZE,
        gs.board.spec_extent_x(),
    )
}

/// y coordinate of the wrapped move target, one tile step ahead of the player.
pub open spec fn spec_candidate_y(gs: GameState) -> int {
    spec_wrap(
        gs.player.position.y + gs.player.move_dir.spec_dy() * TILE_SIZE,
        gs.board.spec_extent_y(),
    )
}

/// Flat tile index of the wrapped move target.
pub open spec fn spec_target_tile(gs: GameState) -> int {
    (spec_candidate_y(gs) / (TILE_SIZE as int)) * (gs.board.width as int)
        + spec_candidate_x(gs) / (TILE_SIZE as int)
}

/// One movement tick. Without a committed turn the state is unchanged. With
/// one, the character advances one tile step along its facing direction when
/// the target tile is traversable and holds position when it is a wall; the
/// facing direction is never reset, and the commit flag is consumed.
pub open spec fn spec_step(gs: GameState) -> GameState {
    if !gs.ready_to_process_turn {
        gs
    } else {
        let position = if gs.board.is_traversable@[spec_target_tile(gs)] {
            PixelPos { x: spec_candidate_x(gs) as i32, y: spec_candidate_y(gs) as i32 }
        } else {
            gs.player.position
        };
        GameState {
            player: CharacterState { position, move_dir: gs.player.move_dir },
            board: gs.board,
            ready_to_process_turn: false,
        }
    }
}

/// Advance the movement state machine by one tick.
///
/// The game is turn-based: motion advances only on an explicit step intent,
/// while facing changes latch freely between steps. Wrap-around is
/// applied to the candidate position before the collision query, so the tile
/// tested at a board edge is the tile actually re-entered on the far side.
pub fn step(gamestate: GameState) -> (r: GameState)
    requires
        gamestate.wf(),
    ensures
        r == spec_step(gamestate),
        r.wf(),
{
    if !gamestate.ready_to_process_turn {
        return gamestate;
    }
    let ghost gs0 = gamestate;
    let dx = gamestate.player.move_dir.dx();
    let dy = gamestate.player.move_dir.dy();
    let ex = gamestate.board.extent_x();
    let ey = gamestate.board.extent_y();
    let cx = wrap_coord(gamestate.player.position.x + dx * TILE_SIZE, ex);
    let cy = wrap_coord(gamestate.player.position.y + dy * TILE_SIZE, ey);
    proof {
        lemma_multiply_divide_lt(cx as int, TILE_SIZE as int, gs0.board.width as int);
        lemma_multiply_divide_lt(cy as int, TILE_SIZE as int, gs0.board.height as int);
    }
    let target = BoardPos::from_pixel_pos(PixelPos { x: cx, y: cy });
    let h = gamestate.board.get_tile_of_board_pos(target);
    let mut gs = gamestate;
    gs.ready_to_process_turn = false;
    if gs.board.tile_is_traversable(h) {
        gs.player.position = PixelPos { x: cx, y: cy };
    }
    gs
}

/// Folding intents touches only the facing direction and the commit flag: the
/// character's position and the board come out unchanged.
pub proof fn lemma_process_inputs_moves_nothing(gs: GameState, inputs: Seq<GameInput>)
    ensures
        spec_process_inputs(gs, inputs).player.position == gs.player.position,
        spec_process_inputs(gs, inputs).board == gs.board,
    decreases inputs.len(),
{
    if inputs.len() > 0 {
        lemma_process_inputs_moves_nothing(spec_apply_input(gs, inputs[0]), inputs.skip(1));
    }
}

/// The commit flag after folding is raised exactly when it was already raised
/// or the sequence holds at least one step intent.
pub proof fn lemma_process_inputs_ready_flag(gs: GameState, inputs: Seq<GameInput>)
    ensures
        spec_process_inputs(gs, inputs).ready_to_process_turn <==> (gs.ready_to_process_turn
            || exists|k: int| 0 <= k < inputs.len() && inputs[k] == GameInput::Step),
    decreases inputs.len(),
{
    if inputs.len() > 0 {
        let first = spec_apply_input(gs, inputs[0]);
        let tail = inputs.skip(1);
        lemma_process_inputs_ready_flag(first, tail);
        assert forall|k: int|
            0 <= k < tail.len() && tail[k] == GameInput::Step implies exists|j: int|
            0 <= j < inputs.len() && inputs[j] == GameInput::Step by {
            assert(inputs[k + 1] == tail[k]);
        }
        if exists|j: int| 0 <= j < inputs.len() && inputs[j] == GameInput::Step {
            let j = choose|j: int| 0 <= j < inputs.len() && inputs[j] == GameInput::Step;
            if j > 0 {
                assert(tail[j - 1] == GameInput::Step);
            }
        }
    }
}

/// A fold without any directional intent leaves the facing direction as it was.
pub proof fn lemma_process_inputs_no_direction(gs: GameState, inputs: Seq<GameInput>)
    requires
        forall|j: int| 0 <= j < inputs.len() ==> !is_directional(#[trigger] inputs[j]),
    ensures
        spec_process_inputs(gs, inputs).player.move_dir == gs.player.move_dir,
    decreases inputs.len(),
{
    if inputs.len() > 0 {
        let tail = inputs.skip(1);
        assert forall|j: int| 0 <= j < tail.len() implies !is_directional(#[trigger] tail[j]) by {
            assert(tail[j] == inputs[j + 1]);
        }
        lemma_process_inputs_no_direction(spec_apply_input(gs, inputs[0]), tail);
    }
}

/// The facing direction after a fold is the one set by the last directional
/// intent of the sequence.
pub proof fn lemma_process_inputs_last_direction_wins(
    gs: GameState,
    inputs: Seq<GameInput>,
    k: int,
)
    requires
        0 <= k < inputs.len(),
        is_directional(inputs[k]),
        forall|j: int| k < j < inputs.len() ==> !is_directional(#[trigger] inputs[j]),
    ensures
        spec_process_inputs(gs, inputs).player.move_dir == dir_of_intent(inputs[k]),
    decreases inputs.len(),
{
    let first = spec_apply_input(gs, inputs[0]);
    let tail = inputs.skip(1);
    if k == 0 {
        assert forall|j: int| 0 <= j < tail.len() implies !is_directional(#[trigger] tail[j]) by {
            assert(tail[j] == inputs[j + 1]);
        }
        lemma_process_inputs_no_direction(first, tail);
    } else {
        assert(tail[k - 1] == inputs[k]);
        assert forall|j: int| k - 1 < j < tail.len() implies !is_directional(
            #[trigger] tail[j],
        ) by {
            assert(tail[j] == inputs[j + 1]);
        }
        lemma_process_inputs_last_direction_wins(first, tail, k - 1);
    }
}

/// Folding a concatenation folds the two parts in order.
pub proof fn lemma_process_inputs_append(gs: GameState, a: Seq<GameInput>, b: Seq<GameInput>)
    ensures
        spec_process_inputs(gs, a + b) == spec_process_inputs(spec_process_inputs(gs, a), b),
    decreases a.len(),
{
    if a.len() == 0 {
        assert(a + b =~= b);
    } else {
        assert((a + b)[0] == a[0]);
        assert((a + b).skip(1) =~= a.skip(1) + b);
        lemma_process_inputs_append(spec_apply_input(gs, a[0]), a.skip(1), b);
    }
}

/// Two consecutive step intents in one tick's sequence have the same effect as
/// one: the commit flag is boolean, not a counter.
pub proof fn lemma_step_intent_idempotent(gs: GameState, pre: Seq<GameInput>, post: Seq<GameInput>)
    ensures
        spec_process_inputs(gs, pre + seq![GameInput::Step, GameInput::Step] + post)
            == spec_process_inputs(gs, pre + seq![GameInput::Step] + post),
{
    let two = seq![GameInput::Step, GameInput::Step];
    let one = seq![GameInput::Step];
    let s2 = two + post;
    let s1 = one + post;
    assert(pre + two + post =~= pre + s2);
    assert(pre + one + post =~= pre + s1);
    lemma_process_inputs_append(gs, pre, s2);
    lemma_process_inputs_append(gs, pre, s1);
    let mid = spec_process_inputs(gs, pre);
    let mid1 = spec_apply_input(mid, GameInput::Step);
    assert(s2[0] == GameInput::Step);
    assert(s1[0] == GameInput::Step);
    assert(spec_process_inputs(mid, s2) == spec_process_inputs(mid1, s2.skip(1)));
    assert(s2.skip(1) =~= s1);
    assert(spec_process_inputs(mid1, s1) == spec_process_inputs(
        spec_apply_input(mid1, GameInput::Step),
        s1.skip(1),
    ));
    assert(spec_apply_input(mid1, GameInput::Step) == mid1);
    assert(spec_process_inputs(mid, s1) == spec_process_inputs(mid1, s1.skip(1)));
}

/// A committed move into a wall leaves the position unchanged, and a step
/// never resets the facing direction.
pub proof fn lemma_step_blocked_by_wall(gs: GameState)
    requires
        gs.wf(),
        gs.ready_to_process_turn,
        !gs.board.is_traversable@[spec_target_tile(gs)],
    ensures
        spec_step(gs).player.position == gs.player.position,
        spec_step(gs).player.move_dir == gs.player.move_dir,
        !spec_step(gs).ready_to_process_turn,
{
}

/// A committed move onto a traversable tile that needs no wrap advances the
/// position by exactly one `TILE_SIZE` step along the facing direction.
pub proof fn lemma_step_advances_one_tile(gs: GameState)
    requires
        gs.wf(),
        gs.ready_to_process_turn,
        gs.board.is_traversable@[spec_target_tile(gs)],
        0 <= gs.player.position.x + gs.player.move_dir.spec_dx() * TILE_SIZE
            < gs.board.spec_extent_x(),
        0 <= gs.player.position.y + gs.player.move_dir.spec_dy() * TILE_SIZE
            < gs.board.spec_extent_y(),
    ensures
        spec_step(gs).player.position.x == gs.player.position.x
            + gs.player.move_dir.spec_dx() * TILE_SIZE,
        spec_step(gs).player.position.y == gs.player.position.y
            + gs.player.move_dir.spec_dy() * TILE_SIZE,
        spec_step(gs).player.move_dir == gs.player.move_dir,
{
}

/// Grid lock: a committed move that needs no wrap keeps each axis of the
/// position an exact multiple of the tile size. (A wrap at a board edge
/// re-enters at the last pixel column or row, which is not tile-aligned.)
pub proof fn lemma_step_keeps_grid_alignment(gs: GameState)
    requires
        gs.wf(),
        gs.player.position.x % TILE_SIZE == 0,
        gs.player.position.y % TILE_SIZE == 0,
        0 <= gs.player.position.x + gs.player.move_dir.spec_dx() * TILE_SIZE
            < gs.board.spec_extent_x(),
        0 <= gs.player.position.y + gs.player.move_dir.spec_dy() * TILE_SIZE
            < gs.board.spec_extent_y(),
    ensures
        spec_step(gs).player.position.x % TILE_SIZE == 0,
        spec_step(gs).player.position.y % TILE_SIZE == 0,
{
    let px = gs.player.position.x as int;
    let py = gs.player.position.y as int;
    let m = TILE_SIZE as int;
    lemma_mod_add_multiples_vanish(px, m);
    lemma_mod_sub_multiples_vanish(px, m);
    lemma_mod_add_multiples_vanish(py, m);
    lemma_mod_sub_multiples_vanish(py, m);
}

/// Wrap at the left edge: a committed move left out of the leftmost tile
/// column onto a traversable tile re-enters at the rightmost pixel column.
pub proof fn lemma_step_wraps_left(gs: GameState)
    requires
        gs.wf(),
        gs.ready_to_process_turn,
        gs.player.move_dir == Dir::Left,
        gs.player.position.x < TILE_SIZE,
        gs.board.is_traversable@[spec_target_tile(gs)],
    ensures
        spec_step(gs).player.position.x == gs.board.spec_extent_x() - 1,
        spec_step(gs).player.position.y == gs.player.position.y,
{
}

/// Wrap at the right edge: a committed move right out of the rightmost tile
/// column onto a traversable tile re-enters at pixel column zero.
pub proof fn lemma_step_wraps_right(gs: GameState)
    requires
        gs.wf(),
        gs.ready_to_process_turn,
        gs.player.move_dir == Dir::Right,
        gs.player.position.x >= gs.board.spec_extent_x() - TILE_SIZE,
        gs.board.is_traversable@[spec_target_tile(gs)],
    ensures
        spec_step(gs).player.position.x == 0,
        spec_step(gs).player.position.y == gs.player.position.y,
{
}

/// Wrap at the top edge: a committed move up out of the topmost tile row onto
/// a traversable tile re-enters at the bottommost pixel row.
pub proof fn lemma_step_wraps_top(gs: GameState)
    requires
        gs.wf(),
        gs.ready_to_process_turn,
        gs.player.move_dir == Dir::Up,
        gs.player.position.y < TILE_SIZE,
        gs.board.is_traversable@[spec_target_tile(gs)],
    ensures
        spec_step(gs).player.position.y == gs.board.spec_extent_y() - 1,
        spec_step(gs).player.position.x == gs.player.position.x,
{
}

/// Wrap at the bottom edge: a committed move down out of the bottommost tile
/// row onto a traversable tile re-enters at pixel row zero.
pub proof fn lemma_step_wraps_bottom(gs: GameState)
    requires
        gs.wf(),
        gs.ready_to_process_turn,
        gs.player.move_dir == Dir::Down,
        gs.player.position.y >= gs.board.spec_extent_y() - TILE_SIZE,
        gs.board.is_traversable@[spec_target_tile(gs)],
    ensures
        spec_step(gs).player.position.y == 0,
        spec_step(gs).player.position.x == gs.player.position.x,
{
}

} // verus!
