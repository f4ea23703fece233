use pacman_core::board::{Board, BoardPos, PixelPos, TILE_SIZE};
use pacman_core::input::GameInput;
use pacman_core::movement::{process_input_stream, step, CharacterState, Dir, GameState};

fn game_at(x: i32, y: i32, move_dir: Dir, ready: bool) -> GameState {
    GameState {
        player: CharacterState { position: PixelPos { x, y }, move_dir },
        board: Board::new(),
        ready_to_process_turn: ready,
    }
}

#[test]
fn commit_into_wall_holds_position_and_direction() {
    // (1, 1) faces the wall at (0, 1)
    let gs = game_at(TILE_SIZE, TILE_SIZE, Dir::Left, true);
    let gs = step(gs);
    assert_eq!(gs.player.position, PixelPos { x: TILE_SIZE, y: TILE_SIZE });
    assert_eq!(gs.player.move_dir, Dir::Left);
    assert!(!gs.ready_to_process_turn);
}

#[test]
fn commit_into_floor_advances_one_tile_step() {
    // (1, 1) faces the pellet floor at (2, 1)
    let gs = game_at(TILE_SIZE, TILE_SIZE, Dir::Right, true);
    let gs = step(gs);
    assert_eq!(gs.player.position, PixelPos { x: 2 * TILE_SIZE, y: TILE_SIZE });
    assert_eq!(gs.player.move_dir, Dir::Right);
    assert!(!gs.ready_to_process_turn);
}

#[test]
fn tick_without_commit_changes_nothing() {
    let gs = game_at(TILE_SIZE, TILE_SIZE, Dir::Right, false);
    let gs = step(gs);
    assert_eq!(gs.player.position, PixelPos { x: TILE_SIZE, y: TILE_SIZE });
    assert_eq!(gs.player.move_dir, Dir::Right);
    assert!(!gs.ready_to_process_turn);
}

#[test]
fn facing_latches_without_commit() {
    let gs = game_at(TILE_SIZE, TILE_SIZE, Dir::Still, false);
    let gs = process_input_stream(gs, vec![GameInput::Left]);
    assert_eq!(gs.player.move_dir, Dir::Left);
    assert_eq!(gs.player.position, PixelPos { x: TILE_SIZE, y: TILE_SIZE });
    assert!(!gs.ready_to_process_turn);
}

#[test]
fn later_directional_intent_overwrites_earlier() {
    let gs = game_at(TILE_SIZE, TILE_SIZE, Dir::Still, false);
    let gs = process_input_stream(
        gs,
        vec![GameInput::Left, GameInput::Up, GameInput::Right, GameInput::Nil],
    );
    assert_eq!(gs.player.move_dir, Dir::Right);
    assert!(!gs.ready_to_process_turn);
}

#[test]
fn step_intent_raises_commit_flag() {
    let gs = game_at(TILE_SIZE, TILE_SIZE, Dir::Up, false);
    let gs = process_input_stream(gs, vec![GameInput::Nil, GameInput::Step]);
    assert!(gs.ready_to_process_turn);
    // no directional intent: the facing direction is untouched
    assert_eq!(gs.player.move_dir, Dir::Up);
}

#[test]
fn two_step_intents_act_as_one() {
    let once = game_at(TILE_SIZE, TILE_SIZE, Dir::Still, false);
    let twice = game_at(TILE_SIZE, TILE_SIZE, Dir::Still, false);
    let once = process_input_stream(once, vec![GameInput::Right, GameInput::Step]);
    let twice = process_input_stream(
        twice,
        vec![GameInput::Right, GameInput::Step, GameInput::Step],
    );
    assert_eq!(once.player.move_dir, twice.player.move_dir);
    assert_eq!(once.player.position, twice.player.position);
    assert_eq!(once.ready_to_process_turn, twice.ready_to_process_turn);
    let once = step(once);
    let twice = step(twice);
    assert_eq!(once.player.position, twice.player.position);
    assert_eq!(once.player.position, PixelPos { x: 2 * TILE_SIZE, y: TILE_SIZE });
}

#[test]
fn wrap_left_through_tunnel_row() {
    // the tunnel row: both edge tiles of row 14 are traversable
    let gs = game_at(0, 14 * TILE_SIZE, Dir::Left, true);
    let board_width_px = gs.board.extent_x();
    let gs = step(gs);
    assert_eq!(gs.player.position.x, board_width_px - 1);
    assert_eq!(gs.player.position.y, 14 * TILE_SIZE);
}

#[test]
fn wrap_right_through_tunnel_row() {
    let gs = game_at(27 * TILE_SIZE, 14 * TILE_SIZE, Dir::Right, true);
    let gs = step(gs);
    assert_eq!(gs.player.position.x, 0);
    assert_eq!(gs.player.position.y, 14 * TILE_SIZE);
}

#[test]
fn wrap_top_and_bottom_on_open_board() {
    // a 3 by 3 all-pellet board leaves every tile traversable
    let board = Board::from_maze(".........", 3, 3).unwrap();
    let extent = board.extent_y();
    let gs = GameState {
        player: CharacterState { position: PixelPos { x: TILE_SIZE, y: 0 }, move_dir: Dir::Up },
        board,
        ready_to_process_turn: true,
    };
    let gs = step(gs);
    assert_eq!(gs.player.position.y, extent - 1);
    assert_eq!(gs.player.position.x, TILE_SIZE);

    let board = Board::from_maze(".........", 3, 3).unwrap();
    let gs = GameState {
        player: CharacterState {
            position: PixelPos { x: TILE_SIZE, y: 2 * TILE_SIZE },
            move_dir: Dir::Down,
        },
        board,
        ready_to_process_turn: true,
    };
    let gs = step(gs);
    assert_eq!(gs.player.position.y, 0);
    assert_eq!(gs.player.position.x, TILE_SIZE);
}

#[test]
fn spawn_scenario_move_up_against_wall() {
    // spawn: column width / 2, a row near the bottom of the maze
    let board = Board::new();
    let spawn_x = (board.width as i32 / 2) * TILE_SIZE;
    let spawn_y = (board.height as i32 / 2) * TILE_SIZE + 11 * TILE_SIZE / 2;
    assert_eq!(spawn_x, 112);
    assert_eq!(spawn_y, 164);
    let gs = GameState {
        player: CharacterState {
            position: PixelPos { x: spawn_x, y: spawn_y },
            move_dir: Dir::Still,
        },
        board,
        ready_to_process_turn: false,
    };
    // the tile above the spawn tile is a wall: the move holds position
    let above = gs.board.get_tile_of_board_pos(BoardPos {
        x: (spawn_x / TILE_SIZE) as usize,
        y: (spawn_y / TILE_SIZE) as usize - 1,
    });
    assert!(!gs.board.tile_is_traversable(above));
    let gs = process_input_stream(gs, vec![GameInput::Up, GameInput::Step]);
    let gs = step(gs);
    assert_eq!(gs.player.position, PixelPos { x: spawn_x, y: spawn_y });
    assert_eq!(gs.player.move_dir, Dir::Up);
}

#[test]
fn spawn_scenario_move_up_into_open_floor() {
    // from (1, 2) the tile directly above is traversable: the row drops by one
    let gs = game_at(TILE_SIZE, 2 * TILE_SIZE, Dir::Still, false);
    let start_row = BoardPos::from_pixel_pos(gs.player.position).y;
    let gs = process_input_stream(gs, vec![GameInput::Up, GameInput::Step]);
    let gs = step(gs);
    assert_eq!(gs.player.position, PixelPos { x: TILE_SIZE, y: TILE_SIZE });
    let end_row = BoardPos::from_pixel_pos(gs.player.position).y;
    assert_eq!(end_row, start_row - 1);
}
