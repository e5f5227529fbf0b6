use tetris::error::ErrorKind;
use tetris::game::{handle_event, update, Game, Input, Request};
use tetris::geometry::{Color, Point};
use tetris::pattern::RawPattern;
use tetris::pieces::{Direction, Piece};
use tetris::state::{init_game, Phase, TetrisState};

fn piece(size: i64, template: &str, shade: i64) -> Piece {
    let raw = RawPattern {
        size,
        template: template.as_bytes().to_vec(),
        color: (shade, shade, shade, 255),
    };
    Game::request_piece(&raw).unwrap()
}

fn square() -> Piece {
    piece(2, "1111", 10)
}

fn dot(shade: i64) -> Piece {
    piece(1, "1", shade)
}

fn session(width: u32, height: u32, start: Piece, hold: bool) -> Game {
    Game::new(init_game((width, height), start, hold, 1000, 0).ok().unwrap(), (1080, 720))
}

#[test]
fn new_session_starts_with_the_piece_at_the_top() {
    let g = session(10, 20, square(), false);
    let s: &TetrisState = &g.state;
    assert_eq!(s.player_pos, Point::new(4, 0));
    assert_eq!(s.player_proj, 18);
    assert_eq!(s.phase, Phase::Active);
    assert!(s.field_blocks.is_empty());
    assert!(s.piece_queue.is_empty());
    assert!(s.piece_swap.is_none());
    assert_eq!(s.player_tick_time, 1000);
    assert_eq!(s.player_tick_dur, 1000);
    assert_eq!((s.lines_cleared, s.pieces_placed), (0, 0));
    assert!(!s.exit);
    assert!(g.running());
}

#[test]
fn session_needs_room_for_the_start_piece() {
    let e = init_game((1, 20), square(), false, 1000, 0).err().unwrap();
    assert_eq!(e.kind, ErrorKind::NoRoom);
    let e = init_game((10, 1), square(), false, 1000, 0).err().unwrap();
    assert_eq!(e.kind, ErrorKind::NoRoom);
}

#[test]
fn session_needs_a_field_that_coordinates_can_reach() {
    let e = init_game((u32::MAX, 20), dot(1), false, 1000, 0).err().unwrap();
    assert_eq!(e.kind, ErrorKind::BadNumber);
    let e = init_game((10, 20), dot(1), false, u64::MAX, 1).err().unwrap();
    assert_eq!(e.kind, ErrorKind::BadNumber);
}

#[test]
fn move_left_at_the_wall_fails() {
    let mut g = session(2, 4, square(), false);
    assert_eq!(g.state.player_pos, Point::new(0, 0));
    assert!(!g.state.move_piece(Direction::LEFT));
    assert_eq!(g.state.player_pos, Point::new(0, 0));
    assert_eq!(g.state.player_proj, 2);
    assert!(!g.state.move_piece(Direction::RIGHT));
    assert_eq!(g.state.player_pos, Point::new(0, 0));
}

#[test]
fn moves_commit_position_and_projection() {
    let mut g = session(10, 20, square(), false);
    assert!(g.state.move_piece(Direction::LEFT));
    assert_eq!(g.state.player_pos, Point::new(3, 0));
    assert!(g.state.move_piece(Direction::DOWN));
    assert_eq!(g.state.player_pos, Point::new(3, 1));
    assert_eq!(g.state.player_proj, 18);
    assert!(g.state.move_piece(Direction::RIGHT));
    assert!(g.state.move_piece(Direction::RIGHT));
    assert_eq!(g.state.player_pos, Point::new(5, 1));
}

#[test]
fn successful_moves_and_turns_keep_the_piece_on_free_cells() {
    let mut g = session(6, 8, piece(3, "010111000", 5), false);
    g.state.field_blocks.push(Point::new(0, 7));
    g.state.field_colors.push(Color::rgba(0, 0, 0, 255));
    let steps = [
        Some(Direction::LEFT),
        None,
        Some(Direction::DOWN),
        Some(Direction::LEFT),
        None,
        Some(Direction::DOWN),
        Some(Direction::DOWN),
        Some(Direction::RIGHT),
        None,
        Some(Direction::DOWN),
        Some(Direction::DOWN),
        Some(Direction::DOWN),
        Some(Direction::LEFT),
        Some(Direction::LEFT),
    ];
    for step in steps {
        let before = (g.state.player_pos, g.state.player_piece.blocks.clone());
        let ok = match step {
            Some(d) => g.state.move_piece(d),
            None => g.state.rotate(),
        };
        if !ok {
            assert_eq!(before, (g.state.player_pos, g.state.player_piece.blocks.clone()));
        }
        assert!(tetris::field::check_valid_pos(
            g.state.field_size,
            &g.state.field_blocks,
            g.state.player_pos,
            &g.state.player_piece.blocks
        ));
        assert_eq!(
            g.state.player_proj,
            tetris::pieces::project(
                g.state.field_size,
                &g.state.field_blocks,
                g.state.player_pos,
                &g.state.player_piece.blocks
            )
        );
    }
}

#[test]
fn rotate_turns_the_piece_in_its_box() {
    let mut g = session(10, 20, piece(3, "010111000", 5), false);
    let start = g.state.player_piece.blocks.clone();
    assert!(g.state.rotate());
    assert_eq!(
        g.state.player_piece.blocks,
        vec![Point::new(2, 1), Point::new(1, 0), Point::new(1, 1), Point::new(1, 2)]
    );
    assert_eq!(g.state.player_proj, 17);
    assert!(g.state.rotate());
    assert!(g.state.rotate());
    assert!(g.state.rotate());
    assert_eq!(g.state.player_piece.blocks, start);
    assert_eq!(g.state.player_pos, Point::new(3, 0));
}

#[test]
fn rotate_into_a_wall_is_refused() {
    // an upright bar in the left column of its box, against the right wall
    let mut g = session(4, 6, piece(4, "1000100010001000", 5), false);
    while g.state.move_piece(Direction::RIGHT) {}
    assert_eq!(g.state.player_pos, Point::new(3, 0));
    let before = g.state.player_piece.blocks.clone();
    assert!(!g.state.rotate());
    assert_eq!(g.state.player_piece.blocks, before);
    assert_eq!(g.state.player_pos, Point::new(3, 0));
}

#[test]
fn queue_hands_out_the_piece_at_the_cursor() {
    let mut g = session(10, 20, square(), false);
    assert_eq!(g.state.push_piece(dot(1)).colors[0].r, 1);
    g.refresh_piece_view(vec![dot(1), dot(2), dot(3)]);
    assert_eq!(g.state.piece_queue_idx, 0);
    assert_eq!(g.state.push_piece(dot(4)).colors[0].r, 1);
    assert_eq!(g.state.piece_queue_idx, 1);
    assert_eq!(g.state.push_piece(dot(5)).colors[0].r, 2);
    assert_eq!(g.state.push_piece(dot(6)).colors[0].r, 3);
    assert_eq!(g.state.piece_queue_idx, 0);
    assert_eq!(g.state.push_piece(dot(7)).colors[0].r, 4);
    let shades: Vec<u8> = g.state.piece_queue.iter().map(|p| p.colors[0].r).collect();
    assert_eq!(shades, vec![7, 5, 6]);
}

#[test]
fn down_at_the_floor_settles_the_piece() {
    let mut g = session(4, 4, square(), false);
    assert_eq!(handle_event(&Input::Down, &mut g), Request::Nothing);
    assert_eq!(g.state.player_pos, Point::new(1, 1));
    assert_eq!(handle_event(&Input::Down, &mut g), Request::Nothing);
    assert_eq!(handle_event(&Input::Down, &mut g), Request::Place);
    assert_eq!(g.state.phase, Phase::Locked);
    assert_eq!(
        g.state.field_blocks,
        vec![Point::new(1, 2), Point::new(2, 2), Point::new(1, 3), Point::new(2, 3)]
    );
    assert_eq!(g.state.field_colors, vec![Color::rgba(10, 10, 10, 255); 4]);
    assert_eq!(g.state.pieces_placed, 0);
    // while the piece is settled no move is taken
    assert_eq!(handle_event(&Input::Left, &mut g), Request::Nothing);
    assert_eq!(g.state.player_pos, Point::new(1, 2));
    assert!(g.spawn_piece(square()));
    assert_eq!(g.state.phase, Phase::Active);
    assert_eq!(g.state.pieces_placed, 1);
    assert_eq!(g.state.player_pos, Point::new(1, 0));
    assert_eq!(g.state.player_proj, 0);
}

#[test]
fn hard_drop_settles_at_the_projection() {
    let mut g = session(10, 20, square(), false);
    assert_eq!(handle_event(&Input::Space, &mut g), Request::Place);
    assert_eq!(g.state.player_pos, Point::new(4, 18));
    assert_eq!(
        g.state.field_blocks,
        vec![Point::new(4, 18), Point::new(5, 18), Point::new(4, 19), Point::new(5, 19)]
    );
    assert_eq!(g.state.phase, Phase::Locked);
}

#[test]
fn settling_clears_full_rows_and_counts_them() {
    let mut g = session(2, 4, square(), false);
    g.drop();
    assert_eq!(g.state.field_blocks.len(), 4);
    assert!(g.spawn_piece(dot(3)));
    assert!(g.state.field_blocks.is_empty());
    assert!(g.state.field_colors.is_empty());
    assert_eq!(g.state.lines_cleared, 2);
    assert_eq!(g.state.pieces_placed, 1);
    assert_eq!(g.state.player_piece.colors[0].r, 3);
    assert_eq!(g.state.player_pos, Point::new(0, 0));
    assert_eq!(g.state.player_proj, 3);
}

#[test]
fn no_room_for_the_next_piece_ends_the_session() {
    let mut g = session(4, 2, square(), false);
    assert_eq!(handle_event(&Input::Down, &mut g), Request::Place);
    assert!(!g.spawn_piece(square()));
    assert_eq!(g.state.phase, Phase::GameOver);
    assert!(!g.running());
    let field = g.state.field_blocks.clone();
    for input in [Input::Left, Input::Right, Input::Down, Input::Up, Input::LShift, Input::Space] {
        assert_eq!(handle_event(&input, &mut g), Request::Nothing);
    }
    assert_eq!(g.state.field_blocks, field);
    assert_eq!(g.state.player_pos, Point::new(1, 0));
    assert_eq!(g.state.phase, Phase::GameOver);
}

#[test]
fn next_piece_comes_from_the_queue() {
    let mut g = session(4, 6, dot(1), false);
    g.refresh_piece_view(vec![dot(2), dot(3)]);
    g.drop();
    assert!(g.spawn_piece(dot(4)));
    assert_eq!(g.state.player_piece.colors[0].r, 2);
    g.drop();
    assert!(g.spawn_piece(dot(5)));
    assert_eq!(g.state.player_piece.colors[0].r, 3);
    g.drop();
    assert!(g.spawn_piece(dot(6)));
    assert_eq!(g.state.player_piece.colors[0].r, 4);
}

#[test]
fn swap_without_hold_changes_nothing() {
    let mut g = session(10, 20, square(), false);
    g.refresh_piece_view(vec![dot(2), dot(3)]);
    for _ in 0..2 {
        assert!(!g.swap_needs_piece());
        assert_eq!(handle_event(&Input::LShift, &mut g), Request::Nothing);
        g.swap(Some(dot(9)));
        g.swap(None);
        assert!(g.state.piece_swap.is_none());
        assert_eq!(g.state.player_piece.blocks.len(), 4);
        assert_eq!(g.state.player_piece.colors[0].r, 10);
        assert_eq!(g.state.player_pos, Point::new(4, 0));
        assert_eq!(g.state.player_proj, 18);
        assert_eq!(g.state.piece_queue_idx, 0);
        let shades: Vec<u8> = g.state.piece_queue.iter().map(|p| p.colors[0].r).collect();
        assert_eq!(shades, vec![2, 3]);
    }
}

#[test]
fn first_swap_takes_a_piece_from_the_queue() {
    let mut g = session(10, 20, square(), true);
    g.refresh_piece_view(vec![dot(2), dot(3)]);
    assert_eq!(handle_event(&Input::LShift, &mut g), Request::Hold);
    assert!(g.state.piece_swap.is_none());
    g.swap(Some(dot(9)));
    assert_eq!(g.state.player_piece.colors[0].r, 2);
    assert_eq!(g.state.piece_swap.as_ref().unwrap().colors[0].r, 10);
    assert_eq!(g.state.player_pos, Point::new(4, 0));
    assert_eq!(g.state.player_proj, 19);
    let shades: Vec<u8> = g.state.piece_queue.iter().map(|p| p.colors[0].r).collect();
    assert_eq!(shades, vec![9, 3]);
    assert_eq!(g.state.piece_queue_idx, 1);
    // with a piece in the slot the two trade places
    assert_eq!(handle_event(&Input::LShift, &mut g), Request::Nothing);
    assert_eq!(g.state.player_piece.colors[0].r, 10);
    assert_eq!(g.state.piece_swap.as_ref().unwrap().colors[0].r, 2);
    assert_eq!(g.state.player_proj, 18);
}

#[test]
fn swap_is_refused_where_the_held_piece_does_not_fit() {
    let mut g = session(4, 6, dot(1), true);
    g.swap(Some(square()));
    assert_eq!(g.state.player_piece.blocks.len(), 4);
    assert_eq!(g.state.piece_swap.as_ref().unwrap().blocks.len(), 1);
    // bring the square's neighbour cell under a settled block, then try the dot->square swap
    g.swap(None);
    assert_eq!(g.state.player_piece.blocks.len(), 1);
    while g.state.move_piece(Direction::RIGHT) {}
    assert_eq!(g.state.player_pos, Point::new(3, 0));
    g.swap(None);
    assert_eq!(g.state.player_piece.blocks.len(), 1);
    assert_eq!(g.state.piece_swap.as_ref().unwrap().blocks.len(), 4);
    assert_eq!(g.state.player_pos, Point::new(3, 0));
}

#[test]
fn fresh_piece_that_does_not_fit_goes_to_the_slot() {
    let mut g = session(4, 6, dot(1), true);
    while g.state.move_piece(Direction::RIGHT) {}
    g.swap(Some(square()));
    assert_eq!(g.state.player_piece.blocks.len(), 1);
    assert_eq!(g.state.piece_swap.as_ref().unwrap().blocks.len(), 4);
}

#[test]
fn timer_fires_on_its_grid() {
    let mut g = session(10, 20, square(), false);
    assert!(!g.tick_update(999));
    assert_eq!(g.state.player_tick_time, 1000);
    assert!(g.tick_update(1000));
    assert_eq!(g.state.player_tick_time, 2000);
    assert!(!g.tick_update(1999));
    assert!(g.tick_update(5500));
    assert_eq!(g.state.player_tick_time, 6000);
    assert!(g.tick_update(6000));
    assert_eq!(g.state.player_tick_time, 7000);
}

#[test]
fn timer_without_interval_fires_each_time() {
    let mut g = Game::new(init_game((10, 20), square(), false, 0, 5).ok().unwrap(), (1, 1));
    assert!(!g.tick_update(4));
    assert!(g.tick_update(5));
    assert!(g.tick_update(6));
    assert_eq!(g.state.player_tick_time, 5);
}

#[test]
fn tick_moves_the_piece_down() {
    let mut g = session(4, 3, square(), false);
    assert_eq!(update(&mut g, 10), Request::Nothing);
    assert_eq!(g.state.player_pos, Point::new(1, 0));
    assert_eq!(update(&mut g, 1000), Request::Nothing);
    assert_eq!(g.state.player_pos, Point::new(1, 1));
    assert_eq!(update(&mut g, 1500), Request::Nothing);
    assert_eq!(g.state.player_pos, Point::new(1, 1));
    assert_eq!(update(&mut g, 2000), Request::Place);
    assert_eq!(g.state.phase, Phase::Locked);
    assert_eq!(update(&mut g, 3000), Request::Nothing);
    assert_eq!(g.state.player_tick_time, 4000);
}

#[test]
fn resize_is_noted() {
    let mut g = session(10, 20, square(), false);
    assert_eq!(handle_event(&Input::Resized(640, 480), &mut g), Request::Nothing);
    assert_eq!(g.win_dim, (640, 480));
    assert_eq!(handle_event(&Input::Other, &mut g), Request::Nothing);
    assert_eq!(g.win_dim, (640, 480));
    assert_eq!(g.state.player_pos, Point::new(4, 0));
}

#[test]
fn keys_move_and_turn() {
    let mut g = session(10, 20, piece(3, "010111000", 5), false);
    assert_eq!(handle_event(&Input::Left, &mut g), Request::Nothing);
    assert_eq!(g.state.player_pos, Point::new(2, 0));
    assert_eq!(handle_event(&Input::Right, &mut g), Request::Nothing);
    assert_eq!(handle_event(&Input::Right, &mut g), Request::Nothing);
    assert_eq!(g.state.player_pos, Point::new(4, 0));
    assert_eq!(handle_event(&Input::Up, &mut g), Request::Nothing);
    assert_eq!(g.state.player_piece.blocks[0], Point::new(2, 1));
}

#[test]
fn exit_ends_the_session() {
    let mut g = session(10, 20, square(), false);
    g.request_exit();
    assert!(g.state.exit);
    assert!(!g.running());
    assert_eq!(g.state.phase, Phase::Active);
}

#[test]
fn clear_lines_of_a_session_counts() {
    let mut g = session(2, 4, dot(1), false);
    g.state.field_blocks = vec![Point::new(0, 3), Point::new(1, 3), Point::new(1, 2)];
    g.state.field_colors = vec![Color::rgba(1, 1, 1, 255); 3];
    assert_eq!(g.state.clear_lines(), vec![3]);
    assert_eq!(g.state.lines_cleared, 1);
    assert_eq!(g.state.field_blocks, vec![Point::new(1, 3)]);
    assert_eq!(g.state.clear_lines(), Vec::<i32>::new());
    assert_eq!(g.state.lines_cleared, 1);
}

#[test]
fn a_session_that_was_only_played_is_sound() {
    let mut g = session(4, 6, square(), true);
    g.refresh_piece_view(vec![dot(2), dot(3)]);
    assert!(g.state.check());
    for input in [
        Input::Left,
        Input::Up,
        Input::Down,
        Input::LShift,
        Input::Space,
        Input::Right,
        Input::Down,
    ] {
        match handle_event(&input, &mut g) {
            Request::Nothing => {},
            Request::Place => {
                assert!(g.state.check());
                g.spawn_piece(dot(7));
            },
            Request::Hold => g.swap(Some(dot(8))),
        }
        assert!(g.state.check());
    }
}

#[test]
fn a_damaged_session_is_found_out() {
    let mut g = session(4, 6, square(), false);
    g.state.player_proj = 2;
    assert!(!g.state.check());
    g.state.player_proj = 4;
    assert!(g.state.check());
    g.state.field_blocks.push(Point::new(1, 0));
    assert!(!g.state.check());
    g.state.field_colors.push(Color::rgba(0, 0, 0, 0));
    assert!(!g.state.check());
    g.state.phase = Phase::Locked;
    assert!(g.state.check());
    g.state.field_blocks.push(Point::new(1, 0));
    g.state.field_colors.push(Color::rgba(0, 0, 0, 0));
    assert!(!g.state.check());
    g.state.field_blocks.pop();
    g.state.field_colors.pop();
    g.state.piece_queue_idx = 3;
    assert!(g.state.check());
    g.state.piece_queue.push(dot(1));
    assert!(!g.state.check());
    g.state.piece_queue_idx = 0;
    assert!(g.state.check());
    g.state.piece_queue[0].blocks[0] = Point::new(1, 0);
    assert!(!g.state.check());
}

#[test]
fn swap_waits_for_a_piece_under_control() {
    let mut g = session(4, 6, square(), true);
    g.drop();
    assert_eq!(g.state.phase, Phase::Locked);
    assert!(!g.swap_needs_piece());
    g.swap(Some(dot(3)));
    assert!(g.state.piece_swap.is_none());
    assert!(g.state.piece_queue.is_empty());
    assert_eq!(g.state.player_piece.blocks.len(), 4);
}
