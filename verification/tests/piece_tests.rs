use tetris::error::ErrorKind;
use tetris::flags::{check, switch, Flag};
use tetris::game::Game;
use tetris::geometry::{Color, Point};
use tetris::pattern::{parse_pattern, parse_piece_body, parse_piece_color, Pattern, RawPattern};
use tetris::pieces::{move_piece, project, rotate_blocks, spawn_piece, Direction, Piece};
use tetris::profile_api::{load, RawProfile, NO_TICK};
use tetris::size::{calc_threshold, new_resize, Rect};

fn raw(size: i64, template: &str) -> RawPattern {
    RawPattern { size, template: template.as_bytes().to_vec(), color: (1, 2, 3, 4) }
}

fn piece(size: i64, template: &str) -> Piece {
    Game::request_piece(&raw(size, template)).unwrap()
}

#[test]
fn template_cells_are_read_row_by_row() {
    let p = piece(3, "010\n111\n000");
    assert_eq!(p.dim, 3);
    assert_eq!(
        p.blocks,
        vec![Point::new(1, 0), Point::new(0, 1), Point::new(1, 1), Point::new(2, 1)]
    );
    assert_eq!(p.colors, vec![Color::rgba(1, 2, 3, 4); 4]);
}

#[test]
fn white_space_does_not_count_as_a_cell() {
    let a = piece(2, "1001");
    let b = piece(2, " 1 0\r\n\t0 1 \n");
    assert_eq!(a.blocks, vec![Point::new(0, 0), Point::new(1, 1)]);
    assert_eq!(a.blocks, b.blocks);
}

#[test]
fn body_counts_occupied_cells() {
    let (_mask, blocks) = parse_piece_body(b"0110", 2).ok().unwrap();
    assert_eq!(blocks, 2);
    let (_mask, blocks) = parse_piece_body(b"", 0).ok().unwrap();
    assert_eq!(blocks, 0);
}

#[test]
fn body_rejects_other_characters() {
    let e = parse_piece_body(b"01x1", 2).err().unwrap();
    assert_eq!(e.kind, ErrorKind::BadCharacter);
    let e = parse_piece_body(b"012", 2).err().unwrap();
    assert_eq!(e.kind, ErrorKind::BadCharacter);
}

#[test]
fn body_rejects_wrong_cell_count() {
    assert_eq!(parse_piece_body(b"011", 2).err().unwrap().kind, ErrorKind::SizeMismatch);
    assert_eq!(parse_piece_body(b"01101", 2).err().unwrap().kind, ErrorKind::SizeMismatch);
    assert_eq!(parse_piece_body(b"", 1).err().unwrap().kind, ErrorKind::SizeMismatch);
}

#[test]
fn color_channels_must_be_bytes() {
    assert_eq!(parse_piece_color(0, 128, 255, 7).ok().unwrap(), Color::rgba(0, 128, 255, 7));
    assert_eq!(parse_piece_color(256, 0, 0, 0).err().unwrap().kind, ErrorKind::BadColor);
    assert_eq!(parse_piece_color(0, -1, 0, 0).err().unwrap().kind, ErrorKind::BadColor);
    assert_eq!(parse_piece_color(0, 0, 1000, 0).err().unwrap().kind, ErrorKind::BadColor);
    assert_eq!(parse_piece_color(0, 0, 0, i64::MIN).err().unwrap().kind, ErrorKind::BadColor);
}

#[test]
fn pattern_faults_come_in_order() {
    let mut r = raw(-1, "x");
    r.color = (300, 0, 0, 0);
    assert_eq!(parse_pattern(&r).err().unwrap().kind, ErrorKind::BadNumber);
    r.size = 1;
    assert_eq!(parse_pattern(&r).err().unwrap().kind, ErrorKind::BadCharacter);
    r.template = b"11".to_vec();
    assert_eq!(parse_pattern(&r).err().unwrap().kind, ErrorKind::SizeMismatch);
    r.template = b"1".to_vec();
    assert_eq!(parse_pattern(&r).err().unwrap().kind, ErrorKind::BadColor);
    r.color = (3, 0, 0, 0);
    let p = parse_pattern(&r).ok().unwrap();
    assert_eq!(p.dim, 1);
    assert_eq!(p.colors, vec![Color::rgba(3, 0, 0, 0)]);
    r.size = 1 << 40;
    assert_eq!(parse_pattern(&r).err().unwrap().kind, ErrorKind::BadNumber);
}

#[test]
fn pattern_with_wrong_colors_is_no_piece() {
    let p = parse_pattern(&raw(2, "1100")).ok().unwrap();
    let short = Pattern::new(p.dim, vec![Color::rgba(0, 0, 0, 0)], p.template);
    assert_eq!(short.to_piece().err().unwrap().kind, ErrorKind::ColorMismatch);
    let p = parse_pattern(&raw(2, "1100")).ok().unwrap();
    let wide = Pattern::new(3, p.colors, p.template);
    assert_eq!(wide.to_piece().err().unwrap().kind, ErrorKind::SizeMismatch);
}

#[test]
fn square_piece_spawns_centred_and_projects_to_the_floor() {
    let fb: Vec<Point> = Vec::new();
    let s = spawn_piece(&fb, (10, 20), piece(2, "1111")).unwrap();
    assert_eq!(s.pos, Point::new(4, 0));
    assert_eq!(s.piece.blocks.len(), 4);
    // the anchor rests on row 18: the lower blocks of the square then lie in row 19
    assert_eq!(s.proj, 18);
    assert!(tetris::field::check_valid_pos((10, 20), &fb, Point::new(4, 18), &s.piece.blocks));
    assert!(!tetris::field::check_valid_pos((10, 20), &fb, Point::new(4, 19), &s.piece.blocks));
}

#[test]
fn single_block_projects_to_the_last_row() {
    let fb: Vec<Point> = Vec::new();
    let s = spawn_piece(&fb, (10, 20), piece(1, "1")).unwrap();
    assert_eq!(s.pos, Point::new(4, 0));
    assert_eq!(s.proj, 19);
}

#[test]
fn spawn_fails_on_an_occupied_cell() {
    let fb = vec![Point::new(4, 1)];
    assert!(spawn_piece(&fb, (10, 20), piece(2, "1111")).is_none());
    assert!(spawn_piece(&fb, (10, 20), piece(2, "1100")).is_some());
}

#[test]
fn spawn_of_a_box_wider_than_the_field() {
    let fb: Vec<Point> = Vec::new();
    // (1 - 2) / 2 rounds down to -1: the right column of the box is column 0
    let s = spawn_piece(&fb, (1, 4), piece(2, "0101")).unwrap();
    assert_eq!(s.pos, Point::new(-1, 0));
    assert_eq!(s.proj, 2);
    assert!(spawn_piece(&fb, (1, 4), piece(2, "1010")).is_none());
}

#[test]
fn projection_stops_on_settled_blocks() {
    let fb = vec![Point::new(2, 7)];
    let blocks = [Point::new(0, 0), Point::new(0, 1)];
    assert_eq!(project((5, 10), &fb, Point::new(2, 0), &blocks), 5);
    assert_eq!(project((5, 10), &fb, Point::new(1, 0), &blocks), 8);
    assert_eq!(project((5, 10), &fb, Point::new(1, 8), &blocks), 8);
}

#[test]
fn projection_of_nothing_runs_to_the_end_of_the_range() {
    let fb: Vec<Point> = Vec::new();
    assert_eq!(project((5, 10), &fb, Point::new(0, i32::MAX - 3), &[]), i32::MAX);
}

#[test]
fn free_move_gives_position_and_projection() {
    let fb: Vec<Point> = Vec::new();
    let b = [Point::new(0, 0)];
    assert_eq!(
        move_piece((3, 3), &fb, Point::new(1, 0), &b, Direction::LEFT),
        Some((Point::new(0, 0), 2))
    );
    assert_eq!(
        move_piece((3, 3), &fb, Point::new(1, 0), &b, Direction::RIGHT),
        Some((Point::new(2, 0), 2))
    );
    assert_eq!(
        move_piece((3, 3), &fb, Point::new(1, 0), &b, Direction::DOWN),
        Some((Point::new(1, 1), 2))
    );
    assert_eq!(move_piece((3, 3), &fb, Point::new(0, 0), &b, Direction::LEFT), None);
    assert_eq!(move_piece((3, 3), &fb, Point::new(2, 0), &b, Direction::RIGHT), None);
    assert_eq!(move_piece((3, 3), &fb, Point::new(1, 2), &b, Direction::DOWN), None);
    assert_eq!(move_piece((3, 3), &fb, Point::new(i32::MIN, 0), &[], Direction::LEFT), None);
}

#[test]
fn quarter_turn_maps_each_block() {
    let p = piece(3, "010111000");
    let r = rotate_blocks(3, &p.blocks);
    assert_eq!(r, vec![Point::new(2, 1), Point::new(1, 0), Point::new(1, 1), Point::new(1, 2)]);
}

#[test]
fn four_quarter_turns_are_none() {
    let p = piece(4, "0100 0100 0110 0001");
    let mut b = p.blocks.clone();
    for _ in 0..4 {
        b = rotate_blocks(4, &b);
    }
    assert_eq!(b, p.blocks);
    let once = rotate_blocks(4, &p.blocks);
    assert_ne!(once, p.blocks);
}

#[test]
fn flags_switch_on_and_stay() {
    let mut f = 0u8;
    assert!(!check(&f, Flag::PieceHoldEnabled));
    switch(&mut f, Flag::PieceHoldEnabled, false);
    assert_eq!(f, 0);
    switch(&mut f, Flag::PieceHoldEnabled, true);
    assert_eq!(f, 1);
    assert!(check(&f, Flag::PieceHoldEnabled));
    switch(&mut f, Flag::PieceHoldEnabled, false);
    assert!(check(&f, Flag::PieceHoldEnabled));
    let mut g = 0xf0u8;
    switch(&mut g, Flag::PieceHoldEnabled, true);
    assert_eq!(g, 0xf1);
}

#[test]
fn threshold_is_a_tenth_of_the_shorter_side() {
    assert_eq!(calc_threshold((1080, 720)), 72);
    assert_eq!(calc_threshold((100, 2000)), 10);
    assert_eq!(calc_threshold((9, 9)), 0);
}

#[test]
fn layout_centres_the_field() {
    let r = new_resize((1080, 720), (10, 20));
    assert_eq!(r.threshold, 72);
    assert_eq!(r.block_size, 32);
    assert_eq!(r.field_rect, Rect { x: 380, y: 40, w: 320, h: 640 });
    let r = new_resize((100, 100), (200, 1));
    assert_eq!(r.block_size, 0);
    assert_eq!(r.field_rect, Rect { x: 50, y: 50, w: 0, h: 0 });
}

fn raw_profile() -> RawProfile {
    RawProfile {
        width: 10,
        height: 20,
        piece_tick: None,
        start_piece: raw(2, "1111"),
        piece_view_size: None,
        piece_hold_enabled: None,
    }
}

#[test]
fn profile_defaults() {
    let p = load(&raw_profile()).ok().unwrap();
    assert_eq!(p.field_dim, (10, 20));
    assert_eq!(p.piece_tick, NO_TICK);
    assert_eq!(p.piece_tick, 100 * 31_557_600 * 1000);
    assert_eq!(p.piece_view_size, 0);
    assert!(!p.piece_hold_enabled);
    assert_eq!(p.start_piece.blocks.len(), 4);
    assert_eq!(p.bg_color, Color::rgba(255, 255, 255, 255));
    assert_eq!(p.field_bg_color, Color::rgba(0, 0, 0, 255));
    assert_eq!(p.field_edge_color, Color::rgba(128, 128, 128, 255));
}

#[test]
fn profile_values_carry_over() {
    let mut r = raw_profile();
    r.piece_tick = Some(500);
    r.piece_view_size = Some(3);
    r.piece_hold_enabled = Some(true);
    let p = load(&r).ok().unwrap();
    assert_eq!(p.piece_tick, 500);
    assert_eq!(p.piece_view_size, 3);
    assert!(p.piece_hold_enabled);
}

#[test]
fn profile_faults() {
    let mut r = raw_profile();
    r.width = -1;
    assert_eq!(load(&r).err().unwrap().kind, ErrorKind::BadNumber);
    let mut r = raw_profile();
    r.height = 1 << 32;
    assert_eq!(load(&r).err().unwrap().kind, ErrorKind::BadNumber);
    let mut r = raw_profile();
    r.piece_tick = Some(-5);
    assert_eq!(load(&r).err().unwrap().kind, ErrorKind::BadNumber);
    let mut r = raw_profile();
    r.start_piece = raw(2, "111");
    assert_eq!(load(&r).err().unwrap().kind, ErrorKind::SizeMismatch);
    let mut r = raw_profile();
    r.piece_view_size = Some(-1);
    assert_eq!(load(&r).err().unwrap().kind, ErrorKind::BadNumber);
}

#[test]
fn parse_error_keeps_its_message() {
    let e = tetris::error::ParseError::from_str("Couldn't open file \"a.xml\".");
    assert_eq!(e.err, "Couldn't open file \"a.xml\".");
    assert_eq!(e.message(), "Couldn't open file \"a.xml\".");
}

#[test]
fn piece_check_tells_a_well_formed_piece() {
    let mut p = piece(2, "1101");
    assert!(p.check());
    p.blocks[0] = Point::new(2, 0);
    assert!(!p.check());
    p.blocks[0] = Point::new(0, -1);
    assert!(!p.check());
    p.blocks[0] = Point::new(1, 0);
    assert!(!p.check());
    p.blocks[0] = Point::new(0, 0);
    assert!(p.check());
    p.colors.pop();
    assert!(!p.check());
    let empty = Piece { dim: 0, colors: Vec::new(), blocks: Vec::new() };
    assert!(empty.check());
    let huge = Piece { dim: u32::MAX, colors: Vec::new(), blocks: Vec::new() };
    assert!(!huge.check());
}
