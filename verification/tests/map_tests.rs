use text_adventure::map::{MapTile, MultiShapeTile, TileMap};
use text_adventure::vector::Vec2;

fn lines_of(strs: &[&str]) -> Vec<String> {
    strs.iter().map(|s| s.to_string()).collect()
}

fn parse(strs: &[&str]) -> TileMap {
    TileMap::parse_lines(&lines_of(strs)).expect("grid fits the machine")
}

#[test]
fn row_and_colums() {
    let width: usize = 8;
    let tiles_len: usize = 31;

    let beginning_row = |idx: usize| idx < width;
    let ending_row = |idx: usize| idx > tiles_len - width;
    let beginning_column = |idx: usize| idx % width == 0;
    let ending_column = |idx: usize| (idx / width + 1) * width % width == 0;

    assert!(beginning_row(0));
    assert!(beginning_row(3));
    assert!(beginning_row(7));

    assert!(ending_row(24));
    assert!(ending_row(27));
    assert!(ending_row(31));

    assert!(beginning_column(0));
    assert!(beginning_column(16));
    assert!(beginning_column(24));

    assert!(ending_column(7));
    assert!(ending_column(15));
    assert!(ending_column(31));
}

#[test]
fn tile_table() {
    assert_eq!(TileMap::tile_from_char('@'), MapTile::Player);
    assert_eq!(TileMap::tile_from_char('.'), MapTile::Grass);
    assert_eq!(TileMap::tile_from_char('+'), MapTile::Road);
    assert_eq!(TileMap::tile_from_char('#'), MapTile::Wall);
    assert_eq!(TileMap::tile_from_char('W'), MapTile::Window { locked: true });
    assert_eq!(TileMap::tile_from_char('w'), MapTile::Window { locked: false });
    assert_eq!(TileMap::tile_from_char('D'), MapTile::Door { locked: true });
    assert_eq!(TileMap::tile_from_char('d'), MapTile::Door { locked: false });
    assert_eq!(TileMap::tile_from_char('x'), MapTile::Empty);
    assert_eq!(TileMap::tile_from_char(' '), MapTile::Empty);
}

#[test]
fn player_marker_round_trip() {
    // An `@` at row 2, column 3 becomes the starting position and leaves
    // an empty cell behind.
    let m = parse(&["#####", ".....", "...@."]);
    assert_eq!(m.player_position(), Some(Vec2::new(3, 2)));
    assert_eq!(m.get_tile(3, 2), Some(&MapTile::Empty));
    assert_eq!(m.width(), 5);
    assert_eq!(m.height(), 3);
}

#[test]
fn comments_blanks_and_details() {
    let m = parse(&[
        "; a comment before the grid",
        "",
        "#.#",
        "; one in the middle",
        ".@.",
        "  [details]  ",
        "; commented note",
        "first note",
        "",
        "second note",
    ]);
    assert_eq!(m.width(), 3);
    assert_eq!(m.height(), 2);
    assert_eq!(m.player_position(), Some(Vec2::new(1, 1)));
    assert_eq!(m.details(), "first note\nsecond note\n");
}

#[test]
fn short_rows_are_padded() {
    let m = parse(&["##", "#"]);
    assert_eq!(m.width(), 2);
    assert_eq!(m.height(), 2);
    assert_eq!(m.get_tile(1, 1), Some(&MapTile::Empty));
    assert_eq!(m.get_tile(1, 0), Some(&MapTile::Wall));
}

#[test]
fn last_marker_wins() {
    let m = parse(&["@.@", "..."]);
    assert_eq!(m.player_position(), Some(Vec2::new(2, 0)));
    assert_eq!(m.get_tile(0, 0), Some(&MapTile::Empty));
    assert_eq!(m.get_tile(2, 0), Some(&MapTile::Empty));
}

#[test]
fn get_tile_bounds() {
    let m = parse(&["##", "##"]);
    assert_eq!(m.get_tile(2, 0), None);
    assert_eq!(m.get_tile(0, 2), None);
    assert_eq!(m.get_tile(1, 1), Some(&MapTile::Wall));
}

#[test]
fn set_tile_replaces() {
    let mut m = parse(&["##", "##"]);
    m.set_tile(1, 0, MapTile::Grass);
    assert_eq!(m.get_tile(1, 0), Some(&MapTile::Grass));
    assert_eq!(m.get_tile(0, 0), Some(&MapTile::Wall));
}

#[test]
fn movement_gate() {
    let m = parse(&["#.+dDwWx"]);
    assert!(!m.can_move(Vec2::new(0, 0)));  // wall
    assert!(m.can_move(Vec2::new(1, 0)));  // grass
    assert!(m.can_move(Vec2::new(2, 0)));  // road
    assert!(m.can_move(Vec2::new(3, 0)));  // unlocked door
    assert!(!m.can_move(Vec2::new(4, 0)));  // locked door
    assert!(m.can_move(Vec2::new(5, 0)));  // unlocked window
    assert!(!m.can_move(Vec2::new(6, 0)));  // locked window
    assert!(m.can_move(Vec2::new(7, 0)));  // empty
}

#[test]
fn homogeneous_block_classifies_as_junctions() {
    // A 3x3 block of one multishape kind: the center is the all-sides
    // junction, the edge midpoints are T-junctions, for both kinds.
    for block in [&["###", "###", "###"], &["+++", "+++", "+++"]] {
        let m = parse(block);
        assert_eq!(m.shape_at(1, 1), MultiShapeTile::Cross);
        assert_eq!(m.shape_at(1, 0), MultiShapeTile::TopCenter);
        assert_eq!(m.shape_at(1, 2), MultiShapeTile::BottomCenter);
        assert_eq!(m.shape_at(0, 1), MultiShapeTile::CenterLeft);
        assert_eq!(m.shape_at(2, 1), MultiShapeTile::CenterRight);
        assert_eq!(m.shape_at(0, 0), MultiShapeTile::TopLeft);
        assert_eq!(m.shape_at(2, 0), MultiShapeTile::TopRight);
        assert_eq!(m.shape_at(0, 2), MultiShapeTile::BottomLeft);
        assert_eq!(m.shape_at(2, 2), MultiShapeTile::BottomRight);
    }
}

#[test]
fn isolated_tile_is_single() {
    let m = parse(&["...", ".#.", "..."]);
    assert_eq!(m.shape_at(1, 1), MultiShapeTile::Single);
    let one = parse(&["#"]);
    assert_eq!(one.shape_at(0, 0), MultiShapeTile::Single);
}

#[test]
fn kinds_do_not_merge_across_each_other() {
    // A road next to a wall is no same-kind neighbor.
    let m = parse(&["#+#"]);
    assert_eq!(m.shape_at(0, 0), MultiShapeTile::Single);
    assert_eq!(m.shape_at(1, 0), MultiShapeTile::Single);
    assert_eq!(m.shape_at(2, 0), MultiShapeTile::Single);
}

#[test]
fn lock_state_does_not_affect_classification() {
    // The same wall layout around a locked and an unlocked door renders
    // the walls identically.
    let locked = parse(&["#D#"]);
    let unlocked = parse(&["#d#"]);
    assert_eq!(locked.shape_at(0, 0), unlocked.shape_at(0, 0));
    assert_eq!(locked.shape_at(2, 0), unlocked.shape_at(2, 0));
    assert_eq!(locked.render_glyphs()[0], unlocked.render_glyphs()[0]);
}

#[test]
fn line_runs_collapse_to_line_glyphs() {
    let m = parse(&["###"]);
    assert_eq!(m.shape_at(0, 0), MultiShapeTile::HorizontalRight);
    assert_eq!(m.shape_at(1, 0), MultiShapeTile::Horizontal);
    assert_eq!(m.shape_at(2, 0), MultiShapeTile::HorizontalLeft);
    let g = m.render_glyphs();
    assert_eq!(g, vec!['\u{2501}', '\u{2501}', '\u{2501}']);

    let v = parse(&["#", "#", "#"]);
    assert_eq!(v.shape_at(0, 0), MultiShapeTile::VerticalBottom);
    assert_eq!(v.shape_at(0, 1), MultiShapeTile::Vertical);
    assert_eq!(v.shape_at(0, 2), MultiShapeTile::VerticalTop);
    assert_eq!(v.render_glyphs(), vec!['\u{2503}', '\u{2503}', '\u{2503}']);
}

#[test]
fn render_glyphs_mixed_grid() {
    let m = parse(&["##", "#."]);
    // Top-left corner, horizontal end, vertical end, grass.
    assert_eq!(m.render_glyphs(), vec!['\u{250f}', '\u{2501}', '\u{2503}', '.']);
}

#[test]
fn render_glyphs_fixed_tiles() {
    let m = parse(&["DdWw", "x.x "]);
    assert_eq!(m.render_glyphs(), vec!['D', 'd', 'W', 'w', ' ', '.', ' ', ' ']);
}

#[test]
fn cross_of_roads_renders_junction() {
    let m = parse(&[".+.", "+++", ".+."]);
    let g = m.render_glyphs();
    assert_eq!(g[4], '\u{254b}');
}
