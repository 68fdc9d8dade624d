//! The tile map: the closed set of tile kinds, the grid with bounds-checked
//! access, the movement gate, and the adjacency-driven border classifier.

use vstd::prelude::*;
use vstd::string::*;
use crate::tiles;
use crate::vector::Vec2;

verus! {

/// One cell of the map.
///
/// `Wall` and `Road` are the multishape kinds: their rendered glyph depends
/// on same-kind adjacency. Every other kind renders from a fixed table.
/// `Player` never survives parsing: it is replaced by `Empty` and its
/// coordinate is extracted into the grid's starting position.
#[derive(Debug, Clone, Copy, PartialEq, Eq, Structural)]
pub enum MapTile {
    Empty,
    Player,
    Grass,
    Wall,
    Road,
    Door { locked: bool },
    Window { locked: bool },
}

/// Whether two tiles are of the same coarse kind. Lock state is ignored:
/// a locked and an unlocked door are the same kind. Adjacency merging is
/// driven by this test alone.
pub open spec fn same_kind(a: MapTile, b: MapTile) -> bool {
    match (a, b) {
        (MapTile::Empty, MapTile::Empty) => true,
        (MapTile::Player, MapTile::Player) => true,
        (MapTile::Grass, MapTile::Grass) => true,
        (MapTile::Wall, MapTile::Wall) => true,
        (MapTile::Road, MapTile::Road) => true,
        (MapTile::Door { .. }, MapTile::Door { .. }) => true,
        (MapTile::Window { .. }, MapTile::Window { .. }) => true,
        _ => false,
    }
}

impl MapTile {
    /// The kinds whose glyph is derived from same-kind adjacency.
    pub open spec fn spec_is_multishape(self) -> bool {
        self == MapTile::Wall || self == MapTile::Road
    }

    /// Whether this tile participates in adjacency-based shape merging.
    pub fn is_multishape(&self) -> (r: bool)
        ensures
            r == self.spec_is_multishape(),
    {
        matches!(self, MapTile::Wall | MapTile::Road)
    }
}

/// Whether two tiles are of the same coarse kind, as executed.
pub fn kind_matches(a: &MapTile, b: &MapTile) -> (r: bool)
    ensures
        r == same_kind(*a, *b),
{
    match (a, b) {
        (MapTile::Empty, MapTile::Empty) => true,
        (MapTile::Player, MapTile::Player) => true,
        (MapTile::Grass, MapTile::Grass) => true,
        (MapTile::Wall, MapTile::Wall) => true,
        (MapTile::Road, MapTile::Road) => true,
        (MapTile::Door { .. }, MapTile::Door { .. }) => true,
        (MapTile::Window { .. }, MapTile::Window { .. }) => true,
        _ => false,
    }
}

/// The sixteen context-sensitive border shapes of a multishape tile, one
/// per subset of matching axis neighbors.
#[derive(Debug, Clone, Copy, PartialEq, Eq, Structural)]
pub enum MultiShapeTile {
    Single,
    HorizontalLeft,
    HorizontalRight,
    Horizontal,
    VerticalTop,
    VerticalBottom,
    Vertical,
    TopLeft,
    TopCenter,
    TopRight,
    BottomLeft,
    BottomCenter,
    BottomRight,
    CenterLeft,
    CenterRight,
    Cross,
}

/// The shape of a multishape tile, directly from the subset of directions
/// (up, down, left, right) whose neighbor matches in kind.
pub open spec fn spec_shape_from_dirs(up: bool, down: bool, left: bool, right: bool)
    -> MultiShapeTile {
    match (up, down, left, right) {
        (false, false, false, false) => MultiShapeTile::Single,
        (true, false, false, false) => MultiShapeTile::VerticalTop,
        (false, true, false, false) => MultiShapeTile::VerticalBottom,
        (false, false, true, false) => MultiShapeTile::HorizontalLeft,
        (false, false, false, true) => MultiShapeTile::HorizontalRight,
        (true, true, false, false) => MultiShapeTile::Vertical,
        (true, false, true, false) => MultiShapeTile::BottomRight,
        (true, false, false, true) => MultiShapeTile::BottomLeft,
        (false, true, true, false) => MultiShapeTile::TopRight,
        (false, true, false, true) => MultiShapeTile::TopLeft,
        (false, false, true, true) => MultiShapeTile::Horizontal,
        (true, true, true, false) => MultiShapeTile::CenterRight,
        (true, true, false, true) => MultiShapeTile::CenterLeft,
        (true, false, true, true) => MultiShapeTile::BottomCenter,
        (false, true, true, true) => MultiShapeTile::TopCenter,
        (true, true, true, true) => MultiShapeTile::Cross,
    }
}

/// The shape of a multishape tile, as executed.
pub fn shape_from_dirs(up: bool, down: bool, left: bool, right: bool) -> (s: MultiShapeTile)
    ensures
        s == spec_shape_from_dirs(up, down, left, right),
{
    match (up, down, left, right) {
        (false, false, false, false) => MultiShapeTile::Single,
        (true, false, false, false) => MultiShapeTile::VerticalTop,
        (false, true, false, false) => MultiShapeTile::VerticalBottom,
        (false, false, true, false) => MultiShapeTile::HorizontalLeft,
        (false, false, false, true) => MultiShapeTile::HorizontalRight,
        (true, true, false, false) => MultiShapeTile::Vertical,
        (true, false, true, false) => MultiShapeTile::BottomRight,
        (true, false, false, true) => MultiShapeTile::BottomLeft,
        (false, true, true, false) => MultiShapeTile::TopRight,
        (false, true, false, true) => MultiShapeTile::TopLeft,
        (false, false, true, true) => MultiShapeTile::Horizontal,
        (true, true, true, false) => MultiShapeTile::CenterRight,
        (true, true, false, true) => MultiShapeTile::CenterLeft,
        (true, false, true, true) => MultiShapeTile::BottomCenter,
        (false, true, true, true) => MultiShapeTile::TopCenter,
        (true, true, true, true) => MultiShapeTile::Cross,
    }
}

/// The border-drawing symbol of a shape. Several shapes collapse to the
/// same drawn symbol: the three horizontal identities, the three vertical
/// identities, and the isolated tile with the all-sides junction.
pub open spec fn spec_shape_glyph(s: MultiShapeTile) -> char {
    match s {
        MultiShapeTile::Cross => tiles::BORDER_CENTER_CENTER,
        MultiShapeTile::Single => tiles::BORDER_CENTER_CENTER,
        MultiShapeTile::TopLeft => tiles::BORDER_TOP_LEFT,
        MultiShapeTile::TopCenter => tiles::BORDER_TOP_CENTER,
        MultiShapeTile::TopRight => tiles::BORDER_TOP_RIGHT,
        MultiShapeTile::BottomLeft => tiles::BORDER_BOTTOM_LEFT,
        MultiShapeTile::BottomCenter => tiles::BORDER_BOTTOM_CENTER,
        MultiShapeTile::BottomRight => tiles::BORDER_BOTTOM_RIGHT,
        MultiShapeTile::CenterLeft => tiles::BORDER_CENTER_LEFT,
        MultiShapeTile::CenterRight => tiles::BORDER_CENTER_RIGHT,
        MultiShapeTile::HorizontalLeft => tiles::BORDER_HORIZONTAL,
        MultiShapeTile::HorizontalRight => tiles::BORDER_HORIZONTAL,
        MultiShapeTile::Horizontal => tiles::BORDER_HORIZONTAL,
        MultiShapeTile::VerticalTop => tiles::BORDER_VERTICAL,
        MultiShapeTile::VerticalBottom => tiles::BORDER_VERTICAL,
        MultiShapeTile::Vertical => tiles::BORDER_VERTICAL,
    }
}

/// The border-drawing symbol of a shape, as executed.
pub fn shape_glyph(s: MultiShapeTile) -> (c: char)
    ensures
        c == spec_shape_glyph(s),
{
    match s {
        MultiShapeTile::Cross => tiles::BORDER_CENTER_CENTER,
        MultiShapeTile::Single => tiles::BORDER_CENTER_CENTER,
        MultiShapeTile::TopLeft => tiles::BORDER_TOP_LEFT,
        MultiShapeTile::TopCenter => tiles::BORDER_TOP_CENTER,
        MultiShapeTile::TopRight => tiles::BORDER_TOP_RIGHT,
        MultiShapeTile::BottomLeft => tiles::BORDER_BOTTOM_LEFT,
        MultiShapeTile::BottomCenter => tiles::BORDER_BOTTOM_CENTER,
        MultiShapeTile::BottomRight => tiles::BORDER_BOTTOM_RIGHT,
        MultiShapeTile::CenterLeft => tiles::BORDER_CENTER_LEFT,
        MultiShapeTile::CenterRight => tiles::BORDER_CENTER_RIGHT,
        MultiShapeTile::HorizontalLeft => tiles::BORDER_HORIZONTAL,
        MultiShapeTile::HorizontalRight => tiles::BORDER_HORIZONTAL,
        MultiShapeTile::Horizontal => tiles::BORDER_HORIZONTAL,
        MultiShapeTile::VerticalTop => tiles::BORDER_VERTICAL,
        MultiShapeTile::VerticalBottom => tiles::BORDER_VERTICAL,
        MultiShapeTile::Vertical => tiles::BORDER_VERTICAL,
    }
}

/// The fixed glyph of a non-multishape tile.
pub open spec fn spec_direct_glyph(t: MapTile) -> char {
    match t {
        MapTile::Empty => tiles::EMPTY,
        MapTile::Player => tiles::PLAYER,
        MapTile::Grass => tiles::GRASS,
        MapTile::Door { locked } => if locked {
            tiles::DOOR_LOCKED
        } else {
            tiles::DOOR_UNLOCKED
        },
        MapTile::Window { locked } => if locked {
            tiles::WINDOW_LOCKED
        } else {
            tiles::WINDOW_UNLOCKED
        },
        MapTile::Wall => tiles::EMPTY,
        MapTile::Road => tiles::EMPTY,
    }
}

/// Whether a destination tile admits the player: walls and locked doors
/// and windows block, everything else is passable.
pub open spec fn spec_can_enter(t: MapTile) -> bool {
    match t {
        MapTile::Wall => false,
        MapTile::Door { locked } => !locked,
        MapTile::Window { locked } => !locked,
        _ => true,
    }
}

/// The characters the line predicates treat as whitespace: the Unicode
/// whitespace set.
pub open spec fn is_wspace(c: char) -> bool {
    ||| c == ' '
    ||| c == '\t'
    ||| c == '\n'
    ||| c == '\r'
    ||| c == '\u{b}'
    ||| c == '\u{c}'
    ||| c == '\u{85}'
    ||| c == '\u{a0}'
    ||| c == '\u{1680}'
    ||| ('\u{2000}' <= c && c <= '\u{200a}')
    ||| c == '\u{2028}'
    ||| c == '\u{2029}'
    ||| c == '\u{202f}'
    ||| c == '\u{205f}'
    ||| c == '\u{3000}'
}

/// Whitespace test, as executed.
pub fn wspace_char(c: char) -> (r: bool)
    ensures
        r == is_wspace(c),
{
    c == ' ' || c == '\t' || c == '\n' || c == '\r' || c == '\u{b}' || c == '\u{c}' || c
        == '\u{85}' || c == '\u{a0}' || c == '\u{1680}' || ('\u{2000}' <= c && c <= '\u{200a}') || c
        == '\u{2028}' || c == '\u{2029}' || c == '\u{202f}' || c == '\u{205f}' || c == '\u{3000}'
}

/// A comment line: its first non-whitespace character is a semicolon.
pub open spec fn spec_is_comment(l: Seq<char>) -> bool {
    exists|i: int|
        0 <= i < l.len() && #[trigger] l[i] == ';' && forall|j: int| 0 <= j < i ==> is_wspace(l[j])
}

/// A line that contributes to the grid or the details: non-empty and not a
/// comment.
pub open spec fn spec_is_kept(l: Seq<char>) -> bool {
    l.len() > 0 && !spec_is_comment(l)
}

/// The sentinel line that separates the grid from its details: the line's
/// trimmed form is exactly `[details]`.
pub open spec fn spec_is_sentinel(l: Seq<char>) -> bool {
    exists|a: int, b: int|
        {
            &&& 0 <= a <= b <= l.len()
            &&& #[trigger] l.subrange(a, b) == "[details]"@
            &&& (forall|j: int| 0 <= j < a ==> is_wspace(l[j]))
            &&& (forall|j: int| b <= j < l.len() ==> is_wspace(l[j]))
        }
}

/// The index of the first non-whitespace character of `s`, or its length.
fn first_non_ws(s: &str) -> (i: usize)
    ensures
        i <= s@.len(),
        forall|j: int| 0 <= j < i ==> is_wspace(s@[j]),
        i < s@.len() ==> !is_wspace(s@[i as int]),
{
    let n = s.unicode_len();
    let mut i: usize = 0;
    while i < n
        invariant
            n == s@.len(),
            i <= n,
            forall|j: int| 0 <= j < i ==> is_wspace(s@[j]),
        decreases n - i,
    {
        if !wspace_char(s.get_char(i)) {
            return i;
        }
        i += 1;
    }
    i
}

/// One past the index of the last non-whitespace character of `s`, or zero.
fn after_last_non_ws(s: &str) -> (j: usize)
    ensures
        j <= s@.len(),
        forall|k: int| j <= k < s@.len() ==> is_wspace(s@[k]),
        j > 0 ==> !is_wspace(s@[j - 1]),
{
    let n = s.unicode_len();
    let mut j: usize = n;
    while j > 0
        invariant
            n == s@.len(),
            j <= n,
            forall|k: int| j <= k < n ==> is_wspace(s@[k]),
        decreases j,
    {
        if !wspace_char(s.get_char(j - 1)) {
            return j;
        }
        j -= 1;
    }
    j
}

/// Whether `s` is a comment line.
pub fn line_is_comment(s: &str) -> (r: bool)
    ensures
        r == spec_is_comment(s@),
{
    let i = first_non_ws(s);
    let n = s.unicode_len();
    if i < n {
        let c = s.get_char(i);
        if c == ';' {
            proof {
                assert(s@[i as int] == ';');
            }
            true
        } else {
            proof {
                assert forall|k: int|
                    !(0 <= k < s@.len() && #[trigger] s@[k] == ';' && forall|j: int|
                        0 <= j < k ==> is_wspace(s@[j])) by {
                    if 0 <= k < s@.len() && s@[k] == ';' {
                        if k < i {
                            assert(is_wspace(s@[k]));
                        } else if k > i {
                            assert(!is_wspace(s@[i as int]));
                        }
                    }
                }
            }
            false
        }
    } else {
        proof {
            assert forall|k: int|
                !(0 <= k < s@.len() && #[trigger] s@[k] == ';' && forall|j: int|
                    0 <= j < k ==> is_wspace(s@[j])) by {
                if 0 <= k < s@.len() {
                    assert(is_wspace(s@[k]));
                }
            }
        }
        false
    }
}

/// Whether `s` is the `[details]` sentinel line.
pub fn line_is_sentinel(s: &str) -> (r: bool)
    ensures
        r == spec_is_sentinel(s@),
{
    let sentinel: &str = "[details]";
    proof {
        reveal_strlit("[details]");
    }
    let a = first_non_ws(s);
    let b = after_last_non_ws(s);
    if b < a || b - a != 9 {
        proof {
            lemma_sentinel_witness_pinned(s@, a as int, b as int);
        }
        return false;
    }
    let mut k: usize = 0;
    while k < 9
        invariant
            a + 9 == b,
            b <= s@.len(),
            forall|j: int| 0 <= j < a ==> is_wspace(s@[j]),
            forall|j: int| b <= j < s@.len() ==> is_wspace(s@[j]),
            a < s@.len() ==> !is_wspace(s@[a as int]),
            b > 0 ==> !is_wspace(s@[b - 1]),
            k <= 9,
            forall|j: int| 0 <= j < k ==> s@[a + j] == "[details]"@[j],
            sentinel@ == "[details]"@,
            sentinel@.len() == 9,
        decreases 9 - k,
    {
        if s.get_char(a + k) != sentinel.get_char(k) {
            proof {
                reveal_strlit("[details]");
                lemma_sentinel_witness_pinned(s@, a as int, b as int);
                assert(s@.subrange(a as int, b as int)[k as int] != "[details]"@[k as int]);
            }
            return false;
        }
        k += 1;
    }
    proof {
        assert(s@.subrange(a as int, b as int) =~= "[details]"@);
    }
    true
}

/// If a line has a sentinel witness at all, the witness is exactly the
/// trimmed span `[a0, b0)` given by the first and last non-whitespace
/// characters.
proof fn lemma_sentinel_witness_pinned(l: Seq<char>, a0: int, b0: int)
    requires
        0 <= a0 <= l.len(),
        0 <= b0 <= l.len(),
        forall|j: int| 0 <= j < a0 ==> is_wspace(l[j]),
        forall|j: int| b0 <= j < l.len() ==> is_wspace(l[j]),
        a0 < l.len() ==> !is_wspace(l[a0]),
        b0 > 0 ==> !is_wspace(l[b0 - 1]),
    ensures
        spec_is_sentinel(l) ==> b0 - a0 == 9 && l.subrange(a0, b0) == "[details]"@,
{
    reveal_strlit("[details]");
    if spec_is_sentinel(l) {
        let (a, b) = choose|a: int, b: int|
            {
                &&& 0 <= a <= b <= l.len()
                &&& #[trigger] l.subrange(a, b) == "[details]"@
                &&& (forall|j: int| 0 <= j < a ==> is_wspace(l[j]))
                &&& (forall|j: int| b <= j < l.len() ==> is_wspace(l[j]))
            };
        assert("[details]"@.len() == 9);
        assert(b - a == 9);
        assert(l.subrange(a, b)[0] == '[');
        assert(l.subrange(a, b)[8] == ']');
        assert(l[a] == '[' && l[b - 1] == ']');
        assert(!is_wspace('[') && !is_wspace(']'));
        // The witness's trimmed span coincides with [a0, b0).
        assert(a0 == a) by {
            if a0 < a {
                assert(is_wspace(l[a0]));
            } else if a0 > a {
                assert(is_wspace(l[a]));
            }
        }
        assert(b0 == b) by {
            if b0 > b {
                assert(is_wspace(l[b0 - 1]));
            } else if b0 < b {
                assert(is_wspace(l[b - 1]));
            }
        }
    }
}

/// The fixed character-to-tile table of the map text format. Unmapped
/// characters are empty cells.
pub open spec fn spec_tile_from_char(c: char) -> MapTile {
    if c == '@' {
        MapTile::Player
    } else if c == '.' {
        MapTile::Grass
    } else if c == '+' {
        MapTile::Road
    } else if c == '#' {
        MapTile::Wall
    } else if c == 'W' {
        MapTile::Window { locked: true }
    } else if c == 'w' {
        MapTile::Window { locked: false }
    } else if c == 'D' {
        MapTile::Door { locked: true }
    } else if c == 'd' {
        MapTile::Door { locked: false }
    } else {
        MapTile::Empty
    }
}

/// The tile that survives loading: the player marker is replaced by an
/// empty cell, everything else persists as mapped.
pub open spec fn spec_loaded_tile(c: char) -> MapTile {
    if spec_tile_from_char(c) == MapTile::Player {
        MapTile::Empty
    } else {
        spec_tile_from_char(c)
    }
}

/// The grid lines of a map source: the non-empty, non-comment lines up to
/// (and not including) the first sentinel line.
pub open spec fn spec_grid_lines(ls: Seq<Seq<char>>) -> Seq<Seq<char>>
    decreases ls.len(),
{
    if ls.len() == 0 {
        Seq::empty()
    } else if spec_is_sentinel(ls[0]) {
        Seq::empty()
    } else if spec_is_kept(ls[0]) {
        seq![ls[0]] + spec_grid_lines(ls.drop_first())
    } else {
        spec_grid_lines(ls.drop_first())
    }
}

/// The non-empty, non-comment lines of a sequence.
pub open spec fn spec_kept_lines(ls: Seq<Seq<char>>) -> Seq<Seq<char>>
    decreases ls.len(),
{
    if ls.len() == 0 {
        Seq::empty()
    } else if spec_is_kept(ls[0]) {
        seq![ls[0]] + spec_kept_lines(ls.drop_first())
    } else {
        spec_kept_lines(ls.drop_first())
    }
}

/// The detail lines of a map source: everything after the first sentinel
/// line, filtered like the grid lines.
pub open spec fn spec_detail_lines(ls: Seq<Seq<char>>) -> Seq<Seq<char>>
    decreases ls.len(),
{
    if ls.len() == 0 {
        Seq::empty()
    } else if spec_is_sentinel(ls[0]) {
        spec_kept_lines(ls.drop_first())
    } else {
        spec_detail_lines(ls.drop_first())
    }
}

/// Lines joined back into one text, each line followed by a newline.
pub open spec fn spec_joined(ls: Seq<Seq<char>>) -> Seq<char>
    decreases ls.len(),
{
    if ls.len() == 0 {
        Seq::empty()
    } else {
        ls[0] + seq!['\n'] + spec_joined(ls.drop_first())
    }
}

/// The grid width: the longest grid line.
pub open spec fn spec_grid_width(gls: Seq<Seq<char>>) -> int
    decreases gls.len(),
{
    if gls.len() == 0 {
        0int
    } else if gls.last().len() > spec_grid_width(gls.drop_last()) {
        gls.last().len() as int
    } else {
        spec_grid_width(gls.drop_last())
    }
}

/// The tile of the cell at column `x` of grid line `y`; columns past the
/// end of a short line are empty cells.
pub open spec fn spec_cell(gls: Seq<Seq<char>>, x: int, y: int) -> MapTile {
    if x < gls[y].len() {
        spec_loaded_tile(gls[y][x])
    } else {
        MapTile::Empty
    }
}

/// The column of the last player marker of a line, if any.
pub open spec fn spec_start_in_line(l: Seq<char>) -> Option<int>
    decreases l.len(),
{
    if l.len() == 0 {
        None
    } else if l.last() == '@' {
        Some((l.len() - 1) as int)
    } else {
        spec_start_in_line(l.drop_last())
    }
}

/// The starting position a set of grid lines declares: the last player
/// marker in row-major order, as (column, row).
pub open spec fn spec_start_pos(gls: Seq<Seq<char>>) -> Option<(int, int)>
    decreases gls.len(),
{
    if gls.len() == 0 {
        None
    } else {
        match spec_start_in_line(gls.last()) {
            Some(x) => Some((x, (gls.len() - 1) as int)),
            None => spec_start_pos(gls.drop_last()),
        }
    }
}

proof fn lemma_row_major_in_bounds(w: int, h: int, x: int, y: int)
    by (nonlinear_arith)
    requires
        0 <= x < w,
        0 <= y < h,
    ensures
        0 <= y * w + x < w * h,
{
}

/// A rectangular tile grid with its free-text details and the extracted
/// starting position.
pub struct TileMap {
    width: usize,
    height: usize,
    tiles: Vec<MapTile>,
    details: String,
    starting_position: Option<Vec2>,
}

impl TileMap {
    pub closed spec fn spec_width(self) -> usize {
        self.width
    }

    pub closed spec fn spec_height(self) -> usize {
        self.height
    }

    pub closed spec fn spec_tiles(self) -> Seq<MapTile> {
        self.tiles@
    }

    pub closed spec fn spec_details(self) -> Seq<char> {
        self.details@
    }

    pub closed spec fn spec_start(self) -> Option<Vec2> {
        self.starting_position
    }

    /// The grid invariant: the flat tile array covers exactly
    /// `width * height` cells and the starting position, if any, lies
    /// within the grid.
    pub open spec fn wf(self) -> bool {
        &&& self.spec_tiles().len() == self.spec_width() * self.spec_height()
        &&& self.spec_width() * self.spec_height() <= usize::MAX
        &&& match self.spec_start() {
            Some(v) => 0 <= v.x < self.spec_width() && 0 <= v.y < self.spec_height(),
            None => true,
        }
    }

    /// The tile at column `x`, row `y` of the row-major array.
    pub open spec fn spec_tile_at(self, x: int, y: int) -> MapTile {
        self.spec_tiles()[y * self.spec_width() + x]
    }

    pub fn width(&self) -> (w: usize)
        ensures
            w == self.spec_width(),
    {
        self.width
    }

    pub fn height(&self) -> (h: usize)
        ensures
            h == self.spec_height(),
    {
        self.height
    }

    /// Bounds-checked tile access.
    pub fn get_tile(&self, x: usize, y: usize) -> (r: Option<&MapTile>)
        requires
            self.wf(),
        ensures
            r is Some <==> x < self.spec_width() && y < self.spec_height(),
            r matches Some(t) ==> *t == self.spec_tile_at(x as int, y as int),
    {
        if x < self.width && y < self.height {
            proof {
                lemma_row_major_in_bounds(
                    self.width as int,
                    self.height as int,
                    x as int,
                    y as int,
                );
            }
            let index = y * self.width + x;
            Some(&self.tiles[index])
        } else {
            None
        }
    }

    /// Replaces the tile at `(x, y)`. The derived glyph buffer is not
    /// stored, so the next rendering pass picks the change up.
    pub fn set_tile(&mut self, x: usize, y: usize, tile: MapTile)
        requires
            old(self).wf(),
            x < old(self).spec_width(),
            y < old(self).spec_height(),
        ensures
            final(self).wf(),
            final(self).spec_width() == old(self).spec_width(),
            final(self).spec_height() == old(self).spec_height(),
            final(self).spec_details() == old(self).spec_details(),
            final(self).spec_start() == old(self).spec_start(),
            final(self).spec_tiles() == old(self).spec_tiles().update(
                y * old(self).spec_width() + x,
                tile,
            ),
    {
        proof {
            lemma_row_major_in_bounds(self.width as int, self.height as int, x as int, y as int);
        }
        let index = y * self.width + x;
        self.tiles.set(index, tile);
    }

    /// The free-text metadata that followed the grid in the map source.
    pub fn details(&self) -> (r: &str)
        ensures
            r@ == self.spec_details(),
    {
        self.details.as_str()
    }

    /// Where the player starts, if the map declared it.
    pub fn player_position(&self) -> (r: Option<Vec2>)
        ensures
            r == self.spec_start(),
    {
        self.starting_position
    }

    /// Whether the neighbor above `(x, y)` exists and matches in kind.
    pub open spec fn spec_up_match(self, x: int, y: int) -> bool {
        y > 0 && same_kind(self.spec_tile_at(x, y), self.spec_tile_at(x, y - 1))
    }

    /// Whether the neighbor below `(x, y)` exists and matches in kind.
    pub open spec fn spec_down_match(self, x: int, y: int) -> bool {
        y < self.spec_height() - 1 && same_kind(self.spec_tile_at(x, y), self.spec_tile_at(x, y + 1))
    }

    /// Whether the neighbor left of `(x, y)` exists and matches in kind.
    pub open spec fn spec_left_match(self, x: int, y: int) -> bool {
        x > 0 && same_kind(self.spec_tile_at(x, y), self.spec_tile_at(x - 1, y))
    }

    /// Whether the neighbor right of `(x, y)` exists and matches in kind.
    pub open spec fn spec_right_match(self, x: int, y: int) -> bool {
        x < self.spec_width() - 1 && same_kind(self.spec_tile_at(x, y), self.spec_tile_at(x + 1, y))
    }

    /// The border shape of the tile at `(x, y)`: the direct function of
    /// which in-grid axis neighbors match it in kind.
    pub open spec fn spec_shape_at(self, x: int, y: int) -> MultiShapeTile {
        spec_shape_from_dirs(
            self.spec_up_match(x, y),
            self.spec_down_match(x, y),
            self.spec_left_match(x, y),
            self.spec_right_match(x, y),
        )
    }

    /// The glyph the cell at `(x, y)` renders as: the border symbol of its
    /// shape for a multishape tile, the fixed table otherwise.
    pub open spec fn spec_glyph_at(self, x: int, y: int) -> char {
        if self.spec_tile_at(x, y).spec_is_multishape() {
            spec_shape_glyph(self.spec_shape_at(x, y))
        } else {
            spec_direct_glyph(self.spec_tile_at(x, y))
        }
    }

    /// Classifies the multishape tile at `(x, y)`: probes the in-grid
    /// axis neighbors for same-kind adjacency and folds the matches into
    /// one of the sixteen border shapes.
    pub fn shape_at(&self, x: usize, y: usize) -> (s: MultiShapeTile)
        requires
            self.wf(),
            x < self.spec_width(),
            y < self.spec_height(),
            self.spec_tile_at(x as int, y as int).spec_is_multishape(),
        ensures
            s == self.spec_shape_at(x as int, y as int),
    {
        proof {
            lemma_row_major_in_bounds(self.width as int, self.height as int, x as int, y as int);
        }
        let here = self.tiles[y * self.width + x];

        let up = y > 0 && {
            proof {
                lemma_row_major_in_bounds(
                    self.width as int,
                    self.height as int,
                    x as int,
                    y as int - 1,
                );
            }
            kind_matches(&here, &self.tiles[(y - 1) * self.width + x])
        };
        let down = y < self.height - 1 && {
            proof {
                lemma_row_major_in_bounds(
                    self.width as int,
                    self.height as int,
                    x as int,
                    y as int + 1,
                );
            }
            kind_matches(&here, &self.tiles[(y + 1) * self.width + x])
        };
        let left = x > 0 && {
            proof {
                lemma_row_major_in_bounds(
                    self.width as int,
                    self.height as int,
                    x as int - 1,
                    y as int,
                );
            }
            kind_matches(&here, &self.tiles[y * self.width + (x - 1)])
        };
        let right = x < self.width - 1 && {
            proof {
                lemma_row_major_in_bounds(
                    self.width as int,
                    self.height as int,
                    x as int + 1,
                    y as int,
                );
            }
            kind_matches(&here, &self.tiles[y * self.width + (x + 1)])
        };

        shape_from_dirs(up, down, left, right)
    }

    /// The glyph of the single cell at `(x, y)`.
    pub fn glyph_at(&self, x: usize, y: usize) -> (c: char)
        requires
            self.wf(),
            x < self.spec_width(),
            y < self.spec_height(),
        ensures
            c == self.spec_glyph_at(x as int, y as int),
    {
        proof {
            lemma_row_major_in_bounds(self.width as int, self.height as int, x as int, y as int);
        }
        let here = self.tiles[y * self.width + x];
        if here.is_multishape() {
            shape_glyph(self.shape_at(x, y))
        } else {
            match here {
                MapTile::Empty => tiles::EMPTY,
                MapTile::Player => tiles::PLAYER,
                MapTile::Grass => tiles::GRASS,
                MapTile::Door { locked } => if locked {
                    tiles::DOOR_LOCKED
                } else {
                    tiles::DOOR_UNLOCKED
                },
                MapTile::Window { locked } => if locked {
                    tiles::WINDOW_LOCKED
                } else {
                    tiles::WINDOW_UNLOCKED
                },
                MapTile::Wall | MapTile::Road => {
                    proof {
                        assert(false);
                    }
                    tiles::EMPTY
                },
            }
        }
    }

    /// Renders the whole grid: one glyph per cell, row-major, derived on
    /// demand from the current tiles.
    pub fn render_glyphs(&self) -> (g: Vec<char>)
        requires
            self.wf(),
        ensures
            g@.len() == self.spec_width() * self.spec_height(),
            forall|x: int, y: int|
                0 <= x < self.spec_width() && 0 <= y < self.spec_height()
                    ==> #[trigger] g@[y * self.spec_width() + x] == self.spec_glyph_at(x, y),
    {
        let mut g: Vec<char> = Vec::new();
        let mut y: usize = 0;
        while y < self.height
            invariant
                self.wf(),
                y <= self.spec_height(),
                g@.len() == y * self.spec_width(),
                forall|xx: int, yy: int|
                    0 <= xx < self.spec_width() && 0 <= yy < y
                        ==> #[trigger] g@[yy * self.spec_width() + xx] == self.spec_glyph_at(
                        xx,
                        yy,
                    ),
            decreases self.spec_height() - y,
        {
            let mut x: usize = 0;
            while x < self.width
                invariant
                    self.wf(),
                    y < self.spec_height(),
                    x <= self.spec_width(),
                    g@.len() == y * self.spec_width() + x,
                    forall|xx: int, yy: int|
                        0 <= xx < self.spec_width() && 0 <= yy < y
                            ==> #[trigger] g@[yy * self.spec_width() + xx] == self.spec_glyph_at(
                            xx,
                            yy,
                        ),
                    forall|xx: int|
                        0 <= xx < x ==> #[trigger] g@[y * self.spec_width() + xx]
                            == self.spec_glyph_at(xx, y as int),
                decreases self.spec_width() - x,
            {
                proof {
                    lemma_row_major_in_bounds(
                        self.width as int,
                        self.height as int,
                        x as int,
                        y as int,
                    );
                }
                let c = self.glyph_at(x, y);
                g.push(c);
                x += 1;
                proof {
                    assert forall|xx: int, yy: int|
                        0 <= xx < self.spec_width() && 0 <= yy < y implies #[trigger] g@[yy
                        * self.spec_width() + xx] == self.spec_glyph_at(xx, yy) by {
                        lemma_row_major_in_bounds(
                            self.spec_width() as int,
                            y as int,
                            xx,
                            yy,
                        );
                    }
                }
            }
            y += 1;
            proof {
                assert(g@.len() == (y - 1) * self.spec_width() + self.spec_width());
                assert((y - 1) * self.spec_width() + self.spec_width() == y * self.spec_width())
                    by (nonlinear_arith);
                assert forall|xx: int, yy: int|
                    0 <= xx < self.spec_width() && 0 <= yy < y implies #[trigger] g@[yy
                    * self.spec_width() + xx] == self.spec_glyph_at(xx, yy) by {
                    if yy < y - 1 {
                        lemma_row_major_in_bounds(self.spec_width() as int, y as int, xx, yy);
                    }
                }
            }
        }
        proof {
            vstd::arithmetic::mul::lemma_mul_is_commutative(
                self.spec_height() as int,
                self.spec_width() as int,
            );
        }
        g
    }

    /// The movement gate: whether the player may step onto `pos`.
    /// Out-of-grid destinations must be excluded by the caller.
    pub fn can_move(&self, pos: Vec2) -> (r: bool)
        requires
            self.wf(),
            0 <= pos.x < self.spec_width(),
            0 <= pos.y < self.spec_height(),
        ensures
            r == spec_can_enter(self.spec_tile_at(pos.x as int, pos.y as int)),
    {
        proof {
            lemma_row_major_in_bounds(
                self.width as int,
                self.height as int,
                pos.x as int,
                pos.y as int,
            );
        }
        let index = pos.to_index(self.width);
        match self.tiles[index] {
            MapTile::Wall => false,
            MapTile::Window { locked: true } => false,
            MapTile::Door { locked: true } => false,
            _ => true,
        }
    }
}

/// Whether `s` contributes to the grid or the details.
pub fn line_is_kept(s: &str) -> (r: bool)
    ensures
        r == spec_is_kept(s@),
{
    s.unicode_len() > 0 && !line_is_comment(s)
}

/// Every grid line is at most the grid width long.
proof fn lemma_grid_width_bounds(gls: Seq<Seq<char>>, y: int)
    requires
        0 <= y < gls.len(),
    ensures
        gls[y].len() <= spec_grid_width(gls),
    decreases gls.len(),
{
    if y < gls.len() - 1 {
        lemma_grid_width_bounds(gls.drop_last(), y);
        assert(gls.drop_last()[y] == gls[y]);
    }
}

impl TileMap {
    /// Maps one source character to its tile.
    pub fn tile_from_char(ch: char) -> (t: MapTile)
        ensures
            t == spec_tile_from_char(ch),
    {
        match ch {
            '@' => MapTile::Player,
            '.' => MapTile::Grass,
            '+' => MapTile::Road,
            '#' => MapTile::Wall,
            'W' => MapTile::Window { locked: true },
            'w' => MapTile::Window { locked: false },
            'D' => MapTile::Door { locked: true },
            'd' => MapTile::Door { locked: false },
            _ => MapTile::Empty,
        }
    }

    /// Builds the map from the raw lines of a map source.
    ///
    /// The non-empty, non-comment lines before the `[details]` sentinel
    /// become the grid: one character per cell, short rows padded with
    /// empty cells to the width of the longest row. A player marker is
    /// replaced by an empty cell and its coordinate recorded (the last
    /// marker in row-major order wins). The kept lines after the sentinel
    /// are retained verbatim as the details text.
    ///
    /// Returns `None` only when the grid is too large for the machine:
    /// more cells than `usize` can count, or a dimension beyond `i32`.
    pub fn parse_lines(lines: &Vec<String>) -> (r: Option<TileMap>)
        ensures
            ({
                let ls = lines@.map_values(|s: String| s@);
                let gls = spec_grid_lines(ls);
                match r {
                    Some(m) => {
                        &&& m.wf()
                        &&& m.spec_width() == spec_grid_width(gls)
                        &&& m.spec_height() == gls.len()
                        &&& forall|x: int, y: int|
                            0 <= x < m.spec_width() && 0 <= y < m.spec_height()
                                ==> m.spec_tile_at(x, y) == spec_cell(gls, x, y)
                        &&& m.spec_start() == (match spec_start_pos(gls) {
                            Some(p) => Some(Vec2 { x: p.0 as i32, y: p.1 as i32 }),
                            None => None::<Vec2>,
                        })
                        &&& m.spec_details() == spec_joined(spec_detail_lines(ls))
                    },
                    None => spec_grid_width(gls) * gls.len() > usize::MAX || spec_grid_width(gls)
                        > i32::MAX || gls.len() > i32::MAX,
                }
            }),
    {
        let ghost ls = lines@.map_values(|s: String| s@);
        let n = lines.len();

        // Split the source: grid lines before the sentinel, detail lines
        // after it.
        let mut grid: Vec<String> = Vec::new();
        let mut boundary: usize = n;
        let mut found_sentinel = false;
        let mut i: usize = 0;
        proof {
            assert(ls.skip(0) =~= ls);
            assert(grid@.map_values(|s: String| s@) =~= Seq::<Seq<char>>::empty());
            assert(grid@.map_values(|s: String| s@) + spec_grid_lines(ls) =~= spec_grid_lines(ls));
        }
        while i < n && !found_sentinel
            invariant
                n == lines@.len(),
                i <= n,
                ls == lines@.map_values(|s: String| s@),
                !found_sentinel ==> spec_grid_lines(ls) == grid@.map_values(|s: String| s@)
                    + spec_grid_lines(ls.skip(i as int)),
                !found_sentinel ==> spec_detail_lines(ls) == spec_detail_lines(ls.skip(i as int)),
                found_sentinel ==> spec_grid_lines(ls) == grid@.map_values(|s: String| s@),
                found_sentinel ==> boundary < n && spec_detail_lines(ls) == spec_kept_lines(
                    ls.skip(boundary + 1),
                ),
            decreases n - i,
        {
            proof {
                assert(ls[i as int] == lines@[i as int]@);
                assert(ls.skip(i as int)[0] == ls[i as int]);
                assert(ls.skip(i as int).drop_first() =~= ls.skip(i as int + 1));
            }
            let l: &String = &lines[i];
            if line_is_sentinel(l.as_str()) {
                boundary = i;
                found_sentinel = true;
                i += 1;
            } else {
                if line_is_kept(l.as_str()) {
                    let ghost old_grid = grid@;
                    grid.push(l.clone());
                    proof {
                        assert(grid@.map_values(|s: String| s@) =~= old_grid.map_values(
                            |s: String| s@,
                        ).push(ls[i as int]));
                        assert(old_grid.map_values(|s: String| s@).push(ls[i as int])
                            =~= old_grid.map_values(|s: String| s@) + seq![ls[i as int]]);
                        assert(grid@.map_values(|s: String| s@) + spec_grid_lines(
                            ls.skip(i as int + 1),
                        ) =~= old_grid.map_values(|s: String| s@) + (seq![ls[i as int]]
                            + spec_grid_lines(ls.skip(i as int + 1))));
                    }
                }
                i += 1;
            }
        }
        proof {
            if !found_sentinel {
                assert(ls.skip(n as int) =~= Seq::<Seq<char>>::empty());
            }
        }
        let ghost gls = spec_grid_lines(ls);
        proof {
            assert(gls == grid@.map_values(|s: String| s@));
        }

        // The grid dimensions: height is the number of grid lines, width
        // the length of the longest one.
        let h = grid.len();
        let mut w: usize = 0;
        let mut k: usize = 0;
        while k < h
            invariant
                h == grid@.len(),
                gls == grid@.map_values(|s: String| s@),
                k <= h,
                w == spec_grid_width(gls.take(k as int)),
            decreases h - k,
        {
            proof {
                assert(gls.take(k as int + 1).drop_last() =~= gls.take(k as int));
                assert(gls.take(k as int + 1).last() == grid@[k as int]@);
            }
            let line_len = grid[k].as_str().unicode_len();
            if line_len > w {
                w = line_len;
            }
            k += 1;
        }
        proof {
            assert(gls.take(h as int) =~= gls);
        }

        // Reject grids the coordinate types cannot address.
        if w.checked_mul(h).is_none() {
            return None;
        }
        if w > i32::MAX as usize || h > i32::MAX as usize {
            return None;
        }

        // Build the flat tile array row by row, padding short rows, and
        // extract the player marker.
        let mut tiles: Vec<MapTile> = Vec::new();
        let mut start: Option<Vec2> = None;
        let mut y: usize = 0;
        proof {
            assert forall|yy: int| 0 <= yy < h implies (#[trigger] gls[yy]).len() <= w by {
                lemma_grid_width_bounds(gls, yy);
            }
        }
        while y < h
            invariant
                h == grid@.len(),
                gls == grid@.map_values(|s: String| s@),
                forall|yy: int| 0 <= yy < h ==> (#[trigger] gls[yy]).len() <= w,
                w * h <= usize::MAX,
                w <= i32::MAX,
                h <= i32::MAX,
                y <= h,
                tiles@.len() == y * w,
                forall|xx: int, yy: int|
                    0 <= xx < w && 0 <= yy < y ==> #[trigger] tiles@[yy * w + xx] == spec_cell(
                        gls,
                        xx,
                        yy,
                    ),
                start == (match spec_start_pos(gls.take(y as int)) {
                    Some(p) => Some(Vec2 { x: p.0 as i32, y: p.1 as i32 }),
                    None => None::<Vec2>,
                }),
                match start {
                    Some(v) => 0 <= v.x < w && 0 <= v.y < y,
                    None => true,
                },
            decreases h - y,
        {
            let row: &String = &grid[y];
            proof {
                assert(row@ == gls[y as int]);
                lemma_grid_width_bounds(gls, y as int);
            }
            let row_len = row.as_str().unicode_len();
            let mut x: usize = 0;
            while x < row_len
                invariant
                    h == grid@.len(),
                    gls == grid@.map_values(|s: String| s@),
                    w * h <= usize::MAX,
                    w <= i32::MAX,
                    h <= i32::MAX,
                    y < h,
                    row@ == gls[y as int],
                    row_len == row@.len(),
                    row_len <= w,
                    x <= row_len,
                    tiles@.len() == y * w + x,
                    forall|xx: int, yy: int|
                        0 <= xx < w && 0 <= yy < y ==> #[trigger] tiles@[yy * w + xx] == spec_cell(
                            gls,
                            xx,
                            yy,
                        ),
                    forall|xx: int|
                        0 <= xx < x ==> #[trigger] tiles@[y * w + xx] == spec_cell(gls, xx, y as int),
                    start == (match (match spec_start_in_line(gls[y as int].take(x as int)) {
                        Some(xp) => Some((xp, y as int)),
                        None => spec_start_pos(gls.take(y as int)),
                    }) {
                        Some(p) => Some(Vec2 { x: p.0 as i32, y: p.1 as i32 }),
                        None => None::<Vec2>,
                    }),
                    match start {
                        Some(v) => 0 <= v.x < w && 0 <= v.y < h,
                        None => true,
                    },
                decreases row_len - x,
            {
                proof {
                    lemma_row_major_in_bounds(w as int, h as int, x as int, y as int);
                    assert(gls[y as int].take(x as int + 1).drop_last() =~= gls[y as int].take(
                        x as int,
                    ));
                    assert(gls[y as int].take(x as int + 1).last() == gls[y as int][x as int]);
                }
                let c = row.as_str().get_char(x);
                let t = TileMap::tile_from_char(c);
                let ghost tiles_before = tiles@;
                if matches!(t, MapTile::Player) {
                    start = Some(Vec2::new(x as i32, y as i32));
                    tiles.push(MapTile::Empty);
                } else {
                    tiles.push(t);
                }
                x += 1;
                proof {
                    assert forall|xx: int, yy: int|
                        0 <= xx < w && 0 <= yy < y implies #[trigger] tiles@[yy * w + xx]
                        == spec_cell(gls, xx, yy) by {
                        lemma_row_major_in_bounds(w as int, y as int, xx, yy);
                        vstd::arithmetic::mul::lemma_mul_is_commutative(w as int, y as int);
                        assert(yy * w + xx < tiles_before.len());
                        assert(tiles_before[yy * w + xx] == spec_cell(gls, xx, yy));
                        assert(tiles@[yy * w + xx] == tiles_before[yy * w + xx]);
                    }
                }
            }
            proof {
                assert(gls[y as int].take(row_len as int) =~= gls[y as int]);
            }
            while x < w
                invariant
                    h == grid@.len(),
                    gls == grid@.map_values(|s: String| s@),
                    w * h <= usize::MAX,
                    w <= i32::MAX,
                    h <= i32::MAX,
                    y < h,
                    row_len == gls[y as int].len(),
                    row_len <= x <= w,
                    tiles@.len() == y * w + x,
                    forall|xx: int, yy: int|
                        0 <= xx < w && 0 <= yy < y ==> #[trigger] tiles@[yy * w + xx] == spec_cell(
                            gls,
                            xx,
                            yy,
                        ),
                    forall|xx: int|
                        0 <= xx < x ==> #[trigger] tiles@[y * w + xx] == spec_cell(gls, xx, y as int),
                    start == (match (match spec_start_in_line(gls[y as int]) {
                        Some(xp) => Some((xp, y as int)),
                        None => spec_start_pos(gls.take(y as int)),
                    }) {
                        Some(p) => Some(Vec2 { x: p.0 as i32, y: p.1 as i32 }),
                        None => None::<Vec2>,
                    }),
                    match start {
                        Some(v) => 0 <= v.x < w && 0 <= v.y < h,
                        None => true,
                    },
                decreases w - x,
            {
                proof {
                    lemma_row_major_in_bounds(w as int, h as int, x as int, y as int);
                }
                let ghost tiles_before = tiles@;
                tiles.push(MapTile::Empty);
                x += 1;
                proof {
                    assert forall|xx: int, yy: int|
                        0 <= xx < w && 0 <= yy < y implies #[trigger] tiles@[yy * w + xx]
                        == spec_cell(gls, xx, yy) by {
                        lemma_row_major_in_bounds(w as int, y as int, xx, yy);
                        vstd::arithmetic::mul::lemma_mul_is_commutative(w as int, y as int);
                        assert(yy * w + xx < tiles_before.len());
                        assert(tiles_before[yy * w + xx] == spec_cell(gls, xx, yy));
                        assert(tiles@[yy * w + xx] == tiles_before[yy * w + xx]);
                    }
                }
            }
            y += 1;
            proof {
                assert(tiles@.len() == (y - 1) * w + w);
                assert((y - 1) * w + w == y * w) by (nonlinear_arith);
                assert(gls.take(y as int).drop_last() =~= gls.take(y as int - 1));
                assert(gls.take(y as int).last() == gls[y as int - 1]);
                assert forall|xx: int, yy: int|
                    0 <= xx < w && 0 <= yy < y implies #[trigger] tiles@[yy * w + xx] == spec_cell(
                    gls,
                    xx,
                    yy,
                ) by {
                    if yy < y - 1 {
                        lemma_row_major_in_bounds(w as int, y as int, xx, yy);
                    }
                }
            }
        }
        proof {
            assert(gls.take(h as int) =~= gls);
            vstd::arithmetic::mul::lemma_mul_is_commutative(h as int, w as int);
        }

        // Collect the details text: the kept lines after the sentinel,
        // newline-terminated.
        let mut details = String::new();
        proof {
            reveal_strlit("\n");
        }
        if found_sentinel {
            let mut j = boundary + 1;
            while j < n
                invariant
                    n == lines@.len(),
                    ls == lines@.map_values(|s: String| s@),
                    boundary < j <= n,
                    details@ + spec_joined(spec_kept_lines(ls.skip(j as int))) == spec_joined(
                        spec_kept_lines(ls.skip(boundary + 1)),
                    ),
                    "\n"@ == seq!['\n'],
                decreases n - j,
            {
                proof {
                    assert(ls[j as int] == lines@[j as int]@);
                    assert(ls.skip(j as int)[0] == ls[j as int]);
                    assert(ls.skip(j as int).drop_first() =~= ls.skip(j as int + 1));
                }
                let l: &String = &lines[j];
                if line_is_kept(l.as_str()) {
                    let ghost old_details = details@;
                    details.append(l.as_str());
                    details.append("\n");
                    proof {
                        let lv = ls[j as int];
                        let rest = spec_kept_lines(ls.skip(j as int + 1));
                        assert(spec_kept_lines(ls.skip(j as int)) == seq![lv] + rest);
                        assert((seq![lv] + rest)[0] == lv);
                        assert((seq![lv] + rest).drop_first() =~= rest);
                        assert(spec_joined(seq![lv] + rest) == lv + seq!['\n'] + spec_joined(rest));
                        assert(details@ =~= old_details + lv + seq!['\n']);
                        assert(details@ + spec_joined(rest) =~= old_details + (lv + seq!['\n']
                            + spec_joined(rest)));
                    }
                }
                j += 1;
            }
            proof {
                assert(ls.skip(n as int) =~= Seq::<Seq<char>>::empty());
                assert(details@ =~= details@ + spec_joined(spec_kept_lines(ls.skip(n as int))));
            }
        }

        Some(TileMap { width: w, height: h, tiles, details, starting_position: start })
    }
}

/// Law: an interior multishape tile whose four axis neighbors all match it
/// in kind — the center of a homogeneous block — classifies as the
/// all-sides junction shape.
pub proof fn lemma_homogeneous_center_is_cross(m: TileMap, x: int, y: int)
    requires
        m.wf(),
        1 <= x < m.spec_width() - 1,
        1 <= y < m.spec_height() - 1,
        same_kind(m.spec_tile_at(x, y), m.spec_tile_at(x, y - 1)),
        same_kind(m.spec_tile_at(x, y), m.spec_tile_at(x, y + 1)),
        same_kind(m.spec_tile_at(x, y), m.spec_tile_at(x - 1, y)),
        same_kind(m.spec_tile_at(x, y), m.spec_tile_at(x + 1, y)),
    ensures
        m.spec_shape_at(x, y) == MultiShapeTile::Cross,
{
}

/// Law: in a 3 by 3 grid of one multishape kind, the center classifies as
/// the all-sides junction and each edge midpoint as the T-junction that
/// opens away from its border.
pub proof fn lemma_homogeneous_block_shapes(m: TileMap)
    requires
        m.wf(),
        m.spec_width() == 3,
        m.spec_height() == 3,
        forall|x: int, y: int|
            0 <= x < 3 && 0 <= y < 3 ==> same_kind(
                m.spec_tile_at(1, 1),
                #[trigger] m.spec_tile_at(x, y),
            ),
    ensures
        m.spec_shape_at(1, 1) == MultiShapeTile::Cross,
        m.spec_shape_at(1, 0) == MultiShapeTile::TopCenter,
        m.spec_shape_at(1, 2) == MultiShapeTile::BottomCenter,
        m.spec_shape_at(0, 1) == MultiShapeTile::CenterLeft,
        m.spec_shape_at(2, 1) == MultiShapeTile::CenterRight,
{
    assert forall|x1: int, y1: int, x2: int, y2: int|
        0 <= x1 < 3 && 0 <= y1 < 3 && 0 <= x2 < 3 && 0 <= y2 < 3 implies same_kind(
        #[trigger] m.spec_tile_at(x1, y1),
        #[trigger] m.spec_tile_at(x2, y2),
    ) by {
        assert(same_kind(m.spec_tile_at(1, 1), m.spec_tile_at(x1, y1)));
        assert(same_kind(m.spec_tile_at(1, 1), m.spec_tile_at(x2, y2)));
    }
}

/// Law: a multishape tile with no same-kind neighbor in any in-grid
/// direction classifies as the isolated shape.
pub proof fn lemma_isolated_is_single(m: TileMap, x: int, y: int)
    requires
        m.wf(),
        0 <= x < m.spec_width(),
        0 <= y < m.spec_height(),
        !m.spec_up_match(x, y),
        !m.spec_down_match(x, y),
        !m.spec_left_match(x, y),
        !m.spec_right_match(x, y),
    ensures
        m.spec_shape_at(x, y) == MultiShapeTile::Single,
{
}

/// Law: classification consults only the coarse kind of each tile, never a
/// door's or window's lock state. Two grids of the same dimensions whose
/// tiles agree kind-for-kind classify every cell identically.
pub proof fn lemma_shape_ignores_lock_state(m1: TileMap, m2: TileMap, x: int, y: int)
    requires
        m1.wf(),
        m2.wf(),
        m1.spec_width() == m2.spec_width(),
        m1.spec_height() == m2.spec_height(),
        forall|i: int|
            0 <= i < m1.spec_tiles().len() ==> same_kind(
                #[trigger] m1.spec_tiles()[i],
                #[trigger] m2.spec_tiles()[i],
            ),
        0 <= x < m1.spec_width(),
        0 <= y < m1.spec_height(),
    ensures
        m1.spec_shape_at(x, y) == m2.spec_shape_at(x, y),
{
    lemma_row_major_in_bounds(m1.spec_width() as int, m1.spec_height() as int, x, y);
    if y > 0 {
        lemma_row_major_in_bounds(m1.spec_width() as int, m1.spec_height() as int, x, y - 1);
    }
    if y < m1.spec_height() - 1 {
        lemma_row_major_in_bounds(m1.spec_width() as int, m1.spec_height() as int, x, y + 1);
    }
    if x > 0 {
        lemma_row_major_in_bounds(m1.spec_width() as int, m1.spec_height() as int, x - 1, y);
    }
    if x < m1.spec_width() - 1 {
        lemma_row_major_in_bounds(m1.spec_width() as int, m1.spec_height() as int, x + 1, y);
    }
}

} // verus!
