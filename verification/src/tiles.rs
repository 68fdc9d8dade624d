//! The fixed glyph tables: border-drawing symbols for the multishape tiles
//! and one symbol per context-free tile kind.

use vstd::prelude::*;

verus! {

pub const BORDER_HORIZONTAL: char = '\u{2501}';

pub const BORDER_VERTICAL: char = '\u{2503}';

pub const BORDER_TOP_LEFT: char = '\u{250f}';

pub const BORDER_TOP_CENTER: char = '\u{2533}';

pub const BORDER_TOP_RIGHT: char = '\u{2513}';

pub const BORDER_CENTER_LEFT: char = '\u{2523}';

pub const BORDER_CENTER_CENTER: char = '\u{254b}';

pub const BORDER_CENTER_RIGHT: char = '\u{252b}';

pub const BORDER_BOTTOM_LEFT: char = '\u{2517}';

pub const BORDER_BOTTOM_CENTER: char = '\u{253b}';

pub const BORDER_BOTTOM_RIGHT: char = '\u{251b}';

pub const DOOR_LOCKED: char = 'D';

pub const DOOR_UNLOCKED: char = 'd';

pub const WINDOW_LOCKED: char = 'W';

pub const WINDOW_UNLOCKED: char = 'w';

pub const EMPTY: char = ' ';

pub const GRASS: char = '.';

pub const PLAYER: char = '\u{263b}';

} // verus!
