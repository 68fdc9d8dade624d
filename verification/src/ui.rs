//! Data and decision logic of the user interface: window sizes, engine
//! parameters, and the option selection of the event pop-up. Drawing is the
//! caller's concern.

use vstd::prelude::*;

verus! {

/// The smallest console width the game accepts.
pub const MIN_WIDTH: u32 = 40;

/// The smallest console height the game accepts.
pub const MIN_HEIGHT: u32 = 20;

/// The smallest frame rate the game accepts.
pub const MIN_FPS: u32 = 4;

/// A width and height in screen cells.
#[derive(Debug, Clone, Copy, PartialEq, Eq, Structural)]
pub struct Size {
    pub width: u32,
    pub height: u32,
}

impl Size {
    pub fn new(width: u32, height: u32) -> (s: Self)
        ensures
            s == (Size { width, height }),
    {
        Self { width, height }
    }
}

/// Validated console engine parameters: requested values below the minima
/// are raised to them.
pub struct EngineParams {
    width: u32,
    height: u32,
    fps: u32,
}

impl EngineParams {
    pub closed spec fn spec_width(self) -> u32 {
        self.width
    }

    pub closed spec fn spec_height(self) -> u32 {
        self.height
    }

    pub closed spec fn spec_fps(self) -> u32 {
        self.fps
    }

    pub fn new(width: u32, height: u32, fps: u32) -> (p: Self)
        ensures
            p.spec_width() == if width >= MIN_WIDTH {
                width
            } else {
                MIN_WIDTH
            },
            p.spec_height() == if height >= MIN_HEIGHT {
                height
            } else {
                MIN_HEIGHT
            },
            p.spec_fps() == if fps >= MIN_FPS {
                fps
            } else {
                MIN_FPS
            },
    {
        Self {
            width: if width >= MIN_WIDTH {
                width
            } else {
                MIN_WIDTH
            },
            height: if height >= MIN_HEIGHT {
                height
            } else {
                MIN_HEIGHT
            },
            fps: if fps >= MIN_FPS {
                fps
            } else {
                MIN_FPS
            },
        }
    }

    pub fn width(&self) -> (r: u32)
        ensures
            r == self.spec_width(),
    {
        self.width
    }

    pub fn height(&self) -> (r: u32)
        ensures
            r == self.spec_height(),
    {
        self.height
    }

    pub fn fps(&self) -> (r: u32)
        ensures
            r == self.spec_fps(),
    {
        self.fps
    }
}

/// The pop-up shown when an event fires: a framed message with a row of
/// selectable options.
pub struct EventWindow {
    title: String,
    contents: String,
    size: Size,
    options: Vec<String>,
    selected: usize,
}

impl EventWindow {
    pub closed spec fn spec_title(self) -> Seq<char> {
        self.title@
    }

    pub closed spec fn spec_contents(self) -> Seq<char> {
        self.contents@
    }

    pub closed spec fn spec_size(self) -> Size {
        self.size
    }

    pub closed spec fn spec_options(self) -> Seq<String> {
        self.options@
    }

    pub closed spec fn spec_selected(self) -> usize {
        self.selected
    }

    /// The selection cursor points at an option.
    pub open spec fn wf(self) -> bool {
        self.spec_selected() < self.spec_options().len()
    }

    pub fn new(size: Size, contents: String, title: String, options: Vec<String>) -> (w: Self)
        ensures
            w.spec_title() == title@,
            w.spec_contents() == contents@,
            w.spec_size() == size,
            w.spec_options() == options@,
            w.spec_selected() == 0,
            options@.len() > 0 ==> w.wf(),
    {
        Self { title, contents, size, options, selected: 0 }
    }

    /// Moves the selection cursor: left steps back, right steps forward,
    /// both wrapping around the option row. Left wins when both are
    /// pressed; nothing moves when neither is.
    pub fn handle_input(&mut self, left_pressed: bool, right_pressed: bool)
        requires
            old(self).wf(),
        ensures
            final(self).wf(),
            final(self).spec_title() == old(self).spec_title(),
            final(self).spec_contents() == old(self).spec_contents(),
            final(self).spec_size() == old(self).spec_size(),
            final(self).spec_options() == old(self).spec_options(),
            final(self).spec_selected() == if left_pressed {
                if old(self).spec_selected() == 0 {
                    old(self).spec_options().len() - 1
                } else {
                    old(self).spec_selected() - 1
                }
            } else if right_pressed {
                if old(self).spec_selected() == old(self).spec_options().len() - 1 {
                    0int
                } else {
                    old(self).spec_selected() + 1
                }
            } else {
                old(self).spec_selected() as int
            },
    {
        if left_pressed {
            if self.selected == 0 {
                self.selected = self.options.len() - 1;
            } else {
                self.selected -= 1;
            }
        } else if right_pressed {
            if self.selected == self.options.len() - 1 {
                self.selected = 0;
            } else {
                self.selected += 1;
            }
        }
    }

    pub fn selected(&self) -> (r: usize)
        ensures
            r == self.spec_selected(),
    {
        self.selected
    }

    pub fn title(&self) -> (r: &str)
        ensures
            r@ == self.spec_title(),
    {
        self.title.as_str()
    }

    pub fn contents(&self) -> (r: &str)
        ensures
            r@ == self.spec_contents(),
    {
        self.contents.as_str()
    }

    pub fn size(&self) -> (r: Size)
        ensures
            r == self.spec_size(),
    {
        self.size
    }

    pub fn options(&self) -> (r: &Vec<String>)
        ensures
            r@ == self.spec_options(),
    {
        &self.options
    }
}

} // verus!
