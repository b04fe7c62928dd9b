//! Windows that show a text: a wrapped text in a bordered window, and a
//! text that scrolls up the screen line by line.
use vstd::prelude::*;
use crate::geom::Rect;
use crate::strutil::{lines, spec_lines};

verus! {

/// A bordered window with a text, as wide as its text needs but not
/// narrower than at first.
pub struct TextWindow {
    rect: Rect,
    min_w: u32,
    text: String,
}

impl TextWindow {
    /// Where the window is.
    pub closed spec fn area(&self) -> Rect {
        self.rect
    }

    /// The least width of the window.
    pub closed spec fn min_width(&self) -> u32 {
        self.min_w
    }

    /// The text shown.
    pub closed spec fn text_view(&self) -> Seq<char> {
        self.text@
    }

    /// A window at `rect` showing `s`; it is never narrower than `rect`.
    pub fn new(rect: Rect, s: &str) -> (w: TextWindow)
        ensures
            w.area() == rect,
            w.min_width() == rect.w,
            w.text_view() == s@,
    {
        TextWindow { rect, min_w: rect.w, text: s.to_owned() }
    }

    /// Where the window is.
    pub fn get_rect(&self) -> (r: Rect)
        ensures
            r == self.area(),
    {
        self.rect
    }

    /// The text shown.
    pub fn text(&self) -> (r: &str)
        ensures
            r@ == self.text_view(),
    {
        self.text.as_str()
    }

    /// Moves the window to column `x` and row `y`, where given.
    pub fn move_to(&mut self, x: Option<i32>, y: Option<i32>)
        ensures
            final(self).area().x == (match x { Some(x) => x, None => old(self).area().x }),
            final(self).area().y == (match y { Some(y) => y, None => old(self).area().y }),
            final(self).area().w == old(self).area().w,
            final(self).area().h == old(self).area().h,
            final(self).min_width() == old(self).min_width(),
            final(self).text_view() == old(self).text_view(),
    {
        if let Some(x) = x {
            self.rect.x = x;
        }
        if let Some(y) = y {
            self.rect.y = y;
        }
    }

    /// Shows `s`.
    pub fn set_text(&mut self, s: &str)
        ensures
            final(self).text_view() == s@,
            final(self).area() == old(self).area(),
            final(self).min_width() == old(self).min_width(),
    {
        self.text = s.to_owned();
    }

    /// Sizes the window to the text's size `(w, h)` as laid out: at least
    /// the least width, exactly the text's height.
    pub fn fit(&mut self, w: u32, h: u32)
        ensures
            final(self).area().w == (if w > old(self).min_width() { w } else { old(self).min_width() }),
            final(self).area().h == h,
            final(self).area().x == old(self).area().x,
            final(self).area().y == old(self).area().y,
            final(self).min_width() == old(self).min_width(),
            final(self).text_view() == old(self).text_view(),
    {
        self.rect.w = if w > self.min_w { w } else { self.min_w };
        self.rect.h = h;
    }
}

/// A text that scrolls up through a window, one label per line, until its
/// last line has left the window.
pub struct ScrollingTextWindow {
    rect: Rect,
    elapsed_frame: i32,
    lines: Vec<String>,
    is_adjusted: bool,
    is_finished: bool,
}

impl ScrollingTextWindow {
    /// Where the text scrolls.
    pub closed spec fn area(&self) -> Rect {
        self.rect
    }

    /// Where the text scrolls.
    pub fn get_rect(&self) -> (r: Rect)
        ensures
            r == self.area(),
    {
        self.rect
    }

    /// The lines.
    pub closed spec fn lines_view(&self) -> Seq<Seq<char>> {
        self.lines.deep_view()
    }

    /// The frames drawn so far.
    pub closed spec fn frames(&self) -> int {
        self.elapsed_frame as int
    }

    /// Whether the text has scrolled out.
    pub closed spec fn finished(&self) -> bool {
        self.is_finished
    }

    /// Whether the line labels were sized.
    pub closed spec fn adjusted(&self) -> bool {
        self.is_adjusted
    }

    /// The text `s` about to scroll through `rect`: one line per line of `s`.
    pub fn new(rect: Rect, s: &str) -> (w: ScrollingTextWindow)
        ensures
            w.area() == rect,
            w.lines_view() == spec_lines(s@),
            w.frames() == 0,
            !w.finished(),
            !w.adjusted(),
    {
        ScrollingTextWindow { rect, elapsed_frame: 0, lines: lines(s), is_adjusted: false, is_finished: false }
    }

    /// The lines.
    pub fn lines(&self) -> (r: &Vec<String>)
        ensures
            r.deep_view() == self.lines_view(),
    {
        &self.lines
    }

    /// The frames drawn so far.
    pub fn elapsed_frame(&self) -> (r: i32)
        ensures
            r == self.frames(),
    {
        self.elapsed_frame
    }

    /// Whether the text has scrolled out.
    pub fn is_finished(&self) -> (r: bool)
        ensures
            r == self.finished(),
    {
        self.is_finished
    }

    /// Whether the line labels are yet to be sized (on the first drawing);
    /// they count as sized afterwards.
    pub fn take_adjust(&mut self) -> (r: bool)
        ensures
            r == !old(self).adjusted(),
            final(self).adjusted(),
            final(self).lines_view() == old(self).lines_view(),
            final(self).frames() == old(self).frames(),
            final(self).finished() == old(self).finished(),
            final(self).area() == old(self).area(),
    {
        let r = !self.is_adjusted;
        self.is_adjusted = true;
        r
    }

    /// After a frame is drawn with the last line's bottom at
    /// `endline_bottom`: the text is finished once that bottom is above the
    /// window, and the frame is counted while the text is not finished.
    pub fn frame_drawn(&mut self, endline_bottom: i32)
        requires
            old(self).frames() < i32::MAX,
        ensures
            final(self).finished() == (old(self).finished() || endline_bottom < 0),
            final(self).frames() == old(self).frames() + (if old(self).finished() { 0int } else { 1int }),
            final(self).lines_view() == old(self).lines_view(),
            final(self).adjusted() == old(self).adjusted(),
            final(self).area() == old(self).area(),
    {
        if !self.is_finished {
            if endline_bottom < 0 {
                self.is_finished = true;
            }
            self.elapsed_frame += 1;
        }
    }
}

} // verus!
