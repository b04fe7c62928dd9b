//! The window that shows a readable text page by page.
use vstd::prelude::*;
use crate::strutil::{decimal, push_decimal, push_str};
use crate::readable::{readable_pages, readable_txt};
use crate::texts::TextBundles;
use crate::geom::Rect;
use crate::command::Command;
use crate::dialog::DialogResult;
use crate::dialogs::{DialogCloser, closer_result, escape_click_after};

verus! {

/// The page label `"<page> / <pages>"`.
pub open spec fn page_label(page: int, n_pages: int) -> Seq<char> {
    decimal(page as nat) + " / "@ + decimal(n_pages as nat)
}

/// The page label `"<page> / <pages>"`.
pub fn page_label_text(page: u64, n_pages: u64) -> (r: String)
    ensures
        r@ == page_label(page as int, n_pages as int),
{
    let mut s = String::new();
    push_decimal(&mut s, page);
    push_str(&mut s, " / ");
    push_decimal(&mut s, n_pages);
    s
}

/// A readable text shown page by page, with buttons to the next and the
/// previous page.
pub struct ReadWindow {
    rect: Rect,
    closer: DialogCloser,
    text: Vec<String>,
    current_page: usize,
    n_page: usize,
    label: String,
    page_label: String,
}

impl ReadWindow {
    /// The pages.
    pub closed spec fn pages(&self) -> Seq<Seq<char>> {
        self.text.deep_view()
    }

    /// The page shown (counted from 0).
    pub closed spec fn page(&self) -> nat {
        self.current_page as nat
    }

    /// The text shown.
    pub closed spec fn shown_text(&self) -> Seq<char> {
        self.label@
    }

    /// The page label shown.
    pub closed spec fn shown_page_label(&self) -> Seq<char> {
        self.page_label@
    }

    /// Where the window is.
    pub closed spec fn area(&self) -> Rect {
        self.rect
    }

    /// Whether a click outside the window is under way.
    pub closed spec fn escaping(&self) -> bool {
        self.closer.escape_click
    }

    /// The window shows page `page()` of `pages()` and the label of that
    /// page.
    pub closed spec fn wf(&self) -> bool {
        &&& self.n_page == self.text@.len()
        &&& self.current_page < self.n_page
        &&& self.label@ == self.text.deep_view()[self.current_page as int]
        &&& self.page_label@ == page_label(self.current_page + 1, self.n_page as int)
    }

    /// The window at `rect` (its closer placed by `closer_dx` and
    /// `closer_dy`) on the pages of readable `title`, at the first page.
    pub fn new(t: &TextBundles, rect: Rect, closer_dx: i32, closer_dy: i32, title: &str) -> (w: ReadWindow)
        requires
            readable_pages(*t, title@).len() > 0,
            rect.fits(),
            i32::MIN <= rect.spec_right() + closer_dx <= i32::MAX,
            i32::MIN <= rect.y - closer_dy <= i32::MAX,
        ensures
            w.wf(),
            w.pages() == readable_pages(*t, title@),
            w.page() == 0,
            w.area() == rect,
            !w.escaping(),
    {
        let text = readable_txt(t, title);
        ReadWindow::from_pages(rect, closer_dx, closer_dy, text)
    }

    /// As `new`, or `None` when the text has no page.
    pub fn try_new(t: &TextBundles, rect: Rect, closer_dx: i32, closer_dy: i32, title: &str) -> (w: Option<ReadWindow>)
        requires
            rect.fits(),
            i32::MIN <= rect.spec_right() + closer_dx <= i32::MAX,
            i32::MIN <= rect.y - closer_dy <= i32::MAX,
        ensures
            w.is_some() == (readable_pages(*t, title@).len() > 0),
            w matches Some(w) ==> w.wf() && w.pages() == readable_pages(*t, title@)
                && w.page() == 0 && w.area() == rect && !w.escaping(),
    {
        let text = readable_txt(t, title);
        if text.len() > 0 {
            Some(ReadWindow::from_pages(rect, closer_dx, closer_dy, text))
        } else {
            None
        }
    }

    /// The window at `rect` on `pages`, at the first page.
    pub fn from_pages(rect: Rect, closer_dx: i32, closer_dy: i32, pages: Vec<String>) -> (w: ReadWindow)
        requires
            pages@.len() > 0,
            rect.fits(),
            i32::MIN <= rect.spec_right() + closer_dx <= i32::MAX,
            i32::MIN <= rect.y - closer_dy <= i32::MAX,
        ensures
            w.wf(),
            w.pages() == pages.deep_view(),
            w.page() == 0,
            w.area() == rect,
            !w.escaping(),
    {
        let n_page = pages.len();
        let label = pages[0].clone();
        let page_label = page_label_text(1, n_page as u64);
        let closer = DialogCloser::new(rect, closer_dx, closer_dy);
        ReadWindow { rect, closer, text: pages, current_page: 0, n_page, label, page_label }
    }

    /// Shows page `new_page`.
    pub fn set_page(&mut self, new_page: usize)
        requires
            old(self).wf(),
            new_page < old(self).pages().len(),
        ensures
            final(self).wf(),
            final(self).pages() == old(self).pages(),
            final(self).page() == new_page,
            final(self).shown_text() == old(self).pages()[new_page as int],
            final(self).shown_page_label() == page_label(new_page + 1, old(self).pages().len() as int),
            final(self).area() == old(self).area(),
            final(self).escaping() == old(self).escaping(),
    {
        self.current_page = new_page;
        self.page_label = page_label_text(new_page as u64 + 1, self.n_page as u64);
        self.label = self.text[new_page].clone();
    }

    /// Whether there is a next page and a previous page.
    pub fn button_available(&self) -> (r: (bool, bool))
        requires
            self.wf(),
        ensures
            r.0 == (self.page() + 1 < self.pages().len()),
            r.1 == (self.page() > 0),
    {
        (self.current_page + 1 < self.n_page, self.current_page > 0)
    }

    /// Turns the page as the buttons were clicked: the next-page button
    /// (when there is a next page) and then the previous-page button (when
    /// there was a previous page before the click).
    pub fn process_buttons(&mut self, next_clicked: bool, prev_clicked: bool)
        requires
            old(self).wf(),
        ensures
            final(self).wf(),
            final(self).pages() == old(self).pages(),
            final(self).page() == buttons_page(old(self).page() as int, old(self).pages().len() as int, next_clicked, prev_clicked),
            final(self).area() == old(self).area(),
            final(self).escaping() == old(self).escaping(),
    {
        let available = self.button_available();
        if available.0 && next_clicked {
            self.set_page(self.current_page + 1);
        }
        if available.1 && prev_clicked {
            self.set_page(self.current_page - 1);
        }
    }

    /// Takes a command; `close_clicked`, `next_clicked` and `prev_clicked`
    /// tell which buttons were clicked. The closer sees it first (a click
    /// outside closes the window and passes the command on); then the
    /// buttons turn the page. The window stays open.
    pub fn process_command<W, G>(&mut self, command: &Command, close_clicked: bool, next_clicked: bool, prev_clicked: bool)
        -> (r: DialogResult<W, G>)
        requires
            old(self).wf(),
        ensures
            final(self).wf(),
            final(self).pages() == old(self).pages(),
            final(self).area() == old(self).area(),
            final(self).escaping() == escape_click_after(old(self).escaping(), old(self).area(), *command, close_clicked),
            match closer_result::<W, G>(old(self).escaping(), old(self).area(), *command, true, close_clicked) {
                Some(c) => r == c && final(self).page() == old(self).page(),
                None => r is Continue
                    && final(self).page() == buttons_page(old(self).page() as int, old(self).pages().len() as int, next_clicked, prev_clicked),
            },
    {
        if let Some(c) = self.closer.check(self.rect, command, true, close_clicked) {
            return c;
        }
        self.process_buttons(next_clicked, prev_clicked);
        DialogResult::Continue
    }
}

/// The page shown after the buttons were clicked on page `page` of `n`:
/// the next-page button counts when there is a next page, the
/// previous-page button when there was a previous page.
pub open spec fn buttons_page(page: int, n: int, next_clicked: bool, prev_clicked: bool) -> int {
    page + (if next_clicked && page + 1 < n { 1int } else { 0int }) - (if prev_clicked && page > 0 { 1int } else { 0int })
}

/// Turning to the next page and back shows the page and the labels shown
/// before.
pub proof fn law_next_then_prev_page(w: ReadWindow, w1: ReadWindow, w2: ReadWindow)
    requires
        w.wf(),
        w.page() + 1 < w.pages().len(),
        w1.wf() && w1.pages() == w.pages() && w1.page() == buttons_page(w.page() as int, w.pages().len() as int, true, false),
        w2.wf() && w2.pages() == w1.pages() && w2.page() == buttons_page(w1.page() as int, w1.pages().len() as int, false, true),
    ensures
        w2.page() == w.page(),
        w2.shown_text() == w.shown_text(),
        w2.shown_page_label() == w.shown_page_label(),
{
}

/// The label of a page window: `"<current + 1> / <max + 1>"`.
pub fn page_window_label(current_page: u32, max_page: u32) -> (r: String)
    ensures
        r@ == page_label(current_page + 1, max_page + 1),
{
    page_label_text(current_page as u64 + 1, max_page as u64 + 1)
}


/// A small window that shows `"<page> / <pages>"`.
pub struct PageWindow {
    pub rect: Rect,
    /// Where the label is, in the window.
    pub label_rect: Rect,
    pub label: String,
}

impl PageWindow {
    /// The page window at `rect`, moved to `x` and `y` where they are
    /// given; its label `label_y` down, as large as the window, showing
    /// `"1 / 1"`.
    pub fn new(rect: Rect, label_y: i32, x: Option<i32>, y: Option<i32>) -> (w: PageWindow)
        ensures
            w.rect == Rect::new_spec(
                match x { Some(x) => x, None => rect.x },
                match y { Some(y) => y, None => rect.y },
                rect.w, rect.h),
            w.label_rect == Rect::new_spec(0, label_y, rect.w, rect.h),
            w.label@ == page_label(1, 1),
    {
        let mut r = rect;
        if let Some(x) = x {
            r.x = x;
        }
        if let Some(y) = y {
            r.y = y;
        }
        PageWindow { rect: r, label_rect: Rect::new(0, label_y, r.w, r.h), label: page_label_text(1, 1) }
    }

    /// Shows page `current_page` of pages `0..=max_page`.
    pub fn set_page(&mut self, current_page: u32, max_page: u32)
        ensures
            final(self).label@ == page_label(current_page + 1, max_page + 1),
            final(self).rect == old(self).rect,
            final(self).label_rect == old(self).label_rect,
    {
        self.label = page_window_label(current_page, max_page);
    }
}

} // verus!
