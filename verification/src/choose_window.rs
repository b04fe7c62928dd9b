//! Choice dialogs: choose windows, the start dialog, the exit and game-over
//! windows.
use vstd::prelude::*;
use crate::command::{Command, relative_command, relative_fits};
use crate::dialog::{DialogCloseValue, DialogResult};
use crate::geom::Rect;
use crate::texts::{TextBundles, ui_txt, lookup, no_args};

verus! {

/// What a choose window does on Cancel or a click outside it.
#[derive(Clone, Copy, Debug, PartialEq, Eq, Structural)]
pub enum DefaultBehavior {
    Close,
    Ignore,
}

/// What a list of choices answers to a command.
#[derive(Clone, Copy, Debug, PartialEq, Eq, Structural)]
pub enum ListResponse {
    /// Row `i` was chosen.
    Select(u32),
    /// The cursor moved to row `i`.
    SelectionChanged(u32),
    /// Row `i` was chosen for its menu (by the right button).
    SelectForMenu(u32),
    /// The list scrolled.
    Scrolled,
    /// Any other answer (such as scrolling).
    Other,
}

/// A dialog in which the player chooses one of fixed choices.
pub struct ChooseWindow {
    rect: Option<Rect>,
    choices: Vec<String>,
    default_behavior: DefaultBehavior,
    n_callbacks: usize,
    mainwin_cursor: bool,
    escape_click: bool,
}

/// Whether `(x, y)` lies outside a rectangle of size `w` by `h` at the
/// origin.
pub open spec fn outside(x: int, y: int, w: int, h: int) -> bool {
    x < 0 || x >= w || y < 0 || y >= h
}

/// What a choose window answers: `None` when the choice is handed to the
/// choice's callback (and the window closes).
pub open spec fn choose_result<W, G>(
    rect: Option<Rect>,
    n_callbacks: nat,
    default_behavior: DefaultBehavior,
    escape_click: bool,
    command: Command,
    response: Option<ListResponse>,
) -> DialogResult<W, G> {
    match rect {
        None => DialogResult::Continue,
        Some(r) => match response {
            Some(ListResponse::Select(n)) =>
                if n_callbacks == 0 { DialogResult::CloseWithValue(DialogCloseValue::Index(n)) } else { DialogResult::Close },
            Some(_) => DialogResult::Continue,
            None => match relative_command(command, r) {
                Command::Cancel => if default_behavior == DefaultBehavior::Close { DialogResult::Close } else { DialogResult::Continue },
                Command::MouseButtonUp { x, y, .. } =>
                    if outside(x as int, y as int, r.w as int, r.h as int) && default_behavior == DefaultBehavior::Close && escape_click {
                        DialogResult::Close
                    } else {
                        DialogResult::Continue
                    },
                _ => DialogResult::Continue,
            },
        },
    }
}

/// The choice whose callback runs: the chosen row, when the window is
/// shown and has callbacks.
pub open spec fn callback_choice(rect: Option<Rect>, n_callbacks: nat, response: Option<ListResponse>) -> Option<u32> {
    match response {
        Some(ListResponse::Select(n)) => if rect.is_some() && n_callbacks > 0 { Some(n) } else { None },
        _ => None,
    }
}

/// Whether `command` presses a mouse button outside the shown window
/// (and the list of choices did not take it).
pub open spec fn presses_outside(rect: Option<Rect>, command: Command, response: Option<ListResponse>) -> bool {
    match rect {
        Some(r) => response.is_none() && match relative_command(command, r) {
            Command::MouseButtonDown { x, y, .. } => outside(x as int, y as int, r.w as int, r.h as int),
            _ => false,
        },
        None => false,
    }
}

impl ChooseWindow {
    /// The choices.
    pub closed spec fn choices_view(&self) -> Seq<Seq<char>> {
        self.choices.deep_view()
    }

    /// Where the window was last drawn, if it was.
    pub closed spec fn area(&self) -> Option<Rect> {
        self.rect
    }

    /// The number of callbacks, one per choice, or 0.
    pub closed spec fn callbacks(&self) -> nat {
        self.n_callbacks as nat
    }

    /// Whether a click began outside the window.
    pub closed spec fn escaping(&self) -> bool {
        self.escape_click
    }

    /// What the window does on Cancel or a click outside it.
    pub closed spec fn behavior(&self) -> DefaultBehavior {
        self.default_behavior
    }

    /// Whether the main window's cursor stays shown.
    pub closed spec fn keeps_cursor(&self) -> bool {
        self.mainwin_cursor
    }

    /// A window with `choices` that returns the index chosen.
    pub fn new(choices: Vec<String>, default_behavior: DefaultBehavior) -> (w: ChooseWindow)
        ensures
            w.choices_view() == choices.deep_view(),
            w.behavior() == default_behavior,
            w.callbacks() == 0,
            w.area().is_none(),
            !w.escaping(),
            !w.keeps_cursor(),
    {
        ChooseWindow { rect: None, choices, default_behavior, n_callbacks: 0, mainwin_cursor: false, escape_click: false }
    }

    /// A window with the choices "Yes" and "No".
    pub fn with_yesno(default_behavior: DefaultBehavior) -> (w: ChooseWindow)
        ensures
            w.choices_view() == seq!["Yes"@, "No"@],
            w.behavior() == default_behavior,
            w.callbacks() == 0,
            w.area().is_none(),
            !w.escaping(),
            !w.keeps_cursor(),
    {
        let mut choices: Vec<String> = Vec::new();
        choices.push(String::from_str("Yes"));
        choices.push(String::from_str("No"));
        assert(choices.deep_view() =~= seq!["Yes"@, "No"@]);
        ChooseWindow::new(choices, default_behavior)
    }

    /// A menu: the UI texts of `text_ids`, each with a callback, closed on
    /// Cancel, keeping the main window's cursor.
    pub fn menu(t: &TextBundles, text_ids: &Vec<String>) -> (w: ChooseWindow)
        ensures
            w.choices_view() == Seq::new(text_ids@.len(), |i: int| lookup(t.ui, text_ids@[i]@, no_args())),
            w.behavior() == DefaultBehavior::Close,
            w.callbacks() == text_ids@.len(),
            w.area().is_none(),
            !w.escaping(),
            w.keeps_cursor(),
    {
        let mut choices: Vec<String> = Vec::new();
        let mut i: usize = 0;
        while i < text_ids.len()
            invariant
                i <= text_ids@.len(),
                choices.deep_view() == Seq::new(i as nat, |k: int| lookup(t.ui, text_ids@[k]@, no_args())),
            decreases text_ids@.len() - i,
        {
            let s = ui_txt(t, text_ids[i].as_str());
            let ghost old_c = choices.deep_view();
            choices.push(s);
            assert(choices.deep_view() =~= old_c.push(s@));
            i = i + 1;
            assert(choices.deep_view() =~= Seq::new(i as nat, |k: int| lookup(t.ui, text_ids@[k]@, no_args())));
        }
        ChooseWindow {
            rect: None,
            choices,
            default_behavior: DefaultBehavior::Close,
            n_callbacks: text_ids.len(),
            mainwin_cursor: true,
            escape_click: false,
        }
    }

    /// The choices.
    pub fn choices(&self) -> (r: &Vec<String>)
        ensures
            r.deep_view() == self.choices_view(),
    {
        &self.choices
    }

    /// Records where the window is drawn.
    pub fn set_rect(&mut self, rect: Rect)
        ensures
            final(self).area() == Some(rect),
            final(self).choices_view() == old(self).choices_view(),
            final(self).callbacks() == old(self).callbacks(),
            final(self).behavior() == old(self).behavior(),
            final(self).escaping() == old(self).escaping(),
            final(self).keeps_cursor() == old(self).keeps_cursor(),
    {
        self.rect = Some(rect);
    }

    /// Whether the main window's cursor stays shown.
    pub fn mainwin_cursor(&self) -> (r: bool)
        ensures
            r == self.keeps_cursor(),
    {
        self.mainwin_cursor
    }

    /// Takes a command; `response` is the answer of the list of choices to
    /// the command (relative to the window). The second result is the
    /// choice whose callback is to run, if any.
    pub fn process_command<W, G>(&mut self, command: &Command, response: Option<ListResponse>) -> (r: (DialogResult<W, G>, Option<u32>))
        requires
            old(self).area().is_some() ==> relative_fits(*command, old(self).area().unwrap()),
            response matches Some(ListResponse::Select(n)) ==> old(self).callbacks() == 0 || n < old(self).callbacks(),
        ensures
            r.0 == choose_result::<W, G>(old(self).area(), old(self).callbacks(), old(self).behavior(),
                old(self).escaping(), *command, response),
            r.1 == callback_choice(old(self).area(), old(self).callbacks(), response),
            final(self).choices_view() == old(self).choices_view(),
            final(self).area() == old(self).area(),
            final(self).callbacks() == old(self).callbacks(),
            final(self).behavior() == old(self).behavior(),
            final(self).keeps_cursor() == old(self).keeps_cursor(),
            final(self).escaping() == (old(self).escaping() || presses_outside(old(self).area(), *command, response)),
    {
        let rect = match self.rect {
            Some(r) => r,
            None => return (DialogResult::Continue, None),
        };
        if let Some(resp) = response {
            if let ListResponse::Select(n) = resp {
                if self.n_callbacks == 0 {
                    return (DialogResult::CloseWithValue(DialogCloseValue::Index(n)), None);
                } else {
                    return (DialogResult::Close, Some(n));
                }
            }
            return (DialogResult::Continue, None);
        }
        let command = command.relative_to(rect);
        let w = rect.w as i64;
        let h = rect.h as i64;
        match command {
            Command::Cancel => match self.default_behavior {
                DefaultBehavior::Close => (DialogResult::Close, None),
                DefaultBehavior::Ignore => (DialogResult::Continue, None),
            },
            Command::MouseButtonUp { x, y, .. } => {
                let (x, y) = (x as i64, y as i64);
                if x < 0 || x >= w || y < 0 || y >= h {
                    match self.default_behavior {
                        DefaultBehavior::Close => {
                            if self.escape_click {
                                (DialogResult::Close, None)
                            } else {
                                (DialogResult::Continue, None)
                            }
                        },
                        DefaultBehavior::Ignore => (DialogResult::Continue, None),
                    }
                } else {
                    (DialogResult::Continue, None)
                }
            },
            Command::MouseButtonDown { x, y, .. } => {
                let (x, y) = (x as i64, y as i64);
                if x < 0 || x >= w || y < 0 || y >= h {
                    self.escape_click = true;
                }
                (DialogResult::Continue, None)
            },
            _ => (DialogResult::Continue, None),
        }
    }
}

/// Moves `rect` left so that it ends at the right edge of a screen
/// `screen_w` wide, when it reaches beyond it.
pub fn fit_to_screen(rect: Rect, screen_w: u32) -> (r: Rect)
    requires
        rect.fits(),
        rect.w <= i32::MAX,
        screen_w <= i32::MAX,
    ensures
        r.w == rect.w && r.h == rect.h && r.y == rect.y,
        r.x == (if rect.spec_right() > screen_w { rect.x - (rect.spec_right() - screen_w) } else { rect.x as int }),
{
    let mut r = rect;
    if r.right() > screen_w as i32 {
        let d = r.right() - screen_w as i32;
        r.offset(-d, 0);
    }
    r
}

} // verus!
