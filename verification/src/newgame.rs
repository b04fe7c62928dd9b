//! The dialog that builds a new game: choosing a class, entering the
//! player's name, and looking at the player before starting.
use vstd::prelude::*;
use crate::command::{Command, InputMode};
use crate::strutil::{blank, is_blank, push_str};
use crate::texts::{TextBundles, misc_txt, misc_txt_checked, lookup, no_args};
use crate::text::{TextArgs, bundle_text};
use crate::text_window::ScrollingTextWindow;
use crate::strutil::spec_lines;
use crate::choose_window::ListResponse;
use crate::dialog::DialogResult;
use crate::dialogs::{check_escape_click, closer_result, escape_click_after};
use crate::geom::Rect;
use crate::info_windows::{ListWithDescWindow, desc_layout};

verus! {

/// The pages of the new-game dialog.
#[derive(Clone, Copy, Debug, PartialEq, Eq, Structural)]
pub enum NewGameBuildPage {
    ChooseClass,
    PlayerNameInput,
    PlayerInfo,
}

/// The page after `p`, if any.
pub open spec fn page_next(p: NewGameBuildPage) -> Option<NewGameBuildPage> {
    match p {
        NewGameBuildPage::ChooseClass => Some(NewGameBuildPage::PlayerNameInput),
        NewGameBuildPage::PlayerNameInput => Some(NewGameBuildPage::PlayerInfo),
        NewGameBuildPage::PlayerInfo => None,
    }
}

/// The page before `p`, if any.
pub open spec fn page_back(p: NewGameBuildPage) -> Option<NewGameBuildPage> {
    match p {
        NewGameBuildPage::ChooseClass => None,
        NewGameBuildPage::PlayerNameInput => Some(NewGameBuildPage::ChooseClass),
        NewGameBuildPage::PlayerInfo => Some(NewGameBuildPage::PlayerNameInput),
    }
}

impl NewGameBuildPage {
    /// The first page.
    pub fn default() -> (p: NewGameBuildPage)
        ensures
            p == NewGameBuildPage::ChooseClass,
    {
        NewGameBuildPage::ChooseClass
    }

    /// The page after this one, if any.
    pub fn next(&self) -> (r: Option<NewGameBuildPage>)
        ensures
            r == page_next(*self),
    {
        match self {
            NewGameBuildPage::ChooseClass => Some(NewGameBuildPage::PlayerNameInput),
            NewGameBuildPage::PlayerNameInput => Some(NewGameBuildPage::PlayerInfo),
            NewGameBuildPage::PlayerInfo => None,
        }
    }

    /// The page before this one, if any.
    pub fn back(&self) -> (r: Option<NewGameBuildPage>)
        ensures
            r == page_back(*self),
    {
        match self {
            NewGameBuildPage::ChooseClass => None,
            NewGameBuildPage::PlayerNameInput => Some(NewGameBuildPage::ChooseClass),
            NewGameBuildPage::PlayerInfo => Some(NewGameBuildPage::PlayerNameInput),
        }
    }

    /// The id of the UI text that explains this page.
    pub fn explanation_text(&self) -> (r: &'static str)
        ensures
            r@ == explanation_text_id(*self),
    {
        match self {
            NewGameBuildPage::ChooseClass => "newgame-chooseclass",
            NewGameBuildPage::PlayerNameInput => "newgame-inputplayername",
            NewGameBuildPage::PlayerInfo => "newgame-complete",
        }
    }

    /// The top and bottom of what this page shows: the info window, the
    /// text input dialog, or the info window with its tabs of height
    /// `tab_h` above it.
    pub fn top_bottom(&self, info_top: i32, info_bottom: i32, input_top: i32, input_bottom: i32, tab_h: u32) -> (r: (i32, i32))
        requires
            info_top - tab_h >= i32::MIN,
        ensures
            r == (match *self {
                NewGameBuildPage::ChooseClass => (info_top, info_bottom),
                NewGameBuildPage::PlayerNameInput => (input_top, input_bottom),
                NewGameBuildPage::PlayerInfo => ((info_top - tab_h) as i32, info_bottom),
            }),
    {
        match self {
            NewGameBuildPage::ChooseClass => (info_top, info_bottom),
            NewGameBuildPage::PlayerNameInput => (input_top, input_bottom),
            NewGameBuildPage::PlayerInfo => ((info_top as i64 - tab_h as i64) as i32, info_bottom),
        }
    }
}

/// The id of the UI text that explains page `p`.
pub open spec fn explanation_text_id(p: NewGameBuildPage) -> Seq<char> {
    match p {
        NewGameBuildPage::ChooseClass => "newgame-chooseclass"@,
        NewGameBuildPage::PlayerNameInput => "newgame-inputplayername"@,
        NewGameBuildPage::PlayerInfo => "newgame-complete"@,
    }
}

/// Going to the next page and back shows the page shown before.
pub proof fn law_next_then_back(p: NewGameBuildPage)
    requires
        page_next(p).is_some(),
    ensures
        page_back(page_next(p).unwrap()) == Some(p),
{
}

/// Going to the page before and on again shows the page shown before.
pub proof fn law_back_then_next(p: NewGameBuildPage)
    requires
        page_back(p).is_some(),
    ensures
        page_next(page_back(p).unwrap()) == Some(p),
{
}

/// Whether the "next" button is offered: a class is chosen, a name that is
/// not blank is entered, or the player is shown.
pub open spec fn spec_next_ok(p: NewGameBuildPage, class_chosen: bool, player_name: Option<Seq<char>>) -> bool {
    match p {
        NewGameBuildPage::ChooseClass => class_chosen,
        NewGameBuildPage::PlayerNameInput => match player_name {
            Some(n) => !is_blank(n),
            None => false,
        },
        NewGameBuildPage::PlayerInfo => true,
    }
}

/// Whether the "next" button is offered.
pub fn next_ok(p: NewGameBuildPage, class_chosen: bool, player_name: &Option<String>) -> (r: bool)
    ensures
        r == spec_next_ok(p, class_chosen, match *player_name { Some(s) => Some(s@), None => None }),
{
    match p {
        NewGameBuildPage::ChooseClass => class_chosen,
        NewGameBuildPage::PlayerNameInput => match player_name {
            Some(n) => !blank(n.as_str()),
            None => false,
        },
        NewGameBuildPage::PlayerInfo => true,
    }
}

/// What the new-game dialog does after a command.
#[derive(Clone, Copy, Debug, PartialEq, Eq, Structural)]
pub enum NewGameStep {
    /// Stay on the page.
    Stay,
    /// Go back to this page (dropping the player view when leaving the
    /// player page).
    Back(NewGameBuildPage),
    /// Leave to the start screen.
    ToStartScreen,
    /// Go on to this page.
    Next(NewGameBuildPage),
    /// Go on to the player page with the player built so far (temporary
    /// game data).
    NextWithPlayer,
    /// Build the game and show the opening text before starting it.
    Finish,
    /// Start the game that was built.
    Start,
}

/// What the new-game dialog does: Cancel, the "back" button, or the page
/// closing (other than the name page) goes back, or to the start screen
/// from the first page; the "next" button (when offered) or the name page
/// closing goes on, to the player page with temporary data, or finishes
/// on the last page.
pub open spec fn newgame_step(
    page: NewGameBuildPage,
    cancel: bool,
    back_clicked: bool,
    page_closed: bool,
    next_offered: bool,
    next_clicked: bool,
) -> NewGameStep {
    if cancel || back_clicked || (page != NewGameBuildPage::PlayerNameInput && page_closed) {
        match page_back(page) {
            Some(b) => NewGameStep::Back(b),
            None => NewGameStep::ToStartScreen,
        }
    } else if (next_offered && next_clicked) || (page == NewGameBuildPage::PlayerNameInput && page_closed) {
        match page_next(page) {
            Some(NewGameBuildPage::PlayerInfo) => NewGameStep::NextWithPlayer,
            Some(n) => NewGameStep::Next(n),
            None => NewGameStep::Finish,
        }
    } else {
        NewGameStep::Stay
    }
}

/// The page's own handling is asked only when neither Cancel nor the
/// "back" button decided: `page_closed` tells whether the page closed then.
pub fn process_newgame_command(
    page: NewGameBuildPage,
    command: &Command,
    back_clicked: bool,
    page_closed: bool,
    next_offered: bool,
    next_clicked: bool,
) -> (r: NewGameStep)
    ensures
        r == newgame_step(page, *command is Cancel, back_clicked, page_closed, next_offered, next_clicked),
{
    if command.is_cancel() || back_clicked || (page != NewGameBuildPage::PlayerNameInput && page_closed) {
        match page.back() {
            Some(b) => NewGameStep::Back(b),
            None => NewGameStep::ToStartScreen,
        }
    } else if (next_offered && next_clicked) || (page == NewGameBuildPage::PlayerNameInput && page_closed) {
        match page.next() {
            Some(NewGameBuildPage::PlayerInfo) => NewGameStep::NextWithPlayer,
            Some(n) => NewGameStep::Next(n),
            None => NewGameStep::Finish,
        }
    } else {
        NewGameStep::Stay
    }
}

/// What the opening text answers: Enter once the text has scrolled out,
/// or Cancel at any time, starts the game.
pub fn opening_text_done(command: &Command, finished: bool) -> (r: bool)
    ensures
        r == ((*command is Enter && finished) || *command is Cancel),
{
    (matches!(command, Command::Enter) && finished) || command.is_cancel()
}

/// The name page's answer when its text input closed with text `name`:
/// a non-empty name is taken (`true`, and the page closes); an empty one
/// restarts the input.
pub fn player_name_entered(name: &str) -> (r: bool)
    ensures
        r == (name@.len() > 0),
{
    !name.is_empty()
}

/// The marks of the class list after row `i` is chosen, where `current`
/// was chosen before: `i` marked, the former choice unmarked.
pub open spec fn marks_after(checked: Seq<bool>, current: Option<u32>, i: u32) -> Seq<bool> {
    if current == Some(i) {
        checked
    } else {
        match current {
            Some(c) => checked.update(i as int, true).update(c as int, false),
            None => checked.update(i as int, true),
        }
    }
}

/// The class chosen in the class list, with the rows marked.
pub struct ClassChoice {
    pub current: Option<u32>,
    pub checked: Vec<bool>,
}

impl ClassChoice {
    /// No class chosen among `n` classes.
    pub fn new(n: usize) -> (c: ClassChoice)
        ensures
            c.current.is_none(),
            c.checked@ == Seq::new(n as nat, |i: int| false),
    {
        let mut checked: Vec<bool> = Vec::new();
        let mut i: usize = 0;
        while i < n
            invariant
                i <= n,
                checked@ == Seq::new(i as nat, |k: int| false),
            decreases n - i,
        {
            checked.push(false);
            i = i + 1;
            assert(checked@ =~= Seq::new(i as nat, |k: int| false));
        }
        ClassChoice { current: None, checked }
    }

    /// Row `i` chosen: it becomes the chosen class, marked instead of the
    /// one chosen before. The result tells whether the choice changed (and
    /// the class is to be set in the game builder).
    pub fn select(&mut self, i: u32) -> (changed: bool)
        requires
            (i as int) < old(self).checked@.len(),
            old(self).current matches Some(c) ==> (c as int) < old(self).checked@.len(),
        ensures
            changed == (old(self).current != Some(i)),
            final(self).current == Some(i),
            final(self).checked@ == marks_after(old(self).checked@, old(self).current, i),
    {
        if self.current != Some(i) {
            self.checked.set(i as usize, true);
            if let Some(c) = self.current {
                self.checked.set(c as usize, false);
            }
            self.current = Some(i);
            true
        } else {
            false
        }
    }
}

/// The id of the description text of class `class_id`:
/// `class-<class_id>-desc`.
pub open spec fn class_desc_id(class_id: Seq<char>) -> Seq<char> {
    "class-"@ + class_id + "-desc"@
}

/// The description of class `class_id`.
pub fn class_desc_text(t: &TextBundles, class_id: &str) -> (r: String)
    ensures
        r@ == lookup(t.misc, class_desc_id(class_id@), no_args()),
{
    let mut id = String::new();
    push_str(&mut id, "class-");
    push_str(&mut id, class_id);
    push_str(&mut id, "-desc");
    misc_txt(t, id.as_str())
}

/// The names of the classes offered, for the class list.
pub fn class_names(t: &TextBundles, class_ids: &Vec<String>) -> (r: Vec<String>)
    ensures
        r.deep_view() == Seq::new(class_ids@.len(), |i: int| lookup(t.misc, class_ids@[i]@, no_args())),
{
    let mut names: Vec<String> = Vec::new();
    let mut i: usize = 0;
    while i < class_ids.len()
        invariant
            i <= class_ids@.len(),
            names.deep_view() == Seq::new(i as nat, |k: int| lookup(t.misc, class_ids@[k]@, no_args())),
        decreases class_ids@.len() - i,
    {
        let s = misc_txt(t, class_ids[i].as_str());
        let ghost old_n = names.deep_view();
        names.push(s);
        assert(names.deep_view() =~= old_n.push(s@));
        i = i + 1;
        assert(names.deep_view() =~= Seq::new(i as nat, |k: int| lookup(t.misc, class_ids@[k]@, no_args())));
    }
    names
}


/// The page shown after step `s` from page `p`.
pub open spec fn page_after_step(p: NewGameBuildPage, s: NewGameStep) -> NewGameBuildPage {
    match s {
        NewGameStep::Back(b) => b,
        NewGameStep::Next(n) => n,
        NewGameStep::NextWithPlayer => NewGameBuildPage::PlayerInfo,
        _ => p,
    }
}

/// The state of the new-game dialog: the page shown, the class chosen, the
/// player's name as entered, and whether the opening text is running.
pub struct DummyNewGameDialog {
    pub page: NewGameBuildPage,
    pub class: Option<u32>,
    pub player_name: Option<String>,
    pub opening: bool,
}

/// The player's name as text, if one was entered.
pub open spec fn name_view(n: Option<String>) -> Option<Seq<char>> {
    match n {
        Some(s) => Some(s@),
        None => None,
    }
}

impl DummyNewGameDialog {
    /// How key presses are read: as typed text on the name page, as in a
    /// dialog on the other pages.
    pub fn mode(&self) -> (m: InputMode)
        ensures
            m == (if self.page == NewGameBuildPage::PlayerNameInput { InputMode::TextInput } else { InputMode::Dialog }),
    {
        match self.page {
            NewGameBuildPage::PlayerNameInput => InputMode::TextInput,
            _ => InputMode::Dialog,
        }
    }

    /// The dialog on its first page, with nothing chosen yet.
    pub fn new() -> (d: DummyNewGameDialog)
        ensures
            d.page == NewGameBuildPage::ChooseClass,
            d.class.is_none(),
            d.player_name.is_none(),
            !d.opening,
    {
        DummyNewGameDialog { page: NewGameBuildPage::default(), class: None, player_name: None, opening: false }
    }

    /// The class in row `i` was chosen.
    pub fn set_class(&mut self, i: u32)
        ensures
            final(self).class == Some(i),
            final(self).page == old(self).page,
            name_view(final(self).player_name) == name_view(old(self).player_name),
            final(self).opening == old(self).opening,
    {
        self.class = Some(i);
    }

    /// The text of the name input changed to `name`.
    pub fn set_player_name(&mut self, name: &str)
        ensures
            name_view(final(self).player_name) == Some(name@),
            final(self).page == old(self).page,
            final(self).class == old(self).class,
            final(self).opening == old(self).opening,
    {
        self.player_name = Some(name.to_owned());
    }

    /// The rectangles of the "next" and "back" buttons at height `y`, each
    /// `button_w` by `button_h`, `button_space` apart around the middle of a
    /// screen `screen_w` wide: "back" on the left, "next" on the right.
    pub fn button_rect(screen_w: u32, button_space: u32, button_w: u32, button_h: u32, y: i32) -> (r: (Rect, Rect))
        requires
            screen_w / 2 >= button_space / 2 + button_w,
            screen_w / 2 + button_space / 2 <= i32::MAX,
        ensures
            r.0 == Rect::new_spec((screen_w / 2 + button_space / 2) as i32, y, button_w, button_h),
            r.1 == Rect::new_spec((screen_w / 2 - button_space / 2 - button_w) as i32, y, button_w, button_h),
    {
        let back_x: u32 = screen_w / 2 - button_space / 2 - button_w;
        let next_x: u32 = screen_w / 2 + button_space / 2;
        (Rect::new(next_x as i32, y, button_w, button_h), Rect::new(back_x as i32, y, button_w, button_h))
    }

    /// The name page's answer when its text input answered
    /// (`input_closed` tells whether it closed) with text `text`: a closed
    /// input with a non-empty name takes the name and closes the page (the
    /// first result); a closed input with an empty name is to be restarted
    /// (the second result).
    pub fn process_name_page(&mut self, input_closed: bool, text: &str) -> (r: (bool, bool))
        ensures
            r == (input_closed && text@.len() > 0, input_closed && text@.len() == 0),
            name_view(final(self).player_name) == (if r.0 { Some(text@) } else { name_view(old(self).player_name) }),
            final(self).page == old(self).page,
            final(self).class == old(self).class,
            final(self).opening == old(self).opening,
    {
        if !input_closed {
            return (false, false);
        }
        if player_name_entered(text) {
            self.set_player_name(text);
            (true, false)
        } else {
            (false, true)
        }
    }

    /// Whether the "next" button is offered on the page shown.
    pub fn next_ok(&self) -> (r: bool)
        ensures
            r == spec_next_ok(self.page, self.class.is_some(), name_view(self.player_name)),
    {
        next_ok(self.page, self.class.is_some(), &self.player_name)
    }

    /// Takes a command. While the opening text runs, Enter once it has
    /// scrolled out (`opening_finished`), or Cancel, starts the game.
    /// Otherwise the dialog steps as `newgame_step` says, with the "next"
    /// button offered as `next_ok` says, and shows the page it steps to;
    /// finishing on the last page shows the opening text when there is one
    /// (`has_opening`) and starts the game at once when there is none.
    pub fn process_command(
        &mut self,
        command: &Command,
        back_clicked: bool,
        page_closed: bool,
        next_clicked: bool,
        has_opening: bool,
        opening_finished: bool,
    ) -> (r: NewGameStep)
        ensures
            final(self).class == old(self).class,
            name_view(final(self).player_name) == name_view(old(self).player_name),
            old(self).opening ==> {
                &&& r == (if (*command is Enter && opening_finished) || *command is Cancel { NewGameStep::Start } else { NewGameStep::Stay })
                &&& final(self).page == old(self).page
                &&& final(self).opening
            },
            !old(self).opening ==> {
                let s = newgame_step(old(self).page, *command is Cancel, back_clicked, page_closed,
                    spec_next_ok(old(self).page, old(self).class.is_some(), name_view(old(self).player_name)), next_clicked);
                &&& r == (if s == NewGameStep::Finish && !has_opening { NewGameStep::Start } else { s })
                &&& final(self).page == page_after_step(old(self).page, s)
                &&& final(self).opening == (s == NewGameStep::Finish && has_opening)
            },
    {
        if self.opening {
            if opening_text_done(command, opening_finished) {
                return NewGameStep::Start;
            }
            return NewGameStep::Stay;
        }
        let offered = self.next_ok();
        let s = process_newgame_command(self.page, command, back_clicked, page_closed, offered, next_clicked);
        match s {
            NewGameStep::Back(b) => { self.page = b; },
            NewGameStep::Next(n) => { self.page = n; },
            NewGameStep::NextWithPlayer => { self.page = NewGameBuildPage::PlayerInfo; },
            NewGameStep::Finish => {
                if has_opening {
                    self.opening = true;
                } else {
                    return NewGameStep::Start;
                }
            },
            _ => {},
        }
        s
    }
}

/// The opening text that scrolls through the main window at `main_window`
/// before the game starts: the miscellaneous text `op-scroll`, if there is
/// one.
pub fn opening_text_window(t: &TextBundles, main_window: Rect) -> (r: Option<ScrollingTextWindow>)
    ensures
        r.is_some() == bundle_text(t.misc, "op-scroll"@, no_args()).is_some(),
        r matches Some(w) ==> {
            &&& w.area() == main_window
            &&& w.lines_view() == spec_lines(bundle_text(t.misc, "op-scroll"@, no_args()).unwrap())
            &&& w.frames() == 0
            &&& !w.finished()
        },
{
    let args: TextArgs = Vec::new();
    assert(args.deep_view() =~= no_args());
    match misc_txt_checked(t, "op-scroll", &args) {
        Some(s) => Some(ScrollingTextWindow::new(main_window, s.as_str())),
        None => None,
    }
}

/// The background of the new-game screen: the title image over the whole
/// screen.
pub struct NewGameWindow {
    /// Where the background image is drawn.
    pub back_rect: Rect,
}

impl NewGameWindow {
    /// The background of a screen `screen_w` by `screen_h` pixels.
    pub fn new(screen_w: u32, screen_h: u32) -> (w: NewGameWindow)
        ensures
            w.back_rect == Rect::new_spec(0, 0, screen_w, screen_h),
    {
        NewGameWindow { back_rect: Rect::new(0, 0, screen_w, screen_h) }
    }
}

/// The dialog in which the player chooses a class: the class names in a
/// list, the description of the class under the cursor beside it, and the
/// chosen class marked.
pub struct ChooseClassDialog {
    pub window: ListWithDescWindow<String>,
    pub choice: ClassChoice,
}

impl ChooseClassDialog {
    /// The dialog at `rect`, with list columns at `column_pos` and rows of
    /// height `row_h`, offering the classes `class_ids` by name.
    pub fn new(t: &TextBundles, rect: Rect, column_pos: Vec<i32>, row_h: u32, class_ids: &Vec<String>) -> (d: ChooseClassDialog)
        requires
            rect.w >= 4,
            row_h > 0,
        ensures
            d.window.rect == rect,
            (d.window.text_rect, d.window.list_rect) == desc_layout(rect),
            d.window.list_page_size == rect.h / row_h,
            d.window.items.deep_view() == Seq::new(class_ids@.len(), |i: int| lookup(t.misc, class_ids@[i]@, no_args())),
            d.window.text@ == Seq::<char>::empty(),
            !d.window.escape_click,
            d.choice.current.is_none(),
            d.choice.checked@ == Seq::new(class_ids@.len(), |i: int| false),
    {
        let names = class_names(t, class_ids);
        let window = ListWithDescWindow::new(rect, column_pos, names, row_h);
        ChooseClassDialog { window, choice: ClassChoice::new(class_ids.len()) }
    }

    /// Takes a command and the class list's response to it. A click
    /// outside closes the dialog and passes the command on. Otherwise
    /// moving the cursor to a class shows its description, choosing a class
    /// marks it (the second result is the class to set in the game builder
    /// when the choice changed), and Cancel closes the dialog.
    pub fn process_command<W, G>(
        &mut self,
        t: &TextBundles,
        command: &Command,
        response: Option<ListResponse>,
        class_ids: &Vec<String>,
    ) -> (r: (DialogResult<W, G>, Option<u32>))
        requires
            old(self).choice.checked@.len() == class_ids@.len(),
            old(self).choice.current matches Some(c) ==> (c as int) < class_ids@.len(),
            response matches Some(ListResponse::Select(i)) ==> (i as int) < class_ids@.len(),
            response matches Some(ListResponse::SelectionChanged(i)) ==> (i as int) < class_ids@.len(),
        ensures
            final(self).choice.checked@.len() == class_ids@.len(),
            final(self).window.rect == old(self).window.rect,
            final(self).window.items == old(self).window.items,
            final(self).window.escape_click == escape_click_after(old(self).window.escape_click, old(self).window.rect, *command, false),
            match closer_result::<W, G>(old(self).window.escape_click, old(self).window.rect, *command, true, false) {
                Some(c) => r == (c, None::<u32>) && final(self).choice == old(self).choice
                    && final(self).window.text == old(self).window.text,
                None => {
                    &&& r.0 == (if *command is Cancel { DialogResult::<W, G>::Close } else { DialogResult::Continue })
                    &&& match response {
                        Some(ListResponse::SelectionChanged(i)) =>
                            final(self).window.text@ == lookup(t.misc, class_desc_id(class_ids@[i as int]@), no_args())
                            && final(self).choice == old(self).choice && r.1.is_none(),
                        Some(ListResponse::Select(i)) =>
                            final(self).choice.current == Some(i)
                            && final(self).choice.checked@ == marks_after(old(self).choice.checked@, old(self).choice.current, i)
                            && r.1 == (if old(self).choice.current != Some(i) { Some(i) } else { None })
                            && final(self).window.text == old(self).window.text,
                        _ => final(self).choice == old(self).choice && r.1.is_none()
                            && final(self).window.text == old(self).window.text,
                    }
                },
            },
    {
        if let Some(c) = check_escape_click(&mut self.window.escape_click, self.window.rect, command, true) {
            return (c, None);
        }
        let mut chosen: Option<u32> = None;
        match response {
            Some(ListResponse::SelectionChanged(i)) => {
                self.window.text = class_desc_text(t, class_ids[i as usize].as_str());
            },
            Some(ListResponse::Select(i)) => {
                if self.choice.select(i) {
                    chosen = Some(i);
                }
            },
            _ => {},
        }
        if command.is_cancel() { (DialogResult::Close, chosen) } else { (DialogResult::Continue, chosen) }
    }
}

} // verus!
