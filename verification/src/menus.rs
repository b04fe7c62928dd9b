//! The start dialog, the exit and game-over windows, message dialogs and
//! window groups.
use vstd::prelude::*;
use crate::command::{Command, relative_command, relative_fits, InputMode};
use crate::choose_window::ListResponse;
use crate::dialog::{DialogCloseValue, DialogResult, SpecialDialogResult};
use crate::dialogs::{DialogCloser, closer_result, escape_click_after};
use crate::geom::Rect;
use crate::texts::{TextBundles, ui_txt, lookup, no_args};

verus! {

/// The choices of the start dialog: the UI texts of these ids.
pub open spec fn start_choice_ids() -> Seq<Seq<char>> {
    seq!["dialog-choice-newgame"@, "dialog-choice-loadgame"@, "dialog-choice-exit"@]
}

/// The dialog on the start screen: new game, load game, exit.
pub struct StartDialog {
    pub rect: Rect,
    pub choices: Vec<String>,
}

/// What the start dialog answers to the choice list's response.
pub open spec fn start_dialog_result<W, G>(response: Option<ListResponse>) -> DialogResult<W, G> {
    match response {
        Some(ListResponse::Select(0)) => DialogResult::Special(SpecialDialogResult::StartDialogNewGame),
        Some(ListResponse::Select(1)) => DialogResult::Special(SpecialDialogResult::StartDialogLoadGame),
        Some(ListResponse::Select(2)) => DialogResult::Quit,
        _ => DialogResult::Continue,
    }
}

impl StartDialog {
    /// How key presses are read while this window is on top.
    pub fn mode(&self) -> (m: InputMode)
        ensures
            m == InputMode::Dialog,
    {
        InputMode::Dialog
    }


    /// The start dialog at `rect`.
    pub fn new(t: &TextBundles, rect: Rect) -> (d: StartDialog)
        ensures
            d.rect == rect,
            d.choices.deep_view() == Seq::new(3, |i: int| lookup(t.ui, start_choice_ids()[i], no_args())),
    {
        let mut choices: Vec<String> = Vec::new();
        choices.push(ui_txt(t, "dialog-choice-newgame"));
        choices.push(ui_txt(t, "dialog-choice-loadgame"));
        choices.push(ui_txt(t, "dialog-choice-exit"));
        assert(choices.deep_view() =~= Seq::new(3, |i: int| lookup(t.ui, start_choice_ids()[i], no_args())));
        StartDialog { rect, choices }
    }

    /// Takes the choice list's response to a command.
    pub fn process_command<W, G>(&self, response: Option<ListResponse>) -> (r: DialogResult<W, G>)
        ensures
            r == start_dialog_result::<W, G>(response),
    {
        match response {
            Some(ListResponse::Select(0)) => DialogResult::Special(SpecialDialogResult::StartDialogNewGame),
            Some(ListResponse::Select(1)) => DialogResult::Special(SpecialDialogResult::StartDialogLoadGame),
            Some(ListResponse::Select(2)) => DialogResult::Quit,
            _ => DialogResult::Continue,
        }
    }
}

/// The buttons of the exit window.
#[derive(Clone, Copy, Debug, PartialEq, Eq, Structural)]
pub enum ExitButton {
    Save,
    TitleScreen,
    Exit,
    Cancel,
}

/// The window that saves, returns to the title screen or quits.
pub struct ExitWindow {
    pub rect: Rect,
    pub closer: DialogCloser,
}

/// What the exit window answers, and whether the game is to be saved, when
/// the closer did not take the command: Cancel closes; a button clicked
/// saves and closes, returns to the start screen, quits, or closes.
pub open spec fn exit_result<W, G>(command: Command, rect: Rect, clicked: Option<ExitButton>) -> (DialogResult<W, G>, bool) {
    if relative_command(command, rect) is Cancel {
        (DialogResult::Close, false)
    } else {
        match clicked {
            Some(ExitButton::Save) => (DialogResult::Close, true),
            Some(ExitButton::TitleScreen) => (DialogResult::Special(SpecialDialogResult::ReturnToStartScreen), false),
            Some(ExitButton::Exit) => (DialogResult::Quit, false),
            Some(ExitButton::Cancel) => (DialogResult::Close, false),
            None => (DialogResult::Continue, false),
        }
    }
}

impl ExitWindow {
    /// The exit window at `rect`.
    pub fn new(rect: Rect) -> (w: ExitWindow)
        ensures
            w.rect == rect,
            !w.closer.escape_click,
    {
        ExitWindow { rect, closer: DialogCloser::default() }
    }

    /// Takes a command; `close_clicked` tells whether the close button was
    /// clicked, `clicked` which button took the command (relative to the
    /// window). The second result tells whether to save the game.
    pub fn process_command<W, G>(&mut self, command: &Command, close_clicked: bool, clicked: Option<ExitButton>) -> (r: (DialogResult<W, G>, bool))
        requires
            relative_fits(*command, old(self).rect),
        ensures
            final(self).rect == old(self).rect,
            final(self).closer.escape_click == escape_click_after(old(self).closer.escape_click, old(self).rect, *command, close_clicked),
            r == (match closer_result::<W, G>(old(self).closer.escape_click, old(self).rect, *command, true, close_clicked) {
                Some(c) => (c, false),
                None => exit_result::<W, G>(*command, old(self).rect, clicked),
            }),
    {
        if let Some(c) = self.closer.check(self.rect, command, true, close_clicked) {
            return (c, false);
        }
        let command = command.relative_to(self.rect);
        if command.is_cancel() {
            return (DialogResult::Close, false);
        }
        match clicked {
            Some(ExitButton::Save) => (DialogResult::Close, true),
            Some(ExitButton::TitleScreen) => (DialogResult::Special(SpecialDialogResult::ReturnToStartScreen), false),
            Some(ExitButton::Exit) => (DialogResult::Quit, false),
            Some(ExitButton::Cancel) => (DialogResult::Close, false),
            None => (DialogResult::Continue, false),
        }
    }
}

/// The choices of the game-over window: the UI texts of these ids.
pub open spec fn game_over_choice_ids() -> Seq<Seq<char>> {
    seq!["dialog-choice-restart"@, "dialog-choice-title_screen"@, "dialog-choice-exit_game"@]
}

/// The window shown when the game is over: a message, and a choice of
/// restarting, returning to the title screen, or quitting.
pub struct GameOverWindow {
    pub rect: Rect,
    /// The message.
    pub message: String,
    /// The choices offered.
    pub choices: Vec<String>,
}

/// What the game-over window answers: Cancel is ignored; choice 0 restarts
/// the game (the second result) and closes, 1 returns to the start screen,
/// 2 quits.
pub open spec fn game_over_result<W, G>(command: Command, chosen: Option<u32>) -> (DialogResult<W, G>, bool) {
    if command is Cancel {
        (DialogResult::Continue, false)
    } else {
        match chosen {
            Some(0) => (DialogResult::Close, true),
            Some(1) => (DialogResult::Special(SpecialDialogResult::ReturnToStartScreen), false),
            Some(_) => (DialogResult::Quit, false),
            None => (DialogResult::Continue, false),
        }
    }
}

impl GameOverWindow {
    /// The game-over window at `rect`, with its UI texts.
    pub fn new(t: &TextBundles, rect: Rect) -> (w: GameOverWindow)
        ensures
            w.rect == rect,
            w.message@ == lookup(t.ui, "dialog-gameover"@, no_args()),
            w.choices.deep_view() == Seq::new(3, |i: int| lookup(t.ui, game_over_choice_ids()[i], no_args())),
    {
        let message = ui_txt(t, "dialog-gameover");
        let mut choices: Vec<String> = Vec::new();
        choices.push(ui_txt(t, "dialog-choice-restart"));
        choices.push(ui_txt(t, "dialog-choice-title_screen"));
        choices.push(ui_txt(t, "dialog-choice-exit_game"));
        assert(choices.deep_view() =~= Seq::new(3, |i: int| lookup(t.ui, game_over_choice_ids()[i], no_args())));
        GameOverWindow { rect, message, choices }
    }

    /// Takes a command; `chosen` is the choice made in its choose window,
    /// if any. The second result tells whether to restart the game.
    pub fn process_command<W, G>(&self, command: &Command, chosen: Option<u32>) -> (r: (DialogResult<W, G>, bool))
        requires
            chosen matches Some(n) ==> n < 3,
        ensures
            r == game_over_result::<W, G>(*command, chosen),
    {
        if command.is_cancel() {
            return (DialogResult::Continue, false);
        }
        match chosen {
            Some(n) => {
                if n == 0 {
                    (DialogResult::Close, true)
                } else if n == 1 {
                    (DialogResult::Special(SpecialDialogResult::ReturnToStartScreen), false)
                } else {
                    (DialogResult::Quit, false)
                }
            },
            None => (DialogResult::Continue, false),
        }
    }
}

/// A message with a yes/no choice under it; the choice goes to a callback
/// of the dialog's owner.
pub struct MsgDialog {
    pub rect: Rect,
    /// The message.
    pub message: String,
}

impl MsgDialog {
    /// A yes/no dialog at `rect` asking `msg`.
    pub fn with_yesno(rect: Rect, msg: &str) -> (d: MsgDialog)
        ensures
            d.rect == rect,
            d.message@ == msg@,
    {
        MsgDialog { rect, message: msg.to_owned() }
    }

    /// What the dialog does with a command: Cancel closes it; a choice made
    /// in its yes/no window goes to the callback (whose answer is the
    /// dialog's); anything else continues. `Ok` is the answer, `Err(n)` asks
    /// for the callback with choice `n`.
    pub fn process_command<W, G>(&self, command: &Command, choose_result: DialogResult<W, G>) -> (r: Result<DialogResult<W, G>, u32>)
        ensures
            command is Cancel ==> r == Ok::<DialogResult<W, G>, u32>(DialogResult::Close),
            !(command is Cancel) ==> r == (match choose_result {
                DialogResult::CloseWithValue(DialogCloseValue::Index(n)) => Err(n),
                _ => Ok(DialogResult::<W, G>::Continue),
            }),
    {
        if command.is_cancel() {
            return Ok(DialogResult::Close);
        }
        match choose_result {
            DialogResult::CloseWithValue(DialogCloseValue::Index(n)) => Err(n),
            _ => Ok(DialogResult::Continue),
        }
    }
}

/// The title screen: the title image over the whole screen.
pub struct StartWindow {
    /// Where the title image is drawn.
    pub title_rect: Rect,
}

impl StartWindow {
    /// The title screen of a screen `screen_w` by `screen_h` pixels.
    pub fn new(screen_w: u32, screen_h: u32) -> (w: StartWindow)
        ensures
            w.title_rect == Rect::new_spec(0, 0, screen_w, screen_h),
    {
        StartWindow { title_rect: Rect::new(0, 0, screen_w, screen_h) }
    }
}

/// The final component of a path without its extension, as
/// `Path::file_stem` gives it; `None` when the path has no file name or
/// the stem is not valid text.
pub uninterp spec fn path_file_stem(path: Seq<char>) -> Option<Seq<char>>;

/// `Path::file_stem` (std) of the path `path`, as text; its result is
/// named `path_file_stem`.
#[verifier::external_body]
fn file_stem(path: &str) -> (r: Option<String>)
    ensures
        r.is_some() == path_file_stem(path@).is_some(),
        r.is_some() ==> r.unwrap()@ == path_file_stem(path@).unwrap(),
{
    std::path::Path::new(path).file_stem().and_then(|s| s.to_str()).map(|s| s.to_owned())
}

/// The name of save file `path` in the list: its file stem, or nothing.
pub open spec fn save_file_name(path: Seq<char>) -> Seq<char> {
    match path_file_stem(path) {
        Some(s) => s,
        None => Seq::empty(),
    }
}

/// The dialog in which the player chooses a save file to load.
pub struct ChooseSaveFileDialog {
    pub rect: Rect,
    /// The names listed.
    pub names: Vec<String>,
    /// The save files, by row.
    pub save_files: Vec<String>,
}

impl ChooseSaveFileDialog {
    /// How key presses are read while this window is on top.
    pub fn mode(&self) -> (m: InputMode)
        ensures
            m == InputMode::Dialog,
    {
        InputMode::Dialog
    }


    /// The dialog at `rect` listing `save_files` by name.
    pub fn new(rect: Rect, save_files: Vec<String>) -> (d: ChooseSaveFileDialog)
        ensures
            d.rect == rect,
            d.save_files@ == save_files@,
            d.names.deep_view() == Seq::new(save_files@.len(), |i: int| save_file_name(save_files@[i]@)),
    {
        let mut names: Vec<String> = Vec::new();
        let mut i: usize = 0;
        while i < save_files.len()
            invariant
                i <= save_files@.len(),
                names.deep_view() == Seq::new(i as nat, |k: int| save_file_name(save_files@[k]@)),
            decreases save_files@.len() - i,
        {
            let name = match file_stem(save_files[i].as_str()) {
                Some(s) => s,
                None => String::new(),
            };
            let ghost old_n = names.deep_view();
            names.push(name);
            assert(names.deep_view() =~= old_n.push(name@));
            i = i + 1;
            assert(names.deep_view() =~= Seq::new(i as nat, |k: int| save_file_name(save_files@[k]@)));
        }
        ChooseSaveFileDialog { rect, names, save_files }
    }

    /// Takes a command and the list's response to it: choosing a row asks
    /// to load that save file (the second result); Cancel, when the list
    /// did not answer, closes the dialog.
    pub fn process_command<W, G>(&self, command: &Command, response: Option<ListResponse>) -> (r: (DialogResult<W, G>, Option<usize>))
        requires
            response matches Some(ListResponse::Select(i)) ==> (i as int) < self.save_files@.len(),
        ensures
            r == (match response {
                Some(ListResponse::Select(i)) => (DialogResult::<W, G>::Continue, Some(i as usize)),
                Some(_) => (DialogResult::Continue, None),
                None => if *command is Cancel { (DialogResult::Close, None) } else { (DialogResult::Continue, None) },
            }),
    {
        match response {
            Some(ListResponse::Select(i)) => (DialogResult::Continue, Some(i as usize)),
            Some(_) => (DialogResult::Continue, None),
            None => if command.is_cancel() { (DialogResult::Close, None) } else { (DialogResult::Continue, None) },
        }
    }
}

} // verus!
