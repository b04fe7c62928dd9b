//! Decisions of the window manager: what special dialog results do, where a
//! command goes on the game screen, and which dialogs are drawn.
use vstd::prelude::*;
use crate::command::{Command, InputMode};
use crate::dialog::{DialogResult, SpecialDialogResult, WindowStack};

verus! {

/// The main mode of the window manager.
#[derive(Clone, Copy, Debug, PartialEq, Eq, Structural)]
pub enum ManageMode {
    /// On the start screen.
    Start,
    /// Creating a new game.
    NewGame,
    /// Playing.
    OnGame,
}

impl ManageMode {
    /// Whether a game is being played.
    pub fn is_on_game(&self) -> (r: bool)
        ensures
            r == (*self is OnGame),
    {
        matches!(self, ManageMode::OnGame)
    }
}

/// The frames of the running animation that were drawn.
pub struct AnimationFrames {
    pub passed_frame: u32,
}

impl AnimationFrames {
    /// No frame drawn.
    pub fn new() -> (f: AnimationFrames)
        ensures
            f.passed_frame == 0,
    {
        AnimationFrames { passed_frame: 0 }
    }

    /// Before a drawing, with the running animation of `n_frame` frames
    /// (if any): once all its frames were drawn the count starts again and
    /// the result asks for the next animation.
    pub fn before_draw(&mut self, n_frame: Option<u32>) -> (over: bool)
        ensures
            over == (n_frame matches Some(n) && old(self).passed_frame >= n),
            final(self).passed_frame == (if over { 0 } else { old(self).passed_frame }),
    {
        match n_frame {
            Some(n) => {
                if self.passed_frame >= n {
                    self.passed_frame = 0;
                    true
                } else {
                    false
                }
            },
            None => false,
        }
    }

    /// After a drawing: a frame of the animation shown (if one was) was
    /// drawn.
    pub fn after_draw(&mut self, animating: bool)
        requires
            old(self).passed_frame < u32::MAX,
        ensures
            final(self).passed_frame == old(self).passed_frame + (if animating { 1int } else { 0int }),
    {
        if animating {
            self.passed_frame = self.passed_frame + 1;
        }
    }
}

/// How key presses are read, given the mode of the top dialog (`None` when
/// no dialog is open): on the map when none is open, else as the top
/// dialog asks.
pub fn input_mode(top: Option<InputMode>) -> (m: InputMode)
    ensures
        m == (match top { Some(t) => t, None => InputMode::Normal }),
{
    match top {
        Some(t) => t,
        None => InputMode::Normal,
    }
}

/// What the window manager does for a special dialog result.
pub enum SpecialAction<G> {
    /// Close all dialogs, show the new-game screen and open the new-game
    /// dialog.
    EnterNewGame,
    /// Open the dialog that chooses a save file.
    ChooseSaveFile,
    /// Start the play-time clock, close all dialogs, and play the loaded
    /// game: make it the current game, prepare the player's turn, log the
    /// start and play the current map's music.
    LoadGame(G),
    /// Close all dialogs and play the created game: make it the current
    /// game, prepare the player's turn, start it and log the start.
    StartNewGame(G),
    /// Keep the data as the current (temporary) game data.
    SetGameData(G),
    /// Clear the message log if `clear_log`, close all dialogs, open the
    /// start dialog and show the start screen.
    ReturnToStart { clear_log: bool },
}

/// Whether special result `r` can come in mode `mode`.
pub open spec fn special_result_accepted<G>(mode: ManageMode, r: SpecialDialogResult<G>) -> bool {
    match mode {
        ManageMode::Start => r is StartDialogNewGame || r is StartDialogLoadGame || r is NewGameStart,
        ManageMode::NewGame => r is NewGameStart || r is TempGameData || r is ReturnToStartScreen,
        ManageMode::OnGame => r is ReturnToStartScreen,
    }
}

/// The action and the next mode for special result `r` in mode `mode`.
pub open spec fn special_outcome<G>(mode: ManageMode, r: SpecialDialogResult<G>) -> (ManageMode, SpecialAction<G>) {
    match mode {
        ManageMode::Start => match r {
            SpecialDialogResult::StartDialogNewGame => (ManageMode::NewGame, SpecialAction::EnterNewGame),
            SpecialDialogResult::StartDialogLoadGame => (ManageMode::Start, SpecialAction::ChooseSaveFile),
            SpecialDialogResult::NewGameStart(g) => (ManageMode::OnGame, SpecialAction::LoadGame(g)),
            _ => (mode, SpecialAction::ChooseSaveFile),
        },
        ManageMode::NewGame => match r {
            SpecialDialogResult::NewGameStart(g) => (ManageMode::OnGame, SpecialAction::StartNewGame(g)),
            SpecialDialogResult::TempGameData(g) => (ManageMode::NewGame, SpecialAction::SetGameData(g)),
            _ => (ManageMode::Start, SpecialAction::ReturnToStart { clear_log: false }),
        },
        ManageMode::OnGame => (ManageMode::Start, SpecialAction::ReturnToStart { clear_log: true }),
    }
}

/// Whether special result `r` can come in mode `mode`.
pub fn accepts_special_result<G>(mode: ManageMode, r: &SpecialDialogResult<G>) -> (b: bool)
    ensures
        b == special_result_accepted(mode, *r),
{
    match mode {
        ManageMode::Start => matches!(r, SpecialDialogResult::StartDialogNewGame | SpecialDialogResult::StartDialogLoadGame | SpecialDialogResult::NewGameStart(_)),
        ManageMode::NewGame => matches!(r, SpecialDialogResult::NewGameStart(_) | SpecialDialogResult::TempGameData(_) | SpecialDialogResult::ReturnToStartScreen),
        ManageMode::OnGame => matches!(r, SpecialDialogResult::ReturnToStartScreen),
    }
}

/// The action and the next mode for special result `r` in mode `mode`.
pub fn process_special_result<G>(mode: ManageMode, r: SpecialDialogResult<G>) -> (out: (ManageMode, SpecialAction<G>))
    requires
        special_result_accepted(mode, r),
    ensures
        out == special_outcome(mode, r),
{
    match mode {
        ManageMode::Start => match r {
            SpecialDialogResult::StartDialogNewGame => (ManageMode::NewGame, SpecialAction::EnterNewGame),
            SpecialDialogResult::StartDialogLoadGame => (ManageMode::Start, SpecialAction::ChooseSaveFile),
            SpecialDialogResult::NewGameStart(g) => (ManageMode::OnGame, SpecialAction::LoadGame(g)),
            _ => (mode, SpecialAction::ChooseSaveFile),
        },
        ManageMode::NewGame => match r {
            SpecialDialogResult::NewGameStart(g) => (ManageMode::OnGame, SpecialAction::StartNewGame(g)),
            SpecialDialogResult::TempGameData(g) => (ManageMode::NewGame, SpecialAction::SetGameData(g)),
            _ => (ManageMode::Start, SpecialAction::ReturnToStart { clear_log: false }),
        },
        ManageMode::OnGame => (ManageMode::Start, SpecialAction::ReturnToStart { clear_log: true }),
    }
}

/// The dialog that a special action opens.
#[derive(Clone, Copy, Debug, PartialEq, Eq, Structural)]
pub enum OpenedDialog {
    /// The new-game dialog.
    NewGame,
    /// The dialog that chooses a save file.
    ChooseSaveFile,
    /// The start dialog.
    Start,
}

/// The dialog that action `a` opens, if any.
pub open spec fn special_opens<G>(a: SpecialAction<G>) -> Option<OpenedDialog> {
    match a {
        SpecialAction::EnterNewGame => Some(OpenedDialog::NewGame),
        SpecialAction::ChooseSaveFile => Some(OpenedDialog::ChooseSaveFile),
        SpecialAction::ReturnToStart { .. } => Some(OpenedDialog::Start),
        _ => None,
    }
}

/// The dialog stack `s` after action `a`, with `opened` the dialog that the
/// action opens: entering the new game and returning to the start close
/// all dialogs and open theirs; choosing a save file opens the chooser on
/// top; starting a game closes all dialogs; keeping game data leaves the
/// stack as it is.
pub open spec fn stack_after_special<W, G>(s: Seq<W>, a: SpecialAction<G>, opened: Option<W>) -> Seq<W> {
    match a {
        SpecialAction::EnterNewGame => seq![opened.unwrap()],
        SpecialAction::ChooseSaveFile => s.push(opened.unwrap()),
        SpecialAction::LoadGame(_) => Seq::empty(),
        SpecialAction::StartNewGame(_) => Seq::empty(),
        SpecialAction::SetGameData(_) => s,
        SpecialAction::ReturnToStart { .. } => seq![opened.unwrap()],
    }
}

/// The dialog that action `a` opens, if any.
pub fn dialog_opened_by<G>(a: &SpecialAction<G>) -> (r: Option<OpenedDialog>)
    ensures
        r == special_opens(*a),
{
    match a {
        SpecialAction::EnterNewGame => Some(OpenedDialog::NewGame),
        SpecialAction::ChooseSaveFile => Some(OpenedDialog::ChooseSaveFile),
        SpecialAction::ReturnToStart { .. } => Some(OpenedDialog::Start),
        _ => None,
    }
}

/// Carries out what action `a` does to the dialog stack; `opened` is the
/// dialog it opens (made by the caller as `dialog_opened_by` says).
pub fn apply_special_action<W, G>(stack: &mut WindowStack<W>, a: &SpecialAction<G>, opened: Option<W>)
    requires
        opened.is_some() == special_opens(*a).is_some(),
    ensures
        final(stack)@ == stack_after_special(old(stack)@, *a, opened),
{
    match a {
        SpecialAction::EnterNewGame => {
            stack.clear();
            if let Some(w) = opened {
                stack.push(w);
            }
        },
        SpecialAction::ChooseSaveFile => {
            if let Some(w) = opened {
                stack.push(w);
            }
        },
        SpecialAction::LoadGame(_) => { stack.clear(); },
        SpecialAction::StartNewGame(_) => { stack.clear(); },
        SpecialAction::SetGameData(_) => {},
        SpecialAction::ReturnToStart { .. } => {
            stack.clear();
            if let Some(w) = opened {
                stack.push(w);
            }
        },
    }
}

/// What a special result does to the mode and the dialog stack: a new game
/// from the start screen leaves only the new-game dialog open; loading
/// opens the save-file chooser on top; starting a game closes all dialogs;
/// returning to the start screen leaves only the start dialog open; game
/// data being built leaves mode and stack as they are.
pub proof fn law_special_result_stack<W, G>(mode: ManageMode, r: SpecialDialogResult<G>, s: Seq<W>, opened: Option<W>)
    requires
        special_result_accepted(mode, r),
        opened.is_some() == special_opens(special_outcome(mode, r).1).is_some(),
    ensures
        ({
            let (m, a) = special_outcome(mode, r);
            let s2 = stack_after_special(s, a, opened);
            &&& r is StartDialogNewGame ==> m == ManageMode::NewGame && s2.len() == 1
            &&& r is StartDialogLoadGame ==> m == mode && s2.len() == s.len() + 1
            &&& r is NewGameStart ==> m == ManageMode::OnGame && s2.len() == 0
            &&& r is ReturnToStartScreen ==> m == ManageMode::Start && s2.len() == 1
            &&& r is TempGameData ==> m == mode && s2 == s
        }),
{
}

/// Where a command goes after a screen part (sidebar, toolbar, shortcut
/// list) saw it.
pub enum Route<W> {
    /// On to the next part, as this command.
    Forward(Command),
    /// Handled: processing ends.
    Stop,
    /// Handled by opening this dialog.
    Open(W),
}

/// Where `command` goes after a screen part answered `r`: a `Command`
/// answer replaces it (or ends processing when empty); an
/// `OpenChildDialog` answer opens the dialog when `opens` (the toolbar);
/// any other answer passes the command on unchanged.
pub open spec fn route_of<W, G>(r: DialogResult<W, G>, command: Command, opens: bool) -> Route<W> {
    match r {
        DialogResult::Command(Some(c)) => Route::Forward(c),
        DialogResult::Command(None) => Route::Stop,
        DialogResult::OpenChildDialog(w) => if opens { Route::Open(w) } else { Route::Forward(command) },
        _ => Route::Forward(command),
    }
}

/// Where `command` goes after a screen part answered `r`.
pub fn route_command<W, G>(r: DialogResult<W, G>, command: Command, opens: bool) -> (out: Route<W>)
    ensures
        out == route_of(r, command, opens),
{
    match r {
        DialogResult::Command(Some(c)) => Route::Forward(c),
        DialogResult::Command(None) => Route::Stop,
        DialogResult::OpenChildDialog(w) => if opens { Route::Open(w) } else { Route::Forward(command) },
        _ => Route::Forward(command),
    }
}

/// The item windows that a command can open on a given tab.
#[derive(Clone, Copy, Debug, PartialEq, Eq, Structural)]
pub enum ItemTab {
    Drop,
    Drink,
    Eat,
    Release,
}

/// What a command does on the game screen.
#[derive(Debug)]
pub enum GameAction {
    TryMove((i32, i32)),
    MoveTo((i32, i32)),
    Shoot((i32, i32)),
    UseTool((i32, i32)),
    /// Go to the next floor (the player stands on a map entrance).
    GotoNextFloor,
    OpenAbilityWin,
    OpenCreationWin,
    OpenExitWin,
    OpenHelpWin,
    OpenItemWin,
    OpenDebugCommandWin,
    OpenEquipWin,
    OpenStatusWin,
    OpenGameInfoWin,
    /// Open the pick-up window (items lie on the player's tile).
    OpenPickUpWin,
    OpenItemWinOn(ItemTab),
    ExecShortcut(usize),
    ChangeEquip(u32),
    Nothing,
}

/// What `c` does on the game screen, where `on_entrance` tells whether the
/// player stands on a map entrance and `items_here` whether items lie on
/// the player's tile.
pub open spec fn game_action_of(c: Command, on_entrance: bool, items_here: bool) -> GameAction {
    match c {
        Command::Move { dir } => GameAction::TryMove(dir),
        Command::MoveTo { dest } => GameAction::MoveTo(dest),
        Command::Shoot { target } => GameAction::Shoot(target),
        Command::UseTool { target } => GameAction::UseTool(target),
        Command::Enter => if on_entrance { GameAction::GotoNextFloor } else { GameAction::Nothing },
        Command::OpenAbilityWin => GameAction::OpenAbilityWin,
        Command::OpenCreationWin => GameAction::OpenCreationWin,
        Command::OpenExitWin => GameAction::OpenExitWin,
        Command::OpenHelpWin => GameAction::OpenHelpWin,
        Command::OpenItemWin => GameAction::OpenItemWin,
        Command::OpenDebugCommandWin => GameAction::OpenDebugCommandWin,
        Command::OpenEquipWin => GameAction::OpenEquipWin,
        Command::OpenStatusWin => GameAction::OpenStatusWin,
        Command::OpenGameInfoWin => GameAction::OpenGameInfoWin,
        Command::PickUpItem => if items_here { GameAction::OpenPickUpWin } else { GameAction::Nothing },
        Command::DropItem => GameAction::OpenItemWinOn(ItemTab::Drop),
        Command::DrinkItem => GameAction::OpenItemWinOn(ItemTab::Drink),
        Command::EatItem => GameAction::OpenItemWinOn(ItemTab::Eat),
        Command::ReleaseItem => GameAction::OpenItemWinOn(ItemTab::Release),
        Command::ActionShortcut(n) => GameAction::ExecShortcut(n),
        Command::ChangeEquip { kind } => GameAction::ChangeEquip(kind),
        _ => GameAction::Nothing,
    }
}

/// Each item command opens the item window on its own tab, wherever the
/// player stands: dropping on the drop tab, drinking on the drink tab,
/// eating on the eat tab, releasing on the release tab; so no two of them
/// open the same tab.
pub proof fn law_item_commands_open_their_tabs(on_entrance: bool, items_here: bool)
    ensures
        game_action_of(Command::DropItem, on_entrance, items_here) == GameAction::OpenItemWinOn(ItemTab::Drop),
        game_action_of(Command::DrinkItem, on_entrance, items_here) == GameAction::OpenItemWinOn(ItemTab::Drink),
        game_action_of(Command::EatItem, on_entrance, items_here) == GameAction::OpenItemWinOn(ItemTab::Eat),
        game_action_of(Command::ReleaseItem, on_entrance, items_here) == GameAction::OpenItemWinOn(ItemTab::Release),
        forall|c1: Command, c2: Command|
            (c1 is DropItem || c1 is DrinkItem || c1 is EatItem || c1 is ReleaseItem)
            && (c2 is DropItem || c2 is DrinkItem || c2 is EatItem || c2 is ReleaseItem)
            && #[trigger] game_action_of(c1, on_entrance, items_here) == #[trigger] game_action_of(c2, on_entrance, items_here)
            ==> c1 == c2,
{
}

/// Enter leads to the next floor exactly when the player stands on a map's
/// entrance, and the pick-up window opens exactly when there are items on
/// the player's tile; otherwise these commands do nothing.
pub proof fn law_enter_and_pick_up(on_entrance: bool, items_here: bool)
    ensures
        (game_action_of(Command::Enter, on_entrance, items_here) is GotoNextFloor) == on_entrance,
        !on_entrance ==> game_action_of(Command::Enter, on_entrance, items_here) is Nothing,
        (game_action_of(Command::PickUpItem, on_entrance, items_here) is OpenPickUpWin) == items_here,
        !items_here ==> game_action_of(Command::PickUpItem, on_entrance, items_here) is Nothing,
{
}

/// What `c` does on the game screen.
pub fn game_action(c: Command, on_entrance: bool, items_here: bool) -> (a: GameAction)
    ensures
        a == game_action_of(c, on_entrance, items_here),
{
    match c {
        Command::Move { dir } => GameAction::TryMove(dir),
        Command::MoveTo { dest } => GameAction::MoveTo(dest),
        Command::Shoot { target } => GameAction::Shoot(target),
        Command::UseTool { target } => GameAction::UseTool(target),
        Command::Enter => if on_entrance { GameAction::GotoNextFloor } else { GameAction::Nothing },
        Command::OpenAbilityWin => GameAction::OpenAbilityWin,
        Command::OpenCreationWin => GameAction::OpenCreationWin,
        Command::OpenExitWin => GameAction::OpenExitWin,
        Command::OpenHelpWin => GameAction::OpenHelpWin,
        Command::OpenItemWin => GameAction::OpenItemWin,
        Command::OpenDebugCommandWin => GameAction::OpenDebugCommandWin,
        Command::OpenEquipWin => GameAction::OpenEquipWin,
        Command::OpenStatusWin => GameAction::OpenStatusWin,
        Command::OpenGameInfoWin => GameAction::OpenGameInfoWin,
        Command::PickUpItem => if items_here { GameAction::OpenPickUpWin } else { GameAction::Nothing },
        Command::DropItem => GameAction::OpenItemWinOn(ItemTab::Drop),
        Command::DrinkItem => GameAction::OpenItemWinOn(ItemTab::Drink),
        Command::EatItem => GameAction::OpenItemWinOn(ItemTab::Eat),
        Command::ReleaseItem => GameAction::OpenItemWinOn(ItemTab::Release),
        Command::ActionShortcut(n) => GameAction::ExecShortcut(n),
        Command::ChangeEquip { kind } => GameAction::ChangeEquip(kind),
        _ => GameAction::Nothing,
    }
}

/// How a dialog is drawn.
#[derive(Clone, Copy, Debug, PartialEq, Eq, Structural)]
pub enum WindowDrawMode {
    /// Over the windows beneath it.
    Normal,
    /// Alone: the windows beneath it are not drawn.
    SkipUnderWindows,
}

/// The first dialog drawn: the last one (from the bottom, below `n`) that
/// skips the windows beneath it, or the bottom one.
pub open spec fn first_drawn(modes: Seq<WindowDrawMode>, n: int) -> int
    decreases n,
{
    if n <= 0 {
        0
    } else if modes[n - 1] is SkipUnderWindows {
        n - 1
    } else {
        first_drawn(modes, n - 1)
    }
}

proof fn lemma_first_drawn_bounds(modes: Seq<WindowDrawMode>, n: int)
    requires
        0 <= n <= modes.len(),
    ensures
        0 <= first_drawn(modes, n) <= n,
        n > 0 ==> first_drawn(modes, n) < n,
        forall|j: int| first_drawn(modes, n) < j < n ==> modes[j] is Normal,
    decreases n,
{
    if n > 0 && !(modes[n - 1] is SkipUnderWindows) {
        lemma_first_drawn_bounds(modes, n - 1);
    }
}

/// The positions (from the bottom) of the dialogs to draw, bottom first:
/// from the topmost dialog that skips the windows beneath it (or the
/// bottom one) up to the top.
pub fn windows_to_draw(modes: &Vec<WindowDrawMode>) -> (r: Vec<usize>)
    ensures
        r@ == Seq::new((modes@.len() - first_drawn(modes@, modes@.len() as int)) as nat, |i: int| (first_drawn(modes@, modes@.len() as int) + i) as usize),
{
    let n = modes.len();
    let mut r: Vec<usize> = Vec::new();
    let mut i: usize = 0;
    while i < n
        invariant
            n == modes@.len(),
            i <= n,
            r@ == Seq::new((i - first_drawn(modes@, i as int)) as nat, |k: int| (first_drawn(modes@, i as int) + k) as usize),
        decreases n - i,
    {
        proof { lemma_first_drawn_bounds(modes@, i as int); }
        match modes[i] {
            WindowDrawMode::Normal => {
                r.push(i);
            },
            WindowDrawMode::SkipUnderWindows => {
                r.clear();
                r.push(i);
            },
        }
        i = i + 1;
        assert(r@ =~= Seq::new((i - first_drawn(modes@, i as int)) as nat, |k: int| (first_drawn(modes@, i as int) + k) as usize));
    }
    r
}

} // verus!
