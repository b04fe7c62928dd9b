//! Dialog results and the stack of open dialog windows.
use vstd::prelude::*;
use crate::command::Command;

verus! {

/// The value a dialog returns when it closes.
#[derive(Clone, Copy, Debug, PartialEq, Eq, Structural)]
pub enum DialogCloseValue {
    Index(u32),
    Dummy,
}

/// Results for the window manager itself, carrying game data `G`.
pub enum SpecialDialogResult<G> {
    StartDialogNewGame,
    StartDialogLoadGame,
    TempGameData(G),
    NewGameStart(G),
    ReturnToStartScreen,
    ItemListUpdate,
}

/// What a dialog window answers to a command: `W` is the type of dialog
/// windows, `G` that of game data.
pub enum DialogResult<W, G> {
    Continue,
    Close,
    CloseWithValue(DialogCloseValue),
    CloseAll,
    CloseAllAndReprocess(Command),
    CloseAndOpen(W),
    Command(Option<Command>),
    Quit,
    OpenChildDialog(W),
    Reprocess(Command),
    Special(SpecialDialogResult<G>),
}

/// Whether a result closes the dialog that gave it.
pub open spec fn is_close_result<W, G>(r: DialogResult<W, G>) -> bool {
    ||| r is Close
    ||| r is CloseAll
    ||| r is CloseAllAndReprocess
    ||| r is CloseAndOpen
    ||| r is CloseWithValue
}

impl<W, G> DialogResult<W, G> {
    /// Whether this result closes the dialog that gave it.
    pub fn is_close(&self) -> (r: bool)
        ensures
            r == is_close_result(*self),
    {
        match self {
            DialogResult::Close => true,
            DialogResult::CloseAll => true,
            DialogResult::CloseAllAndReprocess(_) => true,
            DialogResult::CloseAndOpen(_) => true,
            DialogResult::CloseWithValue(_) => true,
            _ => false,
        }
    }
}

/// What is to be done after the stack took a dialog result.
pub enum StackStep<W, G> {
    /// Processing of the command ends; the game goes on.
    Done,
    /// The game ends.
    Quit,
    /// The window now on top is told that its child closed (with the
    /// value, if any); its answer is the next result.
    NotifyParent(Option<DialogCloseValue>),
    /// The command goes on to the game screen.
    Reprocess(Command),
    /// The window is to be opened on top of the stack.
    Open(W),
    /// The window manager handles the result.
    Special(SpecialDialogResult<G>),
}

/// The stack of open dialog windows; the last one is on top and receives
/// the commands.
pub struct WindowStack<W> {
    windows: Vec<W>,
}

/// The stack after result `r` of the top window, the window that closed
/// (whose closing sound is played), and what comes next.
pub open spec fn stack_after<W, G>(s: Seq<W>, r: DialogResult<W, G>) -> (Seq<W>, Option<W>, StackStep<W, G>) {
    match r {
        DialogResult::Continue => (s, None, StackStep::Done),
        DialogResult::Close => (
            s.drop_last(),
            Some(s.last()),
            if s.len() > 1 { StackStep::NotifyParent(None) } else { StackStep::Done },
        ),
        DialogResult::CloseWithValue(v) => (
            s.drop_last(),
            Some(s.last()),
            if s.len() > 1 { StackStep::NotifyParent(Some(v)) } else { StackStep::Done },
        ),
        DialogResult::CloseAll => (Seq::empty(), Some(s.last()), StackStep::Done),
        DialogResult::CloseAllAndReprocess(c) => (Seq::empty(), Some(s.last()), StackStep::Reprocess(c)),
        DialogResult::CloseAndOpen(w) => (Seq::empty(), None, StackStep::Open(w)),
        DialogResult::Command(_) => (s, None, StackStep::Done),
        DialogResult::Quit => (s, None, StackStep::Quit),
        DialogResult::OpenChildDialog(w) => (s, None, StackStep::Open(w)),
        DialogResult::Reprocess(c) => (s, None, StackStep::Reprocess(c)),
        DialogResult::Special(x) => (s, None, StackStep::Special(x)),
    }
}

impl<W> View for WindowStack<W> {
    type V = Seq<W>;

    closed spec fn view(&self) -> Seq<W> {
        self.windows@
    }
}

impl<W> WindowStack<W> {
    /// An empty stack.
    pub fn new() -> (r: Self)
        ensures
            r@ == Seq::<W>::empty(),
    {
        WindowStack { windows: Vec::new() }
    }

    /// The number of open windows.
    pub fn len(&self) -> (r: usize)
        ensures
            r == self@.len(),
    {
        self.windows.len()
    }

    /// Whether no window is open.
    pub fn is_empty(&self) -> (r: bool)
        ensures
            r == (self@.len() == 0),
    {
        self.windows.len() == 0
    }

    /// Opens `w` on top of the stack.
    pub fn push(&mut self, w: W)
        ensures
            final(self)@ == old(self)@.push(w),
    {
        self.windows.push(w);
    }

    /// Closes all windows.
    pub fn clear(&mut self)
        ensures
            final(self)@ == Seq::<W>::empty(),
    {
        self.windows.clear();
    }

    /// The top window.
    pub fn top(&self) -> (r: &W)
        requires
            self@.len() > 0,
        ensures
            *r == self@.last(),
    {
        &self.windows[self.windows.len() - 1]
    }

    /// The window at position `i` from the bottom.
    pub fn get(&self, i: usize) -> (r: &W)
        requires
            i < self@.len(),
        ensures
            *r == self@[i as int],
    {
        &self.windows[i]
    }

    /// Replaces the top window by `w` and gives back the one it replaced.
    pub fn replace_top(&mut self, w: W) -> (r: W)
        requires
            old(self)@.len() > 0,
        ensures
            r == old(self)@.last(),
            final(self)@ == old(self)@.drop_last().push(w),
    {
        let old_top = self.windows.pop().unwrap();
        self.windows.push(w);
        old_top
    }

    /// The top window, to be changed in place.
    pub fn top_mut(&mut self) -> (r: &mut W)
        requires
            old(self)@.len() > 0,
        ensures
            *r == old(self)@.last(),
            final(self)@ == old(self)@.update(old(self)@.len() - 1, *final(r)),
    {
        let n = self.windows.len();
        &mut self.windows[n - 1]
    }

    /// Takes dialog result `r` of the top window: closes the windows that
    /// it closes and says what comes next.
    pub fn apply_result<G>(&mut self, r: DialogResult<W, G>) -> (out: (Option<W>, StackStep<W, G>))
        requires
            old(self)@.len() > 0,
        ensures
            (final(self)@, out.0, out.1) == stack_after(old(self)@, r),
    {
        match r {
            DialogResult::Continue => (None, StackStep::Done),
            DialogResult::Close => {
                let closed = self.windows.pop();
                let next = if self.windows.len() > 0 { StackStep::NotifyParent(None) } else { StackStep::Done };
                (closed, next)
            },
            DialogResult::CloseWithValue(v) => {
                let closed = self.windows.pop();
                let next = if self.windows.len() > 0 { StackStep::NotifyParent(Some(v)) } else { StackStep::Done };
                (closed, next)
            },
            DialogResult::CloseAll => {
                let closed = self.windows.pop();
                self.windows.clear();
                (closed, StackStep::Done)
            },
            DialogResult::CloseAllAndReprocess(c) => {
                let closed = self.windows.pop();
                self.windows.clear();
                (closed, StackStep::Reprocess(c))
            },
            DialogResult::CloseAndOpen(w) => {
                self.windows.clear();
                (None, StackStep::Open(w))
            },
            DialogResult::Command(_) => (None, StackStep::Done),
            DialogResult::Quit => (None, StackStep::Quit),
            DialogResult::OpenChildDialog(w) => (None, StackStep::Open(w)),
            DialogResult::Reprocess(c) => (None, StackStep::Reprocess(c)),
            DialogResult::Special(x) => (None, StackStep::Special(x)),
        }
    }
}

} // verus!
