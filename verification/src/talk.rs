//! Talk windows: messages shown page by page and answers to choose.
use vstd::prelude::*;
use crate::command::{Command, MouseButton};
use crate::dialog::DialogResult;
use crate::strutil::{split_paragraphs, spec_paragraphs, lemma_paragraphs_len};
use crate::text::{bundle_text, TextArgs};
use crate::texts::{TextBundles, talk_txt, lookup, no_args};

verus! {

/// The pages of talk message `text_id`: its text split at blank lines, or
/// the id itself as the only page when there is no such text.
pub open spec fn msg_pages(t: TextBundles, text_id: Seq<char>) -> Seq<Seq<char>> {
    match bundle_text(t.talk, text_id, no_args()) {
        Some(s) => spec_paragraphs(s),
        None => seq![text_id],
    }
}

/// The lines of a talk message, shown one page at a time.
pub struct MsgText {
    text: Vec<String>,
    current_page: usize,
}

impl MsgText {
    /// The pages.
    pub closed spec fn pages(&self) -> Seq<Seq<char>> {
        self.text.deep_view()
    }

    /// The page shown (counted from 0).
    pub closed spec fn page(&self) -> nat {
        self.current_page as nat
    }

    /// There is a page, and the page shown is one of them.
    pub open spec fn wf(&self) -> bool {
        self.pages().len() > 0 && self.page() < self.pages().len()
    }

    /// The message `text_id`, at its first page.
    pub fn new(t: &TextBundles, text_id: &str) -> (m: MsgText)
        ensures
            m.wf(),
            m.pages() == msg_pages(*t, text_id@),
            m.page() == 0,
    {
        let args: TextArgs = Vec::new();
        assert(args.deep_view() =~= no_args());
        let text = match crate::texts::talk_txt_checked(t, text_id, &args) {
            Some(s) => {
                proof { lemma_paragraphs_len(s@); }
                split_paragraphs(s.as_str())
            },
            None => {
                let mut v: Vec<String> = Vec::new();
                v.push(text_id.to_owned());
                assert(v.deep_view() == seq![text_id@]);
                v
            },
        };
        MsgText { text, current_page: 0 }
    }

    /// The page shown.
    pub fn text(&self) -> (r: &str)
        requires
            self.wf(),
        ensures
            r@ == self.pages()[self.page() as int],
    {
        self.text[self.current_page].as_str()
    }

    /// Turns to the next page.
    pub fn next_page(&mut self)
        requires
            old(self).wf(),
            !old(self).is_final(),
        ensures
            final(self).wf(),
            final(self).pages() == old(self).pages(),
            final(self).page() == old(self).page() + 1,
    {
        let n = self.text.len();
        assert(self.text.deep_view().len() == n);
        self.current_page += 1;
    }

    /// Whether the last page is shown.
    pub open spec fn is_final(&self) -> bool {
        self.page() + 1 >= self.pages().len()
    }

    /// Whether the last page is shown.
    pub fn is_final_page(&self) -> (r: bool)
        requires
            self.wf(),
        ensures
            r == self.is_final(),
    {
        self.current_page >= self.text.len() - 1
    }
}

/// What a talk window asks of the script after a command.
#[derive(Clone, Copy, Debug, PartialEq, Eq, Structural)]
pub enum TalkStep {
    /// Nothing: keep showing the talk.
    Continue,
    /// The page was turned; show the new page.
    PageTurned,
    /// Advance the talk script, with the answer chosen if any.
    Advance(Option<u32>),
}

/// What the talk script answers when it advances.
pub enum AdvanceScriptResult<T> {
    /// The talk goes on with new text.
    UpdateTalkText(T),
    /// The script goes on without new text.
    Continue,
    /// The talk ends.
    Quit,
}

/// A talk text of the script: the message and the answers offered (talk
/// text ids).
pub struct TalkText {
    pub text_id: String,
    pub choices: Vec<String>,
}

/// The state of a talk window: its message, the answers offered on the
/// last page, and whether a click began on it.
pub struct TalkWindow {
    msg_text: MsgText,
    /// The answers of the talk text shown (talk text ids).
    choices: Vec<String>,
    answers: Option<Vec<String>>,
    click: bool,
}

impl TalkWindow {
    /// The answers offered, if a choice is shown.
    pub closed spec fn offered(&self) -> Option<Seq<Seq<char>>> {
        match self.answers {
            Some(v) => Some(v.deep_view()),
            None => None,
        }
    }

    /// The message shown.
    pub closed spec fn msg(&self) -> MsgText {
        self.msg_text
    }

    /// The answers of the talk text shown (talk text ids), offered on its
    /// last page.
    pub closed spec fn choices_view(&self) -> Seq<Seq<char>> {
        self.choices.deep_view()
    }

    /// The page shown.
    pub fn text(&self) -> (r: &str)
        requires
            self.msg().wf(),
        ensures
            r@ == self.msg().pages()[self.msg().page() as int],
    {
        self.msg_text.text()
    }

    /// The answers offered, if a choice is shown.
    pub fn answers(&self) -> (r: &Option<Vec<String>>)
        ensures
            (match *r { Some(v) => Some(v.deep_view()), None => None }) == self.offered(),
    {
        &self.answers
    }

    /// Whether a mouse click began on the window.
    pub closed spec fn clicked(&self) -> bool {
        self.click
    }

    /// A talk window on message `text_id` with answers `choices` (talk
    /// text ids).
    pub fn new(t: &TextBundles, text_id: &str, choices: &Vec<String>) -> (w: TalkWindow)
        ensures
            w.msg().wf(),
            w.msg().pages() == msg_pages(*t, text_id@),
            w.msg().page() == 0,
            w.offered() == answers_of(*t, msg_pages(*t, text_id@).len() <= 1, choices.deep_view()),
            w.choices_view() == choices.deep_view(),
            !w.clicked(),
    {
        let mut w = TalkWindow { msg_text: MsgText::new(t, text_id), choices: Vec::new(), answers: None, click: false };
        w.update_page(t, text_id, choices);
        w
    }

    /// Shows message `text_id` from its first page, and the answers
    /// `choices` if that page is the last one.
    pub fn update_page(&mut self, t: &TextBundles, text_id: &str, choices: &Vec<String>)
        ensures
            final(self).msg().wf(),
            final(self).msg().pages() == msg_pages(*t, text_id@),
            final(self).msg().page() == 0,
            final(self).offered() == answers_of(*t, msg_pages(*t, text_id@).len() <= 1, choices.deep_view()),
            final(self).choices_view() == choices.deep_view(),
            final(self).clicked() == old(self).clicked(),
    {
        self.msg_text = MsgText::new(t, text_id);
        self.choices = choices.clone();
        assert(self.choices.deep_view() =~= choices.deep_view());
        self.answers = None;
        self.offer_answers(t);
    }

    /// Offers the answers when the last page is shown and there are any.
    fn offer_answers(&mut self, t: &TextBundles)
        requires
            old(self).msg().wf(),
            old(self).answers.is_none(),
        ensures
            final(self).msg() == old(self).msg(),
            final(self).choices == old(self).choices,
            final(self).offered() == answers_of(*t, old(self).msg().is_final(), old(self).choices_view()),
            final(self).click == old(self).click,
    {
        let choices = &self.choices;
        if self.msg_text.is_final_page() && choices.len() > 0 {
            let mut v: Vec<String> = Vec::new();
            let mut i: usize = 0;
            while i < choices.len()
                invariant
                    i <= choices@.len(),
                    v.deep_view() == Seq::new(i as nat, |k: int| lookup(t.talk, choices.deep_view()[k], no_args())),
                decreases choices@.len() - i,
            {
                let s = talk_txt(t, choices[i].as_str());
                assert(choices.deep_view()[i as int] == choices@[i as int]@);
                let ghost old_v = v.deep_view();
                v.push(s);
                assert(v.deep_view() =~= old_v.push(s@));
                i = i + 1;
                assert(v.deep_view() =~= Seq::new(i as nat, |k: int| lookup(t.talk, choices.deep_view()[k], no_args())));
            }
            self.answers = Some(v);
        }
    }

    /// Takes a command; `chosen` is the answer the player chose, if a
    /// choice is shown and one was chosen.
    pub fn process_command(&mut self, t: &TextBundles, command: &Command, chosen: Option<u32>) -> (r: TalkStep)
        requires
            old(self).msg().wf(),
            old(self).offered() == answers_of(*t, old(self).msg().is_final(), old(self).choices_view()),
        ensures
            final(self).msg().wf(),
            final(self).msg().pages() == old(self).msg().pages(),
            final(self).choices_view() == old(self).choices_view(),
            final(self).offered() == answers_of(*t, final(self).msg().is_final(), final(self).choices_view()),
            r == talk_step(old(self).offered().is_some(), old(self).msg().is_final(),
                old(self).clicked(), *command, chosen),
            r is PageTurned ==> final(self).msg().page() == old(self).msg().page() + 1,
            !(r is PageTurned) ==> final(self).msg().page() == old(self).msg().page(),
            final(self).clicked() == clicked_after(old(self).offered().is_some(), old(self).clicked(), *command),
    {
        if self.answers.is_some() {
            return match chosen {
                Some(n) => TalkStep::Advance(Some(n)),
                None => TalkStep::Continue,
            };
        }
        match command {
            Command::MouseButtonDown { .. } => {
                self.click = true;
                TalkStep::Continue
            },
            Command::Enter | Command::MouseButtonUp { .. } => {
                if !self.click && matches!(command, Command::MouseButtonUp { .. }) {
                    return TalkStep::Continue;
                }
                self.click = false;
                if self.msg_text.is_final_page() {
                    TalkStep::Advance(None)
                } else {
                    self.msg_text.next_page();
                    self.offer_answers(t);
                    TalkStep::PageTurned
                }
            },
            _ => TalkStep::Continue,
        }
    }
}

impl TalkWindow {
    /// Takes the script's answer after the talk advanced (after an answer
    /// was chosen, the last page was passed, or a child window closed): new
    /// talk text is shown from its first page, and the window stays open;
    /// the end of the talk closes the window.
    pub fn take_advance<W, G>(&mut self, t: &TextBundles, r: AdvanceScriptResult<TalkText>) -> (out: DialogResult<W, G>)
        ensures
            match r {
                AdvanceScriptResult::UpdateTalkText(tt) => {
                    &&& out is Continue
                    &&& final(self).msg().wf()
                    &&& final(self).msg().pages() == msg_pages(*t, tt.text_id@)
                    &&& final(self).msg().page() == 0
                    &&& final(self).choices_view() == tt.choices.deep_view()
                    &&& final(self).offered() == answers_of(*t, msg_pages(*t, tt.text_id@).len() <= 1, tt.choices.deep_view())
                    &&& final(self).clicked() == old(self).clicked()
                },
                AdvanceScriptResult::Continue => out is Continue && *final(self) == *old(self),
                AdvanceScriptResult::Quit => out is Close && *final(self) == *old(self),
            },
    {
        match r {
            AdvanceScriptResult::UpdateTalkText(tt) => {
                self.update_page(t, tt.text_id.as_str(), &tt.choices);
                DialogResult::Continue
            },
            AdvanceScriptResult::Continue => DialogResult::Continue,
            AdvanceScriptResult::Quit => DialogResult::Close,
        }
    }
}

/// The answers offered: the talk texts of `choices` when the last page is
/// shown and there are choices.
pub open spec fn answers_of(t: TextBundles, is_final: bool, choices: Seq<Seq<char>>) -> Option<Seq<Seq<char>>> {
    if is_final && choices.len() > 0 {
        Some(Seq::new(choices.len(), |k: int| lookup(t.talk, choices[k], no_args())))
    } else {
        None
    }
}

/// What a talk window does with a command: with a choice shown, only the
/// chosen answer advances the talk; else a press of Enter, or a mouse click
/// released on the window, turns the page or, on the last page, advances
/// the talk.
pub open spec fn talk_step(has_choice: bool, is_final: bool, clicked: bool, c: Command, chosen: Option<u32>) -> TalkStep {
    if has_choice {
        match chosen {
            Some(n) => TalkStep::Advance(Some(n)),
            None => TalkStep::Continue,
        }
    } else if c is Enter || (c is MouseButtonUp && clicked) {
        if is_final { TalkStep::Advance(None) } else { TalkStep::PageTurned }
    } else {
        TalkStep::Continue
    }
}

/// Whether a click is under way after command `c`.
pub open spec fn clicked_after(has_choice: bool, clicked: bool, c: Command) -> bool {
    if has_choice {
        clicked
    } else if c is MouseButtonDown {
        true
    } else if c is Enter || (c is MouseButtonUp && clicked) {
        false
    } else {
        clicked
    }
}

/// Without a choice shown, a mouse button pressed on the talk window and
/// then released acts as Enter does: it turns the page, or on the last
/// page advances the talk, and the click is over afterwards. A release
/// without a press before it does nothing.
pub proof fn law_click_acts_as_enter(
    is_final: bool,
    clicked: bool,
    x0: i32, y0: i32, b0: MouseButton,
    x1: i32, y1: i32, b1: MouseButton,
)
    ensures
        ({
            let pressed = clicked_after(false, clicked, Command::MouseButtonDown { x: x0, y: y0, button: b0 });
            let release = Command::MouseButtonUp { x: x1, y: y1, button: b1 };
            &&& pressed
            &&& talk_step(false, is_final, pressed, release, None)
                == (if is_final { TalkStep::Advance(None) } else { TalkStep::PageTurned })
            &&& talk_step(false, is_final, pressed, release, None) == talk_step(false, is_final, clicked, Command::Enter, None)
            &&& !clicked_after(false, pressed, release)
        }),
        talk_step(false, is_final, false, Command::MouseButtonUp { x: x1, y: y1, button: b1 }, None) == TalkStep::Continue,
{
}

} // verus!
