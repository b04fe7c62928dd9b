//! Window groups: several windows behind tabs, one shown at a time.
use vstd::prelude::*;
use crate::command::{Command, InputMode};
use crate::dialog::DialogResult;
use crate::geom::Rect;
use crate::texts::{TextBundles, lookup, no_args, ui_txt};

verus! {

/// The tab after `cur` among `size` tabs, wrapping around.
pub open spec fn next_tab(cur: int, size: int) -> int {
    if cur + 1 < size { cur + 1 } else { 0 }
}

/// The tab before `cur` among `size` tabs, wrapping around.
pub open spec fn prev_tab(cur: int, size: int) -> int {
    if cur > 0 { cur - 1 } else { size - 1 }
}

/// A group of `size` windows of type `W`, each made when its tab is first
/// shown.
pub struct GroupWindow<W> {
    size: usize,
    current_window: usize,
    members: Vec<Option<W>>,
}

impl<W> GroupWindow<W> {
    /// How key presses are read while this window is on top.
    pub fn mode(&self) -> (m: InputMode)
        ensures
            m == InputMode::Dialog,
    {
        InputMode::Dialog
    }


    /// The number of tabs.
    pub closed spec fn tabs(&self) -> nat {
        self.size as nat
    }

    /// The tab shown.
    pub closed spec fn current(&self) -> nat {
        self.current_window as nat
    }

    /// The windows made so far, by tab.
    pub closed spec fn members(&self) -> Seq<Option<W>> {
        self.members@
    }

    /// The tab shown is one of the tabs, and there is a place for each
    /// tab's window.
    pub open spec fn wf(&self) -> bool {
        &&& self.current() < self.tabs()
        &&& self.members().len() == self.tabs()
    }

    /// A group of `size` tabs showing tab `init_win`; the second result
    /// tells that the window of that tab is to be made (see `install`).
    pub fn new(size: usize, init_win: usize) -> (r: (GroupWindow<W>, bool))
        requires
            init_win < size,
        ensures
            r.0.wf(),
            r.0.tabs() == size,
            r.0.current() == init_win,
            r.0.members() == Seq::new(size as nat, |i: int| None::<W>),
            r.1,
    {
        let mut members: Vec<Option<W>> = Vec::new();
        let mut i: usize = 0;
        while i < size
            invariant
                i <= size,
                members@ == Seq::new(i as nat, |k: int| None::<W>),
            decreases size - i,
        {
            members.push(None);
            i = i + 1;
            assert(members@ =~= Seq::new(i as nat, |k: int| None::<W>));
        }
        let mut g = GroupWindow { size, current_window: init_win, members };
        let need = g.switch(init_win);
        (g, need)
    }

    /// Shows tab `i`; the result tells whether its window is yet to be
    /// made.
    pub fn switch(&mut self, i: usize) -> (need: bool)
        requires
            old(self).wf(),
            i < old(self).tabs(),
        ensures
            final(self).wf(),
            final(self).tabs() == old(self).tabs(),
            final(self).members() == old(self).members(),
            final(self).current() == i,
            need == old(self).members()[i as int].is_none(),
    {
        self.current_window = i;
        self.members[i].is_none()
    }

    /// Puts `w` as the window of the tab shown.
    pub fn install(&mut self, w: W)
        requires
            old(self).wf(),
        ensures
            final(self).wf(),
            final(self).tabs() == old(self).tabs(),
            final(self).current() == old(self).current(),
            final(self).members() == old(self).members().update(old(self).current() as int, Some(w)),
    {
        let i = self.current_window;
        self.members.set(i, Some(w));
    }

    /// Shows the next tab (the first after the last).
    pub fn rotate_right(&mut self) -> (need: bool)
        requires
            old(self).wf(),
        ensures
            final(self).wf(),
            final(self).tabs() == old(self).tabs(),
            final(self).members() == old(self).members(),
            final(self).current() == next_tab(old(self).current() as int, old(self).tabs() as int),
            need == old(self).members()[final(self).current() as int].is_none(),
    {
        let result = if self.current_window + 1 < self.size { self.current_window + 1 } else { 0 };
        self.switch(result)
    }

    /// Shows the previous tab (the last before the first).
    pub fn rotate_left(&mut self) -> (need: bool)
        requires
            old(self).wf(),
        ensures
            final(self).wf(),
            final(self).tabs() == old(self).tabs(),
            final(self).members() == old(self).members(),
            final(self).current() == prev_tab(old(self).current() as int, old(self).tabs() as int),
            need == old(self).members()[final(self).current() as int].is_none(),
    {
        let result = if self.current_window > 0 { self.current_window - 1 } else { self.size - 1 };
        self.switch(result)
    }

    /// The tab shown.
    pub fn current_window(&self) -> (r: usize)
        ensures
            r == self.current(),
    {
        self.current_window
    }

    /// Takes the window of the tab shown out of the group.
    pub fn take_current(&mut self) -> (r: Option<W>)
        requires
            old(self).wf(),
        ensures
            final(self).wf(),
            final(self).tabs() == old(self).tabs(),
            final(self).current() == old(self).current(),
            r == old(self).members()[old(self).current() as int],
            final(self).members() == old(self).members().update(old(self).current() as int, None),
    {
        let i = self.current_window;
        let mut slot: Option<W> = None;
        std::mem::swap(&mut slot, &mut self.members[i]);
        slot
    }
}

/// What a group does with a command: the rotation commands switch tabs;
/// other commands go to the window shown.
#[derive(Clone, Copy, Debug, PartialEq, Eq, Structural)]
pub enum GroupCommand {
    RotateRight,
    RotateLeft,
    ToMember,
}

/// How a group handles `c`.
pub fn group_command(c: &Command) -> (r: GroupCommand)
    ensures
        r == (if *c is RotateWindowRight { GroupCommand::RotateRight }
            else if *c is RotateWindowLeft { GroupCommand::RotateLeft }
            else { GroupCommand::ToMember }),
{
    match c {
        Command::RotateWindowRight => GroupCommand::RotateRight,
        Command::RotateWindowLeft => GroupCommand::RotateLeft,
        _ => GroupCommand::ToMember,
    }
}

/// The group's answer to its shown window's answer `r`: the group closes
/// when the window closes, and goes on otherwise.
pub fn group_result<W, G>(r: DialogResult<W, G>) -> (out: DialogResult<W, G>)
    ensures
        (r is Close) ==> out is Close,
        !(r is Close) ==> out is Continue,
{
    match r {
        DialogResult::Close => DialogResult::Close,
        _ => DialogResult::Continue,
    }
}

/// Rotating right and then left shows the tab shown before.
pub proof fn law_rotate_right_then_left(cur: int, size: int)
    requires
        0 <= cur < size,
    ensures
        prev_tab(next_tab(cur, size), size) == cur,
{
}

/// Rotating left and then right shows the tab shown before.
pub proof fn law_rotate_left_then_right(cur: int, size: int)
    requires
        0 <= cur < size,
    ensures
        next_tab(prev_tab(cur, size), size) == cur,
{
}

/// Rotating right `size` times from any tab comes back to it.
pub proof fn law_rotate_right_cycle(cur: int, size: int, k: nat)
    requires
        0 <= cur < size,
        k <= size,
    ensures
        rotate_right_times(cur, size, k) == (cur + k) % size,
        k == size ==> rotate_right_times(cur, size, k) == cur,
    decreases k,
{
    lemma_mod_below_twice(cur + k, size);
    if k > 0 {
        law_rotate_right_cycle(cur, size, (k - 1) as nat);
        lemma_mod_below_twice(cur + k - 1, size);
        lemma_mod_below_twice(cur + k, size);
    } else {
        lemma_mod_below_twice(cur, size);
    }
}

proof fn lemma_mod_below_twice(a: int, m: int)
    requires
        0 <= a <= 2 * m,
        m > 0,
    ensures
        a % m == (if a < m { a } else if a < 2 * m { a - m } else { 0 }),
{
    if a < m {
        vstd::arithmetic::div_mod::lemma_small_mod(a as nat, m as nat);
    } else if a < 2 * m {
        vstd::arithmetic::div_mod::lemma_small_mod((a - m) as nat, m as nat);
        vstd::arithmetic::div_mod::lemma_mod_sub_multiples_vanish(a, m);
    } else {
        vstd::arithmetic::div_mod::lemma_mod_self_0(m);
        vstd::arithmetic::div_mod::lemma_mod_sub_multiples_vanish(a, m);
    }
}

/// The tab shown after rotating right `k` times from `cur`.
pub open spec fn rotate_right_times(cur: int, size: int, k: nat) -> int
    decreases k,
{
    if k == 0 { cur } else { next_tab(rotate_right_times(cur, size, (k - 1) as nat), size) }
}

/// The rectangle of the tabs of a group of `size` windows whose window's
/// top-left corner is `(x, y)`: tabs `icon_w` wide, `icon_h + text_h` high,
/// just above the window's border of `border` pixels.
pub fn tabs_rect(x: i32, y: i32, size: u32, icon_w: u32, icon_h: u32, text_h: u32, border: u32) -> (r: Rect)
    requires
        icon_w * size <= u32::MAX,
        icon_h + text_h + border <= i32::MAX,
        y - (icon_h + text_h) - border >= i32::MIN,
    ensures
        r == Rect::new_spec(x, (y - (icon_h + text_h) - border) as i32, (icon_w * size) as u32, (icon_h + text_h) as u32),
{
    let h = icon_h + text_h;
    Rect::new(x, y - h as i32 - border as i32, icon_w * size, h)
}


/// The tabs above a window group: an icon and a label per member, the tab
/// shown marked.
pub struct TabsNavigator {
    pub rect: Rect,
    /// The tab shown.
    pub i: usize,
    /// The labels: where each is (in the tabs) and what it says.
    pub labels: Vec<(Rect, String)>,
}

/// Where the label of tab `i` is: under its icon.
pub open spec fn tab_label_rect(i: int, icon_w: u32, icon_h: u32, text_h: u32) -> Rect {
    Rect::new_spec((i * icon_w) as i32, icon_h as i32, icon_w, text_h)
}

impl TabsNavigator {
    /// The tabs of the members whose labels have the UI text ids
    /// `text_ids`, over the window whose top-left corner is `p`, showing
    /// tab `init`.
    pub fn new(t: &TextBundles, p: (i32, i32), text_ids: &Vec<String>, init: usize, icon_w: u32, icon_h: u32, text_h: u32, border: u32)
        -> (n: TabsNavigator)
        requires
            0 < text_ids@.len() <= u32::MAX,
            icon_w * text_ids@.len() <= i32::MAX,
            icon_h + text_h + border <= i32::MAX,
            p.1 - (icon_h + text_h) - border >= i32::MIN,
        ensures
            n.rect == Rect::new_spec(p.0, (p.1 - (icon_h + text_h) - border) as i32,
                (icon_w * text_ids@.len()) as u32, (icon_h + text_h) as u32),
            n.i == init,
            n.labels@.len() == text_ids@.len(),
            forall|i: int| 0 <= i < text_ids@.len() ==>
                (#[trigger] n.labels@[i]).0 == tab_label_rect(i, icon_w, icon_h, text_h)
                && n.labels@[i].1@ == lookup(t.ui, text_ids@[i]@, no_args()),
    {
        let size = text_ids.len();
        let rect = tabs_rect(p.0, p.1, size as u32, icon_w, icon_h, text_h, border);
        let mut labels: Vec<(Rect, String)> = Vec::new();
        let mut i: usize = 0;
        while i < size
            invariant
                size == text_ids@.len(),
                icon_w * size <= i32::MAX,
                icon_h + text_h + border <= i32::MAX,
                i <= size,
                labels@.len() == i,
                forall|k: int| 0 <= k < i ==>
                    (#[trigger] labels@[k]).0 == tab_label_rect(k, icon_w, icon_h, text_h)
                    && labels@[k].1@ == lookup(t.ui, text_ids@[k]@, no_args()),
            decreases size - i,
        {
            let ghost ii = i as int;
            let ghost ww = icon_w as int;
            assert(ii * ww <= ww * size) by (nonlinear_arith)
                requires 0 <= ii < size, ww >= 0;
            let x: u64 = (i as u64) * (icon_w as u64);
            let r = Rect::new(x as i32, icon_h as i32, icon_w, text_h);
            labels.push((r, ui_txt(t, text_ids[i].as_str())));
            i = i + 1;
        }
        TabsNavigator { rect, i: init, labels }
    }

    /// Marks tab `i` as shown.
    pub fn set_current_tab(&mut self, i: usize)
        ensures
            final(self).i == i,
            final(self).rect == old(self).rect,
            final(self).labels == old(self).labels,
    {
        self.i = i;
    }
}


/// A member of a window group: its tab's icon and the UI text id of its
/// tab's label.
#[derive(Clone, Copy, Debug, PartialEq, Eq)]
pub struct MemberInfo {
    pub icon_id: &'static str,
    pub text_id: &'static str,
}

/// The icon and text ids of members.
pub open spec fn member_ids(m: Seq<MemberInfo>) -> Seq<(Seq<char>, Seq<char>)> {
    m.map_values(|x: MemberInfo| (x.icon_id@, x.text_id@))
}

} // verus!
