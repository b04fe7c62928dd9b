//! The quest window: the list of quests, quests offered and quests to
//! report, with their descriptions.
use vstd::prelude::*;
use crate::choose_window::ListResponse;
use crate::command::Command;
use crate::dialog::DialogResult;
use crate::dialogs::{DialogCloser, closer_result, escape_click_after};
use crate::geom::Rect;
use crate::manager::WindowDrawMode;
use crate::strutil::{decimal, push_decimal, push_str};
use crate::text::bundle_text;
use crate::texts::{TextBundles, no_args, lookup, obj_text, obj_txt, quest_txt_checked, ui_txt};

verus! {

/// A quest of the player's quest list.
#[derive(Clone, Copy, Debug, PartialEq, Eq, Structural)]
pub enum QuestKind {
    /// The custom quest at this position.
    Custom(usize),
    /// The town quest at this position.
    Town(usize),
}

/// A quest from a script: its id and phase.
pub struct CustomQuest {
    pub id: String,
    pub phase: String,
}

/// A quest of a town: its text id, the items to deliver (with counts), and
/// the reward in money and items. Items are given by object id.
pub struct TownQuest {
    pub text_id: String,
    pub delivery: Vec<(String, u32)>,
    pub reward_money: u64,
    pub reward_items: Vec<(String, u32)>,
}

/// The quest text `id`, or nothing.
pub open spec fn quest_text_or_empty(t: TextBundles, id: Seq<char>) -> Seq<char> {
    match bundle_text(t.quest, id, no_args()) {
        Some(s) => s,
        None => Seq::empty(),
    }
}

/// The description of a custom quest: its text `<id>-desc` (or nothing),
/// and on a new line the text of its phase `<id>-desc-<phase>` if there is
/// one.
pub open spec fn custom_quest_desc(t: TextBundles, id: Seq<char>, phase: Seq<char>) -> Seq<char> {
    let text = quest_text_or_empty(t, id + "-desc"@);
    match bundle_text(t.quest, id + "-desc-"@ + phase, no_args()) {
        Some(p) => text.push('\n') + p,
        None => text,
    }
}

/// The description of a custom quest.
pub fn custom_quest_desc_text(t: &TextBundles, quest: &CustomQuest) -> (r: String)
    ensures
        r@ == custom_quest_desc(*t, quest.id@, quest.phase@),
{
    let mut desc_id = String::new();
    push_str(&mut desc_id, quest.id.as_str());
    push_str(&mut desc_id, "-desc");
    let mut text = match quest_txt_checked(t, desc_id.as_str()) {
        Some(s) => s,
        None => String::new(),
    };
    let mut phase_id = String::new();
    push_str(&mut phase_id, quest.id.as_str());
    push_str(&mut phase_id, "-desc-");
    push_str(&mut phase_id, quest.phase.as_str());
    if let Some(p) = quest_txt_checked(t, phase_id.as_str()) {
        crate::strutil::push_char(&mut text, '\n');
        push_str(&mut text, p.as_str());
    }
    text
}

/// One item with its count: `"<name>x<n>"`.
pub open spec fn item_entry(t: TextBundles, item: (Seq<char>, u32)) -> Seq<char> {
    obj_text(t, item.0) + "x"@ + decimal(item.1 as nat)
}

/// Items with their counts, separated by commas.
pub open spec fn items_text(t: TextBundles, items: Seq<(Seq<char>, u32)>) -> Seq<char>
    decreases items.len(),
{
    if items.len() == 0 {
        Seq::empty()
    } else if items.len() == 1 {
        item_entry(t, items[0])
    } else {
        items_text(t, items.drop_last()) + ","@ + item_entry(t, items.last())
    }
}

/// The views of object ids with counts.
pub open spec fn items_view(v: Seq<(String, u32)>) -> Seq<(Seq<char>, u32)> {
    Seq::new(v.len(), |i: int| (v[i].0@, v[i].1))
}

/// The text of item lists joins: the text of the items `a` followed by the
/// items `b` (both non-empty) is the text of `a`, a comma, and the text of
/// `b`; a single item is written `<name>x<count>`. So `n` items are `n`
/// entries with a comma between each two.
pub proof fn law_items_text_joins(t: TextBundles, a: Seq<(Seq<char>, u32)>, b: Seq<(Seq<char>, u32)>)
    requires
        a.len() > 0,
        b.len() > 0,
    ensures
        items_text(t, a + b) == items_text(t, a) + ","@ + items_text(t, b),
        items_text(t, seq![b[0]]) == obj_text(t, b[0].0) + "x"@ + decimal(b[0].1 as nat),
    decreases b.len(),
{
    if b.len() == 1 {
        assert((a + b).drop_last() =~= a);
        assert((a + b).last() == b[0]);
    } else {
        let b1 = b.drop_last();
        law_items_text_joins(t, a, b1);
        assert((a + b).drop_last() =~= a + b1);
        assert((a + b).last() == b.last());
        assert(items_text(t, b) == items_text(t, b1) + ","@ + item_entry(t, b.last()));
        assert(items_text(t, a + b) =~= items_text(t, a) + ","@ + items_text(t, b));
    }
}

/// Appends the items with their counts, separated by commas.
fn push_items(t: &TextBundles, text: &mut String, items: &Vec<(String, u32)>)
    ensures
        final(text)@ == old(text)@ + items_text(*t, items_view(items@)),
{
    let n = items.len();
    let ghost start = text@;
    let mut i: usize = 0;
    assert(items_view(items@).take(0) =~= Seq::<(Seq<char>, u32)>::empty());
    assert(start + items_text(*t, items_view(items@).take(0)) =~= start);
    while i < n
        invariant
            n == items@.len(),
            i <= n,
            text@ == start + items_text(*t, items_view(items@).take(i as int)),
        decreases n - i,
    {
        let ghost before = text@;
        let ghost iv = items_view(items@);
        assert(iv.take(i + 1).drop_last() =~= iv.take(i as int));
        assert(iv.take(i + 1).last() == (items@[i as int].0@, items@[i as int].1));
        if i > 0 {
            push_str(text, ",");
        }
        let name = obj_txt(t, items[i].0.as_str());
        push_str(text, name.as_str());
        push_str(text, "x");
        push_decimal(text, items[i].1 as u64);
        i = i + 1;
        assert(text@ =~= start + items_text(*t, iv.take(i as int)));
    }
    assert(items_view(items@).take(n as int) =~= items_view(items@));
}

/// The description of a town quest of delivery: its text `<id>-desc` (or
/// nothing), a blank line, the label of the delivery chest and the items to
/// deliver, and on a new line the label of the reward, the money reward
/// when there is one (followed by a comma when items follow) and the items
/// rewarded.
pub open spec fn town_quest_desc(
    t: TextBundles,
    text_id: Seq<char>,
    delivery: Seq<(Seq<char>, u32)>,
    money: nat,
    reward_items: Seq<(Seq<char>, u32)>,
) -> Seq<char> {
    quest_text_or_empty(t, text_id + "-desc"@) + "\n\n"@
        + lookup(t.ui, "label_text-quest-delivery_chest"@, no_args()) + ": "@ + items_text(t, delivery)
        + "\n"@ + lookup(t.ui, "label_text-quest-reward"@, no_args()) + ": "@
        + (if money > 0 {
            decimal(money) + " silver"@ + (if reward_items.len() > 0 { ","@ } else { Seq::empty() })
        } else {
            Seq::empty()
        })
        + items_text(t, reward_items)
}

/// The description of a town quest.
pub fn town_quest_desc_text(t: &TextBundles, quest: &TownQuest) -> (r: String)
    ensures
        r@ == town_quest_desc(*t, quest.text_id@, items_view(quest.delivery@), quest.reward_money as nat,
            items_view(quest.reward_items@)),
{
    let mut desc_id = String::new();
    push_str(&mut desc_id, quest.text_id.as_str());
    push_str(&mut desc_id, "-desc");
    let mut text = match quest_txt_checked(t, desc_id.as_str()) {
        Some(s) => s,
        None => String::new(),
    };
    push_str(&mut text, "\n\n");
    let chest = ui_txt(t, "label_text-quest-delivery_chest");
    push_str(&mut text, chest.as_str());
    push_str(&mut text, ": ");
    push_items(t, &mut text, &quest.delivery);
    push_str(&mut text, "\n");
    let reward = ui_txt(t, "label_text-quest-reward");
    push_str(&mut text, reward.as_str());
    push_str(&mut text, ": ");
    if quest.reward_money > 0 {
        push_decimal(&mut text, quest.reward_money);
        push_str(&mut text, " silver");
        if quest.reward_items.len() > 0 {
            push_str(&mut text, ",");
        }
    }
    push_items(t, &mut text, &quest.reward_items);
    text
}

/// The modes of the quest window.
#[derive(Clone, Copy, Debug, PartialEq, Eq, Structural)]
pub enum QuestWindowKind {
    /// The player's quests.
    List,
    /// Quests offered, to take.
    Offer,
    /// Quests done, to report.
    Report,
}

/// How the quest window is drawn: the list over the windows beneath it,
/// the others alone.
pub fn quest_draw_mode(kind: QuestWindowKind) -> (m: WindowDrawMode)
    ensures
        m == (if kind == QuestWindowKind::List { WindowDrawMode::Normal } else { WindowDrawMode::SkipUnderWindows }),
{
    match kind {
        QuestWindowKind::List => WindowDrawMode::Normal,
        _ => WindowDrawMode::SkipUnderWindows,
    }
}

/// The quests of the player's list: the custom quests, then the town
/// quests; a town quest's row is checked when it can be reported.
pub fn quest_list(n_custom: usize, town_reportable: &Vec<bool>) -> (r: (Vec<QuestKind>, Vec<bool>))
    ensures
        r.0@ == Seq::new(n_custom as nat, |i: int| QuestKind::Custom(i as usize))
            + Seq::new(town_reportable@.len(), |i: int| QuestKind::Town(i as usize)),
        r.1@ == Seq::new(n_custom as nat, |i: int| false) + town_reportable@,
{
    let mut quests: Vec<QuestKind> = Vec::new();
    let mut checked: Vec<bool> = Vec::new();
    let mut i: usize = 0;
    while i < n_custom
        invariant
            i <= n_custom,
            quests@ == Seq::new(i as nat, |k: int| QuestKind::Custom(k as usize)),
            checked@ == Seq::new(i as nat, |k: int| false),
        decreases n_custom - i,
    {
        quests.push(QuestKind::Custom(i));
        checked.push(false);
        i = i + 1;
        assert(quests@ =~= Seq::new(i as nat, |k: int| QuestKind::Custom(k as usize)));
        assert(checked@ =~= Seq::new(i as nat, |k: int| false));
    }
    let mut j: usize = 0;
    assert(quests@ =~= Seq::new(n_custom as nat, |k: int| QuestKind::Custom(k as usize)) + Seq::new(0, |k: int| QuestKind::Town(k as usize)));
    assert(checked@ =~= Seq::new(n_custom as nat, |k: int| false) + town_reportable@.take(0));
    while j < town_reportable.len()
        invariant
            j <= town_reportable@.len(),
            quests@ == Seq::new(n_custom as nat, |k: int| QuestKind::Custom(k as usize)) + Seq::new(j as nat, |k: int| QuestKind::Town(k as usize)),
            checked@ == Seq::new(n_custom as nat, |k: int| false) + town_reportable@.take(j as int),
        decreases town_reportable@.len() - j,
    {
        quests.push(QuestKind::Town(j));
        checked.push(town_reportable[j]);
        j = j + 1;
        assert(quests@ =~= Seq::new(n_custom as nat, |k: int| QuestKind::Custom(k as usize)) + Seq::new(j as nat, |k: int| QuestKind::Town(k as usize)));
        assert(checked@ =~= Seq::new(n_custom as nat, |k: int| false) + town_reportable@.take(j as int));
    }
    assert(town_reportable@.take(j as int) =~= town_reportable@);
    (quests, checked)
}

/// The rows chosen among quests offered or to report.
pub struct QuestSelection {
    pub selected: Vec<bool>,
}

/// The positions of the chosen rows, in order.
pub open spec fn chosen_positions(s: Seq<bool>) -> Seq<usize>
    decreases s.len(),
{
    if s.len() == 0 {
        Seq::empty()
    } else if s.last() {
        chosen_positions(s.drop_last()).push((s.len() - 1) as usize)
    } else {
        chosen_positions(s.drop_last())
    }
}

impl QuestSelection {
    /// `n` rows, all chosen (`all`) or none.
    pub fn new(n: usize, all: bool) -> (s: QuestSelection)
        ensures
            s.selected@ == Seq::new(n as nat, |i: int| all),
    {
        let mut selected: Vec<bool> = Vec::new();
        let mut i: usize = 0;
        while i < n
            invariant
                i <= n,
                selected@ == Seq::new(i as nat, |k: int| all),
            decreases n - i,
        {
            selected.push(all);
            i = i + 1;
            assert(selected@ =~= Seq::new(i as nat, |k: int| all));
        }
        QuestSelection { selected }
    }

    /// Chooses row `i`, or drops it if it was chosen; the result tells
    /// whether it is chosen now (and its row checked).
    pub fn toggle(&mut self, i: usize) -> (now: bool)
        requires
            i < old(self).selected@.len(),
        ensures
            now == !old(self).selected@[i as int],
            final(self).selected@ == old(self).selected@.update(i as int, now),
    {
        let now = !self.selected[i];
        self.selected.set(i, now);
        now
    }

    /// Whether any row is chosen.
    pub fn any(&self) -> (r: bool)
        ensures
            r == (exists|i: int| 0 <= i < self.selected@.len() && self.selected@[i]),
    {
        let mut i: usize = 0;
        while i < self.selected.len()
            invariant
                i <= self.selected@.len(),
                forall|k: int| 0 <= k < i ==> !self.selected@[k],
            decreases self.selected@.len() - i,
        {
            if self.selected[i] {
                return true;
            }
            i = i + 1;
        }
        false
    }

    /// The positions of the chosen rows, in order.
    pub fn positions(&self) -> (r: Vec<usize>)
        ensures
            r@ == chosen_positions(self.selected@),
    {
        let mut r: Vec<usize> = Vec::new();
        let mut i: usize = 0;
        assert(self.selected@.take(0) =~= Seq::<bool>::empty());
        while i < self.selected.len()
            invariant
                i <= self.selected@.len(),
                r@ == chosen_positions(self.selected@.take(i as int)),
            decreases self.selected@.len() - i,
        {
            assert(self.selected@.take(i + 1).drop_last() =~= self.selected@.take(i as int));
            if self.selected[i] {
                r.push(i);
            }
            i = i + 1;
        }
        assert(self.selected@.take(self.selected@.len() as int) =~= self.selected@);
        r
    }

    /// The quests to report: the town quest positions of the chosen rows.
    pub fn report_targets(&self, reportable: &Vec<u32>) -> (r: Vec<usize>)
        requires
            reportable@.len() == self.selected@.len(),
        ensures
            r@ == chosen_positions(self.selected@).map_values(|p: usize| reportable@[p as int] as usize),
    {
        let pos = self.positions();
        let _n = self.selected.len();
        proof { lemma_chosen_positions_bound(self.selected@); }
        let mut r: Vec<usize> = Vec::new();
        let mut i: usize = 0;
        while i < pos.len()
            invariant
                i <= pos@.len(),
                pos@ == chosen_positions(self.selected@),
                reportable@.len() == self.selected@.len(),
                forall|k: int| 0 <= k < pos@.len() ==> pos@[k] < self.selected@.len(),
                r@ == pos@.take(i as int).map_values(|p: usize| reportable@[p as int] as usize),
            decreases pos@.len() - i,
        {
            r.push(reportable[pos[i]] as usize);
            i = i + 1;
            assert(r@ =~= pos@.take(i as int).map_values(|p: usize| reportable@[p as int] as usize));
        }
        assert(pos@.take(pos@.len() as int) =~= pos@);
        r
    }
}

/// The positions of the chosen rows are rows.
pub proof fn lemma_chosen_positions_bound(s: Seq<bool>)
    requires
        s.len() <= usize::MAX,
    ensures
        forall|k: int| 0 <= k < chosen_positions(s).len() ==> chosen_positions(s)[k] < s.len(),
    decreases s.len(),
{
    if s.len() > 0 {
        lemma_chosen_positions_bound(s.drop_last());
        let c = chosen_positions(s);
        let p = chosen_positions(s.drop_last());
        assert forall|k: int| 0 <= k < c.len() implies c[k] < s.len() by {
            if k < p.len() {
                assert(c[k] == p[k]);
            }
        }
    }
}

/// What the quest window does after its buttons saw a command.
#[derive(Clone, Copy, Debug, PartialEq, Eq, Structural)]
pub enum QuestButtonAction {
    /// Take the chosen quests (offer) or report them (report), and close.
    Confirm,
    /// Close.
    Cancel,
    /// Go on to the list.
    ToList,
}

/// What the buttons do: the confirming button counts only while a row is
/// chosen; the list mode has no buttons.
pub open spec fn button_action(kind: QuestWindowKind, any_chosen: bool, ok_clicked: bool, cancel_clicked: bool) -> QuestButtonAction {
    if kind == QuestWindowKind::List { QuestButtonAction::ToList }
    else if any_chosen && ok_clicked { QuestButtonAction::Confirm }
    else if cancel_clicked { QuestButtonAction::Cancel }
    else { QuestButtonAction::ToList }
}

/// The buttons of the offer and report modes: the confirming button counts
/// only while a row is chosen; the list mode has no buttons.
pub fn quest_buttons(kind: QuestWindowKind, any_chosen: bool, ok_clicked: bool, cancel_clicked: bool) -> (r: QuestButtonAction)
    ensures
        r == button_action(kind, any_chosen, ok_clicked, cancel_clicked),
{
    match kind {
        QuestWindowKind::List => QuestButtonAction::ToList,
        _ => {
            if any_chosen && ok_clicked {
                QuestButtonAction::Confirm
            } else if cancel_clicked {
                QuestButtonAction::Cancel
            } else {
                QuestButtonAction::ToList
            }
        },
    }
}

/// What the list's response does: choosing a row toggles it (offer and
/// report modes), moving the cursor shows the row's description.
#[derive(Clone, Copy, Debug, PartialEq, Eq, Structural)]
pub enum QuestListAction {
    Toggle(u32),
    Describe(u32),
    Nothing,
}

/// What the list's response does.
pub open spec fn list_action(kind: QuestWindowKind, response: Option<ListResponse>) -> QuestListAction {
    match response {
        Some(ListResponse::Select(i)) => if kind != QuestWindowKind::List { QuestListAction::Toggle(i) } else { QuestListAction::Nothing },
        Some(ListResponse::SelectionChanged(i)) => QuestListAction::Describe(i),
        _ => QuestListAction::Nothing,
    }
}

/// What the list's response does.
pub fn quest_list_action(kind: QuestWindowKind, response: Option<ListResponse>) -> (r: QuestListAction)
    ensures
        r == list_action(kind, response),
{
    match response {
        Some(ListResponse::Select(i)) => match kind {
            QuestWindowKind::List => QuestListAction::Nothing,
            _ => QuestListAction::Toggle(i),
        },
        Some(ListResponse::SelectionChanged(i)) => QuestListAction::Describe(i),
        _ => QuestListAction::Nothing,
    }
}


/// Which quest the description shows after the cursor moved to a row.
#[derive(Clone, Copy, Debug, PartialEq, Eq, Structural)]
pub enum DescTarget {
    /// The custom quest at this position.
    Custom(usize),
    /// The town quest at this position.
    Town(usize),
    /// The offered quest at this position.
    Offered(usize),
    /// No quest: the description is emptied.
    Blank,
    /// The description stays as it is.
    Keep,
}

/// What the quest window asks of the game after a command.
pub enum QuestRequest {
    /// Nothing.
    Nothing,
    /// Undertake the offered quests at these positions.
    Undertake(Vec<usize>),
    /// Report the town quests at these positions.
    Report(Vec<usize>),
    /// Show the description of this quest.
    Describe(DescTarget),
}

/// The quest window: a list of quests over their description, in one of
/// three modes.
pub struct QuestWindow {
    pub rect: Rect,
    pub closer: DialogCloser,
    pub kind: QuestWindowKind,
    /// The list mode's quests, by row.
    pub quests: Vec<QuestKind>,
    /// The rows chosen (offer and report modes).
    pub selection: QuestSelection,
    /// The report mode's town quest positions, by row.
    pub reportable: Vec<u32>,
    pub list_rect: Rect,
    pub desc_rect: Rect,
    /// Where the line between the list and the description is drawn.
    pub line_y: i32,
    pub desc: String,
}

/// The quest described after the cursor moved to row `i`.
pub open spec fn desc_target(kind: QuestWindowKind, quests: Seq<QuestKind>, reportable: Seq<u32>, i: int) -> DescTarget {
    match kind {
        QuestWindowKind::List =>
            if 0 <= i < quests.len() {
                match quests[i] {
                    QuestKind::Custom(k) => DescTarget::Custom(k),
                    QuestKind::Town(k) => DescTarget::Town(k),
                }
            } else {
                DescTarget::Blank
            },
        QuestWindowKind::Offer => DescTarget::Offered(i as usize),
        QuestWindowKind::Report =>
            if 0 <= i < reportable.len() { DescTarget::Town(reportable[i] as usize) } else { DescTarget::Keep },
    }
}

/// The layout of the quest window: the list's rectangle (`n_row` rows of
/// height `row_h`, as wide as the window) and the description's rectangle
/// below it, two pixels down.
pub open spec fn quest_layout(rect: Rect, row_h: u32, n_row: u32) -> (Rect, Rect) {
    let list_h = row_h * n_row;
    (Rect::new_spec(0, 0, rect.w, list_h as u32),
     Rect::new_spec(0, (list_h + 2) as i32, rect.w, (rect.h - list_h - 2) as u32))
}

impl QuestWindow {
    /// Whether the mode's data agree: the report mode has one town quest
    /// position per row.
    pub open spec fn wf(&self) -> bool {
        self.kind == QuestWindowKind::Report ==> self.reportable@.len() == self.selection.selected@.len()
    }

    /// The window at `info_rect` with height `h`, its list of `n_row` rows
    /// of height `row_h`; the closer's button is placed by `closer_dx` and
    /// `closer_dy`. The description is empty.
    fn with_mode(
        info_rect: Rect, h: u32, row_h: u32, n_row: u32, closer_dx: i32, closer_dy: i32,
        kind: QuestWindowKind, quests: Vec<QuestKind>, selection: QuestSelection, reportable: Vec<u32>,
    ) -> (w: QuestWindow)
        requires
            row_h * n_row + 2 <= h,
            row_h * n_row + 2 <= i32::MAX,
            Rect::new_spec(info_rect.x, info_rect.y, info_rect.w, h).fits(),
            i32::MIN <= info_rect.x + info_rect.w + closer_dx <= i32::MAX,
            i32::MIN <= info_rect.y - closer_dy <= i32::MAX,
        ensures
            w.rect == Rect::new_spec(info_rect.x, info_rect.y, info_rect.w, h),
            w.closer.button_corner == ((info_rect.x + info_rect.w + closer_dx) as i32, (info_rect.y - closer_dy) as i32),
            !w.closer.escape_click,
            w.kind == kind,
            w.quests == quests,
            w.selection == selection,
            w.reportable == reportable,
            (w.list_rect, w.desc_rect) == quest_layout(w.rect, row_h, n_row),
            w.line_y == row_h * n_row,
            w.desc@ == Seq::<char>::empty(),
    {
        let rect = Rect::new(info_rect.x, info_rect.y, info_rect.w, h);
        let list_h = row_h * n_row;
        let list_rect = Rect::new(0, 0, rect.w, list_h);
        let desc_rect = Rect::new(0, (list_h + 2) as i32, rect.w, rect.h - list_h - 2);
        let closer = DialogCloser::new(rect, closer_dx, closer_dy);
        QuestWindow {
            rect, closer, kind, quests, selection, reportable, list_rect, desc_rect,
            line_y: list_h as i32, desc: String::new(),
        }
    }

    /// The list of the player's quests: `n_custom` custom quests, then the
    /// town quests, checked where reportable. The second result is the
    /// quest whose description is shown first (that of row 0).
    pub fn new_list(
        info_rect: Rect, h: u32, row_h: u32, n_row: u32, closer_dx: i32, closer_dy: i32,
        n_custom: usize, town_reportable: &Vec<bool>,
    ) -> (r: (QuestWindow, Vec<bool>, DescTarget))
        requires
            row_h * n_row + 2 <= h,
            row_h * n_row + 2 <= i32::MAX,
            Rect::new_spec(info_rect.x, info_rect.y, info_rect.w, h).fits(),
            i32::MIN <= info_rect.x + info_rect.w + closer_dx <= i32::MAX,
            i32::MIN <= info_rect.y - closer_dy <= i32::MAX,
        ensures
            r.0.kind == QuestWindowKind::List,
            r.0.wf(),
            r.0.rect == Rect::new_spec(info_rect.x, info_rect.y, info_rect.w, h),
            (r.0.list_rect, r.0.desc_rect) == quest_layout(r.0.rect, row_h, n_row),
            r.0.quests@ == Seq::new(n_custom as nat, |i: int| QuestKind::Custom(i as usize))
                + Seq::new(town_reportable@.len(), |i: int| QuestKind::Town(i as usize)),
            r.1@ == Seq::new(n_custom as nat, |i: int| false) + town_reportable@,
            r.2 == desc_target(QuestWindowKind::List, r.0.quests@, r.0.reportable@, 0),
    {
        let (quests, checked) = quest_list(n_custom, town_reportable);
        let w = QuestWindow::with_mode(info_rect, h, row_h, n_row, closer_dx, closer_dy,
            QuestWindowKind::List, quests, QuestSelection::new(0, false), Vec::new());
        let d = w.desc_target(0);
        (w, checked, d)
    }

    /// Quests offered: `n_offered` rows, none chosen.
    pub fn new_offer(
        info_rect: Rect, h: u32, row_h: u32, n_row: u32, closer_dx: i32, closer_dy: i32,
        n_offered: usize,
    ) -> (r: (QuestWindow, DescTarget))
        requires
            row_h * n_row + 2 <= h,
            row_h * n_row + 2 <= i32::MAX,
            Rect::new_spec(info_rect.x, info_rect.y, info_rect.w, h).fits(),
            i32::MIN <= info_rect.x + info_rect.w + closer_dx <= i32::MAX,
            i32::MIN <= info_rect.y - closer_dy <= i32::MAX,
        ensures
            r.0.kind == QuestWindowKind::Offer,
            r.0.wf(),
            r.0.rect == Rect::new_spec(info_rect.x, info_rect.y, info_rect.w, h),
            r.0.selection.selected@ == Seq::new(n_offered as nat, |i: int| false),
            r.1 == DescTarget::Offered(0),
    {
        let w = QuestWindow::with_mode(info_rect, h, row_h, n_row, closer_dx, closer_dy,
            QuestWindowKind::Offer, Vec::new(), QuestSelection::new(n_offered, false), Vec::new());
        (w, DescTarget::Offered(0))
    }

    /// Quests to report: one row per reportable town quest, all chosen.
    pub fn new_report(
        info_rect: Rect, h: u32, row_h: u32, n_row: u32, closer_dx: i32, closer_dy: i32,
        reportable: Vec<u32>,
    ) -> (r: (QuestWindow, DescTarget))
        requires
            row_h * n_row + 2 <= h,
            row_h * n_row + 2 <= i32::MAX,
            Rect::new_spec(info_rect.x, info_rect.y, info_rect.w, h).fits(),
            i32::MIN <= info_rect.x + info_rect.w + closer_dx <= i32::MAX,
            i32::MIN <= info_rect.y - closer_dy <= i32::MAX,
        ensures
            r.0.kind == QuestWindowKind::Report,
            r.0.wf(),
            r.0.rect == Rect::new_spec(info_rect.x, info_rect.y, info_rect.w, h),
            r.0.reportable@ == reportable@,
            r.0.selection.selected@ == Seq::new(reportable@.len(), |i: int| true),
            r.1 == desc_target(QuestWindowKind::Report, r.0.quests@, reportable@, 0),
    {
        let n = reportable.len();
        let w = QuestWindow::with_mode(info_rect, h, row_h, n_row, closer_dx, closer_dy,
            QuestWindowKind::Report, Vec::new(), QuestSelection::new(n, true), reportable);
        let d = w.desc_target(0);
        (w, d)
    }

    /// The quest described when the cursor is on row `i`.
    pub fn desc_target(&self, i: u32) -> (d: DescTarget)
        ensures
            d == desc_target(self.kind, self.quests@, self.reportable@, i as int),
    {
        match self.kind {
            QuestWindowKind::List => {
                if (i as usize) < self.quests.len() {
                    match self.quests[i as usize] {
                        QuestKind::Custom(k) => DescTarget::Custom(k),
                        QuestKind::Town(k) => DescTarget::Town(k),
                    }
                } else {
                    DescTarget::Blank
                }
            },
            QuestWindowKind::Offer => DescTarget::Offered(i as usize),
            QuestWindowKind::Report => {
                if (i as usize) < self.reportable.len() {
                    DescTarget::Town(self.reportable[i as usize] as usize)
                } else {
                    DescTarget::Keep
                }
            },
        }
    }

    /// Shows `text` as the description.
    pub fn set_desc(&mut self, text: String)
        ensures
            final(self).desc@ == text@,
            final(self).rect == old(self).rect,
            final(self).kind == old(self).kind,
            final(self).quests == old(self).quests,
            final(self).selection == old(self).selection,
            final(self).reportable == old(self).reportable,
    {
        self.desc = text;
    }

    /// Takes a command. The closer sees it first (a click outside passes the
    /// command on only in the list mode); then the buttons of the offer and
    /// report modes: the confirming one (clicked, with a row chosen) asks
    /// to undertake or report the chosen quests and closes, the cancel one
    /// closes; then the list's response: choosing a row toggles it (offer
    /// and report modes), moving the cursor asks for the row's description.
    pub fn process_command<W, G>(
        &mut self,
        command: &Command,
        close_clicked: bool,
        ok_clicked: bool,
        cancel_clicked: bool,
        response: Option<ListResponse>,
    ) -> (r: (DialogResult<W, G>, QuestRequest))
        requires
            old(self).wf(),
            response matches Some(ListResponse::Select(i)) ==> old(self).kind != QuestWindowKind::List
                ==> (i as int) < old(self).selection.selected@.len(),
        ensures
            final(self).wf(),
            final(self).rect == old(self).rect,
            final(self).kind == old(self).kind,
            final(self).quests == old(self).quests,
            final(self).reportable == old(self).reportable,
            final(self).closer.escape_click == escape_click_after(old(self).closer.escape_click, old(self).rect, *command, close_clicked),
            ({
                let reprocess = old(self).kind == QuestWindowKind::List;
                let closed = closer_result::<W, G>(old(self).closer.escape_click, old(self).rect, *command, reprocess, close_clicked);
                let any = exists|i: int| 0 <= i < old(self).selection.selected@.len() && old(self).selection.selected@[i];
                let buttons = button_action(old(self).kind, any, ok_clicked, cancel_clicked);
                if closed.is_some() {
                    r.0 == closed.unwrap() && r.1 is Nothing && final(self).selection == old(self).selection
                } else if buttons == QuestButtonAction::Confirm {
                    &&& r.0 is Close
                    &&& final(self).selection == old(self).selection
                    &&& old(self).kind == QuestWindowKind::Offer ==>
                        (r.1 matches QuestRequest::Undertake(v) && v@ == chosen_positions(old(self).selection.selected@))
                    &&& old(self).kind == QuestWindowKind::Report ==>
                        (r.1 matches QuestRequest::Report(v) && v@ == chosen_positions(old(self).selection.selected@)
                            .map_values(|p: usize| old(self).reportable@[p as int] as usize))
                } else if buttons == QuestButtonAction::Cancel {
                    r.0 is Close && r.1 is Nothing && final(self).selection == old(self).selection
                } else {
                    &&& r.0 is Continue
                    &&& match list_action(old(self).kind, response) {
                        QuestListAction::Toggle(i) =>
                            r.1 is Nothing
                            && final(self).selection.selected@ == old(self).selection.selected@.update(i as int, !old(self).selection.selected@[i as int]),
                        QuestListAction::Describe(i) =>
                            r.1 == QuestRequest::Describe(desc_target(old(self).kind, old(self).quests@, old(self).reportable@, i as int))
                            && final(self).selection == old(self).selection,
                        QuestListAction::Nothing => r.1 is Nothing && final(self).selection == old(self).selection,
                    }
                }
            }),
    {
        let reprocess = match self.kind { QuestWindowKind::List => true, _ => false };
        if let Some(c) = self.closer.check(self.rect, command, reprocess, close_clicked) {
            return (c, QuestRequest::Nothing);
        }
        let any = self.selection.any();
        match quest_buttons(self.kind, any, ok_clicked, cancel_clicked) {
            QuestButtonAction::Confirm => {
                match self.kind {
                    QuestWindowKind::Report => {
                        let targets = self.selection.report_targets(&self.reportable);
                        return (DialogResult::Close, QuestRequest::Report(targets));
                    },
                    _ => {
                        let targets = self.selection.positions();
                        return (DialogResult::Close, QuestRequest::Undertake(targets));
                    },
                }
            },
            QuestButtonAction::Cancel => {
                return (DialogResult::Close, QuestRequest::Nothing);
            },
            QuestButtonAction::ToList => {},
        }
        match quest_list_action(self.kind, response) {
            QuestListAction::Toggle(i) => {
                let _ = self.selection.toggle(i as usize);
                (DialogResult::Continue, QuestRequest::Nothing)
            },
            QuestListAction::Describe(i) => {
                let d = self.desc_target(i);
                (DialogResult::Continue, QuestRequest::Describe(d))
            },
            QuestListAction::Nothing => (DialogResult::Continue, QuestRequest::Nothing),
        }
    }
}


/// Choosing the same row twice leaves the chosen rows as they were.
pub proof fn law_toggle_twice(selected: Seq<bool>, i: int)
    requires
        0 <= i < selected.len(),
    ensures
        ({
            let once = selected.update(i, !selected[i]);
            once.update(i, !once[i])
        }) == selected,
{
    let once = selected.update(i, !selected[i]);
    assert(once.update(i, !once[i]) =~= selected);
}

} // verus!
