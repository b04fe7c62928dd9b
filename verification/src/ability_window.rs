//! The ability window of a character and the faction window.
use vstd::prelude::*;
use crate::choose_window::ListResponse;
use crate::command::{Command, InputMode};
use crate::dialog::DialogResult;
use crate::dialogs::{DialogCloser, check_escape_click, closer_result, escape_click_after};
use crate::geom::Rect;
use crate::strutil::{decimal, int_decimal, push_decimal, push_int, push_str};
use crate::text_ids::{AbilityId, FactionId, ToText, faction_text_id};
use crate::texts::{TextBundles, lookup, no_args, ui_txt};

verus! {

/// The cost label of an ability: `"SP <sp> "` when it costs stamina, then
/// `"MP <mp> "` when it costs mana.
pub open spec fn cost_label(cost_sp: i32, cost_mp: i32) -> Seq<char> {
    (if cost_sp > 0 { "SP "@ + decimal(cost_sp as nat) + " "@ } else { Seq::empty() })
        + (if cost_mp > 0 { "MP "@ + decimal(cost_mp as nat) + " "@ } else { Seq::empty() })
}

/// The cost label of an ability.
pub fn cost_text(cost_sp: i32, cost_mp: i32) -> (r: String)
    ensures
        r@ == cost_label(cost_sp, cost_mp),
{
    let mut s = String::new();
    if cost_sp > 0 {
        push_str(&mut s, "SP ");
        push_decimal(&mut s, cost_sp as u64);
        push_str(&mut s, " ");
    }
    let ghost s1 = s@;
    if cost_mp > 0 {
        push_str(&mut s, "MP ");
        push_decimal(&mut s, cost_mp as u64);
        push_str(&mut s, " ");
    }
    assert(s@ =~= cost_label(cost_sp, cost_mp));
    s
}

/// An ability of a character, with its costs as the rules give them
/// (`None`: the rules do not know the ability).
pub type AbilityEntry = (String, Option<(i32, i32)>);

/// The abilities that the rules know, in order.
pub open spec fn known_abilities(entries: Seq<AbilityEntry>) -> Seq<AbilityEntry>
    decreases entries.len(),
{
    if entries.len() == 0 {
        Seq::empty()
    } else if entries.last().1.is_some() {
        known_abilities(entries.drop_last()).push(entries.last())
    } else {
        known_abilities(entries.drop_last())
    }
}

/// The row of an ability: its name and its cost label.
pub open spec fn ability_row(t: TextBundles, e: AbilityEntry) -> (Seq<char>, Seq<char>) {
    (lookup(t.ability, e.0@, no_args()), cost_label(e.1.unwrap().0, e.1.unwrap().1))
}

/// The abilities of a character, with their costs.
pub struct AbilityWindow {
    pub rect: Rect,
    pub closer: DialogCloser,
    /// Whether the character is the player (who can use the abilities).
    pub is_player: bool,
    /// The rows: the ability's name and its cost.
    pub rows: Vec<(String, String)>,
    /// The abilities listed, by row.
    pub abilities: Vec<String>,
    /// The width of the cost column.
    pub cost_w: u32,
}

impl AbilityWindow {
    /// The window at `rect` (its closer placed by `closer_dx` and
    /// `closer_dy`) listing the abilities of `entries` that the rules know;
    /// the cost column begins at `column1_x` and leaves `scroll_w` pixels
    /// for the scroll bar.
    pub fn new(
        t: &TextBundles,
        rect: Rect,
        closer_dx: i32,
        closer_dy: i32,
        column1_x: u32,
        scroll_w: u32,
        is_player: bool,
        entries: &Vec<AbilityEntry>,
    ) -> (w: AbilityWindow)
        requires
            column1_x + scroll_w <= rect.w,
            rect.fits(),
            i32::MIN <= rect.spec_right() + closer_dx <= i32::MAX,
            i32::MIN <= rect.y - closer_dy <= i32::MAX,
        ensures
            w.rect == rect,
            w.is_player == is_player,
            !w.closer.escape_click,
            w.cost_w == rect.w - column1_x - scroll_w,
            w.abilities@.len() == known_abilities(entries@).len(),
            w.rows@.len() == known_abilities(entries@).len(),
            forall|i: int| 0 <= i < w.rows@.len() ==>
                (#[trigger] w.abilities@[i])@ == known_abilities(entries@)[i].0@
                && (w.rows@[i].0@, w.rows@[i].1@) == ability_row(*t, known_abilities(entries@)[i]),
    {
        let mut rows: Vec<(String, String)> = Vec::new();
        let mut abilities: Vec<String> = Vec::new();
        let mut k: usize = 0;
        while k < entries.len()
            invariant
                k <= entries@.len(),
                abilities@.len() == known_abilities(entries@.take(k as int)).len(),
                rows@.len() == abilities@.len(),
                forall|i: int| 0 <= i < rows@.len() ==>
                    (#[trigger] abilities@[i])@ == known_abilities(entries@.take(k as int))[i].0@
                    && (rows@[i].0@, rows@[i].1@) == ability_row(*t, known_abilities(entries@.take(k as int))[i]),
            decreases entries@.len() - k,
        {
            assert(entries@.take(k + 1).drop_last() =~= entries@.take(k as int));
            let e = &entries[k];
            if let Some((sp, mp)) = e.1 {
                let name = AbilityId(e.0.clone()).to_text(t);
                let cost = cost_text(sp, mp);
                abilities.push(e.0.clone());
                rows.push((name, cost));
            }
            k = k + 1;
        }
        assert(entries@.take(entries@.len() as int) =~= entries@);
        AbilityWindow {
            rect,
            closer: DialogCloser::new(rect, closer_dx, closer_dy),
            is_player,
            rows,
            abilities,
            cost_w: rect.w - column1_x - scroll_w,
        }
    }

    /// Takes a command; `close_clicked` tells whether the close button was
    /// clicked, `response` is the list's. The closer sees it first (a click
    /// outside passes it on). Choosing an ability of the player asks to use
    /// it (the second result): the window closes when it was used. Cancel
    /// closes the window.
    pub fn process_command<W, G>(&mut self, command: &Command, close_clicked: bool, response: Option<ListResponse>)
        -> (r: (DialogResult<W, G>, Option<u32>))
        ensures
            final(self).rect == old(self).rect,
            final(self).rows == old(self).rows,
            final(self).abilities == old(self).abilities,
            final(self).closer.escape_click == escape_click_after(old(self).closer.escape_click, old(self).rect, *command, close_clicked),
            r == (match closer_result::<W, G>(old(self).closer.escape_click, old(self).rect, *command, true, close_clicked) {
                Some(c) => (c, None),
                None => match response {
                    Some(ListResponse::Select(i)) => (DialogResult::Continue, if old(self).is_player { Some(i) } else { None }),
                    _ => (if *command is Cancel { DialogResult::<W, G>::Close } else { DialogResult::Continue }, None),
                },
            }),
    {
        if let Some(c) = self.closer.check(self.rect, command, true, close_clicked) {
            return (c, None);
        }
        match response {
            Some(ListResponse::Select(i)) => (DialogResult::Continue, if self.is_player { Some(i) } else { None }),
            _ => (if command.is_cancel() { DialogResult::Close } else { DialogResult::Continue }, None),
        }
    }
}

/// A faction and the player's relation to it.
pub type FactionEntry = (String, i16);

/// The factions shown: those whose id does not begin with `!`.
pub open spec fn shown_factions(entries: Seq<FactionEntry>) -> Seq<FactionEntry>
    decreases entries.len(),
{
    if entries.len() == 0 {
        Seq::empty()
    } else {
        let e = entries.last();
        let rest = shown_factions(entries.drop_last());
        if e.0@.len() > 0 && e.0@[0] == '!' { rest } else { rest.push(e) }
    }
}

/// The row of a faction: its name and the relation.
pub open spec fn faction_row(t: TextBundles, e: FactionEntry) -> (Seq<char>, Seq<char>) {
    (lookup(t.misc, faction_text_id(e.0@), no_args()), int_decimal(e.1 as int))
}

/// The factions and the player's relations to them.
pub struct FactionWindow {
    pub rect: Rect,
    /// The list's header: the faction column's and the relation column's.
    pub header: (String, String),
    /// The width of the relation column.
    pub column1_width: u32,
    pub rows: Vec<(String, String)>,
    pub escape_click: bool,
}

/// Whether a string begins with `!`.
fn starts_with_bang(s: &str) -> (r: bool)
    ensures
        r == (s@.len() > 0 && s@[0] == '!'),
{
    let chars = crate::strutil::to_chars(s);
    chars.len() > 0 && chars[0] == '!'
}

impl FactionWindow {
    /// How key presses are read while this window is on top.
    pub fn mode(&self) -> (m: InputMode)
        ensures
            m == InputMode::Dialog,
    {
        InputMode::Dialog
    }


    /// The window at `rect` listing the factions of `entries`; the relation
    /// column begins at `column1_x` and leaves `scroll_w` pixels for the
    /// scroll bar.
    pub fn new(t: &TextBundles, rect: Rect, column1_x: u32, scroll_w: u32, entries: &Vec<FactionEntry>) -> (w: FactionWindow)
        requires
            column1_x + scroll_w <= rect.w,
        ensures
            w.rect == rect,
            w.header.0@ == lookup(t.ui, "list_header-faction"@, no_args()),
            w.header.1@ == lookup(t.ui, "list_header-relation"@, no_args()),
            w.column1_width == rect.w - column1_x - scroll_w,
            w.rows@.len() == shown_factions(entries@).len(),
            forall|i: int| 0 <= i < w.rows@.len() ==>
                ((#[trigger] w.rows@[i]).0@, w.rows@[i].1@) == faction_row(*t, shown_factions(entries@)[i]),
            !w.escape_click,
    {
        let mut rows: Vec<(String, String)> = Vec::new();
        let mut k: usize = 0;
        while k < entries.len()
            invariant
                k <= entries@.len(),
                rows@.len() == shown_factions(entries@.take(k as int)).len(),
                forall|i: int| 0 <= i < rows@.len() ==>
                    ((#[trigger] rows@[i]).0@, rows@[i].1@) == faction_row(*t, shown_factions(entries@.take(k as int))[i]),
            decreases entries@.len() - k,
        {
            assert(entries@.take(k + 1).drop_last() =~= entries@.take(k as int));
            let e = &entries[k];
            if !starts_with_bang(e.0.as_str()) {
                let name = FactionId(e.0.clone()).to_text(t);
                let mut relation = String::new();
                push_int(&mut relation, e.1 as i64);
                rows.push((name, relation));
            }
            k = k + 1;
        }
        assert(entries@.take(entries@.len() as int) =~= entries@);
        let header = (ui_txt(t, "list_header-faction"), ui_txt(t, "list_header-relation"));
        FactionWindow { rect, header, column1_width: rect.w - column1_x - scroll_w, rows, escape_click: false }
    }

    /// Takes a command (after its list has seen it): a click outside closes
    /// the window and passes the command on; Cancel closes it.
    pub fn process_command<W, G>(&mut self, command: &Command) -> (r: DialogResult<W, G>)
        ensures
            final(self).rect == old(self).rect,
            final(self).rows == old(self).rows,
            final(self).escape_click == escape_click_after(old(self).escape_click, old(self).rect, *command, false),
            r == (match closer_result::<W, G>(old(self).escape_click, old(self).rect, *command, true, false) {
                Some(c) => c,
                None => if *command is Cancel { DialogResult::Close } else { DialogResult::Continue },
            }),
    {
        if let Some(c) = check_escape_click(&mut self.escape_click, self.rect, command, true) {
            return c;
        }
        if command.is_cancel() { DialogResult::Close } else { DialogResult::Continue }
    }
}

} // verus!
