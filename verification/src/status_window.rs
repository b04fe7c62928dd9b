//! The character status windows: the status labels, the skill list and
//! the traits of a character.
use vstd::prelude::*;
use crate::command::Command;
use crate::dialog::DialogResult;
use crate::dialogs::{check_escape_click, closer_result, escape_click_after};
use crate::geom::Rect;
use crate::group_window::{MemberInfo, member_ids};
use crate::strutil::{decimal, int_decimal, push_decimal, push_int, push_str};
use crate::text_ids::{CharaTrait, FactionId, SkillKind, ToText, ToTextId, WeaponKind, faction_text_id, to_txt};
use crate::info_windows::{ListWithDescWindow, desc_layout};
use crate::texts::{TextBundles, lookup, misc_txt, no_args, obj_text, obj_txt, ui_txt};

verus! {

broadcast use vstd::seq_lib::group_to_multiset_ensures;

/// The attributes of a character.
#[derive(Clone, Copy, Debug, PartialEq, Eq, Structural)]
pub struct CharaAttrs {
    pub max_hp: i32,
    pub str: u16,
    pub vit: u16,
    pub dex: u16,
    pub int: u16,
    pub wil: u16,
    pub cha: u16,
    pub spd: u16,
}

/// What the status window shows of a character.
pub struct Chara {
    /// The character's own name, if it has one.
    pub name: Option<String>,
    /// Whether this is the player's character.
    pub is_main_character: bool,
    /// The id of the character's template.
    pub template_id: String,
    pub faction: FactionId,
    pub lv: u32,
    pub hp: i32,
    pub attr: CharaAttrs,
    /// What the template can carry.
    pub carry: u32,
    /// The template's travel speed.
    pub travel_speed: u32,
}

impl ToText for Chara {
    open spec fn text_of(&self, t: TextBundles) -> Seq<char> {
        if self.is_main_character {
            lookup(t.misc, "you"@, no_args())
        } else {
            match self.name {
                Some(n) => n@,
                None => obj_text(t, self.template_id@),
            }
        }
    }

    fn to_text(&self, t: &TextBundles) -> (r: String) {
        if self.is_main_character {
            return misc_txt(t, "you");
        }
        match &self.name {
            Some(n) => n.clone(),
            None => obj_txt(t, self.template_id.as_str()),
        }
    }
}

/// The name shown in the status window: the character's own name, else its
/// text.
pub open spec fn status_name(t: TextBundles, c: Chara) -> Seq<char> {
    match c.name {
        Some(n) => n@,
        None => c.text_of(t),
    }
}

/// A label of the status window: a caption, two spaces, and a value.
pub open spec fn caption_label(caption: Seq<char>, value: Seq<char>) -> Seq<char> {
    caption + "  "@ + value
}

/// The character status window.
pub struct StatusWindow {
    pub rect: Rect,
    /// The character template whose image is shown.
    pub image_chara: u32,
    pub name_label: String,
    pub faction_label: String,
    pub lv_label: String,
    pub hp_label: String,
    pub sp_label: String,
    pub str_label: String,
    pub vit_label: String,
    pub dex_label: String,
    pub int_label: String,
    pub wil_label: String,
    pub cha_label: String,
    pub spd_label: String,
    pub carry_label: String,
    pub travel_speed_label: String,
    pub escape_click: bool,
}

/// `"<caption>  <n>"`.
fn attr_label(caption: &str, n: u64) -> (r: String)
    ensures
        r@ == caption_label(caption@, decimal(n as nat)),
{
    let mut s = String::new();
    push_str(&mut s, caption);
    push_str(&mut s, "  ");
    push_decimal(&mut s, n);
    s
}

impl StatusWindow {
    /// The status window at `rect` of character `c`, whose image is
    /// template `image_chara`; `sp_label` is the stamina label.
    pub fn new(t: &TextBundles, rect: Rect, c: &Chara, image_chara: u32, sp_label: String) -> (w: StatusWindow)
        ensures
            w.rect == rect,
            w.image_chara == image_chara,
            w.name_label@ == status_name(*t, *c),
            w.faction_label@ == caption_label(lookup(t.ui, "label_text-status-faction"@, no_args()),
                lookup(t.misc, faction_text_id(c.faction.0@), no_args())),
            w.lv_label@ == "Lv. "@ + decimal(c.lv as nat),
            w.hp_label@ == "HP  "@ + int_decimal(c.hp as int) + " / "@ + int_decimal(c.attr.max_hp as int),
            w.sp_label@ == sp_label@,
            w.str_label@ == caption_label("STR"@, decimal(c.attr.str as nat)),
            w.vit_label@ == caption_label("VIT"@, decimal(c.attr.vit as nat)),
            w.dex_label@ == caption_label("DEX"@, decimal(c.attr.dex as nat)),
            w.int_label@ == caption_label("INT"@, decimal(c.attr.int as nat)),
            w.wil_label@ == caption_label("WIL"@, decimal(c.attr.wil as nat)),
            w.cha_label@ == caption_label("CHA"@, decimal(c.attr.cha as nat)),
            w.spd_label@ == caption_label("SPD"@, decimal(c.attr.spd as nat)),
            w.carry_label@ == caption_label(lookup(t.ui, "label_text-status-carry"@, no_args()), decimal(c.carry as nat)),
            w.travel_speed_label@ == caption_label(lookup(t.ui, "label_text-status-travel_speed"@, no_args()), decimal(c.travel_speed as nat)),
            !w.escape_click,
    {
        let name_label = match &c.name {
            Some(n) => n.clone(),
            None => c.to_text(t),
        };
        let mut faction_label = ui_txt(t, "label_text-status-faction");
        push_str(&mut faction_label, "  ");
        let faction = c.faction.to_text(t);
        push_str(&mut faction_label, faction.as_str());
        let mut lv_label = String::new();
        push_str(&mut lv_label, "Lv. ");
        push_decimal(&mut lv_label, c.lv as u64);
        let mut hp_label = String::new();
        push_str(&mut hp_label, "HP  ");
        push_int(&mut hp_label, c.hp as i64);
        push_str(&mut hp_label, " / ");
        push_int(&mut hp_label, c.attr.max_hp as i64);
        let mut carry_label = ui_txt(t, "label_text-status-carry");
        push_str(&mut carry_label, "  ");
        push_decimal(&mut carry_label, c.carry as u64);
        let mut travel_speed_label = ui_txt(t, "label_text-status-travel_speed");
        push_str(&mut travel_speed_label, "  ");
        push_decimal(&mut travel_speed_label, c.travel_speed as u64);
        StatusWindow {
            rect,
            image_chara,
            name_label,
            faction_label,
            lv_label,
            hp_label,
            sp_label,
            str_label: attr_label("STR", c.attr.str as u64),
            vit_label: attr_label("VIT", c.attr.vit as u64),
            dex_label: attr_label("DEX", c.attr.dex as u64),
            int_label: attr_label("INT", c.attr.int as u64),
            wil_label: attr_label("WIL", c.attr.wil as u64),
            cha_label: attr_label("CHA", c.attr.cha as u64),
            spd_label: attr_label("SPD", c.attr.spd as u64),
            carry_label,
            travel_speed_label,
            escape_click: false,
        }
    }

    /// Takes a command: a click outside closes the window and passes the
    /// command on; Cancel closes it.
    pub fn process_command<W, G>(&mut self, command: &Command) -> (r: DialogResult<W, G>)
        ensures
            final(self).rect == old(self).rect,
            final(self).escape_click == escape_click_after(old(self).escape_click, old(self).rect, *command, false),
            r == (match closer_result::<W, G>(old(self).escape_click, old(self).rect, *command, true, false) {
                Some(c) => c,
                None => if *command is Cancel { DialogResult::Close } else { DialogResult::Continue },
            }),
    {
        if let Some(c) = check_escape_click(&mut self.escape_click, self.rect, command, true) {
            return c;
        }
        if command.is_cancel() { DialogResult::Close } else { DialogResult::Continue }
    }
}

/// The level label of a skill of level `lv` adjusted by `adj`:
/// `"Lv. <lv>"`, followed by `" + <adj>"` or `" - <-adj>"` when adjusted.
pub open spec fn skill_level(lv: u32, adj: i32) -> Seq<char> {
    if adj == 0 {
        "Lv. "@ + decimal(lv as nat)
    } else if adj < 0 {
        "Lv. "@ + decimal(lv as nat) + " - "@ + decimal((-adj) as nat)
    } else {
        "Lv. "@ + decimal(lv as nat) + " + "@ + decimal(adj as nat)
    }
}

/// The level label of a skill.
pub fn skill_level_label(lv: u32, adj: i32) -> (r: String)
    ensures
        r@ == skill_level(lv, adj),
{
    let mut s = String::new();
    push_str(&mut s, "Lv. ");
    push_decimal(&mut s, lv as u64);
    if adj < 0 {
        push_str(&mut s, " - ");
        push_decimal(&mut s, (0i64 - adj as i64) as u64);
    } else if adj > 0 {
        push_str(&mut s, " + ");
        push_decimal(&mut s, adj as u64);
    }
    s
}

/// The position of a weapon kind in the order of weapon kinds.
pub open spec fn weapon_rank(w: WeaponKind) -> nat {
    match w {
        WeaponKind::Axe => 0,
        WeaponKind::Bow => 1,
        WeaponKind::Crossbow => 2,
        WeaponKind::Firearm => 3,
        WeaponKind::Spear => 4,
        WeaponKind::Sword => 5,
        WeaponKind::Whip => 6,
    }
}

/// The position of a skill kind in the order of skill kinds: the skills in
/// their declared order, weapon skills last by weapon kind.
pub open spec fn skill_rank(k: SkillKind) -> nat {
    match k {
        SkillKind::Endurance => 0,
        SkillKind::Healing => 1,
        SkillKind::BareHands => 2,
        SkillKind::Defence => 3,
        SkillKind::Evasion => 4,
        SkillKind::Carrying => 5,
        SkillKind::MagicDevice => 6,
        SkillKind::Weapon(w) => 7 + weapon_rank(w),
    }
}

/// The position of a skill kind in the order of skill kinds.
fn skill_rank_of(k: SkillKind) -> (r: u32)
    ensures
        r == skill_rank(k),
{
    match k {
        SkillKind::Endurance => 0,
        SkillKind::Healing => 1,
        SkillKind::BareHands => 2,
        SkillKind::Defence => 3,
        SkillKind::Evasion => 4,
        SkillKind::Carrying => 5,
        SkillKind::MagicDevice => 6,
        SkillKind::Weapon(w) => match w {
            WeaponKind::Axe => 7,
            WeaponKind::Bow => 8,
            WeaponKind::Crossbow => 9,
            WeaponKind::Firearm => 10,
            WeaponKind::Spear => 11,
            WeaponKind::Sword => 12,
            WeaponKind::Whip => 13,
        },
    }
}

/// A skill of a character: its kind, level and level adjustment.
pub type SkillEntry = (SkillKind, u32, i32);

/// Whether skills are in the order of their kinds.
pub open spec fn skills_sorted(s: Seq<SkillEntry>) -> bool {
    forall|i: int, j: int| 0 <= i < j < s.len() ==> skill_rank(#[trigger] s[i].0) <= skill_rank(#[trigger] s[j].0)
}

/// The skills in the order of their kinds.
pub fn sort_skills(v: &Vec<SkillEntry>) -> (r: Vec<SkillEntry>)
    ensures
        r@.to_multiset() == v@.to_multiset(),
        skills_sorted(r@),
{
    let mut r: Vec<SkillEntry> = Vec::new();
    let mut k: usize = 0;
    while k < v.len()
        invariant
            k <= v@.len(),
            r@.to_multiset() == v@.take(k as int).to_multiset(),
            skills_sorted(r@),
        decreases v@.len() - k,
    {
        let e = v[k];
        let key = skill_rank_of(e.0);
        let mut p: usize = 0;
        while p < r.len() && skill_rank_of(r[p].0) <= key
            invariant
                p <= r@.len(),
                forall|q: int| 0 <= q < p ==> skill_rank(#[trigger] r@[q].0) <= key,
            decreases r@.len() - p,
        {
            p = p + 1;
        }
        let ghost old_r = r@;
        proof {
            assert forall|q: int| p <= q < old_r.len() implies skill_rank(#[trigger] old_r[q].0) > key by {
                assert(skill_rank(old_r[p as int].0) > key);
                if q > p {
                    assert(skill_rank(old_r[p as int].0) <= skill_rank(old_r[q].0));
                }
            }
        }
        r.insert(p, e);
        proof {
            assert(r@ == old_r.insert(p as int, e));
            assert forall|i: int, j: int| 0 <= i < j < r@.len() implies skill_rank(#[trigger] r@[i].0) <= skill_rank(#[trigger] r@[j].0) by {
                if j < p {
                } else if j == p {
                    assert(r@[i] == old_r[i]);
                } else if i < p {
                    assert(r@[j] == old_r[j - 1]);
                } else if i == p {
                    assert(r@[j] == old_r[j - 1]);
                } else {
                    assert(r@[i] == old_r[i - 1]);
                    assert(r@[j] == old_r[j - 1]);
                }
            }
            assert(v@.take(k + 1) =~= v@.take(k as int).push(e));
        }
        k = k + 1;
    }
    assert(v@.take(v@.len() as int) =~= v@);
    r
}

/// The skill window: a row per skill, in the order of skill kinds.
pub struct SkillWindow {
    pub rect: Rect,
    /// The rows: the skill's name and its level label.
    pub rows: Vec<(String, String)>,
    /// The skills of the rows.
    pub skills: Vec<SkillEntry>,
    pub escape_click: bool,
}

/// The row of a skill: its name (the miscellaneous text of its kind's text
/// id) and its level label.
pub open spec fn skill_row(t: TextBundles, e: SkillEntry) -> (Seq<char>, Seq<char>) {
    (lookup(t.misc, e.0.text_id_of(), no_args()), skill_level(e.1, e.2))
}

impl SkillWindow {
    /// The skill window at `rect` for the skills `skills` (in any order).
    pub fn new(t: &TextBundles, rect: Rect, skills: &Vec<SkillEntry>) -> (w: SkillWindow)
        ensures
            w.rect == rect,
            w.skills@.to_multiset() == skills@.to_multiset(),
            skills_sorted(w.skills@),
            w.rows@.len() == w.skills@.len(),
            forall|i: int| 0 <= i < w.rows@.len() ==>
                ((#[trigger] w.rows@[i]).0@, w.rows@[i].1@) == skill_row(*t, w.skills@[i]),
            !w.escape_click,
    {
        let sorted = sort_skills(skills);
        let mut rows: Vec<(String, String)> = Vec::new();
        let mut i: usize = 0;
        while i < sorted.len()
            invariant
                i <= sorted@.len(),
                rows@.len() == i,
                forall|k: int| 0 <= k < i ==> ((#[trigger] rows@[k]).0@, rows@[k].1@) == skill_row(*t, sorted@[k]),
            decreases sorted@.len() - i,
        {
            let e = sorted[i];
            let name = to_txt(t, &e.0);
            let level = skill_level_label(e.1, e.2);
            rows.push((name, level));
            i = i + 1;
        }
        SkillWindow { rect, rows, skills: sorted, escape_click: false }
    }

    /// Takes a command (after its list has seen it): a click outside closes
    /// the window and passes the command on; Cancel closes it.
    pub fn process_command<W, G>(&mut self, command: &Command) -> (r: DialogResult<W, G>)
        ensures
            final(self).rect == old(self).rect,
            final(self).rows == old(self).rows,
            final(self).escape_click == escape_click_after(old(self).escape_click, old(self).rect, *command, false),
            r == (match closer_result::<W, G>(old(self).escape_click, old(self).rect, *command, true, false) {
                Some(c) => c,
                None => if *command is Cancel { DialogResult::Close } else { DialogResult::Continue },
            }),
    {
        if let Some(c) = check_escape_click(&mut self.escape_click, self.rect, command, true) {
            return c;
        }
        if command.is_cancel() { DialogResult::Close } else { DialogResult::Continue }
    }
}


/// The traits of a character: their names in a list, the description of
/// the one under the cursor beside it.
pub struct CharaTraitWindow {
    pub window: ListWithDescWindow<String>,
    /// The row whose description is shown.
    pub choice: u32,
    /// How many traits are listed.
    pub n_traits: usize,
}

/// The description to show after the list's cursor is at
/// `current_choice`: that of the row, when the cursor moved (or on the
/// first update) and the row is a trait.
pub open spec fn trait_update(choice: u32, n_traits: usize, current_choice: u32, init: bool) -> (u32, Option<u32>) {
    if current_choice != choice || init {
        (current_choice, if (current_choice as int) < n_traits { Some(current_choice) } else { None })
    } else {
        (choice, None)
    }
}

impl CharaTraitWindow {
    /// The window at `rect` with list columns at `column_pos` and rows of
    /// height `row_h` listing `traits`; the second result is the trait
    /// whose description is to be shown first (the list's cursor starts at
    /// row 0).
    pub fn new(t: &TextBundles, rect: Rect, column_pos: Vec<i32>, row_h: u32, traits: &Vec<CharaTrait>) -> (r: (CharaTraitWindow, Option<u32>))
        requires
            rect.w >= 4,
            row_h > 0,
        ensures
            r.0.window.rect == rect,
            (r.0.window.text_rect, r.0.window.list_rect) == desc_layout(rect),
            r.0.window.items.deep_view() == Seq::new(traits@.len(), |i: int| traits@[i].text_of(*t)),
            r.0.n_traits == traits@.len(),
            r.0.choice == 0,
            r.1 == (if traits@.len() > 0 { Some(0u32) } else { None }),
    {
        let mut items: Vec<String> = Vec::new();
        let mut i: usize = 0;
        while i < traits.len()
            invariant
                i <= traits@.len(),
                items.deep_view() == Seq::new(i as nat, |k: int| traits@[k].text_of(*t)),
            decreases traits@.len() - i,
        {
            let s = traits[i].to_text(t);
            let ghost old_items = items.deep_view();
            items.push(s);
            assert(items.deep_view() =~= old_items.push(s@));
            i = i + 1;
            assert(items.deep_view() =~= Seq::new(i as nat, |k: int| traits@[k].text_of(*t)));
        }
        let n = traits.len();
        let window = ListWithDescWindow::new(rect, column_pos, items, row_h);
        let mut w = CharaTraitWindow { window, choice: u32::MAX, n_traits: n };
        let d = w.update(0, true);
        (w, d)
    }

    /// Follows the list's cursor at `current_choice`; the result is the
    /// trait whose description is to be shown, if it is to change.
    pub fn update(&mut self, current_choice: u32, init: bool) -> (d: Option<u32>)
        ensures
            (final(self).choice, d) == trait_update(old(self).choice, old(self).n_traits, current_choice, init),
            final(self).n_traits == old(self).n_traits,
            final(self).window == old(self).window,
    {
        if current_choice != self.choice || init {
            self.choice = current_choice;
            if (current_choice as usize) < self.n_traits {
                return Some(current_choice);
            }
        }
        None
    }

    /// Shows `text` as the description.
    pub fn set_description(&mut self, text: String)
        ensures
            final(self).window.text@ == text@,
            final(self).window.rect == old(self).window.rect,
            final(self).window.escape_click == old(self).window.escape_click,
            final(self).choice == old(self).choice,
            final(self).n_traits == old(self).n_traits,
    {
        self.window.text = text;
    }

    /// Takes a command; `current_choice` is where the list's cursor is
    /// after it. The window's answer is that of its list-with-description
    /// window; when it continues, the description follows the cursor.
    pub fn process_command<W, G>(&mut self, command: &Command, current_choice: u32) -> (r: (DialogResult<W, G>, Option<u32>))
        ensures
            final(self).window.escape_click == escape_click_after(old(self).window.escape_click, old(self).window.rect, *command, false),
            r.0 == (match closer_result::<W, G>(old(self).window.escape_click, old(self).window.rect, *command, true, false) {
                Some(c) => c,
                None => if *command is Cancel { DialogResult::Close } else { DialogResult::Continue },
            }),
            r.0 is Continue ==> (final(self).choice, r.1) == trait_update(old(self).choice, old(self).n_traits, current_choice, false),
            !(r.0 is Continue) ==> r.1.is_none() && final(self).choice == old(self).choice,
    {
        let result = self.window.process_command(command);
        match result {
            DialogResult::Continue => {
                let d = self.update(current_choice, false);
                (result, d)
            },
            _ => (result, None),
        }
    }
}


/// The members of the status window group: the status, the equipment, the
/// skills and the traits.
pub fn status_group_members() -> (r: Vec<MemberInfo>)
    ensures
        member_ids(r@) == seq![
            ("!tab-icon-chara-stats"@, "tab_text-chara_stats"@),
            ("!tab-icon-chara-equipments"@, "tab_text-chara_equipments"@),
            ("!tab-icon-chara-skills"@, "tab_text-chara_skills"@),
            ("!tab-icon-chara-traits"@, "tab_text-chara_traits"@)
        ],
{
    let mut v: Vec<MemberInfo> = Vec::new();
    v.push(MemberInfo { icon_id: "!tab-icon-chara-stats", text_id: "tab_text-chara_stats" });
    v.push(MemberInfo { icon_id: "!tab-icon-chara-equipments", text_id: "tab_text-chara_equipments" });
    v.push(MemberInfo { icon_id: "!tab-icon-chara-skills", text_id: "tab_text-chara_skills" });
    v.push(MemberInfo { icon_id: "!tab-icon-chara-traits", text_id: "tab_text-chara_traits" });
    assert(member_ids(v@) =~= seq![
            ("!tab-icon-chara-stats"@, "tab_text-chara_stats"@),
            ("!tab-icon-chara-equipments"@, "tab_text-chara_equipments"@),
            ("!tab-icon-chara-skills"@, "tab_text-chara_skills"@),
            ("!tab-icon-chara-traits"@, "tab_text-chara_traits"@)
        ]);
    v
}

} // verus!
