//! The text of an item: its name with its charges, title, material,
//! remaining time, what it builds, its quality and the skills it teaches.
use vstd::prelude::*;
use crate::readable::readable_title_txt;
use crate::strutil::{decimal, push_decimal, push_str};
use crate::text::{TextArgs, bundle_text};
use crate::text_ids::{SkillKind, ToText, ToTextId, to_txt};
use crate::texts::{TextBundles, lookup, material, misc_txt, misc_txt_with_args, no_args, obj_text, obj_txt, ui_txt};

verus! {

/// How long an item still lasts, as whole days, hours and minutes.
#[derive(Clone, Copy, Debug, PartialEq, Eq, Structural)]
pub struct Remaining {
    pub days: u32,
    pub hours: u32,
    pub minutes: u32,
}

/// What the text of an item shows.
pub struct Item {
    /// The item's object id.
    pub id: String,
    /// The charges left, for an item with charges.
    pub charge: Option<u32>,
    /// The readable id of its title, for an item with a title.
    pub title: Option<String>,
    /// The name of its material, for an item with a material.
    pub material: Option<String>,
    /// How long it still lasts, for an item that decays.
    pub remaining: Option<Remaining>,
    /// The object id of the tile or wall it builds, for an item that builds.
    pub build_obj: Option<String>,
    pub quality: i32,
    /// The skills it teaches, in order.
    pub skill_learning: Vec<SkillKind>,
}

/// The charges part: `" (<charges> : <n>)"`.
pub open spec fn charge_part(t: TextBundles, charge: Option<u32>) -> Seq<char> {
    match charge {
        Some(n) => " ("@ + lookup(t.ui, "item-charges"@, no_args()) + " : "@ + decimal(n as nat) + ")"@,
        None => Seq::empty(),
    }
}

/// The title part: `" <<title>>"`, when the title has a text.
pub open spec fn title_part(t: TextBundles, title: Option<String>) -> Seq<char> {
    match title {
        Some(id) => match bundle_text(t.readable, id@ + "-title"@, no_args()) {
            Some(s) => " <"@ + s + ">"@,
            None => Seq::empty(),
        },
        None => Seq::empty(),
    }
}

/// The material part: `" (<material>)"`.
pub open spec fn material_part(t: TextBundles, m: Option<String>) -> Seq<char> {
    match m {
        Some(name) => " ("@ + lookup(t.misc, "material-"@ + name@, no_args()) + ")"@,
        None => Seq::empty(),
    }
}

/// The text of a remaining time: whole days if any, else whole hours if
/// any, else the minutes rounded up to the next ten.
pub open spec fn duration_text(t: TextBundles, r: Remaining) -> Seq<char> {
    if r.days > 0 {
        decimal(r.days as nat) + " "@ + lookup(t.misc, "duration-days"@, no_args())
    } else if r.hours > 0 {
        decimal(r.hours as nat) + " "@ + lookup(t.misc, "duration-hours"@, no_args())
    } else {
        decimal(((r.minutes / 10 + 1) * 10) as nat) + " "@ + lookup(t.misc, "duration-minutes"@, no_args())
    }
}

/// The remaining-time part: the miscellaneous text
/// `item_info_text-remaining` with the duration.
pub open spec fn remaining_part(t: TextBundles, r: Option<Remaining>) -> Seq<char> {
    match r {
        Some(d) => lookup(t.misc, "item_info_text-remaining"@, seq![("duration"@, duration_text(t, d))]),
        None => Seq::empty(),
    }
}

/// The build part: `" (<name of what it builds>)"`.
pub open spec fn build_part(t: TextBundles, b: Option<String>) -> Seq<char> {
    match b {
        Some(id) => " ("@ + obj_text(t, id@) + ")"@,
        None => Seq::empty(),
    }
}

/// The quality part: `" +<q>"` or `" -<-q>"`, nothing for 0.
pub open spec fn quality_part(q: i32) -> Seq<char> {
    if q > 0 {
        " +"@ + decimal(q as nat)
    } else if q < 0 {
        " -"@ + decimal((-q) as nat)
    } else {
        Seq::empty()
    }
}

/// The skills part: `" <<skill>>"` for each skill taught.
pub open spec fn skills_part(t: TextBundles, ks: Seq<SkillKind>) -> Seq<char>
    decreases ks.len(),
{
    if ks.len() == 0 {
        Seq::empty()
    } else {
        skills_part(t, ks.drop_last()) + " <"@ + lookup(t.misc, ks.last().text_id_of(), no_args()) + ">"@
    }
}

/// The text of an item.
pub open spec fn item_text(t: TextBundles, i: Item) -> Seq<char> {
    obj_text(t, i.id@) + charge_part(t, i.charge) + title_part(t, i.title) + material_part(t, i.material)
        + remaining_part(t, i.remaining) + build_part(t, i.build_obj) + quality_part(i.quality)
        + skills_part(t, i.skill_learning@)
}

impl ToText for Item {
    open spec fn text_of(&self, t: TextBundles) -> Seq<char> {
        item_text(t, *self)
    }

    fn to_text(&self, t: &TextBundles) -> (r: String) {
        let mut text = obj_txt(t, self.id.as_str());
        let ghost base = text@;
        if let Some(n) = self.charge {
            push_str(&mut text, " (");
            let c = ui_txt(t, "item-charges");
            push_str(&mut text, c.as_str());
            push_str(&mut text, " : ");
            push_decimal(&mut text, n as u64);
            push_str(&mut text, ")");
        }
        assert(text@ =~= base + charge_part(*t, self.charge));
        let ghost s1 = text@;
        if let Some(title) = &self.title {
            if let Some(tt) = readable_title_txt(t, title.as_str()) {
                push_str(&mut text, " <");
                push_str(&mut text, tt.as_str());
                push_str(&mut text, ">");
            }
        }
        assert(text@ =~= s1 + title_part(*t, self.title));
        let ghost s2 = text@;
        if let Some(m) = &self.material {
            push_str(&mut text, " (");
            let mt = material(t, m.as_str());
            push_str(&mut text, mt.as_str());
            push_str(&mut text, ")");
        }
        assert(text@ =~= s2 + material_part(*t, self.material));
        let ghost s3 = text@;
        if let Some(r) = self.remaining {
            let mut d = String::new();
            if r.days > 0 {
                push_decimal(&mut d, r.days as u64);
                push_str(&mut d, " ");
                let u = misc_txt(t, "duration-days");
                push_str(&mut d, u.as_str());
            } else if r.hours > 0 {
                push_decimal(&mut d, r.hours as u64);
                push_str(&mut d, " ");
                let u = misc_txt(t, "duration-hours");
                push_str(&mut d, u.as_str());
            } else {
                push_decimal(&mut d, ((r.minutes / 10) as u64 + 1) * 10);
                push_str(&mut d, " ");
                let u = misc_txt(t, "duration-minutes");
                push_str(&mut d, u.as_str());
            }
            assert(d@ =~= duration_text(*t, r));
            let mut args: TextArgs = Vec::new();
            args.push((String::from_str("duration"), d));
            assert(args.deep_view() =~= seq![("duration"@, duration_text(*t, r))]);
            let s = misc_txt_with_args(t, "item_info_text-remaining", &args);
            push_str(&mut text, s.as_str());
        }
        assert(text@ =~= s3 + remaining_part(*t, self.remaining));
        let ghost s4 = text@;
        if let Some(b) = &self.build_obj {
            push_str(&mut text, " (");
            let name = obj_txt(t, b.as_str());
            push_str(&mut text, name.as_str());
            push_str(&mut text, ")");
        }
        assert(text@ =~= s4 + build_part(*t, self.build_obj));
        let ghost s5 = text@;
        let q = self.quality;
        if q > 0 {
            push_str(&mut text, " +");
            push_decimal(&mut text, q as u64);
        } else if q < 0 {
            push_str(&mut text, " -");
            push_decimal(&mut text, (0i64 - q as i64) as u64);
        }
        assert(text@ =~= s5 + quality_part(self.quality));
        let ghost s6 = text@;
        let mut k: usize = 0;
        assert(self.skill_learning@.take(0) =~= Seq::<SkillKind>::empty());
        while k < self.skill_learning.len()
            invariant
                k <= self.skill_learning@.len(),
                text@ == s6 + skills_part(*t, self.skill_learning@.take(k as int)),
            decreases self.skill_learning@.len() - k,
        {
            push_str(&mut text, " <");
            let name = to_txt(t, &self.skill_learning[k]);
            push_str(&mut text, name.as_str());
            push_str(&mut text, ">");
            assert(self.skill_learning@.take(k + 1).drop_last() =~= self.skill_learning@.take(k as int));
            k = k + 1;
            assert(text@ =~= s6 + skills_part(*t, self.skill_learning@.take(k as int)));
        }
        assert(self.skill_learning@.take(k as int) =~= self.skill_learning@);
        text
    }
}

} // verus!
