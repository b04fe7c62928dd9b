//! The texts of item and ability effects. The power and the hit rate of an
//! effect come as text, already rounded to whole numbers.
use vstd::prelude::*;
use crate::text::TextArgs;
use crate::texts::{TextBundles, lookup, misc_txt, misc_txt_with_args, no_args};

verus! {

/// The image shown beside an item's effects in its information window.
pub const UI_IMG_ID_ITEM_INFO: &'static str = "!icon-item-info";

/// The kinds of effect, as far as their texts tell them apart. The status
/// that a status effect gives is given by its text.
pub enum EffectKind {
    NoEffect,
    RestoreHp,
    RestoreSp,
    RestoreMp,
    Melee,
    Ranged,
    Explosion,
    Direct,
    Status { status: String },
    WallDamage,
    CharaScan,
    SkillLearning,
    PlaceTile,
    GenItem,
}

/// The argument list `power=<power>`.
pub open spec fn power_args(power: Seq<char>) -> Seq<(Seq<char>, Seq<char>)> {
    seq![("power"@, power)]
}

/// The text of an effect of kind `k` with power `power` and hit rate `hit`:
/// the miscellaneous text `effect_kind-<kind>`, given the power where the
/// kind has one, and the status and the hit rate for a status effect.
pub open spec fn effect_kind_text(t: TextBundles, k: EffectKind, power: Seq<char>, hit: Seq<char>) -> Seq<char> {
    match k {
        EffectKind::NoEffect => lookup(t.misc, "effect_kind-none"@, no_args()),
        EffectKind::RestoreHp => lookup(t.misc, "effect_kind-restore_hp"@, power_args(power)),
        EffectKind::RestoreSp => lookup(t.misc, "effect_kind-restore_sp"@, power_args(power)),
        EffectKind::RestoreMp => lookup(t.misc, "effect_kind-restore_mp"@, power_args(power)),
        EffectKind::Melee => lookup(t.misc, "effect_kind-melee"@, power_args(power)),
        EffectKind::Ranged => lookup(t.misc, "effect_kind-ranged"@, power_args(power)),
        EffectKind::Explosion => lookup(t.misc, "effect_kind-explosion"@, power_args(power)),
        EffectKind::Direct => lookup(t.misc, "effect_kind-direct"@, power_args(power)),
        EffectKind::Status { status } =>
            lookup(t.misc, "effect_kind-status"@, seq![("status"@, status@), ("hit"@, hit)]),
        EffectKind::WallDamage => lookup(t.misc, "effect_kind-wall_damage"@, no_args()),
        EffectKind::CharaScan => lookup(t.misc, "effect_kind-chara_scan"@, no_args()),
        EffectKind::SkillLearning => lookup(t.misc, "effect_kind-skill_learning"@, no_args()),
        EffectKind::PlaceTile => lookup(t.misc, "effect_kind-place_tile"@, no_args()),
        EffectKind::GenItem => lookup(t.misc, "effect_kind-gen_item"@, no_args()),
    }
}

/// The miscellaneous text `id` given the power.
fn with_power(t: &TextBundles, id: &str, power: &str) -> (r: String)
    ensures
        r@ == lookup(t.misc, id@, power_args(power@)),
{
    let mut args: TextArgs = Vec::new();
    args.push(("power".to_owned(), power.to_owned()));
    proof {
        reveal_strlit("power");
        assert(args.deep_view() =~= power_args(power@));
    }
    misc_txt_with_args(t, id, &args)
}

/// The icon and the text of an effect of kind `k` with power `power` and
/// hit rate `hit`.
pub fn effect_kind(t: &TextBundles, k: &EffectKind, power: &str, hit: &str) -> (r: (&'static str, String))
    ensures
        r.0@ == "!"@,
        r.1@ == effect_kind_text(*t, *k, power@, hit@),
{
    proof { reveal_strlit("!"); }
    let s = match k {
        EffectKind::NoEffect => misc_txt(t, "effect_kind-none"),
        EffectKind::RestoreHp => with_power(t, "effect_kind-restore_hp", power),
        EffectKind::RestoreSp => with_power(t, "effect_kind-restore_sp", power),
        EffectKind::RestoreMp => with_power(t, "effect_kind-restore_mp", power),
        EffectKind::Melee => with_power(t, "effect_kind-melee", power),
        EffectKind::Ranged => with_power(t, "effect_kind-ranged", power),
        EffectKind::Explosion => with_power(t, "effect_kind-explosion", power),
        EffectKind::Direct => with_power(t, "effect_kind-direct", power),
        EffectKind::Status { status } => {
            let mut args: TextArgs = Vec::new();
            args.push(("status".to_owned(), status.clone()));
            args.push(("hit".to_owned(), hit.to_owned()));
            proof {
                reveal_strlit("status");
                reveal_strlit("hit");
                assert(args.deep_view() =~= seq![("status"@, status@), ("hit"@, hit@)]);
            }
            misc_txt_with_args(t, "effect_kind-status", &args)
        },
        EffectKind::WallDamage => misc_txt(t, "effect_kind-wall_damage"),
        EffectKind::CharaScan => misc_txt(t, "effect_kind-chara_scan"),
        EffectKind::SkillLearning => misc_txt(t, "effect_kind-skill_learning"),
        EffectKind::PlaceTile => misc_txt(t, "effect_kind-place_tile"),
        EffectKind::GenItem => misc_txt(t, "effect_kind-gen_item"),
    };
    ("!", s)
}

/// The icons and texts of an effect made of the kinds `kinds`, all with
/// power `power` and hit rate `hit`, in order.
pub fn effect(t: &TextBundles, kinds: &Vec<EffectKind>, power: &str, hit: &str) -> (r: Vec<(&'static str, String)>)
    ensures
        r@.len() == kinds@.len(),
        forall|i: int| 0 <= i < kinds@.len() ==>
            (#[trigger] r@[i]).0@ == "!"@ && r@[i].1@ == effect_kind_text(*t, kinds@[i], power@, hit@),
{
    let mut v: Vec<(&'static str, String)> = Vec::new();
    let mut i: usize = 0;
    while i < kinds.len()
        invariant
            i <= kinds@.len(),
            v@.len() == i,
            forall|j: int| 0 <= j < i ==>
                (#[trigger] v@[j]).0@ == "!"@ && v@[j].1@ == effect_kind_text(*t, kinds@[j], power@, hit@),
        decreases kinds@.len() - i,
    {
        v.push(effect_kind(t, &kinds[i], power, hit));
        i = i + 1;
    }
    v
}

} // verus!
