//! Descriptions: the texts of character modifiers and module effects, and
//! the description of a character trait.
use vstd::prelude::*;
use crate::strutil::{decimal, push_char, push_decimal, push_str};
use crate::text_ids::{CharaTrait, chara_trait_id};
use crate::texts::{TextBundles, lookup, misc_txt, no_args};

verus! {

/// The decimal text of `n` with its sign, `+` for zero and up.
pub open spec fn signed_decimal(n: int) -> Seq<char> {
    if n >= 0 { seq!['+'] + decimal(n as nat) } else { seq!['-'] + decimal((-n) as nat) }
}

/// Appends the decimal text of `n` with its sign.
pub fn push_signed(s: &mut String, n: i64)
    ensures
        final(s)@ == old(s)@ + signed_decimal(n as int),
{
    let m: u64 = if n >= 0 {
        push_char(s, '+');
        n as u64
    } else {
        push_char(s, '-');
        (0i128 - n as i128) as u64
    };
    let ghost mid = s@;
    push_decimal(s, m);
    assert(s@ =~= old(s)@ + signed_decimal(n as int));
}

/// A change of a character's attributes (in whole numbers). The element of
/// a defence change is given by its text.
pub enum CharaModifier {
    Str(i16),
    Vit(i16),
    Dex(i16),
    Int(i16),
    Wil(i16),
    Cha(i16),
    Spd(i16),
    Defence { element: String, value: i16 },
}

/// The text of a modifier: the attribute and the signed change, e.g.
/// `"STR +2"`, or `"Defence <element> <change>"`.
pub open spec fn modifier_text(m: CharaModifier) -> Seq<char> {
    match m {
        CharaModifier::Str(v) => "STR "@ + signed_decimal(v as int),
        CharaModifier::Vit(v) => "VIT "@ + signed_decimal(v as int),
        CharaModifier::Dex(v) => "DEX "@ + signed_decimal(v as int),
        CharaModifier::Int(v) => "INT "@ + signed_decimal(v as int),
        CharaModifier::Wil(v) => "WIL "@ + signed_decimal(v as int),
        CharaModifier::Cha(v) => "CHA "@ + signed_decimal(v as int),
        CharaModifier::Spd(v) => "SPD "@ + signed_decimal(v as int),
        CharaModifier::Defence { element, value } => "Defence "@ + element@ + " "@ + signed_decimal(value as int),
    }
}

/// `"<caption><signed value>"`.
fn caption_signed(caption: &str, v: i16) -> (r: String)
    ensures
        r@ == caption@ + signed_decimal(v as int),
{
    let mut s = String::new();
    push_str(&mut s, caption);
    push_signed(&mut s, v as i64);
    assert(s@ =~= caption@ + signed_decimal(v as int));
    s
}

impl CharaModifier {
    /// The text of the modifier.
    pub fn to_text(&self) -> (r: String)
        ensures
            r@ == modifier_text(*self),
    {
        match self {
            CharaModifier::Str(v) => caption_signed("STR ", *v),
            CharaModifier::Vit(v) => caption_signed("VIT ", *v),
            CharaModifier::Dex(v) => caption_signed("DEX ", *v),
            CharaModifier::Int(v) => caption_signed("INT ", *v),
            CharaModifier::Wil(v) => caption_signed("WIL ", *v),
            CharaModifier::Cha(v) => caption_signed("CHA ", *v),
            CharaModifier::Spd(v) => caption_signed("SPD ", *v),
            CharaModifier::Defence { element, value } => {
                let mut s = String::new();
                push_str(&mut s, "Defence ");
                push_str(&mut s, element.as_str());
                push_str(&mut s, " ");
                push_signed(&mut s, *value as i64);
                assert(s@ =~= "Defence "@ + element@ + " "@ + signed_decimal(*value as int));
                s
            },
        }
    }
}

/// What a module does: gives an ability group, changes the character, or
/// is the core.
pub enum ModuleEffect {
    Ability { group: String },
    CharaModifier(CharaModifier),
    Core,
}

/// The text of a module effect.
pub open spec fn module_effect_text(t: TextBundles, e: ModuleEffect) -> Seq<char> {
    match e {
        ModuleEffect::Ability { group } => lookup(t.misc, "ability_group-"@ + group@, no_args()),
        ModuleEffect::CharaModifier(m) => modifier_text(m),
        ModuleEffect::Core => "Core"@,
    }
}

impl ModuleEffect {
    /// The text of the module effect.
    pub fn to_text(&self, t: &TextBundles) -> (r: String)
        ensures
            r@ == module_effect_text(*t, *self),
    {
        match self {
            ModuleEffect::Ability { group } => {
                let mut id = String::new();
                push_str(&mut id, "ability_group-");
                push_str(&mut id, group.as_str());
                misc_txt(t, id.as_str())
            },
            ModuleEffect::CharaModifier(m) => m.to_text(),
            ModuleEffect::Core => String::from_str("Core"),
        }
    }
}

/// The lines of the modifiers' texts, each ended by a new line.
pub open spec fn modifier_lines(texts: Seq<Seq<char>>) -> Seq<char>
    decreases texts.len(),
{
    if texts.len() == 0 {
        Seq::empty()
    } else {
        modifier_lines(texts.drop_last()) + texts.last() + seq!['\n']
    }
}

/// The description of a character trait: the miscellaneous text
/// `trait-<id>-desc`, an empty line, and for a trait of the rules the text
/// of each of its modifiers on a line of its own.
pub open spec fn trait_desc(t: TextBundles, c: CharaTrait, modifier_texts: Seq<Seq<char>>) -> Seq<char> {
    let head = lookup(t.misc, "trait-"@ + chara_trait_id(c) + "-desc"@, no_args()) + "\n\n"@;
    match c {
        CharaTrait::Id(_) => head + modifier_lines(modifier_texts),
        CharaTrait::Player => head,
    }
}

/// The description of trait `c`, whose modifiers (as the rules give them)
/// have the texts `modifier_texts`.
pub fn trait_description(t: &TextBundles, c: &CharaTrait, modifier_texts: &Vec<String>) -> (r: String)
    ensures
        r@ == trait_desc(*t, *c, modifier_texts.deep_view()),
{
    let mut id = String::new();
    push_str(&mut id, "trait-");
    push_str(&mut id, c.text_id());
    push_str(&mut id, "-desc");
    let mut desc = misc_txt(t, id.as_str());
    push_str(&mut desc, "\n\n");
    if let CharaTrait::Id(_) = c {
        let ghost head = desc@;
        let mut i: usize = 0;
        assert(modifier_texts.deep_view().take(0) =~= Seq::<Seq<char>>::empty());
        while i < modifier_texts.len()
            invariant
                i <= modifier_texts@.len(),
                desc@ == head + modifier_lines(modifier_texts.deep_view().take(i as int)),
            decreases modifier_texts@.len() - i,
        {
            push_str(&mut desc, modifier_texts[i].as_str());
            push_char(&mut desc, '\n');
            assert(modifier_texts.deep_view().take(i + 1).drop_last() =~= modifier_texts.deep_view().take(i as int));
            assert(modifier_texts.deep_view()[i as int] == modifier_texts@[i as int]@);
            i = i + 1;
            assert(desc@ =~= head + modifier_lines(modifier_texts.deep_view().take(i as int)));
        }
        assert(modifier_texts.deep_view().take(i as int) =~= modifier_texts.deep_view());
    }
    desc
}

} // verus!
