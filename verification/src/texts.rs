//! The text kinds of the game and their lookup functions.
use vstd::prelude::*;
use crate::text::{Bundle, TextArgs, bundle_text};
use crate::strutil::{push_str};

verus! {

/// The bundles of all text kinds.
pub struct TextBundles {
    pub ability: Bundle,
    pub flavor: Bundle,
    pub log: Bundle,
    pub misc: Bundle,
    pub obj: Bundle,
    pub quest: Bundle,
    pub readable: Bundle,
    pub talk: Bundle,
    pub ui: Bundle,
}

/// The text found, or else the id itself.
pub open spec fn text_or_id(found: Option<Seq<char>>, id: Seq<char>) -> Seq<char> {
    match found {
        Some(s) => s,
        None => id,
    }
}

/// The text of `id` with `args` in `b`, or `id` itself.
pub open spec fn lookup(b: Bundle, id: Seq<char>, args: Seq<(Seq<char>, Seq<char>)>) -> Seq<char> {
    text_or_id(bundle_text(b, id, args), id)
}

/// No arguments.
pub open spec fn no_args() -> Seq<(Seq<char>, Seq<char>)> {
    Seq::empty()
}

/// Looks up `id` with `args` in `b`; falls back to `id`.
pub fn txt_with_args(b: &Bundle, id: &str, args: &TextArgs) -> (r: String)
    ensures
        r@ == lookup(*b, id@, args.deep_view()),
{
    match b.format(id, args) {
        Some(s) => s,
        None => id.to_owned(),
    }
}

/// Looks up `id` without arguments in `b`; falls back to `id`.
pub fn txt(b: &Bundle, id: &str) -> (r: String)
    ensures
        r@ == lookup(*b, id@, no_args()),
{
    let args: TextArgs = Vec::new();
    assert(args.deep_view() =~= no_args());
    txt_with_args(b, id, &args)
}

/// Looks up `id` without arguments in `b`.
pub fn txt_checked(b: &Bundle, id: &str) -> (r: Option<String>)
    ensures
        r.is_some() == bundle_text(*b, id@, no_args()).is_some(),
        r.is_some() ==> r.unwrap()@ == bundle_text(*b, id@, no_args()).unwrap(),
{
    let args: TextArgs = Vec::new();
    assert(args.deep_view() =~= no_args());
    b.format(id, &args)
}

/// Ability text of `id`, or `id`.
pub fn ability_txt(t: &TextBundles, id: &str) -> (r: String)
    ensures
        r@ == lookup(t.ability, id@, no_args()),
{
    txt(&t.ability, id)
}

/// Ability text of `id` with `args`, or `id`.
pub fn ability_txt_with_args(t: &TextBundles, id: &str, args: &TextArgs) -> (r: String)
    ensures
        r@ == lookup(t.ability, id@, args.deep_view()),
{
    txt_with_args(&t.ability, id, args)
}

/// Flavor text of `id`, if there is one.
pub fn flavor_txt_checked(t: &TextBundles, id: &str) -> (r: Option<String>)
    ensures
        r.is_some() == bundle_text(t.flavor, id@, no_args()).is_some(),
        r.is_some() ==> r.unwrap()@ == bundle_text(t.flavor, id@, no_args()).unwrap(),
{
    txt_checked(&t.flavor, id)
}

/// The pattern that splits an object id into its base id and a suffix: an
/// optional `-m` or `-f` and a number.
pub open spec fn obj_id_pattern() -> Seq<char> {
    "(.+?)(-[mf])?-[0-9]+"@
}

/// The first capture group of the first match of the regular expression
/// `pattern` in `text`; `None` when the pattern does not compile, does not
/// match, or the group takes no part in the match.
pub uninterp spec fn regex_first_capture(pattern: Seq<char>, text: Seq<char>) -> Option<Seq<char>>;

/// `Regex::new`, `Regex::captures` and `Captures::get(1)` (regex): the text
/// of capture group 1 of the leftmost-first match, which is named
/// `regex_first_capture`.
#[verifier::external_body]
fn first_capture(pattern: &str, text: &str) -> (r: Option<String>)
    ensures
        r.is_some() == regex_first_capture(pattern@, text@).is_some(),
        r.is_some() ==> r.unwrap()@ == regex_first_capture(pattern@, text@).unwrap(),
{
    let re = regex::Regex::new(pattern).ok()?;
    let caps = re.captures(text)?;
    caps.get(1).map(|m| m.as_str().to_owned())
}

/// Object text of `id`: its own text, else the text of its base id (the id
/// without a numbered suffix), else `id`.
pub open spec fn obj_text(t: TextBundles, id: Seq<char>) -> Seq<char> {
    match bundle_text(t.obj, id, no_args()) {
        Some(s) => s,
        None => match regex_first_capture(obj_id_pattern(), id) {
            Some(base) => match bundle_text(t.obj, base, no_args()) {
                Some(s) => s,
                None => id,
            },
            None => id,
        },
    }
}

/// Object text of `id`; an id with a numbered suffix falls back to its
/// base id's text.
pub fn obj_txt(t: &TextBundles, id: &str) -> (r: String)
    ensures
        r@ == obj_text(*t, id@),
{
    if let Some(s) = txt_checked(&t.obj, id) {
        return s;
    }
    let pattern = "(.+?)(-[mf])?-[0-9]+";
    proof { assert(pattern@ == obj_id_pattern()); }
    if let Some(base) = first_capture(pattern, id) {
        if let Some(s) = txt_checked(&t.obj, base.as_str()) {
            return s;
        }
    }
    id.to_owned()
}

/// Object text of `id`, if there is one.
pub fn obj_txt_checked(t: &TextBundles, id: &str) -> (r: Option<String>)
    ensures
        r.is_some() == bundle_text(t.obj, id@, no_args()).is_some(),
        r.is_some() ==> r.unwrap()@ == bundle_text(t.obj, id@, no_args()).unwrap(),
{
    txt_checked(&t.obj, id)
}

/// Quest text of `id`, or `id`.
pub fn quest_txt(t: &TextBundles, id: &str) -> (r: String)
    ensures
        r@ == lookup(t.quest, id@, no_args()),
{
    txt(&t.quest, id)
}

/// Quest text of `id`, if there is one.
pub fn quest_txt_checked(t: &TextBundles, id: &str) -> (r: Option<String>)
    ensures
        r.is_some() == bundle_text(t.quest, id@, no_args()).is_some(),
        r.is_some() ==> r.unwrap()@ == bundle_text(t.quest, id@, no_args()).unwrap(),
{
    txt_checked(&t.quest, id)
}

/// Log text of `id`, or `id`.
pub fn log_txt(t: &TextBundles, id: &str) -> (r: String)
    ensures
        r@ == lookup(t.log, id@, no_args()),
{
    txt(&t.log, id)
}

/// Log text of `id` with `args`, or `id`.
pub fn log_txt_with_args(t: &TextBundles, id: &str, args: &TextArgs) -> (r: String)
    ensures
        r@ == lookup(t.log, id@, args.deep_view()),
{
    txt_with_args(&t.log, id, args)
}

/// UI text of `id`, or `id`.
pub fn ui_txt(t: &TextBundles, id: &str) -> (r: String)
    ensures
        r@ == lookup(t.ui, id@, no_args()),
{
    txt(&t.ui, id)
}

/// UI text of `id` with `args`, or `id`.
pub fn ui_txt_with_args(t: &TextBundles, id: &str, args: &TextArgs) -> (r: String)
    ensures
        r@ == lookup(t.ui, id@, args.deep_view()),
{
    txt_with_args(&t.ui, id, args)
}

/// UI text of `id`, if there is one.
pub fn ui_txt_checked(t: &TextBundles, id: &str) -> (r: Option<String>)
    ensures
        r.is_some() == bundle_text(t.ui, id@, no_args()).is_some(),
        r.is_some() ==> r.unwrap()@ == bundle_text(t.ui, id@, no_args()).unwrap(),
{
    txt_checked(&t.ui, id)
}

/// Talk text of `id`, or `id`.
pub fn talk_txt(t: &TextBundles, id: &str) -> (r: String)
    ensures
        r@ == lookup(t.talk, id@, no_args()),
{
    txt(&t.talk, id)
}

/// Talk text of `id` with `args`, or `id`.
pub fn talk_txt_with_args(t: &TextBundles, id: &str, args: &TextArgs) -> (r: String)
    ensures
        r@ == lookup(t.talk, id@, args.deep_view()),
{
    txt_with_args(&t.talk, id, args)
}

/// Talk text of `id` with `args`, if there is one.
pub fn talk_txt_checked(t: &TextBundles, id: &str, args: &TextArgs) -> (r: Option<String>)
    ensures
        r.is_some() == bundle_text(t.talk, id@, args.deep_view()).is_some(),
        r.is_some() ==> r.unwrap()@ == bundle_text(t.talk, id@, args.deep_view()).unwrap(),
{
    t.talk.format(id, args)
}

/// Miscellaneous text of `id`, or `id`.
pub fn misc_txt(t: &TextBundles, id: &str) -> (r: String)
    ensures
        r@ == lookup(t.misc, id@, no_args()),
{
    txt(&t.misc, id)
}

/// Miscellaneous text of `id` with `args`, or `id`.
pub fn misc_txt_with_args(t: &TextBundles, id: &str, args: &TextArgs) -> (r: String)
    ensures
        r@ == lookup(t.misc, id@, args.deep_view()),
{
    txt_with_args(&t.misc, id, args)
}

/// Miscellaneous text of `id` with `args`, if there is one.
pub fn misc_txt_checked(t: &TextBundles, id: &str, args: &TextArgs) -> (r: Option<String>)
    ensures
        r.is_some() == bundle_text(t.misc, id@, args.deep_view()).is_some(),
        r.is_some() ==> r.unwrap()@ == bundle_text(t.misc, id@, args.deep_view()).unwrap(),
{
    t.misc.format(id, args)
}

/// Text of material group `group`: the miscellaneous text
/// `material_group-<group>`.
pub fn material_group(t: &TextBundles, group: &str) -> (r: String)
    ensures
        r@ == lookup(t.misc, "material_group-"@ + group@, no_args()),
{
    let mut id = String::new();
    push_str(&mut id, "material_group-");
    push_str(&mut id, group);
    misc_txt(t, id.as_str())
}

/// Text of material `name`: the miscellaneous text `material-<name>`.
pub fn material(t: &TextBundles, name: &str) -> (r: String)
    ensures
        r@ == lookup(t.misc, "material-"@ + name@, no_args()),
{
    let mut id = String::new();
    push_str(&mut id, "material-");
    push_str(&mut id, name);
    misc_txt(t, id.as_str())
}

} // verus!
