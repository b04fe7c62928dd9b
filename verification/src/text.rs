//! Text lookup: message bundles made from Fluent resources, with a first
//! and a second language, and the text kinds of the game.
use vstd::prelude::*;
use fluent::FluentResource;
use crate::strutil::{strip_isolation, remove_isolation_marks};

verus! {

#[verifier::external_type_specification]
#[verifier::external_body]
#[verifier::reject_recursive_types(R)]
#[verifier::reject_recursive_types(M)]
pub struct ExFluentBundle<R, M>(fluent::bundle::FluentBundle<R, M>);

#[verifier::external_type_specification]
#[verifier::external_body]
pub struct ExFluentResource(FluentResource);

#[verifier::external_type_specification]
#[verifier::external_body]
pub struct ExIntlLangMemoizer(intl_memoizer::concurrent::IntlLangMemoizer);

#[verifier::external_type_specification]
#[verifier::external_body]
pub struct ExLanguageIdentifier(unic_langid::LanguageIdentifier);

/// A Fluent message bundle (thread-safe variant).
pub type FluentMessages = fluent::concurrent::FluentBundle<FluentResource>;

/// A message id with its named arguments.
pub type MessageKey = (Seq<char>, Seq<(Seq<char>, Seq<char>)>);

/// Named arguments of a message: pairs of argument name and string value.
pub type TextArgs = Vec<(String, String)>;

/// The formatted texts of a Fluent bundle: for a message id and the named
/// string arguments, the formatted text of the message's value (for the
/// messages that have one, see `bundle_valued_ids`).
pub uninterp spec fn bundle_messages(
    b: fluent::concurrent::FluentBundle<FluentResource>,
) -> Map<(Seq<char>, Seq<(Seq<char>, Seq<char>)>), Seq<char>>;

/// The ids of the entries (messages and terms) of a Fluent bundle.
pub uninterp spec fn bundle_entry_ids(b: fluent::concurrent::FluentBundle<FluentResource>) -> Set<Seq<char>>;

/// The ids of the messages of a Fluent bundle that have a value.
pub uninterp spec fn bundle_valued_ids(b: fluent::concurrent::FluentBundle<FluentResource>) -> Set<Seq<char>>;

/// An entry of a Fluent resource: its id (for a term, the name without the
/// leading `-`), whether it is a message (else a term), and whether it has
/// a value.
pub type EntryInfo = (Seq<char>, bool, bool);

/// The message and term entries of a Fluent resource, in order (comments
/// and unparsable text left out).
pub uninterp spec fn resource_entries(r: FluentResource) -> Seq<EntryInfo>;

/// The message and term entries, in order, that the Fluent parser finds in
/// `source`.
pub uninterp spec fn fluent_entries(source: Seq<char>) -> Seq<EntryInfo>;

/// The entry ids and the ids of valued messages of a bundle.
pub type EntryIds = (Set<Seq<char>>, Set<Seq<char>>);

/// No entry.
pub open spec fn no_entries() -> EntryIds {
    (Set::empty(), Set::empty())
}

/// The ids after entry `e` is offered to a bundle with ids `s`: an id that
/// is taken keeps its entry; a new id is taken, and is a valued message's
/// when `e` is a message with a value.
pub open spec fn add_entry(s: EntryIds, e: EntryInfo) -> EntryIds {
    if s.0.contains(e.0) {
        s
    } else {
        (s.0.insert(e.0), if e.1 && e.2 { s.1.insert(e.0) } else { s.1 })
    }
}

/// The ids after the entries `es` are offered in order.
pub open spec fn add_entries(s: EntryIds, es: Seq<EntryInfo>) -> EntryIds
    decreases es.len(),
{
    if es.len() == 0 {
        s
    } else {
        add_entries(add_entry(s, es[0]), es.drop_first())
    }
}

/// The ids after the resources with entries `rs` are added in order.
pub open spec fn load_entries(s: EntryIds, rs: Seq<Seq<EntryInfo>>) -> EntryIds
    decreases rs.len(),
{
    if rs.len() == 0 {
        s
    } else {
        load_entries(add_entries(s, rs[0]), rs.drop_first())
    }
}

/// The ids of bundle `b`.
pub open spec fn ids_of(b: fluent::concurrent::FluentBundle<FluentResource>) -> EntryIds {
    (bundle_entry_ids(b), bundle_valued_ids(b))
}

/// The entries of the resources parsed from `sources`, in order.
pub open spec fn sources_entries(sources: Seq<String>) -> Seq<Seq<EntryInfo>> {
    sources.map_values(|src: String| fluent_entries(src@))
}

/// Whether `s` parses as a Unicode language identifier.
pub uninterp spec fn langid_valid(s: Seq<char>) -> bool;

/// The subtags that the language identifier parsed from `s` holds,
/// written out as its `Display` writes them (joined by `-`).
pub uninterp spec fn canonical_langid(s: Seq<char>) -> Seq<char>;

/// The subtags that language identifier `l` holds, written out as its
/// `Display` writes them (joined by `-`).
pub uninterp spec fn langid_text(l: unic_langid::LanguageIdentifier) -> Seq<char>;

/// The locales of a Fluent bundle, in order, written out.
pub uninterp spec fn bundle_locales(b: fluent::concurrent::FluentBundle<FluentResource>) -> Seq<Seq<char>>;

/// `LanguageIdentifier::from_str` (unic-langid): `Some` exactly when the
/// identifier parses, which is named `langid_valid`; the identifier is
/// then the one named `canonical_langid`.
#[verifier::external_body]
fn parse_langid(s: &str) -> (r: Option<unic_langid::LanguageIdentifier>)
    ensures
        r.is_some() == langid_valid(s@),
        r matches Some(l) ==> langid_text(l) == canonical_langid(s@),
{
    s.parse::<unic_langid::LanguageIdentifier>().ok()
}

/// `FluentBundle::new_concurrent` (fluent-bundle) with one locale: a new
/// bundle has that locale and no entries.
#[verifier::external_body]
fn empty_fluent_bundle(lang: unic_langid::LanguageIdentifier) -> (bundle: FluentMessages)
    ensures
        bundle_entry_ids(bundle) == Set::<Seq<char>>::empty(),
        bundle_valued_ids(bundle) == Set::<Seq<char>>::empty(),
        bundle_locales(bundle) == seq![langid_text(lang)],
{
    fluent::concurrent::FluentBundle::new_concurrent(vec![lang])
}

/// `FluentBundle::add_resource` (fluent-bundle): the resource's message and
/// term entries are added in order, each unless its id is taken, in which
/// case the entry already there stays and the call reports an error that is
/// ignored here; the locales stay. The formatted texts (`bundle_messages`) are left unsaid:
/// they depend on every entry of the bundle.
#[verifier::external_body]
fn add_fluent_resource(b: &mut fluent::concurrent::FluentBundle<FluentResource>, r: FluentResource)
    ensures
        (bundle_entry_ids(*final(b)), bundle_valued_ids(*final(b)))
            == add_entries((bundle_entry_ids(*old(b)), bundle_valued_ids(*old(b))), resource_entries(r)),
        bundle_locales(*final(b)) == bundle_locales(*old(b)),
{
    let _ = b.add_resource(r);
}

/// `FluentResource::try_new` (fluent-bundle): the resource is kept also
/// when the source has syntax errors (the erroneous entries are skipped);
/// its entries are what the parser finds, named `fluent_entries`.
#[verifier::external_body]
pub fn parse_fluent_resource(source: String) -> (r: FluentResource)
    ensures
        resource_entries(r) == fluent_entries(source@),
{
    match FluentResource::try_new(source) {
        Ok(r) => r,
        Err((r, _)) => r,
    }
}

/// The text of message `id` with `args` in `b`, if there is one.
pub open spec fn message_text(
    b: fluent::concurrent::FluentBundle<FluentResource>,
    id: Seq<char>,
    args: Seq<(Seq<char>, Seq<char>)>,
) -> Option<Seq<char>> {
    if bundle_valued_ids(b).contains(id) {
        Some(bundle_messages(b)[(id, args)])
    } else {
        None
    }
}

/// `FluentBundle::get_message`, then `FluentMessage::value` and
/// `FluentBundle::format_pattern` (fluent-bundle) with the string arguments:
/// `Some` exactly for a message that has a value, and then its formatted
/// value, which is what `bundle_messages` holds for the key.
#[verifier::external_body]
fn format_fluent_message(
    b: &fluent::concurrent::FluentBundle<FluentResource>,
    id: &str,
    args: &TextArgs,
) -> (r: Option<String>)
    ensures
        r.is_some() == bundle_valued_ids(*b).contains(id@),
        r.is_some() ==> r.unwrap()@ == bundle_messages(*b)[(id@, args.deep_view())],
{
    let mut table = fluent::FluentArgs::new();
    for (k, v) in args.iter() {
        table.set(k.clone(), fluent::FluentValue::String(v.clone().into()));
    }
    let msg = b.get_message(id)?;
    let pattern = msg.value()?;
    let mut errors = vec![];
    Some(b.format_pattern(pattern, Some(&table), &mut errors).into_owned())
}

/// A new bundle for language `lang` holding the given resources.
pub fn new_bundle(lang: &str, resources: Vec<FluentResource>) -> (b: FluentMessages)
    requires
        langid_valid(lang@),
    ensures
        ids_of(b) == load_entries(no_entries(), resources@.map_values(|r: FluentResource| resource_entries(r))),
        bundle_locales(b) == seq![canonical_langid(lang@)],
{
    let langid = parse_langid(lang);
    let langid = langid.unwrap();
    let mut bundle = empty_fluent_bundle(langid);
    let mut resources = resources;
    let ghost all = resources@.map_values(|r: FluentResource| resource_entries(r));
    while resources.len() > 0
        invariant
            load_entries(ids_of(bundle), resources@.map_values(|r: FluentResource| resource_entries(r))) == load_entries(no_entries(), all),
            bundle_locales(bundle) == seq![canonical_langid(lang@)],
        decreases resources.len(),
    {
        let ghost rest = resources@.map_values(|r: FluentResource| resource_entries(r));
        let r = resources.remove(0);
        assert(rest.drop_first() =~= resources@.map_values(|r: FluentResource| resource_entries(r)));
        add_fluent_resource(&mut bundle, r);
    }
    bundle
}


/// The formatted texts of one kind: messages in the first language, and in
/// the second language for those the first lacks.
pub struct Bundle {
    pub first: FluentMessages,
    pub second: FluentMessages,
}

/// The text of message `id` in `b`: the first language's text if it has the
/// message, else the second's, with the isolation marks removed.
pub open spec fn bundle_text(b: Bundle, id: Seq<char>, args: Seq<(Seq<char>, Seq<char>)>) -> Option<Seq<char>> {
    match message_text(b.first, id, args) {
        Some(s) => Some(strip_isolation(s)),
        None => match message_text(b.second, id, args) {
            Some(s) => Some(strip_isolation(s)),
            None => None,
        },
    }
}

/// The resources parsed from the given sources, in order.
pub fn parse_resources(sources: Vec<String>) -> (r: Vec<FluentResource>)
    ensures
        r@.map_values(|x: FluentResource| resource_entries(x)) == sources_entries(sources@),
{
    let mut r: Vec<FluentResource> = Vec::new();
    let mut sources = sources;
    let ghost all = sources_entries(sources@);
    while sources.len() > 0
        invariant
            r@.map_values(|x: FluentResource| resource_entries(x)) + sources_entries(sources@) == all,
        decreases sources.len(),
    {
        let ghost before = sources@;
        let src = sources.remove(0);
        let res = parse_fluent_resource(src);
        let ghost done = r@.map_values(|x: FluentResource| resource_entries(x));
        r.push(res);
        assert(r@.map_values(|x: FluentResource| resource_entries(x)) =~= done.push(fluent_entries(before[0]@)));
        assert(sources_entries(before) =~= seq![fluent_entries(before[0]@)] + sources_entries(sources@));
        assert(r@.map_values(|x: FluentResource| resource_entries(x)) + sources_entries(sources@)
            =~= done + sources_entries(before));
    }
    assert(sources_entries(sources@) =~= Seq::<Seq<EntryInfo>>::empty());
    assert(r@.map_values(|x: FluentResource| resource_entries(x)) =~= all);
    r
}

impl Bundle {
    /// The bundle of one text kind, from the sources of the first language
    /// `lang` and of the second language `second_lang`. Both languages must
    /// parse as language identifiers (an empty one does not).
    pub fn load(lang: &str, second_lang: &str, first_sources: Vec<String>, second_sources: Vec<String>) -> (b: Bundle)
        requires
            langid_valid(lang@),
            langid_valid(second_lang@),
        ensures
            ids_of(b.first) == load_entries(no_entries(), sources_entries(first_sources@)),
            ids_of(b.second) == load_entries(no_entries(), sources_entries(second_sources@)),
            bundle_locales(b.first) == seq![canonical_langid(lang@)],
            bundle_locales(b.second) == seq![canonical_langid(second_lang@)],
    {
        let first = parse_resources(first_sources);
        let second = parse_resources(second_sources);
        Bundle { first: new_bundle(lang, first), second: new_bundle(second_lang, second) }
    }

    /// As `load`, where the language identifiers are checked first: `None`
    /// when either does not parse.
    pub fn try_load(lang: &str, second_lang: &str, first_sources: Vec<String>, second_sources: Vec<String>) -> (b: Option<Bundle>)
        ensures
            b.is_some() == (langid_valid(lang@) && langid_valid(second_lang@)),
            b matches Some(bb) ==> {
                &&& ids_of(bb.first) == load_entries(no_entries(), sources_entries(first_sources@))
                &&& ids_of(bb.second) == load_entries(no_entries(), sources_entries(second_sources@))
                &&& bundle_locales(bb.first) == seq![canonical_langid(lang@)]
                &&& bundle_locales(bb.second) == seq![canonical_langid(second_lang@)]
            },
    {
        let l1 = parse_langid(lang);
        let l2 = parse_langid(second_lang);
        if l1.is_some() && l2.is_some() {
            Some(Bundle::load(lang, second_lang, first_sources, second_sources))
        } else {
            None
        }
    }

    /// The text of message `id` with `args`: looked up in the first
    /// language, then in the second, with isolation marks removed.
    pub fn format(&self, id: &str, args: &TextArgs) -> (r: Option<String>)
        ensures
            r.is_some() == bundle_text(*self, id@, args.deep_view()).is_some(),
            r.is_some() ==> r.unwrap()@ == bundle_text(*self, id@, args.deep_view()).unwrap(),
    {
        if let Some(s) = format_fluent_message(&self.first, id, args) {
            return Some(remove_isolation_marks(s.as_str()));
        }
        if let Some(s) = format_fluent_message(&self.second, id, args) {
            return Some(remove_isolation_marks(s.as_str()));
        }
        None
    }
}

} // verus!
