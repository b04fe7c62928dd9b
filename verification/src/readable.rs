//! Readable texts (books, letters): a title and pages.
use vstd::prelude::*;
use crate::strutil::{lines, spec_lines, push_char, push_str};
use crate::text::bundle_text;
use crate::texts::{TextBundles, no_args};

verus! {

/// The line that separates two pages of a readable text.
pub open spec fn new_page_line() -> Seq<char> {
    "<newpage>"@
}

/// The pages made of lines `ls`, where `cur` is the page read so far: each
/// line ends with `'\n'` on its page, the separator line closes the current
/// page (also an empty one), and a last page counts only when it is not
/// empty.
pub open spec fn pages_from(cur: Seq<char>, ls: Seq<Seq<char>>) -> Seq<Seq<char>>
    decreases ls.len(),
{
    if ls.len() == 0 {
        if cur.len() == 0 { seq![] } else { seq![cur] }
    } else if ls[0] == new_page_line() {
        seq![cur] + pages_from(seq![], ls.drop_first())
    } else {
        pages_from(cur + ls[0].push('\n'), ls.drop_first())
    }
}

/// The pages of readable text `text`.
pub open spec fn text_pages(text: Seq<char>) -> Seq<Seq<char>> {
    pages_from(seq![], spec_lines(text))
}

/// The pages of readable `id`: the pages of its text, or the single page
/// `"(empty)"` when there is no such text.
pub open spec fn readable_pages(t: TextBundles, id: Seq<char>) -> Seq<Seq<char>> {
    match bundle_text(t.readable, id, no_args()) {
        Some(text) => text_pages(text),
        None => seq!["(empty)"@],
    }
}

/// Splits a readable text into pages.
pub fn split_pages(text: &str) -> (r: Vec<String>)
    ensures
        r.deep_view() == text_pages(text@),
{
    let ls = lines(text);
    let n = ls.len();
    let marker = String::from_str(new_page_marker());
    proof { assert(marker@ == new_page_line()); }
    let mut v: Vec<String> = Vec::new();
    let mut s = String::new();
    let mut i: usize = 0;
    assert(ls.deep_view().skip(0) == ls.deep_view());
    assert(v.deep_view() + text_pages(text@) == text_pages(text@));
    while i < n
        invariant
            n == ls@.len(),
            ls.deep_view() == spec_lines(text@),
            marker@ == new_page_line(),
            i <= n,
            v.deep_view() + pages_from(s@, ls.deep_view().skip(i as int)) == text_pages(text@),
        decreases n - i,
    {
        let ghost rest = ls.deep_view().skip(i as int);
        assert(rest[0] == ls@[i as int]@);
        assert(rest.drop_first() == ls.deep_view().skip(i + 1));
        if ls[i] != marker {
            let ghost old_s = s@;
            push_str(&mut s, ls[i].as_str());
            push_char(&mut s, '\n');
            assert(s@ == old_s + ls@[i as int]@.push('\n'));
        } else {
            let ghost old_v = v.deep_view();
            let ghost old_s = s@;
            v.push(s);
            assert(v.deep_view() == old_v.push(old_s));
            s = String::new();
            assert(old_v + pages_from(old_s, rest) == v.deep_view() + pages_from(s@, rest.drop_first()));
        }
        i = i + 1;
    }
    assert(ls.deep_view().skip(n as int) == Seq::<Seq<char>>::empty());
    if !s.as_str().is_empty() {
        let ghost old_v = v.deep_view();
        let ghost old_s = s@;
        v.push(s);
        assert(v.deep_view() == old_v.push(old_s));
    }
    v
}

fn new_page_marker() -> (r: &'static str)
    ensures
        r@ == new_page_line(),
{
    "<newpage>"
}

/// The title of readable `id`: the readable text `<id>-title`, if there is
/// one.
pub fn readable_title_txt(t: &TextBundles, id: &str) -> (r: Option<String>)
    ensures
        r.is_some() == bundle_text(t.readable, id@ + "-title"@, no_args()).is_some(),
        r.is_some() ==> r.unwrap()@ == bundle_text(t.readable, id@ + "-title"@, no_args()).unwrap(),
{
    let mut key = String::new();
    push_str(&mut key, id);
    push_str(&mut key, "-title");
    crate::texts::txt_checked(&t.readable, key.as_str())
}

/// The pages of readable `id`.
pub fn readable_txt(t: &TextBundles, id: &str) -> (r: Vec<String>)
    ensures
        r.deep_view() == readable_pages(*t, id@),
{
    match crate::texts::txt_checked(&t.readable, id) {
        Some(text) => split_pages(text.as_str()),
        None => {
            let mut v: Vec<String> = Vec::new();
            v.push(String::from_str("(empty)"));
            assert(v.deep_view() == seq!["(empty)"@]);
            v
        },
    }
}

} // verus!
