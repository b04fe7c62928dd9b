//! Character-level string operations with their specifications.
use vstd::prelude::*;

verus! {

/// Appends one character to a string (`String::push`).
#[verifier::external_body]
pub fn push_char(s: &mut String, c: char)
    ensures
        final(s)@ == old(s)@.push(c),
{
    s.push(c);
}

/// The characters of a string slice, in order.
pub fn to_chars(s: &str) -> (r: Vec<char>)
    ensures
        r@ == s@,
{
    let n = s.unicode_len();
    let mut r: Vec<char> = Vec::new();
    let mut i: usize = 0;
    while i < n
        invariant
            n == s@.len(),
            i <= n,
            r@ == s@.subrange(0, i as int),
        decreases n - i,
    {
        r.push(s.get_char(i));
        i = i + 1;
    }
    r
}

/// The string made of `v[lo..hi]`.
pub fn string_from_chars(v: &Vec<char>, lo: usize, hi: usize) -> (r: String)
    requires
        lo <= hi <= v@.len(),
    ensures
        r@ == v@.subrange(lo as int, hi as int),
{
    let mut r = String::new();
    let mut i: usize = lo;
    while i < hi
        invariant
            lo <= i <= hi <= v@.len(),
            r@ == v@.subrange(lo as int, i as int),
        decreases hi - i,
    {
        push_char(&mut r, v[i]);
        assert(v@.subrange(lo as int, i + 1) == v@.subrange(lo as int, i as int).push(v@[i as int]));
        i = i + 1;
    }
    r
}

/// Appends all of `t` to `s`.
pub fn push_str(s: &mut String, t: &str)
    ensures
        final(s)@ == old(s)@ + t@,
{
    s.append(t);
}

/// The decimal digit character of `d` (which is below ten).
pub open spec fn digit_char(d: int) -> char {
    if d == 0 { '0' }
    else if d == 1 { '1' }
    else if d == 2 { '2' }
    else if d == 3 { '3' }
    else if d == 4 { '4' }
    else if d == 5 { '5' }
    else if d == 6 { '6' }
    else if d == 7 { '7' }
    else if d == 8 { '8' }
    else { '9' }
}

/// The decimal notation of `n`, without leading zeros.
pub open spec fn decimal(n: nat) -> Seq<char>
    decreases n,
{
    if n < 10 {
        seq![digit_char(n as int)]
    } else {
        decimal(n / 10).push(digit_char((n % 10) as int))
    }
}

/// The decimal notation of `n`, padded with zeros to at least two digits.
pub open spec fn decimal2(n: nat) -> Seq<char> {
    if n < 10 { seq!['0', digit_char(n as int)] } else { decimal(n) }
}

fn digit(d: u64) -> (c: char)
    requires
        d < 10,
    ensures
        c == digit_char(d as int),
{
    if d == 0 { '0' }
    else if d == 1 { '1' }
    else if d == 2 { '2' }
    else if d == 3 { '3' }
    else if d == 4 { '4' }
    else if d == 5 { '5' }
    else if d == 6 { '6' }
    else if d == 7 { '7' }
    else if d == 8 { '8' }
    else { '9' }
}

/// Appends the decimal notation of `n`.
pub fn push_decimal(s: &mut String, n: u64)
    ensures
        final(s)@ == old(s)@ + decimal(n as nat),
    decreases n,
{
    if n >= 10 {
        push_decimal(s, n / 10);
    }
    push_char(s, digit(n % 10));
}

/// Appends the decimal notation of `n`, zero-padded to two digits.
pub fn push_decimal2(s: &mut String, n: u64)
    ensures
        final(s)@ == old(s)@ + decimal2(n as nat),
{
    if n < 10 {
        push_char(s, '0');
    }
    push_decimal(s, n);
}

/// The decimal text of an integer, with a minus sign when it is negative.
pub open spec fn int_decimal(n: int) -> Seq<char> {
    if n < 0 { seq!['-'] + decimal((-n) as nat) } else { decimal(n as nat) }
}

/// Appends the decimal text of `n`.
pub fn push_int(s: &mut String, n: i64)
    ensures
        final(s)@ == old(s)@ + int_decimal(n as int),
{
    if n < 0 {
        push_char(s, '-');
        let m: u64 = (0i128 - n as i128) as u64;
        push_decimal(s, m);
        assert(old(s)@.push('-') + decimal(m as nat) =~= old(s)@ + (seq!['-'] + decimal(m as nat)));
    } else {
        push_decimal(s, n as u64);
    }
}

/// The decimal notation of `n` as a new string.
pub fn u64_to_string(n: u64) -> (r: String)
    ensures
        r@ == decimal(n as nat),
{
    let mut s = String::new();
    push_decimal(&mut s, n);
    s
}


/// Drops a trailing carriage return.
pub open spec fn strip_cr(s: Seq<char>) -> Seq<char> {
    if s.len() > 0 && s.last() == '\r' { s.drop_last() } else { s }
}

/// The lines of `cur + rest`, where `cur` is the unfinished line read so far:
/// lines end at `'\n'` (a `'\r'` just before it is dropped), and a last line
/// without a line end counts only when it is not empty. This is what
/// `str::lines` yields.
pub open spec fn lines_from(cur: Seq<char>, rest: Seq<char>) -> Seq<Seq<char>>
    decreases rest.len(),
{
    if rest.len() == 0 {
        if cur.len() == 0 { seq![] } else { seq![cur] }
    } else if rest[0] == '\n' {
        seq![strip_cr(cur)] + lines_from(seq![], rest.drop_first())
    } else {
        lines_from(cur.push(rest[0]), rest.drop_first())
    }
}

/// The lines of `s`, as `str::lines` yields them.
pub open spec fn spec_lines(s: Seq<char>) -> Seq<Seq<char>> {
    lines_from(seq![], s)
}

/// The lines of `s`, as `str::lines` yields them.
pub fn lines(s: &str) -> (r: Vec<String>)
    ensures
        r.deep_view() == spec_lines(s@),
{
    let v = to_chars(s);
    let n = v.len();
    let mut r: Vec<String> = Vec::new();
    let mut start: usize = 0;
    let mut i: usize = 0;
    assert(v@.skip(0) == v@);
    assert(v@.subrange(0, 0) == Seq::<char>::empty());
    assert(r.deep_view() == Seq::<Seq<char>>::empty());
    assert(r.deep_view() + spec_lines(s@) == spec_lines(s@));
    while i < n
        invariant
            v@ == s@,
            n == v@.len(),
            start <= i <= n,
            r.deep_view() + lines_from(v@.subrange(start as int, i as int), v@.skip(i as int))
                == spec_lines(s@),
        decreases n - i,
    {
        let ghost cur = v@.subrange(start as int, i as int);
        assert(v@.skip(i as int)[0] == v@[i as int]);
        assert(v@.skip(i as int).drop_first() == v@.skip(i + 1));
        if v[i] == '\n' {
            let end = if i > start && v[i - 1] == '\r' { i - 1 } else { i };
            let line = string_from_chars(&v, start, end);
            assert(line@ == strip_cr(cur));
            let ghost old_r = r.deep_view();
            r.push(line);
            assert(r.deep_view() == old_r.push(line@));
            assert(v@.subrange(i + 1, i + 1) == Seq::<char>::empty());
            assert(old_r + lines_from(cur, v@.skip(i as int)) == r.deep_view() + lines_from(
                Seq::<char>::empty(),
                v@.skip(i + 1),
            ));
            start = i + 1;
        } else {
            assert(cur.push(v@[i as int]) == v@.subrange(start as int, i + 1));
        }
        i = i + 1;
    }
    assert(v@.skip(n as int) == Seq::<char>::empty());
    if start < n {
        let line = string_from_chars(&v, start, n);
        let ghost old_r = r.deep_view();
        r.push(line);
        assert(r.deep_view() == old_r.push(line@));
    }
    r
}


/// The pieces of `cur + rest` between occurrences of `"\n\n"`, found left to
/// right without overlap, where `cur` is the unfinished piece read so far;
/// empty pieces are kept. This is what `str::split("\n\n")` yields.
pub open spec fn paragraphs_from(cur: Seq<char>, rest: Seq<char>) -> Seq<Seq<char>>
    decreases rest.len(),
{
    if rest.len() == 0 {
        seq![cur]
    } else if rest.len() >= 2 && rest[0] == '\n' && rest[1] == '\n' {
        seq![cur] + paragraphs_from(seq![], rest.skip(2))
    } else {
        paragraphs_from(cur.push(rest[0]), rest.drop_first())
    }
}

/// The pieces of `s` between blank-line separators `"\n\n"`.
pub open spec fn spec_paragraphs(s: Seq<char>) -> Seq<Seq<char>> {
    paragraphs_from(seq![], s)
}

proof fn lemma_paragraphs_nonempty(cur: Seq<char>, rest: Seq<char>)
    ensures
        paragraphs_from(cur, rest).len() >= 1,
    decreases rest.len(),
{
    if rest.len() == 0 {
    } else if rest.len() >= 2 && rest[0] == '\n' && rest[1] == '\n' {
        lemma_paragraphs_nonempty(seq![], rest.skip(2));
    } else {
        lemma_paragraphs_nonempty(cur.push(rest[0]), rest.drop_first());
    }
}

/// Splitting always gives at least one piece.
pub proof fn lemma_paragraphs_len(s: Seq<char>)
    ensures
        spec_paragraphs(s).len() >= 1,
{
    lemma_paragraphs_nonempty(seq![], s);
}

/// Splits `s` at each `"\n\n"`, as `str::split("\n\n")` does.
pub fn split_paragraphs(s: &str) -> (r: Vec<String>)
    ensures
        r.deep_view() == spec_paragraphs(s@),
        r@.len() >= 1,
{
    proof { lemma_paragraphs_len(s@); }
    let v = to_chars(s);
    let n = v.len();
    let mut r: Vec<String> = Vec::new();
    let mut start: usize = 0;
    let mut i: usize = 0;
    assert(v@.skip(0) == v@);
    assert(v@.subrange(0, 0) == Seq::<char>::empty());
    assert(r.deep_view() + spec_paragraphs(s@) == spec_paragraphs(s@));
    while i < n
        invariant
            v@ == s@,
            n == v@.len(),
            start <= i <= n,
            r.deep_view() + paragraphs_from(v@.subrange(start as int, i as int), v@.skip(i as int))
                == spec_paragraphs(s@),
        decreases n - i,
    {
        let ghost cur = v@.subrange(start as int, i as int);
        let ghost rest = v@.skip(i as int);
        assert(rest[0] == v@[i as int]);
        if i + 1 < n && v[i] == '\n' && v[i + 1] == '\n' {
            assert(rest[1] == v@[i + 1]);
            assert(rest.skip(2) == v@.skip(i + 2));
            let piece = string_from_chars(&v, start, i);
            let ghost old_r = r.deep_view();
            r.push(piece);
            assert(r.deep_view() == old_r.push(piece@));
            assert(v@.subrange(i + 2, i + 2) == Seq::<char>::empty());
            assert(old_r + paragraphs_from(cur, rest) == r.deep_view() + paragraphs_from(
                Seq::<char>::empty(),
                v@.skip(i + 2),
            ));
            start = i + 2;
            i = i + 2;
        } else {
            assert(rest.drop_first() == v@.skip(i + 1));
            assert(cur.push(v@[i as int]) == v@.subrange(start as int, i + 1));
            i = i + 1;
        }
    }
    assert(v@.skip(n as int) == Seq::<char>::empty());
    let piece = string_from_chars(&v, start, n);
    let ghost old_r = r.deep_view();
    r.push(piece);
    assert(r.deep_view() == old_r.push(piece@));
    r
}

/// Whether `c` is one of the directional isolation marks (U+2068, U+2069)
/// that message formatting puts around inserted values.
pub open spec fn is_isolation_mark(c: char) -> bool {
    c == '\u{2068}' || c == '\u{2069}'
}

/// `s` without its isolation marks.
pub open spec fn strip_isolation(s: Seq<char>) -> Seq<char>
    decreases s.len(),
{
    if s.len() == 0 {
        s
    } else if is_isolation_mark(s.last()) {
        strip_isolation(s.drop_last())
    } else {
        strip_isolation(s.drop_last()).push(s.last())
    }
}

/// Removes the isolation marks from `s`, keeping every other character in
/// order.
pub fn remove_isolation_marks(s: &str) -> (r: String)
    ensures
        r@ == strip_isolation(s@),
{
    let v = to_chars(s);
    let n = v.len();
    let mut r = String::new();
    let mut i: usize = 0;
    assert(v@.take(0) == Seq::<char>::empty());
    while i < n
        invariant
            v@ == s@,
            n == v@.len(),
            i <= n,
            r@ == strip_isolation(v@.take(i as int)),
        decreases n - i,
    {
        assert(v@.take(i + 1).drop_last() == v@.take(i as int));
        assert(v@.take(i + 1).last() == v@[i as int]);
        let c = v[i];
        if c != '\u{2068}' && c != '\u{2069}' {
            push_char(&mut r, c);
        }
        i = i + 1;
    }
    assert(v@.take(n as int) == v@);
    r
}

/// Whether `c` is white space (`char::is_whitespace`, after the Unicode
/// `White_Space` property).
pub uninterp spec fn is_white_space(c: char) -> bool;

/// `char::is_whitespace`: the result is named `is_white_space`.
#[verifier::external_body]
pub fn char_is_whitespace(c: char) -> (r: bool)
    ensures
        r == is_white_space(c),
{
    c.is_whitespace()
}

/// Whether `s` holds only white space (so that trimming it leaves nothing).
pub open spec fn is_blank(s: Seq<char>) -> bool {
    forall|i: int| 0 <= i < s.len() ==> is_white_space(#[trigger] s[i])
}

/// Whether `s` holds only white space; `s.trim().is_empty()`.
pub fn blank(s: &str) -> (r: bool)
    ensures
        r == is_blank(s@),
{
    let v = to_chars(s);
    let n = v.len();
    let mut i: usize = 0;
    while i < n
        invariant
            v@ == s@,
            n == v@.len(),
            i <= n,
            forall|j: int| 0 <= j < i ==> is_white_space(#[trigger] v@[j]),
        decreases n - i,
    {
        if !char_is_whitespace(v[i]) {
            return false;
        }
        i = i + 1;
    }
    true
}

} // verus!
