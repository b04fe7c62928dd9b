//! The message log shown at the bottom of the game screen.
use vstd::prelude::*;
use crate::geom::Rect;

verus! {

/// The most lines the log window keeps.
pub const MAX_LINES: usize = 20;

/// The last `n` of `s` (all of `s` when it is shorter).
pub open spec fn last_n<T>(s: Seq<T>, n: nat) -> Seq<T> {
    if s.len() <= n { s } else { s.skip(s.len() - n) }
}

/// The lines kept for the log window, of type `T`.
pub struct LineCache<T> {
    lines: Vec<T>,
    latest_line: usize,
}

impl<T> LineCache<T> {
    /// The lines kept, oldest first.
    pub closed spec fn kept(&self) -> Seq<T> {
        self.lines@
    }

    /// The number of log lines read so far.
    pub closed spec fn read_up_to(&self) -> nat {
        self.latest_line as nat
    }

    /// No line kept, none read.
    pub fn new() -> (c: LineCache<T>)
        ensures
            c.kept() == Seq::<T>::empty(),
            c.read_up_to() == 0,
    {
        LineCache { lines: Vec::new(), latest_line: 0 }
    }

    /// Appends one line, dropping the oldest beyond the limit.
    pub fn append(&mut self, line: T)
        requires
            old(self).kept().len() <= MAX_LINES,
        ensures
            final(self).kept() == last_n(old(self).kept().push(line), MAX_LINES as nat),
            final(self).read_up_to() == old(self).read_up_to(),
    {
        self.lines.push(line);
        if self.lines.len() > MAX_LINES {
            let ghost before = self.lines@;
            self.lines.remove(0);
            assert(self.lines@ =~= before.skip(1));
        }
    }

    /// Appends the log lines read since the last update (`new_lines`), and
    /// records that the log has `latest` lines now.
    pub fn update(&mut self, new_lines: Vec<T>, latest: usize)
        requires
            old(self).kept().len() <= MAX_LINES,
        ensures
            final(self).kept() == last_n(old(self).kept() + new_lines@, MAX_LINES as nat),
            final(self).read_up_to() == latest,
    {
        let mut new_lines = new_lines;
        let ghost all_new = new_lines@;
        let ghost n = all_new.len();
        let ghost start = self.lines@;
        let ghost mut k: int = 0;
        assert(all_new.take(0) == Seq::<T>::empty());
        assert(start + all_new.take(0) =~= start);
        while new_lines.len() > 0
            invariant
                new_lines@ == all_new.skip(k as int),
                n == all_new.len(),
                0 <= k <= n,
                self.lines@.len() <= MAX_LINES,
                self.lines@ == last_n(start + all_new.take(k as int), MAX_LINES as nat),
                start.len() <= MAX_LINES,
            decreases new_lines@.len(),
        {
            let ghost prev = new_lines@;
            assert(prev[0] == all_new[k as int]);
            let line = new_lines.remove(0);
            proof {
                assert(new_lines@ =~= all_new.skip(k + 1));
                lemma_last_n_push(start + all_new.take(k as int), line, MAX_LINES as nat);
                assert((start + all_new.take(k as int)).push(line) =~= start + all_new.take(k + 1));
            }
            self.append(line);
            proof { k = k + 1; }
        }
        assert(all_new.take(k as int) =~= all_new);
        self.latest_line = latest;
    }

    /// The number of lines kept.
    pub fn len(&self) -> (r: usize)
        ensures
            r == self.kept().len(),
    {
        self.lines.len()
    }

    /// The line at position `i`, oldest first.
    pub fn get(&self, i: usize) -> (r: &T)
        requires
            i < self.kept().len(),
        ensures
            *r == self.kept()[i as int],
    {
        &self.lines[i]
    }
}

/// Keeping the last `n` after appending one equals appending one to the
/// last `n` and keeping the last `n` of that.
pub proof fn lemma_last_n_push<T>(s: Seq<T>, x: T, n: nat)
    requires
        n > 0,
    ensures
        last_n(last_n(s, n).push(x), n) == last_n(s.push(x), n),
{
    if s.len() <= n {
    } else {
        assert(last_n(s, n).push(x) =~= s.push(x).skip(s.len() - n));
        assert(last_n(s.push(x).skip(s.len() - n), n) =~= last_n(s.push(x), n));
    }
}

/// The log window keeps the last lines of the log, in order: after any
/// updates from an empty cache it holds the last `MAX_LINES` lines of all
/// lines appended.
pub proof fn law_log_keeps_last_lines<T>(a: Seq<T>, b: Seq<T>)
    ensures
        last_n(last_n(a, MAX_LINES as nat) + b, MAX_LINES as nat) == last_n(a + b, MAX_LINES as nat),
    decreases b.len(),
{
    if b.len() == 0 {
        assert(last_n(a, MAX_LINES as nat) + b =~= last_n(a, MAX_LINES as nat));
        assert(a + b =~= a);
        if a.len() > MAX_LINES {
            assert(last_n(last_n(a, MAX_LINES as nat), MAX_LINES as nat) =~= last_n(a, MAX_LINES as nat));
        }
    } else {
        let b0 = b.drop_last();
        let x = b.last();
        law_log_keeps_last_lines(a, b0);
        assert(last_n(a, MAX_LINES as nat) + b =~= (last_n(a, MAX_LINES as nat) + b0).push(x));
        assert(a + b =~= (a + b0).push(x));
        lemma_last_n_push(last_n(a, MAX_LINES as nat) + b0, x, MAX_LINES as nat);
        lemma_last_n_push(a + b0, x, MAX_LINES as nat);
    }
}

/// The range of kept lines shown when `n_display` lines fit: the last
/// `n_display` of the `len` lines.
pub fn display_range(len: usize, n_display: usize) -> (r: (usize, usize))
    ensures
        r.1 == len,
        r.0 == (if len > n_display { len - n_display } else { 0 }),
{
    let start = if len > n_display { len - n_display } else { 0 };
    (start, len)
}


/// The log window at the bottom of the screen, with the lines it keeps.
pub struct LogWindow<T> {
    pub rect: Rect,
    pub line_cache: LineCache<T>,
}

impl<T> LogWindow<T> {
    /// The log window at `rect`, with no line yet.
    pub fn new(rect: Rect) -> (w: LogWindow<T>)
        ensures
            w.rect == rect,
            w.line_cache.kept() == Seq::<T>::empty(),
            w.line_cache.read_up_to() == 0,
    {
        LogWindow { rect, line_cache: LineCache::new() }
    }

    /// The lines shown, where `n_display` lines of height `dy` fit: the
    /// last `n_display` kept lines, each with its position among the kept
    /// lines and its y in the window (from the top, one line after
    /// another).
    pub fn line_positions(&self, n_display: usize, dy: i32) -> (r: Vec<(usize, i32)>)
        requires
            0 <= dy,
            dy * n_display <= i32::MAX,
        ensures
            r@.len() == self.line_cache.kept().len() - display_range_start(self.line_cache.kept().len() as int, n_display as int),
            forall|i: int| 0 <= i < r@.len() ==>
                (#[trigger] r@[i]).0 == display_range_start(self.line_cache.kept().len() as int, n_display as int) + i
                && r@[i].1 == dy * i,
    {
        let (start, end) = display_range(self.line_cache.len(), n_display);
        let mut r: Vec<(usize, i32)> = Vec::new();
        let mut k: usize = start;
        let mut y: i32 = 0;
        while k < end
            invariant
                start <= k <= end,
                end == self.line_cache.kept().len(),
                start == display_range_start(end as int, n_display as int),
                end - start <= n_display,
                0 <= dy,
                dy * n_display <= i32::MAX,
                y == dy * (k - start),
                r@.len() == k - start,
                forall|i: int| 0 <= i < r@.len() ==> (#[trigger] r@[i]).0 == start + i && r@[i].1 == dy * i,
            decreases end - k,
        {
            r.push((k, y));
            let ghost j: int = (k - start) as int;
            let ghost n: int = n_display as int;
            let ghost d: int = dy as int;
            assert(d * (j + 1) <= d * n && d * (j + 1) == d * j + d) by (nonlinear_arith)
                requires 0 <= j, j + 1 <= n, 0 <= d;
            y = y + dy;
            k = k + 1;
        }
        r
    }
}

/// The first of the last `n_display` of `len` lines.
pub open spec fn display_range_start(len: int, n_display: int) -> int {
    if len > n_display { len - n_display } else { 0 }
}


/// The log window never keeps more than `MAX_LINES` lines.
pub proof fn law_log_bounded<T>(s: Seq<T>)
    ensures
        last_n(s, MAX_LINES as nat).len() <= MAX_LINES,
{
}

} // verus!
