use vstd::prelude::*;

verus! {

/// `pat` stands in `s` at position `i`.
pub open spec fn occurs_at(s: Seq<char>, pat: Seq<char>, i: int) -> bool {
    0 <= i && i + pat.len() <= s.len() && s.subrange(i, i + pat.len()) == pat
}

/// `pat` stands somewhere in `s`.
pub open spec fn contains(s: Seq<char>, pat: Seq<char>) -> bool {
    exists|i: int| occurs_at(s, pat, i)
}

/// `pat` stands in `s` at position `i`, with a separator (or an end of `s`)
/// right before it and right after it.
pub open spec fn bounded_at(s: Seq<char>, pat: Seq<char>, sep: Seq<char>, i: int) -> bool {
    &&& occurs_at(s, pat, i)
    &&& (i == 0 || occurs_at(s, sep, i - sep.len()))
    &&& (i + pat.len() == s.len() || occurs_at(s, sep, i + pat.len()))
}

/// `pat` stands in `s` as a whole run of path segments.
pub open spec fn contains_segments(s: Seq<char>, pat: Seq<char>, sep: Seq<char>) -> bool {
    exists|i: int| bounded_at(s, pat, sep, i)
}

/// `s` ends with `suffix`.
pub open spec fn ends_with(s: Seq<char>, suffix: Seq<char>) -> bool {
    suffix.len() <= s.len() && s.subrange(s.len() - suffix.len(), s.len() as int) == suffix
}

/// `seg` appended to the path `base` as a further segment: a separator is
/// put between the two unless `base` is empty or already ends with one.
pub open spec fn join(base: Seq<char>, seg: Seq<char>, sep: Seq<char>) -> Seq<char> {
    if base.len() == 0 || ends_with(base, sep) {
        base + seg
    } else {
        base + sep + seg
    }
}

/// The characters of `s`, one by one.
pub fn chars_of(s: &str) -> (r: Vec<char>)
    ensures
        r@ == s@,
{
    let n = s.unicode_len();
    let mut r: Vec<char> = Vec::new();
    let mut i: usize = 0;
    while i < n
        invariant
            n == s@.len(),
            i <= n,
            r@ == s@.subrange(0, i as int),
        decreases n - i,
    {
        r.push(s.get_char(i));
        i = i + 1;
    }
    assert(r@ =~= s@);
    r
}

/// Whether `pat` stands in `s` at position `i`.
pub fn occurs_at_exec(s: &Vec<char>, pat: &Vec<char>, i: usize) -> (r: bool)
    ensures
        r == occurs_at(s@, pat@, i as int),
{
    if i > s.len() || pat.len() > s.len() - i {
        return false;
    }
    let mut j: usize = 0;
    while j < pat.len()
        invariant
            i + pat@.len() <= s@.len() <= usize::MAX,
            j <= pat@.len(),
            forall|k: int| 0 <= k < j ==> s@[i + k] == pat@[k],
        decreases pat@.len() - j,
    {
        if s[i + j] != pat[j] {
            assert(s@.subrange(i as int, i + pat@.len())[j as int] != pat@[j as int]);
            return false;
        }
        j = j + 1;
    }
    assert(s@.subrange(i as int, i + pat@.len()) =~= pat@);
    true
}

/// Whether `pat` stands anywhere in `s`.
pub fn contains_exec(s: &Vec<char>, pat: &Vec<char>) -> (r: bool)
    ensures
        r == contains(s@, pat@),
{
    if pat.len() > s.len() {
        return false;
    }
    let last = s.len() - pat.len();
    let mut i: usize = 0;
    while i < last
        invariant
            i <= last,
            last == s@.len() - pat@.len(),
            forall|j: int| 0 <= j < i ==> !occurs_at(s@, pat@, j),
        decreases last - i,
    {
        if occurs_at_exec(s, pat, i) {
            return true;
        }
        i = i + 1;
    }
    let r = occurs_at_exec(s, pat, last);
    if !r {
        assert forall|j: int| !occurs_at(s@, pat@, j) by {
            if j > last {
                assert(!(j + pat@.len() <= s@.len()));
            }
        }
    }
    r
}

/// Whether `s` holds `pat` at `i` bounded by separators, as [`bounded_at`] states.
fn bounded_at_exec(s: &Vec<char>, pat: &Vec<char>, sep: &Vec<char>, i: usize) -> (r: bool)
    ensures
        r == bounded_at(s@, pat@, sep@, i as int),
{
    if !occurs_at_exec(s, pat, i) {
        return false;
    }
    let n = s.len();
    let before = i == 0 || (i >= sep.len() && occurs_at_exec(s, sep, i - sep.len()));
    let end = i + pat.len();
    let after = end == n || occurs_at_exec(s, sep, end);
    before && after
}

/// Whether `pat` stands in `s` as a whole run of segments separated by `sep`.
pub fn contains_segments_exec(s: &Vec<char>, pat: &Vec<char>, sep: &Vec<char>) -> (r: bool)
    ensures
        r == contains_segments(s@, pat@, sep@),
{
    if pat.len() > s.len() {
        return false;
    }
    let last = s.len() - pat.len();
    let mut i: usize = 0;
    while i < last
        invariant
            i <= last,
            last == s@.len() - pat@.len(),
            forall|j: int| 0 <= j < i ==> !bounded_at(s@, pat@, sep@, j),
        decreases last - i,
    {
        if bounded_at_exec(s, pat, sep, i) {
            return true;
        }
        i = i + 1;
    }
    let r = bounded_at_exec(s, pat, sep, last);
    if !r {
        assert forall|j: int| !bounded_at(s@, pat@, sep@, j) by {
            if j > last {
                assert(!(j + pat@.len() <= s@.len()));
            }
        }
    }
    r
}

/// Whether `s` ends with `suffix`.
pub fn ends_with_exec(s: &Vec<char>, suffix: &Vec<char>) -> (r: bool)
    ensures
        r == ends_with(s@, suffix@),
{
    if suffix.len() > s.len() {
        return false;
    }
    occurs_at_exec(s, suffix, s.len() - suffix.len())
}

/// Appends the segment `seg` to the path `base`, as [`join`] states.
pub fn join_segment(base: &str, seg: &str, sep: &str) -> (r: String)
    ensures
        r@ == join(base@, seg@, sep@),
{
    let b = chars_of(base);
    let s = chars_of(sep);
    let mut r = String::from_str(base);
    if b.len() != 0 && !ends_with_exec(&b, &s) {
        r.append(sep);
    }
    r.append(seg);
    r
}

} // verus!
