use vstd::prelude::*;
use vstd::string::StrSliceExecFns;

verus! {

/// Whether `c` is white space in the sense of Unicode's `White_Space`
/// property, which is what `char::is_whitespace` tests.
pub open spec fn is_space(c: char) -> bool {
    let u = c as u32;
    ||| 0x09 <= u <= 0x0d
    ||| u == 0x20
    ||| u == 0x85
    ||| u == 0xa0
    ||| u == 0x1680
    ||| 0x2000 <= u <= 0x200a
    ||| u == 0x2028
    ||| u == 0x2029
    ||| u == 0x202f
    ||| u == 0x205f
    ||| u == 0x3000
}

pub fn is_space_char(c: char) -> (r: bool)
    ensures
        r == is_space(c),
{
    let u = c as u32;
    (0x09 <= u && u <= 0x0d) || u == 0x20 || u == 0x85 || u == 0xa0 || u == 0x1680 || (0x2000
        <= u && u <= 0x200a) || u == 0x2028 || u == 0x2029 || u == 0x202f || u == 0x205f || u
        == 0x3000
}

} // verus!

verus! {

/// The first position at or after `i` that does not hold white space.
pub open spec fn skip_space(s: Seq<char>, i: int) -> int
    decreases s.len() - i,
{
    if 0 <= i < s.len() && is_space(s[i]) {
        skip_space(s, i + 1)
    } else {
        i
    }
}

/// The first position at or after `i` that holds white space, or the end.
pub open spec fn word_end(s: Seq<char>, i: int) -> int
    decreases s.len() - i,
{
    if 0 <= i < s.len() && !is_space(s[i]) {
        word_end(s, i + 1)
    } else {
        i
    }
}

/// Where the `k`-th whitespace-separated word of `s` begins (`s.len()` when
/// `s` has fewer words).
pub open spec fn word_start(s: Seq<char>, k: nat) -> int
    decreases k,
{
    if k == 0 {
        skip_space(s, 0)
    } else {
        skip_space(s, word_end(s, word_start(s, (k - 1) as nat)))
    }
}

/// Whether `s` has at least `k + 1` words.
pub open spec fn has_word(s: Seq<char>, k: nat) -> bool {
    word_start(s, k) < s.len()
}

/// The `k`-th word of `s`, as `str::split_whitespace` yields it.
pub open spec fn word(s: Seq<char>, k: nat) -> Seq<char> {
    s.subrange(word_start(s, k), word_end(s, word_start(s, k)))
}

/// Copies the characters of `s` into a vector.
pub fn chars_of(s: &str) -> (v: Vec<char>)
    ensures
        v@ == s@,
{
    let n = s.unicode_len();
    let mut v: Vec<char> = Vec::new();
    let mut i: usize = 0;
    while i < n
        invariant
            n == s@.len(),
            i <= n,
            v@ == s@.subrange(0, i as int),
        decreases n - i,
    {
        v.push(s.get_char(i));
        i = i + 1;
    }
    assert(v@ =~= s@);
    v
}

/// The first position at or after `i` that does not hold white space.
pub fn skip_space_from(s: &Vec<char>, i: usize) -> (r: usize)
    requires
        i <= s@.len(),
    ensures
        r as int == skip_space(s@, i as int),
        i <= r <= s@.len(),
{
    let mut j = i;
    while j < s.len() && is_space_char(s[j])
        invariant
            i <= j <= s@.len(),
            skip_space(s@, j as int) == skip_space(s@, i as int),
        decreases s@.len() - j,
    {
        j = j + 1;
    }
    j
}

/// The first position at or after `i` that holds white space, or the end.
pub fn word_end_from(s: &Vec<char>, i: usize) -> (r: usize)
    requires
        i <= s@.len(),
    ensures
        r as int == word_end(s@, i as int),
        i <= r <= s@.len(),
{
    let mut j = i;
    while j < s.len() && !is_space_char(s[j])
        invariant
            i <= j <= s@.len(),
            word_end(s@, j as int) == word_end(s@, i as int),
        decreases s@.len() - j,
    {
        j = j + 1;
    }
    j
}

/// The bounds of the word that follows the word ending at `prev_end`
/// (`prev_end == 0` and `k == 0` for the first word).
pub fn next_word(s: &Vec<char>, prev_end: usize, Ghost(k): Ghost<nat>) -> (r: (usize, usize))
    requires
        prev_end <= s@.len(),
        k == 0 ==> prev_end == 0,
        k > 0 ==> prev_end as int == word_end(s@, word_start(s@, (k - 1) as nat)),
    ensures
        r.0 as int == word_start(s@, k),
        r.1 as int == word_end(s@, word_start(s@, k)),
        r.0 <= r.1 <= s@.len(),
{
    let start = skip_space_from(s, prev_end);
    let end = word_end_from(s, start);
    (start, end)
}

/// A character's code with ASCII capitals brought to lower case.
pub open spec fn fold_ascii(c: char) -> int {
    let u = c as u32;
    if 0x41 <= u <= 0x5a {
        u + 0x20
    } else {
        u as int
    }
}

/// Whether `w` spells `kw` (given in lower case) up to ASCII case.
pub open spec fn same_word_ci(w: Seq<char>, kw: Seq<char>) -> bool {
    &&& w.len() == kw.len()
    &&& forall|i: int| 0 <= i < w.len() ==> #[trigger] fold_ascii(w[i]) == kw[i] as u32
}

/// Whether `s[start..end]` spells the four letters `kw` up to ASCII case.
pub fn span_is_ci(s: &Vec<char>, start: usize, end: usize, kw: [char; 4]) -> (r: bool)
    requires
        start <= end <= s@.len(),
    ensures
        r == same_word_ci(s@.subrange(start as int, end as int), kw@),
{
    if end - start != 4 {
        return false;
    }
    let mut i: usize = 0;
    while i < 4
        invariant
            end - start == 4,
            start <= end <= s@.len(),
            i <= 4,
            forall|j: int|
                0 <= j < i ==> #[trigger] fold_ascii(s@[start + j]) == kw@[j] as u32,
        decreases 4 - i,
    {
        let u = s[start + i] as u32;
        let f = if 0x41 <= u && u <= 0x5a {
            u + 0x20
        } else {
            u
        };
        if f != kw[i] as u32 {
            assert(fold_ascii(s@.subrange(start as int, end as int)[i as int]) != kw@[i as int]
                as u32);
            return false;
        }
        i = i + 1;
    }
    assert forall|j: int| 0 <= j < 4 implies #[trigger] fold_ascii(
        s@.subrange(start as int, end as int)[j],
    ) == kw@[j] as u32 by {
        assert(s@.subrange(start as int, end as int)[j] == s@[start + j]);
    }
    true
}

/// Whether `w` begins with `p`.
pub open spec fn has_prefix(w: Seq<char>, p: Seq<char>) -> bool {
    p.len() <= w.len() && w.subrange(0, p.len() as int) == p
}

/// Whether `s[start..end]` begins with `p`.
pub fn span_has_prefix(s: &Vec<char>, start: usize, end: usize, p: &Vec<char>) -> (r: bool)
    requires
        start <= end <= s@.len(),
    ensures
        r == has_prefix(s@.subrange(start as int, end as int), p@),
{
    let ghost w = s@.subrange(start as int, end as int);
    if p.len() > end - start {
        return false;
    }
    let mut i: usize = 0;
    while i < p.len()
        invariant
            p@.len() <= end - start,
            start <= end <= s@.len(),
            w == s@.subrange(start as int, end as int),
            i <= p@.len(),
            forall|j: int| 0 <= j < i ==> s@[start + j] == p@[j],
        decreases p@.len() - i,
    {
        if s[start + i] != p[i] {
            assert(w.subrange(0, p@.len() as int)[i as int] != p@[i as int]);
            return false;
        }
        i = i + 1;
    }
    assert(w.subrange(0, p@.len() as int) =~= p@);
    true
}

/// Whether `s` ends with `t`.
pub open spec fn has_suffix(s: Seq<char>, t: Seq<char>) -> bool {
    t.len() <= s.len() && s.subrange(s.len() - t.len(), s.len() as int) == t
}

/// Whether `s` ends with `t`.
pub fn ends_with_chars(s: &Vec<char>, t: &Vec<char>) -> (r: bool)
    ensures
        r == has_suffix(s@, t@),
{
    if t.len() > s.len() {
        return false;
    }
    let off = s.len() - t.len();
    let mut i: usize = 0;
    while i < t.len()
        invariant
            t@.len() <= s@.len(),
            off + t@.len() == s@.len(),
            s@.len() <= usize::MAX,
            i <= t@.len(),
            forall|j: int| 0 <= j < i ==> s@[off + j] == t@[j],
        decreases t@.len() - i,
    {
        if s[off + i] != t[i] {
            assert(s@.subrange(off as int, s@.len() as int)[i as int] != t@[i as int]);
            return false;
        }
        i = i + 1;
    }
    assert(s@.subrange(off as int, s@.len() as int) =~= t@);
    true
}

} // verus!
