//! Character-level string utilities used throughout the library.
//!
//! Strings are modelled by their view, a `Seq<char>`; every operation here is
//! specified over that view.
use vstd::prelude::*;

verus! {

// ---------------------------------------------------------------------------
// Specifications
// ---------------------------------------------------------------------------

/// Unicode `White_Space`: the characters that `str::trim` removes.
pub open spec fn is_ws(c: char) -> bool {
    let u = c as u32;
    ||| 0x09 <= u <= 0x0D
    ||| u == 0x20
    ||| u == 0x85
    ||| u == 0xA0
    ||| u == 0x1680
    ||| 0x2000 <= u <= 0x200A
    ||| u == 0x2028
    ||| u == 0x2029
    ||| u == 0x202F
    ||| u == 0x205F
    ||| u == 0x3000
}

/// `s` without its leading white space.
pub open spec fn trim_start(s: Seq<char>) -> Seq<char>
    decreases s.len(),
{
    if s.len() > 0 && is_ws(s[0]) {
        trim_start(s.drop_first())
    } else {
        s
    }
}

/// `s` without its trailing white space.
pub open spec fn trim_end(s: Seq<char>) -> Seq<char>
    decreases s.len(),
{
    if s.len() > 0 && is_ws(s.last()) {
        trim_end(s.drop_last())
    } else {
        s
    }
}

/// `s` without leading and trailing white space.
pub open spec fn trim(s: Seq<char>) -> Seq<char> {
    trim_end(trim_start(s))
}

/// Every character of `s` is white space.
pub open spec fn all_ws(s: Seq<char>) -> bool {
    forall|i: int| 0 <= i < s.len() ==> is_ws(#[trigger] s[i])
}

/// `p` is a prefix of `s`.
pub open spec fn has_prefix(s: Seq<char>, p: Seq<char>) -> bool {
    p.len() <= s.len() && s.subrange(0, p.len() as int) == p
}

/// `p` is a suffix of `s`.
pub open spec fn has_suffix(s: Seq<char>, p: Seq<char>) -> bool {
    p.len() <= s.len() && s.subrange(s.len() - p.len(), s.len() as int) == p
}

/// `n` occurs in `s` starting at position `i`.
pub open spec fn occurs_at(s: Seq<char>, n: Seq<char>, i: int) -> bool {
    0 <= i && i + n.len() <= s.len() && s.subrange(i, i + n.len()) == n
}

/// `n` occurs somewhere in `s` (the empty sequence occurs everywhere).
pub open spec fn contains(s: Seq<char>, n: Seq<char>) -> bool {
    exists|i: int| occurs_at(s, n, i)
}

/// ASCII lower-casing of one character; other characters are unchanged.
pub open spec fn ascii_lower(c: char) -> char {
    if 'A' <= c <= 'Z' {
        ((c as u32) + 32) as char
    } else {
        c
    }
}

/// ASCII upper-casing of one character; other characters are unchanged.
pub open spec fn ascii_upper(c: char) -> char {
    if 'a' <= c <= 'z' {
        ((c as u32) - 32) as char
    } else {
        c
    }
}

/// ASCII lower-casing of a whole sequence (`str::to_ascii_lowercase`).
pub open spec fn ascii_lowercase(s: Seq<char>) -> Seq<char> {
    s.map_values(|c: char| ascii_lower(c))
}

/// ASCII upper-casing of a whole sequence (`str::to_ascii_uppercase`).
pub open spec fn ascii_uppercase(s: Seq<char>) -> Seq<char> {
    s.map_values(|c: char| ascii_upper(c))
}

/// The parts joined with `sep` between consecutive parts.
pub open spec fn join(parts: Seq<Seq<char>>, sep: Seq<char>) -> Seq<char>
    decreases parts.len(),
{
    if parts.len() == 0 {
        Seq::empty()
    } else if parts.len() == 1 {
        parts[0]
    } else {
        join(parts.drop_last(), sep) + sep + parts.last()
    }
}

/// `parts` is the result of splitting `s` at every occurrence of `sep`.
pub open spec fn is_split(s: Seq<char>, sep: char, parts: Seq<Seq<char>>) -> bool {
    &&& parts.len() >= 1
    &&& join(parts, seq![sep]) == s
    &&& forall|i: int| 0 <= i < parts.len() ==> !(#[trigger] parts[i]).contains(sep)
}

/// Splitting `s` at every occurrence of `sep` (`str::split` with a character
/// pattern): there is always at least one part.
pub open spec fn split(s: Seq<char>, sep: char) -> Seq<Seq<char>>
    decreases s.len(),
{
    if s.len() == 0 {
        seq![Seq::<char>::empty()]
    } else {
        let rest = split(s.drop_last(), sep);
        if s.last() == sep {
            rest.push(Seq::<char>::empty())
        } else {
            rest.update(rest.len() - 1, rest.last().push(s.last()))
        }
    }
}

/// `split` always yields at least one part.
pub proof fn lemma_split_nonempty(s: Seq<char>, sep: char)
    ensures
        split(s, sep).len() >= 1,
    decreases s.len(),
{
    if s.len() > 0 {
        lemma_split_nonempty(s.drop_last(), sep);
    }
}

/// A text without the separator splits into itself alone.
pub proof fn lemma_split_without_sep(s: Seq<char>, sep: char)
    requires
        !s.contains(sep),
    ensures
        split(s, sep) == seq![s],
    decreases s.len(),
{
    if s.len() > 0 {
        assert(!s.drop_last().contains(sep)) by {
            if s.drop_last().contains(sep) {
                let k = choose|k: int| 0 <= k < s.drop_last().len() && s.drop_last()[k] == sep;
                assert(s[k] == sep);
            }
        }
        lemma_split_without_sep(s.drop_last(), sep);
        assert(s.last() != sep) by {
            assert(s[s.len() - 1] == s.last());
        }
        assert(s.drop_last().push(s.last()) =~= s);
        let rest = split(s.drop_last(), sep);
        assert(rest.update(rest.len() - 1, rest.last().push(s.last())) =~= seq![s]);
    } else {
        assert(s =~= Seq::<char>::empty());
    }
}

/// Splitting `a`, the separator and a part `b` without it gives the parts of
/// `a` followed by `b`.
pub proof fn lemma_split_then_part(a: Seq<char>, b: Seq<char>, sep: char)
    requires
        !b.contains(sep),
    ensures
        split(a + seq![sep] + b, sep) == split(a, sep).push(b),
    decreases b.len(),
{
    let s = a + seq![sep] + b;
    if b.len() == 0 {
        assert(s.drop_last() =~= a);
        assert(s.last() == sep);
        assert(b =~= Seq::<char>::empty());
        assert(split(s, sep) == split(s.drop_last(), sep).push(Seq::<char>::empty()));
    } else {
        let b0 = b.drop_last();
        assert(!b0.contains(sep)) by {
            if b0.contains(sep) {
                let k = choose|k: int| 0 <= k < b0.len() && b0[k] == sep;
                assert(b[k] == sep);
            }
        }
        lemma_split_then_part(a, b0, sep);
        assert(s.drop_last() =~= a + seq![sep] + b0);
        assert(s.last() == b.last());
        assert(b.last() != sep) by {
            assert(b[b.len() - 1] == b.last());
        }
        lemma_split_nonempty(a, sep);
        assert(b0.push(b.last()) =~= b);
        let rest = split(s.drop_last(), sep);
        assert(rest == split(a, sep).push(b0));
        assert(rest.update(rest.len() - 1, rest.last().push(s.last())) =~= split(a, sep).push(b));
    }
}

/// Two parts without the separator, joined by it, split back into the two.
pub proof fn lemma_split_two(a: Seq<char>, b: Seq<char>, sep: char)
    requires
        !a.contains(sep),
        !b.contains(sep),
    ensures
        split(a + seq![sep] + b, sep) == seq![a, b],
{
    lemma_split_without_sep(a, sep);
    lemma_split_then_part(a, b, sep);
    assert(seq![a].push(b) =~= seq![a, b]);
}

/// A line without its trailing carriage return, if it has one.
pub open spec fn strip_cr(l: Seq<char>) -> Seq<char> {
    if l.len() > 0 && l.last() == '\r' {
        l.drop_last()
    } else {
        l
    }
}

/// The lines of `s` as `str::lines` yields them: split at `'\n'`, without a
/// final empty piece, each without a trailing `'\r'`.
pub open spec fn lines(s: Seq<char>) -> Seq<Seq<char>> {
    let parts = split(s, '\n');
    let kept = if parts.last().len() == 0 {
        parts.drop_last()
    } else {
        parts
    };
    kept.map_values(|l: Seq<char>| strip_cr(l))
}

/// The decimal digit for `d < 10`.
pub open spec fn digit_char(d: nat) -> char {
    ((d + 48) as u32) as char
}

/// The decimal representation of `n`, without leading zeros.
pub open spec fn decimal(n: nat) -> Seq<char>
    decreases n,
{
    if n < 10 {
        seq![digit_char(n)]
    } else {
        decimal(n / 10).push(digit_char(n % 10))
    }
}


// ---------------------------------------------------------------------------
// Lemmas about trimming
// ---------------------------------------------------------------------------

/// Trimming the front removes exactly the leading white-space run.
pub proof fn lemma_trim_start_at(s: Seq<char>, k: int)
    requires
        0 <= k <= s.len(),
        forall|i: int| 0 <= i < k ==> is_ws(#[trigger] s[i]),
        k == s.len() || !is_ws(s[k]),
    ensures
        trim_start(s) == s.skip(k),
    decreases k,
{
    if k == 0 {
        assert(s.skip(0) =~= s);
    } else {
        assert(is_ws(s[0]));
        let t = s.drop_first();
        assert forall|i: int| 0 <= i < k - 1 implies is_ws(#[trigger] t[i]) by {
            assert(t[i] == s[i + 1]);
        }
        if k - 1 < t.len() {
            assert(t[k - 1] == s[k]);
        }
        lemma_trim_start_at(t, k - 1);
        assert(t.skip(k - 1) =~= s.skip(k));
    }
}

/// Trimming the back removes exactly the trailing white-space run.
pub proof fn lemma_trim_end_at(s: Seq<char>, m: int)
    requires
        0 <= m <= s.len(),
        forall|i: int| m <= i < s.len() ==> is_ws(#[trigger] s[i]),
        m == 0 || !is_ws(s[m - 1]),
    ensures
        trim_end(s) == s.take(m),
    decreases s.len() - m,
{
    if m == s.len() {
        assert(s.take(m) =~= s);
        if s.len() > 0 {
            assert(s.last() == s[m - 1]);
        }
    } else {
        assert(is_ws(s.last()));
        let t = s.drop_last();
        assert forall|i: int| m <= i < t.len() implies is_ws(#[trigger] t[i]) by {
            assert(t[i] == s[i]);
        }
        if m > 0 {
            assert(t[m - 1] == s[m - 1]);
        }
        lemma_trim_end_at(t, m);
        assert(t.take(m) =~= s.take(m));
    }
}

/// The trimmed sequence is empty exactly when every character is white space.
pub proof fn lemma_trim_empty(s: Seq<char>)
    ensures
        (trim(s).len() == 0) == all_ws(s),
{
    let k = first_non_ws(s);
    lemma_first_non_ws(s);
    lemma_trim_start_at(s, k);
    let t = s.skip(k);
    if k == s.len() {
        assert(t.len() == 0);
        lemma_trim_end_at(t, 0);
        assert(all_ws(s));
    } else {
        assert(!is_ws(t[0]));
        let m = last_non_ws_end(t);
        lemma_last_non_ws_end(t);
        lemma_trim_end_at(t, m);
        assert(m >= 1);
        assert(!all_ws(s)) by {
            assert(!is_ws(s[k]));
        }
    }
}

/// The index of the first character of `s` that is not white space, or its length.
pub open spec fn first_non_ws(s: Seq<char>) -> int
    decreases s.len(),
{
    if s.len() == 0 {
        0
    } else if !is_ws(s[0]) {
        0
    } else {
        1 + first_non_ws(s.drop_first())
    }
}

/// One past the last character of `s` that is not white space, or zero.
pub open spec fn last_non_ws_end(s: Seq<char>) -> int
    decreases s.len(),
{
    if s.len() == 0 {
        0
    } else if !is_ws(s.last()) {
        s.len() as int
    } else {
        last_non_ws_end(s.drop_last())
    }
}

pub proof fn lemma_first_non_ws(s: Seq<char>)
    ensures
        0 <= first_non_ws(s) <= s.len(),
        forall|i: int| 0 <= i < first_non_ws(s) ==> is_ws(#[trigger] s[i]),
        first_non_ws(s) == s.len() || !is_ws(s[first_non_ws(s)]),
    decreases s.len(),
{
    if s.len() > 0 && is_ws(s[0]) {
        let t = s.drop_first();
        lemma_first_non_ws(t);
        assert forall|i: int| 0 <= i < first_non_ws(s) implies is_ws(#[trigger] s[i]) by {
            if i > 0 {
                assert(s[i] == t[i - 1]);
            }
        }
        if first_non_ws(s) < s.len() {
            assert(s[first_non_ws(s)] == t[first_non_ws(t)]);
        }
    }
}

pub proof fn lemma_last_non_ws_end(s: Seq<char>)
    ensures
        0 <= last_non_ws_end(s) <= s.len(),
        forall|i: int| last_non_ws_end(s) <= i < s.len() ==> is_ws(#[trigger] s[i]),
        last_non_ws_end(s) == 0 || !is_ws(s[last_non_ws_end(s) - 1]),
    decreases s.len(),
{
    if s.len() > 0 && is_ws(s.last()) {
        let t = s.drop_last();
        lemma_last_non_ws_end(t);
        assert forall|i: int| last_non_ws_end(s) <= i < s.len() implies is_ws(#[trigger] s[i]) by {
            if i < t.len() {
                assert(s[i] == t[i]);
            }
        }
        if last_non_ws_end(s) > 0 {
            assert(s[last_non_ws_end(s) - 1] == t[last_non_ws_end(t) - 1]);
        }
    }
}

/// `trim` is the middle part between the leading and the trailing white space.
pub proof fn lemma_trim_is_subrange(s: Seq<char>)
    ensures
        trim(s) == s.subrange(first_non_ws(s), first_non_ws(s) + last_non_ws_end(
            s.skip(first_non_ws(s)),
        )),
{
    let k = first_non_ws(s);
    lemma_first_non_ws(s);
    lemma_trim_start_at(s, k);
    let t = s.skip(k);
    lemma_last_non_ws_end(t);
    let m = last_non_ws_end(t);
    lemma_trim_end_at(t, m);
    assert(t.take(m) =~= s.subrange(k, k + m));
}

// ---------------------------------------------------------------------------
// Trusted items
// ---------------------------------------------------------------------------

/// Unicode lower-casing of a whole string, as `str::to_lowercase` computes it
/// (the Unicode `Lowercase` mapping, which can change the length).
pub uninterp spec fn unicode_lowercase(s: Seq<char>) -> Seq<char>;

/// Calls `str::to_lowercase`. The contract claims only that the result is the
/// Unicode lower-casing of the argument, a function of the argument alone.
#[verifier::external_body]
pub(crate) fn to_lowercase(s: &str) -> (r: String)
    ensures
        r@ == unicode_lowercase(s@),
{
    s.to_lowercase()
}

/// Calls `String::push`: the character is appended at the end.
#[verifier::external_body]
pub(crate) fn push_char(s: &mut String, c: char)
    ensures
        final(s)@ == old(s)@.push(c),
{
    s.push(c);
}

// ---------------------------------------------------------------------------
// Executable functions
// ---------------------------------------------------------------------------

/// The characters of a string slice, in order.
pub fn chars_of(s: &str) -> (v: Vec<char>)
    ensures
        v@ == s@,
{
    let mut v: Vec<char> = Vec::new();
    for c in it: s.chars()
        invariant
            v@ == it.seq().take(it.index() as int),
    {
        v.push(c);
    }
    v
}

/// A `String` holding exactly the given characters.
pub fn string_from(v: &[char]) -> (s: String)
    ensures
        s@ == v@,
{
    let mut s = String::new();
    let mut i: usize = 0;
    while i < v.len()
        invariant
            i <= v@.len(),
            s@ == v@.take(i as int),
        decreases v@.len() - i,
    {
        push_char(&mut s, v[i]);
        i = i + 1;
        assert(v@.take(i as int) == v@.take((i - 1) as int).push(v@[i - 1]));
    }
    assert(v@.take(v@.len() as int) == v@);
    s
}

/// Appends the characters of `v` to `s`.
pub fn push_chars(s: &mut String, v: &[char])
    ensures
        final(s)@ == old(s)@ + v@,
{
    let mut i: usize = 0;
    while i < v.len()
        invariant
            i <= v@.len(),
            s@ == old(s)@ + v@.take(i as int),
        decreases v@.len() - i,
    {
        push_char(s, v[i]);
        i = i + 1;
        assert(v@.take(i as int) == v@.take((i - 1) as int).push(v@[i - 1]));
    }
    assert(v@.take(v@.len() as int) == v@);
}

/// Appends a string slice to `s`.
pub fn push_str(s: &mut String, t: &str)
    ensures
        final(s)@ == old(s)@ + t@,
{
    let v = chars_of(t);
    push_chars(s, v.as_slice());
}

/// An owned copy of a string slice.
pub fn owned(t: &str) -> (s: String)
    ensures
        s@ == t@,
{
    t.to_owned()
}

/// Whether `c` is white space in the sense of `char::is_whitespace`.
pub fn is_whitespace(c: char) -> (b: bool)
    ensures
        b == is_ws(c),
{
    let u = c as u32;
    (0x09 <= u && u <= 0x0D) || u == 0x20 || u == 0x85 || u == 0xA0 || u == 0x1680 || (0x2000
        <= u && u <= 0x200A) || u == 0x2028 || u == 0x2029 || u == 0x202F || u == 0x205F || u
        == 0x3000
}


/// The characters of `v` between positions `lo` and `hi`.
pub fn slice_chars(v: &[char], lo: usize, hi: usize) -> (r: Vec<char>)
    requires
        lo <= hi <= v@.len(),
    ensures
        r@ == v@.subrange(lo as int, hi as int),
{
    let mut r: Vec<char> = Vec::new();
    let mut i = lo;
    while i < hi
        invariant
            lo <= i <= hi,
            hi <= v@.len(),
            r@ == v@.subrange(lo as int, i as int),
        decreases hi - i,
    {
        r.push(v[i]);
        i = i + 1;
        assert(r@ =~= v@.subrange(lo as int, i as int));
    }
    r
}

/// `v` without leading and trailing white space.
pub fn trim_chars(v: &[char]) -> (r: Vec<char>)
    ensures
        r@ == trim(v@),
{
    proof {
        lemma_first_non_ws(v@);
        lemma_trim_is_subrange(v@);
    }
    let mut k: usize = 0;
    while k < v.len() && is_whitespace(v[k])
        invariant
            k <= v@.len(),
            k <= first_non_ws(v@),
            0 <= first_non_ws(v@) <= v@.len(),
            forall|i: int| 0 <= i < first_non_ws(v@) ==> is_ws(#[trigger] v@[i]),
            first_non_ws(v@) == v@.len() || !is_ws(v@[first_non_ws(v@)]),
        decreases v@.len() - k,
    {
        k = k + 1;
    }
    assert(k == first_non_ws(v@));
    let ghost t = v@.skip(k as int);
    proof {
        lemma_last_non_ws_end(t);
    }
    let mut e: usize = v.len();
    while e > k && is_whitespace(v[e - 1])
        invariant
            k <= e <= v@.len(),
            t == v@.skip(k as int),
            e - k >= last_non_ws_end(t),
            0 <= last_non_ws_end(t) <= t.len(),
            forall|i: int| last_non_ws_end(t) <= i < t.len() ==> is_ws(#[trigger] t[i]),
            last_non_ws_end(t) == 0 || !is_ws(t[last_non_ws_end(t) - 1]),
        decreases e,
    {
        assert(v@[e - 1] == t[e - 1 - k]);
        e = e - 1;
    }
    if e > k {
        assert(v@[e - 1] == t[e - 1 - k]);
    }
    assert(e - k == last_non_ws_end(t));
    slice_chars(v, k, e)
}

/// A copy of `s` without leading and trailing white space (`str::trim`).
pub fn trim_str(s: &str) -> (r: String)
    ensures
        r@ == trim(s@),
{
    let v = chars_of(s);
    let t = trim_chars(v.as_slice());
    string_from(t.as_slice())
}

/// Whether `s` consists only of white space (`s.trim().is_empty()`).
pub fn is_blank(s: &str) -> (b: bool)
    ensures
        b == (trim(s@).len() == 0),
        b == all_ws(s@),
{
    proof {
        lemma_trim_empty(s@);
    }
    let v = chars_of(s);
    let mut i: usize = 0;
    while i < v.len()
        invariant
            i <= v@.len(),
            v@ == s@,
            forall|j: int| 0 <= j < i ==> is_ws(#[trigger] v@[j]),
        decreases v@.len() - i,
    {
        if !is_whitespace(v[i]) {
            assert(!all_ws(s@)) by {
                assert(!is_ws(s@[i as int]));
            }
            proof {
                lemma_trim_empty(s@);
            }
            assert(trim(s@).len() != 0);
            return false;
        }
        i = i + 1;
    }
    true
}


/// Whether two character sequences are equal.
pub fn chars_eq(a: &[char], b: &[char]) -> (r: bool)
    ensures
        r == (a@ == b@),
{
    if a.len() != b.len() {
        return false;
    }
    let mut i: usize = 0;
    while i < a.len()
        invariant
            i <= a@.len(),
            a@.len() == b@.len(),
            forall|j: int| 0 <= j < i ==> a@[j] == b@[j],
        decreases a@.len() - i,
    {
        if a[i] != b[i] {
            return false;
        }
        i = i + 1;
    }
    assert(a@ =~= b@);
    true
}

/// Whether two string slices hold the same characters.
pub fn str_eq(a: &str, b: &str) -> (r: bool)
    ensures
        r == (a@ == b@),
{
    let va = chars_of(a);
    let vb = chars_of(b);
    chars_eq(va.as_slice(), vb.as_slice())
}

/// Whether `p` is a prefix of `v`.
pub fn chars_start_with(v: &[char], p: &[char]) -> (r: bool)
    ensures
        r == has_prefix(v@, p@),
{
    if p.len() > v.len() {
        return false;
    }
    let mut i: usize = 0;
    while i < p.len()
        invariant
            i <= p@.len(),
            p@.len() <= v@.len(),
            forall|j: int| 0 <= j < i ==> v@[j] == p@[j],
        decreases p@.len() - i,
    {
        if v[i] != p[i] {
            assert(v@.subrange(0, p@.len() as int)[i as int] != p@[i as int]);
            return false;
        }
        i = i + 1;
    }
    assert(v@.subrange(0, p@.len() as int) =~= p@);
    true
}

/// Whether `p` is a suffix of `v`.
pub fn chars_end_with(v: &[char], p: &[char]) -> (r: bool)
    ensures
        r == has_suffix(v@, p@),
{
    if p.len() > v.len() {
        return false;
    }
    let off = v.len() - p.len();
    let mut i: usize = 0;
    while i < p.len()
        invariant
            i <= p@.len(),
            off + p@.len() == v@.len(),
            v@.len() == v.len(),
            forall|j: int| 0 <= j < i ==> v@[off + j] == p@[j],
        decreases p@.len() - i,
    {
        if v[off + i] != p[i] {
            assert(v@.subrange(off as int, v@.len() as int)[i as int] != p@[i as int]);
            return false;
        }
        i = i + 1;
    }
    assert(v@.subrange(off as int, v@.len() as int) =~= p@);
    true
}

/// Whether `n` occurs in `v` at position `i`.
pub fn chars_occur_at(v: &[char], n: &[char], i: usize) -> (r: bool)
    ensures
        r == occurs_at(v@, n@, i as int),
{
    if i > v.len() || n.len() > v.len() - i {
        return false;
    }
    let mut j: usize = 0;
    while j < n.len()
        invariant
            j <= n@.len(),
            i + n@.len() <= v@.len(),
            v@.len() == v.len(),
            forall|k: int| 0 <= k < j ==> v@[i + k] == n@[k],
        decreases n@.len() - j,
    {
        if v[i + j] != n[j] {
            assert(v@.subrange(i as int, i + n@.len())[j as int] != n@[j as int]);
            return false;
        }
        j = j + 1;
    }
    assert(v@.subrange(i as int, i + n@.len()) =~= n@);
    true
}

/// The first position at which `n` occurs in `v`, if any.
pub fn chars_find(v: &[char], n: &[char]) -> (r: Option<usize>)
    ensures
        match r {
            Some(i) => occurs_at(v@, n@, i as int) && forall|k: int|
                0 <= k < i ==> !occurs_at(v@, n@, k),
            None => !contains(v@, n@),
        },
{
    if n.len() > v.len() {
        assert forall|k: int| !occurs_at(v@, n@, k) by {}
        return None;
    }
    let last = v.len() - n.len();
    let mut i: usize = 0;
    while i < last
        invariant
            i <= last,
            last + n@.len() == v@.len(),
            forall|k: int| 0 <= k < i ==> !occurs_at(v@, n@, k),
        decreases last - i,
    {
        if chars_occur_at(v, n, i) {
            return Some(i);
        }
        i = i + 1;
    }
    if chars_occur_at(v, n, last) {
        return Some(last);
    }
    assert forall|k: int| !occurs_at(v@, n@, k) by {
        if 0 <= k && k <= last {
            assert(k < i || k == last);
        }
    }
    None
}

/// Whether `n` occurs in `v`.
pub fn chars_contain(v: &[char], n: &[char]) -> (r: bool)
    ensures
        r == contains(v@, n@),
{
    match chars_find(v, n) {
        Some(_) => true,
        None => false,
    }
}

/// Whether the string `s` contains the string `n` (`str::contains`).
pub fn str_contains(s: &str, n: &str) -> (r: bool)
    ensures
        r == contains(s@, n@),
{
    let vs = chars_of(s);
    let vn = chars_of(n);
    chars_contain(vs.as_slice(), vn.as_slice())
}

/// Whether `s` starts with `p` (`str::starts_with`).
pub fn str_starts_with(s: &str, p: &str) -> (r: bool)
    ensures
        r == has_prefix(s@, p@),
{
    let vs = chars_of(s);
    let vp = chars_of(p);
    chars_start_with(vs.as_slice(), vp.as_slice())
}

/// Whether `s` ends with `p` (`str::ends_with`).
pub fn str_ends_with(s: &str, p: &str) -> (r: bool)
    ensures
        r == has_suffix(s@, p@),
{
    let vs = chars_of(s);
    let vp = chars_of(p);
    chars_end_with(vs.as_slice(), vp.as_slice())
}

/// ASCII lower-casing of one character (`char::to_ascii_lowercase`).
pub fn char_ascii_lower(c: char) -> (r: char)
    ensures
        r == ascii_lower(c),
{
    if 'A' <= c && c <= 'Z' {
        let b = (c as u8) + 32;
        b as char
    } else {
        c
    }
}

/// ASCII upper-casing of one character (`char::to_ascii_uppercase`).
pub fn char_ascii_upper(c: char) -> (r: char)
    ensures
        r == ascii_upper(c),
{
    if 'a' <= c && c <= 'z' {
        let b = (c as u8) - 32;
        b as char
    } else {
        c
    }
}

/// ASCII lower-casing of a character sequence.
pub fn chars_ascii_lower(v: &[char]) -> (r: Vec<char>)
    ensures
        r@ == ascii_lowercase(v@),
{
    let mut r: Vec<char> = Vec::new();
    let mut i: usize = 0;
    while i < v.len()
        invariant
            i <= v@.len(),
            r@ == ascii_lowercase(v@.take(i as int)),
        decreases v@.len() - i,
    {
        r.push(char_ascii_lower(v[i]));
        i = i + 1;
        assert(ascii_lowercase(v@.take(i as int)) =~= ascii_lowercase(v@.take((i - 1) as int)).push(
            ascii_lower(v@[i - 1]),
        ));
    }
    assert(v@.take(v@.len() as int) =~= v@);
    r
}

/// ASCII lower-casing of a string (`str::to_ascii_lowercase`).
pub fn str_ascii_lower(s: &str) -> (r: String)
    ensures
        r@ == ascii_lowercase(s@),
{
    let v = chars_of(s);
    let l = chars_ascii_lower(v.as_slice());
    string_from(l.as_slice())
}

/// ASCII upper-casing of a string (`str::to_ascii_uppercase`).
pub fn str_ascii_upper(s: &str) -> (r: String)
    ensures
        r@ == ascii_uppercase(s@),
{
    let v = chars_of(s);
    let mut r = String::new();
    let mut i: usize = 0;
    while i < v.len()
        invariant
            i <= v@.len(),
            v@ == s@,
            r@ == ascii_uppercase(v@.take(i as int)),
        decreases v@.len() - i,
    {
        push_char(&mut r, char_ascii_upper(v[i]));
        i = i + 1;
        assert(ascii_uppercase(v@.take(i as int)) =~= ascii_uppercase(v@.take((i - 1) as int)).push(
            ascii_upper(v@[i - 1]),
        ));
    }
    assert(v@.take(v@.len() as int) =~= v@);
    r
}

/// The decimal representation of `n` (`n.to_string()` for an unsigned integer).
pub fn decimal_string(n: u64) -> (r: String)
    ensures
        r@ == decimal(n as nat),
    decreases n,
{
    if n < 10 {
        let mut r = String::new();
        let c = ((n as u8) + 48) as char;
        push_char(&mut r, c);
        assert(r@ =~= seq![digit_char(n as nat)]);
        r
    } else {
        let mut r = decimal_string(n / 10);
        let c = (((n % 10) as u8) + 48) as char;
        push_char(&mut r, c);
        r
    }
}

/// Joins the strings of `parts` with `sep` between consecutive ones (`[String]::join`).
pub fn join_strings(parts: &Vec<String>, sep: &str) -> (r: String)
    ensures
        r@ == join(parts@.map_values(|p: String| p@), sep@),
{
    let ghost views = parts@.map_values(|p: String| p@);
    let mut r = String::new();
    let mut i: usize = 0;
    while i < parts.len()
        invariant
            i <= parts@.len(),
            views == parts@.map_values(|p: String| p@),
            r@ == join(views.take(i as int), sep@),
        decreases parts@.len() - i,
    {
        if i > 0 {
            push_str(&mut r, sep);
        }
        push_str(&mut r, parts[i].as_str());
        i = i + 1;
        assert(views.take(i as int).drop_last() =~= views.take((i - 1) as int));
        if i == 1 {
            assert(views.take(0) =~= Seq::<Seq<char>>::empty());
        }
    }
    assert(views.take(parts@.len() as int) =~= views);
    r
}


/// Splits `v` at every occurrence of `sep`.
pub fn split_chars(v: &[char], sep: char) -> (parts: Vec<Vec<char>>)
    ensures
        parts@.len() == split(v@, sep).len(),
        forall|i: int| 0 <= i < parts@.len() ==> (#[trigger] parts@[i])@ == split(v@, sep)[i],
{
    let mut parts: Vec<Vec<char>> = Vec::new();
    let mut current: Vec<char> = Vec::new();
    let mut i: usize = 0;
    while i < v.len()
        invariant
            i <= v@.len(),
            parts@.len() + 1 == split(v@.take(i as int), sep).len(),
            forall|j: int| 0 <= j < parts@.len() ==> (#[trigger] parts@[j])@ == split(
                v@.take(i as int),
                sep,
            )[j],
            current@ == split(v@.take(i as int), sep).last(),
        decreases v@.len() - i,
    {
        let ghost prev = v@.take(i as int);
        let ghost next = v@.take(i + 1);
        assert(next.drop_last() =~= prev);
        assert(next.last() == v@[i as int]);
        proof {
            lemma_split_nonempty(prev, sep);
        }
        if v[i] == sep {
            let done = current;
            parts.push(done);
            current = Vec::new();
            assert(current@ =~= Seq::<char>::empty());
        } else {
            current.push(v[i]);
        }
        i = i + 1;
    }
    assert(v@.take(v@.len() as int) =~= v@);
    parts.push(current);
    parts
}

/// Splits a string at every occurrence of `sep`, as owned strings.
pub fn split_str(s: &str, sep: char) -> (parts: Vec<String>)
    ensures
        parts@.len() == split(s@, sep).len(),
        forall|i: int| 0 <= i < parts@.len() ==> (#[trigger] parts@[i])@ == split(s@, sep)[i],
{
    let v = chars_of(s);
    let pieces = split_chars(v.as_slice(), sep);
    let mut parts: Vec<String> = Vec::new();
    let mut i: usize = 0;
    while i < pieces.len()
        invariant
            i <= pieces@.len(),
            pieces@.len() == split(s@, sep).len(),
            forall|j: int| 0 <= j < pieces@.len() ==> (#[trigger] pieces@[j])@ == split(s@, sep)[j],
            parts@.len() == i,
            forall|j: int| 0 <= j < i ==> (#[trigger] parts@[j])@ == split(s@, sep)[j],
        decreases pieces@.len() - i,
    {
        parts.push(string_from(pieces[i].as_slice()));
        i = i + 1;
    }
    parts
}

/// The lines of `s` (`str::lines`), as owned strings.
pub fn lines_of(s: &str) -> (r: Vec<String>)
    ensures
        r@.len() == lines(s@).len(),
        forall|i: int| 0 <= i < r@.len() ==> (#[trigger] r@[i])@ == lines(s@)[i],
{
    proof {
        lemma_split_nonempty(s@, '\n');
    }
    let parts = split_str(s, '\n');
    let ghost sp = split(s@, '\n');
    let mut n = parts.len();
    if parts[n - 1].as_str().is_empty() {
        n = n - 1;
    }
    let ghost kept = if sp.last().len() == 0 {
        sp.drop_last()
    } else {
        sp
    };
    assert(n == kept.len());
    let mut r: Vec<String> = Vec::new();
    let mut i: usize = 0;
    while i < n
        invariant
            n == kept.len(),
            kept.len() <= sp.len(),
            parts@.len() == sp.len(),
            forall|j: int| 0 <= j < parts@.len() ==> (#[trigger] parts@[j])@ == sp[j],
            forall|j: int| 0 <= j < kept.len() ==> kept[j] == sp[j],
            kept.map_values(|l: Seq<char>| strip_cr(l)) == lines(s@),
            i <= n,
            r@.len() == i,
            forall|j: int| 0 <= j < i ==> (#[trigger] r@[j])@ == strip_cr(kept[j]),
        decreases n - i,
    {
        let v = chars_of(parts[i].as_str());
        let k = v.len();
        if k > 0 && v[k - 1] == '\r' {
            let t = slice_chars(v.as_slice(), 0, k - 1);
            r.push(string_from(t.as_slice()));
            assert(t@ =~= v@.drop_last());
        } else {
            r.push(string_from(v.as_slice()));
        }
        i = i + 1;
    }
    r
}

// ---------------------------------------------------------------------------
// Lexicographic order
// ---------------------------------------------------------------------------

/// `a` and `b` first differ at position `k` (or one ends there), and there
/// `a` is smaller.
pub open spec fn lex_less_at(a: Seq<char>, b: Seq<char>, k: int) -> bool {
    &&& 0 <= k <= a.len()
    &&& k <= b.len()
    &&& a.subrange(0, k) == b.subrange(0, k)
    &&& ((k == a.len() && k < b.len()) || (k < a.len() && k < b.len() && a[k] < b[k]))
}

/// `a` comes before `b` in lexicographic order of code points (the order of
/// `str`, whose bytes are UTF-8).
pub open spec fn lex_less(a: Seq<char>, b: Seq<char>) -> bool {
    exists|k: int| lex_less_at(a, b, k)
}

/// The position where `a` and `b` first differ, or the length of the
/// shorter one.
pub open spec fn first_difference(a: Seq<char>, b: Seq<char>, k: int) -> bool {
    &&& 0 <= k <= a.len()
    &&& k <= b.len()
    &&& a.subrange(0, k) == b.subrange(0, k)
    &&& (k == a.len() || k == b.len() || a[k] != b[k])
}

/// Two sequences that agree up to `k` agree at every earlier position.
proof fn lemma_prefix_agree(a: Seq<char>, b: Seq<char>, k: int, j: int)
    requires
        0 <= j < k <= a.len(),
        k <= b.len(),
        a.subrange(0, k) == b.subrange(0, k),
    ensures
        a[j] == b[j],
{
    assert(a.subrange(0, k)[j] == a[j]);
    assert(b.subrange(0, k)[j] == b[j]);
}

/// `lex_less` is decided at the first difference.
pub proof fn lemma_lex_less_at_first_difference(a: Seq<char>, b: Seq<char>, k: int)
    requires
        first_difference(a, b, k),
    ensures
        lex_less(a, b) <==> lex_less_at(a, b, k),
{
    if lex_less(a, b) {
        let w = choose|w: int| lex_less_at(a, b, w);
        if w < k {
            lemma_prefix_agree(a, b, k, w);
        }
        if w > k {
            if k < a.len() && k < b.len() {
                lemma_prefix_agree(a, b, w, k);
            }
        }
    }
}

/// Lexicographic order is transitive.
pub proof fn lemma_lex_less_transitive(a: Seq<char>, b: Seq<char>, c: Seq<char>)
    requires
        lex_less(a, b),
        lex_less(b, c),
    ensures
        lex_less(a, c),
{
    let i = choose|i: int| lex_less_at(a, b, i);
    let j = choose|j: int| lex_less_at(b, c, j);
    let k = if i < j {
        i
    } else {
        j
    };
    assert forall|m: int| 0 <= m < k implies #[trigger] a[m] == c[m] by {
        lemma_prefix_agree(a, b, i, m);
        lemma_prefix_agree(b, c, j, m);
    }
    assert(a.subrange(0, k) =~= c.subrange(0, k));
    if i < j {
        if i < a.len() {
            lemma_prefix_agree(b, c, j, i);
        }
        assert(lex_less_at(a, c, k));
    } else if j < i {
        lemma_prefix_agree(a, b, i, j);
        assert(lex_less_at(a, c, k));
    } else {
        assert(lex_less_at(a, c, k));
    }
}

/// Lexicographic order is total: of two different sequences one comes first.
pub proof fn lemma_lex_less_total(a: Seq<char>, b: Seq<char>)
    ensures
        a == b || lex_less(a, b) || lex_less(b, a),
        !(lex_less(a, b) && lex_less(b, a)),
        !lex_less(a, a),
{
    let n = if a.len() < b.len() {
        a.len() as int
    } else {
        b.len() as int
    };
    assert(a.subrange(0, 0) =~= b.subrange(0, 0));
    let k = first_diff_index(a, b, 0, n);
    assert(first_difference(b, a, k)) by {
        assert(b.subrange(0, k) =~= a.subrange(0, k));
    }
    lemma_lex_less_at_first_difference(a, b, k);
    lemma_lex_less_at_first_difference(b, a, k);
    if k == a.len() && k == b.len() {
        assert(a.subrange(0, k) =~= a);
        assert(b.subrange(0, k) =~= b);
    }
    if k < a.len() && k < b.len() {
        if a[k] < b[k] {
            assert(lex_less_at(a, b, k));
        } else {
            assert(lex_less_at(b, a, k));
        }
    }
    assert(first_difference(a, a, a.len() as int)) by {}
    lemma_lex_less_at_first_difference(a, a, a.len() as int);
}

/// The first position from `i` up to `n` where `a` and `b` differ, given
/// that they agree before `i`.
proof fn first_diff_index(a: Seq<char>, b: Seq<char>, i: int, n: int) -> (k: int)
    requires
        0 <= i <= n,
        n <= a.len(),
        n <= b.len(),
        n == a.len() || n == b.len(),
        a.subrange(0, i) == b.subrange(0, i),
    ensures
        first_difference(a, b, k),
    decreases n - i,
{
    if i == n {
        i
    } else if a[i] != b[i] {
        i
    } else {
        assert(a.subrange(0, i + 1) =~= b.subrange(0, i + 1)) by {
            assert forall|m: int| 0 <= m < i + 1 implies #[trigger] a.subrange(0, i + 1)[m]
                == b.subrange(0, i + 1)[m] by {
                if m < i {
                    lemma_prefix_agree(a, b, i, m);
                }
            }
        }
        first_diff_index(a, b, i + 1, n)
    }
}

/// Whether `a` comes before `b` in lexicographic order.
pub fn str_less(a: &str, b: &str) -> (r: bool)
    ensures
        r == lex_less(a@, b@),
{
    let va = chars_of(a);
    let vb = chars_of(b);
    let mut k: usize = 0;
    while k < va.len() && k < vb.len() && va[k] == vb[k]
        invariant
            k <= va@.len(),
            k <= vb@.len(),
            va@ == a@,
            vb@ == b@,
            va@.subrange(0, k as int) == vb@.subrange(0, k as int),
        decreases va@.len() - k,
    {
        assert(va@.subrange(0, k + 1) =~= vb@.subrange(0, k + 1)) by {
            assert forall|m: int| 0 <= m < k + 1 implies #[trigger] va@.subrange(0, k + 1)[m]
                == vb@.subrange(0, k + 1)[m] by {
                if m < k {
                    lemma_prefix_agree(va@, vb@, k as int, m);
                }
            }
        }
        k = k + 1;
    }
    proof {
        lemma_lex_less_at_first_difference(a@, b@, k as int);
    }
    if k == va.len() {
        k < vb.len()
    } else if k == vb.len() {
        false
    } else {
        va[k] < vb[k]
    }
}

} // verus!
