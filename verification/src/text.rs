//! Character and string helpers with exact specifications.

use vstd::prelude::*;

verus! {

broadcast use vstd::string::group_string_axioms;

/// Unicode `White_Space` property, as `char::is_whitespace` documents it.
pub open spec fn is_white_space(c: char) -> bool {
    ||| ('\u{9}' <= c && c <= '\u{d}')
    ||| c == ' '
    ||| c == '\u{85}'
    ||| c == '\u{a0}'
    ||| c == '\u{1680}'
    ||| ('\u{2000}' <= c && c <= '\u{200a}')
    ||| c == '\u{2028}'
    ||| c == '\u{2029}'
    ||| c == '\u{202f}'
    ||| c == '\u{205f}'
    ||| c == '\u{3000}'
}

/// A text is blank when every character in it is white space
/// (so that trimming it leaves nothing).
pub open spec fn is_blank_text(s: Seq<char>) -> bool {
    forall|i: int| 0 <= i < s.len() ==> is_white_space(#[trigger] s[i])
}

/// Whether `c` has the Unicode `White_Space` property.
pub fn char_is_white_space(c: char) -> (b: bool)
    ensures
        b == is_white_space(c),
{
    ('\u{9}' <= c && c <= '\u{d}') || c == ' ' || c == '\u{85}' || c == '\u{a0}'
        || c == '\u{1680}' || ('\u{2000}' <= c && c <= '\u{200a}') || c == '\u{2028}'
        || c == '\u{2029}' || c == '\u{202f}' || c == '\u{205f}' || c == '\u{3000}'
}

/// Collects the characters of a string slice.
pub fn chars_of(s: &str) -> (v: Vec<char>)
    ensures
        v@ == s@,
{
    let mut v: Vec<char> = Vec::new();
    for c in it: s.chars()
        invariant
            it.seq() == s@,
            v@ == it.seq().take(it.index() as int),
    {
        v.push(c);
    }
    v
}

/// Whether a text has nothing left once white space is trimmed.
pub fn is_blank(s: &str) -> (b: bool)
    ensures
        b == is_blank_text(s@),
{
    let v = chars_of(s);
    let mut i: usize = 0;
    while i < v.len()
        invariant
            v@ == s@,
            i <= v.len(),
            forall|j: int| 0 <= j < i ==> is_white_space(#[trigger] s@[j]),
        decreases v.len() - i,
    {
        if !char_is_white_space(v[i]) {
            return false;
        }
        i = i + 1;
    }
    true
}

/// Appends one character to a string (`String::push`).
#[verifier::external_body]
pub(crate) fn push_char(s: &mut String, c: char)
    ensures
        final(s)@ == old(s)@.push(c),
{
    s.push(c);
}

/// Builds a string holding exactly the given characters.
pub fn string_of(v: &[char]) -> (s: String)
    ensures
        s@ == v@,
{
    let mut s = String::new();
    let mut i: usize = 0;
    while i < v.len()
        invariant
            i <= v.len(),
            s@ == v@.take(i as int),
        decreases v.len() - i,
    {
        push_char(&mut s, v[i]);
        assert(v@.take(i as int).push(v@[i as int]) =~= v@.take(i + 1));
        i = i + 1;
    }
    assert(v@.take(v.len() as int) =~= v@);
    s
}

/// Builds a string holding the characters `v[from..to]`.
pub fn string_of_range(v: &Vec<char>, from: usize, to: usize) -> (s: String)
    requires
        from <= to <= v.len(),
    ensures
        s@ == v@.subrange(from as int, to as int),
{
    let mut s = String::new();
    let mut i: usize = from;
    while i < to
        invariant
            from <= i <= to <= v.len(),
            s@ == v@.subrange(from as int, i as int),
        decreases to - i,
    {
        push_char(&mut s, v[i]);
        assert(v@.subrange(from as int, i as int).push(v@[i as int]) =~= v@.subrange(
            from as int,
            i + 1,
        ));
        i = i + 1;
    }
    s
}

/// The decimal digit for `d` (`0 <= d < 10`).
pub open spec fn digit_char(d: int) -> char {
    if d == 0 { '0' }
    else if d == 1 { '1' }
    else if d == 2 { '2' }
    else if d == 3 { '3' }
    else if d == 4 { '4' }
    else if d == 5 { '5' }
    else if d == 6 { '6' }
    else if d == 7 { '7' }
    else if d == 8 { '8' }
    else { '9' }
}

/// The decimal rendering of a natural number, most significant digit first,
/// without leading zeros (zero itself renders as `0`).
pub open spec fn decimal_text(n: nat) -> Seq<char>
    decreases n,
{
    if n < 10 {
        seq![digit_char(n as int)]
    } else {
        decimal_text(n / 10).push(digit_char((n % 10) as int))
    }
}

fn digit_of(d: u64) -> (c: char)
    requires
        d < 10,
    ensures
        c == digit_char(d as int),
{
    if d == 0 { '0' }
    else if d == 1 { '1' }
    else if d == 2 { '2' }
    else if d == 3 { '3' }
    else if d == 4 { '4' }
    else if d == 5 { '5' }
    else if d == 6 { '6' }
    else if d == 7 { '7' }
    else if d == 8 { '8' }
    else { '9' }
}

/// Renders a number in decimal, as `u64`'s `Display` does.
pub fn decimal_string(n: u64) -> (s: String)
    ensures
        s@ == decimal_text(n as nat),
    decreases n,
{
    if n < 10 {
        let mut s = String::new();
        push_char(&mut s, digit_of(n));
        assert(s@ =~= seq![digit_char(n as int)]);
        s
    } else {
        let mut s = decimal_string(n / 10);
        push_char(&mut s, digit_of(n % 10));
        s
    }
}

/// Renders a `u128` in decimal.
pub fn decimal_string_wide(n: u128) -> (s: String)
    ensures
        s@ == decimal_text(n as nat),
    decreases n,
{
    if n < 10 {
        let mut s = String::new();
        push_char(&mut s, digit_of(n as u64));
        assert(s@ =~= seq![digit_char(n as int)]);
        s
    } else {
        let mut s = decimal_string_wide(n / 10);
        push_char(&mut s, digit_of((n % 10) as u64));
        s
    }
}

/// The decimal rendering of an integer, with a leading `-` when negative.
pub open spec fn signed_decimal_text(n: int) -> Seq<char> {
    if n < 0 {
        seq!['-'] + decimal_text((-n) as nat)
    } else {
        decimal_text(n as nat)
    }
}

/// Renders a `usize` in decimal.
pub fn usize_decimal_string(n: usize) -> (s: String)
    ensures
        s@ == decimal_text(n as nat),
{
    decimal_string(n as u64)
}

/// Whether `prefix` begins `s`.
pub open spec fn has_prefix(s: Seq<char>, prefix: Seq<char>) -> bool {
    prefix.len() <= s.len() && s.subrange(0, prefix.len() as int) == prefix
}

/// Whether `suffix` ends `s`.
pub open spec fn has_suffix(s: Seq<char>, suffix: Seq<char>) -> bool {
    suffix.len() <= s.len() && s.subrange(s.len() - suffix.len(), s.len() as int) == suffix
}

/// Whether `prefix` begins the characters `v[from..to]`.
pub fn range_has_prefix(v: &Vec<char>, from: usize, to: usize, prefix: &Vec<char>) -> (b: bool)
    requires
        from <= to <= v.len(),
    ensures
        b == has_prefix(v@.subrange(from as int, to as int), prefix@),
{
    if prefix.len() > to - from {
        return false;
    }
    let mut i: usize = 0;
    while i < prefix.len()
        invariant
            from <= to <= v.len(),
            prefix.len() <= to - from,
            i <= prefix.len(),
            forall|j: int| 0 <= j < i ==> v@[from + j] == prefix@[j],
        decreases prefix.len() - i,
    {
        if v[from + i] != prefix[i] {
            assert(v@.subrange(from as int, to as int).subrange(0, prefix.len() as int)[i as int]
                != prefix@[i as int]);
            return false;
        }
        i = i + 1;
    }
    assert(v@.subrange(from as int, to as int).subrange(0, prefix.len() as int) =~= prefix@);
    true
}

/// Whether two character ranges hold the same characters.
pub fn range_equals(v: &Vec<char>, from: usize, to: usize, w: &Vec<char>) -> (b: bool)
    requires
        from <= to <= v.len(),
    ensures
        b == (v@.subrange(from as int, to as int) == w@),
{
    if w.len() != to - from {
        return false;
    }
    let b = range_has_prefix(v, from, to, w);
    proof {
        assert(v@.subrange(from as int, to as int).subrange(0, w@.len() as int)
            =~= v@.subrange(from as int, to as int));
    }
    b
}

} // verus!

verus! {

/// Whether two texts hold the same characters.
pub fn text_eq(a: &str, b: &str) -> (r: bool)
    ensures
        r == (a@ == b@),
{
    let va = chars_of(a);
    let vb = chars_of(b);
    let r = range_equals(&va, 0, va.len(), &vb);
    assert(va@.subrange(0, va@.len() as int) =~= va@);
    r
}

} // verus!

verus! {

/// Whether `c` is trimmed by a trim of kind `t`: white space for `None`,
/// the character itself for `Some`.
pub open spec fn trims(c: char, t: Option<char>) -> bool {
    match t {
        None => is_white_space(c),
        Some(x) => c == x,
    }
}

/// `s` without its leading characters of kind `t` (`trim_start` / `trim_start_matches`).
pub open spec fn drop_leading(s: Seq<char>, t: Option<char>) -> Seq<char>
    decreases s.len(),
{
    if s.len() > 0 && trims(s[0], t) {
        drop_leading(s.drop_first(), t)
    } else {
        s
    }
}

/// `s` without its trailing characters of kind `t` (`trim_end` / `trim_end_matches`).
pub open spec fn drop_trailing(s: Seq<char>, t: Option<char>) -> Seq<char>
    decreases s.len(),
{
    if s.len() > 0 && trims(s.last(), t) {
        drop_trailing(s.drop_last(), t)
    } else {
        s
    }
}

/// `s` with characters of kind `t` trimmed from both ends (`trim` / `trim_matches`).
pub open spec fn trim_kind(s: Seq<char>, t: Option<char>) -> Seq<char> {
    drop_trailing(drop_leading(s, t), t)
}

/// `s` with white space trimmed from both ends, as `str::trim` does.
pub open spec fn trim_text(s: Seq<char>) -> Seq<char> {
    trim_kind(s, None)
}

/// `s` with every leading copy of `p` removed (`trim_start_matches` with a
/// non-empty string pattern).
pub open spec fn strip_prefixes(s: Seq<char>, p: Seq<char>) -> Seq<char>
    decreases s.len(),
{
    if p.len() > 0 && has_prefix(s, p) {
        strip_prefixes(s.skip(p.len() as int), p)
    } else {
        s
    }
}

proof fn lemma_drop_leading_skip(s: Seq<char>, t: Option<char>, k: int)
    requires
        0 <= k <= s.len(),
        forall|j: int| 0 <= j < k ==> trims(#[trigger] s[j], t),
    ensures
        drop_leading(s, t) == drop_leading(s.skip(k), t),
    decreases k,
{
    if k == 0 {
        assert(s.skip(0) =~= s);
    } else {
        assert(trims(s[0], t));
        let r = s.drop_first();
        assert forall|j: int| 0 <= j < k - 1 implies trims(#[trigger] r[j], t) by {
            assert(r[j] == s[j + 1]);
        }
        lemma_drop_leading_skip(r, t, k - 1);
        assert(r.skip(k - 1) =~= s.skip(k));
    }
}

proof fn lemma_drop_trailing_take(s: Seq<char>, t: Option<char>, k: int)
    requires
        0 <= k <= s.len(),
        forall|j: int| k <= j < s.len() ==> trims(#[trigger] s[j], t),
    ensures
        drop_trailing(s, t) == drop_trailing(s.take(k), t),
    decreases s.len() - k,
{
    if k == s.len() {
        assert(s.take(k) =~= s);
    } else {
        assert(trims(s[s.len() - 1], t));
        let r = s.drop_last();
        assert forall|j: int| k <= j < r.len() implies trims(#[trigger] r[j], t) by {
            assert(r[j] == s[j]);
        }
        lemma_drop_trailing_take(r, t, k);
        assert(r.take(k) =~= s.take(k));
    }
}

fn char_trims(c: char, t: Option<char>) -> (b: bool)
    ensures
        b == trims(c, t),
{
    match t {
        None => char_is_white_space(c),
        Some(x) => c == x,
    }
}

/// The start of `v[from..to]` once its leading characters of kind `t` are dropped.
pub fn skip_leading(v: &Vec<char>, from: usize, to: usize, t: Option<char>) -> (a: usize)
    requires
        from <= to <= v.len(),
    ensures
        from <= a <= to,
        v@.subrange(a as int, to as int) == drop_leading(v@.subrange(from as int, to as int), t),
{
    let mut a = from;
    while a < to && char_trims(v[a], t)
        invariant
            from <= a <= to <= v.len(),
            forall|j: int| from <= j < a ==> trims(#[trigger] v@[j], t),
        decreases to - a,
    {
        a = a + 1;
    }
    proof {
        let s = v@.subrange(from as int, to as int);
        assert forall|j: int| 0 <= j < a - from implies trims(#[trigger] s[j], t) by {
            assert(s[j] == v@[from + j]);
        }
        lemma_drop_leading_skip(s, t, a - from);
        assert(s.skip(a - from) =~= v@.subrange(a as int, to as int));
    }
    a
}

/// The end of `v[from..to]` once its trailing characters of kind `t` are dropped.
pub fn skip_trailing(v: &Vec<char>, from: usize, to: usize, t: Option<char>) -> (b: usize)
    requires
        from <= to <= v.len(),
    ensures
        from <= b <= to,
        v@.subrange(from as int, b as int) == drop_trailing(v@.subrange(from as int, to as int), t),
{
    let mut b = to;
    while b > from && char_trims(v[b - 1], t)
        invariant
            from <= b <= to <= v.len(),
            forall|j: int| b <= j < to ==> trims(#[trigger] v@[j], t),
        decreases b - from,
    {
        b = b - 1;
    }
    proof {
        let s = v@.subrange(from as int, to as int);
        assert forall|j: int| b - from <= j < s.len() implies trims(#[trigger] s[j], t) by {
            assert(s[j] == v@[from + j]);
        }
        lemma_drop_trailing_take(s, t, b - from);
        assert(s.take(b - from) =~= v@.subrange(from as int, b as int));
    }
    b
}

/// The bounds of `v[from..to]` trimmed of characters of kind `t` at both ends.
pub fn trim_range(v: &Vec<char>, from: usize, to: usize, t: Option<char>) -> (r: (usize, usize))
    requires
        from <= to <= v.len(),
    ensures
        from <= r.0 <= r.1 <= to,
        v@.subrange(r.0 as int, r.1 as int) == trim_kind(v@.subrange(from as int, to as int), t),
{
    let a = skip_leading(v, from, to, t);
    let b = skip_trailing(v, a, to, t);
    (a, b)
}

/// The start of `v[from..to]` once every leading copy of `p` is removed.
pub fn skip_prefixes(v: &Vec<char>, from: usize, to: usize, p: &Vec<char>) -> (a: usize)
    requires
        from <= to <= v.len(),
        p.len() > 0,
    ensures
        from <= a <= to,
        v@.subrange(a as int, to as int) == strip_prefixes(v@.subrange(from as int, to as int), p@),
{
    let mut a = from;
    while range_has_prefix(v, a, to, p)
        invariant
            from <= a <= to <= v.len(),
            p.len() > 0,
            strip_prefixes(v@.subrange(from as int, to as int), p@) == strip_prefixes(
                v@.subrange(a as int, to as int),
                p@,
            ),
        decreases to - a,
    {
        proof {
            assert(v@.subrange(a as int, to as int).skip(p.len() as int) =~= v@.subrange(
                a + p.len(),
                to as int,
            ));
        }
        a = a + p.len();
    }
    a
}

/// The characters of each string in a list.
pub open spec fn string_views(v: Seq<String>) -> Seq<Seq<char>> {
    v.map_values(|s: String| s@)
}

/// Appends a string to a list of strings.
pub fn push_text(v: &mut Vec<String>, s: String)
    ensures
        string_views(final(v)@) == string_views(old(v)@).push(s@),
{
    let ghost before = v@;
    let ghost sv = s@;
    v.push(s);
    assert(string_views(v@) =~= string_views(before).push(sv));
}

} // verus!
