//! Character-level text utilities used to build and inspect command output.

use vstd::prelude::*;
use vstd::std_specs::iter::IteratorSpec;
use vstd::string::*;

verus! {

broadcast use vstd::string::group_string_axioms;

/// `String::push` appends the given character to the end of the string.
pub assume_specification[ std::string::String::push ](string: &mut std::string::String, ch: char)
    ensures
        final(string)@ == old(string)@.push(ch),
;

/// The name of the Unicode lowercase mapping that `str::to_lowercase` applies.
pub uninterp spec fn unicode_lowercase(s: Seq<char>) -> Seq<char>;

/// Calls `str::to_lowercase`, which maps every character of the slice to its
/// Unicode lowercase form (Derived Core Property `Lowercase`); the mapping is
/// named, not spelled out here.
#[verifier::external_body]
pub(crate) fn to_lowercase(s: &str) -> (r: String)
    ensures
        r@ == unicode_lowercase(s@),
{
    s.to_lowercase()
}

/// Views of an optional string.
pub open spec fn opt_chars(o: Option<String>) -> Option<Seq<char>> {
    match o {
        Some(s) => Some(s@),
        None => None,
    }
}

/// An optional text, or `d` when it is absent.
pub open spec fn or_else(o: Option<Seq<char>>, d: Seq<char>) -> Seq<char> {
    match o {
        Some(s) => s,
        None => d,
    }
}

/// An optional text, or `d` when it is absent, as `Option::unwrap_or`.
pub fn text_or(o: Option<String>, d: &str) -> (r: String)
    ensures
        r@ == or_else(opt_chars(o), d@),
{
    match o {
        Some(s) => s,
        None => owned(d),
    }
}

/// The characters of a string slice, in order.
pub fn chars_of(s: &str) -> (r: Vec<char>)
    ensures
        r@ == s@,
{
    let mut r: Vec<char> = Vec::new();
    for c in it: s.chars()
        invariant
            it.seq() == s@,
            r@ == it.seq().take(it.index() as int),
    {
        r.push(c);
    }
    r
}

/// A string holding exactly the given characters.
pub fn string_from_chars(cs: &[char]) -> (r: String)
    ensures
        r@ == cs@,
{
    let mut r = String::new();
    let mut i: usize = 0;
    while i < cs.len()
        invariant
            i <= cs@.len(),
            r@ == cs@.take(i as int),
        decreases cs@.len() - i,
    {
        r.push(cs[i]);
        i = i + 1;
        assert(cs@.take(i as int) =~= cs@.take((i - 1) as int).push(cs@[i - 1]));
    }
    assert(cs@.take(cs@.len() as int) =~= cs@);
    r
}

/// A copy of a string slice as an owned `String`.
pub fn owned(s: &str) -> (r: String)
    ensures
        r@ == s@,
{
    String::from_str(s)
}

/// `a` followed by `b`.
pub fn concat2(a: &str, b: &str) -> (r: String)
    ensures
        r@ == a@ + b@,
{
    let mut r = String::from_str(a);
    r.append(b);
    r
}

/// The decimal digit character for `d < 10`.
pub open spec fn digit_char(d: nat) -> char {
    ((48 + d) as u8) as char
}

/// Decimal notation of a natural number, most significant digit first, no
/// leading zeros (the single digit `0` for zero).
pub open spec fn decimal(n: nat) -> Seq<char>
    decreases n,
{
    if n < 10 {
        seq![digit_char(n)]
    } else {
        decimal(n / 10).push(digit_char(n % 10))
    }
}

/// The number that a string of decimal digits denotes.
pub open spec fn decimal_value(d: Seq<char>) -> nat
    decreases d.len(),
{
    if d.len() == 0 {
        0
    } else {
        decimal_value(d.drop_last()) * 10 + (d.last() as int - 48) as nat
    }
}

/// The decimal notation of a number is one or more digits from `0` to `9`
/// that denote it, most significant first, with no leading zero unless the
/// number is zero.
pub proof fn lemma_decimal_denotes(n: nat)
    ensures
        decimal(n).len() > 0,
        forall|i: int| 0 <= i < decimal(n).len() ==> '0' <= #[trigger] decimal(n)[i] <= '9',
        decimal_value(decimal(n)) == n,
        n > 0 ==> decimal(n)[0] != '0',
    decreases n,
{
    let d = decimal(n);
    if n < 10 {
        assert(d.drop_last() =~= Seq::<char>::empty());
        assert(decimal_value(d) == decimal_value(d.drop_last()) * 10 + (d.last() as int - 48) as nat);
    } else {
        lemma_decimal_denotes(n / 10);
        assert(d.drop_last() =~= decimal(n / 10));
        assert(decimal_value(d) == decimal_value(d.drop_last()) * 10 + (d.last() as int - 48) as nat);
        assert(d.last() as int - 48 == n % 10);
        assert((n / 10) * 10 + n % 10 == n) by (nonlinear_arith);
        assert(d[0] == decimal(n / 10)[0]);
        assert forall|i: int| 0 <= i < d.len() implies '0' <= #[trigger] d[i] <= '9' by {
            if i < d.len() - 1 {
                assert(d[i] == decimal(n / 10)[i]);
            }
        }
    }
}

fn digit(d: u64) -> (c: char)
    requires
        d < 10,
    ensures
        c == digit_char(d as nat),
{
    let b: u8 = 48 + (d as u8);
    b as char
}

/// Appends the decimal notation of `n` to `s`.
pub fn push_decimal(s: &mut String, n: u64)
    ensures
        final(s)@ == old(s)@ + decimal(n as nat),
    decreases n,
{
    let ghost start = s@;
    if n >= 10 {
        push_decimal(s, n / 10);
    }
    s.push(digit(n % 10));
    if n >= 10 {
        assert(s@ =~= start + decimal(n as nat));
    } else {
        assert(s@ =~= start + decimal(n as nat));
    }
}

/// The decimal notation of `n`, as `u64::to_string` writes it.
pub fn decimal_string(n: u64) -> (r: String)
    ensures
        r@ == decimal(n as nat),
{
    let mut r = String::new();
    push_decimal(&mut r, n);
    assert(r@ =~= decimal(n as nat));
    r
}

/// `hay` begins with `needle`.
pub open spec fn starts_with(hay: Seq<char>, needle: Seq<char>) -> bool {
    needle.len() <= hay.len() && hay.subrange(0, needle.len() as int) == needle
}

/// `needle` occurs in `hay` starting at position `i`.
pub open spec fn occurs_at(hay: Seq<char>, needle: Seq<char>, i: int) -> bool {
    0 <= i && i + needle.len() <= hay.len() && hay.subrange(i, i + needle.len()) == needle
}

/// `needle` occurs somewhere in `hay` (the empty needle occurs everywhere).
pub open spec fn contains(hay: Seq<char>, needle: Seq<char>) -> bool {
    exists|i: int| occurs_at(hay, needle, i)
}

fn matches_at(hay: &Vec<char>, needle: &Vec<char>, i: usize) -> (r: bool)
    requires
        i + needle@.len() <= hay@.len(),
    ensures
        r == occurs_at(hay@, needle@, i as int),
{
    let hl = hay.len();
    let mut j: usize = 0;
    while j < needle.len()
        invariant
            hl == hay@.len(),
            i + needle@.len() <= hay@.len(),
            j <= needle@.len(),
            forall|k: int| 0 <= k < j ==> hay@[i + k] == needle@[k],
        decreases needle@.len() - j,
    {
        assert(i + j < hay@.len());
        if hay[i + j] != needle[j] {
            assert(hay@.subrange(i as int, i + needle@.len())[j as int] != needle@[j as int]);
            return false;
        }
        j = j + 1;
    }
    assert(hay@.subrange(i as int, i + needle@.len()) =~= needle@);
    true
}

/// Whether `needle` occurs in `hay`, as `str::contains` with a string pattern.
pub fn str_contains(hay: &str, needle: &str) -> (r: bool)
    ensures
        r == contains(hay@, needle@),
{
    let h = chars_of(hay);
    let n = chars_of(needle);
    if n.len() > h.len() {
        return false;
    }
    if n.len() == 0 {
        assert(h@.subrange(0, 0) =~= n@);
        assert(occurs_at(hay@, needle@, 0));
        return true;
    }
    let last = h.len() - n.len();
    let mut i: usize = 0;
    while i <= last
        invariant
            last == h@.len() - n@.len(),
            h@ == hay@,
            n@ == needle@,
            last < h.len(),
            0 < n@.len() <= h@.len(),
            i <= last + 1,
            forall|k: int| 0 <= k < i ==> !occurs_at(h@, n@, k),
        decreases last + 1 - i,
    {
        if matches_at(&h, &n, i) {
            assert(occurs_at(hay@, needle@, i as int));
            return true;
        }
        i = i + 1;
    }
    false
}

/// Whether `hay` begins with `prefix`, as `str::starts_with` with a string pattern.
pub fn str_starts_with(hay: &str, prefix: &str) -> (r: bool)
    ensures
        r == starts_with(hay@, prefix@),
{
    let h = chars_of(hay);
    let p = chars_of(prefix);
    if p.len() > h.len() {
        return false;
    }
    let r = matches_at(&h, &p, 0);
    r
}

/// Removes every leading and trailing `c`.
pub open spec fn trim_char(s: Seq<char>, c: char) -> Seq<char> {
    let lo = leading_count(s, c);
    if lo == s.len() {
        Seq::empty()
    } else {
        s.subrange(lo, s.len() - trailing_count(s, c))
    }
}

/// Number of consecutive `c` at the start of `s`.
pub open spec fn leading_count(s: Seq<char>, c: char) -> int
    decreases s.len(),
{
    if s.len() > 0 && s[0] == c {
        1 + leading_count(s.drop_first(), c)
    } else {
        0
    }
}

/// Number of consecutive `c` at the end of `s`.
pub open spec fn trailing_count(s: Seq<char>, c: char) -> int
    decreases s.len(),
{
    if s.len() > 0 && s.last() == c {
        1 + trailing_count(s.drop_last(), c)
    } else {
        0
    }
}

proof fn lemma_leading_count(s: Seq<char>, c: char, i: int)
    requires
        0 <= i <= s.len(),
        forall|k: int| 0 <= k < i ==> s[k] == c,
        i == s.len() || s[i] != c,
    ensures
        leading_count(s, c) == i,
    decreases i,
{
    if i > 0 {
        lemma_leading_count(s.drop_first(), c, i - 1);
    }
}

proof fn lemma_trailing_count(s: Seq<char>, c: char, j: int)
    requires
        0 <= j <= s.len(),
        forall|k: int| j <= k < s.len() ==> s[k] == c,
        j == 0 || s[j - 1] != c,
    ensures
        trailing_count(s, c) == s.len() - j,
    decreases s.len() - j,
{
    if j < s.len() {
        lemma_trailing_count(s.drop_last(), c, j);
    }
}

/// Removes every leading and trailing `c`, as `str::trim_matches` with a
/// character pattern.
pub fn trim_matches(s: &str, c: char) -> (r: String)
    ensures
        r@ == trim_char(s@, c),
{
    let cs = chars_of(s);
    let n = cs.len();
    let mut i: usize = 0;
    while i < n && cs[i] == c
        invariant
            n == cs@.len(),
            i <= n,
            forall|k: int| 0 <= k < i ==> cs@[k] == c,
        decreases n - i,
    {
        i = i + 1;
    }
    proof {
        lemma_leading_count(cs@, c, i as int);
    }
    if i == n {
        let r = String::new();
        return r;
    }
    let mut j: usize = n;
    while j > i && cs[j - 1] == c
        invariant
            n == cs@.len(),
            i < n,
            i <= j <= n,
            cs@[i as int] != c,
            forall|k: int| j <= k < n ==> cs@[k] == c,
        decreases j,
    {
        j = j - 1;
    }
    proof {
        lemma_trailing_count(cs@, c, j as int);
    }
    let mut r = String::new();
    let mut k: usize = i;
    while k < j
        invariant
            n == cs@.len(),
            i <= k <= j <= n,
            r@ == cs@.subrange(i as int, k as int),
        decreases j - k,
    {
        r.push(cs[k]);
        k = k + 1;
        assert(cs@.subrange(i as int, k as int) =~= cs@.subrange(i as int, k - 1).push(cs@[k - 1]));
    }
    r
}

proof fn lemma_leading_count_props(s: Seq<char>, c: char)
    ensures
        0 <= leading_count(s, c) <= s.len(),
        forall|i: int| 0 <= i < leading_count(s, c) ==> s[i] == c,
        leading_count(s, c) < s.len() ==> s[leading_count(s, c)] != c,
    decreases s.len(),
{
    if s.len() > 0 && s[0] == c {
        lemma_leading_count_props(s.drop_first(), c);
        assert forall|i: int| 0 <= i < leading_count(s, c) implies s[i] == c by {
            if i > 0 {
                assert(s[i] == s.drop_first()[i - 1]);
            }
        }
    }
}

proof fn lemma_trailing_count_props(s: Seq<char>, c: char)
    ensures
        0 <= trailing_count(s, c) <= s.len(),
        forall|i: int| s.len() - trailing_count(s, c) <= i < s.len() ==> s[i] == c,
        trailing_count(s, c) < s.len() ==> s[s.len() - trailing_count(s, c) - 1] != c,
    decreases s.len(),
{
    if s.len() > 0 && s.last() == c {
        lemma_trailing_count_props(s.drop_last(), c);
        assert forall|i: int| s.len() - trailing_count(s, c) <= i < s.len() implies s[i] == c by {
            if i < s.len() - 1 {
                assert(s[i] == s.drop_last()[i]);
            }
        }
    }
}

/// Trimming removes only `c` and leaves a text that neither begins nor
/// ends with `c`: the trimmed text is `s` between its leading and trailing
/// runs of `c`.
pub proof fn lemma_trim_char(s: Seq<char>, c: char)
    ensures
        trim_char(s, c).len() > 0 ==> trim_char(s, c)[0] != c && trim_char(s, c).last() != c,
        forall|i: int| 0 <= i < leading_count(s, c) ==> s[i] == c,
        forall|i: int| s.len() - trailing_count(s, c) <= i < s.len() ==> s[i] == c,
        trim_char(s, c).len() > 0 ==> trim_char(s, c) == s.subrange(
            leading_count(s, c),
            s.len() - trailing_count(s, c),
        ),
{
    lemma_leading_count_props(s, c);
    lemma_trailing_count_props(s, c);
    let lo = leading_count(s, c);
    let tc = trailing_count(s, c);
    if lo < s.len() {
        assert(s[lo] != c);
        if s.len() - tc <= lo {
            assert(s[lo] == c);
        }
        assert(lo < s.len() - tc);
    }
}

} // verus!
