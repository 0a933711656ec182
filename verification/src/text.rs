//! Text primitives shared by the rest of the library: characters of a string,
//! Unicode whitespace trimming, substring search, lowercasing and UTF-8 byte
//! lengths (cursors, limits and cuts are counted in bytes).

use vstd::prelude::*;
use vstd::utf8::encode_utf8;
use vstd::utf8::encode_scalar;
use vstd::utf8::is_ascii_chars;

verus! {

broadcast use vstd::string::group_string_axioms;

// ---------------------------------------------------------------------------
// Conversions between strings and character vectors
// ---------------------------------------------------------------------------

/// The characters of `s`, in order.
pub fn chars_of(s: &str) -> (v: Vec<char>)
    ensures
        v@ == s@,
{
    let mut v: Vec<char> = Vec::new();
    for c in it: s.chars()
        invariant
            it.seq() == s@,
            v@ == it.seq().take(it.index() as int),
    {
        v.push(c);
    }
    v
}

/// Appends one character to a string (`String::push`).
#[verifier::external_body]
pub(crate) fn push_char(s: &mut String, c: char)
    ensures
        final(s)@ == old(s)@.push(c),
{
    s.push(c);
}

/// The string made of the characters `v[from..to]`.
pub fn string_of_range(v: &Vec<char>, from: usize, to: usize) -> (s: String)
    requires
        from <= to <= v@.len(),
    ensures
        s@ == v@.subrange(from as int, to as int),
{
    let mut s = String::new();
    let mut i = from;
    while i < to
        invariant
            from <= i <= to <= v@.len(),
            s@ == v@.subrange(from as int, i as int),
        decreases to - i,
    {
        push_char(&mut s, v[i]);
        i += 1;
        assert(s@ =~= v@.subrange(from as int, i as int));
    }
    s
}

/// The string made of all characters of `v`.
pub fn string_of(v: &Vec<char>) -> (s: String)
    ensures
        s@ == v@,
{
    let s = string_of_range(v, 0, v.len());
    assert(v@.subrange(0, v@.len() as int) =~= v@);
    s
}

/// An owned copy of `s`.
pub fn owned(s: &str) -> (r: String)
    ensures
        r@ == s@,
{
    let v = chars_of(s);
    string_of(&v)
}

/// `a` followed by `b`.
pub fn concat2(a: &str, b: &str) -> (r: String)
    ensures
        r@ == a@ + b@,
{
    let mut r = owned(a);
    r.append(b);
    r
}

/// `a`, `b`, `c` one after the other.
pub fn concat3(a: &str, b: &str, c: &str) -> (r: String)
    ensures
        r@ == a@ + b@ + c@,
{
    let mut r = owned(a);
    r.append(b);
    r.append(c);
    r
}

/// `a`, `b`, `c`, `d` one after the other.
pub fn concat4(a: &str, b: &str, c: &str, d: &str) -> (r: String)
    ensures
        r@ == a@ + b@ + c@ + d@,
{
    let mut r = owned(a);
    r.append(b);
    r.append(c);
    r.append(d);
    r
}

/// Character-wise equality of two strings.
pub fn str_eq(a: &str, b: &str) -> (r: bool)
    ensures
        r == (a@ == b@),
{
    let x = chars_of(a);
    let y = chars_of(b);
    seq_eq(&x, &y)
}

/// Equality of two character vectors.
pub fn seq_eq(x: &Vec<char>, y: &Vec<char>) -> (r: bool)
    ensures
        r == (x@ == y@),
{
    if x.len() != y.len() {
        return false;
    }
    let mut i: usize = 0;
    while i < x.len()
        invariant
            x@.len() == y@.len(),
            i <= x@.len(),
            forall|k: int| 0 <= k < i ==> x@[k] == y@[k],
        decreases x@.len() - i,
    {
        if x[i] != y[i] {
            return false;
        }
        i += 1;
    }
    assert(x@ =~= y@);
    true
}

// ---------------------------------------------------------------------------
// Whitespace and trimming (`str::trim`)
// ---------------------------------------------------------------------------

/// Unicode `White_Space`, the set that `char::is_whitespace` and `str::trim` use.
pub open spec fn is_ws(c: char) -> bool {
    let u = c as u32;
    ||| 0x09 <= u <= 0x0d
    ||| u == 0x20
    ||| u == 0x85
    ||| u == 0xa0
    ||| u == 0x1680
    ||| 0x2000 <= u <= 0x200a
    ||| u == 0x2028
    ||| u == 0x2029
    ||| u == 0x202f
    ||| u == 0x205f
    ||| u == 0x3000
}

/// Whether `c` is whitespace.
pub fn is_whitespace(c: char) -> (b: bool)
    ensures
        b == is_ws(c),
{
    let u = c as u32;
    (0x09 <= u && u <= 0x0d) || u == 0x20 || u == 0x85 || u == 0xa0 || u == 0x1680 || (0x2000
        <= u && u <= 0x200a) || u == 0x2028 || u == 0x2029 || u == 0x202f || u == 0x205f || u
        == 0x3000
}

/// `s` without its leading whitespace.
pub open spec fn trim_start(s: Seq<char>) -> Seq<char>
    decreases s.len(),
{
    if s.len() > 0 && is_ws(s[0]) {
        trim_start(s.drop_first())
    } else {
        s
    }
}

/// `s` without its trailing whitespace.
pub open spec fn trim_end(s: Seq<char>) -> Seq<char>
    decreases s.len(),
{
    if s.len() > 0 && is_ws(s.last()) {
        trim_end(s.drop_last())
    } else {
        s
    }
}

/// `s` without leading and trailing whitespace.
pub open spec fn trim(s: Seq<char>) -> Seq<char> {
    trim_end(trim_start(s))
}

proof fn lemma_trim_start_skip(s: Seq<char>, i: int)
    requires
        0 <= i <= s.len(),
        forall|k: int| 0 <= k < i ==> is_ws(s[k]),
    ensures
        trim_start(s) == trim_start(s.skip(i)),
    decreases i,
{
    if i == 0 {
        assert(s.skip(0) =~= s);
    } else {
        assert(is_ws(s[0]));
        assert forall|k: int| 0 <= k < i - 1 implies is_ws(s.drop_first()[k]) by {
            assert(s.drop_first()[k] == s[k + 1]);
        }
        lemma_trim_start_skip(s.drop_first(), i - 1);
        assert(s.drop_first().skip(i - 1) =~= s.skip(i));
        assert(trim_start(s) == trim_start(s.drop_first()));
    }
}

proof fn lemma_trim_end_take(s: Seq<char>, j: int)
    requires
        0 <= j <= s.len(),
        forall|k: int| j <= k < s.len() ==> is_ws(s[k]),
    ensures
        trim_end(s) == trim_end(s.take(j)),
    decreases s.len() - j,
{
    if j < s.len() {
        assert(s.take(s.len() - 1) =~= s.drop_last());
        lemma_trim_end_take(s.drop_last(), j);
        assert(s.drop_last().take(j) =~= s.take(j));
    } else {
        assert(s.take(j) =~= s);
    }
}

/// The position range `[i, j)` of `trim(v)` inside `v`.
pub fn trim_range(v: &Vec<char>) -> (r: (usize, usize))
    ensures
        r.0 <= r.1 <= v@.len(),
        trim(v@) == v@.subrange(r.0 as int, r.1 as int),
        forall|k: int| 0 <= k < r.0 ==> is_ws(#[trigger] v@[k]),
        forall|k: int| r.1 <= k < v@.len() ==> is_ws(#[trigger] v@[k]),
{
    let n = v.len();
    let mut i: usize = 0;
    while i < n && is_whitespace(v[i])
        invariant
            i <= n == v@.len(),
            forall|k: int| 0 <= k < i ==> is_ws(#[trigger] v@[k]),
        decreases n - i,
    {
        i += 1;
    }
    proof {
        lemma_trim_start_skip(v@, i as int);
        if i < n {
            assert(!is_ws(v@.skip(i as int)[0]));
        }
    }
    let ghost t = v@.skip(i as int);
    assert(trim_start(v@) == t);
    let mut j: usize = n;
    while j > i && is_whitespace(v[j - 1])
        invariant
            i <= j <= n == v@.len(),
            forall|k: int| j <= k < n ==> is_ws(#[trigger] v@[k]),
        decreases j,
    {
        j -= 1;
    }
    proof {
        let jj = (j - i) as int;
        assert forall|k: int| jj <= k < t.len() implies is_ws(#[trigger] t[k]) by {
            assert(t[k] == v@[k + i]);
        }
        lemma_trim_end_take(t, jj);
        let u = t.take(jj);
        if jj > 0 {
            assert(u.last() == v@[j - 1]);
        }
        assert(trim_end(u) == u);
        assert(u =~= v@.subrange(i as int, j as int));
    }
    (i, j)
}

/// `trim(v)` as a vector.
pub fn trim_chars(v: &Vec<char>) -> (r: Vec<char>)
    ensures
        r@ == trim(v@),
{
    let (i, j) = trim_range(v);
    let mut r: Vec<char> = Vec::new();
    let mut k = i;
    while k < j
        invariant
            i <= k <= j <= v@.len(),
            r@ == v@.subrange(i as int, k as int),
        decreases j - k,
    {
        r.push(v[k]);
        k += 1;
        assert(r@ =~= v@.subrange(i as int, k as int));
    }
    r
}

/// `s` trimmed, as an owned string.
pub fn trim_str(s: &str) -> (r: String)
    ensures
        r@ == trim(s@),
{
    let v = chars_of(s);
    let (i, j) = trim_range(&v);
    string_of_range(&v, i, j)
}

// ---------------------------------------------------------------------------
// Prefixes and substrings
// ---------------------------------------------------------------------------

/// `s` begins with `p`.
pub open spec fn starts_with(s: Seq<char>, p: Seq<char>) -> bool {
    p.len() <= s.len() && s.take(p.len() as int) == p
}

/// `p` occurs in `s` at position `i`.
pub open spec fn occurs_at(s: Seq<char>, p: Seq<char>, i: int) -> bool {
    0 <= i && i + p.len() <= s.len() && s.subrange(i, i + p.len()) == p
}

/// `p` occurs somewhere in `s` (`str::contains` with a string pattern).
pub open spec fn contains(s: Seq<char>, p: Seq<char>) -> bool {
    exists|i: int| occurs_at(s, p, i)
}

/// Whether `s` begins with `p`.
pub fn vec_starts_with(s: &Vec<char>, p: &Vec<char>) -> (r: bool)
    ensures
        r == starts_with(s@, p@),
{
    if p.len() > s.len() {
        return false;
    }
    let mut i: usize = 0;
    while i < p.len()
        invariant
            p@.len() <= s@.len(),
            i <= p@.len(),
            forall|k: int| 0 <= k < i ==> s@[k] == p@[k],
        decreases p@.len() - i,
    {
        if s[i] != p[i] {
            assert(s@.take(p@.len() as int)[i as int] != p@[i as int]);
            return false;
        }
        i += 1;
    }
    assert(s@.take(p@.len() as int) =~= p@);
    true
}

/// Whether `p` occurs at position `at` of `s`.
fn vec_occurs_at(s: &Vec<char>, p: &Vec<char>, at: usize) -> (r: bool)
    requires
        at + p@.len() <= s@.len(),
    ensures
        r == occurs_at(s@, p@, at as int),
{
    let n = s.len();
    let mut i: usize = 0;
    while i < p.len()
        invariant
            n == s@.len(),
            at + p@.len() <= s@.len(),
            i <= p@.len(),
            forall|k: int| 0 <= k < i ==> s@[at + k] == p@[k],
        decreases p@.len() - i,
    {
        assert(at + i < s@.len());
        if s[at + i] != p[i] {
            assert(s@.subrange(at as int, at + p@.len())[i as int] != p@[i as int]);
            return false;
        }
        i += 1;
    }
    assert(s@.subrange(at as int, at + p@.len()) =~= p@);
    true
}

/// Whether `p` occurs in `s`.
pub fn vec_contains(s: &Vec<char>, p: &Vec<char>) -> (r: bool)
    ensures
        r == contains(s@, p@),
{
    if p.len() > s.len() {
        assert forall|i: int| !occurs_at(s@, p@, i) by {}
        return false;
    }
    let last = s.len() - p.len();
    let mut at: usize = 0;
    while at < last
        invariant
            last + p@.len() == s@.len(),
            at <= last,
            forall|i: int| 0 <= i < at ==> !occurs_at(s@, p@, i),
        decreases last - at,
    {
        if vec_occurs_at(s, p, at) {
            return true;
        }
        at += 1;
    }
    if vec_occurs_at(s, p, at) {
        return true;
    }
    assert forall|i: int| !occurs_at(s@, p@, i) by {
        if 0 <= i <= at {
        }
    }
    false
}

/// Whether the string `p` occurs in `s`.
pub fn vec_contains_str(s: &Vec<char>, p: &str) -> (r: bool)
    ensures
        r == contains(s@, p@),
{
    let pv = chars_of(p);
    vec_contains(s, &pv)
}

/// Whether `s` begins with the string `p`.
pub fn vec_starts_with_str(s: &Vec<char>, p: &str) -> (r: bool)
    ensures
        r == starts_with(s@, p@),
{
    let pv = chars_of(p);
    vec_starts_with(s, &pv)
}

/// Whether `s` equals the string `p`.
pub fn vec_eq_str(s: &Vec<char>, p: &str) -> (r: bool)
    ensures
        r == (s@ == p@),
{
    let pv = chars_of(p);
    seq_eq(s, &pv)
}

/// Index of the first `c` in `s`, or `s.len()` when there is none.
pub open spec fn find_char(s: Seq<char>, c: char) -> nat
    decreases s.len(),
{
    if s.len() == 0 {
        0
    } else if s[0] == c {
        0
    } else {
        1 + find_char(s.drop_first(), c)
    }
}

pub proof fn lemma_find_char(s: Seq<char>, c: char, i: int)
    requires
        0 <= i <= s.len(),
        forall|k: int| 0 <= k < i ==> s[k] != c,
        i == s.len() || s[i] == c,
    ensures
        find_char(s, c) == i,
    decreases i,
{
    if i > 0 {
        lemma_find_char(s.drop_first(), c, i - 1);
    }
}

/// Position of the first `c` in `s` (`s.len()` when absent).
pub fn vec_find_char(s: &Vec<char>, c: char) -> (r: usize)
    ensures
        r == find_char(s@, c),
        r <= s@.len(),
        forall|k: int| 0 <= k < r ==> s@[k] != c,
        r < s@.len() ==> s@[r as int] == c,
{
    let mut i: usize = 0;
    while i < s.len() && s[i] != c
        invariant
            i <= s@.len(),
            forall|k: int| 0 <= k < i ==> s@[k] != c,
        decreases s@.len() - i,
    {
        i += 1;
    }
    proof {
        lemma_find_char(s@, c, i as int);
    }
    i
}

// ---------------------------------------------------------------------------
// Lowercasing (`str::to_lowercase`)
// ---------------------------------------------------------------------------

/// What `str::to_lowercase` returns for a string with these characters.
pub uninterp spec fn lowercase(s: Seq<char>) -> Seq<char>;

/// ASCII lowercase of one character.
pub open spec fn ascii_lower(c: char) -> char {
    if 'A' <= c <= 'Z' {
        ((c as u32) + 32) as char
    } else {
        c
    }
}

/// ASCII lowercase of every character.
pub open spec fn ascii_lowercase(s: Seq<char>) -> Seq<char> {
    s.map_values(|c: char| ascii_lower(c))
}

/// Calls `str::to_lowercase`. Its result is named `lowercase`; of it this
/// contract claims only what the documentation plainly shows: on ASCII text
/// it lowercases the letters `A`-`Z` and keeps every other character. What it
/// does to other characters (Unicode case mapping) is left unsaid.
#[verifier::external_body]
pub(crate) fn to_lowercase(s: &str) -> (r: String)
    ensures
        r@ == lowercase(s@),
        is_ascii_chars(s@) ==> r@ == ascii_lowercase(s@),
{
    s.to_lowercase()
}

/// What `str::to_uppercase` returns for a string with these characters.
pub uninterp spec fn uppercase(s: Seq<char>) -> Seq<char>;

/// Calls `str::to_uppercase`. Its result is named `uppercase`; of it this
/// contract claims only what the documentation plainly shows: on ASCII text
/// it uppercases the letters `a`-`z` and keeps every other character. What it
/// does to other characters (Unicode case mapping) is left unsaid.
#[verifier::external_body]
pub(crate) fn to_uppercase(s: &str) -> (r: String)
    ensures
        r@ == uppercase(s@),
        is_ascii_chars(s@) ==> r@ == s@.map_values(|c: char| crate::api_error::ascii_upper(c)),
{
    s.to_uppercase()
}

/// The lowercase of the characters `v`.
pub fn lowercase_chars(v: &Vec<char>) -> (r: Vec<char>)
    ensures
        r@ == lowercase(v@),
        is_ascii_chars(v@) ==> r@ == ascii_lowercase(v@),
{
    let s = string_of(v);
    let l = to_lowercase(s.as_str());
    chars_of(l.as_str())
}

// ---------------------------------------------------------------------------
// UTF-8 byte lengths
// ---------------------------------------------------------------------------

/// A lowercase ASCII word is its own ASCII lowercase.
pub proof fn lemma_ascii_lowercase_of_lower(s: Seq<char>)
    requires
        forall|i: int| 0 <= i < s.len() ==> 'a' <= #[trigger] s[i] <= 'z',
    ensures
        is_ascii_chars(s),
        ascii_lowercase(s) == s,
{
    assert(ascii_lowercase(s) =~= s);
}

/// Number of bytes of the UTF-8 encoding of `c`.
pub open spec fn width(c: char) -> nat {
    let u = c as u32;
    if u < 0x80 {
        1
    } else if u < 0x800 {
        2
    } else if u < 0x10000 {
        3
    } else {
        4
    }
}

/// Number of bytes of the UTF-8 encoding of `s` (what `str::len` returns).
pub open spec fn blen(s: Seq<char>) -> nat
    decreases s.len(),
{
    if s.len() == 0 {
        0
    } else {
        width(s[0]) + blen(s.drop_first())
    }
}

/// `blen` is what `str::len` measures.
pub proof fn lemma_blen_encode(s: Seq<char>)
    ensures
        encode_utf8(s).len() == blen(s),
    decreases s.len(),
{
    if s.len() > 0 {
        lemma_blen_encode(s.drop_first());
        let c = s[0];
        vstd::utf8::char_is_scalar(c);
        assert(encode_scalar(c as u32).len() == width(c));
    }
}

/// Byte length of a concatenation.
pub proof fn lemma_blen_concat(a: Seq<char>, b: Seq<char>)
    ensures
        blen(a + b) == blen(a) + blen(b),
    decreases a.len(),
{
    if a.len() > 0 {
        lemma_blen_concat(a.drop_first(), b);
        assert((a + b).drop_first() =~= a.drop_first() + b);
    } else {
        assert(a + b =~= b);
    }
}

/// Byte length of a one-character extension.
pub proof fn lemma_blen_push(a: Seq<char>, c: char)
    ensures
        blen(a.push(c)) == blen(a) + width(c),
{
    lemma_blen_concat(a, seq![c]);
    assert(a.push(c) =~= a + seq![c]);
    assert(seq![c].drop_first() =~= Seq::<char>::empty());
    assert(blen(Seq::<char>::empty()) == 0);
    assert(blen(seq![c]) == width(c) + blen(seq![c].drop_first()));
}

/// Byte length of the first `k + 1` characters.
pub proof fn lemma_blen_take_step(s: Seq<char>, k: int)
    requires
        0 <= k < s.len(),
    ensures
        blen(s.take(k + 1)) == blen(s.take(k)) + width(s[k]),
{
    assert(s.take(k + 1) =~= s.take(k).push(s[k]));
    lemma_blen_push(s.take(k), s[k]);
}

/// Prefixes are no longer than the whole.
pub proof fn lemma_blen_take_mono(s: Seq<char>, i: int, j: int)
    requires
        0 <= i <= j <= s.len(),
    ensures
        blen(s.take(i)) <= blen(s.take(j)),
        i < j ==> blen(s.take(i)) < blen(s.take(j)),
    decreases j - i,
{
    if i < j {
        lemma_blen_take_mono(s, i, j - 1);
        lemma_blen_take_step(s, j - 1);
    }
}

/// At least one byte per character, at most four.
pub proof fn lemma_blen_bounds(s: Seq<char>)
    ensures
        s.len() <= blen(s) <= 4 * s.len(),
    decreases s.len(),
{
    if s.len() > 0 {
        lemma_blen_bounds(s.drop_first());
    }
}

/// Bytes of the UTF-8 encoding of `c` (`char::len_utf8`).
pub fn char_width(c: char) -> (w: usize)
    ensures
        w == width(c),
        1 <= w <= 4,
{
    let u = c as u32;
    if u < 0x80 {
        1
    } else if u < 0x800 {
        2
    } else if u < 0x10000 {
        3
    } else {
        4
    }
}

/// `b` is a character boundary of `s`: a byte offset at which some prefix of
/// whole characters ends.
pub open spec fn is_boundary(s: Seq<char>, b: int) -> bool {
    exists|k: int| 0 <= k <= s.len() && blen(#[trigger] s.take(k)) == b
}

/// The number of whole characters in the first `b` bytes of `s` (meaningful
/// where `b` is a boundary).
pub open spec fn chars_before(s: Seq<char>, b: int) -> int {
    choose|k: int| 0 <= k <= s.len() && blen(#[trigger] s.take(k)) == b
}

/// A boundary determines its character count.
pub proof fn lemma_boundary_unique(s: Seq<char>, k: int, b: int)
    requires
        0 <= k <= s.len(),
        blen(s.take(k)) == b,
    ensures
        is_boundary(s, b),
        chars_before(s, b) == k,
{
    assert(is_boundary(s, b));
    let k2 = chars_before(s, b);
    if k2 < k {
        lemma_blen_take_mono(s, k2, k);
    } else if k < k2 {
        lemma_blen_take_mono(s, k, k2);
    }
}

/// The number of characters of `v` whose encodings fill exactly the first
/// `b` bytes, or `None` when byte `b` falls inside a character or past the end.
pub fn char_index_of_byte(v: &Vec<char>, b: usize) -> (r: Option<usize>)
    ensures
        r is Some <==> is_boundary(v@, b as int),
        r matches Some(k) ==> k <= v@.len() && blen(v@.take(k as int)) == b && chars_before(
            v@,
            b as int,
        ) == k,
{
    let mut k: usize = 0;
    let mut acc: usize = 0;
    while k < v.len() && acc < b
        invariant
            k <= v@.len(),
            acc == blen(v@.take(k as int)),
            acc <= b || k == 0,
            forall|j: int| 0 <= j < k ==> blen(#[trigger] v@.take(j)) < b,
        decreases v@.len() - k,
    {
        proof {
            lemma_blen_take_step(v@, k as int);
        }
        let w = char_width(v[k]);
        if w > b - acc {
            k += 1;
            proof {
                assert forall|j: int| 0 <= j <= v@.len() implies blen(#[trigger] v@.take(j))
                    != b by {
                    if j < k {
                    } else if j > k {
                        lemma_blen_take_mono(v@, k as int, j);
                    }
                }
            }
            return None;
        }
        acc = acc + w;
        k += 1;
    }
    if acc == b {
        proof {
            lemma_boundary_unique(v@, k as int, b as int);
        }
        Some(k)
    } else {
        proof {
            assert forall|j: int| 0 <= j <= v@.len() implies blen(#[trigger] v@.take(j)) != b by {
                if j < k {
                } else {
                    lemma_blen_take_mono(v@, j, k as int);
                }
            }
        }
        None
    }
}

/// Whether the UTF-8 encoding of `v` is longer than `cap` bytes.
pub fn blen_exceeds(v: &Vec<char>, cap: usize) -> (r: bool)
    requires
        cap <= usize::MAX - 4,
    ensures
        r == (blen(v@) > cap),
{
    let mut k: usize = 0;
    let mut acc: usize = 0;
    assert(v@.take(v@.len() as int) =~= v@);
    while k < v.len()
        invariant
            k <= v@.len(),
            cap <= usize::MAX - 4,
            v@.take(v@.len() as int) == v@,
            acc == blen(v@.take(k as int)),
            acc <= cap,
        decreases v@.len() - k,
    {
        proof {
            lemma_blen_take_step(v@, k as int);
            lemma_blen_take_mono(v@, k + 1, v@.len() as int);
        }
        acc = acc + char_width(v[k]);
        k += 1;
        if acc > cap {
            return true;
        }
    }
    false
}

/// The UTF-8 byte length of the characters `v`.
pub fn byte_len(v: &Vec<char>) -> (n: usize)
    requires
        blen(v@) <= usize::MAX,
    ensures
        n == blen(v@),
{
    let mut k: usize = 0;
    let mut acc: usize = 0;
    assert(v@.take(v@.len() as int) =~= v@);
    while k < v.len()
        invariant
            k <= v@.len(),
            blen(v@) <= usize::MAX,
            v@.take(v@.len() as int) == v@,
            acc == blen(v@.take(k as int)),
        decreases v@.len() - k,
    {
        proof {
            lemma_blen_take_step(v@, k as int);
            lemma_blen_take_mono(v@, k + 1, v@.len() as int);
            assert(blen(v@.take(k + 1)) <= blen(v@));
        }
        acc = acc + char_width(v[k]);
        k += 1;
    }
    assert(v@.take(k as int) =~= v@);
    acc
}

} // verus!

verus! {

/// The decimal digit of `d` (`d < 10`).
pub open spec fn digit(d: nat) -> char {
    ((d + 48) as u32) as char
}

/// The decimal representation of `n`, as `Display` writes unsigned integers.
pub open spec fn decimal(n: nat) -> Seq<char>
    decreases n,
{
    if n < 10 {
        seq![digit(n)]
    } else {
        decimal(n / 10).push(digit(n % 10))
    }
}

fn decimal_chars(n: usize) -> (v: Vec<char>)
    ensures
        v@ == decimal(n as nat),
    decreases n,
{
    let d = (n % 10) as u32;
    let c = char_from_digit(d);
    if n < 10 {
        vec![c]
    } else {
        let mut v = decimal_chars(n / 10);
        v.push(c);
        v
    }
}

fn char_from_digit(d: u32) -> (c: char)
    requires
        d < 10,
    ensures
        c == digit(d as nat),
{
    let u: u8 = (d as u8) + 48;
    u as char
}

/// `n` written in decimal.
pub fn decimal_string(n: usize) -> (s: String)
    ensures
        s@ == decimal(n as nat),
{
    let v = decimal_chars(n);
    string_of(&v)
}

/// `k` whole characters of `s` fit in `b` bytes and one more would not.
pub open spec fn fits_exactly(s: Seq<char>, b: int, k: int) -> bool {
    0 <= k <= s.len() && blen(s.take(k)) <= b && (k == s.len() || blen(s.take(k + 1)) > b)
}

/// The number of whole characters of `s` that fit in its first `b` bytes.
pub open spec fn chars_within(s: Seq<char>, b: int) -> int {
    choose|k: int| fits_exactly(s, b, k)
}

/// Only one count of characters fits exactly.
pub proof fn lemma_fits_exactly_unique(s: Seq<char>, b: int, k: int, j: int)
    requires
        fits_exactly(s, b, k),
        fits_exactly(s, b, j),
    ensures
        k == j,
{
    if k < j {
        lemma_blen_take_mono(s, k + 1, j);
    } else if j < k {
        lemma_blen_take_mono(s, j + 1, k);
    }
}

/// The number of whole characters of `v` that fit in its first `b` bytes.
pub fn count_within(v: &Vec<char>, b: usize) -> (k: usize)
    ensures
        fits_exactly(v@, b as int, k as int),
        k == chars_within(v@, b as int),
{
    let mut k: usize = 0;
    let mut acc: usize = 0;
    assert(v@.take(0) =~= Seq::<char>::empty());
    while k < v.len() && char_width(v[k]) <= b - acc
        invariant
            k <= v@.len(),
            acc == blen(v@.take(k as int)),
            acc <= b,
        decreases v@.len() - k,
    {
        proof {
            lemma_blen_take_step(v@, k as int);
        }
        acc = acc + char_width(v[k]);
        k += 1;
    }
    proof {
        if k < v@.len() {
            lemma_blen_take_step(v@, k as int);
        }
        assert(fits_exactly(v@, b as int, k as int));
        lemma_fits_exactly_unique(v@, b as int, k as int, chars_within(v@, b as int));
    }
    k
}

/// The first `b` bytes of `s` followed by `suffix` (`&s[..b]` then the
/// suffix), where byte `b` is a character boundary of `s`.
pub fn byte_prefix_then(s: &str, b: usize, suffix: &str) -> (r: String)
    requires
        is_boundary(s@, b as int),
    ensures
        r@ == s@.take(chars_before(s@, b as int)) + suffix@,
{
    let v = chars_of(s);
    match char_index_of_byte(&v, b) {
        Some(k) => {
            let head = string_of_range(&v, 0, k);
            assert(v@.subrange(0, k as int) =~= v@.take(k as int));
            concat2(head.as_str(), suffix)
        },
        None => owned(""),
    }
}

} // verus!
