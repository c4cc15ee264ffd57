use vstd::prelude::*;

verus! {

use vstd::std_specs::iter::IteratorSpec;
use vstd::string::StringSliceAdditionalSpecFns;

broadcast use vstd::string::group_string_axioms;

// ---------------------------------------------------------------------------
// Character classes
// ---------------------------------------------------------------------------

/// ASCII whitespace, the only whitespace this crate trims.
pub open spec fn is_space(c: char) -> bool {
    c == ' ' || c == '\t' || c == '\r' || c == '\n'
}

/// ASCII decimal digit.
pub open spec fn is_dec_digit(c: char) -> bool {
    '0' <= c && c <= '9'
}

/// Numeric value of a decimal digit.
pub open spec fn digit_val(c: char) -> int {
    c as int - '0' as int
}

// ---------------------------------------------------------------------------
// Finding a character, or an adjacent pair of characters
// ---------------------------------------------------------------------------

/// Index of the first occurrence of `c` in `s`, or `-1` when absent.
pub open spec fn find_char(s: Seq<char>, c: char) -> int
    decreases s.len(),
{
    if s.len() == 0 {
        -1
    } else if s[0] == c {
        0
    } else {
        let r = find_char(s.drop_first(), c);
        if r == -1 {
            -1
        } else {
            r + 1
        }
    }
}

/// What [`find_char`] returns: the first index holding `c`, if any.
pub proof fn lemma_find_char(s: Seq<char>, c: char)
    ensures
        find_char(s, c) == -1 ==> (forall|i: int| 0 <= i < s.len() ==> s[i] != c),
        find_char(s, c) != -1 ==> 0 <= find_char(s, c) < s.len() && s[find_char(s, c)] == c
            && (forall|i: int| 0 <= i < find_char(s, c) ==> s[i] != c),
    decreases s.len(),
{
    if s.len() > 0 && s[0] != c {
        lemma_find_char(s.drop_first(), c);
        assert forall|i: int| 0 <= i < s.len() && find_char(s, c) == -1 implies s[i] != c by {
            if i > 0 {
                assert(s.drop_first()[i - 1] != c);
            }
        }
        if find_char(s, c) != -1 {
            assert forall|i: int| 0 <= i < find_char(s, c) implies s[i] != c by {
                if i > 0 {
                    assert(s.drop_first()[i - 1] != c);
                }
            }
        }
    }
}

/// A position that holds `c`, with no `c` before it, is what [`find_char`]
/// returns.
pub proof fn lemma_find_char_at(s: Seq<char>, c: char, i: int)
    requires
        0 <= i < s.len(),
        s[i] == c,
        forall|j: int| 0 <= j < i ==> s[j] != c,
    ensures
        find_char(s, c) == i,
    decreases i,
{
    if i > 0 {
        assert forall|j: int| 0 <= j < i - 1 implies s.drop_first()[j] != c by {
            assert(s[j + 1] != c);
        }
        assert(s.drop_first()[i - 1] == c);
        lemma_find_char_at(s.drop_first(), c, i - 1);
    }
}

/// When no position holds `c`, [`find_char`] reports absence.
pub proof fn lemma_find_char_none(s: Seq<char>, c: char)
    requires
        forall|j: int| 0 <= j < s.len() ==> s[j] != c,
    ensures
        find_char(s, c) == -1,
    decreases s.len(),
{
    if s.len() > 0 {
        assert forall|j: int| 0 <= j < s.drop_first().len() implies s.drop_first()[j] != c by {
            assert(s[j + 1] != c);
        }
        lemma_find_char_none(s.drop_first(), c);
    }
}

/// First index of `c` in the character slice, scanning left to right.
pub fn find_char_in(s: &[char], c: char) -> (r: Option<usize>)
    ensures
        match r {
            Some(i) => find_char(s@, c) == i as int,
            None => find_char(s@, c) == -1,
        },
{
    let n = s.len();
    let mut i: usize = 0;
    while i < n
        invariant
            0 <= i <= n,
            n == s@.len(),
            forall|j: int| 0 <= j < i ==> s@[j] != c,
        decreases n - i,
    {
        if s[i] == c {
            proof {
                lemma_find_char_at(s@, c, i as int);
            }
            return Some(i);
        }
        i += 1;
    }
    proof {
        lemma_find_char_none(s@, c);
    }
    None
}

/// Index of the first occurrence of the adjacent pair `c0 c1`, or `-1`.
pub open spec fn find_pair(s: Seq<char>, c0: char, c1: char) -> int
    decreases s.len(),
{
    if s.len() < 2 {
        -1
    } else if s[0] == c0 && s[1] == c1 {
        0
    } else {
        let r = find_pair(s.drop_first(), c0, c1);
        if r == -1 {
            -1
        } else {
            r + 1
        }
    }
}

/// What [`find_pair`] returns: the first index starting the pair, if any.
pub proof fn lemma_find_pair(s: Seq<char>, c0: char, c1: char)
    ensures
        find_pair(s, c0, c1) == -1 ==> (forall|i: int|
            0 <= i < s.len() - 1 ==> !(#[trigger] s[i] == c0 && s[i + 1] == c1)),
        find_pair(s, c0, c1) != -1 ==> 0 <= find_pair(s, c0, c1) < s.len() - 1
            && s[find_pair(s, c0, c1)] == c0 && s[find_pair(s, c0, c1) + 1] == c1
            && (forall|i: int|
            0 <= i < find_pair(s, c0, c1) ==> !(#[trigger] s[i] == c0 && s[i + 1] == c1)),
    decreases s.len(),
{
    if s.len() >= 2 && !(s[0] == c0 && s[1] == c1) {
        lemma_find_pair(s.drop_first(), c0, c1);
        if find_pair(s, c0, c1) == -1 {
            assert forall|i: int| 0 <= i < s.len() - 1 implies !(#[trigger] s[i] == c0 && s[i + 1] == c1) by {
                if i > 0 {
                    assert(!(s.drop_first()[i - 1] == c0 && s.drop_first()[i] == c1));
                }
            }
        } else {
            assert forall|i: int| 0 <= i < find_pair(s, c0, c1) implies !(#[trigger] s[i] == c0 && s[i
                + 1] == c1) by {
                if i > 0 {
                    assert(!(s.drop_first()[i - 1] == c0 && s.drop_first()[i] == c1));
                }
            }
        }
    }
}

/// A position starting the pair, with none before it, is what [`find_pair`]
/// returns.
pub proof fn lemma_find_pair_at(s: Seq<char>, c0: char, c1: char, i: int)
    requires
        0 <= i < s.len() - 1,
        s[i] == c0,
        s[i + 1] == c1,
        forall|j: int| 0 <= j < i ==> !(#[trigger] s[j] == c0 && s[j + 1] == c1),
    ensures
        find_pair(s, c0, c1) == i,
    decreases i,
{
    if i > 0 {
        assert forall|j: int| 0 <= j < i - 1 implies !(#[trigger] s.drop_first()[j] == c0
            && s.drop_first()[j + 1] == c1) by {
            assert(!(s[j + 1] == c0 && s[j + 2] == c1));
        }
        assert(s.drop_first()[i - 1] == c0 && s.drop_first()[i] == c1);
        lemma_find_pair_at(s.drop_first(), c0, c1, i - 1);
    }
}

/// When no position starts the pair, [`find_pair`] reports absence.
pub proof fn lemma_find_pair_none(s: Seq<char>, c0: char, c1: char)
    requires
        forall|j: int| 0 <= j < s.len() - 1 ==> !(#[trigger] s[j] == c0 && s[j + 1] == c1),
    ensures
        find_pair(s, c0, c1) == -1,
    decreases s.len(),
{
    if s.len() >= 2 {
        assert forall|j: int| 0 <= j < s.drop_first().len() - 1 implies !(#[trigger] s.drop_first()[j]
            == c0 && s.drop_first()[j + 1] == c1) by {
            assert(!(s[j + 1] == c0 && s[j + 2] == c1));
        }
        lemma_find_pair_none(s.drop_first(), c0, c1);
    }
}

/// First index starting the adjacent pair `c0 c1` in the slice.
pub fn find_pair_in(s: &[char], c0: char, c1: char) -> (r: Option<usize>)
    ensures
        match r {
            Some(i) => find_pair(s@, c0, c1) == i as int,
            None => find_pair(s@, c0, c1) == -1,
        },
{
    let n = s.len();
    if n < 1 {
        proof {
            lemma_find_pair_none(s@, c0, c1);
        }
        return None;
    }
    let mut i: usize = 0;
    while i < n - 1
        invariant
            0 <= i <= n - 1,
            n >= 1,
            n == s@.len(),
            forall|j: int| 0 <= j < i ==> !(#[trigger] s@[j] == c0 && s@[j + 1] == c1),
        decreases n - i,
    {
        if s[i] == c0 && s[i + 1] == c1 {
            proof {
                lemma_find_pair_at(s@, c0, c1, i as int);
            }
            return Some(i);
        }
        i += 1;
    }
    proof {
        lemma_find_pair_none(s@, c0, c1);
    }
    None
}

// ---------------------------------------------------------------------------
// Trimming
// ---------------------------------------------------------------------------

/// `s` without its leading ASCII whitespace.
pub open spec fn trim_start_spec(s: Seq<char>) -> Seq<char>
    decreases s.len(),
{
    if s.len() > 0 && is_space(s[0]) {
        trim_start_spec(s.drop_first())
    } else {
        s
    }
}

/// `s` without its trailing ASCII whitespace.
pub open spec fn trim_end_spec(s: Seq<char>) -> Seq<char>
    decreases s.len(),
{
    if s.len() > 0 && is_space(s.last()) {
        trim_end_spec(s.drop_last())
    } else {
        s
    }
}

/// `s` without leading and trailing ASCII whitespace.
pub open spec fn trim_spec(s: Seq<char>) -> Seq<char> {
    trim_end_spec(trim_start_spec(s))
}

proof fn lemma_trim_start_range(s: Seq<char>, a: int)
    requires
        0 <= a <= s.len(),
        forall|j: int| 0 <= j < a ==> is_space(s[j]),
        a < s.len() ==> !is_space(s[a]),
    ensures
        trim_start_spec(s) =~= s.subrange(a, s.len() as int),
    decreases a,
{
    if a > 0 {
        assert(is_space(s[0]));
        assert forall|j: int| 0 <= j < a - 1 implies is_space(s.drop_first()[j]) by {
            assert(is_space(s[j + 1]));
        }
        lemma_trim_start_range(s.drop_first(), a - 1);
        assert(s.drop_first().subrange(a - 1, s.drop_first().len() as int) =~= s.subrange(
            a,
            s.len() as int,
        ));
    }
}

proof fn lemma_trim_end_range(s: Seq<char>, b: int)
    requires
        0 <= b <= s.len(),
        forall|j: int| b <= j < s.len() ==> is_space(s[j]),
        b > 0 ==> !is_space(s[b - 1]),
    ensures
        trim_end_spec(s) =~= s.subrange(0, b),
    decreases s.len() - b,
{
    if b < s.len() {
        assert(is_space(s.last()));
        lemma_trim_end_range(s.drop_last(), b);
        assert(s.drop_last().subrange(0, b) =~= s.subrange(0, b));
    }
}

/// Bounds `(from, to)` of the trimmed middle of `s`: the subrange they cut
/// is [`trim_spec`] of the whole.
pub fn trim_bounds(s: &[char]) -> (r: (usize, usize))
    ensures
        r.0 <= r.1 <= s@.len(),
        s@.subrange(r.0 as int, r.1 as int) =~= trim_spec(s@),
{
    let n = s.len();
    let mut a: usize = 0;
    while a < n && (s[a] == ' ' || s[a] == '\t' || s[a] == '\r' || s[a] == '\n')
        invariant
            0 <= a <= n,
            n == s@.len(),
            forall|j: int| 0 <= j < a ==> is_space(s@[j]),
        decreases n - a,
    {
        a += 1;
    }
    proof {
        lemma_trim_start_range(s@, a as int);
    }
    let mut b: usize = n;
    while b > a && (s[b - 1] == ' ' || s[b - 1] == '\t' || s[b - 1] == '\r' || s[b - 1] == '\n')
        invariant
            a <= b <= n,
            n == s@.len(),
            forall|j: int| b <= j < n ==> is_space(s@[j]),
        decreases b,
    {
        b -= 1;
    }
    proof {
        let t = s@.subrange(a as int, s@.len() as int);
        assert forall|j: int| b - a <= j < t.len() implies is_space(t[j]) by {
            assert(is_space(s@[j + a]));
        }
        if b > a {
            assert(!is_space(t[b - a - 1]));
        }
        lemma_trim_end_range(t, b - a);
        assert(t.subrange(0, b - a) =~= s@.subrange(a as int, b as int));
    }
    (a, b)
}

/// End bound of `s` without its trailing ASCII whitespace: the subrange up
/// to it is [`trim_end_spec`] of the whole.
pub fn trim_end_bound(s: &[char]) -> (b: usize)
    ensures
        b <= s@.len(),
        s@.subrange(0, b as int) =~= trim_end_spec(s@),
{
    let n = s.len();
    let mut b: usize = n;
    while b > 0 && (s[b - 1] == ' ' || s[b - 1] == '\t' || s[b - 1] == '\r' || s[b - 1] == '\n')
        invariant
            0 <= b <= n,
            n == s@.len(),
            forall|j: int| b <= j < n ==> is_space(s@[j]),
        decreases b,
    {
        b -= 1;
    }
    proof {
        lemma_trim_end_range(s@, b as int);
    }
    b
}

// ---------------------------------------------------------------------------
// Between characters and strings
// ---------------------------------------------------------------------------

/// The characters of `s`, as a vector.
pub fn str_chars(s: &str) -> (v: Vec<char>)
    ensures
        v@ == s@,
{
    let mut it = s.chars();
    let mut v: Vec<char> = Vec::new();
    proof {
        assert(v@ + it.remaining() =~= s@);
    }
    loop
        invariant
            v@ + it.remaining() =~= s@,
            it.decrease() is Some,
        ensures
            v@ =~= s@,
        decreases it.decrease()->0,
    {
        match it.next() {
            Some(c) => {
                v.push(c);
                proof {
                    assert(v@ + it.remaining() =~= s@);
                }
            },
            None => {
                proof {
                    assert(v@ =~= s@);
                }
                break ;
            },
        }
    }
    v
}

/// Appends one character to a string.
///
/// Relies on `String::push`: appends the given character to the end of the
/// string, leaving the rest unchanged.
#[verifier::external_body]
pub fn push_char(s: &mut String, c: char)
    ensures
        final (s)@ == old(s)@.push(c),
{
    s.push(c);
}

/// The string holding exactly `s[from..to]`.
pub fn chars_to_string(s: &[char], from: usize, to: usize) -> (r: String)
    requires
        from <= to <= s@.len(),
    ensures
        r@ =~= s@.subrange(from as int, to as int),
{
    let mut r = String::new();
    let mut i: usize = from;
    while i < to
        invariant
            from <= i <= to <= s@.len(),
            r@ =~= s@.subrange(from as int, i as int),
        decreases to - i,
    {
        push_char(&mut r, s[i]);
        assert(r@ =~= s@.subrange(from as int, i + 1));
        i += 1;
    }
    r
}

/// The vector holding exactly `s[from..to]`.
pub fn chars_to_vec(s: &[char], from: usize, to: usize) -> (r: Vec<char>)
    requires
        from <= to <= s@.len(),
    ensures
        r@ =~= s@.subrange(from as int, to as int),
{
    let mut r: Vec<char> = Vec::new();
    let mut i: usize = from;
    while i < to
        invariant
            from <= i <= to <= s@.len(),
            r@ =~= s@.subrange(from as int, i as int),
        decreases to - i,
    {
        r.push(s[i]);
        assert(r@ =~= s@.subrange(from as int, i + 1));
        i += 1;
    }
    r
}

/// Does `s` begin with `p`?
pub open spec fn has_prefix(s: Seq<char>, p: Seq<char>) -> bool {
    s.len() >= p.len() && s.subrange(0, p.len() as int) == p
}

/// Does `s` start with `prefix`?
pub fn starts_with_chars(s: &[char], prefix: &[char]) -> (r: bool)
    ensures
        r == has_prefix(s@, prefix@),
{
    let np = prefix.len();
    if s.len() < np {
        return false;
    }
    let mut i: usize = 0;
    while i < np
        invariant
            0 <= i <= np,
            np == prefix@.len(),
            s@.len() >= np,
            forall|j: int| 0 <= j < i ==> s@[j] == prefix@[j],
        decreases np - i,
    {
        if s[i] != prefix[i] {
            assert(s@.subrange(0, np as int)[i as int] != prefix@[i as int]);
            return false;
        }
        i += 1;
    }
    assert(s@.subrange(0, np as int) =~= prefix@);
    true
}

/// Are the slice and the sequence the same characters?
pub fn chars_eq(s: &[char], t: &[char]) -> (r: bool)
    ensures
        r == (s@ =~= t@),
{
    if s.len() != t.len() {
        return false;
    }
    let r = starts_with_chars(s, t);
    proof {
        assert(s@.subrange(0, s@.len() as int) =~= s@);
    }
    r
}

// ---------------------------------------------------------------------------
// Lowercasing, through the standard library
// ---------------------------------------------------------------------------

/// The lowercase form of a character sequence, as `str::to_lowercase`
/// computes it. The result depends on the characters alone.
pub uninterp spec fn lower_of(s: Seq<char>) -> Seq<char>;

/// Lowercases a string.
///
/// Relies on `str::to_lowercase`: returns the lowercase equivalent of the
/// string slice as a new string; the empty string stays empty.
#[verifier::external_body]
pub fn lowercase(s: &str) -> (r: String)
    ensures
        r@ == lower_of(s@),
        s@.len() == 0 ==> r@.len() == 0,
    {
    s.to_lowercase()
}

/// The vector holding exactly `s[from..to]` of a byte slice.
pub fn bytes_to_vec(s: &[u8], from: usize, to: usize) -> (r: Vec<u8>)
    requires
        from <= to <= s@.len(),
    ensures
        r@ =~= s@.subrange(from as int, to as int),
{
    let mut r: Vec<u8> = Vec::new();
    let mut i: usize = from;
    while i < to
        invariant
            from <= i <= to <= s@.len(),
            r@ =~= s@.subrange(from as int, i as int),
        decreases to - i,
    {
        r.push(s[i]);
        assert(r@ =~= s@.subrange(from as int, i + 1));
        i += 1;
    }
    r
}

// ---------------------------------------------------------------------------
// Decoding bytes into text, through the standard library
// ---------------------------------------------------------------------------

/// The text that lossy UTF-8 decoding yields for a byte sequence, with
/// replacement characters for invalid sequences. The result depends on
/// the bytes alone.
pub uninterp spec fn lossy_of(b: Seq<u8>) -> Seq<char>;

/// Decodes bytes as UTF-8, replacing invalid sequences.
///
/// Relies on `String::from_utf8_lossy`: decodes the bytes as UTF-8 with
/// U+FFFD for invalid sequences; empty input gives the empty string.
#[verifier::external_body]
pub fn bytes_to_string_lossy(b: &[u8]) -> (r: String)
    ensures
        r@ == lossy_of(b@),
        b@.len() == 0 ==> r@.len() == 0,
{
    String::from_utf8_lossy(b).into_owned()
}

/// Decodes bytes as strict UTF-8.
///
/// Relies on `str::from_utf8`: yields the string viewing exactly the
/// given bytes when they are valid UTF-8, and nothing otherwise.
#[verifier::external_body]
pub fn bytes_to_str(b: &[u8]) -> (r: Option<&str>)
    ensures
        r is Some <==> vstd::utf8::valid_utf8(b@),
        r is Some ==> r->0.spec_bytes() == b@,
{
    core::str::from_utf8(b).ok()
}

} // verus!
