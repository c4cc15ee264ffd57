use vstd::prelude::*;
use vstd::string::StringExecFns;

use crate::error::Error;
use crate::text::{
    digit_val, find_char, is_dec_digit, lemma_find_char, lemma_find_char_at, lemma_find_char_none,
    push_char, str_chars,
};

verus! {

// ---------------------------------------------------------------------------
// The build number
// ---------------------------------------------------------------------------

/// A four-part client version number `major.minor.patch.build`, ordered
/// lexicographically.
#[derive(Debug, Clone, Copy, PartialEq, Eq, Structural)]
pub struct GameBuild {
    pub major: u32,
    pub minor: u32,
    pub patch: u32,
    pub build: u32,
}

/// Strict lexicographic order on build numbers.
pub open spec fn build_lt(a: GameBuild, b: GameBuild) -> bool {
    if a.major != b.major {
        a.major < b.major
    } else if a.minor != b.minor {
        a.minor < b.minor
    } else if a.patch != b.patch {
        a.patch < b.patch
    } else {
        a.build < b.build
    }
}

/// Lexicographic order on build numbers.
pub open spec fn build_le(a: GameBuild, b: GameBuild) -> bool {
    build_lt(a, b) || a == b
}

impl GameBuild {
    /// Strict comparison, `self < other` lexicographically.
    pub fn lt(&self, other: &GameBuild) -> (r: bool)
        ensures
            r == build_lt(*self, *other),
    {
        if self.major != other.major {
            self.major < other.major
        } else if self.minor != other.minor {
            self.minor < other.minor
        } else if self.patch != other.patch {
            self.patch < other.patch
        } else {
            self.build < other.build
        }
    }

    /// Comparison, `self <= other` lexicographically.
    pub fn le(&self, other: &GameBuild) -> (r: bool)
        ensures
            r == build_le(*self, *other),
    {
        !other.lt(self)
    }
}

/// The lexicographic order is total: any two builds compare.
pub proof fn lemma_build_order_total(a: GameBuild, b: GameBuild)
    ensures
        build_le(a, b) || build_le(b, a),
{
}

/// The lexicographic order is antisymmetric.
pub proof fn lemma_build_order_antisymmetric(a: GameBuild, b: GameBuild)
    requires
        build_le(a, b),
        build_le(b, a),
    ensures
        a == b,
{
}

/// The lexicographic order is transitive.
pub proof fn lemma_build_order_transitive(a: GameBuild, b: GameBuild, c: GameBuild)
    requires
        build_le(a, b),
        build_le(b, c),
    ensures
        build_le(a, c),
{
}

// ---------------------------------------------------------------------------
// Build specifications in a definition
// ---------------------------------------------------------------------------

/// A definition's declaration of which builds a block of fields applies to:
/// one exact build, or an inclusive range.
#[derive(Debug, Clone, Copy)]
pub enum GameBuildSpec {
    Single(GameBuild),
    Range((GameBuild, GameBuild)),
}

impl GameBuildSpec {
    /// Which target builds this specification covers: exactly the single
    /// build, or everything inside the inclusive range.
    pub open spec fn spec_matches(self, x: GameBuild) -> bool {
        match self {
            GameBuildSpec::Single(a) => x == a,
            GameBuildSpec::Range((lo, hi)) => build_le(lo, x) && build_le(x, hi),
        }
    }

    /// Does this specification cover the target build?
    pub fn matches_build(&self, x: &GameBuild) -> (r: bool)
        ensures
            r == self.spec_matches(*x),
    {
        match self {
            GameBuildSpec::Single(a) => *x == *a,
            GameBuildSpec::Range((lo, hi)) => lo.le(x) && x.le(hi),
        }
    }
}

// ---------------------------------------------------------------------------
// Decimal numerals
// ---------------------------------------------------------------------------

/// Every character is a decimal digit.
pub open spec fn all_dec_digits(s: Seq<char>) -> bool {
    forall|i: int| 0 <= i < s.len() ==> is_dec_digit(#[trigger] s[i])
}

/// Numeric value of a digit string, most significant digit first.
pub open spec fn dec_val(s: Seq<char>) -> int
    decreases s.len(),
{
    if s.len() == 0 {
        0
    } else {
        dec_val(s.drop_last()) * 10 + digit_val(s.last())
    }
}

/// The digit character for a value between 0 and 9.
pub open spec fn dec_digit_of(n: int) -> char {
    (('0' as int) + n) as char
}

/// The shortest decimal numeral of a non-negative number.
pub open spec fn dec_text(n: int) -> Seq<char>
    decreases n,
{
    if n < 0 {
        Seq::empty()
    } else if n <= 9 {
        seq![dec_digit_of(n)]
    } else {
        dec_text(n / 10).push(dec_digit_of(n % 10))
    }
}

/// A digit string has a non-negative value.
pub proof fn lemma_dec_val_nonneg(s: Seq<char>)
    requires
        all_dec_digits(s),
    ensures
        dec_val(s) >= 0,
    decreases s.len(),
{
    if s.len() > 0 {
        lemma_dec_val_nonneg(s.drop_last());
    }
}

/// A prefix of a digit string never exceeds the whole string's value.
pub proof fn lemma_dec_val_prefix(s: Seq<char>, i: int)
    requires
        all_dec_digits(s),
        0 <= i <= s.len(),
    ensures
        dec_val(s.subrange(0, i)) <= dec_val(s),
    decreases s.len() - i,
{
    if i == s.len() {
        assert(s.subrange(0, i) =~= s);
    } else {
        assert(s.drop_last() =~= s.subrange(0, s.len() - 1));
        lemma_dec_val_prefix(s.drop_last(), i);
        assert(s.drop_last().subrange(0, i) =~= s.subrange(0, i));
        lemma_dec_val_nonneg(s.drop_last());
    }
}

/// The numeral of `n` is all digits, and at least one of them.
pub proof fn lemma_dec_text_digits(n: int)
    requires
        n >= 0,
    ensures
        all_dec_digits(dec_text(n)),
        dec_text(n).len() >= 1,
    decreases n,
{
    if n > 9 {
        lemma_dec_text_digits(n / 10);
    }
}

/// Parsing the numeral of `n` yields `n` back.
pub proof fn lemma_dec_text_val(n: int)
    requires
        n >= 0,
    ensures
        dec_val(dec_text(n)) == n,
    decreases n,
{
    if n <= 9 {
        assert(dec_digit_of(n) as int == '0' as int + n);
        assert(dec_val(Seq::<char>::empty()) == 0);
        assert(seq![dec_digit_of(n)].drop_last() =~= Seq::<char>::empty());
        assert(seq![dec_digit_of(n)].last() == dec_digit_of(n));
        assert(dec_val(seq![dec_digit_of(n)]) == digit_val(dec_digit_of(n)));
    } else {
        lemma_dec_text_val(n / 10);
        assert(dec_digit_of(n % 10) as int == '0' as int + n % 10);
        assert(dec_text(n).drop_last() =~= dec_text(n / 10));
        assert(dec_text(n).last() == dec_digit_of(n % 10));
    }
}

/// What parsing a component yields: the value of a pure, in-range digit
/// string, and nothing otherwise.
pub open spec fn parse_u32_spec(s: Seq<char>) -> Option<u32> {
    if s.len() > 0 && all_dec_digits(s) && dec_val(s) <= u32::MAX {
        Some(dec_val(s) as u32)
    } else {
        None
    }
}

/// Parses a slice of decimal digits as a `u32`.
pub fn parse_u32_chars(s: &[char]) -> (r: Option<u32>)
    ensures
        r == parse_u32_spec(s@),
{
    let n = s.len();
    if n == 0 {
        return None;
    }
    let mut val: u64 = 0;
    let mut i: usize = 0;
    while i < n
        invariant
            0 <= i <= n,
            n == s@.len(),
            all_dec_digits(s@.subrange(0, i as int)),
            val == dec_val(s@.subrange(0, i as int)),
            val <= u32::MAX,
        decreases n - i,
    {
        let c = s[i];
        if !('0' <= c && c <= '9') {
            assert(!is_dec_digit(s@[i as int]));
            return None;
        }
        let d: u64 = (c as u32) as u64 - 48;
        let nv: u64 = val * 10 + d;
        proof {
            assert(s@.subrange(0, i + 1).drop_last() =~= s@.subrange(0, i as int));
            assert(s@.subrange(0, i + 1).last() == s@[i as int]);
        }
        if nv > u32::MAX as u64 {
            proof {
                if all_dec_digits(s@) && dec_val(s@) <= u32::MAX {
                    lemma_dec_val_prefix(s@, i + 1);
                }
            }
            return None;
        }
        val = nv;
        i += 1;
    }
    proof {
        assert(s@.subrange(0, n as int) =~= s@);
    }
    Some(val as u32)
}

/// Appends the decimal numeral of `n`.
pub fn push_dec_u32(s: &mut String, n: u32)
    ensures
        final (s)@ == old(s)@ + dec_text(n as int),
    decreases n,
{
    if n <= 9 {
        push_char(s, ((48 + n) as u8) as char);
        assert(old(s)@.push(((48 + n) as u8) as char) =~= old(s)@ + dec_text(n as int));
    } else {
        push_dec_u32(s, n / 10);
        push_char(s, ((48 + n % 10) as u8) as char);
        assert((old(s)@ + dec_text((n / 10) as int)).push(((48 + n % 10) as u8) as char) =~= old(
            s,
        )@ + dec_text(n as int));
    }
}

/// Appends the decimal numeral of a 64-bit number.
pub fn push_dec_u64(s: &mut String, n: u64)
    ensures
        final (s)@ == old(s)@ + dec_text(n as int),
    decreases n,
{
    if n <= 9 {
        push_char(s, ((48 + n) as u8) as char);
        assert(old(s)@.push(((48 + n) as u8) as char) =~= old(s)@ + dec_text(n as int));
    } else {
        push_dec_u64(s, n / 10);
        push_char(s, ((48 + n % 10) as u8) as char);
        assert((old(s)@ + dec_text((n / 10) as int)).push(((48 + n % 10) as u8) as char) =~= old(
            s,
        )@ + dec_text(n as int));
    }
}

// ---------------------------------------------------------------------------
// Splitting on a separator
// ---------------------------------------------------------------------------

/// The pieces of `s` between occurrences of `sep`: always at least one
/// piece, and none of the pieces holds `sep`.
pub open spec fn split_char(s: Seq<char>, sep: char) -> Seq<Seq<char>>
    decreases s.len(),
{
    let i = find_char(s, sep);
    if 0 <= i < s.len() {
        seq![s.subrange(0, i)] + split_char(s.subrange(i + 1, s.len() as int), sep)
    } else {
        seq![s]
    }
}

/// Splits a character slice on every occurrence of `sep`.
pub fn split_char_in(s: &[char], sep: char) -> (r: Vec<Vec<char>>)
    ensures
        r.deep_view() == split_char(s@, sep),
    decreases s@.len(),
{
    let n = s.len();
    match crate::text::find_char_in(s, sep) {
        Some(i) => {
            proof {
                lemma_find_char(s@, sep);
            }
            let head = crate::text::chars_to_vec(s, 0, i);
            let mut rest = split_char_in(&s[i + 1..n], sep);
            let mut r: Vec<Vec<char>> = Vec::new();
            r.push(head);
            r.append(&mut rest);
            proof {
                assert(r.deep_view() =~~= split_char(s@, sep));
            }
            r
        },
        None => {
            let whole = crate::text::chars_to_vec(s, 0, n);
            let mut r: Vec<Vec<char>> = Vec::new();
            r.push(whole);
            proof {
                assert(r.deep_view() =~~= split_char(s@, sep));
            }
            r
        },
    }
}

/// Splitting text that starts with a separator-free piece and an explicit
/// separator yields that piece, then the split of the remainder.
pub proof fn lemma_split_prepend(x: Seq<char>, rest: Seq<char>, sep: char)
    requires
        forall|i: int| 0 <= i < x.len() ==> #[trigger] x[i] != sep,
    ensures
        split_char(x + seq![sep] + rest, sep) == seq![x] + split_char(rest, sep),
{
    let s = x + seq![sep] + rest;
    assert(s[x.len() as int] == sep);
    assert forall|j: int| 0 <= j < x.len() implies s[j] != sep by {
        assert(s[j] == x[j]);
    }
    lemma_find_char_at(s, sep, x.len() as int);
    assert(s.subrange(0, x.len() as int) =~= x);
    assert(s.subrange(x.len() as int + 1, s.len() as int) =~= rest);
    assert(split_char(s, sep) =~~= seq![x] + split_char(rest, sep));
}

/// Splitting separator-free text yields just that text.
pub proof fn lemma_split_whole(x: Seq<char>, sep: char)
    requires
        forall|i: int| 0 <= i < x.len() ==> #[trigger] x[i] != sep,
    ensures
        split_char(x, sep) == seq![x],
{
    lemma_find_char_none(x, sep);
}

// ---------------------------------------------------------------------------
// Parsing and printing the dotted form
// ---------------------------------------------------------------------------

/// The component of the dotted form at position `i`, with absent trailing
/// components reading as zero.
pub open spec fn build_component(parts: Seq<Seq<char>>, i: int) -> u32 {
    if 0 <= i < parts.len() {
        parse_u32_spec(parts[i]).unwrap()
    } else {
        0
    }
}

/// What parsing a dotted build string yields: up to four dot-separated
/// decimal components, each a `u32`; anything else is rejected.
pub open spec fn parse_build_spec(s: Seq<char>) -> Option<GameBuild> {
    let parts = split_char(s, '.');
    if parts.len() <= 4 && (forall|i: int|
        0 <= i < parts.len() ==> (#[trigger] parse_u32_spec(parts[i])) is Some) {
        Some(
            GameBuild {
                major: build_component(parts, 0),
                minor: build_component(parts, 1),
                patch: build_component(parts, 2),
                build: build_component(parts, 3),
            },
        )
    } else {
        None
    }
}

/// Parses the dotted form from a character slice.
pub fn parse_build_chars(s: &[char]) -> (r: Option<GameBuild>)
    ensures
        r == parse_build_spec(s@),
{
    let parts = split_char_in(s, '.');
    if parts.len() > 4 {
        return None;
    }
    let mut vals: Vec<u32> = Vec::new();
    let mut k: usize = 0;
    while k < parts.len()
        invariant
            0 <= k <= parts@.len() <= 4,
            parts.deep_view() == split_char(s@, '.'),
            vals@.len() == k,
            forall|i: int|
                0 <= i < k ==> (#[trigger] parse_u32_spec(parts.deep_view()[i])) is Some
                    && vals@[i] == parse_u32_spec(parts.deep_view()[i])->Some_0,
        decreases parts@.len() - k,
    {
        proof {
            assert(parts.deep_view()[k as int] =~= parts@[k as int]@);
        }
        match parse_u32_chars(parts[k].as_slice()) {
            Some(v) => {
                vals.push(v);
            },
            None => {
                return None;
            },
        }
        k += 1;
    }
    let major = if vals.len() > 0 { vals[0] } else { 0 };
    let minor = if vals.len() > 1 { vals[1] } else { 0 };
    let patch = if vals.len() > 2 { vals[2] } else { 0 };
    let build = if vals.len() > 3 { vals[3] } else { 0 };
    Some(GameBuild { major, minor, patch, build })
}

impl GameBuild {
    /// Parses the dotted string form, for example `3.3.5.12340`. Missing
    /// trailing components read as zero; a component that is not a plain
    /// decimal `u32`, or a fifth component, is an error.
    pub fn try_from(value: &str) -> (r: Result<GameBuild, Error>)
        ensures
            r is Ok <==> parse_build_spec(value@) is Some,
            r is Ok ==> r->Ok_0 == parse_build_spec(value@)->Some_0,
            r is Err ==> r->Err_0 is GenericError,
    {
        let chars = str_chars(value);
        match parse_build_chars(chars.as_slice()) {
            Some(b) => Ok(b),
            None => Err(
                Error::GenericError(String::from_str("can't convert string to game build")),
            ),
        }
    }

    /// The dotted string form of this build, `major.minor.patch.build`.
    pub fn to_text(&self) -> (r: String)
        ensures
            r@ == build_text(*self),
    {
        let mut r = String::new();
        push_dec_u32(&mut r, self.major);
        push_char(&mut r, '.');
        push_dec_u32(&mut r, self.minor);
        push_char(&mut r, '.');
        push_dec_u32(&mut r, self.patch);
        push_char(&mut r, '.');
        push_dec_u32(&mut r, self.build);
        proof {
            assert(r@ =~= build_text(*self));
        }
        r
    }
}

/// The dotted form of a build number.
pub open spec fn build_text(b: GameBuild) -> Seq<char> {
    dec_text(b.major as int) + seq!['.'] + dec_text(b.minor as int) + seq!['.'] + dec_text(
        b.patch as int,
    ) + seq!['.'] + dec_text(b.build as int)
}

/// Printing a build and parsing the result yields the same build back.
pub proof fn lemma_build_text_round_trip(b: GameBuild)
    ensures
        parse_build_spec(build_text(b)) == Some(b),
{
    let ta = dec_text(b.major as int);
    let tb = dec_text(b.minor as int);
    let tc = dec_text(b.patch as int);
    let td = dec_text(b.build as int);
    lemma_dec_text_digits(b.major as int);
    lemma_dec_text_digits(b.minor as int);
    lemma_dec_text_digits(b.patch as int);
    lemma_dec_text_digits(b.build as int);
    lemma_dec_text_val(b.major as int);
    lemma_dec_text_val(b.minor as int);
    lemma_dec_text_val(b.patch as int);
    lemma_dec_text_val(b.build as int);
    let s = build_text(b);
    assert(s =~= ta + seq!['.'] + (tb + seq!['.'] + (tc + seq!['.'] + td)));
    lemma_split_prepend(ta, tb + seq!['.'] + (tc + seq!['.'] + td), '.');
    lemma_split_prepend(tb, tc + seq!['.'] + td, '.');
    lemma_split_prepend(tc, td, '.');
    lemma_split_whole(td, '.');
    let parts = split_char(s, '.');
    assert(parts =~~= seq![ta, tb, tc, td]);
    assert(parse_u32_spec(ta) == Some(b.major));
    assert(parse_u32_spec(tb) == Some(b.minor));
    assert(parse_u32_spec(tc) == Some(b.patch));
    assert(parse_u32_spec(td) == Some(b.build));
}

} // verus!
