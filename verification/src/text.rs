//! Character-level scanning and decimal conversion.
//!
//! The line grammars in [`crate::grammar`] are stated over `Seq<char>` with
//! two primitive notions: the end of a run of characters from a class
//! ([`run_end`], with [`rev_run_start`] for scanning backwards) and literal
//! occurrence at a position ([`is_at`]). This module defines those notions,
//! their executable counterparts over `Vec<char>`, and verified conversion
//! between digit runs and integer values.

use vstd::prelude::*;
use vstd::string::*;

verus! {

// ---------------------------------------------------------------------------
// Character classes
// ---------------------------------------------------------------------------

/// The only blank the grammars accept between tokens.
pub open spec fn is_space(c: char) -> bool {
    c == ' '
}

/// ASCII decimal digit.
pub open spec fn is_digit(c: char) -> bool {
    '0' <= c && c <= '9'
}

/// Character allowed in a callsign: upper-case letter, digit, `/`, `-` or `#`.
pub open spec fn is_call_char(c: char) -> bool {
    ('A' <= c && c <= 'Z') || is_digit(c) || c == '/' || c == '-' || c == '#'
}

/// ASCII letter, either case.
pub open spec fn is_letter(c: char) -> bool {
    ('A' <= c && c <= 'Z') || ('a' <= c && c <= 'z')
}

/// Upper-case ASCII letter.
pub open spec fn is_upper(c: char) -> bool {
    'A' <= c && c <= 'Z'
}

/// ASCII letter or digit.
pub open spec fn is_alnum(c: char) -> bool {
    is_letter(c) || is_digit(c)
}

/// Space or colon: the separator run before a free-text message.
pub open spec fn is_sep(c: char) -> bool {
    c == ' ' || c == ':'
}

/// Character allowed in an RBN info field: ASCII letter or space.
pub open spec fn is_info_char(c: char) -> bool {
    is_letter(c) || c == ' '
}

/// A character class, so that one executable scanner serves every grammar.
#[derive(Clone, Copy, Debug, PartialEq, Eq)]
pub enum CharClass {
    Space,
    Digit,
    Call,
    Letter,
    Upper,
    Alnum,
    Sep,
    InfoCh,
}

/// The predicate a class stands for.
pub open spec fn class_pred(cc: CharClass) -> spec_fn(char) -> bool {
    match cc {
        CharClass::Space => |c: char| is_space(c),
        CharClass::Digit => |c: char| is_digit(c),
        CharClass::Call => |c: char| is_call_char(c),
        CharClass::Letter => |c: char| is_letter(c),
        CharClass::Upper => |c: char| is_upper(c),
        CharClass::Alnum => |c: char| is_alnum(c),
        CharClass::Sep => |c: char| is_sep(c),
        CharClass::InfoCh => |c: char| is_info_char(c),
    }
}

/// Decides membership of `c` in the class `cc`.
pub fn class_holds(cc: CharClass, c: char) -> (b: bool)
    ensures
        b == class_pred(cc)(c),
{
    match cc {
        CharClass::Space => c == ' ',
        CharClass::Digit => '0' <= c && c <= '9',
        CharClass::Call => ('A' <= c && c <= 'Z') || ('0' <= c && c <= '9') || c == '/' || c == '-'
            || c == '#',
        CharClass::Letter => ('A' <= c && c <= 'Z') || ('a' <= c && c <= 'z'),
        CharClass::Upper => 'A' <= c && c <= 'Z',
        CharClass::Alnum => ('A' <= c && c <= 'Z') || ('a' <= c && c <= 'z') || ('0' <= c && c
            <= '9'),
        CharClass::Sep => c == ' ' || c == ':',
        CharClass::InfoCh => ('A' <= c && c <= 'Z') || ('a' <= c && c <= 'z') || c == ' ',
    }
}

// ---------------------------------------------------------------------------
// Runs of characters
// ---------------------------------------------------------------------------

/// The end of the run of characters satisfying `p` that starts at `i`:
/// the first position at or after `i` whose character fails `p`, or the end
/// of the sequence.
pub open spec fn run_end(s: Seq<char>, i: int, p: spec_fn(char) -> bool) -> int
    decreases s.len() - i,
{
    if i < 0 || i >= s.len() || !p(s[i]) {
        i
    } else {
        run_end(s, i + 1, p)
    }
}

/// What `run_end` returns: a position no earlier than `i`, with `p` holding
/// on everything in between and failing at the result (unless at the end).
pub proof fn lemma_run_end(s: Seq<char>, i: int, p: spec_fn(char) -> bool)
    requires
        0 <= i <= s.len(),
    ensures
        i <= run_end(s, i, p) <= s.len(),
        forall|k: int| i <= k < run_end(s, i, p) ==> p(s[k]),
        run_end(s, i, p) < s.len() ==> !p(s[run_end(s, i, p)]),
    decreases s.len() - i,
{
    if i < s.len() && p(s[i]) {
        lemma_run_end(s, i + 1, p);
    }
}

/// A position with the run's defining properties is the run's end.
pub proof fn lemma_run_end_is(s: Seq<char>, i: int, j: int, p: spec_fn(char) -> bool)
    requires
        0 <= i <= j <= s.len(),
        forall|k: int| i <= k < j ==> p(s[k]),
        j < s.len() ==> !p(s[j]),
    ensures
        run_end(s, i, p) == j,
    decreases j - i,
{
    if i < j {
        lemma_run_end_is(s, i + 1, j, p);
    }
}

/// Every character of a digit run is a digit, stated directly over
/// [`is_digit`] for the conversion functions below.
pub proof fn lemma_digit_run(s: Seq<char>, i: int)
    requires
        0 <= i <= s.len(),
    ensures
        i <= run_end(s, i, class_pred(CharClass::Digit)) <= s.len(),
        forall|k: int|
            i <= k < run_end(s, i, class_pred(CharClass::Digit)) ==> is_digit(#[trigger] s[k]),
{
    lemma_run_end(s, i, class_pred(CharClass::Digit));
    assert forall|k: int|
        i <= k < run_end(s, i, class_pred(CharClass::Digit)) implies is_digit(s[k]) by {
        assert(class_pred(CharClass::Digit)(s[k]));
    }
}

/// Scans forward from `i` while characters belong to `cc`.
pub fn scan_while(v: &Vec<char>, i: usize, cc: CharClass) -> (j: usize)
    requires
        i <= v@.len(),
    ensures
        j == run_end(v@, i as int, class_pred(cc)),
        i <= j <= v@.len(),
{
    let mut j = i;
    while j < v.len() && class_holds(cc, v[j])
        invariant
            i <= j <= v@.len(),
            forall|k: int| i <= k < j ==> class_pred(cc)(v@[k]),
        decreases v@.len() - j,
    {
        j = j + 1;
    }
    proof {
        lemma_run_end_is(v@, i as int, j as int, class_pred(cc));
    }
    j
}

/// The start of the run of characters satisfying `p` that ends at `j`:
/// the least position from which everything up to `j` satisfies `p`.
pub open spec fn rev_run_start(s: Seq<char>, j: int, p: spec_fn(char) -> bool) -> int
    decreases j,
{
    if j <= 0 || j > s.len() || !p(s[j - 1]) {
        j
    } else {
        rev_run_start(s, j - 1, p)
    }
}

/// What `rev_run_start` returns, mirroring [`lemma_run_end`].
pub proof fn lemma_rev_run_start(s: Seq<char>, j: int, p: spec_fn(char) -> bool)
    requires
        0 <= j <= s.len(),
    ensures
        0 <= rev_run_start(s, j, p) <= j,
        forall|k: int| rev_run_start(s, j, p) <= k < j ==> p(s[k]),
        rev_run_start(s, j, p) > 0 ==> !p(s[rev_run_start(s, j, p) - 1]),
    decreases j,
{
    if j > 0 && p(s[j - 1]) {
        lemma_rev_run_start(s, j - 1, p);
    }
}

/// A position with the backward run's defining properties is its start.
pub proof fn lemma_rev_run_start_is(s: Seq<char>, i: int, j: int, p: spec_fn(char) -> bool)
    requires
        0 <= i <= j <= s.len(),
        forall|k: int| i <= k < j ==> p(s[k]),
        i > 0 ==> !p(s[i - 1]),
    ensures
        rev_run_start(s, j, p) == i,
    decreases j - i,
{
    if i < j {
        lemma_rev_run_start_is(s, i, j - 1, p);
    }
}

/// Scans backward from `j` while characters belong to `cc`.
pub fn scan_back(v: &Vec<char>, j: usize, cc: CharClass) -> (i: usize)
    requires
        j <= v@.len(),
    ensures
        i == rev_run_start(v@, j as int, class_pred(cc)),
        i <= j,
{
    let mut i = j;
    while i > 0 && class_holds(cc, v[i - 1])
        invariant
            0 <= i <= j <= v@.len(),
            forall|k: int| i <= k < j ==> class_pred(cc)(v@[k]),
        decreases i,
    {
        i = i - 1;
    }
    proof {
        lemma_rev_run_start_is(v@, i as int, j as int, class_pred(cc));
    }
    i
}

// ---------------------------------------------------------------------------
// Last occurrence of a two-character marker
// ---------------------------------------------------------------------------

/// The two characters `a`, `b` stand side by side at position `q`.
pub open spec fn two_at(s: Seq<char>, q: int, a: char, b: char) -> bool {
    0 <= q && q + 1 < s.len() && s[q] == a && s[q + 1] == b
}

/// The last position at or before `j` where `a` is followed by `b`, or `-1`
/// if there is none.
pub open spec fn rfind2(s: Seq<char>, j: int, a: char, b: char) -> int
    decreases j + 1,
{
    if j < 0 {
        -1
    } else if two_at(s, j, a, b) {
        j
    } else {
        rfind2(s, j - 1, a, b)
    }
}

/// A position carrying the marker, with no later one up to `j`, is what
/// `rfind2` finds.
pub proof fn lemma_rfind2_is(s: Seq<char>, j: int, q: int, a: char, b: char)
    requires
        q <= j,
        two_at(s, q, a, b),
        forall|k: int| q < k <= j ==> !two_at(s, k, a, b),
    ensures
        rfind2(s, j, a, b) == q,
    decreases j - q,
{
    if q < j {
        lemma_rfind2_is(s, j - 1, q, a, b);
    }
}

/// A non-negative `rfind2` result carries the marker and lies within range.
pub proof fn lemma_rfind2_found(s: Seq<char>, j: int, a: char, b: char)
    requires
        rfind2(s, j, a, b) >= 0,
    ensures
        two_at(s, rfind2(s, j, a, b), a, b),
        rfind2(s, j, a, b) <= j,
    decreases j + 1,
{
    if j >= 0 && !two_at(s, j, a, b) {
        lemma_rfind2_found(s, j - 1, a, b);
    }
}

/// If no position up to `j` carries the marker, `rfind2` reports `-1`.
pub proof fn lemma_rfind2_none(s: Seq<char>, j: int, a: char, b: char)
    requires
        forall|k: int| 0 <= k <= j ==> !two_at(s, k, a, b),
    ensures
        rfind2(s, j, a, b) == -1,
    decreases j + 1,
{
    if j >= 0 {
        lemma_rfind2_none(s, j - 1, a, b);
    }
}

/// Finds the last position at or before `j` where `a` is followed by `b`;
/// the vector's length marks that there is none.
pub fn rscan2(v: &Vec<char>, j: usize, a: char, b: char) -> (q: Option<usize>)
    requires
        j < v@.len() || j == 0,
    ensures
        match q {
            Some(p) => p == rfind2(v@, j as int, a, b),
            None => rfind2(v@, j as int, a, b) == -1,
        },
{
    if v.len() == 0 {
        proof {
            lemma_rfind2_none(v@, j as int, a, b);
        }
        return None;
    }
    let mut k = j;
    loop
        invariant
            0 <= k <= j < v@.len(),
            v@.len() <= usize::MAX,
            forall|m: int| k < m <= j ==> !two_at(v@, m, a, b),
        decreases k,
    {
        if k + 1 < v.len() && v[k] == a && v[k + 1] == b {
            proof {
                lemma_rfind2_is(v@, j as int, k as int, a, b);
            }
            return Some(k);
        }
        if k == 0 {
            proof {
                lemma_rfind2_none(v@, j as int, a, b);
            }
            return None;
        }
        k = k - 1;
    }
}

// ---------------------------------------------------------------------------
// Literals at a position
// ---------------------------------------------------------------------------

/// The sequence `t` occurs in `s` starting at position `i`.
pub open spec fn is_at(s: Seq<char>, i: int, t: Seq<char>) -> bool {
    0 <= i && i + t.len() <= s.len() && s.subrange(i, i + t.len()) == t
}

/// Decides whether the literal `lit` occurs in `v` at position `i`.
pub fn lit_at(v: &Vec<char>, i: usize, lit: &str) -> (b: bool)
    ensures
        b == is_at(v@, i as int, lit@),
{
    let tlen = lit.unicode_len();
    if i > v.len() || v.len() - i < tlen {
        return false;
    }
    let mut k: usize = 0;
    while k < tlen
        invariant
            0 <= k <= tlen,
            i + tlen <= v@.len(),
            v@.len() <= usize::MAX,
            tlen == lit@.len(),
            forall|m: int| 0 <= m < k ==> v@[i + m] == lit@[m],
        decreases tlen - k,
    {
        if v[i + k] != lit.get_char(k) {
            proof {
                assert(v@.subrange(i as int, i + tlen) != lit@) by {
                    assert(v@.subrange(i as int, i + tlen)[k as int] == v@[i + k]);
                }
            }
            return false;
        }
        k = k + 1;
    }
    proof {
        assert(v@.subrange(i as int, i + tlen) =~= lit@);
    }
    true
}

// ---------------------------------------------------------------------------
// Decimal digit runs
// ---------------------------------------------------------------------------

/// Numeric value of a digit character.
pub open spec fn digit_val(c: char) -> int {
    c as u32 - '0' as u32
}

/// Value of a run of decimal digits, most significant first.
pub open spec fn dec_val(s: Seq<char>) -> int
    decreases s.len(),
{
    if s.len() == 0 {
        0
    } else {
        dec_val(s.drop_last()) * 10 + digit_val(s.last())
    }
}

/// Powers of ten.
pub open spec fn pow10(n: nat) -> int
    decreases n,
{
    if n == 0 {
        1
    } else {
        10 * pow10((n - 1) as nat)
    }
}

/// A run of `n` digits has a value below `pow10(n)`, and no value is negative.
pub proof fn lemma_dec_val_bound(s: Seq<char>)
    requires
        forall|k: int| 0 <= k < s.len() ==> is_digit(s[k]),
    ensures
        0 <= dec_val(s) < pow10(s.len()),
    decreases s.len(),
{
    if s.len() > 0 {
        lemma_dec_val_bound(s.drop_last());
    }
}

/// Extending a digit run on the right multiplies its value by ten and adds
/// the new digit.
pub proof fn lemma_dec_val_snoc(s: Seq<char>, i: int, j: int)
    requires
        0 <= i <= j < s.len(),
    ensures
        dec_val(s.subrange(i, j + 1)) == dec_val(s.subrange(i, j)) * 10 + digit_val(s[j]),
{
    assert(s.subrange(i, j + 1).drop_last() =~= s.subrange(i, j));
    assert(s.subrange(i, j + 1).last() == s[j]);
}

/// The value of a digit run is at least the value of any of its prefixes.
pub proof fn lemma_dec_val_prefix(s: Seq<char>, i: int, j: int, m: int)
    requires
        0 <= i <= j <= m <= s.len(),
        forall|k: int| i <= k < m ==> is_digit(s[k]),
    ensures
        dec_val(s.subrange(i, j)) <= dec_val(s.subrange(i, m)),
    decreases m - j,
{
    if j < m {
        lemma_dec_val_snoc(s, i, j);
        lemma_dec_val_bound(s.subrange(i, j));
        assert(is_digit(s[j]));
        assert(dec_val(s.subrange(i, j + 1)) >= dec_val(s.subrange(i, j)));
        lemma_dec_val_prefix(s, i, j + 1, m);
    }
}

/// A subrange of digits is a digit sequence with a bounded value.
pub proof fn lemma_subrange_digits(s: Seq<char>, i: int, j: int)
    requires
        0 <= i <= j <= s.len(),
        forall|k: int| i <= k < j ==> is_digit(s[k]),
    ensures
        forall|k: int| 0 <= k < j - i ==> is_digit(#[trigger] s.subrange(i, j)[k]),
        0 <= dec_val(s.subrange(i, j)) < pow10((j - i) as nat),
{
    assert forall|k: int| 0 <= k < j - i implies is_digit(s.subrange(i, j)[k]) by {
        assert(s.subrange(i, j)[k] == s[i + k]);
    }
    lemma_dec_val_bound(s.subrange(i, j));
}

/// Converts a run of at most four digits to its value.
pub fn dec_u16(v: &Vec<char>, from: usize, to: usize) -> (r: u16)
    requires
        from <= to <= v@.len(),
        to - from <= 4,
        forall|k: int| from <= k < to ==> is_digit(v@[k]),
    ensures
        r == dec_val(v@.subrange(from as int, to as int)),
{
    proof {
        reveal_with_fuel(pow10, 6);
    }
    let mut val: u16 = 0;
    let mut i = from;
    while i < to
        invariant
            from <= i <= to <= v@.len(),
            to - from <= 4,
            forall|k: int| from <= k < to ==> is_digit(v@[k]),
            val == dec_val(v@.subrange(from as int, i as int)),
            val < pow10((i - from) as nat),
            pow10(4) == 10000,
        decreases to - i,
    {
        proof {
            lemma_dec_val_snoc(v@, from as int, i as int);
            reveal_with_fuel(pow10, 6);
        }
        let d = (v[i] as u32) - 48;
        val = val * 10 + (d as u16);
        i = i + 1;
    }
    proof {
        assert(v@.subrange(from as int, i as int) =~= v@.subrange(from as int, to as int));
    }
    val
}

/// Converts an arbitrary run of digits to its value, or reports that the
/// value does not fit in a `u64`.
pub fn dec_u64(v: &Vec<char>, from: usize, to: usize) -> (r: Option<u64>)
    requires
        from <= to <= v@.len(),
        forall|k: int| from <= k < to ==> is_digit(v@[k]),
    ensures
        match r {
            Some(x) => x == dec_val(v@.subrange(from as int, to as int)),
            None => dec_val(v@.subrange(from as int, to as int)) > u64::MAX,
        },
{
    let mut val: u64 = 0;
    let mut i = from;
    while i < to
        invariant
            from <= i <= to <= v@.len(),
            forall|k: int| from <= k < to ==> is_digit(v@[k]),
            val == dec_val(v@.subrange(from as int, i as int)),
        decreases to - i,
    {
        proof {
            lemma_dec_val_snoc(v@, from as int, i as int);
        }
        let d = ((v[i] as u32) - 48) as u64;
        if val > (u64::MAX - d) / 10 {
            proof {
                assert(val * 10 + d > u64::MAX) by (nonlinear_arith)
                    requires
                        val > (u64::MAX - d) / 10,
                        d <= 9,
                ;
                lemma_dec_val_prefix(v@, from as int, i + 1, to as int);
            }
            return None;
        }
        proof {
            assert(val * 10 + d <= u64::MAX) by (nonlinear_arith)
                requires
                    val <= (u64::MAX - d) / 10,
                    d <= 9,
            ;
        }
        val = val * 10 + d;
        i = i + 1;
    }
    proof {
        assert(v@.subrange(from as int, i as int) =~= v@.subrange(from as int, to as int));
    }
    Some(val)
}

// ---------------------------------------------------------------------------
// Rendering integers as digit runs
// ---------------------------------------------------------------------------

/// The digit character for a value below ten.
pub open spec fn digit_char(d: int) -> char {
    if d == 0 {
        '0'
    } else if d == 1 {
        '1'
    } else if d == 2 {
        '2'
    } else if d == 3 {
        '3'
    } else if d == 4 {
        '4'
    } else if d == 5 {
        '5'
    } else if d == 6 {
        '6'
    } else if d == 7 {
        '7'
    } else if d == 8 {
        '8'
    } else {
        '9'
    }
}

/// Decimal rendering of a non-negative integer, without leading zeros.
pub open spec fn dec_str(n: int) -> Seq<char>
    decreases n,
{
    if n < 10 {
        seq![digit_char(n)]
    } else {
        dec_str(n / 10) + seq![digit_char(n % 10)]
    }
}

/// A decimal rendering is a non-empty run of digits.
pub proof fn lemma_dec_str_digits(n: int)
    requires
        n >= 0,
    ensures
        dec_str(n).len() >= 1,
        forall|k: int| 0 <= k < dec_str(n).len() ==> is_digit(#[trigger] dec_str(n)[k]),
    decreases n,
{
    if n >= 10 {
        lemma_dec_str_digits(n / 10);
    }
}

/// A digit character reads back as the value it renders.
pub proof fn lemma_digit_char_val(d: int)
    requires
        0 <= d < 10,
    ensures
        digit_val(digit_char(d)) == d,
{
}

/// Reading a decimal rendering back gives the value it was made from.
pub proof fn lemma_dec_val_dec_str(n: int)
    requires
        n >= 0,
    ensures
        dec_val(dec_str(n)) == n,
    decreases n,
{
    if n < 10 {
        lemma_digit_char_val(n);
        assert(dec_str(n).drop_last() =~= Seq::<char>::empty());
        assert(dec_str(n).last() == digit_char(n));
        assert(dec_val(Seq::<char>::empty()) == 0);
    } else {
        lemma_dec_val_dec_str(n / 10);
        lemma_digit_char_val(n % 10);
        assert((dec_str(n / 10) + seq![digit_char(n % 10)]).drop_last() =~= dec_str(n / 10));
        assert((dec_str(n / 10) + seq![digit_char(n % 10)]).last() == digit_char(n % 10));
        assert(dec_val(dec_str(n)) == dec_val(dec_str(n / 10)) * 10 + digit_val(
            digit_char(n % 10),
        ));
    }
}

/// The single-character string for a digit value.
pub fn digit_lit(d: u64) -> (r: &'static str)
    requires
        d < 10,
    ensures
        r@ =~= seq![digit_char(d as int)],
{
    proof {
        reveal_strlit("0");
        reveal_strlit("1");
        reveal_strlit("2");
        reveal_strlit("3");
        reveal_strlit("4");
        reveal_strlit("5");
        reveal_strlit("6");
        reveal_strlit("7");
        reveal_strlit("8");
        reveal_strlit("9");
    }
    match d {
        0 => "0",
        1 => "1",
        2 => "2",
        3 => "3",
        4 => "4",
        5 => "5",
        6 => "6",
        7 => "7",
        8 => "8",
        _ => "9",
    }
}

/// Renders a `u64` in decimal.
pub fn u64_str(n: u64) -> (r: String)
    ensures
        r@ == dec_str(n as int),
    decreases n,
{
    if n < 10 {
        String::from_str(digit_lit(n))
    } else {
        let mut s = u64_str(n / 10);
        s.append(digit_lit(n % 10));
        s
    }
}

// ---------------------------------------------------------------------------
// Strings and character vectors
// ---------------------------------------------------------------------------

/// Collects the characters of a string slice into a vector.
pub fn chars_of(s: &str) -> (v: Vec<char>)
    ensures
        v@ == s@,
{
    let n = s.unicode_len();
    let mut v: Vec<char> = Vec::new();
    let mut i: usize = 0;
    while i < n
        invariant
            0 <= i <= n,
            n == s@.len(),
            v@ =~= s@.subrange(0, i as int),
        decreases n - i,
    {
        v.push(s.get_char(i));
        i = i + 1;
    }
    proof {
        assert(v@ =~= s@);
    }
    v
}

/// Copies the character range `[from, to)` of `s` into an owned string.
pub fn extract(s: &str, from: usize, to: usize) -> (r: String)
    requires
        from <= to <= s@.len(),
    ensures
        r@ == s@.subrange(from as int, to as int),
{
    String::from_str(s.substring_char(from, to))
}

} // verus!
