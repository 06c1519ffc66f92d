//! The line grammars, as a deterministic specification-level parser.
//!
//! Each record variant owns one anchored, full-line grammar. A line either
//! matches a variant's grammar as a whole — possibly with some optional
//! groups absent — or does not match at all. The grammars follow greedy
//! matching: every token takes the longest run its character class allows,
//! a free-text field extends as far as the mandatory trailing tokens permit,
//! and the separator of the two WWV info fields is the last `->` of the line.
//!
//! Compared to historical cluster software this grammar makes three
//! deliberately stricter choices, all of them documented in the functions
//! below: a frequency needs at least one integer digit before the decimal
//! point, a locator is exactly two letters followed by two digits, and a
//! signal-strength value is an optional minus sign followed by digits. In
//! each case a line rejected here was either rejected by the looser rule as
//! well or produced a coercion failure instead of a clean rejection.
//!
//! [`parse_spec`] is the complete model of [`crate::parser::parse`]:
//! classification by literal prefix in fixed priority order, then the
//! classified variant's grammar against the entire line.

use vstd::prelude::*;

use crate::text::{
    class_pred, dec_val, is_at, is_digit, is_letter, is_upper, rev_run_start, rfind2, run_end,
    CharClass,
};
use crate::types::{DXView, MsgView, ParseError, RBNView, SpotView, WCYView, WWVView};

verus! {

// ---------------------------------------------------------------------------
// Shorthands over the text module
// ---------------------------------------------------------------------------

/// End of the run of spaces starting at `i`.
pub open spec fn sp_end(s: Seq<char>, i: int) -> int {
    run_end(s, i, class_pred(CharClass::Space))
}

/// End of the run of decimal digits starting at `i`.
pub open spec fn digit_end(s: Seq<char>, i: int) -> int {
    run_end(s, i, class_pred(CharClass::Digit))
}

/// End of the run of callsign characters starting at `i`.
pub open spec fn call_end(s: Seq<char>, i: int) -> int {
    run_end(s, i, class_pred(CharClass::Call))
}

/// End of the run of ASCII letters starting at `i`.
pub open spec fn letter_end(s: Seq<char>, i: int) -> int {
    run_end(s, i, class_pred(CharClass::Letter))
}

/// End of the run of letters and digits starting at `i`.
pub open spec fn alnum_end(s: Seq<char>, i: int) -> int {
    run_end(s, i, class_pred(CharClass::Alnum))
}

/// End of the run of spaces and colons starting at `i`.
pub open spec fn sep_end(s: Seq<char>, i: int) -> int {
    run_end(s, i, class_pred(CharClass::Sep))
}

/// End of the run of RBN info characters (letters and spaces) starting at `i`.
pub open spec fn info_end(s: Seq<char>, i: int) -> int {
    run_end(s, i, class_pred(CharClass::InfoCh))
}

/// Start of the run of spaces ending at `j`.
pub open spec fn sp_start(s: Seq<char>, j: int) -> int {
    rev_run_start(s, j, class_pred(CharClass::Space))
}

// ---------------------------------------------------------------------------
// Variant prefixes
// ---------------------------------------------------------------------------

/// `"DX de"`
pub open spec fn dx_prefix() -> Seq<char> {
    seq!['D', 'X', ' ', 'd', 'e']
}

/// `"WWV de"`
pub open spec fn wwv_prefix() -> Seq<char> {
    seq!['W', 'W', 'V', ' ', 'd', 'e']
}

/// `"WCY de"`
pub open spec fn wcy_prefix() -> Seq<char> {
    seq!['W', 'C', 'Y', ' ', 'd', 'e']
}

/// `"WX de"`
pub open spec fn wx_prefix() -> Seq<char> {
    seq!['W', 'X', ' ', 'd', 'e']
}

/// `"To ALL de"`
pub open spec fn toall_prefix() -> Seq<char> {
    seq!['T', 'o', ' ', 'A', 'L', 'L', ' ', 'd', 'e']
}

/// `"To LOCAL de"`
pub open spec fn tolocal_upper_prefix() -> Seq<char> {
    seq!['T', 'o', ' ', 'L', 'O', 'C', 'A', 'L', ' ', 'd', 'e']
}

/// `"To Local de"`
pub open spec fn tolocal_lower_prefix() -> Seq<char> {
    seq!['T', 'o', ' ', 'L', 'o', 'c', 'a', 'l', ' ', 'd', 'e']
}

/// The line carries one of the six recognized prefixes.
pub open spec fn has_known_prefix(s: Seq<char>) -> bool {
    ||| is_at(s, 0, dx_prefix())
    ||| is_at(s, 0, wwv_prefix())
    ||| is_at(s, 0, wcy_prefix())
    ||| is_at(s, 0, wx_prefix())
    ||| is_at(s, 0, toall_prefix())
    ||| is_at(s, 0, tolocal_upper_prefix())
    ||| is_at(s, 0, tolocal_lower_prefix())
}

// ---------------------------------------------------------------------------
// DX
// ---------------------------------------------------------------------------

/// Captured token groups of a DX line.
pub struct DxGroups {
    pub call_de: Seq<char>,
    pub freq_int: Seq<char>,
    pub freq_frac: Seq<char>,
    pub call_dx: Seq<char>,
    pub comment: Option<Seq<char>>,
    pub utc: Seq<char>,
    pub loc: Option<Seq<char>>,
}

/// Matches the tail of a DX line after the spotted callsign: an optional
/// comment, the mandatory four-digit UTC group with its `Z` marker, and an
/// optional grid locator, working inwards from the anchored line end.
pub open spec fn dx_tail(s: Seq<char>, a7: int, call_de: Seq<char>, freq_int: Seq<char>,
    freq_frac: Seq<char>, call_dx: Seq<char>) -> Option<DxGroups> {
    let n = s.len() as int;
    // optional locator: exactly two letters, then two digits, at the line end
    let has_loc = n - a7 >= 4 && is_letter(s[n - 4]) && is_letter(s[n - 3]) && is_digit(s[n - 2])
        && is_digit(s[n - 1]);
    let e = if has_loc { n - 4 } else { n };
    let z = sp_start(s, e);  // spaces between the marker and the locator
    if z - 1 <= a7 || s[z - 1] != 'Z' {
        None
    } else {
        let u = z - 5;  // start of the four UTC digits
        if u <= a7 {
            None
        } else if !(digit_end(s, u) >= z - 1) {
            None
        } else if s[u - 1] != ' ' {
            None
        } else {
            let utc = s.subrange(u, z - 1);
            let loc = if has_loc { Some(s.subrange(n - 4, n)) } else { None };
            let m = sp_start(s, u);  // strip the blank run before the UTC group
            if m == a7 {
                // no comment; both mandatory space runs must be represented
                if u - a7 >= 2 {
                    Some(DxGroups { call_de, freq_int, freq_frac, call_dx, comment: None, utc, loc })
                } else {
                    None
                }
            } else {
                if s[a7] != ' ' {
                    None
                } else {
                    let c0 = sp_end(s, a7);
                    if c0 >= m {
                        None
                    } else {
                        Some(DxGroups {
                            call_de,
                            freq_int,
                            freq_frac,
                            call_dx,
                            comment: Some(s.subrange(c0, m)),
                            utc,
                            loc,
                        })
                    }
                }
            }
        }
    }
}

/// Matches a whole DX line:
/// prefix, spotter callsign (at least three callsign characters, optionally
/// followed by a colon), the kilohertz frequency (digits, a point, one or
/// two fraction digits), the spotted callsign, and the tail.
pub open spec fn dx_match(s: Seq<char>) -> Option<DxGroups> {
    if !is_at(s, 0, dx_prefix()) {
        None
    } else {
        let a0 = sp_end(s, 5);
        if a0 == 5 {
            None
        } else {
            let a1 = call_end(s, a0);
            if a1 - a0 < 3 {
                None
            } else {
                let a2 = if a1 < s.len() && s[a1] == ':' { a1 + 1 } else { a1 };
                let a3 = sp_end(s, a2);
                let a4 = digit_end(s, a3);
                if a4 == a3 {
                    None
                } else if !(a4 < s.len() && s[a4] == '.') {
                    None
                } else {
                    let a5 = digit_end(s, a4 + 1);
                    let fr = a5 - (a4 + 1);
                    if !(1 <= fr && fr <= 2) {
                        None
                    } else {
                        let a6 = sp_end(s, a5);
                        let a7 = call_end(s, a6);
                        if a7 - a6 < 3 {
                            None
                        } else {
                            dx_tail(
                                s,
                                a7,
                                s.subrange(a0, a1),
                                s.subrange(a3, a4),
                                s.subrange(a4 + 1, a5),
                                s.subrange(a6, a7),
                            )
                        }
                    }
                }
            }
        }
    }
}

/// Frequency in hertz encoded by a DX line's kilohertz groups: with one or
/// two fraction digits the product with 1000 is exact, so this is the floor
/// of the decimal kilohertz value times 1000.
pub open spec fn dx_freq(g: DxGroups) -> int {
    dec_val(g.freq_int) * 1000 + dec_val(g.freq_frac) * (if g.freq_frac.len() == 1 {
        100int
    } else {
        10int
    })
}

/// The DX record a successful match extracts.
pub open spec fn dx_view(g: DxGroups) -> DXView {
    DXView {
        call_de: g.call_de,
        call_dx: g.call_dx,
        freq: dx_freq(g) as u64,
        utc: dec_val(g.utc) as u16,
        loc: g.loc,
        comment: g.comment,
    }
}

// ---------------------------------------------------------------------------
// WWV
// ---------------------------------------------------------------------------

/// Captured token groups of a WWV line.
pub struct WwvGroups {
    pub call_de: Seq<char>,
    pub utc: Seq<char>,
    pub sfi: Seq<char>,
    pub a: Seq<char>,
    pub k: Seq<char>,
    pub info1: Seq<char>,
    pub info2: Seq<char>,
}

/// `"SFI="`
pub open spec fn sfi_eq_lit() -> Seq<char> {
    seq!['S', 'F', 'I', '=']
}

/// `", A="`
pub open spec fn comma_a_lit() -> Seq<char> {
    seq![',', ' ', 'A', '=']
}

/// `", K="`
pub open spec fn comma_k_lit() -> Seq<char> {
    seq![',', ' ', 'K', '=']
}

/// `", "`
pub open spec fn comma_sp_lit() -> Seq<char> {
    seq![',', ' ']
}

/// Matches a whole WWV line: prefix, callsign (possibly empty), the
/// two-digit hour in angle brackets (with an optional `Z`), a colon, the
/// three indices `SFI`, `A` and `K` of one to three digits each, and two
/// free-text info fields separated by the last `->` of the line, each
/// stripped of surrounding blanks and non-empty.
pub open spec fn wwv_match(s: Seq<char>) -> Option<WwvGroups> {
    if !is_at(s, 0, wwv_prefix()) {
        None
    } else {
        let a0 = sp_end(s, 6);
        if a0 == 6 {
            None
        } else {
            let a1 = call_end(s, a0);
            let a2 = sp_end(s, a1);
            if a2 == a1 || !(a2 < s.len() && s[a2] == '<') {
                None
            } else {
                let u1 = digit_end(s, a2 + 1);
                if u1 - (a2 + 1) != 2 {
                    None
                } else {
                    let u2 = if u1 < s.len() && s[u1] == 'Z' { u1 + 1 } else { u1 };
                    if !(u2 < s.len() && s[u2] == '>') {
                        None
                    } else {
                        let b0 = sp_end(s, u2 + 1);
                        if !(b0 < s.len() && s[b0] == ':') {
                            None
                        } else {
                            let b1 = sp_end(s, b0 + 1);
                            if !is_at(s, b1, sfi_eq_lit()) {
                                None
                            } else {
                                wwv_indices(s, a1, a2, b1, s.subrange(a0, a1))
                            }
                        }
                    }
                }
            }
        }
    }
}

/// Matches the index and info portion of a WWV line, from the `SFI=` token.
pub open spec fn wwv_indices(s: Seq<char>, a1: int, a2: int, b1: int, call_de: Seq<char>)
    -> Option<WwvGroups> {
    let c0 = b1 + 4;
    let c1 = digit_end(s, c0);
    if !(1 <= c1 - c0 && c1 - c0 <= 3) || !is_at(s, c1, comma_a_lit()) {
        None
    } else {
        let d0 = c1 + 4;
        let d1 = digit_end(s, d0);
        if !(1 <= d1 - d0 && d1 - d0 <= 3) || !is_at(s, d1, comma_k_lit()) {
            None
        } else {
            let e0 = d1 + 4;
            let e1 = digit_end(s, e0);
            if !(1 <= e1 - e0 && e1 - e0 <= 3) || !is_at(s, e1, comma_sp_lit()) {
                None
            } else {
                let f0 = e1 + 2;
                let q = rfind2(s, s.len() - 2, '-', '>');
                if q < f0 {
                    None
                } else {
                    let m1 = sp_start(s, q);
                    if m1 <= f0 {
                        None
                    } else {
                        let g0 = sp_end(s, q + 2);
                        let m2 = sp_start(s, s.len() as int);
                        if !(g0 < m2) {
                            None
                        } else {
                            Some(WwvGroups {
                                call_de,
                                utc: s.subrange(a2 + 1, a2 + 3),
                                sfi: s.subrange(c0, c1),
                                a: s.subrange(d0, d1),
                                k: s.subrange(e0, e1),
                                info1: s.subrange(f0, m1),
                                info2: s.subrange(g0, m2),
                            })
                        }
                    }
                }
            }
        }
    }
}

/// The WWV record a successful match extracts.
pub open spec fn wwv_view(g: WwvGroups) -> WWVView {
    WWVView {
        call_de: g.call_de,
        utc: dec_val(g.utc) as u16,
        sfi: dec_val(g.sfi) as u16,
        a: dec_val(g.a) as u16,
        k: dec_val(g.k) as u16,
        info1: g.info1,
        info2: g.info2,
    }
}

// ---------------------------------------------------------------------------
// WCY
// ---------------------------------------------------------------------------

/// Captured token groups of a WCY line.
pub struct WcyGroups {
    pub call_de: Seq<char>,
    pub utc: Seq<char>,
    pub k: Seq<char>,
    pub expk: Seq<char>,
    pub a: Seq<char>,
    pub r: Seq<char>,
    pub sfi: Seq<char>,
    pub sa: Seq<char>,
    pub gmf: Seq<char>,
    pub au: Seq<char>,
}

/// `"K="`
pub open spec fn k_eq_lit() -> Seq<char> {
    seq!['K', '=']
}

/// `" expK="`
pub open spec fn expk_lit() -> Seq<char> {
    seq![' ', 'e', 'x', 'p', 'K', '=']
}

/// `" A="`
pub open spec fn sp_a_lit() -> Seq<char> {
    seq![' ', 'A', '=']
}

/// `" R="`
pub open spec fn sp_r_lit() -> Seq<char> {
    seq![' ', 'R', '=']
}

/// `" SFI="`
pub open spec fn sp_sfi_lit() -> Seq<char> {
    seq![' ', 'S', 'F', 'I', '=']
}

/// `" SA="`
pub open spec fn sp_sa_lit() -> Seq<char> {
    seq![' ', 'S', 'A', '=']
}

/// `" GMF="`
pub open spec fn sp_gmf_lit() -> Seq<char> {
    seq![' ', 'G', 'M', 'F', '=']
}

/// `" Au="`
pub open spec fn sp_au_lit() -> Seq<char> {
    seq![' ', 'A', 'u', '=']
}

/// Matches a whole WCY line: prefix, callsign (possibly empty), the
/// two-digit hour in angle brackets, a colon followed by at least one
/// space, the five indices of one to three digits each in fixed order with
/// single-space separators, the one-to-three-letter `SA` and `GMF` fields,
/// the two-letter aurora field, and nothing but spaces to the line end.
pub open spec fn wcy_match(s: Seq<char>) -> Option<WcyGroups> {
    if !is_at(s, 0, wcy_prefix()) {
        None
    } else {
        let a0 = sp_end(s, 6);
        if a0 == 6 {
            None
        } else {
            let a1 = call_end(s, a0);
            let a2 = sp_end(s, a1);
            if a2 == a1 || !(a2 < s.len() && s[a2] == '<') {
                None
            } else {
                let u1 = digit_end(s, a2 + 1);
                if u1 - (a2 + 1) != 2 || !(u1 < s.len() && s[u1] == '>') {
                    None
                } else {
                    let b0 = sp_end(s, u1 + 1);
                    if !(b0 < s.len() && s[b0] == ':') {
                        None
                    } else {
                        let b1 = sp_end(s, b0 + 1);
                        if b1 == b0 + 1 || !is_at(s, b1, k_eq_lit()) {
                            None
                        } else {
                            wcy_indices(s, a2, b1, s.subrange(a0, a1))
                        }
                    }
                }
            }
        }
    }
}

/// Matches the index portion of a WCY line, from the `K=` token.
pub open spec fn wcy_indices(s: Seq<char>, a2: int, b1: int, call_de: Seq<char>)
    -> Option<WcyGroups> {
    let c0 = b1 + 2;
    let c1 = digit_end(s, c0);
    if !(1 <= c1 - c0 && c1 - c0 <= 3) || !is_at(s, c1, expk_lit()) {
        None
    } else {
        let d0 = c1 + 6;
        let d1 = digit_end(s, d0);
        if !(1 <= d1 - d0 && d1 - d0 <= 3) || !is_at(s, d1, sp_a_lit()) {
            None
        } else {
            let e0 = d1 + 3;
            let e1 = digit_end(s, e0);
            if !(1 <= e1 - e0 && e1 - e0 <= 3) || !is_at(s, e1, sp_r_lit()) {
                None
            } else {
                let f0 = e1 + 3;
                let f1 = digit_end(s, f0);
                if !(1 <= f1 - f0 && f1 - f0 <= 3) || !is_at(s, f1, sp_sfi_lit()) {
                    None
                } else {
                    let g0 = f1 + 5;
                    let g1 = digit_end(s, g0);
                    if !(1 <= g1 - g0 && g1 - g0 <= 3) || !is_at(s, g1, sp_sa_lit()) {
                        None
                    } else {
                        let h0 = g1 + 4;
                        let h1 = letter_end(s, h0);
                        if !(1 <= h1 - h0 && h1 - h0 <= 3) || !is_at(s, h1, sp_gmf_lit()) {
                            None
                        } else {
                            let i0 = h1 + 5;
                            let i1 = letter_end(s, i0);
                            if !(1 <= i1 - i0 && i1 - i0 <= 3) || !is_at(s, i1, sp_au_lit()) {
                                None
                            } else {
                                let j0 = i1 + 4;
                                let j1 = letter_end(s, j0);
                                if j1 - j0 != 2 || sp_end(s, j1) != s.len() {
                                    None
                                } else {
                                    Some(WcyGroups {
                                        call_de,
                                        utc: s.subrange(a2 + 1, a2 + 3),
                                        k: s.subrange(c0, c1),
                                        expk: s.subrange(d0, d1),
                                        a: s.subrange(e0, e1),
                                        r: s.subrange(f0, f1),
                                        sfi: s.subrange(g0, g1),
                                        sa: s.subrange(h0, h1),
                                        gmf: s.subrange(i0, i1),
                                        au: s.subrange(j0, j1),
                                    })
                                }
                            }
                        }
                    }
                }
            }
        }
    }
}

/// The WCY record a successful match extracts.
pub open spec fn wcy_view(g: WcyGroups) -> WCYView {
    WCYView {
        call_de: g.call_de,
        utc: dec_val(g.utc) as u16,
        k: dec_val(g.k) as u16,
        expk: dec_val(g.expk) as u16,
        a: dec_val(g.a) as u16,
        r: dec_val(g.r) as u16,
        sfi: dec_val(g.sfi) as u16,
        sa: g.sa,
        gmf: g.gmf,
        au: g.au,
    }
}

// ---------------------------------------------------------------------------
// WX / ToAll / ToLocal
// ---------------------------------------------------------------------------

/// Captured token groups of a message line (WX, ToAll, ToLocal).
pub struct MsgGroups {
    pub call_de: Seq<char>,
    pub utc: Option<Seq<char>>,
    pub msg: Seq<char>,
}

/// The timestamp form `<HHMMZ>` occurs at position `t`.
pub open spec fn ts_at(s: Seq<char>, t: int) -> bool {
    &&& t + 7 <= s.len()
    &&& s[t] == '<'
    &&& digit_end(s, t + 1) >= t + 5
    &&& s[t + 5] == 'Z'
    &&& s[t + 6] == '>'
}

/// Matches the body of a message line after its prefix (`i0` is the prefix
/// length): callsign (possibly empty), an optional `<HHMMZ>` timestamp, a
/// non-empty run of spaces and colons, and the message, which is the whole
/// remainder of the line. With `spaced` the timestamp needs at least one
/// space before it (the ToLocal form); without it, at most one (WX, ToAll).
/// A timestamp is recognized only when a separator run follows it;
/// otherwise the angle-bracket text counts as part of the message.
pub open spec fn msg_body(s: Seq<char>, i0: int, spaced: bool) -> Option<MsgGroups> {
    let a0 = sp_end(s, i0);
    if a0 == i0 {
        None
    } else {
        let a1 = call_end(s, a0);
        let call_de = s.subrange(a0, a1);
        let t = if spaced {
            sp_end(s, a1)
        } else {
            if a1 < s.len() && s[a1] == ' ' {
                a1 + 1
            } else {
                a1
            }
        };
        let w = sep_end(s, t + 7);
        if (spaced ==> t > a1) && ts_at(s, t) && w > t + 7 {
            Some(MsgGroups {
                call_de,
                utc: Some(s.subrange(t + 1, t + 5)),
                msg: s.subrange(w, s.len() as int),
            })
        } else {
            let w2 = sep_end(s, a1);
            if w2 == a1 {
                None
            } else {
                Some(MsgGroups { call_de, utc: None, msg: s.subrange(w2, s.len() as int) })
            }
        }
    }
}

/// Matches a whole WX line.
pub open spec fn wx_match(s: Seq<char>) -> Option<MsgGroups> {
    if is_at(s, 0, wx_prefix()) {
        msg_body(s, 5, false)
    } else {
        None
    }
}

/// Matches a whole ToAll line.
pub open spec fn toall_match(s: Seq<char>) -> Option<MsgGroups> {
    if is_at(s, 0, toall_prefix()) {
        msg_body(s, 9, false)
    } else {
        None
    }
}

/// Matches a whole ToLocal line, in either spelling of its prefix.
pub open spec fn tolocal_match(s: Seq<char>) -> Option<MsgGroups> {
    if is_at(s, 0, tolocal_upper_prefix()) || is_at(s, 0, tolocal_lower_prefix()) {
        msg_body(s, 11, true)
    } else {
        None
    }
}

/// The message record a successful match extracts.
pub open spec fn msg_view(g: MsgGroups) -> MsgView {
    MsgView {
        call_de: g.call_de,
        utc: match g.utc {
            Some(u) => Some(dec_val(u) as u16),
            None => None,
        },
        msg: Some(g.msg),
    }
}

// ---------------------------------------------------------------------------
// RBN comment formats
// ---------------------------------------------------------------------------

/// Captured token groups of an RBN comment, covering both alternatives:
/// the speed form carries `speed`/`unit`, the locator form carries `loc`.
pub struct RbnGroups {
    pub mode: Seq<char>,
    pub neg: bool,
    pub db: Seq<char>,
    pub speed: Option<Seq<char>>,
    pub unit: Option<Seq<char>>,
    pub info: Seq<char>,
    pub loc: Option<Seq<char>>,
}

/// `"dB"`
pub open spec fn db_lit() -> Seq<char> {
    seq!['d', 'B']
}

/// `"WPM"`
pub open spec fn wpm_lit() -> Seq<char> {
    seq!['W', 'P', 'M']
}

/// `"BPS"`
pub open spec fn bps_lit() -> Seq<char> {
    seq!['B', 'P', 'S']
}

/// Matches the head both RBN forms share: a mode of at least two letters or
/// digits, then the signal strength (an optional minus sign and digits,
/// at most four characters in all) followed by the `dB` unit. Returns the
/// mode bounds, the sign, the digit bounds, and the position after `dB`.
pub open spec fn rbn_head(s: Seq<char>) -> Option<(int, bool, int, int, int)> {
    let a1 = alnum_end(s, 0);
    if a1 < 2 {
        None
    } else {
        let a2 = sp_end(s, a1);
        if a2 == a1 {
            None
        } else {
            let neg = a2 < s.len() && s[a2] == '-';
            let d0 = if neg { a2 + 1 } else { a2 };
            let d1 = digit_end(s, d0);
            if d1 == d0 || d1 - a2 > 4 {
                None
            } else {
                let b0 = sp_end(s, d1);
                if b0 == d1 || !is_at(s, b0, db_lit()) {
                    None
                } else {
                    Some((a1, neg, d0, d1, b0 + 2))
                }
            }
        }
    }
}

/// Matches the speed form of an RBN comment: mode, signal strength, speed
/// of one to three digits, the unit `WPM` or `BPS`, and a non-empty info
/// field of letters and spaces reaching the end of the comment.
pub open spec fn rbn1_match(s: Seq<char>) -> Option<RbnGroups> {
    match rbn_head(s) {
        None => None,
        Some((a1, neg, d0, d1, h)) => {
            let c0 = sp_end(s, h);
            if c0 == h {
                None
            } else {
                let c1 = digit_end(s, c0);
                if !(1 <= c1 - c0 && c1 - c0 <= 3) {
                    None
                } else {
                    let e0 = sp_end(s, c1);
                    if e0 == c1 {
                        None
                    } else {
                        let unit_ok = is_at(s, e0, wpm_lit()) || is_at(s, e0, bps_lit());
                        if !unit_ok {
                            None
                        } else {
                            let f0 = sp_end(s, e0 + 3);
                            if f0 == e0 + 3 || f0 == s.len() || info_end(s, f0) != s.len() {
                                None
                            } else {
                                Some(RbnGroups {
                                    mode: s.subrange(0, a1),
                                    neg,
                                    db: s.subrange(d0, d1),
                                    speed: Some(s.subrange(c0, c1)),
                                    unit: Some(s.subrange(e0, e0 + 3)),
                                    info: s.subrange(f0, s.len() as int),
                                    loc: None,
                                })
                            }
                        }
                    }
                }
            }
        },
    }
}

/// Matches the locator form of an RBN comment: mode, signal strength, an
/// optional grid locator of two upper-case letters and two digits, and a
/// non-empty info field of letters and spaces reaching the end of the
/// comment. Without a locator the two mandatory space runs leave at least
/// two blanks after `dB`.
pub open spec fn rbn2_match(s: Seq<char>) -> Option<RbnGroups> {
    match rbn_head(s) {
        None => None,
        Some((a1, neg, d0, d1, h)) => {
            let c0 = sp_end(s, h);
            if c0 == h {
                None
            } else {
                let locp = c0 + 4 <= s.len() && is_upper(s[c0]) && is_upper(s[c0 + 1]) && is_digit(
                    s[c0 + 2],
                ) && is_digit(s[c0 + 3]);
                if locp {
                    let f0 = sp_end(s, c0 + 4);
                    if f0 == c0 + 4 || f0 == s.len() || info_end(s, f0) != s.len() {
                        None
                    } else {
                        Some(RbnGroups {
                            mode: s.subrange(0, a1),
                            neg,
                            db: s.subrange(d0, d1),
                            speed: None,
                            unit: None,
                            info: s.subrange(f0, s.len() as int),
                            loc: Some(s.subrange(c0, c0 + 4)),
                        })
                    }
                } else {
                    if c0 - h < 2 || c0 == s.len() || info_end(s, c0) != s.len() {
                        None
                    } else {
                        Some(RbnGroups {
                            mode: s.subrange(0, a1),
                            neg,
                            db: s.subrange(d0, d1),
                            speed: None,
                            unit: None,
                            info: s.subrange(c0, s.len() as int),
                            loc: None,
                        })
                    }
                }
            }
        },
    }
}

/// Signed signal strength of an RBN match.
pub open spec fn rbn_db(g: RbnGroups) -> int {
    if g.neg {
        -dec_val(g.db)
    } else {
        dec_val(g.db)
    }
}

/// The RBN record a successful match extracts.
pub open spec fn rbn_view(g: RbnGroups) -> RBNView {
    RBNView {
        mode: g.mode,
        db: rbn_db(g) as i16,
        speed: match g.speed {
            Some(sp) => Some(dec_val(sp) as u16),
            None => None,
        },
        speed_unit: g.unit,
        info: g.info,
        loc: g.loc,
    }
}

// ---------------------------------------------------------------------------
// The complete models of `parse` and `parse_rbn`
// ---------------------------------------------------------------------------

/// The complete model of [`crate::parser::parse`]: classify by literal
/// prefix in fixed priority order, then run the classified variant's
/// grammar against the entire line. A line whose prefix is recognized but
/// whose body does not match fails with `InvalidContent`; a line without a
/// recognized prefix fails with `UnknownType`. A DX line whose frequency
/// does not fit the 64-bit hertz field is rejected as invalid content.
pub open spec fn parse_spec(s: Seq<char>) -> Result<SpotView, ParseError> {
    if is_at(s, 0, dx_prefix()) {
        match dx_match(s) {
            Some(g) => if dx_freq(g) <= u64::MAX {
                Ok(SpotView::DX(dx_view(g)))
            } else {
                Err(ParseError::InvalidContent)
            },
            None => Err(ParseError::InvalidContent),
        }
    } else if is_at(s, 0, wwv_prefix()) {
        match wwv_match(s) {
            Some(g) => Ok(SpotView::WWV(wwv_view(g))),
            None => Err(ParseError::InvalidContent),
        }
    } else if is_at(s, 0, wcy_prefix()) {
        match wcy_match(s) {
            Some(g) => Ok(SpotView::WCY(wcy_view(g))),
            None => Err(ParseError::InvalidContent),
        }
    } else if is_at(s, 0, wx_prefix()) {
        match wx_match(s) {
            Some(g) => Ok(SpotView::WX(msg_view(g))),
            None => Err(ParseError::InvalidContent),
        }
    } else if is_at(s, 0, toall_prefix()) {
        match toall_match(s) {
            Some(g) => Ok(SpotView::ToAll(msg_view(g))),
            None => Err(ParseError::InvalidContent),
        }
    } else if is_at(s, 0, tolocal_upper_prefix()) || is_at(s, 0, tolocal_lower_prefix()) {
        match tolocal_match(s) {
            Some(g) => Ok(SpotView::ToLocal(msg_view(g))),
            None => Err(ParseError::InvalidContent),
        }
    } else {
        Err(ParseError::UnknownType)
    }
}

/// The complete model of [`crate::parser::parse_rbn`]: the speed form is
/// tried first, then the locator form; a comment matching neither fails
/// with `InvalidContent`.
pub open spec fn rbn_spec(s: Seq<char>) -> Result<RBNView, ParseError> {
    match rbn1_match(s) {
        Some(g) => Ok(rbn_view(g)),
        None => match rbn2_match(s) {
            Some(g) => Ok(rbn_view(g)),
            None => Err(ParseError::InvalidContent),
        },
    }
}

} // verus!
