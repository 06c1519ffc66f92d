//! The executable parser, verified against the grammar model.
//!
//! [`parse`] classifies a line by its literal prefix ([`ident_type`]) and
//! hands the zero-valued record of the classified variant to that variant's
//! extractor, which matches the whole line and fills the record field by
//! field; the partially filled record never escapes a failing call.
//! [`parse_rbn`] decodes the RBN convention inside a DX spot's comment.
//! Every function's contract ties its result to the spec-level parser in
//! [`crate::grammar`], so the executable code agrees with the model on
//! every input.

use vstd::prelude::*;

use crate::grammar::{
    bps_lit, comma_a_lit, comma_k_lit, comma_sp_lit, db_lit, dx_freq, dx_match, dx_prefix,
    dx_view, expk_lit, k_eq_lit, msg_body, msg_view, parse_spec, rbn1_match, rbn2_match, rbn_head,
    rbn_spec, rbn_view, sfi_eq_lit, sp_a_lit, sp_au_lit, sp_gmf_lit, sp_r_lit, sp_sa_lit,
    sp_sfi_lit, toall_match, toall_prefix, tolocal_lower_prefix, tolocal_match,
    tolocal_upper_prefix, ts_at, wcy_match, wcy_prefix, wpm_lit, wwv_match, wwv_prefix, wx_match,
    wx_prefix, DxGroups, RbnGroups, WcyGroups, WwvGroups,
};
use crate::text::{
    chars_of, class_holds, dec_u16, dec_u64, dec_val, extract, is_at,
    lemma_digit_run, lemma_rfind2_found, lemma_subrange_digits, lit_at, pow10,
    rscan2, scan_back, scan_while, CharClass,
};
use crate::types::{
    DXView, MsgView, ParseError, RBNView, Spot, SpotView, WCYView, WWVView, DX, RBN, ToAll,
    ToLocal, WCY, WWV, WX,
};

verus! {

/// Classifies a line by its literal prefix, in fixed priority order, and
/// returns the zero-valued record of that variant; a line with no
/// recognized prefix is refused as an unknown type. The remainder of the
/// line is not inspected here.
fn ident_type(v: &Vec<char>) -> (r: Result<Spot, ParseError>)
    ensures
        ({
            let s = v@;
            match r {
                Ok(sp) => match sp {
                    Spot::DX(d) => is_at(s, 0, dx_prefix()) && d@ == DXView::zeroed(),
                    Spot::WWV(w) => !is_at(s, 0, dx_prefix()) && is_at(s, 0, wwv_prefix()) && w@
                        == WWVView::zeroed(),
                    Spot::WCY(w) => !is_at(s, 0, dx_prefix()) && !is_at(s, 0, wwv_prefix())
                        && is_at(s, 0, wcy_prefix()) && w@ == WCYView::zeroed(),
                    Spot::WX(w) => !is_at(s, 0, dx_prefix()) && !is_at(s, 0, wwv_prefix())
                        && !is_at(s, 0, wcy_prefix()) && is_at(s, 0, wx_prefix()) && w@
                        == crate::types::msg_zeroed(),
                    Spot::ToAll(t) => !is_at(s, 0, dx_prefix()) && !is_at(s, 0, wwv_prefix())
                        && !is_at(s, 0, wcy_prefix()) && !is_at(s, 0, wx_prefix()) && is_at(
                        s,
                        0,
                        toall_prefix(),
                    ) && t@ == crate::types::msg_zeroed(),
                    Spot::ToLocal(t) => !is_at(s, 0, dx_prefix()) && !is_at(s, 0, wwv_prefix())
                        && !is_at(s, 0, wcy_prefix()) && !is_at(s, 0, wx_prefix()) && !is_at(
                        s,
                        0,
                        toall_prefix(),
                    ) && (is_at(s, 0, tolocal_upper_prefix()) || is_at(
                        s,
                        0,
                        tolocal_lower_prefix(),
                    )) && t@ == crate::types::msg_zeroed(),
                },
                Err(e) => e == ParseError::UnknownType && !crate::grammar::has_known_prefix(s),
            }
        }),
{
    proof {
        reveal_strlit("DX de");
        reveal_strlit("WWV de");
        reveal_strlit("WCY de");
        reveal_strlit("WX de");
        reveal_strlit("To ALL de");
        reveal_strlit("To LOCAL de");
        reveal_strlit("To Local de");
        assert("DX de"@ =~= dx_prefix());
        assert("WWV de"@ =~= wwv_prefix());
        assert("WCY de"@ =~= wcy_prefix());
        assert("WX de"@ =~= wx_prefix());
        assert("To ALL de"@ =~= toall_prefix());
        assert("To LOCAL de"@ =~= tolocal_upper_prefix());
        assert("To Local de"@ =~= tolocal_lower_prefix());
    }
    if lit_at(v, 0, "DX de") {
        Ok(Spot::DX(DX::new()))
    } else if lit_at(v, 0, "WWV de") {
        Ok(Spot::WWV(WWV::new()))
    } else if lit_at(v, 0, "WCY de") {
        Ok(Spot::WCY(WCY::new()))
    } else if lit_at(v, 0, "WX de") {
        Ok(Spot::WX(WX::new()))
    } else if lit_at(v, 0, "To ALL de") {
        Ok(Spot::ToAll(ToAll::new()))
    } else if lit_at(v, 0, "To LOCAL de") || lit_at(v, 0, "To Local de") {
        Ok(Spot::ToLocal(ToLocal::new()))
    } else {
        Err(ParseError::UnknownType)
    }
}

/// Parse a spot received from a DX cluster into a structured record.
///
/// `raw` must already be cleaned of trailing newline or bell characters and
/// surrounding whitespace. The result is exactly what the grammar model
/// [`parse_spec`] assigns to the line: the extracted record for a line
/// matching its classified variant's grammar, `UnknownType` for a line with
/// no recognized prefix, and `InvalidContent` for one whose body does not
/// match the classified variant.
pub fn parse(raw: &str) -> (r: Result<Spot, ParseError>)
    ensures
        ({
            match (r, parse_spec(raw@)) {
                (Ok(sp), Ok(vw)) => sp@ == vw,
                (Err(e1), Err(e2)) => e1 == e2,
                _ => false,
            }
        }),
{
    let v = chars_of(raw);
    match ident_type(&v) {
        Err(e) => Err(e),
        Ok(Spot::DX(dx)) => parse_dx(raw, &v, dx),
        Ok(Spot::WWV(wwv)) => parse_wwv(raw, &v, wwv),
        Ok(Spot::WCY(wcy)) => parse_wcy(raw, &v, wcy),
        Ok(Spot::WX(wx)) => parse_wx(raw, &v, wx),
        Ok(Spot::ToAll(ta)) => parse_toall(raw, &v, ta),
        Ok(Spot::ToLocal(tl)) => parse_tolocal(raw, &v, tl),
    }
}

/// Extracts a DX record from a line classified as DX.
#[verifier::rlimit(60)]
fn parse_dx(raw: &str, v: &Vec<char>, dx: DX) -> (r: Result<Spot, ParseError>)
    requires
        v@ == raw@,
        is_at(v@, 0, dx_prefix()),
        dx@ == DXView::zeroed(),
    ensures
        ({
            match (r, dx_match(raw@)) {
                (Ok(sp), Some(g)) => dx_freq(g) <= u64::MAX && sp@ == SpotView::DX(dx_view(g)),
                (Err(e), Some(g)) => e == ParseError::InvalidContent && dx_freq(g) > u64::MAX,
                (Err(e), None) => e == ParseError::InvalidContent,
                (Ok(_), None) => false,
            }
        }),
{
    let mut dx = dx;
    let n = v.len();
    let a0 = scan_while(v, 5, CharClass::Space);
    if a0 == 5 {
        return Err(ParseError::InvalidContent);
    }
    let a1 = scan_while(v, a0, CharClass::Call);
    if a1 - a0 < 3 {
        return Err(ParseError::InvalidContent);
    }
    let a2 = if a1 < n && v[a1] == ':' {
        a1 + 1
    } else {
        a1
    };
    let a3 = scan_while(v, a2, CharClass::Space);
    let a4 = scan_while(v, a3, CharClass::Digit);
    if a4 == a3 {
        return Err(ParseError::InvalidContent);
    }
    if !(a4 < n && v[a4] == '.') {
        return Err(ParseError::InvalidContent);
    }
    let a5 = scan_while(v, a4 + 1, CharClass::Digit);
    let fr = a5 - (a4 + 1);
    if !(1 <= fr && fr <= 2) {
        return Err(ParseError::InvalidContent);
    }
    let a6 = scan_while(v, a5, CharClass::Space);
    let a7 = scan_while(v, a6, CharClass::Call);
    if a7 - a6 < 3 {
        return Err(ParseError::InvalidContent);
    }
    // ----- the anchored tail: locator, UTC marker, comment -----
    let has_loc = n - a7 >= 4 && class_holds(CharClass::Letter, v[n - 4]) && class_holds(
        CharClass::Letter,
        v[n - 3],
    ) && class_holds(CharClass::Digit, v[n - 2]) && class_holds(CharClass::Digit, v[n - 1]);
    let e = if has_loc {
        n - 4
    } else {
        n
    };
    let z = scan_back(v, e, CharClass::Space);
    if z == 0 || z - 1 <= a7 || v[z - 1] != 'Z' {
        return Err(ParseError::InvalidContent);
    }
    if z < 5 || z - 5 <= a7 {
        return Err(ParseError::InvalidContent);
    }
    let u = z - 5;
    let du = scan_while(v, u, CharClass::Digit);
    if !(du >= z - 1) {
        return Err(ParseError::InvalidContent);
    }
    if v[u - 1] != ' ' {
        return Err(ParseError::InvalidContent);
    }
    let m = scan_back(v, u, CharClass::Space);
    let comment_opt: Option<String>;
    if m == a7 {
        if !(u - a7 >= 2) {
            return Err(ParseError::InvalidContent);
        }
        comment_opt = None;
    } else {
        if v[a7] != ' ' {
            return Err(ParseError::InvalidContent);
        }
        let c0 = scan_while(v, a7, CharClass::Space);
        if c0 >= m {
            return Err(ParseError::InvalidContent);
        }
        comment_opt = Some(extract(raw, c0, m));
    }
    let ghost g = DxGroups {
        call_de: v@.subrange(a0 as int, a1 as int),
        freq_int: v@.subrange(a3 as int, a4 as int),
        freq_frac: v@.subrange(a4 + 1, a5 as int),
        call_dx: v@.subrange(a6 as int, a7 as int),
        comment: match comment_opt {
            Some(ref c) => Some(c@),
            None => None,
        },
        utc: v@.subrange(u as int, z - 1),
        loc: if has_loc {
            Some(v@.subrange(n - 4, n as int))
        } else {
            None
        },
    };
    proof {
        assert(dx_match(v@) == Some(g));
    }
    // ----- numeric conversion -----
    proof {
        lemma_digit_run(v@, a3 as int);
        lemma_digit_run(v@, a4 + 1);
        lemma_digit_run(v@, u as int);
        reveal_with_fuel(pow10, 6);
        lemma_subrange_digits(v@, a4 + 1, a5 as int);
        lemma_subrange_digits(v@, u as int, z - 1);
        lemma_subrange_digits(v@, a3 as int, a4 as int);
    }
    let fv = dec_u16(v, a4 + 1, a5);
    let scale: u64 = if fr == 1 {
        100
    } else {
        10
    };
    let fs = (fv as u64) * scale;
    let iv = match dec_u64(v, a3, a4) {
        None => {
            proof {
                assert(dec_val(g.freq_int) > u64::MAX);
                assert(dx_freq(g) > u64::MAX);
            }
            return Err(ParseError::InvalidContent);
        },
        Some(x) => x,
    };
    if iv > (u64::MAX - fs) / 1000 {
        proof {
            assert(iv * 1000 + fs > u64::MAX) by (nonlinear_arith)
                requires
                    iv > (u64::MAX - fs) / 1000,
                    fs <= 9900,
            ;
        }
        return Err(ParseError::InvalidContent);
    }
    proof {
        assert(iv * 1000 + fs <= u64::MAX) by (nonlinear_arith)
            requires
                iv <= (u64::MAX - fs) / 1000,
                fs <= 9900,
        ;
    }
    let freq: u64 = iv * 1000 + fs;
    let ut = dec_u16(v, u, z - 1);
    dx.call_de = extract(raw, a0, a1);
    dx.call_dx = extract(raw, a6, a7);
    dx.freq = freq;
    dx.utc = ut;
    dx.loc = if has_loc {
        Some(extract(raw, n - 4, n))
    } else {
        None
    };
    dx.comment = comment_opt;
    proof {
        assert(dx@ == dx_view(g));
    }
    Ok(Spot::DX(dx))
}

/// Extracts a WWV record from a line classified as WWV.
#[verifier::rlimit(60)]
fn parse_wwv(raw: &str, v: &Vec<char>, wwv: WWV) -> (r: Result<Spot, ParseError>)
    requires
        v@ == raw@,
        is_at(v@, 0, wwv_prefix()),
        wwv@ == WWVView::zeroed(),
    ensures
        ({
            match (r, wwv_match(raw@)) {
                (Ok(sp), Some(g)) => sp@ == SpotView::WWV(crate::grammar::wwv_view(g)),
                (Err(e), None) => e == ParseError::InvalidContent,
                _ => false,
            }
        }),
{
    proof {
        reveal_strlit("SFI=");
        reveal_strlit(", A=");
        reveal_strlit(", K=");
        reveal_strlit(", ");
        assert("SFI="@ =~= sfi_eq_lit());
        assert(", A="@ =~= comma_a_lit());
        assert(", K="@ =~= comma_k_lit());
        assert(", "@ =~= comma_sp_lit());
    }
    let mut wwv = wwv;
    let n = v.len();
    let a0 = scan_while(v, 6, CharClass::Space);
    if a0 == 6 {
        return Err(ParseError::InvalidContent);
    }
    let a1 = scan_while(v, a0, CharClass::Call);
    let a2 = scan_while(v, a1, CharClass::Space);
    if a2 == a1 || !(a2 < n && v[a2] == '<') {
        return Err(ParseError::InvalidContent);
    }
    let u1 = scan_while(v, a2 + 1, CharClass::Digit);
    if u1 - (a2 + 1) != 2 {
        return Err(ParseError::InvalidContent);
    }
    let u2 = if u1 < n && v[u1] == 'Z' {
        u1 + 1
    } else {
        u1
    };
    if !(u2 < n && v[u2] == '>') {
        return Err(ParseError::InvalidContent);
    }
    let b0 = scan_while(v, u2 + 1, CharClass::Space);
    if !(b0 < n && v[b0] == ':') {
        return Err(ParseError::InvalidContent);
    }
    let b1 = scan_while(v, b0 + 1, CharClass::Space);
    if !lit_at(v, b1, "SFI=") {
        return Err(ParseError::InvalidContent);
    }
    let c0 = b1 + 4;
    let c1 = scan_while(v, c0, CharClass::Digit);
    if !(1 <= c1 - c0 && c1 - c0 <= 3) || !lit_at(v, c1, ", A=") {
        return Err(ParseError::InvalidContent);
    }
    let d0 = c1 + 4;
    let d1 = scan_while(v, d0, CharClass::Digit);
    if !(1 <= d1 - d0 && d1 - d0 <= 3) || !lit_at(v, d1, ", K=") {
        return Err(ParseError::InvalidContent);
    }
    let e0 = d1 + 4;
    let e1 = scan_while(v, e0, CharClass::Digit);
    if !(1 <= e1 - e0 && e1 - e0 <= 3) || !lit_at(v, e1, ", ") {
        return Err(ParseError::InvalidContent);
    }
    let f0 = e1 + 2;
    let q = match rscan2(v, n - 2, '-', '>') {
        None => {
            return Err(ParseError::InvalidContent);
        },
        Some(p) => p,
    };
    proof {
        lemma_rfind2_found(v@, n - 2, '-', '>');
    }
    if q < f0 {
        return Err(ParseError::InvalidContent);
    }
    let m1 = scan_back(v, q, CharClass::Space);
    if m1 <= f0 {
        return Err(ParseError::InvalidContent);
    }
    let g0 = scan_while(v, q + 2, CharClass::Space);
    let m2 = scan_back(v, n, CharClass::Space);
    if !(g0 < m2) {
        return Err(ParseError::InvalidContent);
    }
    let ghost g = WwvGroups {
        call_de: v@.subrange(a0 as int, a1 as int),
        utc: v@.subrange(a2 + 1, a2 + 3),
        sfi: v@.subrange(c0 as int, c1 as int),
        a: v@.subrange(d0 as int, d1 as int),
        k: v@.subrange(e0 as int, e1 as int),
        info1: v@.subrange(f0 as int, m1 as int),
        info2: v@.subrange(g0 as int, m2 as int),
    };
    proof {
        assert(wwv_match(v@) == Some(g));
        lemma_digit_run(v@, a2 + 1);
        lemma_digit_run(v@, c0 as int);
        lemma_digit_run(v@, d0 as int);
        lemma_digit_run(v@, e0 as int);
        reveal_with_fuel(pow10, 6);
        lemma_subrange_digits(v@, a2 + 1, a2 + 3);
        lemma_subrange_digits(v@, c0 as int, c1 as int);
        lemma_subrange_digits(v@, d0 as int, d1 as int);
        lemma_subrange_digits(v@, e0 as int, e1 as int);
    }
    wwv.call_de = extract(raw, a0, a1);
    wwv.utc = dec_u16(v, a2 + 1, u1);
    wwv.sfi = dec_u16(v, c0, c1);
    wwv.a = dec_u16(v, d0, d1);
    wwv.k = dec_u16(v, e0, e1);
    wwv.info1 = extract(raw, f0, m1);
    wwv.info2 = extract(raw, g0, m2);
    proof {
        assert(wwv@ == crate::grammar::wwv_view(g));
    }
    Ok(Spot::WWV(wwv))
}

/// Extracts a WCY record from a line classified as WCY.
#[verifier::rlimit(60)]
fn parse_wcy(raw: &str, v: &Vec<char>, wcy: WCY) -> (r: Result<Spot, ParseError>)
    requires
        v@ == raw@,
        is_at(v@, 0, wcy_prefix()),
        wcy@ == WCYView::zeroed(),
    ensures
        ({
            match (r, wcy_match(raw@)) {
                (Ok(sp), Some(g)) => sp@ == SpotView::WCY(crate::grammar::wcy_view(g)),
                (Err(e), None) => e == ParseError::InvalidContent,
                _ => false,
            }
        }),
{
    proof {
        reveal_strlit("K=");
        reveal_strlit(" expK=");
        reveal_strlit(" A=");
        reveal_strlit(" R=");
        reveal_strlit(" SFI=");
        reveal_strlit(" SA=");
        reveal_strlit(" GMF=");
        reveal_strlit(" Au=");
        assert("K="@ =~= k_eq_lit());
        assert(" expK="@ =~= expk_lit());
        assert(" A="@ =~= sp_a_lit());
        assert(" R="@ =~= sp_r_lit());
        assert(" SFI="@ =~= sp_sfi_lit());
        assert(" SA="@ =~= sp_sa_lit());
        assert(" GMF="@ =~= sp_gmf_lit());
        assert(" Au="@ =~= sp_au_lit());
    }
    let mut wcy = wcy;
    let n = v.len();
    let a0 = scan_while(v, 6, CharClass::Space);
    if a0 == 6 {
        return Err(ParseError::InvalidContent);
    }
    let a1 = scan_while(v, a0, CharClass::Call);
    let a2 = scan_while(v, a1, CharClass::Space);
    if a2 == a1 || !(a2 < n && v[a2] == '<') {
        return Err(ParseError::InvalidContent);
    }
    let u1 = scan_while(v, a2 + 1, CharClass::Digit);
    if u1 - (a2 + 1) != 2 || !(u1 < n && v[u1] == '>') {
        return Err(ParseError::InvalidContent);
    }
    let b0 = scan_while(v, u1 + 1, CharClass::Space);
    if !(b0 < n && v[b0] == ':') {
        return Err(ParseError::InvalidContent);
    }
    let b1 = scan_while(v, b0 + 1, CharClass::Space);
    if b1 == b0 + 1 || !lit_at(v, b1, "K=") {
        return Err(ParseError::InvalidContent);
    }
    let c0 = b1 + 2;
    let c1 = scan_while(v, c0, CharClass::Digit);
    if !(1 <= c1 - c0 && c1 - c0 <= 3) || !lit_at(v, c1, " expK=") {
        return Err(ParseError::InvalidContent);
    }
    let d0 = c1 + 6;
    let d1 = scan_while(v, d0, CharClass::Digit);
    if !(1 <= d1 - d0 && d1 - d0 <= 3) || !lit_at(v, d1, " A=") {
        return Err(ParseError::InvalidContent);
    }
    let e0 = d1 + 3;
    let e1 = scan_while(v, e0, CharClass::Digit);
    if !(1 <= e1 - e0 && e1 - e0 <= 3) || !lit_at(v, e1, " R=") {
        return Err(ParseError::InvalidContent);
    }
    let f0 = e1 + 3;
    let f1 = scan_while(v, f0, CharClass::Digit);
    if !(1 <= f1 - f0 && f1 - f0 <= 3) || !lit_at(v, f1, " SFI=") {
        return Err(ParseError::InvalidContent);
    }
    let g0 = f1 + 5;
    let g1 = scan_while(v, g0, CharClass::Digit);
    if !(1 <= g1 - g0 && g1 - g0 <= 3) || !lit_at(v, g1, " SA=") {
        return Err(ParseError::InvalidContent);
    }
    let h0 = g1 + 4;
    let h1 = scan_while(v, h0, CharClass::Letter);
    if !(1 <= h1 - h0 && h1 - h0 <= 3) || !lit_at(v, h1, " GMF=") {
        return Err(ParseError::InvalidContent);
    }
    let i0 = h1 + 5;
    let i1 = scan_while(v, i0, CharClass::Letter);
    if !(1 <= i1 - i0 && i1 - i0 <= 3) || !lit_at(v, i1, " Au=") {
        return Err(ParseError::InvalidContent);
    }
    let j0 = i1 + 4;
    let j1 = scan_while(v, j0, CharClass::Letter);
    if j1 - j0 != 2 || scan_while(v, j1, CharClass::Space) != n {
        return Err(ParseError::InvalidContent);
    }
    let ghost g = WcyGroups {
        call_de: v@.subrange(a0 as int, a1 as int),
        utc: v@.subrange(a2 + 1, a2 + 3),
        k: v@.subrange(c0 as int, c1 as int),
        expk: v@.subrange(d0 as int, d1 as int),
        a: v@.subrange(e0 as int, e1 as int),
        r: v@.subrange(f0 as int, f1 as int),
        sfi: v@.subrange(g0 as int, g1 as int),
        sa: v@.subrange(h0 as int, h1 as int),
        gmf: v@.subrange(i0 as int, i1 as int),
        au: v@.subrange(j0 as int, j1 as int),
    };
    proof {
        assert(wcy_match(v@) == Some(g));
        lemma_digit_run(v@, a2 + 1);
        lemma_digit_run(v@, c0 as int);
        lemma_digit_run(v@, d0 as int);
        lemma_digit_run(v@, e0 as int);
        lemma_digit_run(v@, f0 as int);
        lemma_digit_run(v@, g0 as int);
        reveal_with_fuel(pow10, 6);
        lemma_subrange_digits(v@, a2 + 1, a2 + 3);
        lemma_subrange_digits(v@, c0 as int, c1 as int);
        lemma_subrange_digits(v@, d0 as int, d1 as int);
        lemma_subrange_digits(v@, e0 as int, e1 as int);
        lemma_subrange_digits(v@, f0 as int, f1 as int);
        lemma_subrange_digits(v@, g0 as int, g1 as int);
    }
    wcy.call_de = extract(raw, a0, a1);
    wcy.utc = dec_u16(v, a2 + 1, u1);
    wcy.k = dec_u16(v, c0, c1);
    wcy.expk = dec_u16(v, d0, d1);
    wcy.a = dec_u16(v, e0, e1);
    wcy.r = dec_u16(v, f0, f1);
    wcy.sfi = dec_u16(v, g0, g1);
    wcy.sa = extract(raw, h0, h1);
    wcy.gmf = extract(raw, i0, i1);
    wcy.au = extract(raw, j0, j1);
    proof {
        assert(wcy@ == crate::grammar::wcy_view(g));
    }
    Ok(Spot::WCY(wcy))
}

/// Decides whether the timestamp route of a message line applies at `t`:
/// the `<HHMMZ>` form, its spacing condition, and a following separator.
fn ts_route(v: &Vec<char>, a1: usize, t: usize, spaced: bool) -> (b: bool)
    requires
        a1 <= v@.len(),
        t <= v@.len(),
    ensures
        b == ((spaced ==> t > a1) && ts_at(v@, t as int) && crate::grammar::sep_end(v@, t + 7) > t
            + 7),
{
    if spaced && !(t > a1) {
        return false;
    }
    let n = v.len();
    if n - t < 7 {
        return false;
    }
    if v[t] != '<' {
        return false;
    }
    let dd = scan_while(v, t + 1, CharClass::Digit);
    if dd < t + 5 {
        return false;
    }
    if v[t + 5] != 'Z' || v[t + 6] != '>' {
        return false;
    }
    let w = scan_while(v, t + 7, CharClass::Sep);
    w > t + 7
}

/// Extracts the shared body of a message line (WX, ToAll, ToLocal) after
/// its prefix of length `i0`: callsign, optional timestamp, message.
fn parse_msg_body(raw: &str, v: &Vec<char>, i0: usize, spaced: bool) -> (r: Option<
    (String, Option<u16>, String),
>)
    requires
        v@ == raw@,
        i0 <= v@.len(),
    ensures
        ({
            match (r, msg_body(v@, i0 as int, spaced)) {
                (Some(t), Some(g)) => ({
                    &&& t.0@ == g.call_de
                    &&& t.1 == (match g.utc {
                        Some(us) => Some(dec_val(us) as u16),
                        None => None::<u16>,
                    })
                    &&& t.2@ == g.msg
                }),
                (None, None) => true,
                _ => false,
            }
        }),
{
    let n = v.len();
    let a0 = scan_while(v, i0, CharClass::Space);
    if a0 == i0 {
        return None;
    }
    let a1 = scan_while(v, a0, CharClass::Call);
    let t = if spaced {
        scan_while(v, a1, CharClass::Space)
    } else {
        if a1 < n && v[a1] == ' ' {
            a1 + 1
        } else {
            a1
        }
    };
    if ts_route(v, a1, t, spaced) {
        let w = scan_while(v, t + 7, CharClass::Sep);
        proof {
            lemma_digit_run(v@, t + 1);
            reveal_with_fuel(pow10, 6);
            lemma_subrange_digits(v@, t + 1, t + 5);
        }
        let ut = dec_u16(v, t + 1, t + 5);
        Some((extract(raw, a0, a1), Some(ut), extract(raw, w, n)))
    } else {
        let w2 = scan_while(v, a1, CharClass::Sep);
        if w2 == a1 {
            None
        } else {
            Some((extract(raw, a0, a1), None, extract(raw, w2, n)))
        }
    }
}

/// Extracts a WX record from a line classified as WX.
fn parse_wx(raw: &str, v: &Vec<char>, wx: WX) -> (r: Result<Spot, ParseError>)
    requires
        v@ == raw@,
        is_at(v@, 0, wx_prefix()),
        wx@ == crate::types::msg_zeroed(),
    ensures
        ({
            match (r, wx_match(raw@)) {
                (Ok(sp), Some(g)) => sp@ == SpotView::WX(msg_view(g)),
                (Err(e), None) => e == ParseError::InvalidContent,
                _ => false,
            }
        }),
{
    let mut wx = wx;
    match parse_msg_body(raw, v, 5, false) {
        None => Err(ParseError::InvalidContent),
        Some((cd, utc, msg)) => {
            wx.call_de = cd;
            wx.utc = utc;
            wx.msg = Some(msg);
            Ok(Spot::WX(wx))
        },
    }
}

/// Extracts a ToAll record from a line classified as ToAll.
fn parse_toall(raw: &str, v: &Vec<char>, ta: ToAll) -> (r: Result<Spot, ParseError>)
    requires
        v@ == raw@,
        is_at(v@, 0, toall_prefix()),
        ta@ == crate::types::msg_zeroed(),
    ensures
        ({
            match (r, toall_match(raw@)) {
                (Ok(sp), Some(g)) => sp@ == SpotView::ToAll(msg_view(g)),
                (Err(e), None) => e == ParseError::InvalidContent,
                _ => false,
            }
        }),
{
    let mut ta = ta;
    match parse_msg_body(raw, v, 9, false) {
        None => Err(ParseError::InvalidContent),
        Some((cd, utc, msg)) => {
            ta.call_de = cd;
            ta.utc = utc;
            ta.msg = Some(msg);
            Ok(Spot::ToAll(ta))
        },
    }
}

/// Extracts a ToLocal record from a line classified as ToLocal.
fn parse_tolocal(raw: &str, v: &Vec<char>, tl: ToLocal) -> (r: Result<Spot, ParseError>)
    requires
        v@ == raw@,
        is_at(v@, 0, tolocal_upper_prefix()) || is_at(v@, 0, tolocal_lower_prefix()),
        tl@ == crate::types::msg_zeroed(),
    ensures
        ({
            match (r, tolocal_match(raw@)) {
                (Ok(sp), Some(g)) => sp@ == SpotView::ToLocal(msg_view(g)),
                (Err(e), None) => e == ParseError::InvalidContent,
                _ => false,
            }
        }),
{
    let mut tl = tl;
    match parse_msg_body(raw, v, 11, true) {
        None => Err(ParseError::InvalidContent),
        Some((cd, utc, msg)) => {
            tl.call_de = cd;
            tl.utc = utc;
            tl.msg = Some(msg);
            Ok(Spot::ToLocal(tl))
        },
    }
}

/// Matches the head both RBN forms share; on success the returned positions
/// agree with the model's.
fn match_rbn_head(v: &Vec<char>) -> (r: Option<(usize, bool, usize, usize, usize)>)
    ensures
        ({
            match (r, rbn_head(v@)) {
                (Some(t), Some(g)) => t.0 == g.0 && t.1 == g.1 && t.2 == g.2 && t.3 == g.3 && t.4
                    == g.4 && t.0 >= 2 && t.2 < t.3 && t.3 - t.2 <= 4 && t.4 <= v@.len(),
                (None, None) => true,
                _ => false,
            }
        }),
{
    let n = v.len();
    let a1 = scan_while(v, 0, CharClass::Alnum);
    if a1 < 2 {
        return None;
    }
    let a2 = scan_while(v, a1, CharClass::Space);
    if a2 == a1 {
        return None;
    }
    let neg = a2 < n && v[a2] == '-';
    let d0 = if neg {
        a2 + 1
    } else {
        a2
    };
    let d1 = scan_while(v, d0, CharClass::Digit);
    if d1 == d0 || d1 - a2 > 4 {
        return None;
    }
    let b0 = scan_while(v, d1, CharClass::Space);
    proof {
        reveal_strlit("dB");
        assert("dB"@ =~= db_lit());
    }
    if b0 == d1 || !lit_at(v, b0, "dB") {
        return None;
    }
    Some((a1, neg, d0, d1, b0 + 2))
}

/// Converts matched RBN groups into a record; shared by both forms.
fn build_rbn(raw: &str, v: &Vec<char>, a1: usize, neg: bool, d0: usize, d1: usize) -> (rbn: RBN)
    requires
        v@ == raw@,
        2 <= a1 <= v@.len(),
        d0 < d1 <= v@.len(),
        d1 - d0 <= 4,
        crate::grammar::digit_end(v@, d0 as int) >= d1,
    ensures
        rbn@.mode == v@.subrange(0, a1 as int),
        rbn@.db == (if neg {
            -dec_val(v@.subrange(d0 as int, d1 as int))
        } else {
            dec_val(v@.subrange(d0 as int, d1 as int))
        }) as i16,
        rbn@.speed is None,
        rbn@.speed_unit is None,
        rbn@.info.len() == 0,
        rbn@.loc is None,
{
    let mut rbn = RBN::new();
    proof {
        lemma_digit_run(v@, d0 as int);
        reveal_with_fuel(pow10, 6);
        lemma_subrange_digits(v@, d0 as int, d1 as int);
    }
    let mag = dec_u16(v, d0, d1);
    rbn.mode = extract(raw, 0, a1);
    rbn.db = if neg {
        -(mag as i16)
    } else {
        mag as i16
    };
    rbn
}

/// Matches the speed form of an RBN comment.
#[verifier::rlimit(60)]
fn match_rbn1(raw: &str, v: &Vec<char>) -> (r: Option<RBN>)
    requires
        v@ == raw@,
    ensures
        ({
            match (r, rbn1_match(v@)) {
                (Some(rec), Some(g)) => rec@ == rbn_view(g),
                (None, None) => true,
                _ => false,
            }
        }),
{
    let n = v.len();
    let (a1, neg, d0, d1, h) = match match_rbn_head(v) {
        None => {
            return None;
        },
        Some(t) => t,
    };
    let c0 = scan_while(v, h, CharClass::Space);
    if c0 == h {
        return None;
    }
    let c1 = scan_while(v, c0, CharClass::Digit);
    if !(1 <= c1 - c0 && c1 - c0 <= 3) {
        return None;
    }
    let e0 = scan_while(v, c1, CharClass::Space);
    if e0 == c1 {
        return None;
    }
    proof {
        reveal_strlit("WPM");
        reveal_strlit("BPS");
        assert("WPM"@ =~= wpm_lit());
        assert("BPS"@ =~= bps_lit());
    }
    let unit_ok = lit_at(v, e0, "WPM") || lit_at(v, e0, "BPS");
    if !unit_ok {
        return None;
    }
    let f0 = scan_while(v, e0 + 3, CharClass::Space);
    if f0 == e0 + 3 || f0 == n {
        return None;
    }
    let fi = scan_while(v, f0, CharClass::InfoCh);
    if fi != n {
        return None;
    }
    let ghost g = RbnGroups {
        mode: v@.subrange(0, a1 as int),
        neg,
        db: v@.subrange(d0 as int, d1 as int),
        speed: Some(v@.subrange(c0 as int, c1 as int)),
        unit: Some(v@.subrange(e0 as int, e0 + 3)),
        info: v@.subrange(f0 as int, n as int),
        loc: None,
    };
    proof {
        assert(rbn1_match(v@) == Some(g));
    }
    let mut rbn = build_rbn(raw, v, a1, neg, d0, d1);
    proof {
        lemma_digit_run(v@, c0 as int);
        reveal_with_fuel(pow10, 6);
        lemma_subrange_digits(v@, c0 as int, c1 as int);
    }
    rbn.speed = Some(dec_u16(v, c0, c1));
    rbn.speed_unit = Some(extract(raw, e0, e0 + 3));
    rbn.info = extract(raw, f0, n);
    proof {
        assert(rbn@ == rbn_view(g));
    }
    Some(rbn)
}

/// Matches the locator form of an RBN comment.
#[verifier::rlimit(60)]
fn match_rbn2(raw: &str, v: &Vec<char>) -> (r: Option<RBN>)
    requires
        v@ == raw@,
    ensures
        ({
            match (r, rbn2_match(v@)) {
                (Some(rec), Some(g)) => rec@ == rbn_view(g),
                (None, None) => true,
                _ => false,
            }
        }),
{
    let n = v.len();
    let (a1, neg, d0, d1, h) = match match_rbn_head(v) {
        None => {
            return None;
        },
        Some(t) => t,
    };
    let c0 = scan_while(v, h, CharClass::Space);
    if c0 == h {
        return None;
    }
    let locp = n - c0 >= 4 && class_holds(CharClass::Upper, v[c0]) && class_holds(
        CharClass::Upper,
        v[c0 + 1],
    ) && class_holds(CharClass::Digit, v[c0 + 2]) && class_holds(CharClass::Digit, v[c0 + 3]);
    if locp {
        let f0 = scan_while(v, c0 + 4, CharClass::Space);
        if f0 == c0 + 4 || f0 == n {
            return None;
        }
        let fi = scan_while(v, f0, CharClass::InfoCh);
        if fi != n {
            return None;
        }
        let ghost g = RbnGroups {
            mode: v@.subrange(0, a1 as int),
            neg,
            db: v@.subrange(d0 as int, d1 as int),
            speed: None,
            unit: None,
            info: v@.subrange(f0 as int, n as int),
            loc: Some(v@.subrange(c0 as int, c0 + 4)),
        };
        proof {
            assert(rbn2_match(v@) == Some(g));
        }
        let mut rbn = build_rbn(raw, v, a1, neg, d0, d1);
        rbn.loc = Some(extract(raw, c0, c0 + 4));
        rbn.info = extract(raw, f0, n);
        proof {
            assert(rbn@ == rbn_view(g));
        }
        Some(rbn)
    } else {
        if c0 - h < 2 || c0 == n {
            return None;
        }
        let fi = scan_while(v, c0, CharClass::InfoCh);
        if fi != n {
            return None;
        }
        let ghost g = RbnGroups {
            mode: v@.subrange(0, a1 as int),
            neg,
            db: v@.subrange(d0 as int, d1 as int),
            speed: None,
            unit: None,
            info: v@.subrange(c0 as int, n as int),
            loc: None,
        };
        proof {
            assert(rbn2_match(v@) == Some(g));
        }
        let mut rbn = build_rbn(raw, v, a1, neg, d0, d1);
        rbn.info = extract(raw, c0, n);
        proof {
            assert(rbn@ == rbn_view(g));
        }
        Some(rbn)
    }
}

/// Parse the comment section of an RBN spot into a structured record.
///
/// `raw` is the isolated comment of a parsed DX spot, not a full cluster
/// line; an RBN spot is a DX spot whose comment carries decode metadata.
/// The speed form is tried first, then the locator form, as [`rbn_spec`]
/// prescribes; a comment matching neither fails with `InvalidContent`.
pub fn parse_rbn(raw: &str) -> (r: Result<RBN, ParseError>)
    ensures
        ({
            match (r, rbn_spec(raw@)) {
                (Ok(rec), Ok(vw)) => rec@ == vw,
                (Err(e1), Err(e2)) => e1 == e2,
                _ => false,
            }
        }),
{
    let v = chars_of(raw);
    match match_rbn1(raw, &v) {
        Some(rec) => Ok(rec),
        None => match match_rbn2(raw, &v) {
            Some(rec) => Ok(rec),
            None => Err(ParseError::InvalidContent),
        },
    }
}

} // verus!
