//! General properties of the parser, stated and proved over the grammar
//! model. Together with the exact contracts of [`crate::parser::parse`] and
//! [`crate::parser::parse_rbn`], these laws carry over to the executable
//! functions on every input.

use vstd::prelude::*;

use crate::grammar::{
    call_end, digit_end, dx_freq, dx_match, dx_prefix, dx_view, has_known_prefix, parse_spec,
    rbn_spec, sp_end, toall_prefix, tolocal_lower_prefix, tolocal_upper_prefix, wcy_prefix,
    wwv_prefix, wx_prefix, DxGroups,
};
use crate::text::{
    class_pred, dec_val, is_at, is_call_char, lemma_digit_run, lemma_run_end, lemma_run_end_is,
    lemma_subrange_digits, pow10, CharClass,
};
use crate::types::{ParseError, SpotView};

verus! {

/// A line that matches the DX grammar parses successfully, its UTC field is
/// the value of the literal four-digit group, and its frequency field is
/// exactly the parsed kilohertz value times 1000: with `k` fraction digits
/// the scaled identity `freq * 10^k == (int * 10^k + frac) * 1000` holds,
/// so no truncation ever loses a fraction of one hertz.
pub proof fn lemma_dx_success(s: Seq<char>, g: DxGroups)
    requires
        dx_match(s) == Some(g),
        dx_freq(g) <= u64::MAX,
    ensures
        parse_spec(s) == Ok::<SpotView, ParseError>(SpotView::DX(dx_view(g))),
        dx_view(g).freq == dx_freq(g),
        dx_view(g).utc == dec_val(g.utc),
        g.freq_frac.len() == 1 || g.freq_frac.len() == 2,
        dx_freq(g) * pow10(g.freq_frac.len()) == (dec_val(g.freq_int) * pow10(g.freq_frac.len())
            + dec_val(g.freq_frac)) * 1000,
{
    let a0 = sp_end(s, 5);
    let a1 = call_end(s, a0);
    let a2 = if a1 < s.len() && s[a1] == ':' {
        a1 + 1
    } else {
        a1
    };
    let a3 = sp_end(s, a2);
    let a4 = digit_end(s, a3);
    let a5 = digit_end(s, a4 + 1);
    let a6 = sp_end(s, a5);
    let a7 = call_end(s, a6);
    assert(is_at(s, 0, dx_prefix()));
    assert(a4 != a3 && a4 < s.len() && s[a4] == '.');
    assert(1 <= a5 - (a4 + 1) <= 2);
    assert(g.freq_int == s.subrange(a3, a4));
    assert(g.freq_frac == s.subrange(a4 + 1, a5));
    lemma_run_end(s, 5, class_pred(CharClass::Space));
    lemma_run_end(s, a0, class_pred(CharClass::Call));
    lemma_run_end(s, a2, class_pred(CharClass::Space));
    lemma_digit_run(s, a3);
    lemma_digit_run(s, a4 + 1);
    lemma_subrange_digits(s, a3, a4);
    lemma_subrange_digits(s, a4 + 1, a5);
    // the UTC group: four digits by construction of the tail
    let n = s.len() as int;
    let has_loc = n - a7 >= 4 && crate::text::is_letter(s[n - 4]) && crate::text::is_letter(
        s[n - 3],
    ) && crate::text::is_digit(s[n - 2]) && crate::text::is_digit(s[n - 1]);
    let e = if has_loc {
        n - 4
    } else {
        n
    };
    let z = crate::grammar::sp_start(s, e);
    let u = z - 5;
    assert(digit_end(s, u) >= z - 1);
    assert(g.utc == s.subrange(u, z - 1));
    lemma_digit_run(s, u);
    lemma_subrange_digits(s, u, z - 1);
    reveal_with_fuel(pow10, 6);
    assert(dec_val(g.utc) < 10000);
}

/// A line carrying a recognized variant prefix parses to that variant or
/// fails with `InvalidContent`: body trouble is never reported as an
/// unknown type, a missing field, or an internal error. Stated here for
/// DX lines; classification alone never inspects the body.
pub proof fn lemma_dx_body_errors(s: Seq<char>)
    requires
        is_at(s, 0, dx_prefix()),
    ensures
        (parse_spec(s) matches Ok(vw) ==> vw is DX),
        parse_spec(s) is Err ==> parse_spec(s) == Err::<SpotView, ParseError>(
            ParseError::InvalidContent,
        ),
{
}

/// A line with no recognized prefix fails with `UnknownType`, whatever its
/// content.
pub proof fn lemma_unknown_type(s: Seq<char>)
    requires
        !has_known_prefix(s),
    ensures
        parse_spec(s) == Err::<SpotView, ParseError>(ParseError::UnknownType),
{
}

/// The parser never reports `MissingField` or `InternalError`: every
/// mandatory group of a matching line is present by construction of the
/// grammars, and every extracted numeric token fits its field's type, so
/// the only failures are `UnknownType` and `InvalidContent`. This also
/// settles the malformed-number case: a DX line with an empty or absent
/// frequency token fails to match the grammar and is rejected as invalid
/// content, not as a coercion failure.
pub proof fn lemma_error_taxonomy(s: Seq<char>)
    ensures
        parse_spec(s) != Err::<SpotView, ParseError>(ParseError::MissingField),
        parse_spec(s) != Err::<SpotView, ParseError>(ParseError::InternalError),
        rbn_spec(s) != Err::<crate::types::RBNView, ParseError>(ParseError::MissingField),
        rbn_spec(s) != Err::<crate::types::RBNView, ParseError>(ParseError::InternalError),
        rbn_spec(s) != Err::<crate::types::RBNView, ParseError>(ParseError::UnknownType),
{
}

/// Builds the line `prefix ++ " " ++ callsign`.
pub open spec fn prefix_only_line(prefix: Seq<char>, cs: Seq<char>) -> Seq<char> {
    prefix + seq![' '] + cs
}

/// A callsign: any run of callsign characters.
pub open spec fn all_call_chars(cs: Seq<char>) -> bool {
    forall|k: int| 0 <= k < cs.len() ==> is_call_char(#[trigger] cs[k])
}

/// Establishes the scan positions shared by all six prefix-only lemmas:
/// in `prefix ++ " " ++ cs` the space run after the prefix ends where the
/// callsign starts, and the callsign run extends to the end of the line.
proof fn lemma_prefix_only_runs(prefix: Seq<char>, cs: Seq<char>)
    requires
        all_call_chars(cs),
        prefix.len() > 0,
        !is_call_char(' '),
    ensures
        is_at(prefix_only_line(prefix, cs), 0, prefix),
        sp_end(prefix_only_line(prefix, cs), prefix.len() as int) == prefix.len() + 1,
        call_end(prefix_only_line(prefix, cs), prefix.len() as int + 1) == prefix_only_line(
            prefix,
            cs,
        ).len(),
{
    let s = prefix_only_line(prefix, cs);
    let p = prefix.len() as int;
    assert(s.subrange(0, p) =~= prefix);
    assert(s[p] == ' ');
    assert forall|k: int| p + 1 <= k < s.len() implies class_pred(CharClass::Call)(s[k]) by {
        assert(s[k] == cs[k - (p + 1)]);
        assert(is_call_char(cs[k - (p + 1)]));
    }
    lemma_run_end_is(
        s,
        p + 1,
        s.len() as int,
        class_pred(CharClass::Call),
    );
    if cs.len() == 0 {
        lemma_run_end_is(s, p, p + 1, class_pred(CharClass::Space));
    } else {
        assert(s[p + 1] == cs[0]);
        assert(!class_pred(CharClass::Space)(s[p + 1]));
        lemma_run_end_is(s, p, p + 1, class_pred(CharClass::Space));
    }
}

/// A line holding only the DX prefix and a callsign, with no body, is
/// classified as DX but fails extraction with `InvalidContent`.
pub proof fn lemma_prefix_only_dx(cs: Seq<char>)
    requires
        all_call_chars(cs),
    ensures
        parse_spec(prefix_only_line(dx_prefix(), cs)) == Err::<SpotView, ParseError>(
            ParseError::InvalidContent,
        ),
{
    let s = prefix_only_line(dx_prefix(), cs);
    lemma_prefix_only_runs(dx_prefix(), cs);
    if cs.len() >= 3 {
        let a1 = call_end(s, 6);
        assert(a1 == s.len());
        lemma_run_end_is(s, a1, a1, class_pred(CharClass::Space));
        lemma_run_end_is(s, a1, a1, class_pred(CharClass::Digit));
    }
}

/// A line holding only the WWV prefix and a callsign, with no body, is
/// classified as WWV but fails extraction with `InvalidContent`.
pub proof fn lemma_prefix_only_wwv(cs: Seq<char>)
    requires
        all_call_chars(cs),
    ensures
        parse_spec(prefix_only_line(wwv_prefix(), cs)) == Err::<SpotView, ParseError>(
            ParseError::InvalidContent,
        ),
{
    let s = prefix_only_line(wwv_prefix(), cs);
    lemma_prefix_only_runs(wwv_prefix(), cs);
    assert(s[0] == 'W');
    assert(!is_at(s, 0, dx_prefix())) by {
        if is_at(s, 0, dx_prefix()) {
            assert(s.subrange(0, 5)[0] == s[0]);
        }
    }
    let a1 = call_end(s, 7);
    assert(a1 == s.len());
    lemma_run_end_is(s, a1, a1, class_pred(CharClass::Space));
}

/// A line holding only the WCY prefix and a callsign, with no body, is
/// classified as WCY but fails extraction with `InvalidContent`.
pub proof fn lemma_prefix_only_wcy(cs: Seq<char>)
    requires
        all_call_chars(cs),
    ensures
        parse_spec(prefix_only_line(wcy_prefix(), cs)) == Err::<SpotView, ParseError>(
            ParseError::InvalidContent,
        ),
{
    let s = prefix_only_line(wcy_prefix(), cs);
    lemma_prefix_only_runs(wcy_prefix(), cs);
    assert(s[1] == 'C');
    assert(!is_at(s, 0, dx_prefix())) by {
        if is_at(s, 0, dx_prefix()) {
            assert(s.subrange(0, 5)[0] == s[0]);
        }
    }
    assert(!is_at(s, 0, wwv_prefix())) by {
        if is_at(s, 0, wwv_prefix()) {
            assert(s.subrange(0, 6)[1] == s[1]);
        }
    }
    let a1 = call_end(s, 7);
    assert(a1 == s.len());
    lemma_run_end_is(s, a1, a1, class_pred(CharClass::Space));
}

/// A line holding only the WX prefix and a callsign, with no body, is
/// classified as WX but fails extraction with `InvalidContent`.
pub proof fn lemma_prefix_only_wx(cs: Seq<char>)
    requires
        all_call_chars(cs),
    ensures
        parse_spec(prefix_only_line(wx_prefix(), cs)) == Err::<SpotView, ParseError>(
            ParseError::InvalidContent,
        ),
{
    let s = prefix_only_line(wx_prefix(), cs);
    lemma_prefix_only_runs(wx_prefix(), cs);
    assert(s[1] == 'X');
    assert(!is_at(s, 0, dx_prefix())) by {
        if is_at(s, 0, dx_prefix()) {
            assert(s.subrange(0, 5)[0] == s[0]);
        }
    }
    assert(!is_at(s, 0, wwv_prefix())) by {
        if is_at(s, 0, wwv_prefix()) {
            assert(s.subrange(0, 6)[1] == s[1]);
        }
    }
    assert(!is_at(s, 0, wcy_prefix())) by {
        if is_at(s, 0, wcy_prefix()) {
            assert(s.subrange(0, 6)[1] == s[1]);
        }
    }
    let a1 = call_end(s, 6);
    assert(a1 == s.len());
    // neither route of the message body finds a separator run
    lemma_run_end_is(s, a1, a1, class_pred(CharClass::Space));
    lemma_run_end_is(s, a1, a1, class_pred(CharClass::Sep));
}

/// A line holding only the ToAll prefix and a callsign, with no body, is
/// classified as ToAll but fails extraction with `InvalidContent`.
#[verifier::rlimit(60)]
pub proof fn lemma_prefix_only_toall(cs: Seq<char>)
    requires
        all_call_chars(cs),
    ensures
        parse_spec(prefix_only_line(toall_prefix(), cs)) == Err::<SpotView, ParseError>(
            ParseError::InvalidContent,
        ),
{
    let s = prefix_only_line(toall_prefix(), cs);
    lemma_prefix_only_runs(toall_prefix(), cs);
    assert(s[0] == 'T');
    assert(s[3] == 'A');
    assert(!is_at(s, 0, dx_prefix())) by {
        if is_at(s, 0, dx_prefix()) {
            assert(s.subrange(0, 5)[0] == s[0]);
        }
    }
    assert(!is_at(s, 0, wwv_prefix())) by {
        if is_at(s, 0, wwv_prefix()) {
            assert(s.subrange(0, 6)[0] == s[0]);
        }
    }
    assert(!is_at(s, 0, wcy_prefix())) by {
        if is_at(s, 0, wcy_prefix()) {
            assert(s.subrange(0, 6)[0] == s[0]);
        }
    }
    assert(!is_at(s, 0, wx_prefix())) by {
        if is_at(s, 0, wx_prefix()) {
            assert(s.subrange(0, 5)[0] == s[0]);
        }
    }
    let a1 = call_end(s, 10);
    assert(a1 == s.len());
    lemma_run_end_is(s, a1, a1, class_pred(CharClass::Space));
    lemma_run_end_is(s, a1, a1, class_pred(CharClass::Sep));
}

/// A line holding only a ToLocal prefix (either spelling) and a callsign,
/// with no body, is classified as ToLocal but fails extraction with
/// `InvalidContent`.
#[verifier::rlimit(100)]
#[verifier::spinoff_prover]
pub proof fn lemma_prefix_only_tolocal(prefix: Seq<char>, cs: Seq<char>)
    requires
        all_call_chars(cs),
        prefix == tolocal_upper_prefix() || prefix == tolocal_lower_prefix(),
    ensures
        parse_spec(prefix_only_line(prefix, cs)) == Err::<SpotView, ParseError>(
            ParseError::InvalidContent,
        ),
{
    let s = prefix_only_line(prefix, cs);
    lemma_prefix_only_runs(prefix, cs);
    assert(s[0] == 'T');
    assert(s[3] == 'L');
    assert(!is_at(s, 0, dx_prefix())) by {
        if is_at(s, 0, dx_prefix()) {
            assert(s.subrange(0, 5)[0] == s[0]);
        }
    }
    assert(!is_at(s, 0, wwv_prefix())) by {
        if is_at(s, 0, wwv_prefix()) {
            assert(s.subrange(0, 6)[0] == s[0]);
        }
    }
    assert(!is_at(s, 0, wcy_prefix())) by {
        if is_at(s, 0, wcy_prefix()) {
            assert(s.subrange(0, 6)[0] == s[0]);
        }
    }
    assert(!is_at(s, 0, wx_prefix())) by {
        if is_at(s, 0, wx_prefix()) {
            assert(s.subrange(0, 5)[0] == s[0]);
        }
    }
    assert(!is_at(s, 0, toall_prefix())) by {
        if is_at(s, 0, toall_prefix()) {
            assert(s.subrange(0, 9)[3] == s[3]);
        }
    }
    let a1 = call_end(s, 12);
    assert(a1 == s.len());
    lemma_run_end_is(s, a1, a1, class_pred(CharClass::Space));
    lemma_run_end_is(s, a1, a1, class_pred(CharClass::Sep));
    assert(sp_end(s, 11) == 12);
    assert(crate::grammar::msg_body(s, 11, true) is None);
    assert(crate::grammar::tolocal_match(s) is None);
}

} // verus!
