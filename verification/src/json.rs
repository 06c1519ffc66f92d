//! The JSON exchange format: a verified writer, a specification-level
//! reader, and the proof that the reader recovers every record from its
//! projection.
//!
//! [`Spot::to_json`] projects a record field by field, in declaration
//! order, into a JSON object whose single key is the variant's name.
//! String fields are escaped as JSON demands: quote and backslash get a
//! backslash, control characters become `\u00`-sequences, and everything
//! else is copied verbatim. Absent optional fields render as `null`.
//!
//! [`spot_json_read`] is the model of a companion reader for exactly this
//! shape; [`lemma_exchange_roundtrip`] proves that it maps the projection
//! of any record back to that record, so the projection loses nothing.

use vstd::prelude::*;
use vstd::string::*;

use crate::text::{
    dec_str, dec_val, is_digit, lemma_dec_str_digits, lemma_dec_val_dec_str,
    lemma_run_end_is, run_end, class_pred, CharClass, chars_of, u64_str,
};
use crate::types::{DXView, MsgView, Spot, SpotView, WCYView, WWVView, DX, WCY, WWV};

verus! {

// ---------------------------------------------------------------------------
// Escaping
// ---------------------------------------------------------------------------

/// Characters that cannot stand unescaped in a JSON string.
pub open spec fn needs_escape(c: char) -> bool {
    c == '"' || c == '\\' || (c as u32) < 32
}

/// Lower-case hexadecimal digit for a value below sixteen.
pub open spec fn hex_digit(d: int) -> char {
    if d == 0 {
        '0'
    } else if d == 1 {
        '1'
    } else if d == 2 {
        '2'
    } else if d == 3 {
        '3'
    } else if d == 4 {
        '4'
    } else if d == 5 {
        '5'
    } else if d == 6 {
        '6'
    } else if d == 7 {
        '7'
    } else if d == 8 {
        '8'
    } else if d == 9 {
        '9'
    } else if d == 10 {
        'a'
    } else if d == 11 {
        'b'
    } else if d == 12 {
        'c'
    } else if d == 13 {
        'd'
    } else if d == 14 {
        'e'
    } else {
        'f'
    }
}

/// The escape sequence of one character.
pub open spec fn esc_char(c: char) -> Seq<char> {
    if c == '"' {
        seq!['\\', '"']
    } else if c == '\\' {
        seq!['\\', '\\']
    } else if (c as u32) < 32 {
        seq!['\\', 'u', '0', '0', hex_digit(c as u32 as int / 16), hex_digit(c as u32 as int % 16)]
    } else {
        seq![c]
    }
}

/// JSON escaping of a character sequence.
pub open spec fn esc(s: Seq<char>) -> Seq<char>
    decreases s.len(),
{
    if s.len() == 0 {
        Seq::<char>::empty()
    } else {
        esc(s.drop_last()) + esc_char(s.last())
    }
}

/// A quoted, escaped JSON string.
pub open spec fn json_string(s: Seq<char>) -> Seq<char> {
    seq!['"'] + esc(s) + seq!['"']
}

/// `"null"`
pub open spec fn null_lit() -> Seq<char> {
    seq!['n', 'u', 'l', 'l']
}

/// An optional string field: a JSON string, or `null` when absent.
pub open spec fn json_opt_str(o: Option<Seq<char>>) -> Seq<char> {
    match o {
        Some(s) => json_string(s),
        None => null_lit(),
    }
}

/// An optional numeric field: decimal digits, or `null` when absent.
pub open spec fn json_opt_u16(o: Option<u16>) -> Seq<char> {
    match o {
        Some(n) => dec_str(n as int),
        None => null_lit(),
    }
}

/// Escaping a clean run changes nothing.
pub proof fn lemma_esc_clean(t: Seq<char>)
    requires
        forall|k: int| 0 <= k < t.len() ==> !needs_escape(#[trigger] t[k]),
    ensures
        esc(t) == t,
    decreases t.len(),
{
    if t.len() > 0 {
        lemma_esc_clean(t.drop_last());
        assert(esc_char(t.last()) =~= seq![t.last()]);
        assert(t.drop_last() + seq![t.last()] =~= t);
    } else {
        assert(esc(t) =~= t);
    }
}

/// Escaping distributes over extension by one character.
pub proof fn lemma_esc_snoc(s: Seq<char>, i: int)
    requires
        0 <= i < s.len(),
    ensures
        esc(s.take(i + 1)) == esc(s.take(i)) + esc_char(s[i]),
{
    assert(s.take(i + 1).drop_last() =~= s.take(i));
    assert(s.take(i + 1).last() == s[i]);
}

/// Escaping a prefix extended by a clean run appends that run verbatim.
pub proof fn lemma_esc_extend_clean(s: Seq<char>, a: int, b: int)
    requires
        0 <= a <= b <= s.len(),
        forall|k: int| a <= k < b ==> !needs_escape(#[trigger] s[k]),
    ensures
        esc(s.take(b)) == esc(s.take(a)) + s.subrange(a, b),
    decreases b - a,
{
    if a == b {
        assert(esc(s.take(a)) + s.subrange(a, b) =~= esc(s.take(a)));
    } else {
        lemma_esc_extend_clean(s, a, b - 1);
        lemma_esc_snoc(s, b - 1);
        assert(esc_char(s[b - 1]) =~= seq![s[b - 1]]);
        assert(esc(s.take(a)) + s.subrange(a, b - 1) + seq![s[b - 1]] =~= esc(s.take(a))
            + s.subrange(a, b));
    }
}

/// The single-character string for a hexadecimal digit value.
fn hex_lit(d: u32) -> (r: &'static str)
    requires
        d < 16,
    ensures
        r@ =~= seq![hex_digit(d as int)],
{
    proof {
        reveal_strlit("0");
        reveal_strlit("1");
        reveal_strlit("2");
        reveal_strlit("3");
        reveal_strlit("4");
        reveal_strlit("5");
        reveal_strlit("6");
        reveal_strlit("7");
        reveal_strlit("8");
        reveal_strlit("9");
        reveal_strlit("a");
        reveal_strlit("b");
        reveal_strlit("c");
        reveal_strlit("d");
        reveal_strlit("e");
        reveal_strlit("f");
    }
    match d {
        0 => "0",
        1 => "1",
        2 => "2",
        3 => "3",
        4 => "4",
        5 => "5",
        6 => "6",
        7 => "7",
        8 => "8",
        9 => "9",
        10 => "a",
        11 => "b",
        12 => "c",
        13 => "d",
        14 => "e",
        _ => "f",
    }
}

/// Appends the quoted, escaped JSON form of `s` to `out`.
#[verifier::rlimit(60)]
#[verifier::loop_isolation(false)]
fn append_json_string(out: &mut String, s: &str)
    ensures
        final(out)@ == old(out)@ + json_string(s@),
{
    proof {
        reveal_strlit("\"");
        reveal_strlit("\\\"");
        reveal_strlit("\\\\");
        reveal_strlit("\\u00");
        assert("\""@ =~= seq!['"']);
        assert("\\\""@ =~= esc_char('"'));
        assert("\\\\"@ =~= esc_char('\\'));
        assert("\\u00"@ =~= seq!['\\', 'u', '0', '0']);
    }
    let v = chars_of(s);
    let n = v.len();
    out.append("\"");
    let ghost base = out@;
    proof {
        assert(esc(s@.take(0)) =~= Seq::<char>::empty());
        assert(base + esc(s@.take(0)) =~= base);
    }
    let mut start: usize = 0;
    let mut i: usize = 0;
    while i < n
        invariant
            0 <= start <= i <= n,
            n == s@.len(),
            v@ == s@,
            out@ == base + esc(s@.take(start as int)),
            forall|k: int| start <= k < i ==> !needs_escape(#[trigger] s@[k]),
        decreases n - i,
    {
        let c = v[i];
        let special = c == '"' || c == '\\' || (c as u32) < 32;
        if special {
            out.append(s.substring_char(start, i));
            proof {
                lemma_esc_extend_clean(s@, start as int, i as int);
            }
            if c == '"' {
                out.append("\\\"");
            } else if c == '\\' {
                out.append("\\\\");
            } else {
                out.append("\\u00");
                out.append(hex_lit((c as u32) / 16));
                out.append(hex_lit((c as u32) % 16));
                proof {
                    assert(seq!['\\', 'u', '0', '0'] + seq![hex_digit(c as u32 as int / 16)]
                        + seq![hex_digit(c as u32 as int % 16)] =~= esc_char(c));
                }
            }
            proof {
                lemma_esc_snoc(s@, i as int);
                assert(out@ =~= base + esc(s@.take(i + 1)));
            }
            start = i + 1;
        }
        i = i + 1;
    }
    out.append(s.substring_char(start, n));
    proof {
        lemma_esc_extend_clean(s@, start as int, n as int);
        assert(s@.take(n as int) =~= s@);
        assert(out@ =~= base + esc(s@));
    }
    out.append("\"");
    proof {
        assert(out@ =~= old(out)@ + json_string(s@));
    }
}

/// Appends the decimal form of `n` to `out`.
fn append_u64(out: &mut String, n: u64)
    ensures
        final(out)@ == old(out)@ + dec_str(n as int),
{
    let d = u64_str(n);
    out.append(d.as_str());
}

/// Appends an optional string field to `out`.
fn append_opt_str(out: &mut String, o: &Option<String>)
    ensures
        final(out)@ == old(out)@ + json_opt_str(crate::types::opt_view(*o)),
{
    match o {
        Some(s) => append_json_string(out, s.as_str()),
        None => {
            proof {
                reveal_strlit("null");
                assert("null"@ =~= null_lit());
            }
            out.append("null");
        },
    }
}

/// Appends an optional numeric field to `out`.
fn append_opt_u16(out: &mut String, o: &Option<u16>)
    ensures
        final(out)@ == old(out)@ + json_opt_u16(*o),
{
    match o {
        Some(n) => append_u64(out, *n as u64),
        None => {
            proof {
                reveal_strlit("null");
                assert("null"@ =~= null_lit());
            }
            out.append("null");
        },
    }
}

// ---------------------------------------------------------------------------
// The projection, per variant
// ---------------------------------------------------------------------------

/// `{"DX":{"call_de":`
pub open spec fn dx_open() -> Seq<char> {
    seq!['{', '"', 'D', 'X', '"', ':', '{', '"', 'c', 'a', 'l', 'l', '_', 'd', 'e', '"', ':']
}

/// `{"WWV":{"call_de":`
pub open spec fn wwv_open() -> Seq<char> {
    seq!['{', '"', 'W', 'W', 'V', '"', ':', '{', '"', 'c', 'a', 'l', 'l', '_', 'd', 'e', '"', ':']
}

/// `{"WCY":{"call_de":`
pub open spec fn wcy_open() -> Seq<char> {
    seq!['{', '"', 'W', 'C', 'Y', '"', ':', '{', '"', 'c', 'a', 'l', 'l', '_', 'd', 'e', '"', ':']
}

/// `{"WX":{"call_de":`
pub open spec fn wx_open() -> Seq<char> {
    seq!['{', '"', 'W', 'X', '"', ':', '{', '"', 'c', 'a', 'l', 'l', '_', 'd', 'e', '"', ':']
}

/// `{"ToAll":{"call_de":`
pub open spec fn toall_open() -> Seq<char> {
    seq![
        '{', '"', 'T', 'o', 'A', 'l', 'l', '"', ':', '{', '"', 'c', 'a', 'l', 'l', '_', 'd', 'e',
        '"', ':',
    ]
}

/// `{"ToLocal":{"call_de":`
pub open spec fn tolocal_open() -> Seq<char> {
    seq![
        '{', '"', 'T', 'o', 'L', 'o', 'c', 'a', 'l', '"', ':', '{', '"', 'c', 'a', 'l', 'l', '_',
        'd', 'e', '"', ':',
    ]
}

/// `,"call_dx":`
pub open spec fn key_call_dx() -> Seq<char> {
    seq![',', '"', 'c', 'a', 'l', 'l', '_', 'd', 'x', '"', ':']
}

/// `,"freq":`
pub open spec fn key_freq() -> Seq<char> {
    seq![',', '"', 'f', 'r', 'e', 'q', '"', ':']
}

/// `,"utc":`
pub open spec fn key_utc() -> Seq<char> {
    seq![',', '"', 'u', 't', 'c', '"', ':']
}

/// `,"loc":`
pub open spec fn key_loc() -> Seq<char> {
    seq![',', '"', 'l', 'o', 'c', '"', ':']
}

/// `,"comment":`
pub open spec fn key_comment() -> Seq<char> {
    seq![',', '"', 'c', 'o', 'm', 'm', 'e', 'n', 't', '"', ':']
}

/// `,"sfi":`
pub open spec fn key_sfi() -> Seq<char> {
    seq![',', '"', 's', 'f', 'i', '"', ':']
}

/// `,"a":`
pub open spec fn key_a() -> Seq<char> {
    seq![',', '"', 'a', '"', ':']
}

/// `,"k":`
pub open spec fn key_k() -> Seq<char> {
    seq![',', '"', 'k', '"', ':']
}

/// `,"info1":`
pub open spec fn key_info1() -> Seq<char> {
    seq![',', '"', 'i', 'n', 'f', 'o', '1', '"', ':']
}

/// `,"info2":`
pub open spec fn key_info2() -> Seq<char> {
    seq![',', '"', 'i', 'n', 'f', 'o', '2', '"', ':']
}

/// `,"expk":`
pub open spec fn key_expk() -> Seq<char> {
    seq![',', '"', 'e', 'x', 'p', 'k', '"', ':']
}

/// `,"r":`
pub open spec fn key_r() -> Seq<char> {
    seq![',', '"', 'r', '"', ':']
}

/// `,"sa":`
pub open spec fn key_sa() -> Seq<char> {
    seq![',', '"', 's', 'a', '"', ':']
}

/// `,"gmf":`
pub open spec fn key_gmf() -> Seq<char> {
    seq![',', '"', 'g', 'm', 'f', '"', ':']
}

/// `,"au":`
pub open spec fn key_au() -> Seq<char> {
    seq![',', '"', 'a', 'u', '"', ':']
}

/// `,"msg":`
pub open spec fn key_msg() -> Seq<char> {
    seq![',', '"', 'm', 's', 'g', '"', ':']
}

/// `}}`
pub open spec fn obj_close() -> Seq<char> {
    seq!['}', '}']
}

/// JSON projection of a DX record, right-nested along the reader's path.
pub open spec fn dx_json(d: DXView) -> Seq<char> {
    dx_open() + (json_string(d.call_de) + (key_call_dx() + (json_string(d.call_dx) + (key_freq()
        + (dec_str(d.freq as int) + (key_utc() + (dec_str(d.utc as int) + (key_loc() + (
    json_opt_str(d.loc) + (key_comment() + (json_opt_str(d.comment) + obj_close())))))))))))
}

/// The info fields and closing of a WWV projection.
pub open spec fn wwv_info_json(w: WWVView) -> Seq<char> {
    key_info1() + (json_string(w.info1) + (key_info2() + (json_string(w.info2) + obj_close())))
}

/// JSON projection of a WWV record.
pub open spec fn wwv_json(w: WWVView) -> Seq<char> {
    wwv_open() + (json_string(w.call_de) + (key_utc() + (dec_str(w.utc as int) + (key_sfi() + (
    dec_str(w.sfi as int) + (key_a() + (dec_str(w.a as int) + (key_k() + (dec_str(w.k as int)
        + wwv_info_json(w))))))))))
}

/// The letter fields and closing of a WCY projection.
pub open spec fn wcy_letters_json(w: WCYView) -> Seq<char> {
    key_sa() + (json_string(w.sa) + (key_gmf() + (json_string(w.gmf) + (key_au() + (json_string(
        w.au,
    ) + obj_close())))))
}

/// The index fields of a WCY projection, with everything after them.
pub open spec fn wcy_indices_json(w: WCYView) -> Seq<char> {
    key_k() + (dec_str(w.k as int) + (key_expk() + (dec_str(w.expk as int) + (key_a() + (dec_str(
        w.a as int,
    ) + (key_r() + (dec_str(w.r as int) + (key_sfi() + (dec_str(w.sfi as int) + wcy_letters_json(
        w,
    ))))))))))
}

/// JSON projection of a WCY record.
pub open spec fn wcy_json(w: WCYView) -> Seq<char> {
    wcy_open() + (json_string(w.call_de) + (key_utc() + (dec_str(w.utc as int) + wcy_indices_json(
        w,
    ))))
}

/// JSON projection of the shared message payload, after its opening chunk.
pub open spec fn msg_json(m: MsgView) -> Seq<char> {
    json_string(m.call_de) + (key_utc() + (json_opt_u16(m.utc) + (key_msg() + (json_opt_str(m.msg)
        + obj_close()))))
}

/// JSON projection of a record: one object whose single key is the
/// variant's name, holding the fields in declaration order.
pub open spec fn spot_json(v: SpotView) -> Seq<char> {
    match v {
        SpotView::DX(d) => dx_json(d),
        SpotView::WWV(w) => wwv_json(w),
        SpotView::WCY(w) => wcy_json(w),
        SpotView::WX(m) => wx_open() + msg_json(m),
        SpotView::ToAll(m) => toall_open() + msg_json(m),
        SpotView::ToLocal(m) => tolocal_open() + msg_json(m),
    }
}


// ---------------------------------------------------------------------------
// The literal chunks, as strings
// ---------------------------------------------------------------------------

/// The opening chunk of a DX object.
fn lit_dx_open() -> (r: &'static str)
    ensures
        r@ == dx_open(),
{
    proof {
        reveal_strlit("{\"DX\":{\"call_de\":");
        assert("{\"DX\":{\"call_de\":"@ =~= dx_open());
    }
    "{\"DX\":{\"call_de\":"
}

/// The opening chunk of a WWV object.
fn lit_wwv_open() -> (r: &'static str)
    ensures
        r@ == wwv_open(),
{
    proof {
        reveal_strlit("{\"WWV\":{\"call_de\":");
        assert("{\"WWV\":{\"call_de\":"@ =~= wwv_open());
    }
    "{\"WWV\":{\"call_de\":"
}

/// The opening chunk of a WCY object.
fn lit_wcy_open() -> (r: &'static str)
    ensures
        r@ == wcy_open(),
{
    proof {
        reveal_strlit("{\"WCY\":{\"call_de\":");
        assert("{\"WCY\":{\"call_de\":"@ =~= wcy_open());
    }
    "{\"WCY\":{\"call_de\":"
}

/// The opening chunk of a WX object.
fn lit_wx_open() -> (r: &'static str)
    ensures
        r@ == wx_open(),
{
    proof {
        reveal_strlit("{\"WX\":{\"call_de\":");
        assert("{\"WX\":{\"call_de\":"@ =~= wx_open());
    }
    "{\"WX\":{\"call_de\":"
}

/// The opening chunk of a ToAll object.
fn lit_toall_open() -> (r: &'static str)
    ensures
        r@ == toall_open(),
{
    proof {
        reveal_strlit("{\"ToAll\":{\"call_de\":");
        assert("{\"ToAll\":{\"call_de\":"@ =~= toall_open());
    }
    "{\"ToAll\":{\"call_de\":"
}

/// The opening chunk of a ToLocal object.
fn lit_tolocal_open() -> (r: &'static str)
    ensures
        r@ == tolocal_open(),
{
    proof {
        reveal_strlit("{\"ToLocal\":{\"call_de\":");
        assert("{\"ToLocal\":{\"call_de\":"@ =~= tolocal_open());
    }
    "{\"ToLocal\":{\"call_de\":"
}

/// The key chunk `,"call_dx":`.
fn lit_key_call_dx() -> (r: &'static str)
    ensures
        r@ == key_call_dx(),
{
    proof {
        reveal_strlit(",\"call_dx\":");
        assert(",\"call_dx\":"@ =~= key_call_dx());
    }
    ",\"call_dx\":"
}

/// The key chunk `,"freq":`.
fn lit_key_freq() -> (r: &'static str)
    ensures
        r@ == key_freq(),
{
    proof {
        reveal_strlit(",\"freq\":");
        assert(",\"freq\":"@ =~= key_freq());
    }
    ",\"freq\":"
}

/// The key chunk `,"utc":`.
fn lit_key_utc() -> (r: &'static str)
    ensures
        r@ == key_utc(),
{
    proof {
        reveal_strlit(",\"utc\":");
        assert(",\"utc\":"@ =~= key_utc());
    }
    ",\"utc\":"
}

/// The key chunk `,"loc":`.
fn lit_key_loc() -> (r: &'static str)
    ensures
        r@ == key_loc(),
{
    proof {
        reveal_strlit(",\"loc\":");
        assert(",\"loc\":"@ =~= key_loc());
    }
    ",\"loc\":"
}

/// The key chunk `,"comment":`.
fn lit_key_comment() -> (r: &'static str)
    ensures
        r@ == key_comment(),
{
    proof {
        reveal_strlit(",\"comment\":");
        assert(",\"comment\":"@ =~= key_comment());
    }
    ",\"comment\":"
}

/// The key chunk `,"sfi":`.
fn lit_key_sfi() -> (r: &'static str)
    ensures
        r@ == key_sfi(),
{
    proof {
        reveal_strlit(",\"sfi\":");
        assert(",\"sfi\":"@ =~= key_sfi());
    }
    ",\"sfi\":"
}

/// The key chunk `,"a":`.
fn lit_key_a() -> (r: &'static str)
    ensures
        r@ == key_a(),
{
    proof {
        reveal_strlit(",\"a\":");
        assert(",\"a\":"@ =~= key_a());
    }
    ",\"a\":"
}

/// The key chunk `,"k":`.
fn lit_key_k() -> (r: &'static str)
    ensures
        r@ == key_k(),
{
    proof {
        reveal_strlit(",\"k\":");
        assert(",\"k\":"@ =~= key_k());
    }
    ",\"k\":"
}

/// The key chunk `,"info1":`.
fn lit_key_info1() -> (r: &'static str)
    ensures
        r@ == key_info1(),
{
    proof {
        reveal_strlit(",\"info1\":");
        assert(",\"info1\":"@ =~= key_info1());
    }
    ",\"info1\":"
}

/// The key chunk `,"info2":`.
fn lit_key_info2() -> (r: &'static str)
    ensures
        r@ == key_info2(),
{
    proof {
        reveal_strlit(",\"info2\":");
        assert(",\"info2\":"@ =~= key_info2());
    }
    ",\"info2\":"
}

/// The key chunk `,"expk":`.
fn lit_key_expk() -> (r: &'static str)
    ensures
        r@ == key_expk(),
{
    proof {
        reveal_strlit(",\"expk\":");
        assert(",\"expk\":"@ =~= key_expk());
    }
    ",\"expk\":"
}

/// The key chunk `,"r":`.
fn lit_key_r() -> (r: &'static str)
    ensures
        r@ == key_r(),
{
    proof {
        reveal_strlit(",\"r\":");
        assert(",\"r\":"@ =~= key_r());
    }
    ",\"r\":"
}

/// The key chunk `,"sa":`.
fn lit_key_sa() -> (r: &'static str)
    ensures
        r@ == key_sa(),
{
    proof {
        reveal_strlit(",\"sa\":");
        assert(",\"sa\":"@ =~= key_sa());
    }
    ",\"sa\":"
}

/// The key chunk `,"gmf":`.
fn lit_key_gmf() -> (r: &'static str)
    ensures
        r@ == key_gmf(),
{
    proof {
        reveal_strlit(",\"gmf\":");
        assert(",\"gmf\":"@ =~= key_gmf());
    }
    ",\"gmf\":"
}

/// The key chunk `,"au":`.
fn lit_key_au() -> (r: &'static str)
    ensures
        r@ == key_au(),
{
    proof {
        reveal_strlit(",\"au\":");
        assert(",\"au\":"@ =~= key_au());
    }
    ",\"au\":"
}

/// The key chunk `,"msg":`.
fn lit_key_msg() -> (r: &'static str)
    ensures
        r@ == key_msg(),
{
    proof {
        reveal_strlit(",\"msg\":");
        assert(",\"msg\":"@ =~= key_msg());
    }
    ",\"msg\":"
}

/// The closing chunk `}}`.
fn lit_obj_close() -> (r: &'static str)
    ensures
        r@ == obj_close(),
{
    proof {
        reveal_strlit("}}");
        assert("}}"@ =~= obj_close());
    }
    "}}"
}

// ---------------------------------------------------------------------------
// The executable writer
// ---------------------------------------------------------------------------

impl Spot {
    /// Convert a structured spot into its JSON exchange format.
    pub fn to_json(&self) -> (r: String)
        ensures
            r@ == spot_json(self@),
    {
        match self {
            Spot::DX(d) => dx_json_str(d),
            Spot::WWV(w) => wwv_json_str(w),
            Spot::WCY(w) => wcy_json_str(w),
            Spot::WX(m) => msg_json_str(lit_wx_open(), Ghost(wx_open()), &m.call_de, &m.utc, &m.msg),
            Spot::ToAll(m) => msg_json_str(
                lit_toall_open(),
                Ghost(toall_open()),
                &m.call_de,
                &m.utc,
                &m.msg,
            ),
            Spot::ToLocal(m) => msg_json_str(
                lit_tolocal_open(),
                Ghost(tolocal_open()),
                &m.call_de,
                &m.utc,
                &m.msg,
            ),
        }
    }
}

/// Builds the JSON projection of a DX record.
#[verifier::rlimit(100)]
fn dx_json_str(d: &DX) -> (r: String)
    ensures
        r@ == dx_json(d@),
{
    let mut out = String::new();
    out.append(lit_dx_open());
    append_json_string(&mut out, d.call_de.as_str());
    out.append(lit_key_call_dx());
    append_json_string(&mut out, d.call_dx.as_str());
    out.append(lit_key_freq());
    append_u64(&mut out, d.freq);
    out.append(lit_key_utc());
    append_u64(&mut out, d.utc as u64);
    out.append(lit_key_loc());
    append_opt_str(&mut out, &d.loc);
    out.append(lit_key_comment());
    append_opt_str(&mut out, &d.comment);
    out.append(lit_obj_close());
    proof {
        assert(out@ =~= dx_json(d@));
    }
    out
}

/// Builds the JSON projection of a WWV record.
#[verifier::rlimit(100)]
fn wwv_json_str(w: &WWV) -> (r: String)
    ensures
        r@ == wwv_json(w@),
{
    let mut tail = String::new();
    tail.append(lit_key_info1());
    append_json_string(&mut tail, w.info1.as_str());
    tail.append(lit_key_info2());
    append_json_string(&mut tail, w.info2.as_str());
    tail.append(lit_obj_close());
    proof {
        assert(tail@ =~= wwv_info_json(w@));
    }
    let mut out = String::new();
    out.append(lit_wwv_open());
    append_json_string(&mut out, w.call_de.as_str());
    out.append(lit_key_utc());
    append_u64(&mut out, w.utc as u64);
    out.append(lit_key_sfi());
    append_u64(&mut out, w.sfi as u64);
    out.append(lit_key_a());
    append_u64(&mut out, w.a as u64);
    out.append(lit_key_k());
    append_u64(&mut out, w.k as u64);
    out.append(tail.as_str());
    proof {
        assert(out@ =~= wwv_json(w@));
    }
    out
}

/// Builds the letter fields and closing of a WCY projection.
#[verifier::rlimit(60)]
fn wcy_letters_str(w: &WCY) -> (r: String)
    ensures
        r@ == wcy_letters_json(w@),
{
    let mut letters = String::new();
    letters.append(lit_key_sa());
    append_json_string(&mut letters, w.sa.as_str());
    letters.append(lit_key_gmf());
    append_json_string(&mut letters, w.gmf.as_str());
    letters.append(lit_key_au());
    append_json_string(&mut letters, w.au.as_str());
    letters.append(lit_obj_close());
    proof {
        assert(letters@ =~= wcy_letters_json(w@));
    }
    letters
}

/// Builds the index fields of a WCY projection, with everything after them.
#[verifier::rlimit(60)]
fn wcy_indices_str(w: &WCY) -> (r: String)
    ensures
        r@ == wcy_indices_json(w@),
{
    let letters = wcy_letters_str(w);
    let mut idx = String::new();
    idx.append(lit_key_k());
    append_u64(&mut idx, w.k as u64);
    idx.append(lit_key_expk());
    append_u64(&mut idx, w.expk as u64);
    idx.append(lit_key_a());
    append_u64(&mut idx, w.a as u64);
    idx.append(lit_key_r());
    append_u64(&mut idx, w.r as u64);
    idx.append(lit_key_sfi());
    append_u64(&mut idx, w.sfi as u64);
    idx.append(letters.as_str());
    proof {
        assert(idx@ =~= wcy_indices_json(w@));
    }
    idx
}

/// Builds the JSON projection of a WCY record.
#[verifier::rlimit(60)]
fn wcy_json_str(w: &WCY) -> (r: String)
    ensures
        r@ == wcy_json(w@),
{
    let idx = wcy_indices_str(w);
    let mut out = String::new();
    out.append(lit_wcy_open());
    append_json_string(&mut out, w.call_de.as_str());
    out.append(lit_key_utc());
    append_u64(&mut out, w.utc as u64);
    out.append(idx.as_str());
    proof {
        assert(out@ =~= wcy_json(w@));
    }
    out
}

/// Builds the JSON projection of a message record (WX, ToAll, ToLocal),
/// from its opening chunk and the shared payload.
#[verifier::rlimit(100)]
fn msg_json_str(
    open_lit: &str,
    open_spec: Ghost<Seq<char>>,
    call_de: &String,
    utc: &Option<u16>,
    msg: &Option<String>,
) -> (r: String)
    requires
        open_lit@ == open_spec@,
    ensures
        r@ == open_spec@ + msg_json(
            MsgView { call_de: call_de@, utc: *utc, msg: crate::types::opt_view(*msg) },
        ),
{
    let mut out = String::new();
    out.append(open_lit);
    append_json_string(&mut out, call_de.as_str());
    out.append(lit_key_utc());
    append_opt_u16(&mut out, utc);
    out.append(lit_key_msg());
    append_opt_str(&mut out, msg);
    out.append(lit_obj_close());
    proof {
        assert(out@ =~= open_spec@ + msg_json(
            MsgView { call_de: call_de@, utc: *utc, msg: crate::types::opt_view(*msg) },
        ));
    }
    out
}


// ---------------------------------------------------------------------------
// The companion reader, as a specification
// ---------------------------------------------------------------------------

/// Strips the literal `t` from the head of `s`.
pub open spec fn rd_lit(s: Seq<char>, t: Seq<char>) -> Option<Seq<char>> {
    if t.len() <= s.len() && s.subrange(0, t.len() as int) == t {
        Some(s.skip(t.len() as int))
    } else {
        None
    }
}

/// Value of a lower-case hexadecimal digit, or `-1`.
pub open spec fn hex_val(c: char) -> int {
    if '0' <= c && c <= '9' {
        c as u32 - '0' as u32
    } else if 'a' <= c && c <= 'f' {
        10 + (c as u32 - 'a' as u32)
    } else {
        -1
    }
}

/// The control character with the given code point.
pub open spec fn ctl_char(x: int) -> char {
    if x == 0 {
        '\u{00}'
    } else if x == 1 {
        '\u{01}'
    } else if x == 2 {
        '\u{02}'
    } else if x == 3 {
        '\u{03}'
    } else if x == 4 {
        '\u{04}'
    } else if x == 5 {
        '\u{05}'
    } else if x == 6 {
        '\u{06}'
    } else if x == 7 {
        '\u{07}'
    } else if x == 8 {
        '\u{08}'
    } else if x == 9 {
        '\u{09}'
    } else if x == 10 {
        '\u{0a}'
    } else if x == 11 {
        '\u{0b}'
    } else if x == 12 {
        '\u{0c}'
    } else if x == 13 {
        '\u{0d}'
    } else if x == 14 {
        '\u{0e}'
    } else if x == 15 {
        '\u{0f}'
    } else if x == 16 {
        '\u{10}'
    } else if x == 17 {
        '\u{11}'
    } else if x == 18 {
        '\u{12}'
    } else if x == 19 {
        '\u{13}'
    } else if x == 20 {
        '\u{14}'
    } else if x == 21 {
        '\u{15}'
    } else if x == 22 {
        '\u{16}'
    } else if x == 23 {
        '\u{17}'
    } else if x == 24 {
        '\u{18}'
    } else if x == 25 {
        '\u{19}'
    } else if x == 26 {
        '\u{1a}'
    } else if x == 27 {
        '\u{1b}'
    } else if x == 28 {
        '\u{1c}'
    } else if x == 29 {
        '\u{1d}'
    } else if x == 30 {
        '\u{1e}'
    } else {
        '\u{1f}'
    }
}

/// Prepends a character to the value of a string read.
pub open spec fn rd_cons(c: char, r: Option<(Seq<char>, Seq<char>)>) -> Option<
    (Seq<char>, Seq<char>),
> {
    match r {
        Some((x, rest)) => Some((seq![c] + x, rest)),
        None => None,
    }
}

/// Reads an escaped string body up to and over its closing quote.
pub open spec fn rd_str_body(s: Seq<char>) -> Option<(Seq<char>, Seq<char>)>
    decreases s.len(),
{
    if s.len() == 0 {
        None
    } else if s[0] == '"' {
        Some((Seq::<char>::empty(), s.skip(1)))
    } else if s[0] == '\\' {
        if s.len() < 2 {
            None
        } else if s[1] == '"' {
            rd_cons('"', rd_str_body(s.skip(2)))
        } else if s[1] == '\\' {
            rd_cons('\\', rd_str_body(s.skip(2)))
        } else if s[1] == 'u' {
            if s.len() >= 6 && s[2] == '0' && s[3] == '0' && hex_val(s[4]) >= 0 && hex_val(s[5])
                >= 0 {
                rd_cons(ctl_char(16 * hex_val(s[4]) + hex_val(s[5])), rd_str_body(s.skip(6)))
            } else {
                None
            }
        } else {
            None
        }
    } else {
        rd_cons(s[0], rd_str_body(s.skip(1)))
    }
}

/// Reads a quoted, escaped string.
pub open spec fn rd_string(s: Seq<char>) -> Option<(Seq<char>, Seq<char>)> {
    if s.len() > 0 && s[0] == '"' {
        rd_str_body(s.skip(1))
    } else {
        None
    }
}

/// Reads a run of decimal digits as a number.
pub open spec fn rd_num(s: Seq<char>) -> Option<(int, Seq<char>)> {
    let k = run_end(s, 0, class_pred(CharClass::Digit));
    if k <= 0 {
        None
    } else {
        Some((dec_val(s.take(k)), s.skip(k)))
    }
}

/// Reads an optional string field: `null` or a string.
pub open spec fn rd_opt_str(s: Seq<char>) -> Option<(Option<Seq<char>>, Seq<char>)> {
    if s.len() >= 4 && s.subrange(0, 4) == null_lit() {
        Some((None, s.skip(4)))
    } else {
        match rd_string(s) {
            Some((x, r)) => Some((Some(x), r)),
            None => None,
        }
    }
}

/// Reads an optional numeric field: `null` or digits.
pub open spec fn rd_opt_num(s: Seq<char>) -> Option<(Option<int>, Seq<char>)> {
    if s.len() >= 4 && s.subrange(0, 4) == null_lit() {
        Some((None, s.skip(4)))
    } else {
        match rd_num(s) {
            Some((x, r)) => Some((Some(x), r)),
            None => None,
        }
    }
}

/// Reads the fields of a DX object, after its opening chunk.
pub open spec fn rd_dx(s: Seq<char>) -> Option<SpotView> {
    match rd_string(s) {
        None => None,
        Some((call_de, r1)) => match rd_lit(r1, key_call_dx()) {
            None => None,
            Some(r2) => match rd_string(r2) {
                None => None,
                Some((call_dx, r3)) => match rd_lit(r3, key_freq()) {
                    None => None,
                    Some(r4) => match rd_num(r4) {
                        None => None,
                        Some((freq, r5)) => match rd_lit(r5, key_utc()) {
                            None => None,
                            Some(r6) => match rd_num(r6) {
                                None => None,
                                Some((utc, r7)) => match rd_lit(r7, key_loc()) {
                                    None => None,
                                    Some(r8) => match rd_opt_str(r8) {
                                        None => None,
                                        Some((loc, r9)) => match rd_lit(r9, key_comment()) {
                                            None => None,
                                            Some(r10) => match rd_opt_str(r10) {
                                                None => None,
                                                Some((comment, r11)) => match rd_lit(
                                                    r11,
                                                    obj_close(),
                                                ) {
                                                    None => None,
                                                    Some(r12) => if r12.len() == 0 && 0 <= freq
                                                        <= u64::MAX && 0 <= utc <= u16::MAX {
                                                        Some(
                                                            SpotView::DX(
                                                                DXView {
                                                                    call_de,
                                                                    call_dx,
                                                                    freq: freq as u64,
                                                                    utc: utc as u16,
                                                                    loc,
                                                                    comment,
                                                                },
                                                            ),
                                                        )
                                                    } else {
                                                        None
                                                    },
                                                },
                                            },
                                        },
                                    },
                                },
                            },
                        },
                    },
                },
            },
        },
    }
}

/// Reads the fields of a WWV object, after its opening chunk.
pub open spec fn rd_wwv(s: Seq<char>) -> Option<SpotView> {
    match rd_string(s) {
        None => None,
        Some((call_de, r1)) => match rd_lit(r1, key_utc()) {
            None => None,
            Some(r2) => match rd_num(r2) {
                None => None,
                Some((utc, r3)) => match rd_lit(r3, key_sfi()) {
                    None => None,
                    Some(r4) => match rd_num(r4) {
                        None => None,
                        Some((sfi, r5)) => match rd_lit(r5, key_a()) {
                            None => None,
                            Some(r6) => match rd_num(r6) {
                                None => None,
                                Some((a, r7)) => match rd_lit(r7, key_k()) {
                                    None => None,
                                    Some(r8) => match rd_num(r8) {
                                        None => None,
                                        Some((k, r9)) => match rd_lit(r9, key_info1()) {
                                            None => None,
                                            Some(r10) => match rd_string(r10) {
                                                None => None,
                                                Some((info1, r11)) => match rd_lit(
                                                    r11,
                                                    key_info2(),
                                                ) {
                                                    None => None,
                                                    Some(r12) => match rd_string(r12) {
                                                        None => None,
                                                        Some((info2, r13)) => match rd_lit(
                                                            r13,
                                                            obj_close(),
                                                        ) {
                                                            None => None,
                                                            Some(r14) => if r14.len() == 0 && 0
                                                                <= utc <= u16::MAX && 0 <= sfi
                                                                <= u16::MAX && 0 <= a <= u16::MAX
                                                                && 0 <= k <= u16::MAX {
                                                                Some(
                                                                    SpotView::WWV(
                                                                        WWVView {
                                                                            call_de,
                                                                            utc: utc as u16,
                                                                            sfi: sfi as u16,
                                                                            a: a as u16,
                                                                            k: k as u16,
                                                                            info1,
                                                                            info2,
                                                                        },
                                                                    ),
                                                                )
                                                            } else {
                                                                None
                                                            },
                                                        },
                                                    },
                                                },
                                            },
                                        },
                                    },
                                },
                            },
                        },
                    },
                },
            },
        },
    }
}

/// Reads the letter fields and closing of a WCY object.
pub open spec fn rd_wcy_letters(s: Seq<char>) -> Option<(Seq<char>, Seq<char>, Seq<char>)> {
    match rd_string(s) {
        None => None,
        Some((sa, r1)) => match rd_lit(r1, key_gmf()) {
            None => None,
            Some(r2) => match rd_string(r2) {
                None => None,
                Some((gmf, r3)) => match rd_lit(r3, key_au()) {
                    None => None,
                    Some(r4) => match rd_string(r4) {
                        None => None,
                        Some((au, r5)) => match rd_lit(r5, obj_close()) {
                            None => None,
                            Some(r6) => if r6.len() == 0 {
                                Some((sa, gmf, au))
                            } else {
                                None
                            },
                        },
                    },
                },
            },
        },
    }
}

/// Reads the index fields of a WCY object, then the letter fields.
pub open spec fn rd_wcy_indices(s: Seq<char>) -> Option<
    (int, int, int, int, int, Seq<char>, Seq<char>, Seq<char>),
> {
    match rd_num(s) {
        None => None,
        Some((k, r1)) => match rd_lit(r1, key_expk()) {
            None => None,
            Some(r2) => match rd_num(r2) {
                None => None,
                Some((expk, r3)) => match rd_lit(r3, key_a()) {
                    None => None,
                    Some(r4) => match rd_num(r4) {
                        None => None,
                        Some((a, r5)) => match rd_lit(r5, key_r()) {
                            None => None,
                            Some(r6) => match rd_num(r6) {
                                None => None,
                                Some((rr, r7)) => match rd_lit(r7, key_sfi()) {
                                    None => None,
                                    Some(r8) => match rd_num(r8) {
                                        None => None,
                                        Some((sfi, r9)) => match rd_lit(r9, key_sa()) {
                                            None => None,
                                            Some(r10) => match rd_wcy_letters(r10) {
                                                None => None,
                                                Some((sa, gmf, au)) => Some(
                                                    (k, expk, a, rr, sfi, sa, gmf, au),
                                                ),
                                            },
                                        },
                                    },
                                },
                            },
                        },
                    },
                },
            },
        },
    }
}

/// Reads the fields of a WCY object, after its opening chunk.
pub open spec fn rd_wcy(s: Seq<char>) -> Option<SpotView> {
    match rd_string(s) {
        None => None,
        Some((call_de, r1)) => match rd_lit(r1, key_utc()) {
            None => None,
            Some(r2) => match rd_num(r2) {
                None => None,
                Some((utc, r3)) => match rd_lit(r3, key_k()) {
                    None => None,
                    Some(r4) => match rd_wcy_indices(r4) {
                        None => None,
                        Some((k, expk, a, rr, sfi, sa, gmf, au)) => if 0 <= utc <= u16::MAX && 0
                            <= k <= u16::MAX && 0 <= expk <= u16::MAX && 0 <= a <= u16::MAX && 0
                            <= rr <= u16::MAX && 0 <= sfi <= u16::MAX {
                            Some(
                                SpotView::WCY(
                                    WCYView {
                                        call_de,
                                        utc: utc as u16,
                                        k: k as u16,
                                        expk: expk as u16,
                                        a: a as u16,
                                        r: rr as u16,
                                        sfi: sfi as u16,
                                        sa,
                                        gmf,
                                        au,
                                    },
                                ),
                            )
                        } else {
                            None
                        },
                    },
                },
            },
        },
    }
}

/// Reads the fields of a message object (WX, ToAll, ToLocal), after its
/// opening chunk.
pub open spec fn rd_msg(s: Seq<char>) -> Option<MsgView> {
    match rd_string(s) {
        None => None,
        Some((call_de, r1)) => match rd_lit(r1, key_utc()) {
            None => None,
            Some(r2) => match rd_opt_num(r2) {
                None => None,
                Some((utc, r3)) => match rd_lit(r3, key_msg()) {
                    None => None,
                    Some(r4) => match rd_opt_str(r4) {
                        None => None,
                        Some((msg, r5)) => match rd_lit(r5, obj_close()) {
                            None => None,
                            Some(r6) => if r6.len() == 0 && (match utc {
                                Some(u) => 0 <= u <= u16::MAX,
                                None => true,
                            }) {
                                Some(
                                    MsgView {
                                        call_de,
                                        utc: match utc {
                                            Some(u) => Some(u as u16),
                                            None => None,
                                        },
                                        msg,
                                    },
                                )
                            } else {
                                None
                            },
                        },
                    },
                },
            },
        },
    }
}

/// The companion reader: recovers a record from its JSON exchange form.
pub open spec fn spot_json_read(s: Seq<char>) -> Option<SpotView> {
    match rd_lit(s, dx_open()) {
        Some(r) => rd_dx(r),
        None => match rd_lit(s, wwv_open()) {
            Some(r) => rd_wwv(r),
            None => match rd_lit(s, wcy_open()) {
                Some(r) => rd_wcy(r),
                None => match rd_lit(s, wx_open()) {
                    Some(r) => match rd_msg(r) {
                        Some(m) => Some(SpotView::WX(m)),
                        None => None,
                    },
                    None => match rd_lit(s, toall_open()) {
                        Some(r) => match rd_msg(r) {
                            Some(m) => Some(SpotView::ToAll(m)),
                            None => None,
                        },
                        None => match rd_lit(s, tolocal_open()) {
                            Some(r) => match rd_msg(r) {
                                Some(m) => Some(SpotView::ToLocal(m)),
                                None => None,
                            },
                            None => None,
                        },
                    },
                },
            },
        },
    }
}

// ---------------------------------------------------------------------------
// The round trip
// ---------------------------------------------------------------------------

/// Reading a literal off its own concatenation leaves the rest.
pub proof fn lemma_rd_lit_concat(t: Seq<char>, r: Seq<char>)
    ensures
        rd_lit(t + r, t) == Some(r),
{
    assert((t + r).subrange(0, t.len() as int) =~= t);
    assert((t + r).skip(t.len() as int) =~= r);
}

/// A literal that disagrees at one position does not read.
pub proof fn lemma_rd_lit_mismatch(s: Seq<char>, t: Seq<char>, i: int)
    requires
        0 <= i < t.len(),
        i < s.len(),
        s[i] != t[i],
    ensures
        rd_lit(s, t) is None,
{
    if t.len() <= s.len() && s.subrange(0, t.len() as int) == t {
        assert(s.subrange(0, t.len() as int)[i] == s[i]);
    }
}

/// Escaping can also be unfolded at the head.
pub proof fn lemma_esc_head(x: Seq<char>)
    requires
        x.len() > 0,
    ensures
        esc(x) == esc_char(x[0]) + esc(x.skip(1)),
    decreases x.len(),
{
    if x.len() == 1 {
        assert(x.drop_last() =~= Seq::<char>::empty());
        assert(x.skip(1) =~= Seq::<char>::empty());
        assert(x.last() == x[0]);
        assert(Seq::<char>::empty() + esc_char(x[0]) =~= esc_char(x[0])
            + Seq::<char>::empty());
    } else {
        lemma_esc_head(x.drop_last());
        assert(x.drop_last()[0] == x[0]);
        assert(x.skip(1).drop_last() =~= x.drop_last().skip(1));
        assert(x.skip(1).last() == x.last());
        assert(x.skip(1).len() > 0);
        assert(esc(x.skip(1)) == esc(x.skip(1).drop_last()) + esc_char(x.skip(1).last()));
        assert((esc_char(x[0]) + esc(x.drop_last().skip(1))) + esc_char(x.last()) =~= esc_char(
            x[0],
        ) + (esc(x.drop_last().skip(1)) + esc_char(x.last())));
    }
}

/// A hexadecimal digit reads back as its value.
pub proof fn lemma_hex_val_digit(d: int)
    requires
        0 <= d < 16,
    ensures
        hex_val(hex_digit(d)) == d,
{
}

/// The control character table inverts the code-point cast.
pub proof fn lemma_ctl_char(c: char)
    requires
        (c as u32) < 32,
    ensures
        ctl_char(c as u32 as int) == c,
{
}

/// Reading a string body off an escaped text recovers the text.
pub proof fn lemma_rd_str_body(x: Seq<char>, r: Seq<char>)
    ensures
        rd_str_body(esc(x) + (seq!['"'] + r)) == Some((x, r)),
    decreases x.len(),
{
    let s = esc(x) + (seq!['"'] + r);
    if x.len() == 0 {
        assert(esc(x) =~= Seq::<char>::empty());
        assert(s =~= seq!['"'] + r);
        assert(s[0] == '"');
        assert(s.skip(1) =~= r);
    } else {
        let c = x[0];
        let xp = x.skip(1);
        let tail2 = esc(xp) + (seq!['"'] + r);
        lemma_esc_head(x);
        assert(s =~= esc_char(c) + tail2);
        lemma_rd_str_body(xp, r);
        assert(seq![c] + xp =~= x);
        if c == '"' {
            assert(s[0] == '\\' && s[1] == '"');
            assert(s.skip(2) =~= tail2);
        } else if c == '\\' {
            assert(s[0] == '\\' && s[1] == '\\');
            assert(s.skip(2) =~= tail2);
        } else if (c as u32) < 32 {
            let hi = c as u32 as int / 16;
            let lo = c as u32 as int % 16;
            assert(s[0] == '\\' && s[1] == 'u' && s[2] == '0' && s[3] == '0');
            assert(s[4] == hex_digit(hi));
            assert(s[5] == hex_digit(lo));
            lemma_hex_val_digit(hi);
            lemma_hex_val_digit(lo);
            assert(16 * hex_val(s[4]) + hex_val(s[5]) == c as u32);
            lemma_ctl_char(c);
            assert(s.skip(6) =~= tail2);
        } else {
            assert(s[0] == c);
            assert(s.skip(1) =~= tail2);
        }
    }
}

/// Reading a quoted string off its own rendering recovers it.
pub proof fn lemma_rd_string(x: Seq<char>, r: Seq<char>)
    ensures
        rd_string(json_string(x) + r) == Some((x, r)),
{
    let s = json_string(x) + r;
    assert(s[0] == '"');
    assert(s.skip(1) =~= esc(x) + (seq!['"'] + r));
    lemma_rd_str_body(x, r);
}

/// Reading a number off its own rendering recovers it.
pub proof fn lemma_rd_num(n: int, r: Seq<char>)
    requires
        n >= 0,
        r.len() > 0,
        !is_digit(r[0]),
    ensures
        rd_num(dec_str(n) + r) == Some((n, r)),
{
    let s = dec_str(n) + r;
    let m = dec_str(n).len() as int;
    lemma_dec_str_digits(n);
    assert forall|k: int| 0 <= k < m implies class_pred(CharClass::Digit)(s[k]) by {
        assert(s[k] == dec_str(n)[k]);
        assert(is_digit(dec_str(n)[k]));
    }
    assert(s[m] == r[0]);
    assert(!class_pred(CharClass::Digit)(s[m]));
    lemma_run_end_is(s, 0, m, class_pred(CharClass::Digit));
    assert(s.take(m) =~= dec_str(n));
    lemma_dec_val_dec_str(n);
    assert(s.skip(m) =~= r);
}

/// Reading an optional string off its own rendering recovers it.
pub proof fn lemma_rd_opt_str(o: Option<Seq<char>>, r: Seq<char>)
    ensures
        rd_opt_str(json_opt_str(o) + r) == Some((o, r)),
{
    let s = json_opt_str(o) + r;
    match o {
        None => {
            assert(s.subrange(0, 4) =~= null_lit());
            assert(s.skip(4) =~= r);
        },
        Some(x) => {
            assert(s[0] == '"');
            if s.len() >= 4 && s.subrange(0, 4) == null_lit() {
                assert(s.subrange(0, 4)[0] == s[0]);
            }
            lemma_rd_string(x, r);
        },
    }
}

/// The optional form of a `u16` value.
pub open spec fn opt_int(o: Option<u16>) -> Option<int> {
    match o {
        Some(n) => Some(n as int),
        None => None,
    }
}

/// Reading an optional number off its own rendering recovers it.
pub proof fn lemma_rd_opt_num(o: Option<u16>, r: Seq<char>)
    requires
        r.len() > 0,
        !is_digit(r[0]),
    ensures
        rd_opt_num(json_opt_u16(o) + r) == Some((opt_int(o), r)),
{
    let s = json_opt_u16(o) + r;
    match o {
        None => {
            assert(s.subrange(0, 4) =~= null_lit());
            assert(s.skip(4) =~= r);
        },
        Some(n) => {
            lemma_dec_str_digits(n as int);
            assert(s[0] == dec_str(n as int)[0]);
            assert(is_digit(s[0]));
            if s.len() >= 4 && s.subrange(0, 4) == null_lit() {
                assert(s.subrange(0, 4)[0] == s[0]);
            }
            lemma_rd_num(n as int, r);
        },
    }
}

/// Round trip for a DX record.
#[verifier::rlimit(100)]
proof fn lemma_dx_roundtrip(d: DXView)
    ensures
        spot_json_read(dx_json(d)) == Some(SpotView::DX(d)),
{
    let r12: Seq<char> = Seq::<char>::empty();
    let r11 = obj_close();
    let r10 = json_opt_str(d.comment) + r11;
    let r9 = key_comment() + r10;
    let r8 = json_opt_str(d.loc) + r9;
    let r7 = key_loc() + r8;
    let r6 = dec_str(d.utc as int) + r7;
    let r5 = key_utc() + r6;
    let r4 = dec_str(d.freq as int) + r5;
    let r3 = key_freq() + r4;
    let r2 = json_string(d.call_dx) + r3;
    let r1 = key_call_dx() + r2;
    let r0 = json_string(d.call_de) + r1;
    let s = dx_open() + r0;
    assert(s == dx_json(d));
    lemma_rd_lit_concat(dx_open(), r0);
    lemma_rd_string(d.call_de, r1);
    lemma_rd_lit_concat(key_call_dx(), r2);
    lemma_rd_string(d.call_dx, r3);
    lemma_rd_lit_concat(key_freq(), r4);
    assert(r5[0] == ',' && !is_digit(','));
    lemma_rd_num(d.freq as int, r5);
    lemma_rd_lit_concat(key_utc(), r6);
    assert(r7[0] == ',' && !is_digit(','));
    lemma_rd_num(d.utc as int, r7);
    lemma_rd_lit_concat(key_loc(), r8);
    lemma_rd_opt_str(d.loc, r9);
    lemma_rd_lit_concat(key_comment(), r10);
    lemma_rd_opt_str(d.comment, r11);
    assert(r11 =~= obj_close() + r12);
    lemma_rd_lit_concat(obj_close(), r12);
    assert(rd_dx(r0) == Some(SpotView::DX(d)));
}

/// Round trip for a WWV record.
#[verifier::rlimit(100)]
proof fn lemma_wwv_roundtrip(w: WWVView)
    ensures
        spot_json_read(wwv_json(w)) == Some(SpotView::WWV(w)),
{
    let r14: Seq<char> = Seq::<char>::empty();
    let r13 = obj_close();
    let r12 = json_string(w.info2) + r13;
    let r11 = key_info2() + r12;
    let r10 = json_string(w.info1) + r11;
    let r9 = key_info1() + r10;
    let r8 = dec_str(w.k as int) + r9;
    let r7 = key_k() + r8;
    let r6 = dec_str(w.a as int) + r7;
    let r5 = key_a() + r6;
    let r4 = dec_str(w.sfi as int) + r5;
    let r3 = key_sfi() + r4;
    let r2 = dec_str(w.utc as int) + r3;
    let r1 = key_utc() + r2;
    let r0 = json_string(w.call_de) + r1;
    let s = wwv_open() + r0;
    assert(wwv_info_json(w) == r9);
    assert(s == wwv_json(w));
    assert(s[2] == 'W');
    lemma_rd_lit_mismatch(s, dx_open(), 2);
    lemma_rd_lit_concat(wwv_open(), r0);
    lemma_rd_string(w.call_de, r1);
    lemma_rd_lit_concat(key_utc(), r2);
    assert(r3[0] == ',' && !is_digit(','));
    lemma_rd_num(w.utc as int, r3);
    lemma_rd_lit_concat(key_sfi(), r4);
    assert(r5[0] == ',' && !is_digit(','));
    lemma_rd_num(w.sfi as int, r5);
    lemma_rd_lit_concat(key_a(), r6);
    assert(r7[0] == ',' && !is_digit(','));
    lemma_rd_num(w.a as int, r7);
    lemma_rd_lit_concat(key_k(), r8);
    assert(r9[0] == ',' && !is_digit(','));
    lemma_rd_num(w.k as int, r9);
    lemma_rd_lit_concat(key_info1(), r10);
    lemma_rd_string(w.info1, r11);
    lemma_rd_lit_concat(key_info2(), r12);
    lemma_rd_string(w.info2, r13);
    assert(r13 =~= obj_close() + r14);
    lemma_rd_lit_concat(obj_close(), r14);
    assert(rd_wwv(r0) == Some(SpotView::WWV(w)));
}

/// Round trip for a WCY record.
#[verifier::rlimit(100)]
proof fn lemma_wcy_roundtrip(w: WCYView)
    ensures
        spot_json_read(wcy_json(w)) == Some(SpotView::WCY(w)),
{
    let r20: Seq<char> = Seq::<char>::empty();
    let r19 = obj_close();
    let r18 = json_string(w.au) + r19;
    let r17 = key_au() + r18;
    let r16 = json_string(w.gmf) + r17;
    let r15 = key_gmf() + r16;
    let r14 = json_string(w.sa) + r15;
    let r13 = key_sa() + r14;
    let r12 = dec_str(w.sfi as int) + r13;
    let r11 = key_sfi() + r12;
    let r10 = dec_str(w.r as int) + r11;
    let r9 = key_r() + r10;
    let r8 = dec_str(w.a as int) + r9;
    let r7 = key_a() + r8;
    let r6 = dec_str(w.expk as int) + r7;
    let r5 = key_expk() + r6;
    let r4 = dec_str(w.k as int) + r5;
    let r3 = key_k() + r4;
    let r2 = dec_str(w.utc as int) + r3;
    let r1 = key_utc() + r2;
    let r0 = json_string(w.call_de) + r1;
    let s = wcy_open() + r0;
    assert(wcy_letters_json(w) == r13);
    assert(wcy_indices_json(w) == r3);
    assert(s == wcy_json(w));
    assert(s[2] == 'W');
    lemma_rd_lit_mismatch(s, dx_open(), 2);
    assert(s[3] == 'C');
    lemma_rd_lit_mismatch(s, wwv_open(), 3);
    lemma_rd_lit_concat(wcy_open(), r0);
    lemma_rd_string(w.call_de, r1);
    lemma_rd_lit_concat(key_utc(), r2);
    assert(r3[0] == ',' && !is_digit(','));
    lemma_rd_num(w.utc as int, r3);
    lemma_rd_lit_concat(key_k(), r4);
    assert(r5[0] == ',' && !is_digit(','));
    lemma_rd_num(w.k as int, r5);
    lemma_rd_lit_concat(key_expk(), r6);
    assert(r7[0] == ',' && !is_digit(','));
    lemma_rd_num(w.expk as int, r7);
    lemma_rd_lit_concat(key_a(), r8);
    assert(r9[0] == ',' && !is_digit(','));
    lemma_rd_num(w.a as int, r9);
    lemma_rd_lit_concat(key_r(), r10);
    assert(r11[0] == ',' && !is_digit(','));
    lemma_rd_num(w.r as int, r11);
    lemma_rd_lit_concat(key_sfi(), r12);
    assert(r13[0] == ',' && !is_digit(','));
    lemma_rd_num(w.sfi as int, r13);
    lemma_rd_lit_concat(key_sa(), r14);
    lemma_rd_string(w.sa, r15);
    lemma_rd_lit_concat(key_gmf(), r16);
    lemma_rd_string(w.gmf, r17);
    lemma_rd_lit_concat(key_au(), r18);
    lemma_rd_string(w.au, r19);
    assert(r19 =~= obj_close() + r20);
    lemma_rd_lit_concat(obj_close(), r20);
    assert(rd_wcy_letters(r14) == Some((w.sa, w.gmf, w.au)));
    assert(rd_wcy_indices(r4) == Some(
        (w.k as int, w.expk as int, w.a as int, w.r as int, w.sfi as int, w.sa, w.gmf, w.au),
    ));
    assert(rd_wcy(r0) == Some(SpotView::WCY(w)));
}

/// Round trip for the shared message payload.
proof fn lemma_msg_roundtrip(m: MsgView)
    ensures
        rd_msg(msg_json(m)) == Some(m),
{
    let r6: Seq<char> = Seq::<char>::empty();
    let r5 = obj_close();
    let r4 = json_opt_str(m.msg) + r5;
    let r3 = key_msg() + r4;
    let r2 = json_opt_u16(m.utc) + r3;
    let r1 = key_utc() + r2;
    let r0 = json_string(m.call_de) + r1;
    assert(r0 == msg_json(m));
    lemma_rd_string(m.call_de, r1);
    lemma_rd_lit_concat(key_utc(), r2);
    assert(r3[0] == ',' && !is_digit(','));
    lemma_rd_opt_num(m.utc, r3);
    lemma_rd_lit_concat(key_msg(), r4);
    lemma_rd_opt_str(m.msg, r5);
    assert(r5 =~= obj_close() + r6);
    lemma_rd_lit_concat(obj_close(), r6);
}

/// Round trip of the exchange format: the companion reader maps the JSON
/// projection of any record back to that record, so the projection is
/// lossless on every field of every variant.
pub proof fn lemma_exchange_roundtrip(v: SpotView)
    ensures
        spot_json_read(spot_json(v)) == Some(v),
{
    match v {
        SpotView::DX(d) => lemma_dx_roundtrip(d),
        SpotView::WWV(w) => lemma_wwv_roundtrip(w),
        SpotView::WCY(w) => lemma_wcy_roundtrip(w),
        SpotView::WX(m) => {
            let s = wx_open() + msg_json(m);
            assert(s[2] == 'W');
            lemma_rd_lit_mismatch(s, dx_open(), 2);
            assert(s[3] == 'X');
            lemma_rd_lit_mismatch(s, wwv_open(), 3);
            lemma_rd_lit_mismatch(s, wcy_open(), 3);
            lemma_rd_lit_concat(wx_open(), msg_json(m));
            lemma_msg_roundtrip(m);
        },
        SpotView::ToAll(m) => {
            let s = toall_open() + msg_json(m);
            assert(s[2] == 'T');
            lemma_rd_lit_mismatch(s, dx_open(), 2);
            lemma_rd_lit_mismatch(s, wwv_open(), 2);
            lemma_rd_lit_mismatch(s, wcy_open(), 2);
            lemma_rd_lit_mismatch(s, wx_open(), 2);
            lemma_rd_lit_concat(toall_open(), msg_json(m));
            lemma_msg_roundtrip(m);
        },
        SpotView::ToLocal(m) => {
            let s = tolocal_open() + msg_json(m);
            assert(s[2] == 'T');
            lemma_rd_lit_mismatch(s, dx_open(), 2);
            lemma_rd_lit_mismatch(s, wwv_open(), 2);
            lemma_rd_lit_mismatch(s, wcy_open(), 2);
            lemma_rd_lit_mismatch(s, wx_open(), 2);
            assert(s[4] == 'L');
            lemma_rd_lit_mismatch(s, toall_open(), 4);
            lemma_rd_lit_concat(tolocal_open(), msg_json(m));
            lemma_msg_roundtrip(m);
        },
    }
}

} // verus!
