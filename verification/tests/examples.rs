//! Scenario tests: the documented examples, the classifier's rejection of
//! unknown lines, and malformed-number handling.

use dxclparser::{parse, parse_rbn, ParseError, Spot, DX, WCY, WWV};

#[test]
fn unknown_type() {
    assert_eq!(parse("RANDOM TEXT"), Err(ParseError::UnknownType));
    assert_eq!(parse(""), Err(ParseError::UnknownType));
    assert_eq!(parse("dx de DF2MX"), Err(ParseError::UnknownType));
}

#[test]
fn dx_full_example() {
    let spot = "DX de DF2MX:     18160.0  DL8AW/P      EU-156 Tombelaine Isl.         2259Z RF80";
    let exp = Spot::DX(DX {
        call_de: "DF2MX".into(),
        call_dx: "DL8AW/P".into(),
        freq: 18160000,
        utc: 2259,
        loc: Some("RF80".into()),
        comment: Some("EU-156 Tombelaine Isl.".into()),
    });
    assert_eq!(parse(spot), Ok(exp));
}

#[test]
fn dx_missing_comment_with_loc() {
    let spot = "DX de DF2MX:     18160.0  DL8AW/P                                     2259Z RF80";
    let exp = Spot::DX(DX {
        call_de: "DF2MX".into(),
        call_dx: "DL8AW/P".into(),
        freq: 18160000,
        utc: 2259,
        loc: Some("RF80".into()),
        comment: None,
    });
    assert_eq!(parse(spot), Ok(exp));
}

#[test]
fn wwv_full_example() {
    let spot = "WWV de VE7CC <00>:   SFI=69, A=5, K=1, No Storms -> No Storms";
    let exp = Spot::WWV(WWV {
        call_de: "VE7CC".into(),
        utc: 0,
        sfi: 69,
        a: 5,
        k: 1,
        info1: "No Storms".into(),
        info2: "No Storms".into(),
    });
    assert_eq!(parse(spot), Ok(exp));
}

#[test]
fn wcy_full_example() {
    let spot = "WCY de DK0WCY-1 <23> : K=2 expK=3 A=7 R=26 SFI=79 SA=qui GMF=qui Au=no";
    let exp = Spot::WCY(WCY {
        call_de: "DK0WCY-1".into(),
        utc: 23,
        k: 2,
        expk: 3,
        a: 7,
        r: 26,
        sfi: 79,
        sa: "qui".into(),
        gmf: "qui".into(),
        au: "no".into(),
    });
    assert_eq!(parse(spot), Ok(exp));
}

#[test]
fn dx_missing_frequency_token() {
    // no frequency at all: the body fails the pattern, never a coercion error
    let spot = "DX de DF2MX:     DL8AW/P      EU-156 Tombelaine Isl.         2259Z RF80";
    assert_eq!(parse(spot), Err(ParseError::InvalidContent));
}

#[test]
fn dx_frequency_without_fraction() {
    let spot = "DX de DF2MX:     18160  DL8AW/P      EU-156                  2259Z";
    assert_eq!(parse(spot), Err(ParseError::InvalidContent));
}

#[test]
fn dx_frequency_overflow() {
    // a frequency too large for the 64-bit hertz field is invalid content
    let spot = "DX de DF2MX:     99999999999999999999999.0  DL8AW/P          2259Z";
    assert_eq!(parse(spot), Err(ParseError::InvalidContent));
}

#[test]
fn dx_spotter_too_short() {
    let spot = "DX de AB:     18160.0  DL8AW/P      CQ         2259Z";
    assert_eq!(parse(spot), Err(ParseError::InvalidContent));
}

#[test]
fn dx_missing_utc_marker() {
    let spot = "DX de DF2MX:     18160.0  DL8AW/P      EU-156";
    assert_eq!(parse(spot), Err(ParseError::InvalidContent));
}

#[test]
fn dx_single_spaces() {
    let spot = "DX de DJ1TO: 3780.0 OH5Z LSB 2200Z JO62";
    let exp = Spot::DX(DX {
        call_de: "DJ1TO".into(),
        call_dx: "OH5Z".into(),
        freq: 3780000,
        utc: 2200,
        loc: Some("JO62".into()),
        comment: Some("LSB".into()),
    });
    assert_eq!(parse(spot), Ok(exp));
}

#[test]
fn dx_no_comment_needs_two_spaces() {
    // with the comment absent, both mandatory blank runs must be present
    let spot = "DX de AAA: 1.0 BBB 1234Z";
    assert_eq!(parse(spot), Err(ParseError::InvalidContent));
    let spot2 = "DX de AAA: 1.0 BBB  1234Z";
    let exp = Spot::DX(DX {
        call_de: "AAA".into(),
        call_dx: "BBB".into(),
        freq: 1000,
        utc: 1234,
        loc: None,
        comment: None,
    });
    assert_eq!(parse(spot2), Ok(exp));
}

#[test]
fn wx_empty_message() {
    let spot = "WX de VA3SAE: ";
    let exp = Spot::WX(dxclparser::WX {
        call_de: "VA3SAE".into(),
        utc: None,
        msg: Some("".into()),
    });
    assert_eq!(parse(spot), Ok(exp));
}

#[test]
fn tolocal_upper_with_timestamp() {
    let spot = "To LOCAL de N5UXT <1405Z> : rebooting";
    let exp = Spot::ToLocal(dxclparser::ToLocal {
        call_de: "N5UXT".into(),
        utc: Some(1405),
        msg: Some("rebooting".into()),
    });
    assert_eq!(parse(spot), Ok(exp));
}

#[test]
fn dx_utc_five_digits() {
    let spot = "DX de DF2MX:     18160.0  DL8AW/P      CQ   12345Z";
    assert_eq!(parse(spot), Err(ParseError::InvalidContent));
}

#[test]
fn rbn_invalid_comment() {
    assert_eq!(parse_rbn("not an rbn comment !"), Err(ParseError::InvalidContent));
    assert_eq!(parse_rbn(""), Err(ParseError::InvalidContent));
    assert_eq!(parse_rbn("EU-156 Tombelaine Isl."), Err(ParseError::InvalidContent));
}

#[test]
fn rbn_single_space_needs_locator_or_speed() {
    // without a locator the two mandatory blank runs need at least two spaces
    assert_eq!(parse_rbn("FT8 -12 dB CQ"), Err(ParseError::InvalidContent));
}

#[test]
fn rbn_no_locator_two_spaces() {
    let res = parse_rbn("FT8  -12 dB  CQ TEST");
    let exp = dxclparser::RBN {
        mode: "FT8".into(),
        db: -12,
        speed: None,
        speed_unit: None,
        info: "CQ TEST".into(),
        loc: None,
    };
    assert_eq!(res, Ok(exp));
}
