//! Line-parsing tests carried over from the library's own suite.

use dxclparser::{parse, ParseError, Spot, ToAll, ToLocal, DX, WCY, WWV, WX};

#[test]
fn lib_dx_valid_dxspider() {
    let spot = "DX de DJ1TO:      3780.0  OH5Z         LSB                            2200Z JO62";
    let res = parse(spot);
    let exp = Spot::DX(DX {
        call_de: "DJ1TO".into(),
        call_dx: "OH5Z".into(),
        freq: 3780000,
        utc: 2200,
        loc: Some("JO62".into()),
        comment: Some("LSB".into()),
    });
    assert_eq!(res, Ok(exp));
}

#[test]
fn lib_dx_valid_arcluster() {
    let spot = "DX de N2CQ:      14036.1  W0BH         OK QSO Party: Major            1624Z";
    let res = parse(spot);
    let exp = Spot::DX(DX {
        call_de: "N2CQ".into(),
        call_dx: "W0BH".into(),
        freq: 14036100,
        utc: 1624,
        loc: None,
        comment: Some("OK QSO Party: Major".into()),
    });
    assert_eq!(res, Ok(exp));
}

#[test]
fn lib_dx_valid_cccluster() {
    let spot = "DX de ZS6WN:     21075.4  CX2DAJ       FT8                            1625Z";
    let res = parse(spot);
    let exp = Spot::DX(DX {
        call_de: "ZS6WN".into(),
        call_dx: "CX2DAJ".into(),
        freq: 21075400,
        utc: 1625,
        loc: None,
        comment: Some("FT8".into()),
    });
    assert_eq!(res, Ok(exp));
}

#[test]
fn lib_dx_only_type() {
    let spot = "DX de DF2MX";
    let res = parse(spot);
    assert_eq!(res, Err(ParseError::InvalidContent));
}

#[test]
fn lib_dx_missing_loc_dxspider() {
    let spot = "DX de KE8GX:     14025.0  3B9FR        599 into N. MI                 1812Z";
    let res = parse(spot);
    let exp = Spot::DX(DX {
        call_de: "KE8GX".into(),
        call_dx: "3B9FR".into(),
        freq: 14025000,
        utc: 1812,
        loc: None,
        comment: Some("599 into N. MI".into()),
    });
    assert_eq!(res, Ok(exp));
}

#[test]
fn lib_dx_missing_comment_dxspider() {
    let spot = "DX de OZ1FJB:     3527.6  DL2ASG                                      1815Z JO55";
    let res = parse(spot);
    let exp = Spot::DX(DX {
        call_de: "OZ1FJB".into(),
        call_dx: "DL2ASG".into(),
        freq: 3527600,
        utc: 1815,
        loc: Some("JO55".into()),
        comment: None,
    });
    assert_eq!(res, Ok(exp));
}

#[test]
fn lib_dx_missing_comment_arcluster() {
    let spot = "DX de W9KXQ:     14076.0  HB9AOF                                      1629Z";
    let res = parse(spot);
    let exp = Spot::DX(DX {
        call_de: "W9KXQ".into(),
        call_dx: "HB9AOF".into(),
        freq: 14076000,
        utc: 1629,
        loc: None,
        comment: None,
    });
    assert_eq!(res, Ok(exp));
}

#[test]
fn lib_dx_missing_comment_cccluster() {
    let spot = "DX de RK9UE:      7115.0  RK6BP                                       1625Z";
    let res = parse(spot);
    let exp = Spot::DX(DX {
        call_de: "RK9UE".into(),
        call_dx: "RK6BP".into(),
        freq: 7115000,
        utc: 1625,
        loc: None,
        comment: None,
    });
    assert_eq!(res, Ok(exp));
}

#[test]
fn lib_wwv_valid_dxspider() {
    let spot = "WWV de VE7CC <21>:   SFI=70, A=12, K=3, No Storms -> No Storms";
    let res = parse(spot);
    let exp = Spot::WWV(WWV {
        call_de: "VE7CC".into(),
        utc: 21,
        sfi: 70,
        a: 12,
        k: 3,
        info1: "No Storms".into(),
        info2: "No Storms".into(),
    });
    assert_eq!(res, Ok(exp));
}

#[test]
fn lib_wwv_valid_arcluster() {
    let spot = "WWV de VE7CC <15Z> :   SFI=68, A=9, K=2, No Storms -> Minor w/G1";
    let res = parse(spot);
    let exp = Spot::WWV(WWV {
        call_de: "VE7CC".into(),
        utc: 15,
        sfi: 68,
        a: 9,
        k: 2,
        info1: "No Storms".into(),
        info2: "Minor w/G1".into(),
    });
    assert_eq!(res, Ok(exp));
}

#[test]
fn lib_wwv_valid_cccluster() {
    let spot = "WWV de AE5E <00>:   SFI=69, A=15, K=4, No Storms -> No Storms";
    let res = parse(spot);
    let exp = Spot::WWV(WWV {
        call_de: "AE5E".into(),
        utc: 0,
        sfi: 69,
        a: 15,
        k: 4,
        info1: "No Storms".into(),
        info2: "No Storms".into(),
    });
    assert_eq!(res, Ok(exp));
}

#[test]
fn lib_wwv_only_type() {
    let spot = "WWV de VE7CC";
    let res = parse(spot);
    assert_eq!(res, Err(ParseError::InvalidContent));
}

#[test]
fn lib_wcy_valid_dxspider() {
    let spot = "WCY de DK0WCY-1 <22> : K=4 expK=2 A=14 R=0 SFI=68 SA=qui GMF=act Au=no";
    let res = parse(spot);
    let exp = Spot::WCY(WCY {
        call_de: "DK0WCY-1".into(),
        utc: 22,
        k: 4,
        expk: 2,
        a: 14,
        r: 0,
        sfi: 68,
        sa: "qui".into(),
        gmf: "act".into(),
        au: "no".into(),
    });
    assert_eq!(res, Ok(exp));
}

#[test]
fn lib_wcy_valid_cccluster() {
    let spot = "WCY de DK0WCY-1 <17> : K=2 expK=3 A=15 R=0 SFI=68 SA=qui GMF=min Au=no";
    let res = parse(spot);
    let exp = Spot::WCY(WCY {
        call_de: "DK0WCY-1".into(),
        utc: 17,
        k: 2,
        expk: 3,
        a: 15,
        r: 0,
        sfi: 68,
        sa: "qui".into(),
        gmf: "min".into(),
        au: "no".into(),
    });
    assert_eq!(res, Ok(exp));
}

#[test]
fn lib_wcy_only_type() {
    let spot = "WCY de DK0WCY-1";
    let res = parse(spot);
    assert_eq!(res, Err(ParseError::InvalidContent))
}

#[test]
fn lib_wx_valid_dxspider() {
    let spot = "WX de VA3SAE: va3sub";
    let res = parse(spot);
    let exp = Spot::WX(WX {
        call_de: "VA3SAE".into(),
        utc: None,
        msg: Some("va3sub".into()),
    });
    assert_eq!(res, Ok(exp));
}

#[test]
fn lib_wx_only_type() {
    let spot = "WX de OZ4AEC";
    let res = parse(spot);
    assert_eq!(res, Err(ParseError::InvalidContent));
}

#[test]
fn lib_toall_valid_dxspider() {
    let spot = "To ALL de EA8CEN-9: carnaval de tenerife ea8urt";
    let res = parse(spot);
    let exp = Spot::ToAll(ToAll {
        call_de: "EA8CEN-9".into(),
        utc: None,
        msg: Some("carnaval de tenerife ea8urt".into()),
    });
    assert_eq!(res, Ok(exp));
}

#[test]
fn lib_toall_only_type() {
    let spot = "To ALL de SV5FRI-1";
    let res = parse(spot);
    assert_eq!(res, Err(ParseError::InvalidContent));
}

#[test]
fn lib_tolocal_valid_lower_case() {
    let spot = "To Local de N5UXT <1405Z> : rebooting";
    let res = parse(spot);
    let exp = Spot::ToLocal(ToLocal {
        call_de: "N5UXT".into(),
        utc: Some(1405),
        msg: Some("rebooting".into()),
    });
    assert_eq!(res, Ok(exp));
}

#[test]
fn lib_tolocal_valid_upper_case() {
    let spot = "To LOCAL de IW5CLM: off";
    let res = parse(spot);
    let exp = Spot::ToLocal(ToLocal {
        call_de: "IW5CLM".into(),
        utc: None,
        msg: Some("off".into()),
    });
    assert_eq!(res, Ok(exp));
}

#[test]
fn lib_tolocal_only_type() {
    let spot = "To Local de N5UXT";
    let res = parse(spot);
    assert_eq!(res, Err(ParseError::InvalidContent));
}
