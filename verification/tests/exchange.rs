//! Exchange-format tests: the exact JSON projection, and the round trip
//! through an independent JSON reader.

use dxclparser::{parse, Spot, ToAll, WX};

#[test]
fn dx_to_json_exact() {
    let spot = "DX de DJ1TO:      3780.0  OH5Z         LSB                            2200Z JO62";
    let rec = parse(spot).unwrap();
    assert_eq!(
        rec.to_json(),
        "{\"DX\":{\"call_de\":\"DJ1TO\",\"call_dx\":\"OH5Z\",\"freq\":3780000,\"utc\":2200,\"loc\":\"JO62\",\"comment\":\"LSB\"}}"
    );
}

#[test]
fn dx_to_json_nulls() {
    let spot = "DX de W9KXQ:     14076.0  HB9AOF                                      1629Z";
    let rec = parse(spot).unwrap();
    assert_eq!(
        rec.to_json(),
        "{\"DX\":{\"call_de\":\"W9KXQ\",\"call_dx\":\"HB9AOF\",\"freq\":14076000,\"utc\":1629,\"loc\":null,\"comment\":null}}"
    );
}

#[test]
fn wwv_to_json_exact() {
    let spot = "WWV de AE5E <00>:   SFI=69, A=15, K=4, No Storms -> No Storms";
    let rec = parse(spot).unwrap();
    assert_eq!(
        rec.to_json(),
        "{\"WWV\":{\"call_de\":\"AE5E\",\"utc\":0,\"sfi\":69,\"a\":15,\"k\":4,\"info1\":\"No Storms\",\"info2\":\"No Storms\"}}"
    );
}

#[test]
fn wcy_to_json_exact() {
    let spot = "WCY de DK0WCY-1 <22> : K=4 expK=2 A=14 R=0 SFI=68 SA=qui GMF=act Au=no";
    let rec = parse(spot).unwrap();
    assert_eq!(
        rec.to_json(),
        "{\"WCY\":{\"call_de\":\"DK0WCY-1\",\"utc\":22,\"k\":4,\"expk\":2,\"a\":14,\"r\":0,\"sfi\":68,\"sa\":\"qui\",\"gmf\":\"act\",\"au\":\"no\"}}"
    );
}

#[test]
fn wx_to_json_exact() {
    let spot = "WX de VA3SAE: va3sub";
    let rec = parse(spot).unwrap();
    assert_eq!(
        rec.to_json(),
        "{\"WX\":{\"call_de\":\"VA3SAE\",\"utc\":null,\"msg\":\"va3sub\"}}"
    );
}

#[test]
fn tolocal_to_json_exact() {
    let spot = "To Local de N5UXT <1405Z> : rebooting";
    let rec = parse(spot).unwrap();
    assert_eq!(
        rec.to_json(),
        "{\"ToLocal\":{\"call_de\":\"N5UXT\",\"utc\":1405,\"msg\":\"rebooting\"}}"
    );
}

#[test]
fn json_escapes_special_characters() {
    let rec = Spot::WX(WX {
        call_de: "VA3SAE".into(),
        utc: None,
        msg: Some("say \"hi\" \\ twice\tok".into()),
    });
    let text = rec.to_json();
    assert_eq!(
        text,
        "{\"WX\":{\"call_de\":\"VA3SAE\",\"utc\":null,\"msg\":\"say \\\"hi\\\" \\\\ twice\\u0009ok\"}}"
    );
    // an independent reader recovers the message unchanged
    let v: serde_json::Value = serde_json::from_str(&text).unwrap();
    assert_eq!(v["WX"]["msg"].as_str(), Some("say \"hi\" \\ twice\tok"));
}

#[test]
fn json_roundtrip_dx_through_external_reader() {
    let spot = "DX de DF2MX:     18160.0  DL8AW/P      EU-156 Tombelaine Isl.         2259Z RF80";
    let rec = parse(spot).unwrap();
    let v: serde_json::Value = serde_json::from_str(&rec.to_json()).unwrap();
    let d = &v["DX"];
    assert_eq!(d["call_de"].as_str(), Some("DF2MX"));
    assert_eq!(d["call_dx"].as_str(), Some("DL8AW/P"));
    assert_eq!(d["freq"].as_u64(), Some(18160000));
    assert_eq!(d["utc"].as_u64(), Some(2259));
    assert_eq!(d["loc"].as_str(), Some("RF80"));
    assert_eq!(d["comment"].as_str(), Some("EU-156 Tombelaine Isl."));
}

#[test]
fn json_roundtrip_wwv_through_external_reader() {
    let spot = "WWV de VE7CC <21>:   SFI=70, A=12, K=3, No Storms -> No Storms";
    let rec = parse(spot).unwrap();
    let v: serde_json::Value = serde_json::from_str(&rec.to_json()).unwrap();
    let w = &v["WWV"];
    assert_eq!(w["call_de"].as_str(), Some("VE7CC"));
    assert_eq!(w["utc"].as_u64(), Some(21));
    assert_eq!(w["sfi"].as_u64(), Some(70));
    assert_eq!(w["a"].as_u64(), Some(12));
    assert_eq!(w["k"].as_u64(), Some(3));
    assert_eq!(w["info1"].as_str(), Some("No Storms"));
    assert_eq!(w["info2"].as_str(), Some("No Storms"));
}

#[test]
fn json_roundtrip_toall_through_external_reader() {
    let rec = Spot::ToAll(ToAll {
        call_de: "CT2IDL".into(),
        utc: Some(1044),
        msg: Some("TNX qso..".into()),
    });
    let v: serde_json::Value = serde_json::from_str(&rec.to_json()).unwrap();
    let t = &v["ToAll"];
    assert_eq!(t["call_de"].as_str(), Some("CT2IDL"));
    assert_eq!(t["utc"].as_u64(), Some(1044));
    assert_eq!(t["msg"].as_str(), Some("TNX qso.."));
}
