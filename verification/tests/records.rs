//! Record construction and error description tests.

use dxclparser::{ParseError, ToAll, ToLocal, DX, RBN, WCY, WWV, WX};

#[test]
fn new_records_are_zero_valued() {
    assert_eq!(
        DX::new(),
        DX {
            call_de: String::new(),
            call_dx: String::new(),
            freq: 0,
            utc: 0,
            loc: None,
            comment: None,
        }
    );
    assert_eq!(
        RBN::new(),
        RBN {
            mode: String::new(),
            db: 0,
            speed: None,
            speed_unit: None,
            info: String::new(),
            loc: None,
        }
    );
    assert_eq!(
        WWV::new(),
        WWV {
            call_de: String::new(),
            utc: 0,
            sfi: 0,
            a: 0,
            k: 0,
            info1: String::new(),
            info2: String::new(),
        }
    );
    assert_eq!(
        WCY::new(),
        WCY {
            call_de: String::new(),
            utc: 0,
            k: 0,
            expk: 0,
            a: 0,
            r: 0,
            sfi: 0,
            sa: String::new(),
            gmf: String::new(),
            au: String::new(),
        }
    );
    assert_eq!(WX::new(), WX { call_de: String::new(), utc: None, msg: None });
    assert_eq!(ToAll::new(), ToAll { call_de: String::new(), utc: None, msg: None });
    assert_eq!(ToLocal::new(), ToLocal { call_de: String::new(), utc: None, msg: None });
}

#[test]
fn default_matches_new() {
    assert_eq!(DX::default(), DX::new());
    assert_eq!(RBN::default(), RBN::new());
    assert_eq!(WWV::default(), WWV::new());
    assert_eq!(WCY::default(), WCY::new());
    assert_eq!(WX::default(), WX::new());
    assert_eq!(ToAll::default(), ToAll::new());
    assert_eq!(ToLocal::default(), ToLocal::new());
}

#[test]
fn error_messages() {
    assert_eq!(ParseError::UnknownType.message(), "Unknown type of spot");
    assert_eq!(
        ParseError::InvalidContent.message(),
        "The content of the spot does not match the detected type"
    );
    assert_eq!(ParseError::MissingField.message(), "Required field of the spot is missing");
    assert_eq!(ParseError::InternalError.message(), "Internal error occurred while parsing");
}
