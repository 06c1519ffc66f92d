//! Record types for DX cluster announcements.
//!
//! A cluster line parses into one of six record variants, collected in the
//! tagged union [`Spot`]. The comment field of a DX record may in turn carry
//! a Reverse Beacon Network decode, parsed into [`RBN`]. Every record type
//! has a mathematical view (`*View`) over character sequences and plain
//! integers; all contracts in this crate speak of those views.

use vstd::prelude::*;

verus! {

/// Mathematical image of a [`DX`] record.
pub struct DXView {
    pub call_de: Seq<char>,
    pub call_dx: Seq<char>,
    pub freq: u64,
    pub utc: u16,
    pub loc: Option<Seq<char>>,
    pub comment: Option<Seq<char>>,
}

/// Mathematical image of a [`WWV`] record.
pub struct WWVView {
    pub call_de: Seq<char>,
    pub utc: u16,
    pub sfi: u16,
    pub a: u16,
    pub k: u16,
    pub info1: Seq<char>,
    pub info2: Seq<char>,
}

/// Mathematical image of a [`WCY`] record.
pub struct WCYView {
    pub call_de: Seq<char>,
    pub utc: u16,
    pub k: u16,
    pub expk: u16,
    pub a: u16,
    pub r: u16,
    pub sfi: u16,
    pub sa: Seq<char>,
    pub gmf: Seq<char>,
    pub au: Seq<char>,
}

/// Mathematical image of a [`WX`], [`ToAll`] or [`ToLocal`] record; the
/// three variants share one payload shape.
pub struct MsgView {
    pub call_de: Seq<char>,
    pub utc: Option<u16>,
    pub msg: Option<Seq<char>>,
}

/// Mathematical image of an [`RBN`] record.
pub struct RBNView {
    pub mode: Seq<char>,
    pub db: i16,
    pub speed: Option<u16>,
    pub speed_unit: Option<Seq<char>>,
    pub info: Seq<char>,
    pub loc: Option<Seq<char>>,
}

/// Mathematical image of a [`Spot`].
pub enum SpotView {
    DX(DXView),
    WWV(WWVView),
    WCY(WCYView),
    WX(MsgView),
    ToAll(MsgView),
    ToLocal(MsgView),
}

/// View of an optional owned string as an optional character sequence.
pub open spec fn opt_view(o: Option<String>) -> Option<Seq<char>> {
    match o {
        Some(s) => Some(s@),
        None => None,
    }
}

/// DX spot: a station was heard on a frequency.
#[derive(Debug, PartialEq, Eq)]
pub struct DX {
    /// Call of spotting station
    pub call_de: String,
    /// Call of target station
    pub call_dx: String,
    /// Frequency (in Hz)
    pub freq: u64,
    /// Time in UTC
    pub utc: u16,
    /// Locator
    pub loc: Option<String>,
    /// Comment
    pub comment: Option<String>,
}

impl View for DX {
    type V = DXView;

    open spec fn view(&self) -> DXView {
        DXView {
            call_de: self.call_de@,
            call_dx: self.call_dx@,
            freq: self.freq,
            utc: self.utc,
            loc: opt_view(self.loc),
            comment: opt_view(self.comment),
        }
    }
}

impl DXView {
    /// The zero-valued record extraction starts from.
    pub open spec fn zeroed() -> DXView {
        DXView {
            call_de: Seq::<char>::empty(),
            call_dx: Seq::<char>::empty(),
            freq: 0,
            utc: 0,
            loc: None,
            comment: None,
        }
    }
}

impl DX {
    /// A fresh zero-valued DX record.
    pub fn new() -> (r: DX)
        ensures
            r@ == DXView::zeroed(),
    {
        DX {
            call_de: String::new(),
            call_dx: String::new(),
            freq: 0,
            utc: 0,
            loc: None,
            comment: None,
        }
    }
}

impl Default for DX {
    fn default() -> (r: Self)
        ensures
            r@ == DXView::zeroed(),
    {
        Self::new()
    }
}

/// RBN decode carried in a DX spot's comment.
#[derive(Debug, PartialEq, Eq)]
pub struct RBN {
    /// Mode: CW, RTTY or FT8
    pub mode: String,
    /// Signal strength
    pub db: i16,
    /// Speed
    pub speed: Option<u16>,
    /// Unit of speed
    pub speed_unit: Option<String>,
    /// Additional information
    pub info: String,
    /// Locator
    pub loc: Option<String>,
}

impl View for RBN {
    type V = RBNView;

    open spec fn view(&self) -> RBNView {
        RBNView {
            mode: self.mode@,
            db: self.db,
            speed: self.speed,
            speed_unit: opt_view(self.speed_unit),
            info: self.info@,
            loc: opt_view(self.loc),
        }
    }
}

impl RBNView {
    /// The zero-valued record extraction starts from.
    pub open spec fn zeroed() -> RBNView {
        RBNView {
            mode: Seq::<char>::empty(),
            db: 0,
            speed: None,
            speed_unit: None,
            info: Seq::<char>::empty(),
            loc: None,
        }
    }
}

impl RBN {
    /// A fresh zero-valued RBN record.
    pub fn new() -> (r: RBN)
        ensures
            r@ == RBNView::zeroed(),
    {
        RBN {
            mode: String::new(),
            db: 0,
            speed: None,
            speed_unit: None,
            info: String::new(),
            loc: None,
        }
    }
}

impl Default for RBN {
    fn default() -> (r: Self)
        ensures
            r@ == RBNView::zeroed(),
    {
        Self::new()
    }
}

/// WWV propagation report.
#[derive(Debug, PartialEq, Eq)]
pub struct WWV {
    /// Call of spotting station
    pub call_de: String,
    /// Time in UTC
    pub utc: u16,
    /// SFI index
    pub sfi: u16,
    /// A index
    pub a: u16,
    /// K index
    pub k: u16,
    /// Information 1
    pub info1: String,
    /// Information 2
    pub info2: String,
}

impl View for WWV {
    type V = WWVView;

    open spec fn view(&self) -> WWVView {
        WWVView {
            call_de: self.call_de@,
            utc: self.utc,
            sfi: self.sfi,
            a: self.a,
            k: self.k,
            info1: self.info1@,
            info2: self.info2@,
        }
    }
}

impl WWVView {
    /// The zero-valued record extraction starts from.
    pub open spec fn zeroed() -> WWVView {
        WWVView {
            call_de: Seq::<char>::empty(),
            utc: 0,
            sfi: 0,
            a: 0,
            k: 0,
            info1: Seq::<char>::empty(),
            info2: Seq::<char>::empty(),
        }
    }
}

impl WWV {
    /// A fresh zero-valued WWV record.
    pub fn new() -> (r: WWV)
        ensures
            r@ == WWVView::zeroed(),
    {
        WWV {
            call_de: String::new(),
            utc: 0,
            sfi: 0,
            a: 0,
            k: 0,
            info1: String::new(),
            info2: String::new(),
        }
    }
}

impl Default for WWV {
    fn default() -> (r: Self)
        ensures
            r@ == WWVView::zeroed(),
    {
        Self::new()
    }
}

/// WCY propagation report.
#[derive(Debug, PartialEq, Eq)]
pub struct WCY {
    /// Call of spotting station
    pub call_de: String,
    /// Time in UTC
    pub utc: u16,
    /// K index
    pub k: u16,
    /// expK index
    pub expk: u16,
    /// A index
    pub a: u16,
    /// R index
    pub r: u16,
    /// SFI index
    pub sfi: u16,
    /// SA index
    pub sa: String,
    /// GMF
    pub gmf: String,
    /// Aurora
    pub au: String,
}

impl View for WCY {
    type V = WCYView;

    open spec fn view(&self) -> WCYView {
        WCYView {
            call_de: self.call_de@,
            utc: self.utc,
            k: self.k,
            expk: self.expk,
            a: self.a,
            r: self.r,
            sfi: self.sfi,
            sa: self.sa@,
            gmf: self.gmf@,
            au: self.au@,
        }
    }
}

impl WCYView {
    /// The zero-valued record extraction starts from.
    pub open spec fn zeroed() -> WCYView {
        WCYView {
            call_de: Seq::<char>::empty(),
            utc: 0,
            k: 0,
            expk: 0,
            a: 0,
            r: 0,
            sfi: 0,
            sa: Seq::<char>::empty(),
            gmf: Seq::<char>::empty(),
            au: Seq::<char>::empty(),
        }
    }
}

impl WCY {
    /// A fresh zero-valued WCY record.
    pub fn new() -> (r: WCY)
        ensures
            r@ == WCYView::zeroed(),
    {
        WCY {
            call_de: String::new(),
            utc: 0,
            k: 0,
            expk: 0,
            a: 0,
            r: 0,
            sfi: 0,
            sa: String::new(),
            gmf: String::new(),
            au: String::new(),
        }
    }
}

impl Default for WCY {
    fn default() -> (r: Self)
        ensures
            r@ == WCYView::zeroed(),
    {
        Self::new()
    }
}

/// The zero-valued message record extraction starts from.
pub open spec fn msg_zeroed() -> MsgView {
    MsgView { call_de: Seq::<char>::empty(), utc: None, msg: None }
}

/// Weather announcement.
#[derive(Debug, PartialEq, Eq)]
pub struct WX {
    /// Call of spotting station
    pub call_de: String,
    /// Time in UTC
    pub utc: Option<u16>,
    /// Message sent with spot
    pub msg: Option<String>,
}

impl View for WX {
    type V = MsgView;

    open spec fn view(&self) -> MsgView {
        MsgView { call_de: self.call_de@, utc: self.utc, msg: opt_view(self.msg) }
    }
}

impl WX {
    /// A fresh zero-valued WX record.
    pub fn new() -> (r: WX)
        ensures
            r@ == msg_zeroed(),
    {
        WX { call_de: String::new(), utc: None, msg: None }
    }
}

impl Default for WX {
    fn default() -> (r: Self)
        ensures
            r@ == msg_zeroed(),
    {
        Self::new()
    }
}

/// Announcement addressed to all connected stations.
#[derive(Debug, PartialEq, Eq)]
pub struct ToAll {
    /// Call of spotting station
    pub call_de: String,
    /// Time in UTC
    pub utc: Option<u16>,
    /// Message sent with spot
    pub msg: Option<String>,
}

impl View for ToAll {
    type V = MsgView;

    open spec fn view(&self) -> MsgView {
        MsgView { call_de: self.call_de@, utc: self.utc, msg: opt_view(self.msg) }
    }
}

impl ToAll {
    /// A fresh zero-valued ToAll record.
    pub fn new() -> (r: ToAll)
        ensures
            r@ == msg_zeroed(),
    {
        ToAll { call_de: String::new(), utc: None, msg: None }
    }
}

impl Default for ToAll {
    fn default() -> (r: Self)
        ensures
            r@ == msg_zeroed(),
    {
        Self::new()
    }
}

/// Announcement addressed to local users only.
#[derive(Debug, PartialEq, Eq)]
pub struct ToLocal {
    /// Call of spotting station
    pub call_de: String,
    /// Time in UTC
    pub utc: Option<u16>,
    /// Message sent with spot
    pub msg: Option<String>,
}

impl View for ToLocal {
    type V = MsgView;

    open spec fn view(&self) -> MsgView {
        MsgView { call_de: self.call_de@, utc: self.utc, msg: opt_view(self.msg) }
    }
}

impl ToLocal {
    /// A fresh zero-valued ToLocal record.
    pub fn new() -> (r: ToLocal)
        ensures
            r@ == msg_zeroed(),
    {
        ToLocal { call_de: String::new(), utc: None, msg: None }
    }
}

impl Default for ToLocal {
    fn default() -> (r: Self)
        ensures
            r@ == msg_zeroed(),
    {
        Self::new()
    }
}

/// Structured representation of a parsed spot: a closed tagged union over
/// the six line formats.
#[derive(Debug, PartialEq, Eq)]
pub enum Spot {
    /// Spot of the type DX
    DX(DX),
    /// Spot of the type WWV
    WWV(WWV),
    /// Spot of the type WCY
    WCY(WCY),
    /// Spot of the type WX
    WX(WX),
    /// Spot of the type ToAll
    ToAll(ToAll),
    /// Spot of the type ToLocal
    ToLocal(ToLocal),
}

impl View for Spot {
    type V = SpotView;

    open spec fn view(&self) -> SpotView {
        match self {
            Spot::DX(d) => SpotView::DX(d@),
            Spot::WWV(w) => SpotView::WWV(w@),
            Spot::WCY(w) => SpotView::WCY(w@),
            Spot::WX(w) => SpotView::WX(w@),
            Spot::ToAll(t) => SpotView::ToAll(t@),
            Spot::ToLocal(t) => SpotView::ToLocal(t@),
        }
    }
}

/// Possible errors while parsing a spot.
#[derive(Debug, PartialEq, Eq, Structural, Clone, Copy)]
pub enum ParseError {
    /// No recognized variant prefix: the line is not a spot this crate understands.
    UnknownType,
    /// The content of the spot does not match the detected type.
    InvalidContent,
    /// A required field of the spot is missing.
    MissingField,
    /// An extracted token could not be coerced to its field's numeric type.
    InternalError,
}

impl ParseError {
    /// Human-readable description of the error.
    pub fn message(&self) -> (r: &'static str)
        ensures
            *self is UnknownType ==> r@ == "Unknown type of spot"@,
            *self is InvalidContent ==> r@ == "The content of the spot does not match the detected type"@,
            *self is MissingField ==> r@ == "Required field of the spot is missing"@,
            *self is InternalError ==> r@ == "Internal error occurred while parsing"@,
    {
        match self {
            ParseError::UnknownType => "Unknown type of spot",
            ParseError::InvalidContent => "The content of the spot does not match the detected type",
            ParseError::MissingField => "Required field of the spot is missing",
            ParseError::InternalError => "Internal error occurred while parsing",
        }
    }
}

} // verus!
