//! Frames: the typed values that a tag holds, and what each of them stands for.

use vstd::prelude::*;
use crate::ids;
use crate::outside::be32;
use crate::people::TextMap;
use crate::values::{Copyright, CopyrightModel, Date, Reverb, Track};

verus! {

/// One frame of a tag, with the group it was marked as belonging to.
#[derive(Clone, Debug)]
pub struct Frame {
    pub data: FrameData,
    pub group: Option<u8>,
}

/// What a frame holds, by its identifier.
#[derive(Clone, Debug)]
pub enum FrameData {
    COMM(LangDescriptionText),
    PRIV(Priv),
    RVRB(Reverb),
    TALB(Vec<String>),
    TBPM(Vec<u64>),
    TCOM(Vec<String>),
    TCON(Vec<String>),
    TCOP(Vec<Copyright>),
    TDEN(Vec<Date>),
    TDLY(Vec<u64>),
    TDOR(Vec<Date>),
    TDRC(Vec<Date>),
    TDRL(Vec<Date>),
    TDTG(Vec<Date>),
    TENC(Vec<String>),
    TEXT(Vec<String>),
    TIPL(TextMap),
    TIT1(Vec<String>),
    TIT2(Vec<String>),
    TIT3(Vec<String>),
    TLEN(Vec<u64>),
    TMCL(TextMap),
    TMOO(Vec<String>),
    TOAL(Vec<String>),
    TOFN(Vec<String>),
    TOLY(Vec<String>),
    TOPE(Vec<String>),
    TOWN(Vec<String>),
    TPE1(Vec<String>),
    TPE2(Vec<String>),
    TPE3(Vec<String>),
    TPE4(Vec<String>),
    TPOS(Vec<Track>),
    TPRO(Vec<Copyright>),
    TPUB(Vec<String>),
    TRCK(Vec<Track>),
    TRSN(Vec<String>),
    TRSO(Vec<String>),
    TSOA(Vec<String>),
    TSOP(Vec<String>),
    TSOT(Vec<String>),
    TSRC(Vec<String>),
    TSSE(Vec<String>),
    TSST(Vec<String>),
    TXXX(Txxx),
    USLT(LangDescriptionText),
    WCOM(String),
    WCOP(String),
    WOAF(String),
    WOAR(String),
    WOAS(String),
    WORS(String),
    WPAY(String),
    WPUB(String),
    Unknown(Unknown),
}

/// Text in a stated language, with a description: comments and lyrics.
#[derive(Clone, Debug)]
pub struct LangDescriptionText {
    pub iso_639_2_lang: [u8; 3],
    pub description: String,
    pub text: Vec<String>,
}

/// Text that the tag's writer defined, with its description.
#[derive(Clone, Debug)]
pub struct Txxx {
    pub description: String,
    pub text: Vec<String>,
}

/// Data of one application, under the name of its owner.
#[derive(Clone, Debug)]
pub struct Priv {
    pub owner: String,
    pub data: Vec<u8>,
}

/// A frame that this crate does not read: its identifier and its bytes.
#[derive(Clone, Debug)]
pub struct Unknown {
    pub name: [u8; 4],
    pub data: Vec<u8>,
}

/// What a frame holds, by the shape of its body.
pub enum FrameContent {
    Text(Seq<Seq<char>>),
    Numbers(Seq<u64>),
    Dates(Seq<Date>),
    Tracks(Seq<Track>),
    Copyrights(Seq<CopyrightModel>),
    People(Map<Seq<char>, Seq<char>>),
    Url(Seq<char>),
    LangText { language: Seq<u8>, description: Seq<char>, text: Seq<Seq<char>> },
    UserText { description: Seq<char>, text: Seq<Seq<char>> },
    Private { owner: Seq<char>, data: Seq<u8> },
    Reverb(Reverb),
    Unknown(Seq<u8>),
}

/// What a `FrameData` stands for: the identifier, as the big-endian value of its four
/// bytes, and the content.
pub struct FrameDataModel {
    pub id: u32,
    pub content: FrameContent,
}

/// What a `Frame` stands for.
pub struct FrameModel {
    pub data: FrameDataModel,
    pub group: Option<u8>,
}

impl View for LangDescriptionText {
    type V = FrameContent;

    open spec fn view(&self) -> FrameContent {
        FrameContent::LangText {
            language: self.iso_639_2_lang@,
            description: self.description@,
            text: self.text.deep_view(),
        }
    }
}

impl View for Txxx {
    type V = FrameContent;

    open spec fn view(&self) -> FrameContent {
        FrameContent::UserText { description: self.description@, text: self.text.deep_view() }
    }
}

impl View for Priv {
    type V = FrameContent;

    open spec fn view(&self) -> FrameContent {
        FrameContent::Private { owner: self.owner@, data: self.data@ }
    }
}

impl View for Unknown {
    type V = FrameDataModel;

    open spec fn view(&self) -> FrameDataModel {
        FrameDataModel { id: be32(self.name@) as u32, content: FrameContent::Unknown(self.data@) }
    }
}

impl View for FrameData {
    type V = FrameDataModel;

    open spec fn view(&self) -> FrameDataModel {
        match *self {
            FrameData::COMM(v) => FrameDataModel { id: ids::COMM, content: v@ },
            FrameData::PRIV(v) => FrameDataModel { id: ids::PRIV, content: v@ },
            FrameData::RVRB(v) => FrameDataModel { id: ids::RVRB, content: FrameContent::Reverb(v) },
            FrameData::TALB(v) => FrameDataModel { id: ids::TALB, content: FrameContent::Text(v.deep_view()) },
            FrameData::TBPM(v) => FrameDataModel { id: ids::TBPM, content: FrameContent::Numbers(v@) },
            FrameData::TCOM(v) => FrameDataModel { id: ids::TCOM, content: FrameContent::Text(v.deep_view()) },
            FrameData::TCON(v) => FrameDataModel { id: ids::TCON, content: FrameContent::Text(v.deep_view()) },
            FrameData::TCOP(v) => FrameDataModel { id: ids::TCOP, content: FrameContent::Copyrights(v.deep_view()) },
            FrameData::TDEN(v) => FrameDataModel { id: ids::TDEN, content: FrameContent::Dates(v@) },
            FrameData::TDLY(v) => FrameDataModel { id: ids::TDLY, content: FrameContent::Numbers(v@) },
            FrameData::TDOR(v) => FrameDataModel { id: ids::TDOR, content: FrameContent::Dates(v@) },
            FrameData::TDRC(v) => FrameDataModel { id: ids::TDRC, content: FrameContent::Dates(v@) },
            FrameData::TDRL(v) => FrameDataModel { id: ids::TDRL, content: FrameContent::Dates(v@) },
            FrameData::TDTG(v) => FrameDataModel { id: ids::TDTG, content: FrameContent::Dates(v@) },
            FrameData::TENC(v) => FrameDataModel { id: ids::TENC, content: FrameContent::Text(v.deep_view()) },
            FrameData::TEXT(v) => FrameDataModel { id: ids::TEXT, content: FrameContent::Text(v.deep_view()) },
            FrameData::TIPL(v) => FrameDataModel { id: ids::TIPL, content: FrameContent::People(v@) },
            FrameData::TIT1(v) => FrameDataModel { id: ids::TIT1, content: FrameContent::Text(v.deep_view()) },
            FrameData::TIT2(v) => FrameDataModel { id: ids::TIT2, content: FrameContent::Text(v.deep_view()) },
            FrameData::TIT3(v) => FrameDataModel { id: ids::TIT3, content: FrameContent::Text(v.deep_view()) },
            FrameData::TLEN(v) => FrameDataModel { id: ids::TLEN, content: FrameContent::Numbers(v@) },
            FrameData::TMCL(v) => FrameDataModel { id: ids::TMCL, content: FrameContent::People(v@) },
            FrameData::TMOO(v) => FrameDataModel { id: ids::TMOO, content: FrameContent::Text(v.deep_view()) },
            FrameData::TOAL(v) => FrameDataModel { id: ids::TOAL, content: FrameContent::Text(v.deep_view()) },
            FrameData::TOFN(v) => FrameDataModel { id: ids::TOFN, content: FrameContent::Text(v.deep_view()) },
            FrameData::TOLY(v) => FrameDataModel { id: ids::TOLY, content: FrameContent::Text(v.deep_view()) },
            FrameData::TOPE(v) => FrameDataModel { id: ids::TOPE, content: FrameContent::Text(v.deep_view()) },
            FrameData::TOWN(v) => FrameDataModel { id: ids::TOWN, content: FrameContent::Text(v.deep_view()) },
            FrameData::TPE1(v) => FrameDataModel { id: ids::TPE1, content: FrameContent::Text(v.deep_view()) },
            FrameData::TPE2(v) => FrameDataModel { id: ids::TPE2, content: FrameContent::Text(v.deep_view()) },
            FrameData::TPE3(v) => FrameDataModel { id: ids::TPE3, content: FrameContent::Text(v.deep_view()) },
            FrameData::TPE4(v) => FrameDataModel { id: ids::TPE4, content: FrameContent::Text(v.deep_view()) },
            FrameData::TPOS(v) => FrameDataModel { id: ids::TPOS, content: FrameContent::Tracks(v@) },
            FrameData::TPRO(v) => FrameDataModel { id: ids::TPRO, content: FrameContent::Copyrights(v.deep_view()) },
            FrameData::TPUB(v) => FrameDataModel { id: ids::TPUB, content: FrameContent::Text(v.deep_view()) },
            FrameData::TRCK(v) => FrameDataModel { id: ids::TRCK, content: FrameContent::Tracks(v@) },
            FrameData::TRSN(v) => FrameDataModel { id: ids::TRSN, content: FrameContent::Text(v.deep_view()) },
            FrameData::TRSO(v) => FrameDataModel { id: ids::TRSO, content: FrameContent::Text(v.deep_view()) },
            FrameData::TSOA(v) => FrameDataModel { id: ids::TSOA, content: FrameContent::Text(v.deep_view()) },
            FrameData::TSOP(v) => FrameDataModel { id: ids::TSOP, content: FrameContent::Text(v.deep_view()) },
            FrameData::TSOT(v) => FrameDataModel { id: ids::TSOT, content: FrameContent::Text(v.deep_view()) },
            FrameData::TSRC(v) => FrameDataModel { id: ids::TSRC, content: FrameContent::Text(v.deep_view()) },
            FrameData::TSSE(v) => FrameDataModel { id: ids::TSSE, content: FrameContent::Text(v.deep_view()) },
            FrameData::TSST(v) => FrameDataModel { id: ids::TSST, content: FrameContent::Text(v.deep_view()) },
            FrameData::TXXX(v) => FrameDataModel { id: ids::TXXX, content: v@ },
            FrameData::USLT(v) => FrameDataModel { id: ids::USLT, content: v@ },
            FrameData::WCOM(v) => FrameDataModel { id: ids::WCOM, content: FrameContent::Url(v@) },
            FrameData::WCOP(v) => FrameDataModel { id: ids::WCOP, content: FrameContent::Url(v@) },
            FrameData::WOAF(v) => FrameDataModel { id: ids::WOAF, content: FrameContent::Url(v@) },
            FrameData::WOAR(v) => FrameDataModel { id: ids::WOAR, content: FrameContent::Url(v@) },
            FrameData::WOAS(v) => FrameDataModel { id: ids::WOAS, content: FrameContent::Url(v@) },
            FrameData::WORS(v) => FrameDataModel { id: ids::WORS, content: FrameContent::Url(v@) },
            FrameData::WPAY(v) => FrameDataModel { id: ids::WPAY, content: FrameContent::Url(v@) },
            FrameData::WPUB(v) => FrameDataModel { id: ids::WPUB, content: FrameContent::Url(v@) },
            FrameData::Unknown(v) => v@,
        }
    }
}

impl FrameData {
    /// True when the map of a frame of involved people holds each key once. Every frame
    /// that this crate decodes is so.
    pub open spec fn wf(&self) -> bool {
        match *self {
            FrameData::TIPL(m) => m.wf(),
            FrameData::TMCL(m) => m.wf(),
            _ => true,
        }
    }
}

impl View for Frame {
    type V = FrameModel;

    open spec fn view(&self) -> FrameModel {
        FrameModel { data: self.data@, group: self.group }
    }
}

/// The shapes that the body of a frame can have.
#[derive(Copy, Clone, Debug, PartialEq, Eq, Structural)]
pub enum FrameShape {
    Text,
    Numbers,
    Dates,
    Tracks,
    Copyrights,
    People,
    Genre,
    Url,
    LangText,
    UserText,
    Private,
    Reverb,
    Unknown,
}

/// The shape of the body of the frame with the identifier `id`.
pub open spec fn shape_of(id: u32) -> FrameShape {
    if id == ids::TALB || id == ids::TCOM || id == ids::TENC || id == ids::TEXT || id == ids::TIT1 || id == ids::TIT2 || id == ids::TIT3 || id == ids::TMOO || id == ids::TOAL || id == ids::TOFN || id == ids::TOLY || id == ids::TOPE || id == ids::TOWN || id == ids::TPE1 || id == ids::TPE2 || id == ids::TPE3 || id == ids::TPE4 || id == ids::TPUB || id == ids::TRSN || id == ids::TRSO || id == ids::TSOA || id == ids::TSOP || id == ids::TSOT || id == ids::TSRC || id == ids::TSSE || id == ids::TSST {
        FrameShape::Text
    } else if id == ids::TBPM || id == ids::TDLY || id == ids::TLEN {
        FrameShape::Numbers
    } else if id == ids::TDEN || id == ids::TDOR || id == ids::TDRC || id == ids::TDRL || id == ids::TDTG {
        FrameShape::Dates
    } else if id == ids::TPOS || id == ids::TRCK {
        FrameShape::Tracks
    } else if id == ids::TCOP || id == ids::TPRO {
        FrameShape::Copyrights
    } else if id == ids::TIPL || id == ids::TMCL {
        FrameShape::People
    } else if id == ids::TCON {
        FrameShape::Genre
    } else if id == ids::WCOM || id == ids::WCOP || id == ids::WOAF || id == ids::WOAR || id == ids::WOAS || id == ids::WORS || id == ids::WPAY || id == ids::WPUB {
        FrameShape::Url
    } else if id == ids::COMM || id == ids::USLT {
        FrameShape::LangText
    } else if id == ids::TXXX {
        FrameShape::UserText
    } else if id == ids::PRIV {
        FrameShape::Private
    } else if id == ids::RVRB {
        FrameShape::Reverb
    } else {
        FrameShape::Unknown
    }
}

/// Tells the shape of the body of the frame with the identifier `id`.
pub fn frame_shape(id: u32) -> (r: FrameShape)
    ensures
        r == shape_of(id),
{
    match id {
        ids::COMM => FrameShape::LangText,
        ids::PRIV => FrameShape::Private,
        ids::RVRB => FrameShape::Reverb,
        ids::TALB => FrameShape::Text,
        ids::TBPM => FrameShape::Numbers,
        ids::TCOM => FrameShape::Text,
        ids::TCON => FrameShape::Genre,
        ids::TCOP => FrameShape::Copyrights,
        ids::TDEN => FrameShape::Dates,
        ids::TDLY => FrameShape::Numbers,
        ids::TDOR => FrameShape::Dates,
        ids::TDRC => FrameShape::Dates,
        ids::TDRL => FrameShape::Dates,
        ids::TDTG => FrameShape::Dates,
        ids::TENC => FrameShape::Text,
        ids::TEXT => FrameShape::Text,
        ids::TIPL => FrameShape::People,
        ids::TIT1 => FrameShape::Text,
        ids::TIT2 => FrameShape::Text,
        ids::TIT3 => FrameShape::Text,
        ids::TLEN => FrameShape::Numbers,
        ids::TMCL => FrameShape::People,
        ids::TMOO => FrameShape::Text,
        ids::TOAL => FrameShape::Text,
        ids::TOFN => FrameShape::Text,
        ids::TOLY => FrameShape::Text,
        ids::TOPE => FrameShape::Text,
        ids::TOWN => FrameShape::Text,
        ids::TPE1 => FrameShape::Text,
        ids::TPE2 => FrameShape::Text,
        ids::TPE3 => FrameShape::Text,
        ids::TPE4 => FrameShape::Text,
        ids::TPOS => FrameShape::Tracks,
        ids::TPRO => FrameShape::Copyrights,
        ids::TPUB => FrameShape::Text,
        ids::TRCK => FrameShape::Tracks,
        ids::TRSN => FrameShape::Text,
        ids::TRSO => FrameShape::Text,
        ids::TSOA => FrameShape::Text,
        ids::TSOP => FrameShape::Text,
        ids::TSOT => FrameShape::Text,
        ids::TSRC => FrameShape::Text,
        ids::TSSE => FrameShape::Text,
        ids::TSST => FrameShape::Text,
        ids::TXXX => FrameShape::UserText,
        ids::USLT => FrameShape::LangText,
        ids::WCOM => FrameShape::Url,
        ids::WCOP => FrameShape::Url,
        ids::WOAF => FrameShape::Url,
        ids::WOAR => FrameShape::Url,
        ids::WOAS => FrameShape::Url,
        ids::WORS => FrameShape::Url,
        ids::WPAY => FrameShape::Url,
        ids::WPUB => FrameShape::Url,
        _ => FrameShape::Unknown,
    }
}

/// Puts text into the frame with the identifier `id`.
pub fn text_frame_data(id: u32, v: Vec<String>) -> (r: FrameData)
    requires
        shape_of(id) == FrameShape::Text,
    ensures
        r.wf(),
        r@ == (FrameDataModel { id, content: FrameContent::Text(v.deep_view()) }),
{
    match id {
        ids::TALB => FrameData::TALB(v),
        ids::TCOM => FrameData::TCOM(v),
        ids::TENC => FrameData::TENC(v),
        ids::TEXT => FrameData::TEXT(v),
        ids::TIT1 => FrameData::TIT1(v),
        ids::TIT2 => FrameData::TIT2(v),
        ids::TIT3 => FrameData::TIT3(v),
        ids::TMOO => FrameData::TMOO(v),
        ids::TOAL => FrameData::TOAL(v),
        ids::TOFN => FrameData::TOFN(v),
        ids::TOLY => FrameData::TOLY(v),
        ids::TOPE => FrameData::TOPE(v),
        ids::TOWN => FrameData::TOWN(v),
        ids::TPE1 => FrameData::TPE1(v),
        ids::TPE2 => FrameData::TPE2(v),
        ids::TPE3 => FrameData::TPE3(v),
        ids::TPE4 => FrameData::TPE4(v),
        ids::TPUB => FrameData::TPUB(v),
        ids::TRSN => FrameData::TRSN(v),
        ids::TRSO => FrameData::TRSO(v),
        ids::TSOA => FrameData::TSOA(v),
        ids::TSOP => FrameData::TSOP(v),
        ids::TSOT => FrameData::TSOT(v),
        ids::TSRC => FrameData::TSRC(v),
        ids::TSSE => FrameData::TSSE(v),
        _ => FrameData::TSST(v),
    }
}

/// Puts numbers into the frame with the identifier `id`.
pub fn numbers_frame_data(id: u32, v: Vec<u64>) -> (r: FrameData)
    requires
        shape_of(id) == FrameShape::Numbers,
    ensures
        r.wf(),
        r@ == (FrameDataModel { id, content: FrameContent::Numbers(v@) }),
{
    match id {
        ids::TBPM => FrameData::TBPM(v),
        ids::TDLY => FrameData::TDLY(v),
        _ => FrameData::TLEN(v),
    }
}

/// Puts dates into the frame with the identifier `id`.
pub fn dates_frame_data(id: u32, v: Vec<Date>) -> (r: FrameData)
    requires
        shape_of(id) == FrameShape::Dates,
    ensures
        r.wf(),
        r@ == (FrameDataModel { id, content: FrameContent::Dates(v@) }),
{
    match id {
        ids::TDEN => FrameData::TDEN(v),
        ids::TDOR => FrameData::TDOR(v),
        ids::TDRC => FrameData::TDRC(v),
        ids::TDRL => FrameData::TDRL(v),
        _ => FrameData::TDTG(v),
    }
}

/// Puts track positions into the frame with the identifier `id`.
pub fn tracks_frame_data(id: u32, v: Vec<Track>) -> (r: FrameData)
    requires
        shape_of(id) == FrameShape::Tracks,
    ensures
        r.wf(),
        r@ == (FrameDataModel { id, content: FrameContent::Tracks(v@) }),
{
    match id {
        ids::TPOS => FrameData::TPOS(v),
        _ => FrameData::TRCK(v),
    }
}

/// Puts copyright notices into the frame with the identifier `id`.
pub fn copyrights_frame_data(id: u32, v: Vec<Copyright>) -> (r: FrameData)
    requires
        shape_of(id) == FrameShape::Copyrights,
    ensures
        r.wf(),
        r@ == (FrameDataModel { id, content: FrameContent::Copyrights(v.deep_view()) }),
{
    match id {
        ids::TCOP => FrameData::TCOP(v),
        _ => FrameData::TPRO(v),
    }
}

/// Puts involved people into the frame with the identifier `id`.
pub fn people_frame_data(id: u32, v: TextMap) -> (r: FrameData)
    requires
        shape_of(id) == FrameShape::People,
        v.wf(),
    ensures
        r.wf(),
        r@ == (FrameDataModel { id, content: FrameContent::People(v@) }),
{
    match id {
        ids::TIPL => FrameData::TIPL(v),
        _ => FrameData::TMCL(v),
    }
}

/// Puts a link into the frame with the identifier `id`.
pub fn url_frame_data(id: u32, v: String) -> (r: FrameData)
    requires
        shape_of(id) == FrameShape::Url,
    ensures
        r.wf(),
        r@ == (FrameDataModel { id, content: FrameContent::Url(v@) }),
{
    match id {
        ids::WCOM => FrameData::WCOM(v),
        ids::WCOP => FrameData::WCOP(v),
        ids::WOAF => FrameData::WOAF(v),
        ids::WOAR => FrameData::WOAR(v),
        ids::WOAS => FrameData::WOAS(v),
        ids::WORS => FrameData::WORS(v),
        ids::WPAY => FrameData::WPAY(v),
        _ => FrameData::WPUB(v),
    }
}

/// Puts text in a stated language into the frame with the identifier `id`.
pub fn lang_text_frame_data(id: u32, v: LangDescriptionText) -> (r: FrameData)
    requires
        shape_of(id) == FrameShape::LangText,
    ensures
        r.wf(),
        r@ == (FrameDataModel { id, content: v@ }),
{
    match id {
        ids::COMM => FrameData::COMM(v),
        _ => FrameData::USLT(v),
    }
}

} // verus!
