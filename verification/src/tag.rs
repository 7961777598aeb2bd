//! The tag framer: the ten bytes of the tag header, the extended header, and the
//! bytes of the frames.

use vstd::prelude::*;
use vstd::slice::slice_to_vec;
use crate::flags::{
    ExtendedHeaderFlags, TagFlags, EXTENDED_ALL, EXTENDED_CRC_DATA_PRESENT,
    EXTENDED_TAG_RESTRICTIONS, TAG_ALL, TAG_EXTENDED_HEADER, TAG_FOOTER_PRESENT,
    TAG_UNSYNCHRONIZED,
};
use crate::outside::{be32, boxed, read_u32_be, unexpected_eof};
use crate::parser::Parser;
use crate::synchsafe::{spec_synchsafe_u32, synchsafe_u32_to_u32};

verus! {

/// Why no frames can be read from a source.
#[derive(Debug)]
pub enum TagParseError {
    /// The source does not begin with `ID3`.
    NoTag,
    /// The tag is of a major version other than 4.
    UnsupportedVersion(u8),
    /// The tag is unsynchronised or has a footer, or its extended header is not laid
    /// out as this crate reads it.
    UnsupportedFeature,
    /// The source could not be read.
    Io(std::io::ErrorKind),
}

/// What a `TagParseError` says, without the kind that the standard library gave to a
/// failed read.
pub enum TagFailure {
    NoTag,
    UnsupportedVersion(u8),
    UnsupportedFeature,
    Io,
}

impl TagParseError {
    pub open spec fn kind(self) -> TagFailure {
        match self {
            TagParseError::NoTag => TagFailure::NoTag,
            TagParseError::UnsupportedVersion(v) => TagFailure::UnsupportedVersion(v),
            TagParseError::UnsupportedFeature => TagFailure::UnsupportedFeature,
            TagParseError::Io(_) => TagFailure::Io,
        }
    }
}

/// The header of a tag of version 2.4.
#[derive(Copy, Clone, Debug, PartialEq, Eq, Structural)]
pub struct Header {
    pub flags: TagFlags,
    pub revision: u8,
    /// The number of bytes that follow the header.
    pub size: u32,
}

/// True when `bytes` begins with the letters `ID3`.
pub open spec fn starts_with_id3(bytes: Seq<u8>) -> bool {
    bytes.len() >= 3 && bytes[0] == 0x49 && bytes[1] == 0x44 && bytes[2] == 0x33
}

/// What the ten bytes of a tag header say.
pub open spec fn header_of(bytes: Seq<u8>) -> Result<Header, TagFailure>
    recommends
        bytes.len() == 10,
{
    let flags = TagFlags { bits: bytes[5] & TAG_ALL };
    if !starts_with_id3(bytes) {
        Err(TagFailure::NoTag)
    } else if bytes[3] != 4 {
        Err(TagFailure::UnsupportedVersion(bytes[3]))
    } else if flags.has(TAG_UNSYNCHRONIZED) || flags.has(TAG_FOOTER_PRESENT) {
        Err(TagFailure::UnsupportedFeature)
    } else {
        Ok(
            Header {
                flags,
                revision: bytes[4],
                size: spec_synchsafe_u32(be32(bytes.subrange(6, 10)) as u32),
            },
        )
    }
}

/// Reads the ten bytes of a tag header.
pub fn parse_header(header: &[u8; 10]) -> (r: Result<Header, TagParseError>)
    ensures
        match r {
            Ok(h) => header_of(header@) == Ok::<Header, TagFailure>(h),
            Err(e) => header_of(header@) == Err::<Header, TagFailure>(e.kind()) && !(e is Io),
        },
        !starts_with_id3(header@) ==> r matches Err(TagParseError::NoTag),
{
    if !(header[0] == 0x49 && header[1] == 0x44 && header[2] == 0x33) {
        return Err(TagParseError::NoTag);
    }
    let major_version: u8 = header[3];
    let revision: u8 = header[4];
    let flags = TagFlags::from_bits_truncate(header[5]);
    let size: u32 = synchsafe_u32_to_u32(read_u32_be(&header.as_slice()[6..10]));
    if major_version != 4 {
        return Err(TagParseError::UnsupportedVersion(major_version));
    }
    if flags.contains(TAG_UNSYNCHRONIZED) || flags.contains(TAG_FOOTER_PRESENT) {
        return Err(TagParseError::UnsupportedFeature);
    }
    Ok(Header { flags, revision, size })
}

/// The number of bytes that an extended header with the flags `flags` takes out of
/// the declared size of the tag: six for itself, five for the CRC, one for the
/// restrictions.
pub open spec fn extended_cost(flags: ExtendedHeaderFlags) -> int {
    6 + (if flags.has(EXTENDED_CRC_DATA_PRESENT) {
        5int
    } else {
        0int
    }) + (if flags.has(EXTENDED_TAG_RESTRICTIONS) {
        1int
    } else {
        0int
    })
}

/// What a reader of a tag waits for.
#[derive(Copy, Clone, Debug, PartialEq, Eq, Structural)]
pub enum TagReader {
    /// The ten bytes of the tag header.
    Header,
    /// The four bytes of the size of the extended header.
    ExtendedSize { header: Header },
    /// The bytes of the extended header.
    ExtendedBody { header: Header, size: u32 },
    /// The CRC and the restrictions, `skip` bytes that are read and left aside.
    ExtendedRest { header: Header, skip: u8, frames: u32 },
    /// The bytes of the frames.
    Frames { header: Header, size: u32 },
}

/// How far a reader has come.
pub enum TagProgress {
    /// The reader wants more bytes.
    More(TagReader),
    /// The frames are loaded.
    Done(Parser),
}

/// What a `TagProgress` stands for.
pub enum ProgressModel {
    More(TagReader),
    Done(Seq<u8>),
}

/// What follows the tag header `header`.
pub open spec fn after_header(header: Header) -> TagReader {
    if header.flags.has(TAG_EXTENDED_HEADER) {
        TagReader::ExtendedSize { header }
    } else {
        TagReader::Frames { header, size: header.size }
    }
}

/// What follows the extended header `bytes` of a tag with the header `header`.
pub open spec fn after_extended(header: Header, bytes: Seq<u8>) -> Result<TagReader, TagFailure> {
    let flags = ExtendedHeaderFlags { bits: bytes[1] & EXTENDED_ALL };
    if bytes.len() < 2 || bytes[0] != 1 || header.size < extended_cost(flags) {
        Err(TagFailure::UnsupportedFeature)
    } else if extended_cost(flags) == 6 {
        Ok(TagReader::Frames { header, size: (header.size - 6) as u32 })
    } else {
        Ok(
            TagReader::ExtendedRest {
                header,
                skip: (extended_cost(flags) - 6) as u8,
                frames: (header.size - extended_cost(flags)) as u32,
            },
        )
    }
}

impl TagReader {
    /// The number of bytes that the reader wants next.
    pub open spec fn wanted_bytes(self) -> nat {
        match self {
            TagReader::Header => 10,
            TagReader::ExtendedSize { .. } => 4,
            TagReader::ExtendedBody { size, .. } => size as nat,
            TagReader::ExtendedRest { skip, .. } => skip as nat,
            TagReader::Frames { size, .. } => size as nat,
        }
    }

    /// The number of kinds of input that the reader may yet want after this one.
    pub open spec fn rank(self) -> nat {
        match self {
            TagReader::Header => 4,
            TagReader::ExtendedSize { .. } => 3,
            TagReader::ExtendedBody { .. } => 2,
            TagReader::ExtendedRest { .. } => 1,
            TagReader::Frames { .. } => 0,
        }
    }

    /// What the reader turns into when it is given the bytes that it wants.
    pub open spec fn fed(self, bytes: Seq<u8>) -> Result<ProgressModel, TagFailure> {
        match self {
            TagReader::Header => match header_of(bytes) {
                Err(e) => Err(e),
                Ok(header) => Ok(ProgressModel::More(after_header(header))),
            },
            TagReader::ExtendedSize { header } => Ok(
                ProgressModel::More(
                    TagReader::ExtendedBody {
                        header,
                        size: spec_synchsafe_u32(be32(bytes) as u32),
                    },
                ),
            ),
            TagReader::ExtendedBody { header, size } => match after_extended(header, bytes) {
                Err(e) => Err(e),
                Ok(next) => Ok(ProgressModel::More(next)),
            },
            TagReader::ExtendedRest { header, skip, frames } => Ok(
                ProgressModel::More(TagReader::Frames { header, size: frames }),
            ),
            TagReader::Frames { header, size } => Ok(ProgressModel::Done(bytes)),
        }
    }

    /// A reader at the start of a source.
    pub fn new() -> (r: TagReader)
        ensures
            r == TagReader::Header,
    {
        TagReader::Header
    }

    /// The number of bytes that the reader wants next.
    pub fn wanted(&self) -> (r: usize)
        ensures
            r == self.wanted_bytes(),
    {
        match *self {
            TagReader::Header => 10,
            TagReader::ExtendedSize { .. } => 4,
            TagReader::ExtendedBody { size, .. } => size as usize,
            TagReader::ExtendedRest { skip, .. } => skip as usize,
            TagReader::Frames { size, .. } => size as usize,
        }
    }

    /// Takes the bytes that the reader wanted, and tells what comes next.
    pub fn feed(self, bytes: Vec<u8>) -> (r: Result<TagProgress, TagParseError>)
        requires
            bytes@.len() == self.wanted_bytes(),
        ensures
            match r {
                Ok(TagProgress::More(next)) => self.fed(bytes@) == Ok::<ProgressModel, TagFailure>(
                    ProgressModel::More(next),
                ) && next.rank() < self.rank(),
                Ok(TagProgress::Done(parser)) => self.fed(bytes@) == Ok::<
                    ProgressModel,
                    TagFailure,
                >(ProgressModel::Done(parser.content())) && parser.cursor() == 0,
                Err(e) => self.fed(bytes@) == Err::<ProgressModel, TagFailure>(e.kind()) && !(e
                    is Io),
            },
    {
        match self {
            TagReader::Header => {
                let header_bytes: [u8; 10] = [
                    bytes[0],
                    bytes[1],
                    bytes[2],
                    bytes[3],
                    bytes[4],
                    bytes[5],
                    bytes[6],
                    bytes[7],
                    bytes[8],
                    bytes[9],
                ];
                assert(header_bytes@ =~= bytes@);
                match parse_header(&header_bytes) {
                    Err(e) => Err(e),
                    Ok(header) => if header.flags.contains(TAG_EXTENDED_HEADER) {
                        Ok(TagProgress::More(TagReader::ExtendedSize { header }))
                    } else {
                        Ok(TagProgress::More(TagReader::Frames { header, size: header.size }))
                    },
                }
            },
            TagReader::ExtendedSize { header } => {
                let size: u32 = synchsafe_u32_to_u32(read_u32_be(bytes.as_slice()));
                Ok(TagProgress::More(TagReader::ExtendedBody { header, size }))
            },
            TagReader::ExtendedBody { header, size } => {
                if bytes.len() < 2 || bytes[0] != 1 {
                    return Err(TagParseError::UnsupportedFeature);
                }
                let flags = ExtendedHeaderFlags::from_bits_truncate(bytes[1]);
                let mut skip: u8 = 0;
                if flags.contains(EXTENDED_CRC_DATA_PRESENT) {
                    skip = skip + 5;
                }
                if flags.contains(EXTENDED_TAG_RESTRICTIONS) {
                    skip = skip + 1;
                }
                let cost: u32 = 6 + skip as u32;
                if header.size < cost {
                    return Err(TagParseError::UnsupportedFeature);
                }
                let frames: u32 = header.size - cost;
                if skip == 0 {
                    Ok(TagProgress::More(TagReader::Frames { header, size: frames }))
                } else {
                    Ok(TagProgress::More(TagReader::ExtendedRest { header, skip, frames }))
                }
            },
            TagReader::ExtendedRest { header, skip, frames } => Ok(
                TagProgress::More(TagReader::Frames { header, size: frames }),
            ),
            TagReader::Frames { header, size } => Ok(
                TagProgress::Done(Parser::new(boxed(bytes.as_slice()))),
            ),
        }
    }
}

/// What a reader in the state `reader` makes of the bytes of `source` from `pos` on:
/// the bytes of the frames, or why there are none. A source that ends before the
/// reader has what it wants fails as a read does.
pub open spec fn run(reader: TagReader, source: Seq<u8>, pos: int) -> Result<Seq<u8>, TagFailure>
    decreases reader.rank(),
{
    let end = pos + reader.wanted_bytes();
    if pos < 0 || end > source.len() {
        Err(TagFailure::Io)
    } else {
        match reader.fed(source.subrange(pos, end)) {
            Err(e) => Err(e),
            Ok(ProgressModel::Done(frames)) => Ok(frames),
            Ok(ProgressModel::More(next)) => if next.rank() < reader.rank() {
                run(next, source, end)
            } else {
                Err(TagFailure::Io)
            },
        }
    }
}

/// The bytes of the frames of the tag with which `source` begins.
pub open spec fn frames_of(source: Seq<u8>) -> Result<Seq<u8>, TagFailure> {
    run(TagReader::Header, source, 0)
}

/// A source of ten bytes or more that does not begin with `ID3` holds no tag.
pub proof fn lemma_no_tag(source: Seq<u8>)
    requires
        source.len() >= 10,
        !starts_with_id3(source),
    ensures
        frames_of(source) == Err::<Seq<u8>, TagFailure>(TagFailure::NoTag),
{
    assert(!starts_with_id3(source.subrange(0, 10)));
}

/// Reads the tag with which `source` begins, and gives the stream of its frames.
pub fn parse_source(source: &[u8]) -> (r: Result<Parser, TagParseError>)
    ensures
        match r {
            Ok(parser) => frames_of(source@) == Ok::<Seq<u8>, TagFailure>(parser.content())
                && parser.cursor() == 0,
            Err(e) => frames_of(source@) == Err::<Seq<u8>, TagFailure>(e.kind()),
        },
        source@.len() >= 10 && !starts_with_id3(source@) ==> r matches Err(TagParseError::NoTag),
{
    let len: usize = source.len();
    let mut reader = TagReader::new();
    let mut pos: usize = 0;
    proof {
        if source@.len() >= 10 && !starts_with_id3(source@) {
            lemma_no_tag(source@);
        }
    }
    loop
        invariant
            len == source@.len(),
            pos <= len,
            run(reader, source@, pos as int) == frames_of(source@),
            source@.len() >= 10 && !starts_with_id3(source@) ==> frames_of(source@) == Err::<
                Seq<u8>,
                TagFailure,
            >(TagFailure::NoTag),
        decreases reader.rank(),
    {
        let n: usize = reader.wanted();
        if n > len - pos {
            return Err(TagParseError::Io(unexpected_eof()));
        }
        let chunk = slice_to_vec(&source[pos..pos + n]);
        match reader.feed(chunk) {
            Err(e) => {
                return Err(e);
            },
            Ok(TagProgress::Done(parser)) => {
                return Ok(parser);
            },
            Ok(TagProgress::More(next)) => {
                reader = next;
                pos = pos + n;
            },
        }
    }
}

} // verus!
