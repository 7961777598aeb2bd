//! The flag bytes of the tag header, of the extended header, and of each frame.

use vstd::prelude::*;

verus! {

/// The tag is unsynchronised.
pub const TAG_UNSYNCHRONIZED: u8 = 0x80;

/// An extended header follows the tag header.
pub const TAG_EXTENDED_HEADER: u8 = 0x40;

/// The tag is in an experimental stage.
pub const TAG_EXPERIMENTAL_INDICATOR: u8 = 0x20;

/// A footer closes the tag.
pub const TAG_FOOTER_PRESENT: u8 = 0x10;

/// Every flag that the tag header of version 2.4 defines.
pub const TAG_ALL: u8 = 0xf0;

/// The tag updates an earlier one.
pub const EXTENDED_TAG_IS_UPDATE: u8 = 0x40;

/// Five bytes of CRC follow the extended header.
pub const EXTENDED_CRC_DATA_PRESENT: u8 = 0x20;

/// One byte of restrictions follows the extended header.
pub const EXTENDED_TAG_RESTRICTIONS: u8 = 0x10;

/// Every flag that the extended header defines.
pub const EXTENDED_ALL: u8 = 0x70;

/// The frame is to be discarded when the tag is altered.
pub const FRAME_TAG_ALTER_PRESERVATION: u16 = 0x4000;

/// The frame is to be discarded when the file is altered.
pub const FRAME_FILE_ALTER_PRESERVATION: u16 = 0x2000;

/// The frame is meant to be read only.
pub const FRAME_READ_ONLY: u16 = 0x1000;

/// A byte that names the frame's group follows the frame header.
pub const FRAME_GROUPING_IDENTITY: u16 = 0x0040;

/// The frame is compressed.
pub const FRAME_COMPRESSION: u16 = 0x0008;

/// The frame is encrypted.
pub const FRAME_ENCRYPTION: u16 = 0x0004;

/// The frame is unsynchronised.
pub const FRAME_UNSYNCHRONIZATION: u16 = 0x0002;

/// Four bytes of data length follow the frame header.
pub const FRAME_DATA_LENGTH_INDICATOR: u16 = 0x0001;

/// Every flag that a frame header defines.
pub const FRAME_ALL: u16 = 0x704f;

/// The format flags of a frame that this crate cannot undo.
pub const FRAME_UNSUPPORTED: u16 = 0x000e;

/// The flags of a tag header.
#[derive(Copy, Clone, Debug, PartialEq, Eq, Structural)]
pub struct TagFlags {
    pub bits: u8,
}

/// The flags of an extended header.
#[derive(Copy, Clone, Debug, PartialEq, Eq, Structural)]
pub struct ExtendedHeaderFlags {
    pub bits: u8,
}

/// The flags of a frame header.
#[derive(Copy, Clone, Debug, PartialEq, Eq, Structural)]
pub struct FrameFlags {
    pub bits: u16,
}

impl TagFlags {
    /// True when every bit of `mask` is set.
    pub open spec fn has(self, mask: u8) -> bool {
        self.bits & mask == mask
    }

    /// The flags in `bits`, the bits that stand for no flag cleared.
    pub fn from_bits_truncate(bits: u8) -> (r: TagFlags)
        ensures
            r.bits == bits & TAG_ALL,
    {
        TagFlags { bits: bits & TAG_ALL }
    }

    /// Tells whether every bit of `mask` is set.
    pub fn contains(self, mask: u8) -> (r: bool)
        ensures
            r == self.has(mask),
    {
        self.bits & mask == mask
    }
}

impl ExtendedHeaderFlags {
    /// True when every bit of `mask` is set.
    pub open spec fn has(self, mask: u8) -> bool {
        self.bits & mask == mask
    }

    /// The flags in `bits`, the bits that stand for no flag cleared.
    pub fn from_bits_truncate(bits: u8) -> (r: ExtendedHeaderFlags)
        ensures
            r.bits == bits & EXTENDED_ALL,
    {
        ExtendedHeaderFlags { bits: bits & EXTENDED_ALL }
    }

    /// Tells whether every bit of `mask` is set.
    pub fn contains(self, mask: u8) -> (r: bool)
        ensures
            r == self.has(mask),
    {
        self.bits & mask == mask
    }
}

impl FrameFlags {
    /// True when every bit of `mask` is set.
    pub open spec fn has(self, mask: u16) -> bool {
        self.bits & mask == mask
    }

    /// True when some bit of `mask` is set.
    pub open spec fn has_any(self, mask: u16) -> bool {
        self.bits & mask != 0
    }

    /// The flags in `bits`, the bits that stand for no flag cleared.
    pub fn from_bits_truncate(bits: u16) -> (r: FrameFlags)
        ensures
            r.bits == bits & FRAME_ALL,
    {
        FrameFlags { bits: bits & FRAME_ALL }
    }

    /// Tells whether every bit of `mask` is set.
    pub fn contains(self, mask: u16) -> (r: bool)
        ensures
            r == self.has(mask),
    {
        self.bits & mask == mask
    }

    /// Tells whether some bit of `mask` is set.
    pub fn intersects(self, mask: u16) -> (r: bool)
        ensures
            r == self.has_any(mask),
    {
        self.bits & mask != 0
    }
}

} // verus!
