//! The frame stream: a cursor over the bytes of the frames of a tag.

use vstd::prelude::*;
use crate::decoders::{decode_frame, frame_data_of};
use crate::errors::{FrameParseError, FrameParseErrorReason, ReasonKind};
use crate::flags::{
    FrameFlags, FRAME_ALL, FRAME_DATA_LENGTH_INDICATOR, FRAME_GROUPING_IDENTITY, FRAME_UNSUPPORTED,
};
use crate::frames::{Frame, FrameModel};
use crate::outside::{be16, be32, read_u16_be, read_u32_be};
use crate::synchsafe::{spec_synchsafe_u32, synchsafe_u32_to_u32};

verus! {

/// What a `FrameParseError` stands for.
pub struct FailureModel {
    pub name: Seq<u8>,
    pub kind: ReasonKind,
}

impl View for FrameParseError {
    type V = FailureModel;

    open spec fn view(&self) -> FailureModel {
        FailureModel { name: self.name@, kind: self.reason.kind() }
    }
}

/// Where one frame lies in the bytes of a tag.
pub struct FrameLayout {
    /// The four bytes of the identifier.
    pub name: Seq<u8>,
    /// The flags of the frame header.
    pub flags: FrameFlags,
    /// The group of the frame, where the flags announce one.
    pub group: Option<u8>,
    /// The number of bytes between the frame header and the body.
    pub extra: int,
    /// The first byte of the body.
    pub body_start: int,
    /// The number of bytes of the body.
    pub body_len: int,
}

/// The size that the frame header at `cursor` declares.
pub open spec fn declared_size(content: Seq<u8>, cursor: int) -> int {
    spec_synchsafe_u32(be32(content.subrange(cursor + 4, cursor + 8)) as u32) as int
}

/// The flags of the frame header at `cursor`.
pub open spec fn frame_flags_at(content: Seq<u8>, cursor: int) -> FrameFlags {
    FrameFlags { bits: (be16(content.subrange(cursor + 8, cursor + 10)) as u16) & FRAME_ALL }
}

/// True when the four bytes at `cursor` are zero: padding, not a frame.
pub open spec fn padding_at(content: Seq<u8>, cursor: int) -> bool {
    content[cursor] == 0 && content[cursor + 1] == 0 && content[cursor + 2] == 0 && content[cursor
        + 3] == 0
}

/// The frame at `cursor`, or `None` where the stream ends: fewer than ten bytes are
/// left, padding begins, or the frame would leave the buffer.
pub open spec fn layout_at(content: Seq<u8>, cursor: int) -> Option<FrameLayout> {
    if cursor < 0 || content.len() - cursor < 10 || padding_at(content, cursor) {
        None
    } else {
        let flags = frame_flags_at(content, cursor);
        let declared = declared_size(content, cursor);
        let grouped = flags.has(FRAME_GROUPING_IDENTITY);
        let extra = (if grouped {
            1int
        } else {
            0int
        }) + (if flags.has(FRAME_DATA_LENGTH_INDICATOR) {
            4int
        } else {
            0int
        });
        let body_len = if grouped && declared > 0 {
            declared - 1
        } else {
            declared
        };
        let body_start = cursor + 10 + extra;
        if body_start + body_len > content.len() {
            None
        } else {
            Some(
                FrameLayout {
                    name: content.subrange(cursor, cursor + 4),
                    flags,
                    group: if grouped {
                        Some(content[cursor + 10])
                    } else {
                        None
                    },
                    extra,
                    body_start,
                    body_len,
                },
            )
        }
    }
}

/// What the stream gives for the frame that lies at `layout`.
pub open spec fn emission(content: Seq<u8>, layout: FrameLayout) -> Result<
    FrameModel,
    FailureModel,
> {
    if layout.flags.has_any(FRAME_UNSUPPORTED) {
        Err(FailureModel { name: layout.name, kind: ReasonKind::UnsupportedFrameFeature })
    } else if layout.body_len == 0 {
        Err(FailureModel { name: layout.name, kind: ReasonKind::EmptyFrame })
    } else {
        match frame_data_of(
            be32(layout.name) as u32,
            content.subrange(layout.body_start, layout.body_start + layout.body_len),
        ) {
            Ok(data) => Ok(FrameModel { data, group: layout.group }),
            Err(kind) => Err(FailureModel { name: layout.name, kind }),
        }
    }
}

/// One call of `next` on a stream over `content` with its cursor at `cursor`: where
/// the cursor is afterwards, and what the call gives.
pub open spec fn step(content: Seq<u8>, cursor: int) -> (int, Option<Result<FrameModel, FailureModel>>) {
    match layout_at(content, cursor) {
        None => (cursor, None),
        Some(layout) => (layout.body_start + layout.body_len, Some(emission(content, layout))),
    }
}

/// Where the cursor is after `n` calls of `next`.
pub open spec fn cursor_after(content: Seq<u8>, cursor: int, n: nat) -> int
    decreases n,
{
    if n == 0 {
        cursor
    } else {
        step(content, cursor_after(content, cursor, (n - 1) as nat)).0
    }
}

/// Where a frame lies at the cursor, one call moves the cursor forward by the ten
/// bytes of the frame header, one byte for a group, four for a data length, and the
/// size of the body. Where none lies there, the cursor stays.
pub proof fn lemma_cursor_advance(content: Seq<u8>, cursor: int)
    ensures
        match layout_at(content, cursor) {
            Some(layout) => step(content, cursor).0 == cursor + 10 + layout.extra + layout.body_len
                && layout.extra == (if layout.flags.has(FRAME_GROUPING_IDENTITY) {
                1int
            } else {
                0int
            }) + (if layout.flags.has(FRAME_DATA_LENGTH_INDICATOR) {
                4int
            } else {
                0int
            }) && layout.body_len >= 0 && step(content, cursor).0 > cursor && step(
                content,
                cursor,
            ).0 <= content.len(),
            None => step(content, cursor) == (cursor, None::<Result<FrameModel, FailureModel>>),
        },
{
}

/// The cursor never moves back.
pub proof fn lemma_cursor_monotonic(content: Seq<u8>, cursor: int, n: nat)
    ensures
        cursor_after(content, cursor, n) <= cursor_after(content, cursor, n + 1),
        cursor <= cursor_after(content, cursor, n),
    decreases n,
{
    lemma_cursor_advance(content, cursor_after(content, cursor, n));
    if n > 0 {
        lemma_cursor_monotonic(content, cursor, (n - 1) as nat);
    }
}

/// Once the cursor stands on padding, no call gives a frame, however many are made.
pub proof fn lemma_padding_ends_stream(content: Seq<u8>, cursor: int, n: nat)
    requires
        padding_at(content, cursor),
    ensures
        cursor_after(content, cursor, n) == cursor,
        step(content, cursor_after(content, cursor, n)).1 is None,
    decreases n,
{
    if n > 0 {
        lemma_padding_ends_stream(content, cursor, (n - 1) as nat);
    }
}

/// Once a call gives nothing, no later call gives a frame.
pub proof fn lemma_end_is_final(content: Seq<u8>, cursor: int, n: nat)
    requires
        step(content, cursor).1 is None,
    ensures
        cursor_after(content, cursor, n) == cursor,
        step(content, cursor_after(content, cursor, n)).1 is None,
    decreases n,
{
    if n > 0 {
        lemma_end_is_final(content, cursor, (n - 1) as nat);
    }
}

/// True when an executable result is the outcome `expected`.
pub open spec fn is_emission(r: Option<Result<Frame, FrameParseError>>, expected: Option<
    Result<FrameModel, FailureModel>,
>) -> bool {
    match r {
        None => expected is None,
        Some(Ok(frame)) => expected == Some(Ok::<FrameModel, FailureModel>(frame@)),
        Some(Err(e)) => expected == Some(Err::<FrameModel, FailureModel>(e@)),
    }
}

/// A stream of frames over the bytes that follow the header of a tag.
pub struct Parser {
    content: Box<[u8]>,
    cursor: usize,
}

impl Parser {
    /// The bytes of the frames.
    pub closed spec fn content(&self) -> Seq<u8> {
        self.content@
    }

    /// The place of the next frame.
    pub closed spec fn cursor(&self) -> int {
        self.cursor as int
    }

    #[verifier::type_invariant]
    spec fn in_bounds(self) -> bool {
        self.cursor <= self.content@.len()
    }

    /// A stream at the start of `content`.
    pub fn new(content: Box<[u8]>) -> (r: Parser)
        ensures
            r.content() == content@,
            r.cursor() == 0,
    {
        Parser { content, cursor: 0 }
    }

    /// The next frame, or the reason for which it could not be decoded, or `None` at
    /// the end of the stream. After a failure the cursor stands behind the failed frame.
    pub fn next(&mut self) -> (r: Option<Result<Frame, FrameParseError>>)
        ensures
            final(self).content() == old(self).content(),
            final(self).cursor() == step(old(self).content(), old(self).cursor()).0,
            is_emission(r, step(old(self).content(), old(self).cursor()).1),
            r is Some ==> final(self).cursor() >= old(self).cursor() + 10,
            r matches Some(Ok(frame)) ==> frame.data.wf(),
            0 <= final(self).cursor() <= final(self).content().len(),
    {
        proof {
            use_type_invariant(&*self);
        }
        let len: usize = self.content.len();
        let at: usize = self.cursor;
        if len - at < 10 {
            return None;
        }
        let name: [u8; 4] = [
            self.content[at],
            self.content[at + 1],
            self.content[at + 2],
            self.content[at + 3],
        ];
        assert(name@ =~= self.content@.subrange(at as int, at + 4));
        if name[0] == 0 && name[1] == 0 && name[2] == 0 && name[3] == 0 {
            return None;
        }
        let declared: u32 = synchsafe_u32_to_u32(read_u32_be(&self.content[at + 4..at + 8]));
        let frame_flags = FrameFlags::from_bits_truncate(
            read_u16_be(&self.content[at + 8..at + 10]),
        );
        let grouped: bool = frame_flags.contains(FRAME_GROUPING_IDENTITY);
        let mut extra: usize = 0;
        if grouped {
            extra = extra + 1;
        }
        if frame_flags.contains(FRAME_DATA_LENGTH_INDICATOR) {
            extra = extra + 4;
        }
        let frame_size: u32 = if grouped {
            declared.saturating_sub(1)
        } else {
            declared
        };
        let left: usize = len - at - 10;
        if extra > left || frame_size as u64 > (left - extra) as u64 {
            return None;
        }
        let group: Option<u8> = if grouped {
            Some(self.content[at + 10])
        } else {
            None
        };
        let body_start: usize = at + 10 + extra;
        let body_end: usize = body_start + frame_size as usize;
        let result = if frame_flags.intersects(FRAME_UNSUPPORTED) {
            Err(FrameParseErrorReason::UnsupportedFrameFeature)
        } else if frame_size == 0 {
            Err(FrameParseErrorReason::EmptyFrame)
        } else {
            decode_frame(name, &self.content[body_start..body_end])
        };
        self.cursor = body_end;
        match result {
            Ok(data) => Some(Ok(Frame { data, group })),
            Err(reason) => Some(Err(FrameParseError { name, reason })),
        }
    }
}

} // verus!
