//! Record kinds, record flags, and the generic record container.

use vstd::prelude::*;
use vstd::string::StringExecFns;

use crate::cursor::{decoded_as, s_peek_tag, s_read_le_u32, s_read_tag, Cursor, CursorModel,
    Decoded};
use crate::error::{DecodeError, DecodeErrorKind};
use crate::read::Readable;
use crate::records::header::{RecordHeader, RecordHeaderView};

verus! {

/// The closed catalogue of record type tags the decoder knows, with an
/// explicit fallback for unrecognized codes.
#[derive(Debug, Clone, Copy, PartialEq, Eq, Hash, Structural)]
pub enum RecordType {
    /// The file-header record kind ("TES4").
    TES4,
    GMST,
    KYWD,
    AACT,
    LCRT,
    TXST,
    GLOB,
    Unknown,
}

impl View for RecordType {
    type V = RecordType;

    open spec fn view(&self) -> RecordType {
        *self
    }
}

impl RecordType {
    /// Classification of a raw big-endian tag code.
    #[verifier::opaque]
    pub open spec fn spec_from_u32(code: u32) -> RecordType {
        if code == 0x5445_5334 {
            RecordType::TES4
        } else if code == 0x474D_5354 {
            RecordType::GMST
        } else if code == 0x4B59_5744 {
            RecordType::KYWD
        } else if code == 0x4141_4354 {
            RecordType::AACT
        } else if code == 0x4C43_5254 {
            RecordType::LCRT
        } else if code == 0x5458_5354 {
            RecordType::TXST
        } else if code == 0x474C_4F42 {
            RecordType::GLOB
        } else {
            RecordType::Unknown
        }
    }

    /// Classify a raw big-endian tag code.
    pub fn from_u32(code: u32) -> (t: RecordType)
        ensures
            t == RecordType::spec_from_u32(code),
    {
        proof {
            reveal(RecordType::spec_from_u32);
        }
        if code == 0x5445_5334 {
            RecordType::TES4
        } else if code == 0x474D_5354 {
            RecordType::GMST
        } else if code == 0x4B59_5744 {
            RecordType::KYWD
        } else if code == 0x4141_4354 {
            RecordType::AACT
        } else if code == 0x4C43_5254 {
            RecordType::LCRT
        } else if code == 0x5458_5354 {
            RecordType::TXST
        } else if code == 0x474C_4F42 {
            RecordType::GLOB
        } else {
            RecordType::Unknown
        }
    }

    /// The raw big-endian tag code of this kind; 0 for `Unknown`.
    #[verifier::opaque]
    pub open spec fn spec_num(self) -> u32 {
        match self {
            RecordType::TES4 => 0x5445_5334,
            RecordType::GMST => 0x474D_5354,
            RecordType::KYWD => 0x4B59_5744,
            RecordType::AACT => 0x4141_4354,
            RecordType::LCRT => 0x4C43_5254,
            RecordType::TXST => 0x5458_5354,
            RecordType::GLOB => 0x474C_4F42,
            RecordType::Unknown => 0,
        }
    }

    /// The raw big-endian tag code of this kind; 0 for `Unknown`.
    pub fn num(&self) -> (r: u32)
        ensures
            r == self.spec_num(),
    {
        proof {
            reveal(RecordType::spec_num);
        }
        match self {
            RecordType::TES4 => 0x5445_5334,
            RecordType::GMST => 0x474D_5354,
            RecordType::KYWD => 0x4B59_5744,
            RecordType::AACT => 0x4141_4354,
            RecordType::LCRT => 0x4C43_5254,
            RecordType::TXST => 0x5458_5354,
            RecordType::GLOB => 0x474C_4F42,
            RecordType::Unknown => 0,
        }
    }

    /// Classify the big-endian tag `offset` bytes ahead of the cursor
    /// position, without consuming anything and without touching any
    /// budget counter.
    pub fn peek(cursor: &Cursor, offset: usize) -> (r: Result<RecordType, DecodeError>)
        requires
            cursor@.wf(),
        ensures
            match r {
                Ok(t) => s_peek_tag(cursor@, offset as int) matches Ok(code) && t
                    == RecordType::spec_from_u32(code),
                Err(e) => s_peek_tag(cursor@, offset as int) matches Err(k) && k == e@,
            },
    {
        match cursor.peek_tag(offset) {
            Ok(code) => Ok(RecordType::from_u32(code)),
            Err(e) => Err(e),
        }
    }
}

/// Mirror of [`Cursor::read_record_type`]: a big-endian tag, classified.
pub open spec fn s_read_record_type(c: CursorModel) -> Decoded<RecordType> {
    match s_read_tag(c) {
        Ok((code, c2)) => Ok((RecordType::spec_from_u32(code), c2)),
        Err(k) => Err(k),
    }
}

impl Cursor {
    /// Read a 4-byte big-endian tag and classify it as a record kind.
    pub fn read_record_type(&mut self) -> (r: Result<RecordType, DecodeError>)
        requires
            old(self)@.wf(),
        ensures
            final(self)@.wf(),
            decoded_as(s_read_record_type(old(self)@), r, final(self)@),
    {
        match self.read_tag() {
            Ok(code) => Ok(RecordType::from_u32(code)),
            Err(e) => Err(e),
        }
    }
}

/// The bits of [`RecordFlags`] the catalogue names; any other bit makes
/// the whole set fall back to empty.
pub const RECORD_FLAGS_MASK: u32 = 0x1C8C_9D60;

pub const RECORD_FLAG_DELETED: u32 = 0x0000_0020;

pub const RECORD_FLAG_CONSTANT: u32 = 0x0000_0040;

pub const RECORD_FLAG_MUST_UPDATE_ANIMS: u32 = 0x0000_0100;

pub const RECORD_FLAG_QUEST_ITEM: u32 = 0x0000_0400;

pub const RECORD_FLAG_INITIALLY_DISABLED: u32 = 0x0000_0800;

pub const RECORD_FLAG_IGNORED: u32 = 0x0000_1000;

pub const RECORD_FLAG_VISIBLE_WHEN_DISTANT: u32 = 0x0000_8000;

pub const RECORD_FLAG_COMPRESSED: u32 = 0x0004_0000;

pub const RECORD_FLAG_CANNOT_WAIT: u32 = 0x0008_0000;

pub const RECORD_FLAG_IS_MARKER: u32 = 0x0080_0000;

pub const RECORD_FLAG_NAV_MESH_GEN_FILTER: u32 = 0x0400_0000;

pub const RECORD_FLAG_NAV_MESH_GEN_BOUNDING_BOX: u32 = 0x0800_0000;

pub const RECORD_FLAG_NAV_MESH_GEN_GROUND: u32 = 0x1000_0000;

/// The flag bit-set of an ordinary record.
#[derive(Debug, Clone, Copy, PartialEq, Eq, Structural)]
pub struct RecordFlags {
    pub bits: u32,
}

impl View for RecordFlags {
    type V = RecordFlags;

    open spec fn view(&self) -> RecordFlags {
        *self
    }
}

impl RecordFlags {
    /// The flag set a raw field decodes to: the bits themselves when all
    /// are known, the empty set otherwise.
    pub open spec fn spec_from_bits(bits: u32) -> RecordFlags {
        if bits & !RECORD_FLAGS_MASK == 0 {
            RecordFlags { bits }
        } else {
            RecordFlags { bits: 0 }
        }
    }

    /// Decode a raw flag field; unknown bits clear the whole set.
    pub fn from_bits(bits: u32) -> (r: RecordFlags)
        ensures
            r == RecordFlags::spec_from_bits(bits),
    {
        if bits & !RECORD_FLAGS_MASK == 0 {
            RecordFlags { bits }
        } else {
            RecordFlags { bits: 0 }
        }
    }

    /// Whether every bit of `mask` is set.
    pub fn contains(&self, mask: u32) -> (r: bool)
        ensures
            r == (self.bits & mask == mask),
    {
        self.bits & mask == mask
    }
}

impl Default for RecordFlags {
    /// The empty flag set.
    fn default() -> (r: RecordFlags)
        ensures
            r.bits == 0,
    {
        RecordFlags { bits: 0 }
    }
}

/// Mirror of the [`RecordFlags`] decode: a little-endian `u32` run
/// through [`RecordFlags::spec_from_bits`].
pub open spec fn s_read_record_flags(c: CursorModel) -> Decoded<RecordFlags> {
    match s_read_le_u32(c) {
        Ok((bits, c2)) => Ok((RecordFlags::spec_from_bits(bits), c2)),
        Err(k) => Err(k),
    }
}

impl Readable for RecordFlags {
    open spec fn s_read(c: CursorModel) -> Decoded<RecordFlags> {
        s_read_record_flags(c)
    }

    proof fn s_read_progress(c: CursorModel) {
    }

    fn read(cursor: &mut Cursor) -> (r: Result<RecordFlags, DecodeError>) {
        proof {
            assert(RecordFlags::s_read(old(cursor)@) == s_read_record_flags(old(cursor)@));
        }
        match cursor.read_le_u32() {
            Ok(bits) => Ok(RecordFlags::from_bits(bits)),
            Err(e) => Err(e),
        }
    }
}

/// A record: its header and its typed payload. Decoding opens a new
/// record byte-budget scope from the header's declared length before
/// decoding the payload, and demands that the payload consume the scope
/// exactly: a negative remainder signals an over-read and fails the
/// decode.
#[derive(Debug, Clone, PartialEq, Eq)]
pub struct Record<HeaderFlags, Data> {
    pub header: RecordHeader<HeaderFlags>,
    pub data: Data,
}

/// View of a [`Record`], over the views of its flag set and payload.
pub struct RecordView<FV, DV> {
    pub header: RecordHeaderView<FV>,
    pub data: DV,
}

impl<HeaderFlags: View, Data: View> View for Record<HeaderFlags, Data> {
    type V = RecordView<HeaderFlags::V, Data::V>;

    open spec fn view(&self) -> RecordView<HeaderFlags::V, Data::V> {
        RecordView { header: self.header@, data: self.data@ }
    }
}

impl<HeaderFlags: Readable, Data: Readable> Record<HeaderFlags, Data> {
    /// Mirror of [`Record::read`]: header, then the payload under a
    /// fresh record budget, which must come back exactly exhausted.
    pub open spec fn s_read(c: CursorModel) -> Decoded<RecordView<HeaderFlags::V, Data::V>> {
        match RecordHeader::<HeaderFlags>::s_read(c) {
            Err(k) => Err(k),
            Ok((h, c1)) => match Data::s_read(c1.entered_record(h.size)) {
                Err(k) => Err(k),
                Ok((d, c2)) => {
                    if c2.record_left == 0 {
                        Ok((RecordView { header: h, data: d }, c2))
                    } else {
                        Err(DecodeErrorKind::InvalidData)
                    }
                },
            },
        }
    }

    /// On success the record decode moves the position forward inside
    /// the buffer and moves the group budget in lockstep with it. (The
    /// record and subrecord budgets are reassigned inside.)
    pub proof fn s_read_progress(c: CursorModel)
        requires
            0 <= c.pos <= c.data.len(),
        ensures
            Self::s_read(c) matches Ok((v, c2)) ==> {
                &&& c.pos <= c2.pos <= c.data.len()
                &&& c2.data == c.data
                &&& c2.group_left == c.group_left - (c2.pos - c.pos)
            },
    {
        RecordHeader::<HeaderFlags>::s_read_progress(c);
        match RecordHeader::<HeaderFlags>::s_read(c) {
            Err(_) => {},
            Ok((h, c1)) => {
                Data::s_read_progress(c1.entered_record(h.size));
            },
        }
    }

    /// After any record's payload decode completes, the record budget
    /// is exactly zero, never negative: a payload that over-runs its
    /// declared length fails the decode instead of succeeding.
    pub proof fn lemma_record_budget_exact(c: CursorModel)
        ensures
            Self::s_read(c) matches Ok((v, c2)) ==> c2.record_left == 0,
    {
    }

    /// Decode one record (its tag already consumed by the caller).
    ///
    /// On success the record budget is exactly zero: the payload
    /// consumed precisely the declared number of bytes, never more.
    pub fn read(cursor: &mut Cursor) -> (r: Result<Record<HeaderFlags, Data>, DecodeError>)
        requires
            old(cursor)@.wf(),
        ensures
            final(cursor)@.wf(),
            decoded_as(Self::s_read(old(cursor)@), r, final(cursor)@),
            r is Ok ==> final(cursor)@.record_left == 0,
    {
        let header = match RecordHeader::<HeaderFlags>::read(cursor) {
            Ok(h) => h,
            Err(e) => {
                return Err(e);
            },
        };
        cursor.enter_record(header.size);
        let data = match Data::read(cursor) {
            Ok(d) => d,
            Err(e) => {
                return Err(e);
            },
        };
        if cursor.record_remaining() != 0 {
            return Err(
                DecodeError::InvalidData(
                    String::from_str("record payload over-ran its declared length"),
                ),
            );
        }
        Ok(Record { header, data })
    }
}

} // verus!
