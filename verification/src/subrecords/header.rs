//! The subrecord header: a payload byte length only. The subrecord's
//! type tag is consumed by its parent's dispatch loop, not stored here.

use vstd::prelude::*;

use crate::cursor::{s_read_le_u16, Cursor, CursorModel, Decoded};
use crate::error::{DecodeError, DecodeErrorKind};
use crate::read::Readable;

verus! {

/// Header of a subrecord: the declared payload length in bytes.
#[derive(Debug, Clone, Copy, PartialEq, Eq, Structural)]
pub struct SubrecordHeader {
    pub size: u16,
}

impl View for SubrecordHeader {
    type V = SubrecordHeader;

    open spec fn view(&self) -> SubrecordHeader {
        *self
    }
}

/// Mirror of the [`SubrecordHeader`] decode: one little-endian `u16`.
#[verifier::inline]
pub open spec fn s_read_subrecord_header(c: CursorModel) -> Decoded<SubrecordHeader> {
    match s_read_le_u16(c) {
        Ok((size, c2)) => Ok((SubrecordHeader { size }, c2)),
        Err(k) => Err(k),
    }
}

impl Readable for SubrecordHeader {
    open spec fn s_read(c: CursorModel) -> Decoded<SubrecordHeader> {
        s_read_subrecord_header(c)
    }

    proof fn s_read_progress(c: CursorModel) {
    }

    fn read(cursor: &mut Cursor) -> (r: Result<SubrecordHeader, DecodeError>) {
        proof {
            assert(SubrecordHeader::s_read(old(cursor)@) == s_read_subrecord_header(old(cursor)@));
        }
        match cursor.read_le_u16() {
            Ok(size) => Ok(SubrecordHeader { size }),
            Err(e) => Err(e),
        }
    }
}

} // verus!
