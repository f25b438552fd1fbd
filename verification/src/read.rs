//! The decode protocol: the capability every decodable type implements —
//! produce an instance from the cursor, or fail.

use vstd::prelude::*;

use crate::cursor::{
    decoded_as, s_read_le_i32, s_read_le_u16, s_read_le_u32, s_read_le_u64, s_read_u8, Cursor,
    CursorModel, Decoded,
};
use crate::error::DecodeError;

verus! {

/// A type that can be decoded from the byte cursor.
///
/// `s_read` is the spec-level mirror of `read`: it maps the cursor model
/// to the decoded value (as a view) and the successor model, or to the
/// kind of error the decode fails with. `read`'s contract pins its result
/// to the mirror, so decoding is a mathematical function of the cursor
/// state.
pub trait Readable: View + Sized {
    /// Spec-level mirror of `read`.
    spec fn s_read(c: CursorModel) -> Decoded<Self::V>;

    /// On success the mirror moves the position forward, stays inside the
    /// buffer, and moves the group and record budgets in lockstep with
    /// the position. (The subrecord budget is exempt: decoding a nested
    /// subrecord reassigns it.)
    proof fn s_read_progress(c: CursorModel)
        requires
            0 <= c.pos <= c.data.len(),
        ensures
            Self::s_read(c) matches Ok((v, c2)) ==> {
                &&& c.pos <= c2.pos <= c.data.len()
                &&& c2.data == c.data
                &&& c2.group_left == c.group_left - (c2.pos - c.pos)
                &&& c2.record_left == c.record_left - (c2.pos - c.pos)
            },
    ;

    /// Decode one value from the cursor.
    fn read(cursor: &mut Cursor) -> (r: Result<Self, DecodeError>)
        requires
            old(cursor)@.wf(),
        ensures
            final(cursor)@.wf(),
            decoded_as(Self::s_read(old(cursor)@), r, final(cursor)@),
    ;
}

/// The elementwise view of an optional value.
pub open spec fn opt_view<T: View>(o: Option<T>) -> Option<T::V> {
    match o {
        Some(t) => Some(t@),
        None => None,
    }
}

impl Readable for u8 {
    open spec fn s_read(c: CursorModel) -> Decoded<u8> {
        s_read_u8(c)
    }

    proof fn s_read_progress(c: CursorModel) {
    }

    fn read(cursor: &mut Cursor) -> (r: Result<u8, DecodeError>) {
        proof {
            assert(u8::s_read(old(cursor)@) == s_read_u8(old(cursor)@));
        }
        cursor.read_u8()
    }
}

impl Readable for u16 {
    open spec fn s_read(c: CursorModel) -> Decoded<u16> {
        s_read_le_u16(c)
    }

    proof fn s_read_progress(c: CursorModel) {
    }

    fn read(cursor: &mut Cursor) -> (r: Result<u16, DecodeError>) {
        cursor.read_le_u16()
    }
}

impl Readable for u32 {
    open spec fn s_read(c: CursorModel) -> Decoded<u32> {
        s_read_le_u32(c)
    }

    proof fn s_read_progress(c: CursorModel) {
    }

    fn read(cursor: &mut Cursor) -> (r: Result<u32, DecodeError>) {
        cursor.read_le_u32()
    }
}

impl Readable for u64 {
    open spec fn s_read(c: CursorModel) -> Decoded<u64> {
        s_read_le_u64(c)
    }

    proof fn s_read_progress(c: CursorModel) {
    }

    fn read(cursor: &mut Cursor) -> (r: Result<u64, DecodeError>) {
        cursor.read_le_u64()
    }
}

impl Readable for i32 {
    open spec fn s_read(c: CursorModel) -> Decoded<i32> {
        s_read_le_i32(c)
    }

    proof fn s_read_progress(c: CursorModel) {
    }

    fn read(cursor: &mut Cursor) -> (r: Result<i32, DecodeError>) {
        cursor.read_le_i32()
    }
}

/// Mirror of the `char` decode: one byte, taken as the character with
/// that code point, as the format stores single-character fields.
pub open spec fn s_read_char(c: CursorModel) -> Decoded<char> {
    match s_read_u8(c) {
        Ok((b, c2)) => Ok((b as char, c2)),
        Err(k) => Err(k),
    }
}

impl Readable for char {
    open spec fn s_read(c: CursorModel) -> Decoded<char> {
        s_read_char(c)
    }

    proof fn s_read_progress(c: CursorModel) {
    }

    fn read(cursor: &mut Cursor) -> (r: Result<char, DecodeError>) {
        proof {
            assert(char::s_read(old(cursor)@) == s_read_char(old(cursor)@));
        }
        match cursor.read_u8() {
            Ok(b) => Ok(b as char),
            Err(e) => Err(e),
        }
    }
}

} // verus!
