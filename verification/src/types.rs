//! Primitive field types of the format: raw 4-byte variant cells,
//! colors, version-control metadata, null-terminated strings, and
//! localized-string indices.

use vstd::prelude::*;
use vstd::string::StringExecFns;
use vstd::utf8::{decode_utf8, valid_utf8};

use crate::cursor::{
    be_u32_at, first_nul, le_u32_at, lemma_first_nul, s_read_le_u32, s_read_u8, s_read_until_nul,
    Cursor, CursorModel, Decoded,
};
use crate::error::{DecodeError, DecodeErrorKind};
use crate::read::Readable;
use crate::text::bytes_to_string;

verus! {

/// A 4-byte cell whose interpretation depends on the record kind that
/// carries it: a boolean, an integer, or a localized-string index. The
/// cell is stored as the big-endian integer over its four raw bytes, as
/// the accessors of the format read it.
#[derive(Debug, Clone, Copy, PartialEq, Eq, Structural)]
pub struct VariantBytes {
    value: u32,
}

impl View for VariantBytes {
    type V = u32;

    closed spec fn view(&self) -> u32 {
        self.value
    }
}

/// Mirror of the [`VariantBytes`] decode: four raw bytes, interpreted
/// big-endian.
#[verifier::inline]
pub open spec fn s_read_variant_bytes(c: CursorModel) -> Decoded<u32> {
    if c.pos + 4 <= c.data.len() {
        Ok((be_u32_at(c.data, c.pos), c.advanced(4)))
    } else {
        Err(DecodeErrorKind::Io)
    }
}

impl VariantBytes {
    /// The cell read as a boolean: any nonzero value is true.
    pub fn boolean(&self) -> (r: bool)
        ensures
            r == (self@ > 0),
    {
        self.value > 0
    }

    /// The cell read as an unsigned integer.
    pub fn int_value(&self) -> (r: u32)
        ensures
            r == self@,
    {
        self.value
    }

    /// The cell read as a localized-string index.
    pub fn lstring(&self) -> (r: u32)
        ensures
            r == self@,
    {
        self.value
    }
}

impl Readable for VariantBytes {
    open spec fn s_read(c: CursorModel) -> Decoded<u32> {
        s_read_variant_bytes(c)
    }

    proof fn s_read_progress(c: CursorModel) {
    }

    fn read(cursor: &mut Cursor) -> (r: Result<VariantBytes, DecodeError>) {
        proof {
            assert(VariantBytes::s_read(old(cursor)@) == s_read_variant_bytes(old(cursor)@));
        }
        match cursor.read_tag() {
            Ok(v) => Ok(VariantBytes { value: v }),
            Err(e) => Err(e),
        }
    }
}

/// The 4 bytes of version-control metadata carried in every record
/// header: day, month, previous editor id, current editor id. Carried
/// through, never interpreted.
#[derive(Debug, Clone, Copy, PartialEq, Eq, Structural)]
pub struct VersionControlInfo {
    pub vc_day: u8,
    pub vc_month: u8,
    pub vc_previous_id: u8,
    pub vc_current_id: u8,
}

impl View for VersionControlInfo {
    type V = VersionControlInfo;

    open spec fn view(&self) -> VersionControlInfo {
        *self
    }
}

/// Mirror of the [`VersionControlInfo`] decode: four raw bytes in field
/// order.
#[verifier::inline]
pub open spec fn s_read_vc_info(c: CursorModel) -> Decoded<VersionControlInfo> {
    match s_read_u8(c) {
        Err(k) => Err(k),
        Ok((vc_day, c1)) => match s_read_u8(c1) {
            Err(k) => Err(k),
            Ok((vc_month, c2)) => match s_read_u8(c2) {
                Err(k) => Err(k),
                Ok((vc_previous_id, c3)) => match s_read_u8(c3) {
                    Err(k) => Err(k),
                    Ok(
                        (vc_current_id, c4),
                    ) => Ok(
                        (VersionControlInfo { vc_day, vc_month, vc_previous_id, vc_current_id }, c4),
                    ),
                },
            },
        },
    }
}

impl Readable for VersionControlInfo {
    open spec fn s_read(c: CursorModel) -> Decoded<VersionControlInfo> {
        s_read_vc_info(c)
    }

    proof fn s_read_progress(c: CursorModel) {
    }

    fn read(cursor: &mut Cursor) -> (res: Result<VersionControlInfo, DecodeError>) {
        proof {
            assert(VersionControlInfo::s_read(old(cursor)@) == s_read_vc_info(old(cursor)@));
        }
        let vc_day = match cursor.read_u8() {
            Ok(v) => v,
            Err(e) => {
                return Err(e);
            },
        };
        let vc_month = match cursor.read_u8() {
            Ok(v) => v,
            Err(e) => {
                return Err(e);
            },
        };
        let vc_previous_id = match cursor.read_u8() {
            Ok(v) => v,
            Err(e) => {
                return Err(e);
            },
        };
        let vc_current_id = match cursor.read_u8() {
            Ok(v) => v,
            Err(e) => {
                return Err(e);
            },
        };
        Ok(VersionControlInfo { vc_day, vc_month, vc_previous_id, vc_current_id })
    }
}

/// A 4-byte color.
#[derive(Debug, Clone, Copy, PartialEq, Eq, Structural)]
pub struct RGB {
    pub r: u8,
    pub g: u8,
    pub b: u8,
    pub a: u8,
}

impl View for RGB {
    type V = RGB;

    open spec fn view(&self) -> RGB {
        *self
    }
}

/// Mirror of the [`RGB`] decode: four raw bytes in field order.
#[verifier::inline]
pub open spec fn s_read_rgb(c: CursorModel) -> Decoded<RGB> {
    match s_read_u8(c) {
        Err(k) => Err(k),
        Ok((r, c1)) => match s_read_u8(c1) {
            Err(k) => Err(k),
            Ok((g, c2)) => match s_read_u8(c2) {
                Err(k) => Err(k),
                Ok((b, c3)) => match s_read_u8(c3) {
                    Err(k) => Err(k),
                    Ok((a, c4)) => Ok((RGB { r, g, b, a }, c4)),
                },
            },
        },
    }
}

impl Readable for RGB {
    open spec fn s_read(c: CursorModel) -> Decoded<RGB> {
        s_read_rgb(c)
    }

    proof fn s_read_progress(c: CursorModel) {
    }

    fn read(cursor: &mut Cursor) -> (res: Result<RGB, DecodeError>) {
        proof {
            assert(RGB::s_read(old(cursor)@) == s_read_rgb(old(cursor)@));
        }
        let r = match cursor.read_u8() {
            Ok(v) => v,
            Err(e) => {
                return Err(e);
            },
        };
        let g = match cursor.read_u8() {
            Ok(v) => v,
            Err(e) => {
                return Err(e);
            },
        };
        let b = match cursor.read_u8() {
            Ok(v) => v,
            Err(e) => {
                return Err(e);
            },
        };
        let a = match cursor.read_u8() {
            Ok(v) => v,
            Err(e) => {
                return Err(e);
            },
        };
        Ok(RGB { r, g, b, a })
    }
}

/// A null-terminated UTF-8 string: bytes up to a zero byte, the zero
/// byte stripped, the interior validated as UTF-8.
#[derive(Debug, Clone, PartialEq, Eq)]
pub struct ZString {
    pub value: String,
}

impl View for ZString {
    type V = Seq<char>;

    open spec fn view(&self) -> Seq<char> {
        self.value@
    }
}

/// Mirror of the [`ZString`] decode: the bytes before the first zero byte
/// decoded as UTF-8; an IO failure when no zero byte remains, a format
/// failure when the interior is not valid UTF-8.
#[verifier::inline]
pub open spec fn s_read_zstring(c: CursorModel) -> Decoded<Seq<char>> {
    match s_read_until_nul(c) {
        Ok((bytes, c2)) => {
            if valid_utf8(bytes) {
                Ok((decode_utf8(bytes), c2))
            } else {
                Err(DecodeErrorKind::InvalidData)
            }
        },
        Err(k) => Err(k),
    }
}

impl Readable for ZString {
    open spec fn s_read(c: CursorModel) -> Decoded<Seq<char>> {
        s_read_zstring(c)
    }

    proof fn s_read_progress(c: CursorModel) {
        assert(ZString::s_read(c) == s_read_zstring(c));
        lemma_first_nul(c.data, c.pos);
    }

    fn read(cursor: &mut Cursor) -> (r: Result<ZString, DecodeError>) {
        proof {
            assert(ZString::s_read(old(cursor)@) == s_read_zstring(old(cursor)@));
        }
        let bytes = match cursor.read_until_nul() {
            Ok(b) => b,
            Err(e) => {
                return Err(e);
            },
        };
        match bytes_to_string(bytes) {
            Some(s) => Ok(ZString { value: s }),
            None => Err(DecodeError::InvalidData(String::from_str("invalid ZString"))),
        }
    }
}

/// An index into the string table of a localized plugin.
#[derive(Debug, Clone, Copy, PartialEq, Eq, Structural)]
pub struct LString {
    pub index: u32,
}

impl View for LString {
    type V = LString;

    open spec fn view(&self) -> LString {
        *self
    }
}

/// Mirror of the [`LString`] decode: a little-endian `u32` index.
#[verifier::inline]
pub open spec fn s_read_lstring(c: CursorModel) -> Decoded<LString> {
    match s_read_le_u32(c) {
        Ok((v, c2)) => Ok((LString { index: v }, c2)),
        Err(k) => Err(k),
    }
}

impl Readable for LString {
    open spec fn s_read(c: CursorModel) -> Decoded<LString> {
        s_read_lstring(c)
    }

    proof fn s_read_progress(c: CursorModel) {
    }

    fn read(cursor: &mut Cursor) -> (r: Result<LString, DecodeError>) {
        proof {
            assert(LString::s_read(old(cursor)@) == s_read_lstring(old(cursor)@));
        }
        match cursor.read_le_u32() {
            Ok(v) => Ok(LString { index: v }),
            Err(e) => Err(e),
        }
    }
}

} // verus!
