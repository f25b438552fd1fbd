//! Subrecord payloads shared by several record kinds.

use vstd::prelude::*;

use crate::cursor::{Cursor, CursorModel, Decoded};
use crate::error::DecodeError;
use crate::read::Readable;
use crate::types::{s_read_rgb, s_read_zstring, ZString, RGB};

verus! {

/// Payload of an `EDID` subrecord: the editor id, a null-terminated
/// string.
#[derive(Debug, Clone, PartialEq, Eq)]
pub struct EDIDData {
    pub editor_id: ZString,
}

impl View for EDIDData {
    type V = Seq<char>;

    open spec fn view(&self) -> Seq<char> {
        self.editor_id@
    }
}

impl Readable for EDIDData {
    open spec fn s_read(c: CursorModel) -> Decoded<Seq<char>> {
        s_read_zstring(c)
    }

    proof fn s_read_progress(c: CursorModel) {
        ZString::s_read_progress(c);
    }

    fn read(cursor: &mut Cursor) -> (r: Result<EDIDData, DecodeError>) {
        proof {
            assert(EDIDData::s_read(old(cursor)@) == s_read_zstring(old(cursor)@));
        }
        match ZString::read(cursor) {
            Ok(editor_id) => Ok(EDIDData { editor_id }),
            Err(e) => Err(e),
        }
    }
}

/// Payload of a `CNAM` color subrecord: a 4-byte color.
#[derive(Debug, Clone, Copy, PartialEq, Eq, Structural)]
pub struct CNAMData {
    pub rgb: RGB,
}

impl View for CNAMData {
    type V = RGB;

    open spec fn view(&self) -> RGB {
        self.rgb
    }
}

impl Readable for CNAMData {
    open spec fn s_read(c: CursorModel) -> Decoded<RGB> {
        s_read_rgb(c)
    }

    proof fn s_read_progress(c: CursorModel) {
    }

    fn read(cursor: &mut Cursor) -> (r: Result<CNAMData, DecodeError>) {
        match RGB::read(cursor) {
            Ok(rgb) => Ok(CNAMData { rgb }),
            Err(e) => Err(e),
        }
    }
}

} // verus!
