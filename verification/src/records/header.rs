//! The record header: payload length, kind-specific flags, form id,
//! version-control metadata, format version, and two unused bytes —
//! 20 bytes, after the 4-byte tag read by the caller.

use vstd::prelude::*;

use crate::cursor::{s_read_le_u16, s_read_le_u32, Cursor, CursorModel, Decoded};
use crate::error::DecodeError;
use crate::read::Readable;
use crate::types::{s_read_vc_info, VersionControlInfo};

verus! {

/// Header of a record, generic over the kind-specific flag set.
#[derive(Debug, Clone, Copy, PartialEq, Eq)]
pub struct RecordHeader<F> {
    /// Payload byte length; the record's dispatch loop consumes exactly
    /// this many bytes.
    pub size: u32,
    /// Kind-specific flag bit-set.
    pub flags: F,
    /// Form identifier: a cross-reference key; uniqueness is not
    /// enforced at this layer.
    pub id: u32,
    /// Version-control metadata, carried through uninterpreted.
    pub vc_info: VersionControlInfo,
    /// Format version.
    pub version: u16,
    /// Unused.
    pub unknown: u16,
}

/// View of a [`RecordHeader`], over the flag set's view.
pub struct RecordHeaderView<FV> {
    pub size: u32,
    pub flags: FV,
    pub id: u32,
    pub vc_info: VersionControlInfo,
    pub version: u16,
    pub unknown: u16,
}

impl<F: View> View for RecordHeader<F> {
    type V = RecordHeaderView<F::V>;

    open spec fn view(&self) -> RecordHeaderView<F::V> {
        RecordHeaderView {
            size: self.size,
            flags: self.flags@,
            id: self.id,
            vc_info: self.vc_info,
            version: self.version,
            unknown: self.unknown,
        }
    }
}

impl<F: Readable> Readable for RecordHeader<F> {
    open spec fn s_read(c: CursorModel) -> Decoded<RecordHeaderView<F::V>> {
        match s_read_le_u32(c) {
            Err(k) => Err(k),
            Ok((size, c1)) => match F::s_read(c1) {
                Err(k) => Err(k),
                Ok((flags, c2)) => match s_read_le_u32(c2) {
                    Err(k) => Err(k),
                    Ok((id, c3)) => match s_read_vc_info(c3) {
                        Err(k) => Err(k),
                        Ok((vc_info, c4)) => match s_read_le_u16(c4) {
                            Err(k) => Err(k),
                            Ok((version, c5)) => match s_read_le_u16(c5) {
                                Err(k) => Err(k),
                                Ok(
                                    (unknown, c6),
                                ) => Ok(
                                    (
                                        RecordHeaderView {
                                            size,
                                            flags,
                                            id,
                                            vc_info,
                                            version,
                                            unknown,
                                        },
                                        c6,
                                    ),
                                ),
                            },
                        },
                    },
                },
            },
        }
    }

    proof fn s_read_progress(c: CursorModel) {
        match s_read_le_u32(c) {
            Err(_) => {},
            Ok((size, c1)) => {
                F::s_read_progress(c1);
            },
        }
    }

    fn read(cursor: &mut Cursor) -> (r: Result<RecordHeader<F>, DecodeError>) {
        let size = match cursor.read_le_u32() {
            Ok(v) => v,
            Err(e) => {
                return Err(e);
            },
        };
        let flags = match F::read(cursor) {
            Ok(v) => v,
            Err(e) => {
                return Err(e);
            },
        };
        let id = match cursor.read_le_u32() {
            Ok(v) => v,
            Err(e) => {
                return Err(e);
            },
        };
        let vc_info = match VersionControlInfo::read(cursor) {
            Ok(v) => v,
            Err(e) => {
                return Err(e);
            },
        };
        let version = match cursor.read_le_u16() {
            Ok(v) => v,
            Err(e) => {
                return Err(e);
            },
        };
        let unknown = match cursor.read_le_u16() {
            Ok(v) => v,
            Err(e) => {
                return Err(e);
            },
        };
        Ok(RecordHeader { size, flags, id, vc_info, version, unknown })
    }
}

} // verus!
