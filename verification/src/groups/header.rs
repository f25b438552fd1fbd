//! The group header and the classification of group kinds.

use vstd::prelude::*;

use crate::cursor::{s_read_le_u32, Cursor, CursorModel, Decoded};
use crate::error::{DecodeError, DecodeErrorKind};
use crate::read::Readable;
use crate::types::{s_read_vc_info, VersionControlInfo};

verus! {

/// The classification of a group: one of the eleven kinds the format
/// defines, with `Unknown` as the fallback for any other value.
#[derive(Debug, Clone, Copy, PartialEq, Eq, Hash, Structural)]
pub enum GroupType {
    Top,
    WorldChildren,
    InteriorCellBlock,
    InteriorCellSubBlock,
    ExteriorCellBlock,
    ExteriorCellSubBlock,
    CellChildren,
    TopicChildren,
    CellPersistentChildren,
    CellTemporaryChildren,
    Unknown,
}

impl View for GroupType {
    type V = GroupType;

    open spec fn view(&self) -> GroupType {
        *self
    }
}

impl GroupType {
    /// Classification of the raw group-kind field.
    #[verifier::opaque]
    pub open spec fn spec_from_u32(n: u32) -> GroupType {
        if n == 0 {
            GroupType::Top
        } else if n == 1 {
            GroupType::WorldChildren
        } else if n == 2 {
            GroupType::InteriorCellBlock
        } else if n == 3 {
            GroupType::InteriorCellSubBlock
        } else if n == 4 {
            GroupType::ExteriorCellBlock
        } else if n == 5 {
            GroupType::ExteriorCellSubBlock
        } else if n == 6 {
            GroupType::CellChildren
        } else if n == 7 {
            GroupType::TopicChildren
        } else if n == 8 {
            GroupType::CellPersistentChildren
        } else if n == 9 {
            GroupType::CellTemporaryChildren
        } else {
            GroupType::Unknown
        }
    }

    /// Classify the raw group-kind field.
    pub fn from_u32(n: u32) -> (t: GroupType)
        ensures
            t == GroupType::spec_from_u32(n),
    {
        proof {
            reveal(GroupType::spec_from_u32);
        }
        if n == 0 {
            GroupType::Top
        } else if n == 1 {
            GroupType::WorldChildren
        } else if n == 2 {
            GroupType::InteriorCellBlock
        } else if n == 3 {
            GroupType::InteriorCellSubBlock
        } else if n == 4 {
            GroupType::ExteriorCellBlock
        } else if n == 5 {
            GroupType::ExteriorCellSubBlock
        } else if n == 6 {
            GroupType::CellChildren
        } else if n == 7 {
            GroupType::TopicChildren
        } else if n == 8 {
            GroupType::CellPersistentChildren
        } else if n == 9 {
            GroupType::CellTemporaryChildren
        } else {
            GroupType::Unknown
        }
    }

    /// The raw value of this kind; 10 for `Unknown`, as the format
    /// reserves that value.
    #[verifier::opaque]
    pub open spec fn spec_num(self) -> u32 {
        match self {
            GroupType::Top => 0,
            GroupType::WorldChildren => 1,
            GroupType::InteriorCellBlock => 2,
            GroupType::InteriorCellSubBlock => 3,
            GroupType::ExteriorCellBlock => 4,
            GroupType::ExteriorCellSubBlock => 5,
            GroupType::CellChildren => 6,
            GroupType::TopicChildren => 7,
            GroupType::CellPersistentChildren => 8,
            GroupType::CellTemporaryChildren => 9,
            GroupType::Unknown => 10,
        }
    }

    /// The raw value of this kind; 10 for `Unknown`.
    pub fn num(&self) -> (r: u32)
        ensures
            r == self.spec_num(),
    {
        proof {
            reveal(GroupType::spec_num);
        }
        match self {
            GroupType::Top => 0,
            GroupType::WorldChildren => 1,
            GroupType::InteriorCellBlock => 2,
            GroupType::InteriorCellSubBlock => 3,
            GroupType::ExteriorCellBlock => 4,
            GroupType::ExteriorCellSubBlock => 5,
            GroupType::CellChildren => 6,
            GroupType::TopicChildren => 7,
            GroupType::CellPersistentChildren => 8,
            GroupType::CellTemporaryChildren => 9,
            GroupType::Unknown => 10,
        }
    }
}

/// Mirror of the [`GroupType`] decode: a little-endian `u32`,
/// classified.
#[verifier::inline]
pub open spec fn s_read_group_type(c: CursorModel) -> Decoded<GroupType> {
    match s_read_le_u32(c) {
        Ok((n, c2)) => Ok((GroupType::spec_from_u32(n), c2)),
        Err(k) => Err(k),
    }
}

impl Readable for GroupType {
    open spec fn s_read(c: CursorModel) -> Decoded<GroupType> {
        s_read_group_type(c)
    }

    proof fn s_read_progress(c: CursorModel) {
    }

    fn read(cursor: &mut Cursor) -> (r: Result<GroupType, DecodeError>) {
        proof {
            assert(GroupType::s_read(old(cursor)@) == s_read_group_type(old(cursor)@));
        }
        match cursor.read_le_u32() {
            Ok(n) => Ok(GroupType::from_u32(n)),
            Err(e) => Err(e),
        }
    }
}

/// Header of a group: total byte length (including this 24-byte header
/// and the 4-byte tag read by the caller), a label (reinterpreted as a
/// record-kind tag for a top-level group), the group-kind
/// classification, version-control metadata, and an unused word.
#[derive(Debug, Clone, Copy, PartialEq, Eq, Structural)]
pub struct GroupHeader {
    pub size: u32,
    pub label: u32,
    pub group_type: GroupType,
    pub vc_info: VersionControlInfo,
    pub unknown: u32,
}

impl View for GroupHeader {
    type V = GroupHeader;

    open spec fn view(&self) -> GroupHeader {
        *self
    }
}

/// Mirror of the [`GroupHeader`] decode: size, label, group kind,
/// version-control word, unused word.
pub open spec fn s_read_group_header(c: CursorModel) -> Decoded<GroupHeader> {
    match s_read_le_u32(c) {
        Err(k) => Err(k),
        Ok((size, c1)) => match s_read_le_u32(c1) {
            Err(k) => Err(k),
            Ok((label, c2)) => match s_read_group_type(c2) {
                Err(k) => Err(k),
                Ok((group_type, c3)) => match s_read_vc_info(c3) {
                    Err(k) => Err(k),
                    Ok((vc_info, c4)) => match s_read_le_u32(c4) {
                        Err(k) => Err(k),
                        Ok(
                            (unknown, c5),
                        ) => Ok(
                            (GroupHeader { size, label, group_type, vc_info, unknown }, c5),
                        ),
                    },
                },
            },
        },
    }
}

impl Readable for GroupHeader {
    open spec fn s_read(c: CursorModel) -> Decoded<GroupHeader> {
        s_read_group_header(c)
    }

    proof fn s_read_progress(c: CursorModel) {
    }

    fn read(cursor: &mut Cursor) -> (r: Result<GroupHeader, DecodeError>) {
        proof {
            assert(GroupHeader::s_read(old(cursor)@) == s_read_group_header(old(cursor)@));
        }
        let size = match cursor.read_le_u32() {
            Ok(v) => v,
            Err(e) => {
                return Err(e);
            },
        };
        let label = match cursor.read_le_u32() {
            Ok(v) => v,
            Err(e) => {
                return Err(e);
            },
        };
        let group_type = match GroupType::read(cursor) {
            Ok(v) => v,
            Err(e) => {
                return Err(e);
            },
        };
        let vc_info = match VersionControlInfo::read(cursor) {
            Ok(v) => v,
            Err(e) => {
                return Err(e);
            },
        };
        let unknown = match cursor.read_le_u32() {
            Ok(v) => v,
            Err(e) => {
                return Err(e);
            },
        };
        Ok(GroupHeader { size, label, group_type, vc_info, unknown })
    }
}

} // verus!
