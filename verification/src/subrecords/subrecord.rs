//! Subrecord kinds and the generic subrecord container.

use vstd::prelude::*;

use crate::cursor::{decoded_as, s_read_tag, Cursor, CursorModel, Decoded};
use crate::error::DecodeError;
use crate::read::Readable;
use crate::subrecords::header::{s_read_subrecord_header, SubrecordHeader};

verus! {

/// The closed classification of subrecord type tags, with an explicit
/// fallback for unrecognized codes: an unknown code must never abort
/// decoding by itself, only structural violations do.
#[derive(Debug, Clone, Copy, PartialEq, Eq, Hash, Structural)]
pub enum SubrecordType {
    HEDR,
    CNAM,
    SNAM,
    MAST,
    DATA,
    ONAM,
    INTV,
    INCC,
    EDID,
    OBND,
    TX00,
    TX01,
    TX02,
    TX03,
    TX04,
    TX05,
    TX06,
    TX07,
    DODT,
    DNAM,
    FNAM,
    FLTV,
    FULL,
    DESC,
    ICON,
    Unknown,
}

impl View for SubrecordType {
    type V = SubrecordType;

    open spec fn view(&self) -> SubrecordType {
        *self
    }
}

impl SubrecordType {
    /// Classification of a raw big-endian tag code.
    #[verifier::opaque]
    pub open spec fn spec_from_u32(code: u32) -> SubrecordType {
        if code == 0x4845_4452 {
            SubrecordType::HEDR
        } else if code == 0x434E_414D {
            SubrecordType::CNAM
        } else if code == 0x534E_414D {
            SubrecordType::SNAM
        } else if code == 0x4D41_5354 {
            SubrecordType::MAST
        } else if code == 0x4441_5441 {
            SubrecordType::DATA
        } else if code == 0x4F4E_414D {
            SubrecordType::ONAM
        } else if code == 0x494E_5456 {
            SubrecordType::INTV
        } else if code == 0x494E_4343 {
            SubrecordType::INCC
        } else if code == 0x4544_4944 {
            SubrecordType::EDID
        } else if code == 0x4F42_4E44 {
            SubrecordType::OBND
        } else if code == 0x5458_3030 {
            SubrecordType::TX00
        } else if code == 0x5458_3031 {
            SubrecordType::TX01
        } else if code == 0x5458_3032 {
            SubrecordType::TX02
        } else if code == 0x5458_3033 {
            SubrecordType::TX03
        } else if code == 0x5458_3034 {
            SubrecordType::TX04
        } else if code == 0x5458_3035 {
            SubrecordType::TX05
        } else if code == 0x5458_3036 {
            SubrecordType::TX06
        } else if code == 0x5458_3037 {
            SubrecordType::TX07
        } else if code == 0x444F_4454 {
            SubrecordType::DODT
        } else if code == 0x444E_414D {
            SubrecordType::DNAM
        } else if code == 0x464E_414D {
            SubrecordType::FNAM
        } else if code == 0x464C_5456 {
            SubrecordType::FLTV
        } else if code == 0x4655_4C4C {
            SubrecordType::FULL
        } else if code == 0x4445_5343 {
            SubrecordType::DESC
        } else if code == 0x4943_4F4E {
            SubrecordType::ICON
        } else {
            SubrecordType::Unknown
        }
    }

    /// Classify a raw big-endian tag code.
    pub fn from_u32(code: u32) -> (t: SubrecordType)
        ensures
            t == SubrecordType::spec_from_u32(code),
    {
        proof {
            reveal(SubrecordType::spec_from_u32);
        }
        if code == 0x4845_4452 {
            SubrecordType::HEDR
        } else if code == 0x434E_414D {
            SubrecordType::CNAM
        } else if code == 0x534E_414D {
            SubrecordType::SNAM
        } else if code == 0x4D41_5354 {
            SubrecordType::MAST
        } else if code == 0x4441_5441 {
            SubrecordType::DATA
        } else if code == 0x4F4E_414D {
            SubrecordType::ONAM
        } else if code == 0x494E_5456 {
            SubrecordType::INTV
        } else if code == 0x494E_4343 {
            SubrecordType::INCC
        } else if code == 0x4544_4944 {
            SubrecordType::EDID
        } else if code == 0x4F42_4E44 {
            SubrecordType::OBND
        } else if code == 0x5458_3030 {
            SubrecordType::TX00
        } else if code == 0x5458_3031 {
            SubrecordType::TX01
        } else if code == 0x5458_3032 {
            SubrecordType::TX02
        } else if code == 0x5458_3033 {
            SubrecordType::TX03
        } else if code == 0x5458_3034 {
            SubrecordType::TX04
        } else if code == 0x5458_3035 {
            SubrecordType::TX05
        } else if code == 0x5458_3036 {
            SubrecordType::TX06
        } else if code == 0x5458_3037 {
            SubrecordType::TX07
        } else if code == 0x444F_4454 {
            SubrecordType::DODT
        } else if code == 0x444E_414D {
            SubrecordType::DNAM
        } else if code == 0x464E_414D {
            SubrecordType::FNAM
        } else if code == 0x464C_5456 {
            SubrecordType::FLTV
        } else if code == 0x4655_4C4C {
            SubrecordType::FULL
        } else if code == 0x4445_5343 {
            SubrecordType::DESC
        } else if code == 0x4943_4F4E {
            SubrecordType::ICON
        } else {
            SubrecordType::Unknown
        }
    }

    /// The raw big-endian tag code of this kind; 0 for `Unknown`.
    #[verifier::opaque]
    pub open spec fn spec_num(self) -> u32 {
        match self {
            SubrecordType::HEDR => 0x4845_4452,
            SubrecordType::CNAM => 0x434E_414D,
            SubrecordType::SNAM => 0x534E_414D,
            SubrecordType::MAST => 0x4D41_5354,
            SubrecordType::DATA => 0x4441_5441,
            SubrecordType::ONAM => 0x4F4E_414D,
            SubrecordType::INTV => 0x494E_5456,
            SubrecordType::INCC => 0x494E_4343,
            SubrecordType::EDID => 0x4544_4944,
            SubrecordType::OBND => 0x4F42_4E44,
            SubrecordType::TX00 => 0x5458_3030,
            SubrecordType::TX01 => 0x5458_3031,
            SubrecordType::TX02 => 0x5458_3032,
            SubrecordType::TX03 => 0x5458_3033,
            SubrecordType::TX04 => 0x5458_3034,
            SubrecordType::TX05 => 0x5458_3035,
            SubrecordType::TX06 => 0x5458_3036,
            SubrecordType::TX07 => 0x5458_3037,
            SubrecordType::DODT => 0x444F_4454,
            SubrecordType::DNAM => 0x444E_414D,
            SubrecordType::FNAM => 0x464E_414D,
            SubrecordType::FLTV => 0x464C_5456,
            SubrecordType::FULL => 0x4655_4C4C,
            SubrecordType::DESC => 0x4445_5343,
            SubrecordType::ICON => 0x4943_4F4E,
            SubrecordType::Unknown => 0,
        }
    }

    /// The raw big-endian tag code of this kind; 0 for `Unknown`.
    pub fn num(&self) -> (r: u32)
        ensures
            r == self.spec_num(),
    {
        proof {
            reveal(SubrecordType::spec_num);
        }
        match self {
            SubrecordType::HEDR => 0x4845_4452,
            SubrecordType::CNAM => 0x434E_414D,
            SubrecordType::SNAM => 0x534E_414D,
            SubrecordType::MAST => 0x4D41_5354,
            SubrecordType::DATA => 0x4441_5441,
            SubrecordType::ONAM => 0x4F4E_414D,
            SubrecordType::INTV => 0x494E_5456,
            SubrecordType::INCC => 0x494E_4343,
            SubrecordType::EDID => 0x4544_4944,
            SubrecordType::OBND => 0x4F42_4E44,
            SubrecordType::TX00 => 0x5458_3030,
            SubrecordType::TX01 => 0x5458_3031,
            SubrecordType::TX02 => 0x5458_3032,
            SubrecordType::TX03 => 0x5458_3033,
            SubrecordType::TX04 => 0x5458_3034,
            SubrecordType::TX05 => 0x5458_3035,
            SubrecordType::TX06 => 0x5458_3036,
            SubrecordType::TX07 => 0x5458_3037,
            SubrecordType::DODT => 0x444F_4454,
            SubrecordType::DNAM => 0x444E_414D,
            SubrecordType::FNAM => 0x464E_414D,
            SubrecordType::FLTV => 0x464C_5456,
            SubrecordType::FULL => 0x4655_4C4C,
            SubrecordType::DESC => 0x4445_5343,
            SubrecordType::ICON => 0x4943_4F4E,
            SubrecordType::Unknown => 0,
        }
    }
}

/// Mirror of [`Cursor::read_subrecord_type`]: a big-endian tag,
/// classified.
pub open spec fn s_read_subrecord_type(c: CursorModel) -> Decoded<SubrecordType> {
    match s_read_tag(c) {
        Ok((code, c2)) => Ok((SubrecordType::spec_from_u32(code), c2)),
        Err(k) => Err(k),
    }
}

impl Cursor {
    /// Read a 4-byte big-endian tag and classify it as a subrecord kind.
    pub fn read_subrecord_type(&mut self) -> (r: Result<SubrecordType, DecodeError>)
        requires
            old(self)@.wf(),
        ensures
            final(self)@.wf(),
            decoded_as(s_read_subrecord_type(old(self)@), r, final(self)@),
    {
        match self.read_tag() {
            Ok(code) => Ok(SubrecordType::from_u32(code)),
            Err(e) => Err(e),
        }
    }
}

/// A subrecord: its header and its typed payload. Decoding opens a new
/// subrecord byte-budget scope from the header's declared length before
/// decoding the payload.
///
/// The subrecord budget is trusted to be exactly consumed by the
/// payload's decode; this layer performs no post-hoc length check.
#[derive(Debug, Clone, PartialEq, Eq)]
pub struct Subrecord<Data> {
    pub header: SubrecordHeader,
    pub data: Data,
}

/// View of a [`Subrecord`]: the declared size and the payload's view.
pub struct SubrecordView<DV> {
    pub size: u16,
    pub data: DV,
}

impl<Data: View> View for Subrecord<Data> {
    type V = SubrecordView<Data::V>;

    open spec fn view(&self) -> SubrecordView<Data::V> {
        SubrecordView { size: self.header.size, data: self.data@ }
    }
}

impl<Data: Readable> Readable for Subrecord<Data> {
    open spec fn s_read(c: CursorModel) -> Decoded<SubrecordView<Data::V>> {
        match s_read_subrecord_header(c) {
            Ok((h, c1)) => match Data::s_read(c1.entered_subrecord(h.size)) {
                Ok((d, c2)) => Ok((SubrecordView { size: h.size, data: d }, c2)),
                Err(k) => Err(k),
            },
            Err(k) => Err(k),
        }
    }

    proof fn s_read_progress(c: CursorModel) {
        match s_read_subrecord_header(c) {
            Ok((h, c1)) => {
                Data::s_read_progress(c1.entered_subrecord(h.size));
            },
            Err(_) => {},
        }
    }

    fn read(cursor: &mut Cursor) -> (r: Result<Subrecord<Data>, DecodeError>) {
        let header = match SubrecordHeader::read(cursor) {
            Ok(h) => h,
            Err(e) => {
                return Err(e);
            },
        };
        cursor.enter_subrecord(header.size);
        let data = match Data::read(cursor) {
            Ok(d) => d,
            Err(e) => {
                return Err(e);
            },
        };
        Ok(Subrecord { header, data })
    }
}

} // verus!
