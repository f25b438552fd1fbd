//! The global-variable record kind ("GLOB"): an editor id, a type
//! character, and a value.

use vstd::prelude::*;
use vstd::string::StringExecFns;

use crate::cursor::{clamp0, s_read_le_u32, Cursor, CursorModel, Decoded};
use crate::error::{DecodeError, DecodeErrorKind};
use crate::read::{opt_view, s_read_char, Readable};
use crate::records::record::{Record, RecordFlags};
use crate::subrecords::common::EDIDData;
use crate::subrecords::subrecord::{s_read_subrecord_type, Subrecord, SubrecordType, SubrecordView};

verus! {

pub type GLOBRecord = Record<RecordFlags, GLOBData>;

pub type EDIDSubrecord = Subrecord<EDIDData>;

pub type FNAMSubrecord = Subrecord<FNAMData>;

pub type FLTVSubrecord = Subrecord<FLTVData>;

/// Payload of an `FNAM` subrecord of a global: the type character of
/// the variable ('s', 'l' or 'f').
#[derive(Debug, Clone, Copy, PartialEq, Eq, Structural)]
pub struct FNAMData {
    pub ty: char,
}

impl View for FNAMData {
    type V = char;

    open spec fn view(&self) -> char {
        self.ty
    }
}

impl Readable for FNAMData {
    open spec fn s_read(c: CursorModel) -> Decoded<char> {
        s_read_char(c)
    }

    proof fn s_read_progress(c: CursorModel) {
    }

    fn read(cursor: &mut Cursor) -> (r: Result<FNAMData, DecodeError>) {
        proof {
            assert(FNAMData::s_read(old(cursor)@) == s_read_char(old(cursor)@));
        }
        match char::read(cursor) {
            Ok(ty) => Ok(FNAMData { ty }),
            Err(e) => Err(e),
        }
    }
}

/// Payload of an `FLTV` subrecord of a global: the value, kept as the
/// raw bits of the 32-bit float the format stores.
#[derive(Debug, Clone, Copy, PartialEq, Eq, Structural)]
pub struct FLTVData {
    /// Raw bits of the little-endian 32-bit float value field; the
    /// decoder carries them through uninterpreted.
    pub value_bits: u32,
}

impl View for FLTVData {
    type V = FLTVData;

    open spec fn view(&self) -> FLTVData {
        *self
    }
}

/// Mirror of the [`FLTVData`] decode.
#[verifier::inline]
pub open spec fn s_read_fltv(c: CursorModel) -> Decoded<FLTVData> {
    match s_read_le_u32(c) {
        Ok((value_bits, c2)) => Ok((FLTVData { value_bits }, c2)),
        Err(k) => Err(k),
    }
}

impl Readable for FLTVData {
    open spec fn s_read(c: CursorModel) -> Decoded<FLTVData> {
        s_read_fltv(c)
    }

    proof fn s_read_progress(c: CursorModel) {
    }

    fn read(cursor: &mut Cursor) -> (r: Result<FLTVData, DecodeError>) {
        proof {
            assert(FLTVData::s_read(old(cursor)@) == s_read_fltv(old(cursor)@));
        }
        match cursor.read_le_u32() {
            Ok(value_bits) => Ok(FLTVData { value_bits }),
            Err(e) => Err(e),
        }
    }
}

/// Payload of a GLOB record: each known subrecord kind appears at
/// most once, stored in an optional slot. The policy for unrecognized
/// subrecord kinds is strict: one fails the decode.
#[derive(Debug, Clone, PartialEq, Eq)]
pub struct GLOBData {
    pub edid: Option<EDIDSubrecord>,
    pub fnam: Option<FNAMSubrecord>,
    pub fltv: Option<FLTVSubrecord>,
}

/// View of a [`GLOBData`].
pub struct GLOBDataView {
    pub edid: Option<SubrecordView<Seq<char>>>,
    pub fnam: Option<SubrecordView<char>>,
    pub fltv: Option<SubrecordView<FLTVData>>,
}

impl GLOBDataView {
    /// The state of the slots before the dispatch loop runs.
    pub open spec fn empty() -> GLOBDataView {
        GLOBDataView {
            edid: None,
            fnam: None,
            fltv: None,
        }
    }
}

impl View for GLOBData {
    type V = GLOBDataView;

    open spec fn view(&self) -> GLOBDataView {
        GLOBDataView {
            edid: opt_view(self.edid),
            fnam: opt_view(self.fnam),
            fltv: opt_view(self.fltv),
        }
    }
}

impl GLOBData {
    /// Mirror of the dispatch loop of [`GLOBData::read`]: while the
    /// record budget is positive, classify a subrecord tag and decode
    /// into the matching slot; an unrecognized kind fails.
    pub open spec fn s_read_fields(c: CursorModel, acc: GLOBDataView) -> Decoded<GLOBDataView>
        decreases clamp0(c.record_left),
        when 0 <= c.pos <= c.data.len()
    {
        if c.record_left <= 0 {
            Ok((acc, c))
        } else {
            match s_read_subrecord_type(c) {
                Err(k) => Err(k),
                Ok((t, c1)) => match t {
                    SubrecordType::EDID => match EDIDSubrecord::s_read(c1) {
                        Err(k) => Err(k),
                        Ok((sr, c2)) => {
                            proof {
                                EDIDSubrecord::s_read_progress(c1);
                            }
                            Self::s_read_fields(c2, GLOBDataView { edid: Some(sr), ..acc })
                        },
                    },
                    SubrecordType::FNAM => match FNAMSubrecord::s_read(c1) {
                        Err(k) => Err(k),
                        Ok((sr, c2)) => {
                            proof {
                                FNAMSubrecord::s_read_progress(c1);
                            }
                            Self::s_read_fields(c2, GLOBDataView { fnam: Some(sr), ..acc })
                        },
                    },
                    SubrecordType::FLTV => match FLTVSubrecord::s_read(c1) {
                        Err(k) => Err(k),
                        Ok((sr, c2)) => {
                            proof {
                                FLTVSubrecord::s_read_progress(c1);
                            }
                            Self::s_read_fields(c2, GLOBDataView { fltv: Some(sr), ..acc })
                        },
                    },
                    _ => Err(DecodeErrorKind::InvalidData),
                },
            }
        }
    }

    /// On success the dispatch loop moves the position forward inside
    /// the buffer and moves the group and record budgets in lockstep
    /// with it.
    pub proof fn s_read_fields_progress(c: CursorModel, acc: GLOBDataView)
        requires
            0 <= c.pos <= c.data.len(),
        ensures
            Self::s_read_fields(c, acc) matches Ok((v, c2)) ==> {
                &&& c.pos <= c2.pos <= c.data.len()
                &&& c2.data == c.data
                &&& c2.group_left == c.group_left - (c2.pos - c.pos)
                &&& c2.record_left == c.record_left - (c2.pos - c.pos)
            },
        decreases clamp0(c.record_left),
    {
        if c.record_left > 0 {
            match s_read_subrecord_type(c) {
                Err(_) => {},
                Ok((t, c1)) => match t {
                    SubrecordType::EDID => match EDIDSubrecord::s_read(c1) {
                        Err(_) => {},
                        Ok((sr, c2)) => {
                            EDIDSubrecord::s_read_progress(c1);
                            Self::s_read_fields_progress(
                                c2,
                                GLOBDataView { edid: Some(sr), ..acc },
                            );
                        },
                    },
                    SubrecordType::FNAM => match FNAMSubrecord::s_read(c1) {
                        Err(_) => {},
                        Ok((sr, c2)) => {
                            FNAMSubrecord::s_read_progress(c1);
                            Self::s_read_fields_progress(
                                c2,
                                GLOBDataView { fnam: Some(sr), ..acc },
                            );
                        },
                    },
                    SubrecordType::FLTV => match FLTVSubrecord::s_read(c1) {
                        Err(_) => {},
                        Ok((sr, c2)) => {
                            FLTVSubrecord::s_read_progress(c1);
                            Self::s_read_fields_progress(
                                c2,
                                GLOBDataView { fltv: Some(sr), ..acc },
                            );
                        },
                    },
                    _ => {},
                },
            }
        }
    }
}

impl Readable for GLOBData {
    open spec fn s_read(c: CursorModel) -> Decoded<GLOBDataView> {
        GLOBData::s_read_fields(c, GLOBDataView::empty())
    }

    proof fn s_read_progress(c: CursorModel) {
        GLOBData::s_read_fields_progress(c, GLOBDataView::empty());
    }

    #[verifier::loop_isolation(false)]
    fn read(cursor: &mut Cursor) -> (r: Result<GLOBData, DecodeError>) {
        proof {
            assert(GLOBData::s_read(old(cursor)@) == GLOBData::s_read_fields(
                old(cursor)@,
                GLOBDataView::empty(),
            ));
        }
        let ghost c0 = cursor@;
        let mut rec = GLOBData {
            edid: None,
            fnam: None,
            fltv: None,
        };
        while cursor.record_remaining() > 0
            invariant
                cursor@.wf(),
                GLOBData::s_read_fields(c0, GLOBDataView::empty()) == GLOBData::s_read_fields(
                    cursor@,
                    rec@,
                ),
            decreases clamp0(cursor@.record_left),
        {
            let t = match cursor.read_subrecord_type() {
                Ok(t) => t,
                Err(e) => {
                    return Err(e);
                },
            };
            let ghost c_mid = cursor@;
            match t {
                SubrecordType::EDID => {
                    match EDIDSubrecord::read(cursor) {
                        Ok(sr) => {
                            rec.edid = Some(sr);
                        },
                        Err(e) => {
                            return Err(e);
                        },
                    }
                    proof {
                        EDIDSubrecord::s_read_progress(c_mid);
                    }
                },
                SubrecordType::FNAM => {
                    match FNAMSubrecord::read(cursor) {
                        Ok(sr) => {
                            rec.fnam = Some(sr);
                        },
                        Err(e) => {
                            return Err(e);
                        },
                    }
                    proof {
                        FNAMSubrecord::s_read_progress(c_mid);
                    }
                },
                SubrecordType::FLTV => {
                    match FLTVSubrecord::read(cursor) {
                        Ok(sr) => {
                            rec.fltv = Some(sr);
                        },
                        Err(e) => {
                            return Err(e);
                        },
                    }
                    proof {
                        FLTVSubrecord::s_read_progress(c_mid);
                    }
                },
                _ => {
                    return Err(
                        DecodeError::InvalidData(
                            String::from_str("unexpected subrecord kind in a GLOB record"),
                        ),
                    );
                },
            }
        }
        Ok(rec)
    }
}

} // verus!
