//! The game-setting record kind ("GMST"): an editor id and a variant
//! value cell.

use vstd::prelude::*;
use vstd::string::StringExecFns;

use crate::cursor::{clamp0, Cursor, CursorModel, Decoded};
use crate::error::{DecodeError, DecodeErrorKind};
use crate::read::{opt_view, Readable};
use crate::records::record::{Record, RecordFlags};
use crate::subrecords::common::EDIDData;
use crate::subrecords::subrecord::{s_read_subrecord_type, Subrecord, SubrecordType, SubrecordView};
use crate::types::{s_read_variant_bytes, VariantBytes};

verus! {

pub type GMSTRecord = Record<RecordFlags, GMSTData>;

pub type EDIDSubrecord = Subrecord<EDIDData>;

pub type DATASubrecord = Subrecord<DATAData>;

/// Payload of a `DATA` subrecord of a game setting: a variant cell
/// whose interpretation (boolean, integer, localized string) depends on
/// the prefix of the setting's editor id.
#[derive(Debug, Clone, Copy, PartialEq, Eq, Structural)]
pub struct DATAData {
    pub color: VariantBytes,
}

impl View for DATAData {
    type V = u32;

    open spec fn view(&self) -> u32 {
        self.color@
    }
}

impl Readable for DATAData {
    open spec fn s_read(c: CursorModel) -> Decoded<u32> {
        s_read_variant_bytes(c)
    }

    proof fn s_read_progress(c: CursorModel) {
    }

    fn read(cursor: &mut Cursor) -> (r: Result<DATAData, DecodeError>) {
        proof {
            assert(DATAData::s_read(old(cursor)@) == s_read_variant_bytes(old(cursor)@));
        }
        match VariantBytes::read(cursor) {
            Ok(color) => Ok(DATAData { color }),
            Err(e) => Err(e),
        }
    }
}

/// Payload of a GMST record: each known subrecord kind appears at
/// most once, stored in an optional slot. The policy for unrecognized
/// subrecord kinds is strict: one fails the decode.
#[derive(Debug, Clone, PartialEq, Eq)]
pub struct GMSTData {
    pub edid: Option<EDIDSubrecord>,
    pub data: Option<DATASubrecord>,
}

/// View of a [`GMSTData`].
pub struct GMSTDataView {
    pub edid: Option<SubrecordView<Seq<char>>>,
    pub data: Option<SubrecordView<u32>>,
}

impl GMSTDataView {
    /// The state of the slots before the dispatch loop runs.
    pub open spec fn empty() -> GMSTDataView {
        GMSTDataView { edid: None, data: None }
    }
}

impl View for GMSTData {
    type V = GMSTDataView;

    open spec fn view(&self) -> GMSTDataView {
        GMSTDataView { edid: opt_view(self.edid), data: opt_view(self.data) }
    }
}

impl GMSTData {
    /// Mirror of the dispatch loop of [`GMSTData::read`]: while the
    /// record budget is positive, classify a subrecord tag and decode
    /// into the matching slot; an unrecognized kind fails.
    pub open spec fn s_read_fields(c: CursorModel, acc: GMSTDataView) -> Decoded<GMSTDataView>
        decreases clamp0(c.record_left),
        when 0 <= c.pos <= c.data.len()
    {
        if c.record_left <= 0 {
            Ok((acc, c))
        } else {
            match s_read_subrecord_type(c) {
                Err(k) => Err(k),
                Ok((t, c1)) => match t {
                    SubrecordType::EDID => match EDIDSubrecord::s_read(c1) {
                        Err(k) => Err(k),
                        Ok((sr, c2)) => {
                            proof {
                                EDIDSubrecord::s_read_progress(c1);
                            }
                            Self::s_read_fields(c2, GMSTDataView { edid: Some(sr), ..acc })
                        },
                    },
                    SubrecordType::DATA => match DATASubrecord::s_read(c1) {
                        Err(k) => Err(k),
                        Ok((sr, c2)) => {
                            proof {
                                DATASubrecord::s_read_progress(c1);
                            }
                            Self::s_read_fields(c2, GMSTDataView { data: Some(sr), ..acc })
                        },
                    },
                    _ => Err(DecodeErrorKind::InvalidData),
                },
            }
        }
    }

    /// On success the dispatch loop moves the position forward inside
    /// the buffer and moves the group and record budgets in lockstep
    /// with it.
    pub proof fn s_read_fields_progress(c: CursorModel, acc: GMSTDataView)
        requires
            0 <= c.pos <= c.data.len(),
        ensures
            Self::s_read_fields(c, acc) matches Ok((v, c2)) ==> {
                &&& c.pos <= c2.pos <= c.data.len()
                &&& c2.data == c.data
                &&& c2.group_left == c.group_left - (c2.pos - c.pos)
                &&& c2.record_left == c.record_left - (c2.pos - c.pos)
            },
        decreases clamp0(c.record_left),
    {
        if c.record_left > 0 {
            match s_read_subrecord_type(c) {
                Err(_) => {},
                Ok((t, c1)) => match t {
                    SubrecordType::EDID => match EDIDSubrecord::s_read(c1) {
                        Err(_) => {},
                        Ok((sr, c2)) => {
                            EDIDSubrecord::s_read_progress(c1);
                            Self::s_read_fields_progress(
                                c2,
                                GMSTDataView { edid: Some(sr), ..acc },
                            );
                        },
                    },
                    SubrecordType::DATA => match DATASubrecord::s_read(c1) {
                        Err(_) => {},
                        Ok((sr, c2)) => {
                            DATASubrecord::s_read_progress(c1);
                            Self::s_read_fields_progress(
                                c2,
                                GMSTDataView { data: Some(sr), ..acc },
                            );
                        },
                    },
                    _ => {},
                },
            }
        }
    }
}

impl Readable for GMSTData {
    open spec fn s_read(c: CursorModel) -> Decoded<GMSTDataView> {
        GMSTData::s_read_fields(c, GMSTDataView::empty())
    }

    proof fn s_read_progress(c: CursorModel) {
        GMSTData::s_read_fields_progress(c, GMSTDataView::empty());
    }

    #[verifier::loop_isolation(false)]
    fn read(cursor: &mut Cursor) -> (r: Result<GMSTData, DecodeError>) {
        proof {
            assert(GMSTData::s_read(old(cursor)@) == GMSTData::s_read_fields(
                old(cursor)@,
                GMSTDataView::empty(),
            ));
        }
        let ghost c0 = cursor@;
        let mut rec = GMSTData { edid: None, data: None };
        while cursor.record_remaining() > 0
            invariant
                cursor@.wf(),
                GMSTData::s_read_fields(c0, GMSTDataView::empty()) == GMSTData::s_read_fields(
                    cursor@,
                    rec@,
                ),
            decreases clamp0(cursor@.record_left),
        {
            let t = match cursor.read_subrecord_type() {
                Ok(t) => t,
                Err(e) => {
                    return Err(e);
                },
            };
            let ghost c_mid = cursor@;
            match t {
                SubrecordType::EDID => {
                    match EDIDSubrecord::read(cursor) {
                        Ok(sr) => {
                            rec.edid = Some(sr);
                        },
                        Err(e) => {
                            return Err(e);
                        },
                    }
                    proof {
                        EDIDSubrecord::s_read_progress(c_mid);
                    }
                },
                SubrecordType::DATA => {
                    match DATASubrecord::read(cursor) {
                        Ok(sr) => {
                            rec.data = Some(sr);
                        },
                        Err(e) => {
                            return Err(e);
                        },
                    }
                    proof {
                        DATASubrecord::s_read_progress(c_mid);
                    }
                },
                _ => {
                    return Err(
                        DecodeError::InvalidData(
                            String::from_str("unexpected subrecord kind in a GMST record"),
                        ),
                    );
                },
            }
        }
        Ok(rec)
    }
}

} // verus!
