//! The keyword record kind ("KYWD"): an editor id and an optional
//! color.

use vstd::prelude::*;
use vstd::string::StringExecFns;

use crate::cursor::{clamp0, decoded_as, Cursor, CursorModel, Decoded};
use crate::error::{DecodeError, DecodeErrorKind};
use crate::read::{opt_view, Readable};
use crate::records::record::{Record, RecordFlags};
use crate::subrecords::common::{CNAMData, EDIDData};
use crate::subrecords::subrecord::{s_read_subrecord_type, Subrecord, SubrecordType, SubrecordView};
use crate::types::RGB;

verus! {

pub type KYWDRecord = Record<RecordFlags, KYWDData>;

pub type EDIDSubrecord = Subrecord<EDIDData>;

pub type CNAMSubrecord = Subrecord<CNAMData>;

/// Payload of a keyword record: each known subrecord kind appears at
/// most once, stored in an optional slot. The policy for unrecognized
/// subrecord kinds is strict: one fails the decode.
#[derive(Debug, Clone, PartialEq, Eq)]
pub struct KYWDData {
    pub edid: Option<EDIDSubrecord>,
    pub cnam: Option<CNAMSubrecord>,
}

/// View of a [`KYWDData`].
pub struct KYWDDataView {
    pub edid: Option<SubrecordView<Seq<char>>>,
    pub cnam: Option<SubrecordView<RGB>>,
}

impl KYWDDataView {
    /// The state of the slots before the dispatch loop runs.
    pub open spec fn empty() -> KYWDDataView {
        KYWDDataView { edid: None, cnam: None }
    }
}

impl View for KYWDData {
    type V = KYWDDataView;

    open spec fn view(&self) -> KYWDDataView {
        KYWDDataView { edid: opt_view(self.edid), cnam: opt_view(self.cnam) }
    }
}

impl KYWDData {
    /// Mirror of the dispatch loop of [`KYWDData::read`]: while the
    /// record budget is positive, classify a subrecord tag and decode
    /// into the matching slot; an unrecognized kind fails.
    pub open spec fn s_read_fields(c: CursorModel, acc: KYWDDataView) -> Decoded<KYWDDataView>
        decreases clamp0(c.record_left),
        when 0 <= c.pos <= c.data.len()
    {
        if c.record_left <= 0 {
            Ok((acc, c))
        } else {
            match s_read_subrecord_type(c) {
                Err(k) => Err(k),
                Ok((t, c1)) => match t {
                    SubrecordType::EDID => match EDIDSubrecord::s_read(c1) {
                        Err(k) => Err(k),
                        Ok((sr, c2)) => {
                            proof {
                                EDIDSubrecord::s_read_progress(c1);
                            }
                            Self::s_read_fields(c2, KYWDDataView { edid: Some(sr), ..acc })
                        },
                    },
                    SubrecordType::CNAM => match CNAMSubrecord::s_read(c1) {
                        Err(k) => Err(k),
                        Ok((sr, c2)) => {
                            proof {
                                CNAMSubrecord::s_read_progress(c1);
                            }
                            Self::s_read_fields(c2, KYWDDataView { cnam: Some(sr), ..acc })
                        },
                    },
                    _ => Err(DecodeErrorKind::InvalidData),
                },
            }
        }
    }

    /// On success the dispatch loop moves the position forward inside
    /// the buffer and moves the group and record budgets in lockstep
    /// with it.
    pub proof fn s_read_fields_progress(c: CursorModel, acc: KYWDDataView)
        requires
            0 <= c.pos <= c.data.len(),
        ensures
            Self::s_read_fields(c, acc) matches Ok((v, c2)) ==> {
                &&& c.pos <= c2.pos <= c.data.len()
                &&& c2.data == c.data
                &&& c2.group_left == c.group_left - (c2.pos - c.pos)
                &&& c2.record_left == c.record_left - (c2.pos - c.pos)
            },
        decreases clamp0(c.record_left),
    {
        if c.record_left > 0 {
            match s_read_subrecord_type(c) {
                Err(_) => {},
                Ok((t, c1)) => match t {
                    SubrecordType::EDID => match EDIDSubrecord::s_read(c1) {
                        Err(_) => {},
                        Ok((sr, c2)) => {
                            EDIDSubrecord::s_read_progress(c1);
                            Self::s_read_fields_progress(
                                c2,
                                KYWDDataView { edid: Some(sr), ..acc },
                            );
                        },
                    },
                    SubrecordType::CNAM => match CNAMSubrecord::s_read(c1) {
                        Err(_) => {},
                        Ok((sr, c2)) => {
                            CNAMSubrecord::s_read_progress(c1);
                            Self::s_read_fields_progress(
                                c2,
                                KYWDDataView { cnam: Some(sr), ..acc },
                            );
                        },
                    },
                    _ => {},
                },
            }
        }
    }
}

impl Readable for KYWDData {
    open spec fn s_read(c: CursorModel) -> Decoded<KYWDDataView> {
        KYWDData::s_read_fields(c, KYWDDataView::empty())
    }

    proof fn s_read_progress(c: CursorModel) {
        KYWDData::s_read_fields_progress(c, KYWDDataView::empty());
    }

    #[verifier::loop_isolation(false)]
    fn read(cursor: &mut Cursor) -> (r: Result<KYWDData, DecodeError>) {
        let ghost c0 = cursor@;
        let mut rec = KYWDData { edid: None, cnam: None };
        while cursor.record_remaining() > 0
            invariant
                cursor@.wf(),
                KYWDData::s_read_fields(c0, KYWDDataView::empty()) == KYWDData::s_read_fields(
                    cursor@,
                    rec@,
                ),
            decreases clamp0(cursor@.record_left),
        {
            let ghost c_prev = cursor@;
            let t = match cursor.read_subrecord_type() {
                Ok(t) => t,
                Err(e) => {
                    return Err(e);
                },
            };
            let ghost c_mid = cursor@;
            match t {
                SubrecordType::EDID => {
                    match EDIDSubrecord::read(cursor) {
                        Ok(sr) => {
                            rec.edid = Some(sr);
                        },
                        Err(e) => {
                            return Err(e);
                        },
                    }
                    proof {
                        EDIDSubrecord::s_read_progress(c_mid);
                    }
                },
                SubrecordType::CNAM => {
                    match CNAMSubrecord::read(cursor) {
                        Ok(sr) => {
                            rec.cnam = Some(sr);
                        },
                        Err(e) => {
                            return Err(e);
                        },
                    }
                    proof {
                        CNAMSubrecord::s_read_progress(c_mid);
                    }
                },
                _ => {
                    return Err(
                        DecodeError::InvalidData(
                            String::from_str("unexpected subrecord kind in a KYWD record"),
                        ),
                    );
                },
            }
        }
        Ok(rec)
    }
}

} // verus!
