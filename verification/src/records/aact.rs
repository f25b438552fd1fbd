//! The action record kind ("AACT"): an editor id and an optional
//! color.

use vstd::prelude::*;
use vstd::string::StringExecFns;

use crate::cursor::{clamp0, Cursor, CursorModel, Decoded};
use crate::error::{DecodeError, DecodeErrorKind};
use crate::read::{opt_view, Readable};
use crate::records::record::{Record, RecordFlags};
use crate::subrecords::common::{CNAMData, EDIDData};
use crate::subrecords::subrecord::{s_read_subrecord_type, Subrecord, SubrecordType, SubrecordView};
use crate::types::RGB;

verus! {

pub type AACTRecord = Record<RecordFlags, AACTData>;

pub type EDIDSubrecord = Subrecord<EDIDData>;

pub type CNAMSubrecord = Subrecord<CNAMData>;

/// Payload of an AACT record: each known subrecord kind appears at
/// most once, stored in an optional slot. The policy for unrecognized
/// subrecord kinds is strict: one fails the decode.
#[derive(Debug, Clone, PartialEq, Eq)]
pub struct AACTData {
    pub edid: Option<EDIDSubrecord>,
    pub cnam: Option<CNAMSubrecord>,
}

/// View of a [`AACTData`].
pub struct AACTDataView {
    pub edid: Option<SubrecordView<Seq<char>>>,
    pub cnam: Option<SubrecordView<RGB>>,
}

impl AACTDataView {
    /// The state of the slots before the dispatch loop runs.
    pub open spec fn empty() -> AACTDataView {
        AACTDataView { edid: None, cnam: None }
    }
}

impl View for AACTData {
    type V = AACTDataView;

    open spec fn view(&self) -> AACTDataView {
        AACTDataView { edid: opt_view(self.edid), cnam: opt_view(self.cnam) }
    }
}

impl AACTData {
    /// Mirror of the dispatch loop of [`AACTData::read`]: while the
    /// record budget is positive, classify a subrecord tag and decode
    /// into the matching slot; an unrecognized kind fails.
    pub open spec fn s_read_fields(c: CursorModel, acc: AACTDataView) -> Decoded<AACTDataView>
        decreases clamp0(c.record_left),
        when 0 <= c.pos <= c.data.len()
    {
        if c.record_left <= 0 {
            Ok((acc, c))
        } else {
            match s_read_subrecord_type(c) {
                Err(k) => Err(k),
                Ok((t, c1)) => match t {
                    SubrecordType::EDID => match EDIDSubrecord::s_read(c1) {
                        Err(k) => Err(k),
                        Ok((sr, c2)) => {
                            proof {
                                EDIDSubrecord::s_read_progress(c1);
                            }
                            Self::s_read_fields(c2, AACTDataView { edid: Some(sr), ..acc })
                        },
                    },
                    SubrecordType::CNAM => match CNAMSubrecord::s_read(c1) {
                        Err(k) => Err(k),
                        Ok((sr, c2)) => {
                            proof {
                                CNAMSubrecord::s_read_progress(c1);
                            }
                            Self::s_read_fields(c2, AACTDataView { cnam: Some(sr), ..acc })
                        },
                    },
                    _ => Err(DecodeErrorKind::InvalidData),
                },
            }
        }
    }

    /// On success the dispatch loop moves the position forward inside
    /// the buffer and moves the group and record budgets in lockstep
    /// with it.
    pub proof fn s_read_fields_progress(c: CursorModel, acc: AACTDataView)
        requires
            0 <= c.pos <= c.data.len(),
        ensures
            Self::s_read_fields(c, acc) matches Ok((v, c2)) ==> {
                &&& c.pos <= c2.pos <= c.data.len()
                &&& c2.data == c.data
                &&& c2.group_left == c.group_left - (c2.pos - c.pos)
                &&& c2.record_left == c.record_left - (c2.pos - c.pos)
            },
        decreases clamp0(c.record_left),
    {
        if c.record_left > 0 {
            match s_read_subrecord_type(c) {
                Err(_) => {},
                Ok((t, c1)) => match t {
                    SubrecordType::EDID => match EDIDSubrecord::s_read(c1) {
                        Err(_) => {},
                        Ok((sr, c2)) => {
                            EDIDSubrecord::s_read_progress(c1);
                            Self::s_read_fields_progress(
                                c2,
                                AACTDataView { edid: Some(sr), ..acc },
                            );
                        },
                    },
                    SubrecordType::CNAM => match CNAMSubrecord::s_read(c1) {
                        Err(_) => {},
                        Ok((sr, c2)) => {
                            CNAMSubrecord::s_read_progress(c1);
                            Self::s_read_fields_progress(
                                c2,
                                AACTDataView { cnam: Some(sr), ..acc },
                            );
                        },
                    },
                    _ => {},
                },
            }
        }
    }
}

impl Readable for AACTData {
    open spec fn s_read(c: CursorModel) -> Decoded<AACTDataView> {
        AACTData::s_read_fields(c, AACTDataView::empty())
    }

    proof fn s_read_progress(c: CursorModel) {
        AACTData::s_read_fields_progress(c, AACTDataView::empty());
    }

    #[verifier::loop_isolation(false)]
    fn read(cursor: &mut Cursor) -> (r: Result<AACTData, DecodeError>) {
        proof {
            assert(AACTData::s_read(old(cursor)@) == AACTData::s_read_fields(
                old(cursor)@,
                AACTDataView::empty(),
            ));
        }
        let ghost c0 = cursor@;
        let mut rec = AACTData { edid: None, cnam: None };
        while cursor.record_remaining() > 0
            invariant
                cursor@.wf(),
                AACTData::s_read_fields(c0, AACTDataView::empty()) == AACTData::s_read_fields(
                    cursor@,
                    rec@,
                ),
            decreases clamp0(cursor@.record_left),
        {
            let t = match cursor.read_subrecord_type() {
                Ok(t) => t,
                Err(e) => {
                    return Err(e);
                },
            };
            let ghost c_mid = cursor@;
            match t {
                SubrecordType::EDID => {
                    match EDIDSubrecord::read(cursor) {
                        Ok(sr) => {
                            rec.edid = Some(sr);
                        },
                        Err(e) => {
                            return Err(e);
                        },
                    }
                    proof {
                        EDIDSubrecord::s_read_progress(c_mid);
                    }
                },
                SubrecordType::CNAM => {
                    match CNAMSubrecord::read(cursor) {
                        Ok(sr) => {
                            rec.cnam = Some(sr);
                        },
                        Err(e) => {
                            return Err(e);
                        },
                    }
                    proof {
                        CNAMSubrecord::s_read_progress(c_mid);
                    }
                },
                _ => {
                    return Err(
                        DecodeError::InvalidData(
                            String::from_str("unexpected subrecord kind in a AACT record"),
                        ),
                    );
                },
            }
        }
        Ok(rec)
    }
}

} // verus!
