//! The generic group container: a homogeneous ordered run of records of
//! one statically known kind.

use vstd::prelude::*;
use vstd::string::StringExecFns;

use crate::cursor::{clamp0, decoded_as, s_read_tag, Cursor, CursorModel, Decoded};
use crate::error::{DecodeError, DecodeErrorKind};
use crate::groups::header::{GroupHeader};
use crate::read::Readable;
use crate::records::record::{Record, RecordView};

verus! {

/// The raw big-endian tag code of a group ("GRUP").
pub const CODE: u32 = 0x4752_5550;

/// A group: its header and the ordered run of its records, all of one
/// kind. Decoding opens a new group byte-budget scope from the header's
/// declared total length (which includes the 24-byte header itself) and
/// demands that the records consume the scope exactly.
#[derive(Debug, Clone, PartialEq, Eq)]
pub struct Group<HeaderFlags, Data> {
    pub header: GroupHeader,
    pub data: Vec<Record<HeaderFlags, Data>>,
}

/// View of a [`Group`]: its header and the sequence of its records'
/// views.
pub struct GroupView<FV, DV> {
    pub header: GroupHeader,
    pub data: Seq<RecordView<FV, DV>>,
}

impl<HeaderFlags: View, Data: View> View for Group<HeaderFlags, Data> {
    type V = GroupView<HeaderFlags::V, Data::V>;

    open spec fn view(&self) -> GroupView<HeaderFlags::V, Data::V> {
        GroupView {
            header: self.header,
            data: Seq::new(self.data@.len(), |i: int| self.data@[i]@),
        }
    }
}

impl<HeaderFlags: Readable, Data: Readable> Group<HeaderFlags, Data> {
    /// Mirror of the record loop of [`Group::read`]: while the group
    /// budget is positive, read and discard a record type tag, then
    /// decode one record. The budget must come back exactly exhausted;
    /// a negative remainder signals an over-read and fails the decode.
    pub open spec fn s_read_records(
        c: CursorModel,
        acc: Seq<RecordView<HeaderFlags::V, Data::V>>,
    ) -> Decoded<Seq<RecordView<HeaderFlags::V, Data::V>>>
        decreases clamp0(c.group_left),
        when 0 <= c.pos <= c.data.len()
    {
        if c.group_left <= 0 {
            if c.group_left == 0 {
                Ok((acc, c))
            } else {
                Err(DecodeErrorKind::InvalidData)
            }
        } else {
            match s_read_tag(c) {
                Err(k) => Err(k),
                Ok((tag, c1)) => match Record::<HeaderFlags, Data>::s_read(c1) {
                    Err(k) => Err(k),
                    Ok((rv, c2)) => {
                        proof {
                            Record::<HeaderFlags, Data>::s_read_progress(c1);
                        }
                        Self::s_read_records(c2, acc.push(rv))
                    },
                },
            }
        }
    }

    /// On success the record loop moves the position forward inside the
    /// buffer and leaves the buffer itself unchanged.
    pub proof fn s_read_records_progress(
        c: CursorModel,
        acc: Seq<RecordView<HeaderFlags::V, Data::V>>,
    )
        requires
            0 <= c.pos <= c.data.len(),
        ensures
            Self::s_read_records(c, acc) matches Ok((v, c2)) ==> {
                &&& c.pos <= c2.pos <= c.data.len()
                &&& c2.data == c.data
            },
        decreases clamp0(c.group_left),
    {
        if c.group_left > 0 {
            match s_read_tag(c) {
                Err(_) => {},
                Ok((tag, c1)) => match Record::<HeaderFlags, Data>::s_read(c1) {
                    Err(_) => {},
                    Ok((rv, c2)) => {
                        Record::<HeaderFlags, Data>::s_read_progress(c1);
                        Self::s_read_records_progress(c2, acc.push(rv));
                    },
                },
            }
        }
    }

    /// Mirror of [`Group::read`]: header, then the record loop under a
    /// fresh group budget.
    pub open spec fn s_read(c: CursorModel) -> Decoded<GroupView<HeaderFlags::V, Data::V>> {
        match GroupHeader::s_read(c) {
            Err(k) => Err(k),
            Ok((h, c1)) => match Self::s_read_records(c1.entered_group(h.size), Seq::empty()) {
                Err(k) => Err(k),
                Ok((rs, c2)) => Ok((GroupView { header: h, data: rs }, c2)),
            },
        }
    }

    /// On success the group decode moves the position forward inside
    /// the buffer and leaves the buffer itself unchanged.
    pub proof fn s_read_progress(c: CursorModel)
        requires
            0 <= c.pos <= c.data.len(),
        ensures
            Self::s_read(c) matches Ok((v, c2)) ==> {
                &&& c.pos <= c2.pos <= c.data.len()
                &&& c2.data == c.data
            },
    {
        GroupHeader::s_read_progress(c);
        match GroupHeader::s_read(c) {
            Err(_) => {},
            Ok((h, c1)) => {
                Self::s_read_records_progress(c1.entered_group(h.size), Seq::empty());
            },
        }
    }

    /// After a group's record loop completes, the group budget is
    /// exactly zero, never negative: records that over-run the declared
    /// group length fail the decode instead of succeeding.
    pub proof fn lemma_group_budget_exact(c: CursorModel, acc: Seq<
        RecordView<HeaderFlags::V, Data::V>,
    >)
        requires
            0 <= c.pos <= c.data.len(),
        ensures
            Self::s_read_records(c, acc) matches Ok((v, c2)) ==> c2.group_left == 0,
        decreases clamp0(c.group_left),
    {
        if c.group_left > 0 {
            match s_read_tag(c) {
                Err(_) => {},
                Ok((tag, c1)) => match Record::<HeaderFlags, Data>::s_read(c1) {
                    Err(_) => {},
                    Ok((rv, c2)) => {
                        Record::<HeaderFlags, Data>::s_read_progress(c1);
                        Self::lemma_group_budget_exact(c2, acc.push(rv));
                    },
                },
            }
        }
    }

    /// Decode one group (its "GRUP" tag already consumed by the
    /// caller).
    ///
    /// On success the group budget is exactly zero: the records
    /// consumed precisely the declared number of bytes, never more.
    #[verifier::loop_isolation(false)]
    pub fn read(cursor: &mut Cursor) -> (r: Result<Group<HeaderFlags, Data>, DecodeError>)
        requires
            old(cursor)@.wf(),
        ensures
            final(cursor)@.wf(),
            decoded_as(Self::s_read(old(cursor)@), r, final(cursor)@),
            r is Ok ==> final(cursor)@.group_left == 0,
    {
        let header = match GroupHeader::read(cursor) {
            Ok(h) => h,
            Err(e) => {
                return Err(e);
            },
        };
        cursor.enter_group(header.size);
        let ghost c0 = cursor@;
        let ghost mut accv: Seq<RecordView<HeaderFlags::V, Data::V>> = Seq::empty();
        let mut data: Vec<Record<HeaderFlags, Data>> = Vec::new();
        while cursor.group_remaining() > 0
            invariant
                cursor@.wf(),
                c0.wf(),
                cursor@.data == c0.data,
                accv == Seq::new(data@.len(), |i: int| data@[i]@),
                Self::s_read_records(c0, Seq::empty()) == Self::s_read_records(cursor@, accv),
            decreases clamp0(cursor@.group_left),
        {
            let ghost c_prev = cursor@;
            match cursor.read_tag() {
                Ok(_) => (),
                Err(e) => {
                    return Err(e);
                },
            };
            let ghost c_mid = cursor@;
            let rec = match Record::<HeaderFlags, Data>::read(cursor) {
                Ok(x) => x,
                Err(e) => {
                    return Err(e);
                },
            };
            proof {
                Record::<HeaderFlags, Data>::s_read_progress(c_mid);
            }
            data.push(rec);
            proof {
                accv = accv.push(rec@);
                assert(accv =~= Seq::new(data@.len(), |i: int| data@[i]@));
            }
        }
        if cursor.group_remaining() != 0 {
            return Err(
                DecodeError::InvalidData(
                    String::from_str("group records over-ran the declared group length"),
                ),
            );
        }
        Ok(Group { header, data })
    }
}

} // verus!
