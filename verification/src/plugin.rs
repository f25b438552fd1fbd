//! The top-level aggregate: one file-header record followed by the
//! top-level groups, decoded until the stream is exhausted.

use vstd::prelude::*;
use vstd::string::StringExecFns;

use crate::cursor::{
    s_peek_tag, s_read_tag, Cursor, CursorModel, Decoded, MAX_INPUT_LEN,
};
use crate::error::{DecodeError, DecodeErrorKind};
use crate::groups::group;
use crate::groups::group::{Group, GroupView};
use crate::read::Readable;
use crate::records::aact::{AACTData, AACTDataView};
use crate::records::glob::{GLOBData, GLOBDataView};
use crate::records::gmst::{GMSTData, GMSTDataView};
use crate::records::kywd::{KYWDData, KYWDDataView};
use crate::records::lcrt::{LCRTData, LCRTDataView};
use crate::records::record::{Record, RecordFlags, RecordType, RecordView, s_read_record_type};
use crate::records::tes4::{PluginFlags, TES4Data, TES4DataView, TES4};
use crate::records::txst::{TXSTData, TXSTDataView};

verus! {

/// A decoded top-level group, wrapped in the closed variant of its
/// record kind. The top-level catalogue is closed and exhaustively
/// enumerated: there is no generic fallback at this level.
#[derive(Debug, Clone, PartialEq, Eq)]
pub enum GroupVariant {
    GMST(Group<RecordFlags, GMSTData>),
    KYWD(Group<RecordFlags, KYWDData>),
    AACT(Group<RecordFlags, AACTData>),
    LCRT(Group<RecordFlags, LCRTData>),
    TXST(Group<RecordFlags, TXSTData>),
    GLOB(Group<RecordFlags, GLOBData>),
}

/// View of a [`GroupVariant`].
pub enum GroupVariantView {
    GMST(GroupView<RecordFlags, GMSTDataView>),
    KYWD(GroupView<RecordFlags, KYWDDataView>),
    AACT(GroupView<RecordFlags, AACTDataView>),
    LCRT(GroupView<RecordFlags, LCRTDataView>),
    TXST(GroupView<RecordFlags, TXSTDataView>),
    GLOB(GroupView<RecordFlags, GLOBDataView>),
}

impl View for GroupVariant {
    type V = GroupVariantView;

    open spec fn view(&self) -> GroupVariantView {
        match self {
            GroupVariant::GMST(g) => GroupVariantView::GMST(g@),
            GroupVariant::KYWD(g) => GroupVariantView::KYWD(g@),
            GroupVariant::AACT(g) => GroupVariantView::AACT(g@),
            GroupVariant::LCRT(g) => GroupVariantView::LCRT(g@),
            GroupVariant::TXST(g) => GroupVariantView::TXST(g@),
            GroupVariant::GLOB(g) => GroupVariantView::GLOB(g@),
        }
    }
}

/// The view of an association list of decoded groups: the keys in
/// insertion order with the views of their groups.
pub open spec fn groups_view(s: Seq<(RecordType, GroupVariant)>) -> Seq<
    (RecordType, GroupVariantView),
> {
    Seq::new(s.len(), |i: int| (s[i].0, s[i].1@))
}

/// Index of the first entry with key `kind`; `s.len()` when there is
/// none.
pub open spec fn first_key_index(s: Seq<(RecordType, GroupVariantView)>, kind: RecordType) -> int
    decreases s.len(),
{
    if s.len() == 0 {
        0
    } else if s[0].0 == kind {
        0
    } else {
        1 + first_key_index(s.drop_first(), kind)
    }
}

/// What [`first_key_index`] finds: the first entry with key `kind`, or
/// the length when no entry has it.
pub proof fn lemma_first_key_index(s: Seq<(RecordType, GroupVariantView)>, kind: RecordType)
    ensures
        0 <= first_key_index(s, kind) <= s.len(),
        first_key_index(s, kind) < s.len() ==> s[first_key_index(s, kind)].0 == kind,
        forall|j: int| 0 <= j < first_key_index(s, kind) ==> s[j].0 != kind,
    decreases s.len(),
{
    if s.len() > 0 && s[0].0 != kind {
        lemma_first_key_index(s.drop_first(), kind);
        assert forall|j: int| 0 <= j < first_key_index(s, kind) implies s[j].0 != kind by {
            if j > 0 {
                assert(s.drop_first()[j - 1].0 != kind);
            }
        }
    }
}

/// Insertion into the group mapping: an entry with the same key is
/// replaced in place; otherwise the new entry is appended.
pub open spec fn s_insert_group(
    s: Seq<(RecordType, GroupVariantView)>,
    kind: RecordType,
    gv: GroupVariantView,
) -> Seq<(RecordType, GroupVariantView)> {
    if first_key_index(s, kind) < s.len() {
        s.update(first_key_index(s, kind), (kind, gv))
    } else {
        s.push((kind, gv))
    }
}

/// Insert a decoded group into the mapping, replacing an entry of the
/// same kind in place, as inserting into a map keyed by the kind does.
#[verifier::loop_isolation(false)]
fn insert_group(groups: &mut Vec<(RecordType, GroupVariant)>, kind: RecordType, gv: GroupVariant)
    ensures
        groups_view(final(groups)@) == s_insert_group(groups_view(old(groups)@), kind, gv@),
{
    proof {
        lemma_first_key_index(groups_view(groups@), kind);
    }
    let n = groups.len();
    let mut i: usize = 0;
    while i < n
        invariant
            i <= n,
            groups@ == old(groups)@,
            forall|j: int| 0 <= j < i ==> groups@[j].0 != kind,
        decreases n - i,
    {
        if groups[i].0 == kind {
            proof {
                assert(groups_view(groups@)[i as int].0 == kind);
                assert(first_key_index(groups_view(groups@), kind) == i);
            }
            groups[i] = (kind, gv);
            proof {
                assert(groups_view(groups@) =~= s_insert_group(
                    groups_view(old(groups)@),
                    kind,
                    gv@,
                ));
            }
            return ;
        }
        i = i + 1;
    }
    proof {
        assert(first_key_index(groups_view(groups@), kind) == groups@.len());
    }
    groups.push((kind, gv));
    proof {
        assert(groups_view(groups@) =~= s_insert_group(groups_view(old(groups)@), kind, gv@));
    }
}

/// The decoded plugin: the file-header record and the mapping from
/// top-level record kind to decoded group.
#[derive(Debug, Clone, PartialEq, Eq)]
pub struct Plugin {
    pub header: TES4,
    pub top_groups: Vec<(RecordType, GroupVariant)>,
}

/// View of a [`Plugin`].
pub struct PluginView {
    pub header: RecordView<PluginFlags, TES4DataView>,
    pub top_groups: Seq<(RecordType, GroupVariantView)>,
}

impl View for Plugin {
    type V = PluginView;

    open spec fn view(&self) -> PluginView {
        PluginView { header: self.header@, top_groups: groups_view(self.top_groups@) }
    }
}

impl Plugin {
    /// Mirror of the top-group loop of [`decode_plugin`]: until the
    /// stream is exhausted, demand a "GRUP" tag, peek the group's
    /// child-kind tag out of the header's label field, and dispatch to
    /// the decoder of that kind. An unrecognized child kind is a hard
    /// failure: the top-level catalogue is closed.
    pub open spec fn s_top_groups(
        c: CursorModel,
        acc: Seq<(RecordType, GroupVariantView)>,
    ) -> Decoded<Seq<(RecordType, GroupVariantView)>>
        decreases c.data.len() - c.pos,
        when 0 <= c.pos <= c.data.len()
    {
        if c.pos >= c.data.len() {
            Ok((acc, c))
        } else {
            match s_read_tag(c) {
                Err(k) => Err(k),
                Ok((tag, c1)) => {
                    if tag != group::CODE {
                        Err(DecodeErrorKind::InvalidData)
                    } else {
                        match s_peek_tag(c1, 4) {
                            Err(k) => Err(k),
                            Ok(label) => match RecordType::spec_from_u32(label) {
                                RecordType::GMST => match Group::<RecordFlags, GMSTData>::s_read(
                                    c1,
                                ) {
                                    Err(k) => Err(k),
                                    Ok((g, c2)) => {
                                        proof {
                                            Group::<RecordFlags, GMSTData>::s_read_progress(c1);
                                        }
                                        Self::s_top_groups(
                                            c2,
                                            s_insert_group(
                                                acc,
                                                RecordType::GMST,
                                                GroupVariantView::GMST(g),
                                            ),
                                        )
                                    },
                                },
                                RecordType::KYWD => match Group::<RecordFlags, KYWDData>::s_read(
                                    c1,
                                ) {
                                    Err(k) => Err(k),
                                    Ok((g, c2)) => {
                                        proof {
                                            Group::<RecordFlags, KYWDData>::s_read_progress(c1);
                                        }
                                        Self::s_top_groups(
                                            c2,
                                            s_insert_group(
                                                acc,
                                                RecordType::KYWD,
                                                GroupVariantView::KYWD(g),
                                            ),
                                        )
                                    },
                                },
                                RecordType::AACT => match Group::<RecordFlags, AACTData>::s_read(
                                    c1,
                                ) {
                                    Err(k) => Err(k),
                                    Ok((g, c2)) => {
                                        proof {
                                            Group::<RecordFlags, AACTData>::s_read_progress(c1);
                                        }
                                        Self::s_top_groups(
                                            c2,
                                            s_insert_group(
                                                acc,
                                                RecordType::AACT,
                                                GroupVariantView::AACT(g),
                                            ),
                                        )
                                    },
                                },
                                RecordType::LCRT => match Group::<
                                    RecordFlags,
                                    LCRTData,
                                >::s_read(c1) {
                                    Err(k) => Err(k),
                                    Ok((g, c2)) => {
                                        proof {
                                            Group::<
                                                RecordFlags,
                                                LCRTData,
                                            >::s_read_progress(c1);
                                        }
                                        Self::s_top_groups(
                                            c2,
                                            s_insert_group(
                                                acc,
                                                RecordType::LCRT,
                                                GroupVariantView::LCRT(g),
                                            ),
                                        )
                                    },
                                },
                                RecordType::TXST => match Group::<RecordFlags, TXSTData>::s_read(
                                    c1,
                                ) {
                                    Err(k) => Err(k),
                                    Ok((g, c2)) => {
                                        proof {
                                            Group::<RecordFlags, TXSTData>::s_read_progress(c1);
                                        }
                                        Self::s_top_groups(
                                            c2,
                                            s_insert_group(
                                                acc,
                                                RecordType::TXST,
                                                GroupVariantView::TXST(g),
                                            ),
                                        )
                                    },
                                },
                                RecordType::GLOB => match Group::<RecordFlags, GLOBData>::s_read(
                                    c1,
                                ) {
                                    Err(k) => Err(k),
                                    Ok((g, c2)) => {
                                        proof {
                                            Group::<RecordFlags, GLOBData>::s_read_progress(c1);
                                        }
                                        Self::s_top_groups(
                                            c2,
                                            s_insert_group(
                                                acc,
                                                RecordType::GLOB,
                                                GroupVariantView::GLOB(g),
                                            ),
                                        )
                                    },
                                },
                                _ => Err(DecodeErrorKind::InvalidData),
                            },
                        }
                    }
                },
            }
        }
    }

    /// The top-group loop only succeeds at the very end of the stream:
    /// a successful decode leaves zero trailing bytes.
    pub proof fn lemma_top_groups_consume(
        c: CursorModel,
        acc: Seq<(RecordType, GroupVariantView)>,
    )
        requires
            0 <= c.pos <= c.data.len(),
        ensures
            Self::s_top_groups(c, acc) matches Ok((v, c2)) ==> {
                &&& c2.data == c.data
                &&& c2.pos == c.data.len()
            },
        decreases c.data.len() - c.pos,
    {
        if c.pos < c.data.len() {
            match s_read_tag(c) {
                Err(_) => {},
                Ok((tag, c1)) => {
                    if tag == group::CODE {
                        match s_peek_tag(c1, 4) {
                            Err(_) => {},
                            Ok(label) => match RecordType::spec_from_u32(label) {
                                RecordType::GMST => match Group::<RecordFlags, GMSTData>::s_read(
                                    c1,
                                ) {
                                    Err(_) => {},
                                    Ok((g, c2)) => {
                                        Group::<RecordFlags, GMSTData>::s_read_progress(c1);
                                        Self::lemma_top_groups_consume(
                                            c2,
                                            s_insert_group(
                                                acc,
                                                RecordType::GMST,
                                                GroupVariantView::GMST(g),
                                            ),
                                        );
                                    },
                                },
                                RecordType::KYWD => match Group::<RecordFlags, KYWDData>::s_read(
                                    c1,
                                ) {
                                    Err(_) => {},
                                    Ok((g, c2)) => {
                                        Group::<RecordFlags, KYWDData>::s_read_progress(c1);
                                        Self::lemma_top_groups_consume(
                                            c2,
                                            s_insert_group(
                                                acc,
                                                RecordType::KYWD,
                                                GroupVariantView::KYWD(g),
                                            ),
                                        );
                                    },
                                },
                                RecordType::AACT => match Group::<RecordFlags, AACTData>::s_read(
                                    c1,
                                ) {
                                    Err(_) => {},
                                    Ok((g, c2)) => {
                                        Group::<RecordFlags, AACTData>::s_read_progress(c1);
                                        Self::lemma_top_groups_consume(
                                            c2,
                                            s_insert_group(
                                                acc,
                                                RecordType::AACT,
                                                GroupVariantView::AACT(g),
                                            ),
                                        );
                                    },
                                },
                                RecordType::LCRT => match Group::<
                                    RecordFlags,
                                    LCRTData,
                                >::s_read(c1) {
                                    Err(_) => {},
                                    Ok((g, c2)) => {
                                        Group::<
                                            RecordFlags,
                                            LCRTData,
                                        >::s_read_progress(c1);
                                        Self::lemma_top_groups_consume(
                                            c2,
                                            s_insert_group(
                                                acc,
                                                RecordType::LCRT,
                                                GroupVariantView::LCRT(g),
                                            ),
                                        );
                                    },
                                },
                                RecordType::TXST => match Group::<RecordFlags, TXSTData>::s_read(
                                    c1,
                                ) {
                                    Err(_) => {},
                                    Ok((g, c2)) => {
                                        Group::<RecordFlags, TXSTData>::s_read_progress(c1);
                                        Self::lemma_top_groups_consume(
                                            c2,
                                            s_insert_group(
                                                acc,
                                                RecordType::TXST,
                                                GroupVariantView::TXST(g),
                                            ),
                                        );
                                    },
                                },
                                RecordType::GLOB => match Group::<RecordFlags, GLOBData>::s_read(
                                    c1,
                                ) {
                                    Err(_) => {},
                                    Ok((g, c2)) => {
                                        Group::<RecordFlags, GLOBData>::s_read_progress(c1);
                                        Self::lemma_top_groups_consume(
                                            c2,
                                            s_insert_group(
                                                acc,
                                                RecordType::GLOB,
                                                GroupVariantView::GLOB(g),
                                            ),
                                        );
                                    },
                                },
                                _ => {},
                            },
                        }
                    }
                },
            }
        }
    }

    /// Look up a decoded group by its top-level record kind.
    #[verifier::loop_isolation(false)]
    pub fn get_group(&self, kind: RecordType) -> (r: Option<&GroupVariant>)
        ensures
            ({
                let s = self@.top_groups;
                match r {
                    Some(g) => first_key_index(s, kind) < s.len() && g@ == s[first_key_index(
                        s,
                        kind,
                    )].1,
                    None => first_key_index(s, kind) == s.len(),
                }
            }),
    {
        proof {
            lemma_first_key_index(self@.top_groups, kind);
        }
        let n = self.top_groups.len();
        let mut i: usize = 0;
        while i < n
            invariant
                i <= n,
                n == self.top_groups@.len(),
                forall|j: int| 0 <= j < i ==> self.top_groups@[j].0 != kind,
            decreases n - i,
        {
            if self.top_groups[i].0 == kind {
                proof {
                    assert(self@.top_groups[i as int].0 == kind);
                    assert(first_key_index(self@.top_groups, kind) == i);
                }
                return Some(&self.top_groups[i].1);
            }
            i = i + 1;
        }
        None
    }
}

/// Mirror of [`decode_plugin`]: the file-header tag and record, then
/// the top-level groups until the stream is exhausted. On success the
/// second component is the final position, which the decode laws show
/// equals the length of the input: a successful decode consumes the
/// entire stream.
pub open spec fn s_decode_plugin(data: Seq<u8>) -> Result<(PluginView, int), DecodeErrorKind> {
    let c = CursorModel::start(data);
    match s_read_record_type(c) {
        Err(k) => Err(k),
        Ok((t, c1)) => {
            if t != RecordType::TES4 {
                Err(DecodeErrorKind::InvalidData)
            } else {
                match Record::<PluginFlags, TES4Data>::s_read(c1) {
                    Err(k) => Err(k),
                    Ok((hdr, c2)) => match Plugin::s_top_groups(c2, Seq::empty()) {
                        Err(k) => Err(k),
                        Ok((gs, c3)) => Ok((PluginView { header: hdr, top_groups: gs }, c3.pos)),
                    },
                }
            }
        },
    }
}

/// A successful decode consumes the entire stream: for every input on
/// which the mirror succeeds, the final position is the input length,
/// with zero trailing bytes.
pub proof fn lemma_decode_plugin_consumes_stream(data: Seq<u8>)
    ensures
        s_decode_plugin(data) matches Ok((p, end)) ==> end == data.len(),
{
    let c = CursorModel::start(data);
    match s_read_record_type(c) {
        Err(_) => {},
        Ok((t, c1)) => {
            if t == RecordType::TES4 {
                Record::<PluginFlags, TES4Data>::s_read_progress(c1);
                match Record::<PluginFlags, TES4Data>::s_read(c1) {
                    Err(_) => {},
                    Ok((hdr, c2)) => {
                        Plugin::lemma_top_groups_consume(c2, Seq::empty());
                    },
                }
            }
        },
    }
}

/// Decode one plugin from a byte stream: the file-header record (tag
/// "TES4"), then top-level groups (tag "GRUP") until the stream is
/// exhausted.
///
/// The contract pins the decoded value to the spec-level mirror of the
/// input bytes: decoding is a mathematical function of the input, so
/// decoding the same buffer twice yields structurally equal plugins,
/// and a successful decode consumes the entire stream.
#[verifier::loop_isolation(false)]
#[verifier::rlimit(100)]
pub fn decode_plugin(data: Vec<u8>) -> (r: Result<Plugin, DecodeError>)
    requires
        data@.len() <= MAX_INPUT_LEN,
    ensures
        match r {
            Ok(p) => s_decode_plugin(data@) == Ok::<(PluginView, int), DecodeErrorKind>(
                (p@, data@.len() as int),
            ),
            Err(e) => s_decode_plugin(data@) == Err::<(PluginView, int), DecodeErrorKind>(e@),
        },
{
    let ghost input = data@;
    let mut cursor = Cursor::new(data);
    let t = match cursor.read_record_type() {
        Ok(t) => t,
        Err(e) => {
            return Err(e);
        },
    };
    if t != RecordType::TES4 {
        return Err(
            DecodeError::InvalidData(String::from_str("no file-header tag at the start of the plugin")),
        );
    }
    let ghost c_pre_header = cursor@;
    let header = match Record::<PluginFlags, TES4Data>::read(&mut cursor) {
        Ok(h) => h,
        Err(e) => {
            return Err(e);
        },
    };
    proof {
        Record::<PluginFlags, TES4Data>::s_read_progress(c_pre_header);
    }
    let ghost c0 = cursor@;
    proof {
        assert(c0.data == input);
    }
    let mut top_groups: Vec<(RecordType, GroupVariant)> = Vec::new();
    proof {
        assert(groups_view(top_groups@) =~= Seq::<(RecordType, GroupVariantView)>::empty());
    }
    while cursor.bytes_remaining() > 0
        invariant
            cursor@.wf(),
            cursor@.data == c0.data,
            Plugin::s_top_groups(c0, Seq::empty()) == Plugin::s_top_groups(
                cursor@,
                groups_view(top_groups@),
            ),
        decreases cursor@.remaining(),
    {
        let tag = match cursor.read_tag() {
            Ok(t) => t,
            Err(e) => {
                return Err(e);
            },
        };
        if tag != group::CODE {
            return Err(
                DecodeError::InvalidData(
                    String::from_str("a top-level tag other than a group tag"),
                ),
            );
        }
        let kind = match RecordType::peek(&cursor, 4) {
            Ok(k) => k,
            Err(e) => {
                return Err(e);
            },
        };
        let ghost c_mid = cursor@;
        match kind {
            RecordType::GMST => {
                let g = match Group::<RecordFlags, GMSTData>::read(&mut cursor) {
                    Ok(g) => g,
                    Err(e) => {
                        return Err(e);
                    },
                };
                proof {
                    Group::<RecordFlags, GMSTData>::s_read_progress(c_mid);
                }
                insert_group(&mut top_groups, kind, GroupVariant::GMST(g));
            },
            RecordType::KYWD => {
                let g = match Group::<RecordFlags, KYWDData>::read(&mut cursor) {
                    Ok(g) => g,
                    Err(e) => {
                        return Err(e);
                    },
                };
                proof {
                    Group::<RecordFlags, KYWDData>::s_read_progress(c_mid);
                }
                insert_group(&mut top_groups, kind, GroupVariant::KYWD(g));
            },
            RecordType::AACT => {
                let g = match Group::<RecordFlags, AACTData>::read(&mut cursor) {
                    Ok(g) => g,
                    Err(e) => {
                        return Err(e);
                    },
                };
                proof {
                    Group::<RecordFlags, AACTData>::s_read_progress(c_mid);
                }
                insert_group(&mut top_groups, kind, GroupVariant::AACT(g));
            },
            RecordType::LCRT => {
                let g = match Group::<RecordFlags, LCRTData>::read(
                    &mut cursor,
                ) {
                    Ok(g) => g,
                    Err(e) => {
                        return Err(e);
                    },
                };
                proof {
                    Group::<RecordFlags, LCRTData>::s_read_progress(c_mid);
                }
                insert_group(&mut top_groups, kind, GroupVariant::LCRT(g));
            },
            RecordType::TXST => {
                let g = match Group::<RecordFlags, TXSTData>::read(&mut cursor) {
                    Ok(g) => g,
                    Err(e) => {
                        return Err(e);
                    },
                };
                proof {
                    Group::<RecordFlags, TXSTData>::s_read_progress(c_mid);
                }
                insert_group(&mut top_groups, kind, GroupVariant::TXST(g));
            },
            RecordType::GLOB => {
                let g = match Group::<RecordFlags, GLOBData>::read(&mut cursor) {
                    Ok(g) => g,
                    Err(e) => {
                        return Err(e);
                    },
                };
                proof {
                    Group::<RecordFlags, GLOBData>::s_read_progress(c_mid);
                }
                insert_group(&mut top_groups, kind, GroupVariant::GLOB(g));
            },
            _ => {
                return Err(
                    DecodeError::InvalidData(
                        String::from_str("unrecognized top-level group child kind"),
                    ),
                );
            },
        }
    }
    proof {
        assert(cursor@.pos == input.len());
        assert(Plugin::s_top_groups(c0, Seq::empty()) == Ok::<
            (Seq<(RecordType, GroupVariantView)>, CursorModel),
            DecodeErrorKind,
        >((groups_view(top_groups@), cursor@)));
        assert(s_decode_plugin(input) == Ok::<(PluginView, int), DecodeErrorKind>(
            (
                PluginView { header: header@, top_groups: groups_view(top_groups@) },
                input.len() as int,
            ),
        ));
    }
    Ok(Plugin { header, top_groups })
}

} // verus!
