//! The raw structural parser: an alternative decoding architecture that
//! slices each container to its declared byte length up front and parses
//! each slice independently, keeping subrecord payloads as plain bytes.
//! A corrupt or oversized child cannot corrupt sibling decoding; any
//! unconsumed trailing bytes inside a container are discarded.

use vstd::prelude::*;
use vstd::utf8::{decode_utf8, encode_utf8, valid_utf8};

use crate::cursor::{le_u16_at, le_u32_at, i32_from_bits};
use crate::error::ParseError;
use crate::text::bytes_to_string;

verus! {

/// A raw 4-byte type tag.
#[derive(Debug, Clone, Copy, PartialEq, Eq, Hash)]
pub struct TypeCode {
    pub code: [u8; 4],
}

impl View for TypeCode {
    type V = Seq<u8>;

    open spec fn view(&self) -> Seq<u8> {
        self.code@
    }
}

impl TypeCode {
    /// The type code whose bytes are the little-endian bytes of `n`.
    pub fn from_u32(n: u32) -> (r: TypeCode)
        ensures
            r@ == seq![
                (n % 0x100) as u8,
                ((n / 0x100) % 0x100) as u8,
                ((n / 0x1_0000) % 0x100) as u8,
                ((n / 0x100_0000) % 0x100) as u8,
            ],
    {
        let r = TypeCode {
            code: [
                (n % 0x100) as u8,
                ((n / 0x100) % 0x100) as u8,
                ((n / 0x1_0000) % 0x100) as u8,
                ((n / 0x100_0000) % 0x100) as u8,
            ],
        };
        proof {
            assert(r@ =~= seq![
                (n % 0x100) as u8,
                ((n / 0x100) % 0x100) as u8,
                ((n / 0x1_0000) % 0x100) as u8,
                ((n / 0x100_0000) % 0x100) as u8,
            ]);
        }
        r
    }

    /// The type code of a 4-byte string.
    pub fn from_utf8(input: &str) -> (r: Result<TypeCode, ParseError>)
        ensures
            r is Ok <==> encode_utf8(input@).len() == 4,
            r matches Ok(tc) ==> tc@ == encode_utf8(input@),
    {
        let bytes = input.as_bytes();
        if bytes.len() == 4 {
            let r = TypeCode { code: [bytes[0], bytes[1], bytes[2], bytes[3]] };
            proof {
                assert(r@ =~= encode_utf8(input@));
            }
            Ok(r)
        } else {
            Err(ParseError::new("type code string is required to be 4 characters long"))
        }
    }

    /// The code as a string, when its bytes are valid UTF-8.
    pub fn to_utf8(&self) -> (r: Result<String, ParseError>)
        ensures
            r is Ok <==> valid_utf8(self@),
            r matches Ok(s) ==> s@ == decode_utf8(self@),
    {
        let mut bytes: Vec<u8> = Vec::new();
        bytes.push(self.code[0]);
        bytes.push(self.code[1]);
        bytes.push(self.code[2]);
        bytes.push(self.code[3]);
        proof {
            assert(bytes@ =~= self@);
        }
        match bytes_to_string(bytes) {
            Some(s) => Ok(s),
            None => Err(ParseError::new("type code bytes are not valid UTF-8")),
        }
    }

    /// Whether two type codes hold the same bytes.
    pub fn eq_code(&self, other: &TypeCode) -> (r: bool)
        ensures
            r == (self@ =~= other@),
    {
        let r = self.code[0] == other.code[0] && self.code[1] == other.code[1] && self.code[2]
            == other.code[2] && self.code[3] == other.code[3];
        proof {
            if r {
                assert(self@ =~= other@);
            }
        }
        r
    }
}

/// The little-endian byte sequence of a `u32`, as a type-code label is
/// reinterpreted when a top-level group carries a record-kind tag.
pub open spec fn le_bytes_of_u32(n: u32) -> Seq<u8> {
    seq![
        (n % 0x100) as u8,
        ((n / 0x100) % 0x100) as u8,
        ((n / 0x1_0000) % 0x100) as u8,
        ((n / 0x100_0000) % 0x100) as u8,
    ]
}

/// The bytes of the "EDID" type code.
pub open spec fn edid_code_bytes() -> Seq<u8> {
    seq![0x45u8, 0x44u8, 0x49u8, 0x44u8]
}

/// Header of a raw subrecord.
#[derive(Debug, Clone, Copy, PartialEq, Eq)]
pub struct SubrecordHeader {
    pub code: TypeCode,
    pub size: u16,
}

/// View of a raw [`SubrecordHeader`].
pub struct SubrecordHeaderView {
    pub code: Seq<u8>,
    pub size: u16,
}

impl View for SubrecordHeader {
    type V = SubrecordHeaderView;

    open spec fn view(&self) -> SubrecordHeaderView {
        SubrecordHeaderView { code: self.code@, size: self.size }
    }
}

/// A raw subrecord: its header and its payload as plain bytes.
#[derive(Debug, Clone, PartialEq, Eq)]
pub struct Subrecord {
    pub header: SubrecordHeader,
    pub data: Vec<u8>,
}

/// View of a raw [`Subrecord`].
pub struct SubrecordView {
    pub header: SubrecordHeaderView,
    pub data: Seq<u8>,
}

impl View for Subrecord {
    type V = SubrecordView;

    open spec fn view(&self) -> SubrecordView {
        SubrecordView { header: self.header@, data: self.data@ }
    }
}

/// Header of a raw record.
#[derive(Debug, Clone, Copy, PartialEq, Eq)]
pub struct RecordHeader {
    pub code: TypeCode,
    pub size: u32,
    pub flags: u32,
    pub id: u32,
    pub vc_info: u32,
    pub version: u16,
    pub unknown: u16,
}

/// View of a raw [`RecordHeader`].
pub struct RecordHeaderView {
    pub code: Seq<u8>,
    pub size: u32,
    pub flags: u32,
    pub id: u32,
    pub vc_info: u32,
    pub version: u16,
    pub unknown: u16,
}

impl View for RecordHeader {
    type V = RecordHeaderView;

    open spec fn view(&self) -> RecordHeaderView {
        RecordHeaderView {
            code: self.code@,
            size: self.size,
            flags: self.flags,
            id: self.id,
            vc_info: self.vc_info,
            version: self.version,
            unknown: self.unknown,
        }
    }
}

/// A raw record: its header and its run of raw subrecords.
#[derive(Debug, Clone, PartialEq, Eq)]
pub struct Record {
    pub header: RecordHeader,
    pub subrecords: Vec<Subrecord>,
}

/// View of a raw [`Record`].
pub struct RecordView {
    pub header: RecordHeaderView,
    pub subrecords: Seq<SubrecordView>,
}

impl View for Record {
    type V = RecordView;

    open spec fn view(&self) -> RecordView {
        RecordView {
            header: self.header@,
            subrecords: Seq::new(self.subrecords@.len(), |i: int| self.subrecords@[i]@),
        }
    }
}

/// Header of a raw group.
#[derive(Debug, Clone, Copy, PartialEq, Eq)]
pub struct GroupHeader {
    pub code: TypeCode,
    pub size: u32,
    pub label: u32,
    pub group_type: i32,
    pub vc_info: u32,
    pub unknown: u32,
}

/// View of a raw [`GroupHeader`].
pub struct GroupHeaderView {
    pub code: Seq<u8>,
    pub size: u32,
    pub label: u32,
    pub group_type: i32,
    pub vc_info: u32,
    pub unknown: u32,
}

impl View for GroupHeader {
    type V = GroupHeaderView;

    open spec fn view(&self) -> GroupHeaderView {
        GroupHeaderView {
            code: self.code@,
            size: self.size,
            label: self.label,
            group_type: self.group_type,
            vc_info: self.vc_info,
            unknown: self.unknown,
        }
    }
}

/// A raw group: its header and its run of raw records.
#[derive(Debug, Clone, PartialEq, Eq)]
pub struct Group {
    pub header: GroupHeader,
    pub records: Vec<Record>,
}

/// View of a raw [`Group`].
pub struct GroupView {
    pub header: GroupHeaderView,
    pub records: Seq<RecordView>,
}

impl View for Group {
    type V = GroupView;

    open spec fn view(&self) -> GroupView {
        GroupView {
            header: self.header@,
            records: Seq::new(self.records@.len(), |i: int| self.records@[i]@),
        }
    }
}

/// A raw plugin: its file-header record and its run of top-level
/// groups.
#[derive(Debug, Clone, PartialEq, Eq)]
pub struct Plugin {
    pub header: Record,
    pub top_groups: Vec<Group>,
}

/// View of a raw [`Plugin`].
pub struct PluginView {
    pub header: RecordView,
    pub top_groups: Seq<GroupView>,
}

impl View for Plugin {
    type V = PluginView;

    open spec fn view(&self) -> PluginView {
        PluginView {
            header: self.header@,
            top_groups: Seq::new(self.top_groups@.len(), |i: int| self.top_groups@[i]@),
        }
    }
}

/// Mirror of [`subrecord`]: header (4-byte code, `u16` length), then
/// that many payload bytes, all inside the window ending at `end`.
pub open spec fn s_subrecord(s: Seq<u8>, i: int, end: int) -> Option<(SubrecordView, int)> {
    if i + 6 <= end {
        let size = le_u16_at(s, i + 4) as int;
        if i + 6 + size <= end {
            Some(
                (
                    SubrecordView {
                        header: SubrecordHeaderView {
                            code: s.subrange(i, i + 4),
                            size: le_u16_at(s, i + 4),
                        },
                        data: s.subrange(i + 6, i + 6 + size),
                    },
                    i + 6 + size,
                ),
            )
        } else {
            None
        }
    } else {
        None
    }
}

/// Mirror of the subrecord run inside a record: repeat [`s_subrecord`]
/// until it fails; trailing bytes that parse as no subrecord are
/// discarded.
pub open spec fn s_subrecords(s: Seq<u8>, i: int, end: int) -> Seq<SubrecordView>
    decreases end - i,
    when end <= s.len()
{
    match s_subrecord(s, i, end) {
        None => Seq::empty(),
        Some((v, next)) => seq![v] + s_subrecords(s, next, end),
    }
}

/// Mirror of [`record`]: a 24-byte header, then the declared number of
/// payload bytes parsed as a run of subrecords.
pub open spec fn s_record(s: Seq<u8>, i: int, end: int) -> Option<(RecordView, int)> {
    if i + 24 <= end {
        let size = le_u32_at(s, i + 4) as int;
        if i + 24 + size <= end {
            Some(
                (
                    RecordView {
                        header: RecordHeaderView {
                            code: s.subrange(i, i + 4),
                            size: le_u32_at(s, i + 4),
                            flags: le_u32_at(s, i + 8),
                            id: le_u32_at(s, i + 12),
                            vc_info: le_u32_at(s, i + 16),
                            version: le_u16_at(s, i + 20),
                            unknown: le_u16_at(s, i + 22),
                        },
                        subrecords: s_subrecords(s, i + 24, i + 24 + size),
                    },
                    i + 24 + size,
                ),
            )
        } else {
            None
        }
    } else {
        None
    }
}

/// Mirror of the record run inside a group: repeat [`s_record`] until
/// it fails; trailing bytes are discarded.
pub open spec fn s_records(s: Seq<u8>, i: int, end: int) -> Seq<RecordView>
    decreases end - i,
    when end <= s.len()
{
    match s_record(s, i, end) {
        None => Seq::empty(),
        Some((v, next)) => seq![v] + s_records(s, next, end),
    }
}

/// Mirror of [`group`]: a 24-byte header whose declared total length
/// includes the header itself, then the remaining declared bytes parsed
/// as a run of records.
pub open spec fn s_group(s: Seq<u8>, i: int, end: int) -> Option<(GroupView, int)> {
    if i + 24 <= end {
        let size = le_u32_at(s, i + 4) as int;
        if size >= 24 && i + size <= end {
            Some(
                (
                    GroupView {
                        header: GroupHeaderView {
                            code: s.subrange(i, i + 4),
                            size: le_u32_at(s, i + 4),
                            label: le_u32_at(s, i + 8),
                            group_type: i32_from_bits(le_u32_at(s, i + 12)),
                            vc_info: le_u32_at(s, i + 16),
                            unknown: le_u32_at(s, i + 20),
                        },
                        records: s_records(s, i + 24, i + size),
                    },
                    i + size,
                ),
            )
        } else {
            None
        }
    } else {
        None
    }
}

/// Mirror of the top-group run: repeat [`s_group`] until it fails; the
/// second component is where the run stopped.
pub open spec fn s_groups(s: Seq<u8>, i: int, end: int) -> (Seq<GroupView>, int)
    decreases end - i,
    when end <= s.len()
{
    match s_group(s, i, end) {
        None => (Seq::empty(), i),
        Some((v, next)) => {
            let (rest, stop) = s_groups(s, next, end);
            (seq![v] + rest, stop)
        },
    }
}

/// Mirror of [`parse_plugin`]: one header record, then top-level groups
/// as far as they parse; the second component is where parsing stopped.
pub open spec fn s_parse_plugin(s: Seq<u8>) -> Option<(PluginView, int)> {
    match s_record(s, 0, s.len() as int) {
        None => None,
        Some((hdr, i1)) => {
            let (gs, stop) = s_groups(s, i1, s.len() as int);
            Some((PluginView { header: hdr, top_groups: gs }, stop))
        },
    }
}

/// Read a 4-byte type code at `i`.
fn read_code_at(input: &Vec<u8>, i: usize) -> (r: TypeCode)
    requires
        i + 4 <= input@.len(),
    ensures
        r@ == input@.subrange(i as int, i + 4),
{
    proof {
        assert(input.len() == input@.len());
    }
    let r = TypeCode { code: [input[i], input[i + 1], input[i + 2], input[i + 3]] };
    proof {
        assert(r@ =~= input@.subrange(i as int, i + 4));
    }
    r
}

/// Read a little-endian `u16` at `i`.
fn read_le_u16_at(input: &Vec<u8>, i: usize) -> (r: u16)
    requires
        i + 2 <= input@.len(),
    ensures
        r == le_u16_at(input@, i as int),
{
    proof {
        assert(input.len() == input@.len());
    }
    input[i] as u16 + input[i + 1] as u16 * 0x100
}

/// Read a little-endian `u32` at `i`.
fn read_le_u32_at(input: &Vec<u8>, i: usize) -> (r: u32)
    requires
        i + 4 <= input@.len(),
    ensures
        r == le_u32_at(input@, i as int),
{
    proof {
        assert(input.len() == input@.len());
    }
    input[i] as u32 + input[i + 1] as u32 * 0x100 + input[i + 2] as u32 * 0x1_0000 + input[i + 3]
        as u32 * 0x100_0000
}

/// Read a little-endian `i32` at `i`.
fn read_le_i32_at(input: &Vec<u8>, i: usize) -> (r: i32)
    requires
        i + 4 <= input@.len(),
    ensures
        r == i32_from_bits(le_u32_at(input@, i as int)),
{
    let bits = read_le_u32_at(input, i);
    if bits < 0x8000_0000 {
        bits as i32
    } else {
        ((bits as i64) - 0x1_0000_0000i64) as i32
    }
}

/// Copy the bytes of `input[from..to]`.
fn read_range(input: &Vec<u8>, from: usize, to: usize) -> (r: Vec<u8>)
    requires
        from <= to <= input@.len(),
    ensures
        r@ == input@.subrange(from as int, to as int),
{
    let mut out: Vec<u8> = Vec::new();
    let mut i: usize = from;
    proof {
        assert(out@ =~= input@.subrange(from as int, from as int));
    }
    while i < to
        invariant
            from <= i <= to <= input@.len(),
            out@ == input@.subrange(from as int, i as int),
        decreases to - i,
    {
        out.push(input[i]);
        i = i + 1;
        proof {
            assert(out@ =~= input@.subrange(from as int, i as int));
        }
    }
    out
}

/// Parse one raw subrecord inside `input[..end]`, returning it and the
/// position just after it.
pub fn subrecord(input: &Vec<u8>, pos: usize, end: usize) -> (r: Result<
    (Subrecord, usize),
    ParseError,
>)
    requires
        pos <= end <= input@.len(),
    ensures
        match r {
            Ok((v, next)) => s_subrecord(input@, pos as int, end as int) == Some(
                (v@, next as int),
            ) && pos < next <= end,
            Err(_) => s_subrecord(input@, pos as int, end as int) is None,
        },
{
    if end - pos >= 6 {
        let size = read_le_u16_at(input, pos + 4);
        if end - pos - 6 >= size as usize {
            let header = SubrecordHeader { code: read_code_at(input, pos), size };
            let data = read_range(input, pos + 6, pos + 6 + size as usize);
            let sub = Subrecord { header, data };
            let next = pos + 6 + size as usize;
            proof {
                assert(s_subrecord(input@, pos as int, end as int) == Some(
                    (sub@, next as int),
                ));
            }
            Ok((sub, next))
        } else {
            Err(ParseError::new("subrecord payload runs past its window"))
        }
    } else {
        Err(ParseError::new("window too short for a subrecord header"))
    }
}

/// Parse the run of raw subrecords inside `input[pos..end]`; the run
/// stops at the first position where no subrecord parses, and trailing
/// bytes are discarded.
fn subrecords(input: &Vec<u8>, pos: usize, end: usize) -> (r: Vec<Subrecord>)
    requires
        pos <= end <= input@.len(),
    ensures
        Seq::new(r@.len(), |j: int| r@[j]@) == s_subrecords(input@, pos as int, end as int),
{
    let mut subs: Vec<Subrecord> = Vec::new();
    let mut i: usize = pos;
    loop
        invariant
            pos <= i <= end <= input@.len(),
            s_subrecords(input@, pos as int, end as int) == Seq::new(
                subs@.len(),
                |j: int| subs@[j]@,
            ) + s_subrecords(input@, i as int, end as int),
        ensures
            s_subrecords(input@, i as int, end as int) == Seq::<SubrecordView>::empty(),
            s_subrecords(input@, pos as int, end as int) == Seq::new(
                subs@.len(),
                |j: int| subs@[j]@,
            ) + s_subrecords(input@, i as int, end as int),
        decreases end - i,
    {
        match subrecord(input, i, end) {
            Err(_) => {
                break ;
            },
            Ok((sub, next)) => {
                let ghost old_views = Seq::new(subs@.len(), |j: int| subs@[j]@);
                let ghost subv = sub@;
                subs.push(sub);
                proof {
                    assert(Seq::new(subs@.len(), |j: int| subs@[j]@) =~= old_views.push(subv));
                    assert(old_views + (seq![subv] + s_subrecords(
                        input@,
                        next as int,
                        end as int,
                    )) =~= old_views.push(subv) + s_subrecords(input@, next as int, end as int));
                }
                i = next;
            },
        }
    }
    proof {
        assert(Seq::new(subs@.len(), |j: int| subs@[j]@) + Seq::<SubrecordView>::empty()
            =~= Seq::new(subs@.len(), |j: int| subs@[j]@));
    }
    subs
}

/// Parse one raw record inside `input[..end]`, returning it and the
/// position just after it.
pub fn record(input: &Vec<u8>, pos: usize, end: usize) -> (r: Result<(Record, usize), ParseError>)
    requires
        pos <= end <= input@.len(),
    ensures
        match r {
            Ok((v, next)) => s_record(input@, pos as int, end as int) == Some((v@, next as int))
                && pos < next <= end,
            Err(_) => s_record(input@, pos as int, end as int) is None,
        },
{
    if end - pos >= 24 {
        let size = read_le_u32_at(input, pos + 4);
        if end - pos - 24 >= size as usize {
            let header = RecordHeader {
                code: read_code_at(input, pos),
                size,
                flags: read_le_u32_at(input, pos + 8),
                id: read_le_u32_at(input, pos + 12),
                vc_info: read_le_u32_at(input, pos + 16),
                version: read_le_u16_at(input, pos + 20),
                unknown: read_le_u16_at(input, pos + 22),
            };
            let next = pos + 24 + size as usize;
            let subs = subrecords(input, pos + 24, next);
            let rec = Record { header, subrecords: subs };
            proof {
                assert(s_record(input@, pos as int, end as int) == Some((rec@, next as int)));
            }
            Ok((rec, next))
        } else {
            Err(ParseError::new("record payload runs past its window"))
        }
    } else {
        Err(ParseError::new("window too short for a record header"))
    }
}

/// Parse the run of raw records inside `input[pos..end]`; the run
/// stops at the first position where no record parses, and trailing
/// bytes are discarded.
fn records(input: &Vec<u8>, pos: usize, end: usize) -> (r: Vec<Record>)
    requires
        pos <= end <= input@.len(),
    ensures
        Seq::new(r@.len(), |j: int| r@[j]@) == s_records(input@, pos as int, end as int),
{
    let mut recs: Vec<Record> = Vec::new();
    let mut i: usize = pos;
    loop
        invariant
            pos <= i <= end <= input@.len(),
            s_records(input@, pos as int, end as int) == Seq::new(recs@.len(), |j: int| recs@[j]@)
                + s_records(input@, i as int, end as int),
        ensures
            s_records(input@, i as int, end as int) == Seq::<RecordView>::empty(),
            s_records(input@, pos as int, end as int) == Seq::new(recs@.len(), |j: int| recs@[j]@)
                + s_records(input@, i as int, end as int),
        decreases end - i,
    {
        match record(input, i, end) {
            Err(_) => {
                break ;
            },
            Ok((rec, next)) => {
                let ghost old_views = Seq::new(recs@.len(), |j: int| recs@[j]@);
                let ghost recv = rec@;
                recs.push(rec);
                proof {
                    assert(Seq::new(recs@.len(), |j: int| recs@[j]@) =~= old_views.push(recv));
                    assert(old_views + (seq![recv] + s_records(input@, next as int, end as int))
                        =~= old_views.push(recv) + s_records(input@, next as int, end as int));
                }
                i = next;
            },
        }
    }
    proof {
        assert(Seq::new(recs@.len(), |j: int| recs@[j]@) + Seq::<RecordView>::empty() =~= Seq::new(
            recs@.len(),
            |j: int| recs@[j]@,
        ));
    }
    recs
}

/// Parse one raw group inside `input[..end]`, returning it and the
/// position just after it.
pub fn group(input: &Vec<u8>, pos: usize, end: usize) -> (r: Result<(Group, usize), ParseError>)
    requires
        pos <= end <= input@.len(),
    ensures
        match r {
            Ok((v, next)) => s_group(input@, pos as int, end as int) == Some((v@, next as int))
                && pos < next <= end,
            Err(_) => s_group(input@, pos as int, end as int) is None,
        },
{
    if end - pos >= 24 {
        let size = read_le_u32_at(input, pos + 4);
        if size >= 24 && end - pos >= size as usize {
            let header = GroupHeader {
                code: read_code_at(input, pos),
                size,
                label: read_le_u32_at(input, pos + 8),
                group_type: read_le_i32_at(input, pos + 12),
                vc_info: read_le_u32_at(input, pos + 16),
                unknown: read_le_u32_at(input, pos + 20),
            };
            let next = pos + size as usize;
            let recs = records(input, pos + 24, next);
            let grp = Group { header, records: recs };
            proof {
                assert(s_group(input@, pos as int, end as int) == Some((grp@, next as int)));
            }
            Ok((grp, next))
        } else {
            Err(ParseError::new("group runs past its window or under-declares its header"))
        }
    } else {
        Err(ParseError::new("window too short for a group header"))
    }
}

/// Parse a whole raw plugin: one header record, then top-level groups
/// as far as they parse. Returns the plugin and the position where
/// parsing stopped; a caller that demands full consumption checks that
/// the position is the input length.
pub fn parse_plugin(input: &Vec<u8>) -> (r: Result<(Plugin, usize), ParseError>)
    ensures
        match r {
            Ok((p, stop)) => s_parse_plugin(input@) == Some((p@, stop as int)),
            Err(_) => s_parse_plugin(input@) is None,
        },
{
    let len = input.len();
    let (header, start) = match record(input, 0, len) {
        Ok(h) => h,
        Err(e) => {
            return Err(e);
        },
    };
    let mut groups: Vec<Group> = Vec::new();
    let mut i: usize = start;
    loop
        invariant
            start <= i <= len,
            len == input@.len(),
            s_record(input@, 0, len as int) == Some::<(RecordView, int)>((header@, start as int)),
            ({
                let rest = s_groups(input@, i as int, len as int);
                s_groups(input@, start as int, len as int) == (
                    Seq::new(groups@.len(), |j: int| groups@[j]@) + rest.0,
                    rest.1,
                )
            }),
        ensures
            s_group(input@, i as int, len as int) is None,
            ({
                let rest = s_groups(input@, i as int, len as int);
                s_groups(input@, start as int, len as int) == (
                    Seq::new(groups@.len(), |j: int| groups@[j]@) + rest.0,
                    rest.1,
                )
            }),
        decreases len - i,
    {
        match group(input, i, len) {
            Err(_) => {
                break ;
            },
            Ok((g, next)) => {
                let ghost old_views = Seq::new(groups@.len(), |j: int| groups@[j]@);
                let ghost gv = g@;
                groups.push(g);
                proof {
                    assert(Seq::new(groups@.len(), |j: int| groups@[j]@) =~= old_views.push(gv));
                    assert(old_views + (seq![gv] + s_groups(input@, next as int, len as int).0)
                        =~= old_views.push(gv) + s_groups(input@, next as int, len as int).0);
                }
                i = next;
            },
        }
    }
    let plugin = Plugin { header, top_groups: groups };
    proof {
        assert(s_groups(input@, i as int, len as int) == (Seq::<GroupView>::empty(), i as int));
        assert(Seq::new(plugin.top_groups@.len(), |j: int| plugin.top_groups@[j]@) + Seq::<
            GroupView,
        >::empty() =~= Seq::new(plugin.top_groups@.len(), |j: int| plugin.top_groups@[j]@));
        assert(s_parse_plugin(input@) == Some((plugin@, i as int)));
    }
    Ok((plugin, i))
}

/// Mirror of [`read_plugin`]: the whole-stream parse, demanding that
/// every byte of the input is consumed.
pub open spec fn s_read_plugin(s: Seq<u8>) -> Option<PluginView> {
    match s_parse_plugin(s) {
        None => None,
        Some((p, stop)) => if stop == s.len() {
            Some(p)
        } else {
            None
        },
    }
}

/// Parse a whole raw plugin and demand that the parse consumed every
/// byte of the input: a trailing remainder is a parse failure, never a
/// silently partial plugin.
pub fn read_plugin(input: &Vec<u8>) -> (r: Result<Plugin, ParseError>)
    ensures
        match r {
            Ok(p) => s_read_plugin(input@) == Some(p@),
            Err(_) => s_read_plugin(input@) is None,
        },
{
    let (plugin, stop) = match parse_plugin(input) {
        Ok(p) => p,
        Err(e) => {
            return Err(e);
        },
    };
    if stop == input.len() {
        Ok(plugin)
    } else {
        Err(ParseError::new("parser failed to interpret all bytes"))
    }
}


impl Group {
    /// The record-kind tag of a top-level group: its label field,
    /// reinterpreted as a type code. A non-top group carries no kind.
    pub fn type_code(&self) -> (r: Option<TypeCode>)
        ensures
            match r {
                Some(tc) => self.header.group_type == 0 && tc@ == le_bytes_of_u32(
                    self.header.label,
                ),
                None => self.header.group_type != 0,
            },
    {
        if self.header.group_type == 0 {
            Some(TypeCode::from_u32(self.header.label))
        } else {
            None
        }
    }

    /// Whether this group is a top-level group of the given kind.
    pub fn top_group_matches_type(&self, code: TypeCode) -> (r: bool)
        ensures
            r == (self.header.group_type == 0 && le_bytes_of_u32(self.header.label) == code@),
    {
        match self.type_code() {
            Some(tc) => tc.eq_code(&code),
            None => false,
        }
    }
}

/// Index of the first subrecord carrying the "EDID" code; the length
/// when there is none.
pub open spec fn first_edid_index(subs: Seq<SubrecordView>) -> int
    decreases subs.len(),
{
    if subs.len() == 0 {
        0
    } else if subs[0].header.code == edid_code_bytes() {
        0
    } else {
        1 + first_edid_index(subs.drop_first())
    }
}

/// What [`first_edid_index`] finds.
pub proof fn lemma_first_edid_index(subs: Seq<SubrecordView>)
    ensures
        0 <= first_edid_index(subs) <= subs.len(),
        first_edid_index(subs) < subs.len() ==> subs[first_edid_index(subs)].header.code
            == edid_code_bytes(),
        forall|j: int| 0 <= j < first_edid_index(subs) ==> subs[j].header.code
            != edid_code_bytes(),
    decreases subs.len(),
{
    if subs.len() > 0 && subs[0].header.code != edid_code_bytes() {
        lemma_first_edid_index(subs.drop_first());
        assert forall|j: int| 0 <= j < first_edid_index(subs) implies subs[j].header.code
            != edid_code_bytes() by {
            if j > 0 {
                assert(subs.drop_first()[j - 1].header.code != edid_code_bytes());
            }
        }
    }
}

/// Mirror of [`Record::editor_id`]: the payload of the first "EDID"
/// subrecord, decoded as UTF-8; nothing when there is no such
/// subrecord or its payload is not valid UTF-8.
pub open spec fn s_editor_id(r: RecordView) -> Option<Seq<char>> {
    let i = first_edid_index(r.subrecords);
    if i < r.subrecords.len() {
        let d = r.subrecords[i].data;
        if valid_utf8(d) {
            Some(decode_utf8(d))
        } else {
            None
        }
    } else {
        None
    }
}

/// Copy the bytes of a vector.
fn copy_bytes(v: &Vec<u8>) -> (r: Vec<u8>)
    ensures
        r@ == v@,
{
    let mut out: Vec<u8> = Vec::new();
    let mut i: usize = 0;
    while i < v.len()
        invariant
            i <= v@.len(),
            out@ == v@.subrange(0, i as int),
        decreases v@.len() - i,
    {
        out.push(v[i]);
        i = i + 1;
        proof {
            assert(out@ =~= v@.subrange(0, i as int));
        }
    }
    proof {
        assert(out@ =~= v@);
    }
    out
}

impl Record {
    /// The editor id of this record: the payload of its first "EDID"
    /// subrecord as a string, when one exists and holds valid UTF-8.
    #[verifier::loop_isolation(false)]
    pub fn editor_id(&self) -> (r: Option<String>)
        ensures
            match r {
                Some(s) => s_editor_id(self@) == Some(s@),
                None => s_editor_id(self@) is None,
            },
    {
        proof {
            lemma_first_edid_index(self@.subrecords);
        }
        let n = self.subrecords.len();
        let mut i: usize = 0;
        while i < n
            invariant
                i <= n,
                forall|j: int| 0 <= j < i ==> self@.subrecords[j].header.code
                    != edid_code_bytes(),
            decreases n - i,
        {
            let code = &self.subrecords[i].header.code;
            if code.code[0] == 0x45 && code.code[1] == 0x44 && code.code[2] == 0x49 && code.code[3]
                == 0x44 {
                proof {
                    assert(self@.subrecords[i as int].header.code =~= edid_code_bytes());
                    assert(first_edid_index(self@.subrecords) == i);
                }
                let bytes = copy_bytes(&self.subrecords[i].data);
                return match bytes_to_string(bytes) {
                    Some(s) => Some(s),
                    None => None,
                };
            }
            proof {
                assert(self@.subrecords[i as int].header.code != edid_code_bytes());
            }
            i = i + 1;
        }
        None
    }
}

} // verus!
