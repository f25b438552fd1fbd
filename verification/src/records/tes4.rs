//! The file-header record kind ("TES4"): plugin-wide metadata at the
//! start of every plugin file.

use vstd::prelude::*;

use crate::cursor::{
    clamp0, s_read_le_i32, s_read_le_u32, s_read_le_u64, s_skip_subrecord, Cursor, CursorModel,
    Decoded,
};
use crate::error::DecodeError;
use crate::read::{opt_view, Readable};
use crate::records::record::Record;
use crate::subrecords::subrecord::{s_read_subrecord_type, Subrecord, SubrecordType, SubrecordView};
use crate::types::{s_read_zstring, ZString};

verus! {

/// The raw big-endian tag code of the file-header record ("TES4").
pub const CODE: u32 = 0x5445_5334;

/// The bits of [`PluginFlags`] the catalogue names; any other bit makes
/// the whole set fall back to empty.
pub const PLUGIN_FLAGS_MASK: u32 = 0x0000_0281;

pub const PLUGIN_FLAG_MASTER_FILE: u32 = 0x0000_0001;

pub const PLUGIN_FLAG_LOCALIZED: u32 = 0x0000_0080;

pub const PLUGIN_FLAG_LIGHT_MASTER: u32 = 0x0000_0200;

/// The flag bit-set of the file-header record.
#[derive(Debug, Clone, Copy, PartialEq, Eq, Structural)]
pub struct PluginFlags {
    pub bits: u32,
}

impl View for PluginFlags {
    type V = PluginFlags;

    open spec fn view(&self) -> PluginFlags {
        *self
    }
}

impl PluginFlags {
    /// The flag set a raw field decodes to: the bits themselves when all
    /// are known, the empty set otherwise.
    pub open spec fn spec_from_bits(bits: u32) -> PluginFlags {
        if bits & !PLUGIN_FLAGS_MASK == 0 {
            PluginFlags { bits }
        } else {
            PluginFlags { bits: 0 }
        }
    }

    /// Decode a raw flag field; unknown bits clear the whole set.
    pub fn from_bits(bits: u32) -> (r: PluginFlags)
        ensures
            r == PluginFlags::spec_from_bits(bits),
    {
        if bits & !PLUGIN_FLAGS_MASK == 0 {
            PluginFlags { bits }
        } else {
            PluginFlags { bits: 0 }
        }
    }

    /// Whether every bit of `mask` is set.
    pub fn contains(&self, mask: u32) -> (r: bool)
        ensures
            r == (self.bits & mask == mask),
    {
        self.bits & mask == mask
    }
}

impl Default for PluginFlags {
    /// The empty flag set.
    fn default() -> (r: PluginFlags)
        ensures
            r.bits == 0,
    {
        PluginFlags { bits: 0 }
    }
}

/// Mirror of the [`PluginFlags`] decode.
#[verifier::inline]
pub open spec fn s_read_plugin_flags(c: CursorModel) -> Decoded<PluginFlags> {
    match s_read_le_u32(c) {
        Ok((bits, c2)) => Ok((PluginFlags::spec_from_bits(bits), c2)),
        Err(k) => Err(k),
    }
}

impl Readable for PluginFlags {
    open spec fn s_read(c: CursorModel) -> Decoded<PluginFlags> {
        s_read_plugin_flags(c)
    }

    proof fn s_read_progress(c: CursorModel) {
    }

    fn read(cursor: &mut Cursor) -> (r: Result<PluginFlags, DecodeError>) {
        proof {
            assert(PluginFlags::s_read(old(cursor)@) == s_read_plugin_flags(old(cursor)@));
        }
        match cursor.read_le_u32() {
            Ok(bits) => Ok(PluginFlags::from_bits(bits)),
            Err(e) => Err(e),
        }
    }
}

/// Payload of a `HEDR` subrecord: the format version (kept as the raw
/// bits of the 32-bit float the format stores), the number of records,
/// and the next available object id.
#[derive(Debug, Clone, Copy, PartialEq, Eq, Structural)]
pub struct HEDRData {
    /// Raw bits of the little-endian 32-bit float version field; the
    /// decoder carries them through uninterpreted.
    pub version_bits: u32,
    pub num_records: i32,
    pub next_id: u32,
}

impl View for HEDRData {
    type V = HEDRData;

    open spec fn view(&self) -> HEDRData {
        *self
    }
}

/// Mirror of the [`HEDRData`] decode.
#[verifier::inline]
pub open spec fn s_read_hedr(c: CursorModel) -> Decoded<HEDRData> {
    match s_read_le_u32(c) {
        Err(k) => Err(k),
        Ok((version_bits, c1)) => match s_read_le_i32(c1) {
            Err(k) => Err(k),
            Ok((num_records, c2)) => match s_read_le_u32(c2) {
                Err(k) => Err(k),
                Ok((next_id, c3)) => Ok((HEDRData { version_bits, num_records, next_id }, c3)),
            },
        },
    }
}

impl Readable for HEDRData {
    open spec fn s_read(c: CursorModel) -> Decoded<HEDRData> {
        s_read_hedr(c)
    }

    proof fn s_read_progress(c: CursorModel) {
    }

    fn read(cursor: &mut Cursor) -> (r: Result<HEDRData, DecodeError>) {
        proof {
            assert(HEDRData::s_read(old(cursor)@) == s_read_hedr(old(cursor)@));
        }
        let version_bits = match cursor.read_le_u32() {
            Ok(v) => v,
            Err(e) => {
                return Err(e);
            },
        };
        let num_records = match cursor.read_le_i32() {
            Ok(v) => v,
            Err(e) => {
                return Err(e);
            },
        };
        let next_id = match cursor.read_le_u32() {
            Ok(v) => v,
            Err(e) => {
                return Err(e);
            },
        };
        Ok(HEDRData { version_bits, num_records, next_id })
    }
}

/// Payload of a `CNAM` subrecord of the file header: the author.
#[derive(Debug, Clone, PartialEq, Eq)]
pub struct CNAMData {
    pub author: ZString,
}

impl View for CNAMData {
    type V = Seq<char>;

    open spec fn view(&self) -> Seq<char> {
        self.author@
    }
}

impl Readable for CNAMData {
    open spec fn s_read(c: CursorModel) -> Decoded<Seq<char>> {
        s_read_zstring(c)
    }

    proof fn s_read_progress(c: CursorModel) {
        ZString::s_read_progress(c);
    }

    fn read(cursor: &mut Cursor) -> (r: Result<CNAMData, DecodeError>) {
        proof {
            assert(CNAMData::s_read(old(cursor)@) == s_read_zstring(old(cursor)@));
        }
        match ZString::read(cursor) {
            Ok(author) => Ok(CNAMData { author }),
            Err(e) => Err(e),
        }
    }
}

/// Payload of an `SNAM` subrecord of the file header: the description.
#[derive(Debug, Clone, PartialEq, Eq)]
pub struct SNAMData {
    pub description: ZString,
}

impl View for SNAMData {
    type V = Seq<char>;

    open spec fn view(&self) -> Seq<char> {
        self.description@
    }
}

impl Readable for SNAMData {
    open spec fn s_read(c: CursorModel) -> Decoded<Seq<char>> {
        s_read_zstring(c)
    }

    proof fn s_read_progress(c: CursorModel) {
        ZString::s_read_progress(c);
    }

    fn read(cursor: &mut Cursor) -> (r: Result<SNAMData, DecodeError>) {
        proof {
            assert(SNAMData::s_read(old(cursor)@) == s_read_zstring(old(cursor)@));
        }
        match ZString::read(cursor) {
            Ok(description) => Ok(SNAMData { description }),
            Err(e) => Err(e),
        }
    }
}

/// Payload of a `MAST` subrecord: the file name of a master plugin.
#[derive(Debug, Clone, PartialEq, Eq)]
pub struct MASTData {
    pub master: ZString,
}

impl View for MASTData {
    type V = Seq<char>;

    open spec fn view(&self) -> Seq<char> {
        self.master@
    }
}

impl Readable for MASTData {
    open spec fn s_read(c: CursorModel) -> Decoded<Seq<char>> {
        s_read_zstring(c)
    }

    proof fn s_read_progress(c: CursorModel) {
        ZString::s_read_progress(c);
    }

    fn read(cursor: &mut Cursor) -> (r: Result<MASTData, DecodeError>) {
        proof {
            assert(MASTData::s_read(old(cursor)@) == s_read_zstring(old(cursor)@));
        }
        match ZString::read(cursor) {
            Ok(master) => Ok(MASTData { master }),
            Err(e) => Err(e),
        }
    }
}

/// Payload of a `DATA` subrecord of the file header: the byte size of a
/// master plugin.
#[derive(Debug, Clone, Copy, PartialEq, Eq, Structural)]
pub struct DATAData {
    pub file_size: u64,
}

impl View for DATAData {
    type V = DATAData;

    open spec fn view(&self) -> DATAData {
        *self
    }
}

/// Mirror of the [`DATAData`] decode.
#[verifier::inline]
pub open spec fn s_read_data(c: CursorModel) -> Decoded<DATAData> {
    match s_read_le_u64(c) {
        Ok((file_size, c2)) => Ok((DATAData { file_size }, c2)),
        Err(k) => Err(k),
    }
}

impl Readable for DATAData {
    open spec fn s_read(c: CursorModel) -> Decoded<DATAData> {
        s_read_data(c)
    }

    proof fn s_read_progress(c: CursorModel) {
    }

    fn read(cursor: &mut Cursor) -> (r: Result<DATAData, DecodeError>) {
        proof {
            assert(DATAData::s_read(old(cursor)@) == s_read_data(old(cursor)@));
        }
        match cursor.read_le_u64() {
            Ok(file_size) => Ok(DATAData { file_size }),
            Err(e) => Err(e),
        }
    }
}

/// Payload of an `ONAM` subrecord: the ordered array of override form
/// ids, decoded by repeating the element decode while the subrecord
/// budget remains positive.
#[derive(Debug, Clone, PartialEq, Eq)]
pub struct ONAMData {
    pub overrides: Vec<u32>,
}

impl View for ONAMData {
    type V = Seq<u32>;

    open spec fn view(&self) -> Seq<u32> {
        self.overrides@
    }
}

impl ONAMData {
    /// Mirror of the element loop of [`ONAMData::read`].
    pub open spec fn s_read_elems(c: CursorModel, acc: Seq<u32>) -> Decoded<Seq<u32>>
        decreases clamp0(c.subrecord_left),
    {
        if c.subrecord_left <= 0 {
            Ok((acc, c))
        } else {
            match s_read_le_u32(c) {
                Err(k) => Err(k),
                Ok((v, c2)) => Self::s_read_elems(c2, acc.push(v)),
            }
        }
    }

    /// On success the element loop moves the position forward inside
    /// the buffer and moves every budget but the subrecord budget in
    /// lockstep with it.
    pub proof fn s_read_elems_progress(c: CursorModel, acc: Seq<u32>)
        requires
            0 <= c.pos <= c.data.len(),
        ensures
            Self::s_read_elems(c, acc) matches Ok((v, c2)) ==> {
                &&& c.pos <= c2.pos <= c.data.len()
                &&& c2.data == c.data
                &&& c2.group_left == c.group_left - (c2.pos - c.pos)
                &&& c2.record_left == c.record_left - (c2.pos - c.pos)
            },
        decreases clamp0(c.subrecord_left),
    {
        if c.subrecord_left > 0 {
            match s_read_le_u32(c) {
                Err(_) => {},
                Ok((v, c2)) => {
                    Self::s_read_elems_progress(c2, acc.push(v));
                },
            }
        }
    }
}

impl Readable for ONAMData {
    open spec fn s_read(c: CursorModel) -> Decoded<Seq<u32>> {
        ONAMData::s_read_elems(c, Seq::empty())
    }

    proof fn s_read_progress(c: CursorModel) {
        ONAMData::s_read_elems_progress(c, Seq::empty());
    }

    #[verifier::loop_isolation(false)]
    fn read(cursor: &mut Cursor) -> (r: Result<ONAMData, DecodeError>) {
        proof {
            assert(ONAMData::s_read(old(cursor)@) == ONAMData::s_read_elems(
                old(cursor)@,
                Seq::empty(),
            ));
        }
        let ghost c0 = cursor@;
        let mut overrides: Vec<u32> = Vec::new();
        proof {
            assert(overrides@ =~= Seq::<u32>::empty());
        }
        while cursor.subrecord_remaining() > 0
            invariant
                cursor@.wf(),
                ONAMData::s_read_elems(c0, Seq::empty()) == ONAMData::s_read_elems(
                    cursor@,
                    overrides@,
                ),
            decreases clamp0(cursor@.subrecord_left),
        {
            match cursor.read_le_u32() {
                Ok(v) => overrides.push(v),
                Err(e) => {
                    return Err(e);
                },
            }
        }
        Ok(ONAMData { overrides })
    }
}

/// Payload of an `INTV` subrecord: the internal version.
#[derive(Debug, Clone, Copy, PartialEq, Eq, Structural)]
pub struct INTVData {
    pub internal_version: u32,
}

impl View for INTVData {
    type V = INTVData;

    open spec fn view(&self) -> INTVData {
        *self
    }
}

/// Mirror of the [`INTVData`] decode.
#[verifier::inline]
pub open spec fn s_read_intv(c: CursorModel) -> Decoded<INTVData> {
    match s_read_le_u32(c) {
        Ok((internal_version, c2)) => Ok((INTVData { internal_version }, c2)),
        Err(k) => Err(k),
    }
}

impl Readable for INTVData {
    open spec fn s_read(c: CursorModel) -> Decoded<INTVData> {
        s_read_intv(c)
    }

    proof fn s_read_progress(c: CursorModel) {
    }

    fn read(cursor: &mut Cursor) -> (r: Result<INTVData, DecodeError>) {
        proof {
            assert(INTVData::s_read(old(cursor)@) == s_read_intv(old(cursor)@));
        }
        match cursor.read_le_u32() {
            Ok(internal_version) => Ok(INTVData { internal_version }),
            Err(e) => Err(e),
        }
    }
}

/// Payload of an `INCC` subrecord: an uninterpreted word.
#[derive(Debug, Clone, Copy, PartialEq, Eq, Structural)]
pub struct INCCData {
    pub unknown: u32,
}

impl View for INCCData {
    type V = INCCData;

    open spec fn view(&self) -> INCCData {
        *self
    }
}

/// Mirror of the [`INCCData`] decode.
#[verifier::inline]
pub open spec fn s_read_incc(c: CursorModel) -> Decoded<INCCData> {
    match s_read_le_u32(c) {
        Ok((unknown, c2)) => Ok((INCCData { unknown }, c2)),
        Err(k) => Err(k),
    }
}

impl Readable for INCCData {
    open spec fn s_read(c: CursorModel) -> Decoded<INCCData> {
        s_read_incc(c)
    }

    proof fn s_read_progress(c: CursorModel) {
    }

    fn read(cursor: &mut Cursor) -> (r: Result<INCCData, DecodeError>) {
        proof {
            assert(INCCData::s_read(old(cursor)@) == s_read_incc(old(cursor)@));
        }
        match cursor.read_le_u32() {
            Ok(unknown) => Ok(INCCData { unknown }),
            Err(e) => Err(e),
        }
    }
}

pub type TES4 = Record<PluginFlags, TES4Data>;

pub type HEDRSubrecord = Subrecord<HEDRData>;

pub type CNAMSubrecord = Subrecord<CNAMData>;

pub type SNAMSubrecord = Subrecord<SNAMData>;

pub type MASTSubrecord = Subrecord<MASTData>;

pub type DATASubrecord = Subrecord<DATAData>;

pub type ONAMSubrecord = Subrecord<ONAMData>;

pub type INTVSubrecord = Subrecord<INTVData>;

pub type INCCSubrecord = Subrecord<INCCData>;

/// Payload of the file-header record: each known subrecord kind appears
/// at most once, stored in an optional slot. The policy for
/// unrecognized subrecord kinds is lenient: one is skipped, its bytes
/// consumed through the normal budget mechanism and discarded.
#[derive(Debug, Clone, PartialEq, Eq)]
pub struct TES4Data {
    pub hedr: Option<HEDRSubrecord>,
    pub cnam: Option<CNAMSubrecord>,
    pub snam: Option<SNAMSubrecord>,
    pub mast: Option<MASTSubrecord>,
    pub data: Option<DATASubrecord>,
    pub onam: Option<ONAMSubrecord>,
    pub intv: Option<INTVSubrecord>,
    pub incc: Option<INCCSubrecord>,
}

/// View of a [`TES4Data`].
pub struct TES4DataView {
    pub hedr: Option<SubrecordView<HEDRData>>,
    pub cnam: Option<SubrecordView<Seq<char>>>,
    pub snam: Option<SubrecordView<Seq<char>>>,
    pub mast: Option<SubrecordView<Seq<char>>>,
    pub data: Option<SubrecordView<DATAData>>,
    pub onam: Option<SubrecordView<Seq<u32>>>,
    pub intv: Option<SubrecordView<INTVData>>,
    pub incc: Option<SubrecordView<INCCData>>,
}

impl TES4DataView {
    /// The state of the slots before the dispatch loop runs.
    pub open spec fn empty() -> TES4DataView {
        TES4DataView {
            hedr: None,
            cnam: None,
            snam: None,
            mast: None,
            data: None,
            onam: None,
            intv: None,
            incc: None,
        }
    }
}

impl View for TES4Data {
    type V = TES4DataView;

    open spec fn view(&self) -> TES4DataView {
        TES4DataView {
            hedr: opt_view(self.hedr),
            cnam: opt_view(self.cnam),
            snam: opt_view(self.snam),
            mast: opt_view(self.mast),
            data: opt_view(self.data),
            onam: opt_view(self.onam),
            intv: opt_view(self.intv),
            incc: opt_view(self.incc),
        }
    }
}

impl TES4Data {
    /// Mirror of the dispatch loop of [`TES4Data::read`]: while the
    /// record budget is positive, classify a subrecord tag and decode
    /// into the matching slot; an unrecognized kind is skipped.
    pub open spec fn s_read_fields(c: CursorModel, acc: TES4DataView) -> Decoded<TES4DataView>
        decreases clamp0(c.record_left),
        when 0 <= c.pos <= c.data.len()
    {
        if c.record_left <= 0 {
            Ok((acc, c))
        } else {
            match s_read_subrecord_type(c) {
                Err(k) => Err(k),
                Ok((t, c1)) => match t {
                    SubrecordType::HEDR => match HEDRSubrecord::s_read(c1) {
                        Err(k) => Err(k),
                        Ok((sr, c2)) => {
                            proof {
                                HEDRSubrecord::s_read_progress(c1);
                            }
                            Self::s_read_fields(c2, TES4DataView { hedr: Some(sr), ..acc })
                        },
                    },
                    SubrecordType::CNAM => match CNAMSubrecord::s_read(c1) {
                        Err(k) => Err(k),
                        Ok((sr, c2)) => {
                            proof {
                                CNAMSubrecord::s_read_progress(c1);
                            }
                            Self::s_read_fields(c2, TES4DataView { cnam: Some(sr), ..acc })
                        },
                    },
                    SubrecordType::SNAM => match SNAMSubrecord::s_read(c1) {
                        Err(k) => Err(k),
                        Ok((sr, c2)) => {
                            proof {
                                SNAMSubrecord::s_read_progress(c1);
                            }
                            Self::s_read_fields(c2, TES4DataView { snam: Some(sr), ..acc })
                        },
                    },
                    SubrecordType::MAST => match MASTSubrecord::s_read(c1) {
                        Err(k) => Err(k),
                        Ok((sr, c2)) => {
                            proof {
                                MASTSubrecord::s_read_progress(c1);
                            }
                            Self::s_read_fields(c2, TES4DataView { mast: Some(sr), ..acc })
                        },
                    },
                    SubrecordType::DATA => match DATASubrecord::s_read(c1) {
                        Err(k) => Err(k),
                        Ok((sr, c2)) => {
                            proof {
                                DATASubrecord::s_read_progress(c1);
                            }
                            Self::s_read_fields(c2, TES4DataView { data: Some(sr), ..acc })
                        },
                    },
                    SubrecordType::ONAM => match ONAMSubrecord::s_read(c1) {
                        Err(k) => Err(k),
                        Ok((sr, c2)) => {
                            proof {
                                ONAMSubrecord::s_read_progress(c1);
                            }
                            Self::s_read_fields(c2, TES4DataView { onam: Some(sr), ..acc })
                        },
                    },
                    SubrecordType::INTV => match INTVSubrecord::s_read(c1) {
                        Err(k) => Err(k),
                        Ok((sr, c2)) => {
                            proof {
                                INTVSubrecord::s_read_progress(c1);
                            }
                            Self::s_read_fields(c2, TES4DataView { intv: Some(sr), ..acc })
                        },
                    },
                    SubrecordType::INCC => match INCCSubrecord::s_read(c1) {
                        Err(k) => Err(k),
                        Ok((sr, c2)) => {
                            proof {
                                INCCSubrecord::s_read_progress(c1);
                            }
                            Self::s_read_fields(c2, TES4DataView { incc: Some(sr), ..acc })
                        },
                    },
                    _ => match s_skip_subrecord(c1) {
                        Err(k) => Err(k),
                        Ok(c2) => Self::s_read_fields(c2, acc),
                    },
                },
            }
        }
    }

    /// On success the dispatch loop moves the position forward inside
    /// the buffer and moves the group and record budgets in lockstep
    /// with it.
    pub proof fn s_read_fields_progress(c: CursorModel, acc: TES4DataView)
        requires
            0 <= c.pos <= c.data.len(),
        ensures
            Self::s_read_fields(c, acc) matches Ok((v, c2)) ==> {
                &&& c.pos <= c2.pos <= c.data.len()
                &&& c2.data == c.data
                &&& c2.group_left == c.group_left - (c2.pos - c.pos)
                &&& c2.record_left == c.record_left - (c2.pos - c.pos)
            },
        decreases clamp0(c.record_left),
    {
        if c.record_left > 0 {
            match s_read_subrecord_type(c) {
                Err(_) => {},
                Ok((t, c1)) => match t {
                    SubrecordType::HEDR => {
                        match HEDRSubrecord::s_read(c1) {
                            Err(_) => {},
                            Ok((sr, c2)) => {
                                HEDRSubrecord::s_read_progress(c1);
                            Self::s_read_fields_progress(c2, TES4DataView { hedr: Some(sr), ..acc });
                            },
                        }
                    },
                    SubrecordType::CNAM => {
                        match CNAMSubrecord::s_read(c1) {
                            Err(_) => {},
                            Ok((sr, c2)) => {
                                CNAMSubrecord::s_read_progress(c1);
                            Self::s_read_fields_progress(c2, TES4DataView { cnam: Some(sr), ..acc });
                            },
                        }
                    },
                    SubrecordType::SNAM => {
                        match SNAMSubrecord::s_read(c1) {
                            Err(_) => {},
                            Ok((sr, c2)) => {
                                SNAMSubrecord::s_read_progress(c1);
                            Self::s_read_fields_progress(c2, TES4DataView { snam: Some(sr), ..acc });
                            },
                        }
                    },
                    SubrecordType::MAST => {
                        match MASTSubrecord::s_read(c1) {
                            Err(_) => {},
                            Ok((sr, c2)) => {
                                MASTSubrecord::s_read_progress(c1);
                            Self::s_read_fields_progress(c2, TES4DataView { mast: Some(sr), ..acc });
                            },
                        }
                    },
                    SubrecordType::DATA => {
                        match DATASubrecord::s_read(c1) {
                            Err(_) => {},
                            Ok((sr, c2)) => {
                                DATASubrecord::s_read_progress(c1);
                            Self::s_read_fields_progress(c2, TES4DataView { data: Some(sr), ..acc });
                            },
                        }
                    },
                    SubrecordType::ONAM => {
                        match ONAMSubrecord::s_read(c1) {
                            Err(_) => {},
                            Ok((sr, c2)) => {
                                ONAMSubrecord::s_read_progress(c1);
                            Self::s_read_fields_progress(c2, TES4DataView { onam: Some(sr), ..acc });
                            },
                        }
                    },
                    SubrecordType::INTV => {
                        match INTVSubrecord::s_read(c1) {
                            Err(_) => {},
                            Ok((sr, c2)) => {
                                INTVSubrecord::s_read_progress(c1);
                            Self::s_read_fields_progress(c2, TES4DataView { intv: Some(sr), ..acc });
                            },
                        }
                    },
                    SubrecordType::INCC => {
                        match INCCSubrecord::s_read(c1) {
                            Err(_) => {},
                            Ok((sr, c2)) => {
                                INCCSubrecord::s_read_progress(c1);
                            Self::s_read_fields_progress(c2, TES4DataView { incc: Some(sr), ..acc });
                            },
                        }
                    },
                    _ => {
                        match s_skip_subrecord(c1) {
                            Err(_) => {},
                            Ok(c2) => {
                                Self::s_read_fields_progress(c2, acc);
                            },
                        }
                    },
                },
            }
        }
    }
}

impl Readable for TES4Data {
    open spec fn s_read(c: CursorModel) -> Decoded<TES4DataView> {
        TES4Data::s_read_fields(c, TES4DataView::empty())
    }

    proof fn s_read_progress(c: CursorModel) {
        TES4Data::s_read_fields_progress(c, TES4DataView::empty());
    }

    #[verifier::loop_isolation(false)]
    fn read(cursor: &mut Cursor) -> (r: Result<TES4Data, DecodeError>) {
        proof {
            assert(TES4Data::s_read(old(cursor)@) == TES4Data::s_read_fields(
                old(cursor)@,
                TES4DataView::empty(),
            ));
        }
        let ghost c0 = cursor@;
        let mut rec = TES4Data {
            hedr: None,
            cnam: None,
            snam: None,
            mast: None,
            data: None,
            onam: None,
            intv: None,
            incc: None,
        };
        while cursor.record_remaining() > 0
            invariant
                cursor@.wf(),
                TES4Data::s_read_fields(c0, TES4DataView::empty()) == TES4Data::s_read_fields(
                    cursor@,
                    rec@,
                ),
            decreases clamp0(cursor@.record_left),
        {
            let t = match cursor.read_subrecord_type() {
                Ok(t) => t,
                Err(e) => {
                    return Err(e);
                },
            };
            let ghost c_mid = cursor@;
            match t {
                SubrecordType::HEDR => {
                    match HEDRSubrecord::read(cursor) {
                        Ok(sr) => {
                            rec.hedr = Some(sr);
                        },
                        Err(e) => {
                            return Err(e);
                        },
                    }
                    proof {
                        HEDRSubrecord::s_read_progress(c_mid);
                    }
                },
                SubrecordType::CNAM => {
                    match CNAMSubrecord::read(cursor) {
                        Ok(sr) => {
                            rec.cnam = Some(sr);
                        },
                        Err(e) => {
                            return Err(e);
                        },
                    }
                    proof {
                        CNAMSubrecord::s_read_progress(c_mid);
                    }
                },
                SubrecordType::SNAM => {
                    match SNAMSubrecord::read(cursor) {
                        Ok(sr) => {
                            rec.snam = Some(sr);
                        },
                        Err(e) => {
                            return Err(e);
                        },
                    }
                    proof {
                        SNAMSubrecord::s_read_progress(c_mid);
                    }
                },
                SubrecordType::MAST => {
                    match MASTSubrecord::read(cursor) {
                        Ok(sr) => {
                            rec.mast = Some(sr);
                        },
                        Err(e) => {
                            return Err(e);
                        },
                    }
                    proof {
                        MASTSubrecord::s_read_progress(c_mid);
                    }
                },
                SubrecordType::DATA => {
                    match DATASubrecord::read(cursor) {
                        Ok(sr) => {
                            rec.data = Some(sr);
                        },
                        Err(e) => {
                            return Err(e);
                        },
                    }
                    proof {
                        DATASubrecord::s_read_progress(c_mid);
                    }
                },
                SubrecordType::ONAM => {
                    match ONAMSubrecord::read(cursor) {
                        Ok(sr) => {
                            rec.onam = Some(sr);
                        },
                        Err(e) => {
                            return Err(e);
                        },
                    }
                    proof {
                        ONAMSubrecord::s_read_progress(c_mid);
                    }
                },
                SubrecordType::INTV => {
                    match INTVSubrecord::read(cursor) {
                        Ok(sr) => {
                            rec.intv = Some(sr);
                        },
                        Err(e) => {
                            return Err(e);
                        },
                    }
                    proof {
                        INTVSubrecord::s_read_progress(c_mid);
                    }
                },
                SubrecordType::INCC => {
                    match INCCSubrecord::read(cursor) {
                        Ok(sr) => {
                            rec.incc = Some(sr);
                        },
                        Err(e) => {
                            return Err(e);
                        },
                    }
                    proof {
                        INCCSubrecord::s_read_progress(c_mid);
                    }
                },
                _ => {
                    match cursor.skip_subrecord() {
                        Ok(_) => (),
                        Err(e) => {
                            return Err(e);
                        },
                    }
                },
            }
        }
        Ok(rec)
    }
}

} // verus!
