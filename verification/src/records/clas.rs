//! The class record kind ("CLAS"): an editor id, localized name and
//! description, an icon path, and class data.

use vstd::prelude::*;
use vstd::string::StringExecFns;

use crate::cursor::{
    clamp0, s_read_bytes, s_read_le_u32, s_read_u8, Cursor, CursorModel, Decoded,
};
use crate::error::{DecodeError, DecodeErrorKind};
use crate::read::{opt_view, Readable};
use crate::records::record::{Record, RecordFlags};
use crate::subrecords::common::EDIDData;
use crate::subrecords::subrecord::{s_read_subrecord_type, Subrecord, SubrecordType, SubrecordView};
use crate::types::{s_read_lstring, s_read_zstring, LString, ZString};

verus! {

pub type CLASRecord = Record<RecordFlags, CLASData>;

pub type EDIDSubrecord = Subrecord<EDIDData>;

pub type FULLSubrecord = Subrecord<FULLData>;

pub type DESCSubrecord = Subrecord<DESCData>;

pub type ICONSubrecord = Subrecord<ICONData>;

pub type DATASubrecord = Subrecord<DATAData>;

/// The bits of [`ClasFlags`] the catalogue names.
pub const CLAS_FLAGS_MASK: u8 = 0x01;

pub const CLAS_FLAG_GUARD: u8 = 0x01;

/// The flag bit-set of class data.
#[derive(Debug, Clone, Copy, PartialEq, Eq, Structural)]
pub struct ClasFlags {
    pub bits: u8,
}

impl View for ClasFlags {
    type V = ClasFlags;

    open spec fn view(&self) -> ClasFlags {
        *self
    }
}

impl ClasFlags {
    /// The flag set a raw field decodes to: the bits themselves when all
    /// are known, the empty set otherwise.
    pub open spec fn spec_from_bits(bits: u8) -> ClasFlags {
        if bits & !CLAS_FLAGS_MASK == 0 {
            ClasFlags { bits }
        } else {
            ClasFlags { bits: 0 }
        }
    }

    /// Decode a raw flag field; unknown bits clear the whole set.
    pub fn from_bits(bits: u8) -> (r: ClasFlags)
        ensures
            r == ClasFlags::spec_from_bits(bits),
    {
        if bits & !CLAS_FLAGS_MASK == 0 {
            ClasFlags { bits }
        } else {
            ClasFlags { bits: 0 }
        }
    }
}

impl Default for ClasFlags {
    /// The empty flag set.
    fn default() -> (r: ClasFlags)
        ensures
            r.bits == 0,
    {
        ClasFlags { bits: 0 }
    }
}

/// Mirror of the [`ClasFlags`] decode.
#[verifier::inline]
pub open spec fn s_read_clas_flags(c: CursorModel) -> Decoded<ClasFlags> {
    match s_read_u8(c) {
        Ok((bits, c2)) => Ok((ClasFlags::spec_from_bits(bits), c2)),
        Err(k) => Err(k),
    }
}

impl Readable for ClasFlags {
    open spec fn s_read(c: CursorModel) -> Decoded<ClasFlags> {
        s_read_clas_flags(c)
    }

    proof fn s_read_progress(c: CursorModel) {
    }

    fn read(cursor: &mut Cursor) -> (r: Result<ClasFlags, DecodeError>) {
        proof {
            assert(ClasFlags::s_read(old(cursor)@) == s_read_clas_flags(old(cursor)@));
        }
        match cursor.read_u8() {
            Ok(bits) => Ok(ClasFlags::from_bits(bits)),
            Err(e) => Err(e),
        }
    }
}

/// Payload of a `FULL` subrecord: the localized display name.
#[derive(Debug, Clone, Copy, PartialEq, Eq, Structural)]
pub struct FULLData {
    pub name: LString,
}

impl View for FULLData {
    type V = LString;

    open spec fn view(&self) -> LString {
        self.name
    }
}

impl Readable for FULLData {
    open spec fn s_read(c: CursorModel) -> Decoded<LString> {
        s_read_lstring(c)
    }

    proof fn s_read_progress(c: CursorModel) {
    }

    fn read(cursor: &mut Cursor) -> (r: Result<FULLData, DecodeError>) {
        proof {
            assert(FULLData::s_read(old(cursor)@) == s_read_lstring(old(cursor)@));
        }
        match LString::read(cursor) {
            Ok(name) => Ok(FULLData { name }),
            Err(e) => Err(e),
        }
    }
}

/// Payload of a `DESC` subrecord: the localized description.
#[derive(Debug, Clone, Copy, PartialEq, Eq, Structural)]
pub struct DESCData {
    pub description: LString,
}

impl View for DESCData {
    type V = LString;

    open spec fn view(&self) -> LString {
        self.description
    }
}

impl Readable for DESCData {
    open spec fn s_read(c: CursorModel) -> Decoded<LString> {
        s_read_lstring(c)
    }

    proof fn s_read_progress(c: CursorModel) {
    }

    fn read(cursor: &mut Cursor) -> (r: Result<DESCData, DecodeError>) {
        proof {
            assert(DESCData::s_read(old(cursor)@) == s_read_lstring(old(cursor)@));
        }
        match LString::read(cursor) {
            Ok(description) => Ok(DESCData { description }),
            Err(e) => Err(e),
        }
    }
}

/// Payload of an `ICON` subrecord: the icon image path.
#[derive(Debug, Clone, PartialEq, Eq)]
pub struct ICONData {
    pub image: ZString,
}

impl View for ICONData {
    type V = Seq<char>;

    open spec fn view(&self) -> Seq<char> {
        self.image@
    }
}

impl Readable for ICONData {
    open spec fn s_read(c: CursorModel) -> Decoded<Seq<char>> {
        s_read_zstring(c)
    }

    proof fn s_read_progress(c: CursorModel) {
        ZString::s_read_progress(c);
    }

    fn read(cursor: &mut Cursor) -> (r: Result<ICONData, DecodeError>) {
        proof {
            assert(ICONData::s_read(old(cursor)@) == s_read_zstring(old(cursor)@));
        }
        match ZString::read(cursor) {
            Ok(image) => Ok(ICONData { image }),
            Err(e) => Err(e),
        }
    }
}

/// Payload of a `DATA` subrecord of a class: training, attribute
/// weights and flags. The bleedout field is kept as the raw bits of
/// the 32-bit float the format stores.
#[derive(Debug, Clone, PartialEq, Eq)]
pub struct DATAData {
    pub unknown: u32,
    pub training_skill: u8,
    pub training_level: u8,
    pub skill_weights: Vec<u8>,
    pub bleedout_default_bits: u32,
    pub voice_points: u32,
    pub health_weight: u8,
    pub magicka_weight: u8,
    pub stamina_weight: u8,
    pub flags: ClasFlags,
}

/// View of a class [`DATAData`].
pub struct DATADataView {
    pub unknown: u32,
    pub training_skill: u8,
    pub training_level: u8,
    pub skill_weights: Seq<u8>,
    pub bleedout_default_bits: u32,
    pub voice_points: u32,
    pub health_weight: u8,
    pub magicka_weight: u8,
    pub stamina_weight: u8,
    pub flags: ClasFlags,
}

impl View for DATAData {
    type V = DATADataView;

    open spec fn view(&self) -> DATADataView {
        DATADataView {
            unknown: self.unknown,
            training_skill: self.training_skill,
            training_level: self.training_level,
            skill_weights: self.skill_weights@,
            bleedout_default_bits: self.bleedout_default_bits,
            voice_points: self.voice_points,
            health_weight: self.health_weight,
            magicka_weight: self.magicka_weight,
            stamina_weight: self.stamina_weight,
            flags: self.flags,
        }
    }
}

/// Mirror of the class [`DATAData`] decode: the fields in declared
/// order, with 18 raw bytes of skill weights.
pub open spec fn s_read_clas_data(c: CursorModel) -> Decoded<DATADataView> {
    match s_read_le_u32(c) {
        Err(k) => Err(k),
        Ok((unknown, c1)) => match s_read_u8(c1) {
            Err(k) => Err(k),
            Ok((training_skill, c2)) => match s_read_u8(c2) {
                Err(k) => Err(k),
                Ok((training_level, c3)) => match s_read_bytes(c3, 18) {
                    Err(k) => Err(k),
                    Ok((skill_weights, c4)) => match s_read_le_u32(c4) {
                        Err(k) => Err(k),
                        Ok((bleedout_default_bits, c5)) => match s_read_le_u32(c5) {
                            Err(k) => Err(k),
                            Ok((voice_points, c6)) => match s_read_u8(c6) {
                                Err(k) => Err(k),
                                Ok((health_weight, c7)) => match s_read_u8(c7) {
                                    Err(k) => Err(k),
                                    Ok((magicka_weight, c8)) => match s_read_u8(c8) {
                                        Err(k) => Err(k),
                                        Ok((stamina_weight, c9)) => match s_read_clas_flags(c9) {
                                            Err(k) => Err(k),
                                            Ok(
                                                (flags, c10),
                                            ) => Ok(
                                                (
                                                    DATADataView {
                                                        unknown,
                                                        training_skill,
                                                        training_level,
                                                        skill_weights,
                                                        bleedout_default_bits,
                                                        voice_points,
                                                        health_weight,
                                                        magicka_weight,
                                                        stamina_weight,
                                                        flags,
                                                    },
                                                    c10,
                                                ),
                                            ),
                                        },
                                    },
                                },
                            },
                        },
                    },
                },
            },
        },
    }
}

impl Readable for DATAData {
    open spec fn s_read(c: CursorModel) -> Decoded<DATADataView> {
        s_read_clas_data(c)
    }

    proof fn s_read_progress(c: CursorModel) {
    }

    fn read(cursor: &mut Cursor) -> (r: Result<DATAData, DecodeError>) {
        proof {
            assert(DATAData::s_read(old(cursor)@) == s_read_clas_data(old(cursor)@));
        }
        let unknown = match cursor.read_le_u32() {
            Ok(v) => v,
            Err(e) => {
                return Err(e);
            },
        };
        let training_skill = match cursor.read_u8() {
            Ok(v) => v,
            Err(e) => {
                return Err(e);
            },
        };
        let training_level = match cursor.read_u8() {
            Ok(v) => v,
            Err(e) => {
                return Err(e);
            },
        };
        let skill_weights = match cursor.read_bytes(18) {
            Ok(v) => v,
            Err(e) => {
                return Err(e);
            },
        };
        let bleedout_default_bits = match cursor.read_le_u32() {
            Ok(v) => v,
            Err(e) => {
                return Err(e);
            },
        };
        let voice_points = match cursor.read_le_u32() {
            Ok(v) => v,
            Err(e) => {
                return Err(e);
            },
        };
        let health_weight = match cursor.read_u8() {
            Ok(v) => v,
            Err(e) => {
                return Err(e);
            },
        };
        let magicka_weight = match cursor.read_u8() {
            Ok(v) => v,
            Err(e) => {
                return Err(e);
            },
        };
        let stamina_weight = match cursor.read_u8() {
            Ok(v) => v,
            Err(e) => {
                return Err(e);
            },
        };
        let flags = match ClasFlags::read(cursor) {
            Ok(v) => v,
            Err(e) => {
                return Err(e);
            },
        };
        Ok(
            DATAData {
                unknown,
                training_skill,
                training_level,
                skill_weights,
                bleedout_default_bits,
                voice_points,
                health_weight,
                magicka_weight,
                stamina_weight,
                flags,
            },
        )
    }
}

/// Payload of a CLAS record: each known subrecord kind appears at
/// most once, stored in an optional slot. The policy for unrecognized
/// subrecord kinds is strict: one fails the decode.
#[derive(Debug, Clone, PartialEq, Eq)]
pub struct CLASData {
    pub edid: Option<EDIDSubrecord>,
    pub full: Option<FULLSubrecord>,
    pub desc: Option<DESCSubrecord>,
    pub icon: Option<ICONSubrecord>,
    pub data: Option<DATASubrecord>,
}

/// View of a [`CLASData`].
pub struct CLASDataView {
    pub edid: Option<SubrecordView<Seq<char>>>,
    pub full: Option<SubrecordView<LString>>,
    pub desc: Option<SubrecordView<LString>>,
    pub icon: Option<SubrecordView<Seq<char>>>,
    pub data: Option<SubrecordView<DATADataView>>,
}

impl CLASDataView {
    /// The state of the slots before the dispatch loop runs.
    pub open spec fn empty() -> CLASDataView {
        CLASDataView {
            edid: None,
            full: None,
            desc: None,
            icon: None,
            data: None,
        }
    }
}

impl View for CLASData {
    type V = CLASDataView;

    open spec fn view(&self) -> CLASDataView {
        CLASDataView {
            edid: opt_view(self.edid),
            full: opt_view(self.full),
            desc: opt_view(self.desc),
            icon: opt_view(self.icon),
            data: opt_view(self.data),
        }
    }
}

impl CLASData {
    /// Mirror of the dispatch loop of [`CLASData::read`]: while the
    /// record budget is positive, classify a subrecord tag and decode
    /// into the matching slot; an unrecognized kind fails.
    pub open spec fn s_read_fields(c: CursorModel, acc: CLASDataView) -> Decoded<CLASDataView>
        decreases clamp0(c.record_left),
        when 0 <= c.pos <= c.data.len()
    {
        if c.record_left <= 0 {
            Ok((acc, c))
        } else {
            match s_read_subrecord_type(c) {
                Err(k) => Err(k),
                Ok((t, c1)) => match t {
                    SubrecordType::EDID => match EDIDSubrecord::s_read(c1) {
                        Err(k) => Err(k),
                        Ok((sr, c2)) => {
                            proof {
                                EDIDSubrecord::s_read_progress(c1);
                            }
                            Self::s_read_fields(c2, CLASDataView { edid: Some(sr), ..acc })
                        },
                    },
                    SubrecordType::FULL => match FULLSubrecord::s_read(c1) {
                        Err(k) => Err(k),
                        Ok((sr, c2)) => {
                            proof {
                                FULLSubrecord::s_read_progress(c1);
                            }
                            Self::s_read_fields(c2, CLASDataView { full: Some(sr), ..acc })
                        },
                    },
                    SubrecordType::DESC => match DESCSubrecord::s_read(c1) {
                        Err(k) => Err(k),
                        Ok((sr, c2)) => {
                            proof {
                                DESCSubrecord::s_read_progress(c1);
                            }
                            Self::s_read_fields(c2, CLASDataView { desc: Some(sr), ..acc })
                        },
                    },
                    SubrecordType::ICON => match ICONSubrecord::s_read(c1) {
                        Err(k) => Err(k),
                        Ok((sr, c2)) => {
                            proof {
                                ICONSubrecord::s_read_progress(c1);
                            }
                            Self::s_read_fields(c2, CLASDataView { icon: Some(sr), ..acc })
                        },
                    },
                    SubrecordType::DATA => match DATASubrecord::s_read(c1) {
                        Err(k) => Err(k),
                        Ok((sr, c2)) => {
                            proof {
                                DATASubrecord::s_read_progress(c1);
                            }
                            Self::s_read_fields(c2, CLASDataView { data: Some(sr), ..acc })
                        },
                    },
                    _ => Err(DecodeErrorKind::InvalidData),
                },
            }
        }
    }

    /// On success the dispatch loop moves the position forward inside
    /// the buffer and moves the group and record budgets in lockstep
    /// with it.
    pub proof fn s_read_fields_progress(c: CursorModel, acc: CLASDataView)
        requires
            0 <= c.pos <= c.data.len(),
        ensures
            Self::s_read_fields(c, acc) matches Ok((v, c2)) ==> {
                &&& c.pos <= c2.pos <= c.data.len()
                &&& c2.data == c.data
                &&& c2.group_left == c.group_left - (c2.pos - c.pos)
                &&& c2.record_left == c.record_left - (c2.pos - c.pos)
            },
        decreases clamp0(c.record_left),
    {
        if c.record_left > 0 {
            match s_read_subrecord_type(c) {
                Err(_) => {},
                Ok((t, c1)) => match t {
                    SubrecordType::EDID => match EDIDSubrecord::s_read(c1) {
                        Err(_) => {},
                        Ok((sr, c2)) => {
                            EDIDSubrecord::s_read_progress(c1);
                            Self::s_read_fields_progress(
                                c2,
                                CLASDataView { edid: Some(sr), ..acc },
                            );
                        },
                    },
                    SubrecordType::FULL => match FULLSubrecord::s_read(c1) {
                        Err(_) => {},
                        Ok((sr, c2)) => {
                            FULLSubrecord::s_read_progress(c1);
                            Self::s_read_fields_progress(
                                c2,
                                CLASDataView { full: Some(sr), ..acc },
                            );
                        },
                    },
                    SubrecordType::DESC => match DESCSubrecord::s_read(c1) {
                        Err(_) => {},
                        Ok((sr, c2)) => {
                            DESCSubrecord::s_read_progress(c1);
                            Self::s_read_fields_progress(
                                c2,
                                CLASDataView { desc: Some(sr), ..acc },
                            );
                        },
                    },
                    SubrecordType::ICON => match ICONSubrecord::s_read(c1) {
                        Err(_) => {},
                        Ok((sr, c2)) => {
                            ICONSubrecord::s_read_progress(c1);
                            Self::s_read_fields_progress(
                                c2,
                                CLASDataView { icon: Some(sr), ..acc },
                            );
                        },
                    },
                    SubrecordType::DATA => match DATASubrecord::s_read(c1) {
                        Err(_) => {},
                        Ok((sr, c2)) => {
                            DATASubrecord::s_read_progress(c1);
                            Self::s_read_fields_progress(
                                c2,
                                CLASDataView { data: Some(sr), ..acc },
                            );
                        },
                    },
                    _ => {},
                },
            }
        }
    }
}

impl Readable for CLASData {
    open spec fn s_read(c: CursorModel) -> Decoded<CLASDataView> {
        CLASData::s_read_fields(c, CLASDataView::empty())
    }

    proof fn s_read_progress(c: CursorModel) {
        CLASData::s_read_fields_progress(c, CLASDataView::empty());
    }

    #[verifier::loop_isolation(false)]
    fn read(cursor: &mut Cursor) -> (r: Result<CLASData, DecodeError>) {
        proof {
            assert(CLASData::s_read(old(cursor)@) == CLASData::s_read_fields(
                old(cursor)@,
                CLASDataView::empty(),
            ));
        }
        let ghost c0 = cursor@;
        let mut rec = CLASData {
            edid: None,
            full: None,
            desc: None,
            icon: None,
            data: None,
        };
        while cursor.record_remaining() > 0
            invariant
                cursor@.wf(),
                CLASData::s_read_fields(c0, CLASDataView::empty()) == CLASData::s_read_fields(
                    cursor@,
                    rec@,
                ),
            decreases clamp0(cursor@.record_left),
        {
            let t = match cursor.read_subrecord_type() {
                Ok(t) => t,
                Err(e) => {
                    return Err(e);
                },
            };
            let ghost c_mid = cursor@;
            match t {
                SubrecordType::EDID => {
                    match EDIDSubrecord::read(cursor) {
                        Ok(sr) => {
                            rec.edid = Some(sr);
                        },
                        Err(e) => {
                            return Err(e);
                        },
                    }
                    proof {
                        EDIDSubrecord::s_read_progress(c_mid);
                    }
                },
                SubrecordType::FULL => {
                    match FULLSubrecord::read(cursor) {
                        Ok(sr) => {
                            rec.full = Some(sr);
                        },
                        Err(e) => {
                            return Err(e);
                        },
                    }
                    proof {
                        FULLSubrecord::s_read_progress(c_mid);
                    }
                },
                SubrecordType::DESC => {
                    match DESCSubrecord::read(cursor) {
                        Ok(sr) => {
                            rec.desc = Some(sr);
                        },
                        Err(e) => {
                            return Err(e);
                        },
                    }
                    proof {
                        DESCSubrecord::s_read_progress(c_mid);
                    }
                },
                SubrecordType::ICON => {
                    match ICONSubrecord::read(cursor) {
                        Ok(sr) => {
                            rec.icon = Some(sr);
                        },
                        Err(e) => {
                            return Err(e);
                        },
                    }
                    proof {
                        ICONSubrecord::s_read_progress(c_mid);
                    }
                },
                SubrecordType::DATA => {
                    match DATASubrecord::read(cursor) {
                        Ok(sr) => {
                            rec.data = Some(sr);
                        },
                        Err(e) => {
                            return Err(e);
                        },
                    }
                    proof {
                        DATASubrecord::s_read_progress(c_mid);
                    }
                },
                _ => {
                    return Err(
                        DecodeError::InvalidData(
                            String::from_str("unexpected subrecord kind in a CLAS record"),
                        ),
                    );
                },
            }
        }
        Ok(rec)
    }
}

} // verus!
