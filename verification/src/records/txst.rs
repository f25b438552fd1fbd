//! The texture-set record kind ("TXST"): an editor id, object bounds,
//! up to eight texture paths, decal data, and texture flags.

use vstd::prelude::*;
use vstd::string::StringExecFns;

use crate::cursor::{
    clamp0, s_read_le_u16, s_read_le_u32, s_read_u8, Cursor, CursorModel, Decoded,
};
use crate::error::{DecodeError, DecodeErrorKind};
use crate::read::{opt_view, Readable};
use crate::records::record::{Record, RecordFlags};
use crate::subrecords::common::EDIDData;
use crate::subrecords::subrecord::{s_read_subrecord_type, Subrecord, SubrecordType, SubrecordView};
use crate::types::{s_read_rgb, s_read_zstring, ZString, RGB};

verus! {

pub type TXSTRecord = Record<RecordFlags, TXSTData>;

pub type EDIDSubrecord = Subrecord<EDIDData>;

pub type OBNDSubrecord = Subrecord<OBNDData>;

pub type TX00Subrecord = Subrecord<TX00Data>;

pub type TX01Subrecord = Subrecord<TX01Data>;

pub type TX02Subrecord = Subrecord<TX02Data>;

pub type TX03Subrecord = Subrecord<TX03Data>;

pub type TX04Subrecord = Subrecord<TX04Data>;

pub type TX05Subrecord = Subrecord<TX05Data>;

pub type TX06Subrecord = Subrecord<TX06Data>;

pub type TX07Subrecord = Subrecord<TX07Data>;

pub type DODTSubrecord = Subrecord<DODTData>;

pub type DNAMSubrecord = Subrecord<DNAMData>;

/// The bits of [`DecalFlags`] the catalogue names.
pub const DECAL_FLAGS_MASK: u8 = 0x0F;

pub const DECAL_FLAG_PARALLAX: u8 = 0x01;

pub const DECAL_FLAG_ALPHA_BLENDING: u8 = 0x02;

pub const DECAL_FLAG_ALPHA_TESTING: u8 = 0x04;

pub const DECAL_FLAG_NOT_4_SUBTEXTURES: u8 = 0x08;

/// The flag bit-set of decal data.
#[derive(Debug, Clone, Copy, PartialEq, Eq, Structural)]
pub struct DecalFlags {
    pub bits: u8,
}

impl View for DecalFlags {
    type V = DecalFlags;

    open spec fn view(&self) -> DecalFlags {
        *self
    }
}

impl DecalFlags {
    /// The flag set a raw field decodes to: the bits themselves when all
    /// are known, the empty set otherwise.
    pub open spec fn spec_from_bits(bits: u8) -> DecalFlags {
        if bits & !DECAL_FLAGS_MASK == 0 {
            DecalFlags { bits }
        } else {
            DecalFlags { bits: 0 }
        }
    }

    /// Decode a raw flag field; unknown bits clear the whole set.
    pub fn from_bits(bits: u8) -> (r: DecalFlags)
        ensures
            r == DecalFlags::spec_from_bits(bits),
    {
        if bits & !DECAL_FLAGS_MASK == 0 {
            DecalFlags { bits }
        } else {
            DecalFlags { bits: 0 }
        }
    }
}

impl Default for DecalFlags {
    /// The empty flag set.
    fn default() -> (r: DecalFlags)
        ensures
            r.bits == 0,
    {
        DecalFlags { bits: 0 }
    }
}

/// Mirror of the [`DecalFlags`] decode.
#[verifier::inline]
pub open spec fn s_read_decal_flags(c: CursorModel) -> Decoded<DecalFlags> {
    match s_read_u8(c) {
        Ok((bits, c2)) => Ok((DecalFlags::spec_from_bits(bits), c2)),
        Err(k) => Err(k),
    }
}

impl Readable for DecalFlags {
    open spec fn s_read(c: CursorModel) -> Decoded<DecalFlags> {
        s_read_decal_flags(c)
    }

    proof fn s_read_progress(c: CursorModel) {
    }

    fn read(cursor: &mut Cursor) -> (r: Result<DecalFlags, DecodeError>) {
        proof {
            assert(DecalFlags::s_read(old(cursor)@) == s_read_decal_flags(old(cursor)@));
        }
        match cursor.read_u8() {
            Ok(bits) => Ok(DecalFlags::from_bits(bits)),
            Err(e) => Err(e),
        }
    }
}

/// The bits of [`TextureFlags`] the catalogue names.
pub const TEXTURE_FLAGS_MASK: u16 = 0x0007;

pub const TEXTURE_FLAG_HAS_NO_SPECULAR: u16 = 0x0001;

pub const TEXTURE_FLAG_FACEGEN_TEXTURES: u16 = 0x0002;

pub const TEXTURE_FLAG_HAS_MODEL_SPACE_NORMAL: u16 = 0x0004;

/// The flag bit-set of a texture set.
#[derive(Debug, Clone, Copy, PartialEq, Eq, Structural)]
pub struct TextureFlags {
    pub bits: u16,
}

impl View for TextureFlags {
    type V = TextureFlags;

    open spec fn view(&self) -> TextureFlags {
        *self
    }
}

impl TextureFlags {
    /// The flag set a raw field decodes to: the bits themselves when all
    /// are known, the empty set otherwise.
    pub open spec fn spec_from_bits(bits: u16) -> TextureFlags {
        if bits & !TEXTURE_FLAGS_MASK == 0 {
            TextureFlags { bits }
        } else {
            TextureFlags { bits: 0 }
        }
    }

    /// Decode a raw flag field; unknown bits clear the whole set.
    pub fn from_bits(bits: u16) -> (r: TextureFlags)
        ensures
            r == TextureFlags::spec_from_bits(bits),
    {
        if bits & !TEXTURE_FLAGS_MASK == 0 {
            TextureFlags { bits }
        } else {
            TextureFlags { bits: 0 }
        }
    }
}

impl Default for TextureFlags {
    /// The empty flag set.
    fn default() -> (r: TextureFlags)
        ensures
            r.bits == 0,
    {
        TextureFlags { bits: 0 }
    }
}

/// Mirror of the [`TextureFlags`] decode.
#[verifier::inline]
pub open spec fn s_read_texture_flags(c: CursorModel) -> Decoded<TextureFlags> {
    match s_read_le_u16(c) {
        Ok((bits, c2)) => Ok((TextureFlags::spec_from_bits(bits), c2)),
        Err(k) => Err(k),
    }
}

impl Readable for TextureFlags {
    open spec fn s_read(c: CursorModel) -> Decoded<TextureFlags> {
        s_read_texture_flags(c)
    }

    proof fn s_read_progress(c: CursorModel) {
    }

    fn read(cursor: &mut Cursor) -> (r: Result<TextureFlags, DecodeError>) {
        proof {
            assert(TextureFlags::s_read(old(cursor)@) == s_read_texture_flags(old(cursor)@));
        }
        match cursor.read_le_u16() {
            Ok(bits) => Ok(TextureFlags::from_bits(bits)),
            Err(e) => Err(e),
        }
    }
}

/// Payload of an `OBND` subrecord: the object bounds, carried through
/// as raw bytes, decoded by repeating the element decode while the
/// subrecord budget remains positive.
#[derive(Debug, Clone, PartialEq, Eq)]
pub struct OBNDData {
    pub unknown: Vec<u8>,
}

impl View for OBNDData {
    type V = Seq<u8>;

    open spec fn view(&self) -> Seq<u8> {
        self.unknown@
    }
}

impl OBNDData {
    /// Mirror of the element loop of [`OBNDData::read`].
    pub open spec fn s_read_elems(c: CursorModel, acc: Seq<u8>) -> Decoded<Seq<u8>>
        decreases clamp0(c.subrecord_left),
    {
        if c.subrecord_left <= 0 {
            Ok((acc, c))
        } else {
            match s_read_u8(c) {
                Err(k) => Err(k),
                Ok((v, c2)) => Self::s_read_elems(c2, acc.push(v)),
            }
        }
    }

    /// On success the element loop moves the position forward inside
    /// the buffer and moves every budget but the subrecord budget in
    /// lockstep with it.
    pub proof fn s_read_elems_progress(c: CursorModel, acc: Seq<u8>)
        requires
            0 <= c.pos <= c.data.len(),
        ensures
            Self::s_read_elems(c, acc) matches Ok((v, c2)) ==> {
                &&& c.pos <= c2.pos <= c.data.len()
                &&& c2.data == c.data
                &&& c2.group_left == c.group_left - (c2.pos - c.pos)
                &&& c2.record_left == c.record_left - (c2.pos - c.pos)
            },
        decreases clamp0(c.subrecord_left),
    {
        if c.subrecord_left > 0 {
            match s_read_u8(c) {
                Err(_) => {},
                Ok((v, c2)) => {
                    Self::s_read_elems_progress(c2, acc.push(v));
                },
            }
        }
    }
}

impl Readable for OBNDData {
    open spec fn s_read(c: CursorModel) -> Decoded<Seq<u8>> {
        OBNDData::s_read_elems(c, Seq::empty())
    }

    proof fn s_read_progress(c: CursorModel) {
        OBNDData::s_read_elems_progress(c, Seq::empty());
    }

    #[verifier::loop_isolation(false)]
    fn read(cursor: &mut Cursor) -> (r: Result<OBNDData, DecodeError>) {
        proof {
            assert(OBNDData::s_read(old(cursor)@) == OBNDData::s_read_elems(
                old(cursor)@,
                Seq::empty(),
            ));
        }
        let ghost c0 = cursor@;
        let mut unknown: Vec<u8> = Vec::new();
        proof {
            assert(unknown@ =~= Seq::<u8>::empty());
        }
        while cursor.subrecord_remaining() > 0
            invariant
                cursor@.wf(),
                OBNDData::s_read_elems(c0, Seq::empty()) == OBNDData::s_read_elems(
                    cursor@,
                    unknown@,
                ),
            decreases clamp0(cursor@.subrecord_left),
        {
            match cursor.read_u8() {
                Ok(v) => unknown.push(v),
                Err(e) => {
                    return Err(e);
                },
            }
        }
        Ok(OBNDData { unknown })
    }
}

/// Payload of a `TX00` subrecord: a texture path.
#[derive(Debug, Clone, PartialEq, Eq)]
pub struct TX00Data {
    pub texture_00: ZString,
}

impl View for TX00Data {
    type V = Seq<char>;

    open spec fn view(&self) -> Seq<char> {
        self.texture_00@
    }
}

impl Readable for TX00Data {
    open spec fn s_read(c: CursorModel) -> Decoded<Seq<char>> {
        s_read_zstring(c)
    }

    proof fn s_read_progress(c: CursorModel) {
        ZString::s_read_progress(c);
    }

    fn read(cursor: &mut Cursor) -> (r: Result<TX00Data, DecodeError>) {
        proof {
            assert(TX00Data::s_read(old(cursor)@) == s_read_zstring(old(cursor)@));
        }
        match ZString::read(cursor) {
            Ok(texture_00) => Ok(TX00Data { texture_00 }),
            Err(e) => Err(e),
        }
    }
}

/// Payload of a `TX01` subrecord: a texture path.
#[derive(Debug, Clone, PartialEq, Eq)]
pub struct TX01Data {
    pub texture_01: ZString,
}

impl View for TX01Data {
    type V = Seq<char>;

    open spec fn view(&self) -> Seq<char> {
        self.texture_01@
    }
}

impl Readable for TX01Data {
    open spec fn s_read(c: CursorModel) -> Decoded<Seq<char>> {
        s_read_zstring(c)
    }

    proof fn s_read_progress(c: CursorModel) {
        ZString::s_read_progress(c);
    }

    fn read(cursor: &mut Cursor) -> (r: Result<TX01Data, DecodeError>) {
        proof {
            assert(TX01Data::s_read(old(cursor)@) == s_read_zstring(old(cursor)@));
        }
        match ZString::read(cursor) {
            Ok(texture_01) => Ok(TX01Data { texture_01 }),
            Err(e) => Err(e),
        }
    }
}

/// Payload of a `TX02` subrecord: a texture path.
#[derive(Debug, Clone, PartialEq, Eq)]
pub struct TX02Data {
    pub texture_02: ZString,
}

impl View for TX02Data {
    type V = Seq<char>;

    open spec fn view(&self) -> Seq<char> {
        self.texture_02@
    }
}

impl Readable for TX02Data {
    open spec fn s_read(c: CursorModel) -> Decoded<Seq<char>> {
        s_read_zstring(c)
    }

    proof fn s_read_progress(c: CursorModel) {
        ZString::s_read_progress(c);
    }

    fn read(cursor: &mut Cursor) -> (r: Result<TX02Data, DecodeError>) {
        proof {
            assert(TX02Data::s_read(old(cursor)@) == s_read_zstring(old(cursor)@));
        }
        match ZString::read(cursor) {
            Ok(texture_02) => Ok(TX02Data { texture_02 }),
            Err(e) => Err(e),
        }
    }
}

/// Payload of a `TX03` subrecord: a texture path.
#[derive(Debug, Clone, PartialEq, Eq)]
pub struct TX03Data {
    pub texture_03: ZString,
}

impl View for TX03Data {
    type V = Seq<char>;

    open spec fn view(&self) -> Seq<char> {
        self.texture_03@
    }
}

impl Readable for TX03Data {
    open spec fn s_read(c: CursorModel) -> Decoded<Seq<char>> {
        s_read_zstring(c)
    }

    proof fn s_read_progress(c: CursorModel) {
        ZString::s_read_progress(c);
    }

    fn read(cursor: &mut Cursor) -> (r: Result<TX03Data, DecodeError>) {
        proof {
            assert(TX03Data::s_read(old(cursor)@) == s_read_zstring(old(cursor)@));
        }
        match ZString::read(cursor) {
            Ok(texture_03) => Ok(TX03Data { texture_03 }),
            Err(e) => Err(e),
        }
    }
}

/// Payload of a `TX04` subrecord: a texture path.
#[derive(Debug, Clone, PartialEq, Eq)]
pub struct TX04Data {
    pub texture_04: ZString,
}

impl View for TX04Data {
    type V = Seq<char>;

    open spec fn view(&self) -> Seq<char> {
        self.texture_04@
    }
}

impl Readable for TX04Data {
    open spec fn s_read(c: CursorModel) -> Decoded<Seq<char>> {
        s_read_zstring(c)
    }

    proof fn s_read_progress(c: CursorModel) {
        ZString::s_read_progress(c);
    }

    fn read(cursor: &mut Cursor) -> (r: Result<TX04Data, DecodeError>) {
        proof {
            assert(TX04Data::s_read(old(cursor)@) == s_read_zstring(old(cursor)@));
        }
        match ZString::read(cursor) {
            Ok(texture_04) => Ok(TX04Data { texture_04 }),
            Err(e) => Err(e),
        }
    }
}

/// Payload of a `TX05` subrecord: a texture path.
#[derive(Debug, Clone, PartialEq, Eq)]
pub struct TX05Data {
    pub texture_05: ZString,
}

impl View for TX05Data {
    type V = Seq<char>;

    open spec fn view(&self) -> Seq<char> {
        self.texture_05@
    }
}

impl Readable for TX05Data {
    open spec fn s_read(c: CursorModel) -> Decoded<Seq<char>> {
        s_read_zstring(c)
    }

    proof fn s_read_progress(c: CursorModel) {
        ZString::s_read_progress(c);
    }

    fn read(cursor: &mut Cursor) -> (r: Result<TX05Data, DecodeError>) {
        proof {
            assert(TX05Data::s_read(old(cursor)@) == s_read_zstring(old(cursor)@));
        }
        match ZString::read(cursor) {
            Ok(texture_05) => Ok(TX05Data { texture_05 }),
            Err(e) => Err(e),
        }
    }
}

/// Payload of a `TX06` subrecord: a texture path.
#[derive(Debug, Clone, PartialEq, Eq)]
pub struct TX06Data {
    pub texture_06: ZString,
}

impl View for TX06Data {
    type V = Seq<char>;

    open spec fn view(&self) -> Seq<char> {
        self.texture_06@
    }
}

impl Readable for TX06Data {
    open spec fn s_read(c: CursorModel) -> Decoded<Seq<char>> {
        s_read_zstring(c)
    }

    proof fn s_read_progress(c: CursorModel) {
        ZString::s_read_progress(c);
    }

    fn read(cursor: &mut Cursor) -> (r: Result<TX06Data, DecodeError>) {
        proof {
            assert(TX06Data::s_read(old(cursor)@) == s_read_zstring(old(cursor)@));
        }
        match ZString::read(cursor) {
            Ok(texture_06) => Ok(TX06Data { texture_06 }),
            Err(e) => Err(e),
        }
    }
}

/// Payload of a `TX07` subrecord: a texture path.
#[derive(Debug, Clone, PartialEq, Eq)]
pub struct TX07Data {
    pub texture_07: ZString,
}

impl View for TX07Data {
    type V = Seq<char>;

    open spec fn view(&self) -> Seq<char> {
        self.texture_07@
    }
}

impl Readable for TX07Data {
    open spec fn s_read(c: CursorModel) -> Decoded<Seq<char>> {
        s_read_zstring(c)
    }

    proof fn s_read_progress(c: CursorModel) {
        ZString::s_read_progress(c);
    }

    fn read(cursor: &mut Cursor) -> (r: Result<TX07Data, DecodeError>) {
        proof {
            assert(TX07Data::s_read(old(cursor)@) == s_read_zstring(old(cursor)@));
        }
        match ZString::read(cursor) {
            Ok(texture_07) => Ok(TX07Data { texture_07 }),
            Err(e) => Err(e),
        }
    }
}

/// Payload of a `DODT` subrecord: decal data. The seven dimension
/// fields are kept as the raw bits of the 32-bit floats the format
/// stores.
#[derive(Debug, Clone, Copy, PartialEq, Eq, Structural)]
pub struct DODTData {
    pub min_width_bits: u32,
    pub max_width_bits: u32,
    pub min_height_bits: u32,
    pub max_height_bits: u32,
    pub depth_bits: u32,
    pub shininess_bits: u32,
    pub parallax_scale_bits: u32,
    pub parallax_passes: u8,
    pub flags: DecalFlags,
    pub unknown: u16,
    pub color: RGB,
}

impl View for DODTData {
    type V = DODTData;

    open spec fn view(&self) -> DODTData {
        *self
    }
}

/// Mirror of the [`DODTData`] decode: the fields in declared order.
pub open spec fn s_read_dodt(c: CursorModel) -> Decoded<DODTData> {
    match s_read_le_u32(c) {
        Err(k) => Err(k),
        Ok((min_width_bits, c1)) => match s_read_le_u32(c1) {
            Err(k) => Err(k),
            Ok((max_width_bits, c2)) => match s_read_le_u32(c2) {
                Err(k) => Err(k),
                Ok((min_height_bits, c3)) => match s_read_le_u32(c3) {
                    Err(k) => Err(k),
                    Ok((max_height_bits, c4)) => match s_read_le_u32(c4) {
                        Err(k) => Err(k),
                        Ok((depth_bits, c5)) => match s_read_le_u32(c5) {
                            Err(k) => Err(k),
                            Ok((shininess_bits, c6)) => match s_read_le_u32(c6) {
                                Err(k) => Err(k),
                                Ok((parallax_scale_bits, c7)) => match s_read_u8(c7) {
                                    Err(k) => Err(k),
                                    Ok((parallax_passes, c8)) => match s_read_decal_flags(c8) {
                                        Err(k) => Err(k),
                                        Ok((flags, c9)) => match s_read_le_u16(c9) {
                                            Err(k) => Err(k),
                                            Ok((unknown, c10)) => match s_read_rgb(c10) {
                                                Err(k) => Err(k),
                                                Ok(
                                                    (color, c11),
                                                ) => Ok(
                                                    (
                                                        DODTData {
                                                            min_width_bits,
                                                            max_width_bits,
                                                            min_height_bits,
                                                            max_height_bits,
                                                            depth_bits,
                                                            shininess_bits,
                                                            parallax_scale_bits,
                                                            parallax_passes,
                                                            flags,
                                                            unknown,
                                                            color,
                                                        },
                                                        c11,
                                                    ),
                                                ),
                                            },
                                        },
                                    },
                                },
                            },
                        },
                    },
                },
            },
        },
    }
}

impl Readable for DODTData {
    open spec fn s_read(c: CursorModel) -> Decoded<DODTData> {
        s_read_dodt(c)
    }

    proof fn s_read_progress(c: CursorModel) {
    }

    fn read(cursor: &mut Cursor) -> (r: Result<DODTData, DecodeError>) {
        proof {
            assert(DODTData::s_read(old(cursor)@) == s_read_dodt(old(cursor)@));
        }
        let min_width_bits = match cursor.read_le_u32() {
            Ok(v) => v,
            Err(e) => {
                return Err(e);
            },
        };
        let max_width_bits = match cursor.read_le_u32() {
            Ok(v) => v,
            Err(e) => {
                return Err(e);
            },
        };
        let min_height_bits = match cursor.read_le_u32() {
            Ok(v) => v,
            Err(e) => {
                return Err(e);
            },
        };
        let max_height_bits = match cursor.read_le_u32() {
            Ok(v) => v,
            Err(e) => {
                return Err(e);
            },
        };
        let depth_bits = match cursor.read_le_u32() {
            Ok(v) => v,
            Err(e) => {
                return Err(e);
            },
        };
        let shininess_bits = match cursor.read_le_u32() {
            Ok(v) => v,
            Err(e) => {
                return Err(e);
            },
        };
        let parallax_scale_bits = match cursor.read_le_u32() {
            Ok(v) => v,
            Err(e) => {
                return Err(e);
            },
        };
        let parallax_passes = match cursor.read_u8() {
            Ok(v) => v,
            Err(e) => {
                return Err(e);
            },
        };
        let flags = match DecalFlags::read(cursor) {
            Ok(v) => v,
            Err(e) => {
                return Err(e);
            },
        };
        let unknown = match cursor.read_le_u16() {
            Ok(v) => v,
            Err(e) => {
                return Err(e);
            },
        };
        let color = match RGB::read(cursor) {
            Ok(v) => v,
            Err(e) => {
                return Err(e);
            },
        };
        Ok(
            DODTData {
                min_width_bits,
                max_width_bits,
                min_height_bits,
                max_height_bits,
                depth_bits,
                shininess_bits,
                parallax_scale_bits,
                parallax_passes,
                flags,
                unknown,
                color,
            },
        )
    }
}

/// Payload of a `DNAM` subrecord: the texture flags.
#[derive(Debug, Clone, Copy, PartialEq, Eq, Structural)]
pub struct DNAMData {
    pub flags: TextureFlags,
}

impl View for DNAMData {
    type V = TextureFlags;

    open spec fn view(&self) -> TextureFlags {
        self.flags
    }
}

impl Readable for DNAMData {
    open spec fn s_read(c: CursorModel) -> Decoded<TextureFlags> {
        s_read_texture_flags(c)
    }

    proof fn s_read_progress(c: CursorModel) {
    }

    fn read(cursor: &mut Cursor) -> (r: Result<DNAMData, DecodeError>) {
        proof {
            assert(DNAMData::s_read(old(cursor)@) == s_read_texture_flags(old(cursor)@));
        }
        match TextureFlags::read(cursor) {
            Ok(flags) => Ok(DNAMData { flags }),
            Err(e) => Err(e),
        }
    }
}

/// Payload of a TXST record: each known subrecord kind appears at
/// most once, stored in an optional slot. The policy for unrecognized
/// subrecord kinds is strict: one fails the decode.
#[derive(Debug, Clone, PartialEq, Eq)]
pub struct TXSTData {
    pub edid: Option<EDIDSubrecord>,
    pub obnd: Option<OBNDSubrecord>,
    pub tx00: Option<TX00Subrecord>,
    pub tx01: Option<TX01Subrecord>,
    pub tx02: Option<TX02Subrecord>,
    pub tx03: Option<TX03Subrecord>,
    pub tx04: Option<TX04Subrecord>,
    pub tx05: Option<TX05Subrecord>,
    pub tx06: Option<TX06Subrecord>,
    pub tx07: Option<TX07Subrecord>,
    pub dodt: Option<DODTSubrecord>,
    pub dnam: Option<DNAMSubrecord>,
}

/// View of a [`TXSTData`].
pub struct TXSTDataView {
    pub edid: Option<SubrecordView<Seq<char>>>,
    pub obnd: Option<SubrecordView<Seq<u8>>>,
    pub tx00: Option<SubrecordView<Seq<char>>>,
    pub tx01: Option<SubrecordView<Seq<char>>>,
    pub tx02: Option<SubrecordView<Seq<char>>>,
    pub tx03: Option<SubrecordView<Seq<char>>>,
    pub tx04: Option<SubrecordView<Seq<char>>>,
    pub tx05: Option<SubrecordView<Seq<char>>>,
    pub tx06: Option<SubrecordView<Seq<char>>>,
    pub tx07: Option<SubrecordView<Seq<char>>>,
    pub dodt: Option<SubrecordView<DODTData>>,
    pub dnam: Option<SubrecordView<TextureFlags>>,
}

impl TXSTDataView {
    /// The state of the slots before the dispatch loop runs.
    pub open spec fn empty() -> TXSTDataView {
        TXSTDataView {
            edid: None,
            obnd: None,
            tx00: None,
            tx01: None,
            tx02: None,
            tx03: None,
            tx04: None,
            tx05: None,
            tx06: None,
            tx07: None,
            dodt: None,
            dnam: None,
        }
    }
}

impl View for TXSTData {
    type V = TXSTDataView;

    open spec fn view(&self) -> TXSTDataView {
        TXSTDataView {
            edid: opt_view(self.edid),
            obnd: opt_view(self.obnd),
            tx00: opt_view(self.tx00),
            tx01: opt_view(self.tx01),
            tx02: opt_view(self.tx02),
            tx03: opt_view(self.tx03),
            tx04: opt_view(self.tx04),
            tx05: opt_view(self.tx05),
            tx06: opt_view(self.tx06),
            tx07: opt_view(self.tx07),
            dodt: opt_view(self.dodt),
            dnam: opt_view(self.dnam),
        }
    }
}

impl TXSTData {
    /// Mirror of the dispatch loop of [`TXSTData::read`]: while the
    /// record budget is positive, classify a subrecord tag and decode
    /// into the matching slot; an unrecognized kind fails.
    pub open spec fn s_read_fields(c: CursorModel, acc: TXSTDataView) -> Decoded<TXSTDataView>
        decreases clamp0(c.record_left),
        when 0 <= c.pos <= c.data.len()
    {
        if c.record_left <= 0 {
            Ok((acc, c))
        } else {
            match s_read_subrecord_type(c) {
                Err(k) => Err(k),
                Ok((t, c1)) => match t {
                    SubrecordType::EDID => match EDIDSubrecord::s_read(c1) {
                        Err(k) => Err(k),
                        Ok((sr, c2)) => {
                            proof {
                                EDIDSubrecord::s_read_progress(c1);
                            }
                            Self::s_read_fields(c2, TXSTDataView { edid: Some(sr), ..acc })
                        },
                    },
                    SubrecordType::OBND => match OBNDSubrecord::s_read(c1) {
                        Err(k) => Err(k),
                        Ok((sr, c2)) => {
                            proof {
                                OBNDSubrecord::s_read_progress(c1);
                            }
                            Self::s_read_fields(c2, TXSTDataView { obnd: Some(sr), ..acc })
                        },
                    },
                    SubrecordType::TX00 => match TX00Subrecord::s_read(c1) {
                        Err(k) => Err(k),
                        Ok((sr, c2)) => {
                            proof {
                                TX00Subrecord::s_read_progress(c1);
                            }
                            Self::s_read_fields(c2, TXSTDataView { tx00: Some(sr), ..acc })
                        },
                    },
                    SubrecordType::TX01 => match TX01Subrecord::s_read(c1) {
                        Err(k) => Err(k),
                        Ok((sr, c2)) => {
                            proof {
                                TX01Subrecord::s_read_progress(c1);
                            }
                            Self::s_read_fields(c2, TXSTDataView { tx01: Some(sr), ..acc })
                        },
                    },
                    SubrecordType::TX02 => match TX02Subrecord::s_read(c1) {
                        Err(k) => Err(k),
                        Ok((sr, c2)) => {
                            proof {
                                TX02Subrecord::s_read_progress(c1);
                            }
                            Self::s_read_fields(c2, TXSTDataView { tx02: Some(sr), ..acc })
                        },
                    },
                    SubrecordType::TX03 => match TX03Subrecord::s_read(c1) {
                        Err(k) => Err(k),
                        Ok((sr, c2)) => {
                            proof {
                                TX03Subrecord::s_read_progress(c1);
                            }
                            Self::s_read_fields(c2, TXSTDataView { tx03: Some(sr), ..acc })
                        },
                    },
                    SubrecordType::TX04 => match TX04Subrecord::s_read(c1) {
                        Err(k) => Err(k),
                        Ok((sr, c2)) => {
                            proof {
                                TX04Subrecord::s_read_progress(c1);
                            }
                            Self::s_read_fields(c2, TXSTDataView { tx04: Some(sr), ..acc })
                        },
                    },
                    SubrecordType::TX05 => match TX05Subrecord::s_read(c1) {
                        Err(k) => Err(k),
                        Ok((sr, c2)) => {
                            proof {
                                TX05Subrecord::s_read_progress(c1);
                            }
                            Self::s_read_fields(c2, TXSTDataView { tx05: Some(sr), ..acc })
                        },
                    },
                    SubrecordType::TX06 => match TX06Subrecord::s_read(c1) {
                        Err(k) => Err(k),
                        Ok((sr, c2)) => {
                            proof {
                                TX06Subrecord::s_read_progress(c1);
                            }
                            Self::s_read_fields(c2, TXSTDataView { tx06: Some(sr), ..acc })
                        },
                    },
                    SubrecordType::TX07 => match TX07Subrecord::s_read(c1) {
                        Err(k) => Err(k),
                        Ok((sr, c2)) => {
                            proof {
                                TX07Subrecord::s_read_progress(c1);
                            }
                            Self::s_read_fields(c2, TXSTDataView { tx07: Some(sr), ..acc })
                        },
                    },
                    SubrecordType::DODT => match DODTSubrecord::s_read(c1) {
                        Err(k) => Err(k),
                        Ok((sr, c2)) => {
                            proof {
                                DODTSubrecord::s_read_progress(c1);
                            }
                            Self::s_read_fields(c2, TXSTDataView { dodt: Some(sr), ..acc })
                        },
                    },
                    SubrecordType::DNAM => match DNAMSubrecord::s_read(c1) {
                        Err(k) => Err(k),
                        Ok((sr, c2)) => {
                            proof {
                                DNAMSubrecord::s_read_progress(c1);
                            }
                            Self::s_read_fields(c2, TXSTDataView { dnam: Some(sr), ..acc })
                        },
                    },
                    _ => Err(DecodeErrorKind::InvalidData),
                },
            }
        }
    }

    /// On success the dispatch loop moves the position forward inside
    /// the buffer and moves the group and record budgets in lockstep
    /// with it.
    pub proof fn s_read_fields_progress(c: CursorModel, acc: TXSTDataView)
        requires
            0 <= c.pos <= c.data.len(),
        ensures
            Self::s_read_fields(c, acc) matches Ok((v, c2)) ==> {
                &&& c.pos <= c2.pos <= c.data.len()
                &&& c2.data == c.data
                &&& c2.group_left == c.group_left - (c2.pos - c.pos)
                &&& c2.record_left == c.record_left - (c2.pos - c.pos)
            },
        decreases clamp0(c.record_left),
    {
        if c.record_left > 0 {
            match s_read_subrecord_type(c) {
                Err(_) => {},
                Ok((t, c1)) => match t {
                    SubrecordType::EDID => match EDIDSubrecord::s_read(c1) {
                        Err(_) => {},
                        Ok((sr, c2)) => {
                            EDIDSubrecord::s_read_progress(c1);
                            Self::s_read_fields_progress(
                                c2,
                                TXSTDataView { edid: Some(sr), ..acc },
                            );
                        },
                    },
                    SubrecordType::OBND => match OBNDSubrecord::s_read(c1) {
                        Err(_) => {},
                        Ok((sr, c2)) => {
                            OBNDSubrecord::s_read_progress(c1);
                            Self::s_read_fields_progress(
                                c2,
                                TXSTDataView { obnd: Some(sr), ..acc },
                            );
                        },
                    },
                    SubrecordType::TX00 => match TX00Subrecord::s_read(c1) {
                        Err(_) => {},
                        Ok((sr, c2)) => {
                            TX00Subrecord::s_read_progress(c1);
                            Self::s_read_fields_progress(
                                c2,
                                TXSTDataView { tx00: Some(sr), ..acc },
                            );
                        },
                    },
                    SubrecordType::TX01 => match TX01Subrecord::s_read(c1) {
                        Err(_) => {},
                        Ok((sr, c2)) => {
                            TX01Subrecord::s_read_progress(c1);
                            Self::s_read_fields_progress(
                                c2,
                                TXSTDataView { tx01: Some(sr), ..acc },
                            );
                        },
                    },
                    SubrecordType::TX02 => match TX02Subrecord::s_read(c1) {
                        Err(_) => {},
                        Ok((sr, c2)) => {
                            TX02Subrecord::s_read_progress(c1);
                            Self::s_read_fields_progress(
                                c2,
                                TXSTDataView { tx02: Some(sr), ..acc },
                            );
                        },
                    },
                    SubrecordType::TX03 => match TX03Subrecord::s_read(c1) {
                        Err(_) => {},
                        Ok((sr, c2)) => {
                            TX03Subrecord::s_read_progress(c1);
                            Self::s_read_fields_progress(
                                c2,
                                TXSTDataView { tx03: Some(sr), ..acc },
                            );
                        },
                    },
                    SubrecordType::TX04 => match TX04Subrecord::s_read(c1) {
                        Err(_) => {},
                        Ok((sr, c2)) => {
                            TX04Subrecord::s_read_progress(c1);
                            Self::s_read_fields_progress(
                                c2,
                                TXSTDataView { tx04: Some(sr), ..acc },
                            );
                        },
                    },
                    SubrecordType::TX05 => match TX05Subrecord::s_read(c1) {
                        Err(_) => {},
                        Ok((sr, c2)) => {
                            TX05Subrecord::s_read_progress(c1);
                            Self::s_read_fields_progress(
                                c2,
                                TXSTDataView { tx05: Some(sr), ..acc },
                            );
                        },
                    },
                    SubrecordType::TX06 => match TX06Subrecord::s_read(c1) {
                        Err(_) => {},
                        Ok((sr, c2)) => {
                            TX06Subrecord::s_read_progress(c1);
                            Self::s_read_fields_progress(
                                c2,
                                TXSTDataView { tx06: Some(sr), ..acc },
                            );
                        },
                    },
                    SubrecordType::TX07 => match TX07Subrecord::s_read(c1) {
                        Err(_) => {},
                        Ok((sr, c2)) => {
                            TX07Subrecord::s_read_progress(c1);
                            Self::s_read_fields_progress(
                                c2,
                                TXSTDataView { tx07: Some(sr), ..acc },
                            );
                        },
                    },
                    SubrecordType::DODT => match DODTSubrecord::s_read(c1) {
                        Err(_) => {},
                        Ok((sr, c2)) => {
                            DODTSubrecord::s_read_progress(c1);
                            Self::s_read_fields_progress(
                                c2,
                                TXSTDataView { dodt: Some(sr), ..acc },
                            );
                        },
                    },
                    SubrecordType::DNAM => match DNAMSubrecord::s_read(c1) {
                        Err(_) => {},
                        Ok((sr, c2)) => {
                            DNAMSubrecord::s_read_progress(c1);
                            Self::s_read_fields_progress(
                                c2,
                                TXSTDataView { dnam: Some(sr), ..acc },
                            );
                        },
                    },
                    _ => {},
                },
            }
        }
    }
}

impl Readable for TXSTData {
    open spec fn s_read(c: CursorModel) -> Decoded<TXSTDataView> {
        TXSTData::s_read_fields(c, TXSTDataView::empty())
    }

    proof fn s_read_progress(c: CursorModel) {
        TXSTData::s_read_fields_progress(c, TXSTDataView::empty());
    }

    #[verifier::loop_isolation(false)]
    fn read(cursor: &mut Cursor) -> (r: Result<TXSTData, DecodeError>) {
        proof {
            assert(TXSTData::s_read(old(cursor)@) == TXSTData::s_read_fields(
                old(cursor)@,
                TXSTDataView::empty(),
            ));
        }
        let ghost c0 = cursor@;
        let mut rec = TXSTData {
            edid: None,
            obnd: None,
            tx00: None,
            tx01: None,
            tx02: None,
            tx03: None,
            tx04: None,
            tx05: None,
            tx06: None,
            tx07: None,
            dodt: None,
            dnam: None,
        };
        while cursor.record_remaining() > 0
            invariant
                cursor@.wf(),
                TXSTData::s_read_fields(c0, TXSTDataView::empty()) == TXSTData::s_read_fields(
                    cursor@,
                    rec@,
                ),
            decreases clamp0(cursor@.record_left),
        {
            let t = match cursor.read_subrecord_type() {
                Ok(t) => t,
                Err(e) => {
                    return Err(e);
                },
            };
            let ghost c_mid = cursor@;
            match t {
                SubrecordType::EDID => {
                    match EDIDSubrecord::read(cursor) {
                        Ok(sr) => {
                            rec.edid = Some(sr);
                        },
                        Err(e) => {
                            return Err(e);
                        },
                    }
                    proof {
                        EDIDSubrecord::s_read_progress(c_mid);
                    }
                },
                SubrecordType::OBND => {
                    match OBNDSubrecord::read(cursor) {
                        Ok(sr) => {
                            rec.obnd = Some(sr);
                        },
                        Err(e) => {
                            return Err(e);
                        },
                    }
                    proof {
                        OBNDSubrecord::s_read_progress(c_mid);
                    }
                },
                SubrecordType::TX00 => {
                    match TX00Subrecord::read(cursor) {
                        Ok(sr) => {
                            rec.tx00 = Some(sr);
                        },
                        Err(e) => {
                            return Err(e);
                        },
                    }
                    proof {
                        TX00Subrecord::s_read_progress(c_mid);
                    }
                },
                SubrecordType::TX01 => {
                    match TX01Subrecord::read(cursor) {
                        Ok(sr) => {
                            rec.tx01 = Some(sr);
                        },
                        Err(e) => {
                            return Err(e);
                        },
                    }
                    proof {
                        TX01Subrecord::s_read_progress(c_mid);
                    }
                },
                SubrecordType::TX02 => {
                    match TX02Subrecord::read(cursor) {
                        Ok(sr) => {
                            rec.tx02 = Some(sr);
                        },
                        Err(e) => {
                            return Err(e);
                        },
                    }
                    proof {
                        TX02Subrecord::s_read_progress(c_mid);
                    }
                },
                SubrecordType::TX03 => {
                    match TX03Subrecord::read(cursor) {
                        Ok(sr) => {
                            rec.tx03 = Some(sr);
                        },
                        Err(e) => {
                            return Err(e);
                        },
                    }
                    proof {
                        TX03Subrecord::s_read_progress(c_mid);
                    }
                },
                SubrecordType::TX04 => {
                    match TX04Subrecord::read(cursor) {
                        Ok(sr) => {
                            rec.tx04 = Some(sr);
                        },
                        Err(e) => {
                            return Err(e);
                        },
                    }
                    proof {
                        TX04Subrecord::s_read_progress(c_mid);
                    }
                },
                SubrecordType::TX05 => {
                    match TX05Subrecord::read(cursor) {
                        Ok(sr) => {
                            rec.tx05 = Some(sr);
                        },
                        Err(e) => {
                            return Err(e);
                        },
                    }
                    proof {
                        TX05Subrecord::s_read_progress(c_mid);
                    }
                },
                SubrecordType::TX06 => {
                    match TX06Subrecord::read(cursor) {
                        Ok(sr) => {
                            rec.tx06 = Some(sr);
                        },
                        Err(e) => {
                            return Err(e);
                        },
                    }
                    proof {
                        TX06Subrecord::s_read_progress(c_mid);
                    }
                },
                SubrecordType::TX07 => {
                    match TX07Subrecord::read(cursor) {
                        Ok(sr) => {
                            rec.tx07 = Some(sr);
                        },
                        Err(e) => {
                            return Err(e);
                        },
                    }
                    proof {
                        TX07Subrecord::s_read_progress(c_mid);
                    }
                },
                SubrecordType::DODT => {
                    match DODTSubrecord::read(cursor) {
                        Ok(sr) => {
                            rec.dodt = Some(sr);
                        },
                        Err(e) => {
                            return Err(e);
                        },
                    }
                    proof {
                        DODTSubrecord::s_read_progress(c_mid);
                    }
                },
                SubrecordType::DNAM => {
                    match DNAMSubrecord::read(cursor) {
                        Ok(sr) => {
                            rec.dnam = Some(sr);
                        },
                        Err(e) => {
                            return Err(e);
                        },
                    }
                    proof {
                        DNAMSubrecord::s_read_progress(c_mid);
                    }
                },
                _ => {
                    return Err(
                        DecodeError::InvalidData(
                            String::from_str("unexpected subrecord kind in a TXST record"),
                        ),
                    );
                },
            }
        }
        Ok(rec)
    }
}

} // verus!
