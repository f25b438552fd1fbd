//! Scenario tests for the typed, budget-checked decoder.

use esplugin::cursor::Cursor;
use esplugin::error::DecodeError;
use esplugin::plugin::{decode_plugin, GroupVariant};
use esplugin::read::Readable;
use esplugin::records::clas::CLASData;
use esplugin::records::record::{Record, RecordFlags, RecordType, RECORD_FLAG_DELETED};
use esplugin::groups::header::GroupType;
use esplugin::subrecords::subrecord::SubrecordType;
use esplugin::types::{VariantBytes, ZString};

fn push_le16(v: &mut Vec<u8>, x: u16) {
    v.extend_from_slice(&[(x & 0xFF) as u8, (x >> 8) as u8]);
}

fn push_le32(v: &mut Vec<u8>, x: u32) {
    v.extend_from_slice(&[
        (x & 0xFF) as u8,
        ((x >> 8) & 0xFF) as u8,
        ((x >> 16) & 0xFF) as u8,
        ((x >> 24) & 0xFF) as u8,
    ]);
}

fn push_tag(v: &mut Vec<u8>, tag: &str) {
    v.extend_from_slice(tag.as_bytes());
}

/// One subrecord: big-endian tag, u16 length, payload.
fn subrecord_bytes(tag: &str, payload: &[u8]) -> Vec<u8> {
    let mut v = Vec::new();
    push_tag(&mut v, tag);
    push_le16(&mut v, payload.len() as u16);
    v.extend_from_slice(payload);
    v
}

/// One record: big-endian tag, then the 20-byte header, then the payload.
fn record_bytes(tag: &str, version: u16, payload: &[u8]) -> Vec<u8> {
    let mut v = Vec::new();
    push_tag(&mut v, tag);
    push_le32(&mut v, payload.len() as u32);
    push_le32(&mut v, 0); // flags
    push_le32(&mut v, 0x0000_0CAB); // form id
    v.extend_from_slice(&[0, 0, 0, 0]); // version-control info
    push_le16(&mut v, version);
    push_le16(&mut v, 0); // unused
    v.extend_from_slice(payload);
    v
}

/// An empty top-level group of the given child kind.
fn empty_group_bytes(label: &str) -> Vec<u8> {
    let mut v = Vec::new();
    push_tag(&mut v, "GRUP");
    push_le32(&mut v, 24); // total length, header included
    push_tag(&mut v, label); // label, reinterpreted as the child-kind tag
    push_le32(&mut v, 0); // group kind: top-level
    push_le32(&mut v, 0); // version-control word
    push_le32(&mut v, 0); // unused
    v
}

/// A minimal file header with three subrecords and format version 40.
fn file_header_bytes() -> Vec<u8> {
    let mut payload = Vec::new();
    let mut hedr = Vec::new();
    push_le32(&mut hedr, 0x3F800000); // version float bits
    push_le32(&mut hedr, 1); // number of records
    push_le32(&mut hedr, 0x800); // next object id
    payload.extend_from_slice(&subrecord_bytes("HEDR", &hedr));
    payload.extend_from_slice(&subrecord_bytes("CNAM", b"author\0"));
    payload.extend_from_slice(&subrecord_bytes("SNAM", b"a test plugin\0"));
    record_bytes("TES4", 40, &payload)
}

#[test]
fn lib_test_file_header() {
    let plugin = decode_plugin(file_header_bytes()).unwrap();
    assert_eq!(plugin.header.header.version, 40);
    let mut present = 0;
    if plugin.header.data.hedr.is_some() {
        present += 1;
    }
    if plugin.header.data.cnam.is_some() {
        present += 1;
    }
    if plugin.header.data.snam.is_some() {
        present += 1;
    }
    assert_eq!(present, 3);
    assert_eq!(plugin.header.data.cnam.as_ref().unwrap().data.author.value, "author");
}

#[test]
fn decodes_little_endian_u32() {
    let mut cursor = Cursor::new(vec![0x01, 0x00, 0x00, 0x00]);
    assert_eq!(cursor.read_le_u32().unwrap(), 1);
}

#[test]
fn decodes_little_endian_u16_and_u64() {
    let mut cursor = Cursor::new(vec![0x02, 0x01]);
    assert_eq!(cursor.read_le_u16().unwrap(), 0x0102);
    let mut cursor = Cursor::new(vec![1, 0, 0, 0, 0, 0, 0, 0x80]);
    assert_eq!(cursor.read_le_u64().unwrap(), 0x8000_0000_0000_0001);
}

#[test]
fn decodes_little_endian_i32() {
    let mut cursor = Cursor::new(vec![0xFF, 0xFF, 0xFF, 0xFF]);
    assert_eq!(cursor.read_le_i32().unwrap(), -1);
}

#[test]
fn classifies_big_endian_file_header_tag() {
    let mut cursor = Cursor::new(vec![0x54, 0x45, 0x53, 0x34]);
    assert_eq!(cursor.read_record_type().unwrap(), RecordType::TES4);
}

#[test]
fn decodes_null_terminated_string() {
    let mut cursor = Cursor::new(vec![0x41, 0x42, 0x00]);
    let z = ZString::read(&mut cursor).unwrap();
    assert_eq!(z.value, "AB");
    assert_eq!(cursor.position(), 3);
}

#[test]
fn decodes_multibyte_string() {
    let mut cursor = Cursor::new(vec![0xC3, 0xA9, 0x00]);
    let z = ZString::read(&mut cursor).unwrap();
    assert_eq!(z.value, "\u{e9}");
    assert_eq!(z.value.chars().count(), 1);
}

#[test]
fn rejects_invalid_string_bytes() {
    let mut cursor = Cursor::new(vec![0xFF, 0xFE, 0x00]);
    let err = ZString::read(&mut cursor).unwrap_err();
    assert!(matches!(err, DecodeError::InvalidData(_)));
}

#[test]
fn empty_keyword_group_decodes_to_one_empty_entry() {
    let mut bytes = file_header_bytes();
    bytes.extend_from_slice(&empty_group_bytes("KYWD"));
    let plugin = decode_plugin(bytes).unwrap();
    assert_eq!(plugin.top_groups.len(), 1);
    match plugin.get_group(RecordType::KYWD) {
        Some(GroupVariant::KYWD(group)) => {
            assert_eq!(group.data.len(), 0);
            assert_eq!(group.header.size, 24);
        }
        other => panic!("expected an empty keyword group, found {:?}", other),
    }
}

#[test]
fn unrecognized_top_level_kind_fails_cleanly() {
    let mut bytes = file_header_bytes();
    bytes.extend_from_slice(&empty_group_bytes("NPC_"));
    let err = decode_plugin(bytes).unwrap_err();
    assert!(matches!(err, DecodeError::InvalidData(_)));
}

#[test]
fn truncated_stream_fails_with_io_error() {
    let mut bytes = file_header_bytes();
    bytes.truncate(bytes.len() - 5);
    let err = decode_plugin(bytes).unwrap_err();
    assert!(matches!(err, DecodeError::Io));
}

#[test]
fn decoding_twice_is_deterministic() {
    let mut bytes = file_header_bytes();
    bytes.extend_from_slice(&empty_group_bytes("KYWD"));
    let first = decode_plugin(bytes.clone()).unwrap();
    let second = decode_plugin(bytes).unwrap();
    assert_eq!(first, second);
}

#[test]
fn missing_file_header_tag_fails() {
    let bytes = record_bytes("GMST", 40, &[]);
    let err = decode_plugin(bytes).unwrap_err();
    assert!(matches!(err, DecodeError::InvalidData(_)));
}

#[test]
fn file_header_skips_unknown_subrecords() {
    let mut payload = Vec::new();
    payload.extend_from_slice(&subrecord_bytes("XXXX", &[1, 2, 3]));
    payload.extend_from_slice(&subrecord_bytes("INTV", &[7, 0, 0, 0]));
    let bytes = record_bytes("TES4", 44, &payload);
    let plugin = decode_plugin(bytes).unwrap();
    assert_eq!(plugin.header.data.intv.as_ref().unwrap().data.internal_version, 7);
    assert!(plugin.header.data.hedr.is_none());
}

#[test]
fn keyword_record_rejects_unknown_subrecords() {
    let mut group_payload = Vec::new();
    let mut rec = record_bytes("KYWD", 44, &subrecord_bytes("XXXX", &[0]));
    group_payload.append(&mut rec);
    let mut group = Vec::new();
    push_tag(&mut group, "GRUP");
    push_le32(&mut group, 24 + group_payload.len() as u32);
    push_tag(&mut group, "KYWD");
    push_le32(&mut group, 0);
    push_le32(&mut group, 0);
    push_le32(&mut group, 0);
    group.extend_from_slice(&group_payload);

    let mut bytes = file_header_bytes();
    bytes.extend_from_slice(&group);
    let err = decode_plugin(bytes).unwrap_err();
    assert!(matches!(err, DecodeError::InvalidData(_)));
}

#[test]
fn over_reading_subrecord_fails_the_record() {
    // The subrecord declares more payload than the record has left:
    // after the over-read the record budget is negative, which the
    // decoder reports instead of accepting.
    let mut payload = Vec::new();
    push_tag(&mut payload, "INTV");
    push_le16(&mut payload, 200);
    payload.extend_from_slice(&[0u8; 200]);
    let mut bytes = Vec::new();
    push_tag(&mut bytes, "TES4");
    push_le32(&mut bytes, 10); // declared record length, far below the payload
    push_le32(&mut bytes, 0);
    push_le32(&mut bytes, 0);
    bytes.extend_from_slice(&[0, 0, 0, 0]);
    push_le16(&mut bytes, 40);
    push_le16(&mut bytes, 0);
    bytes.extend_from_slice(&payload);
    let err = decode_plugin(bytes).unwrap_err();
    assert!(matches!(err, DecodeError::InvalidData(_)));
}

#[test]
fn variant_cell_reads_as_big_endian_value() {
    let mut cursor = Cursor::new(vec![0, 0, 0, 5]);
    let cell = VariantBytes::read(&mut cursor).unwrap();
    assert_eq!(cell.int_value(), 5);
    assert_eq!(cell.lstring(), 5);
    assert!(cell.boolean());
    let mut cursor = Cursor::new(vec![0, 0, 0, 0]);
    let cell = VariantBytes::read(&mut cursor).unwrap();
    assert!(!cell.boolean());
}

#[test]
fn record_flags_fall_back_to_empty_on_unknown_bits() {
    let flags = RecordFlags::from_bits(RECORD_FLAG_DELETED);
    assert!(flags.contains(RECORD_FLAG_DELETED));
    let flags = RecordFlags::from_bits(0x2); // not in the catalogue
    assert_eq!(flags.bits, 0);
}

#[test]
fn budget_counters_follow_reads() {
    let mut cursor = Cursor::new(vec![0; 16]);
    cursor.enter_group(40);
    cursor.enter_record(8);
    cursor.enter_subrecord(4);
    cursor.read_le_u32().unwrap();
    assert_eq!(cursor.group_remaining(), 12);
    assert_eq!(cursor.record_remaining(), 4);
    assert_eq!(cursor.subrecord_remaining(), 0);
}

#[test]
fn gmst_group_decodes_setting_values() {
    let mut rec_payload = Vec::new();
    rec_payload.extend_from_slice(&subrecord_bytes("EDID", b"iSetting\0"));
    rec_payload.extend_from_slice(&subrecord_bytes("DATA", &[0, 0, 0, 7]));
    let rec = record_bytes("GMST", 44, &rec_payload);

    let mut group = Vec::new();
    push_tag(&mut group, "GRUP");
    push_le32(&mut group, 24 + rec.len() as u32);
    push_tag(&mut group, "GMST");
    push_le32(&mut group, 0);
    push_le32(&mut group, 0);
    push_le32(&mut group, 0);
    group.extend_from_slice(&rec);

    let mut bytes = file_header_bytes();
    bytes.extend_from_slice(&group);
    let plugin = decode_plugin(bytes).unwrap();
    match plugin.get_group(RecordType::GMST) {
        Some(GroupVariant::GMST(g)) => {
            assert_eq!(g.data.len(), 1);
            let record = &g.data[0];
            assert_eq!(record.data.edid.as_ref().unwrap().data.editor_id.value, "iSetting");
            assert_eq!(record.data.data.as_ref().unwrap().data.color.int_value(), 7);
        }
        other => panic!("expected one game setting, found {:?}", other),
    }
}

#[test]
fn glob_and_txst_groups_decode_their_fields() {
    let mut glob_payload = Vec::new();
    glob_payload.extend_from_slice(&subrecord_bytes("FNAM", b"s"));
    glob_payload.extend_from_slice(&subrecord_bytes("FLTV", &[0, 0, 0x80, 0x3F]));
    let glob_rec = record_bytes("GLOB", 44, &glob_payload);

    let mut txst_payload = Vec::new();
    txst_payload.extend_from_slice(&subrecord_bytes("TX00", b"diffuse.dds\0"));
    txst_payload.extend_from_slice(&subrecord_bytes("DNAM", &[3, 0]));
    let txst_rec = record_bytes("TXST", 44, &txst_payload);

    let mut bytes = file_header_bytes();
    for (label, rec) in [("GLOB", &glob_rec), ("TXST", &txst_rec)] {
        let mut group = Vec::new();
        push_tag(&mut group, "GRUP");
        push_le32(&mut group, 24 + rec.len() as u32);
        push_tag(&mut group, label);
        push_le32(&mut group, 0);
        push_le32(&mut group, 0);
        push_le32(&mut group, 0);
        group.extend_from_slice(rec);
        bytes.extend_from_slice(&group);
    }
    let plugin = decode_plugin(bytes).unwrap();
    assert_eq!(plugin.top_groups.len(), 2);
    match plugin.get_group(RecordType::GLOB) {
        Some(GroupVariant::GLOB(g)) => {
            let record = &g.data[0];
            assert_eq!(record.data.fnam.as_ref().unwrap().data.ty, 's');
            assert_eq!(record.data.fltv.as_ref().unwrap().data.value_bits, 0x3F80_0000);
        }
        other => panic!("expected a global, found {:?}", other),
    }
    match plugin.get_group(RecordType::TXST) {
        Some(GroupVariant::TXST(g)) => {
            let record = &g.data[0];
            assert_eq!(record.data.tx00.as_ref().unwrap().data.texture_00.value, "diffuse.dds");
            assert_eq!(record.data.dnam.as_ref().unwrap().data.flags.bits, 3);
        }
        other => panic!("expected a texture set, found {:?}", other),
    }
}

#[test]
fn class_record_reads_directly() {
    let mut data = Vec::new();
    push_le32(&mut data, 9); // unknown
    data.push(12); // training skill
    data.push(50); // training level
    data.extend_from_slice(&[1; 18]); // skill weights
    push_le32(&mut data, 0x3F00_0000); // bleedout float bits
    push_le32(&mut data, 100); // voice points
    data.push(2); // health weight
    data.push(3); // magicka weight
    data.push(4); // stamina weight
    data.push(1); // flags: guard
    let mut payload = Vec::new();
    payload.extend_from_slice(&subrecord_bytes("EDID", b"Warrior\0"));
    payload.extend_from_slice(&subrecord_bytes("FULL", &[0x34, 0x12, 0, 0]));
    payload.extend_from_slice(&subrecord_bytes("DESC", &[0x78, 0x56, 0, 0]));
    payload.extend_from_slice(&subrecord_bytes("DATA", &data));
    let bytes = record_bytes("CLAS", 44, &payload);

    let mut cursor = Cursor::new(bytes);
    cursor.read_record_type().unwrap(); // the caller consumes the tag
    let record = Record::<RecordFlags, CLASData>::read(&mut cursor).unwrap();
    let class_data = record.data.data.as_ref().unwrap();
    assert_eq!(class_data.data.training_skill, 12);
    assert_eq!(class_data.data.skill_weights.len(), 18);
    assert_eq!(class_data.data.flags.bits, 1);
    assert_eq!(record.data.edid.as_ref().unwrap().data.editor_id.value, "Warrior");
    assert_eq!(record.data.full.as_ref().unwrap().data.name.index, 0x1234);
    assert_eq!(record.data.desc.as_ref().unwrap().data.description.index, 0x5678);
}

#[test]
fn file_header_records_masters_and_overrides() {
    let mut payload = Vec::new();
    payload.extend_from_slice(&subrecord_bytes("MAST", b"Base.esm\0"));
    payload.extend_from_slice(&subrecord_bytes(
        "DATA",
        &[0x08, 0x07, 0x06, 0x05, 0x04, 0x03, 0x02, 0x01],
    ));
    payload.extend_from_slice(&subrecord_bytes("ONAM", &[1, 0, 0, 0, 2, 0, 0, 0]));
    let bytes = record_bytes("TES4", 40, &payload);
    let plugin = decode_plugin(bytes).unwrap();
    assert_eq!(plugin.header.data.mast.as_ref().unwrap().data.master.value, "Base.esm");
    assert_eq!(plugin.header.data.data.as_ref().unwrap().data.file_size, 0x0102_0304_0506_0708);
    assert_eq!(plugin.header.data.onam.as_ref().unwrap().data.overrides, vec![1, 2]);
}

#[test]
fn aact_and_lcrt_groups_decode_colors() {
    let mut bytes = file_header_bytes();
    for label in ["AACT", "LCRT"] {
        let mut rec_payload = Vec::new();
        rec_payload.extend_from_slice(&subrecord_bytes("EDID", b"Entry\0"));
        rec_payload.extend_from_slice(&subrecord_bytes("CNAM", &[10, 20, 30, 40]));
        let rec = record_bytes(label, 44, &rec_payload);
        let mut group = Vec::new();
        push_tag(&mut group, "GRUP");
        push_le32(&mut group, 24 + rec.len() as u32);
        push_tag(&mut group, label);
        push_le32(&mut group, 0);
        push_le32(&mut group, 0);
        push_le32(&mut group, 0);
        group.extend_from_slice(&rec);
        bytes.extend_from_slice(&group);
    }
    let plugin = decode_plugin(bytes).unwrap();
    match plugin.get_group(RecordType::AACT) {
        Some(GroupVariant::AACT(g)) => {
            let rgb = &g.data[0].data.cnam.as_ref().unwrap().data.rgb;
            assert_eq!((rgb.r, rgb.g, rgb.b, rgb.a), (10, 20, 30, 40));
        }
        other => panic!("expected an action group, found {:?}", other),
    }
    assert!(matches!(plugin.get_group(RecordType::LCRT), Some(GroupVariant::LCRT(_))));
}

#[test]
fn error_messages_carry_reasons() {
    let err = decode_plugin(record_bytes("GMST", 40, &[])).unwrap_err();
    match &err {
        DecodeError::InvalidData(message) => assert!(!message.is_empty()),
        other => panic!("expected a format violation, found {:?}", other),
    }
    assert!(!err.message().is_empty());
}

#[test]
fn tag_kinds_round_trip_through_their_codes() {
    assert_eq!(RecordType::from_u32(0x4B59_5744), RecordType::KYWD);
    assert_eq!(RecordType::KYWD.num(), 0x4B59_5744);
    assert_eq!(RecordType::from_u32(0xDEAD_BEEF), RecordType::Unknown);
    assert_eq!(SubrecordType::from_u32(0x4845_4452), SubrecordType::HEDR);
    assert_eq!(SubrecordType::HEDR.num(), 0x4845_4452);
    assert_eq!(GroupType::from_u32(0), GroupType::Top);
    assert_eq!(GroupType::from_u32(9), GroupType::CellTemporaryChildren);
    assert_eq!(GroupType::from_u32(77), GroupType::Unknown);
    assert_eq!(GroupType::Top.num(), 0);
}
