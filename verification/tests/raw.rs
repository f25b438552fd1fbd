//! Scenario tests for the raw structural parser and the session layer.

use esplugin::parser::{parse_plugin, read_plugin, TypeCode};
use esplugin::session::{generate_maps, Plugin, RecordIndex};

fn push_le16(v: &mut Vec<u8>, x: u16) {
    v.extend_from_slice(&[(x & 0xFF) as u8, (x >> 8) as u8]);
}

fn push_le32(v: &mut Vec<u8>, x: u32) {
    v.extend_from_slice(&[
        (x & 0xFF) as u8,
        ((x >> 8) & 0xFF) as u8,
        ((x >> 16) & 0xFF) as u8,
        ((x >> 24) & 0xFF) as u8,
    ]);
}

fn raw_subrecord(tag: &str, payload: &[u8]) -> Vec<u8> {
    let mut v = Vec::new();
    v.extend_from_slice(tag.as_bytes());
    push_le16(&mut v, payload.len() as u16);
    v.extend_from_slice(payload);
    v
}

fn raw_record(tag: &str, id: u32, version: u16, payload: &[u8]) -> Vec<u8> {
    let mut v = Vec::new();
    v.extend_from_slice(tag.as_bytes());
    push_le32(&mut v, payload.len() as u32);
    push_le32(&mut v, 0);
    push_le32(&mut v, id);
    push_le32(&mut v, 0);
    push_le16(&mut v, version);
    push_le16(&mut v, 0);
    v.extend_from_slice(payload);
    v
}

fn raw_group(label: &str, records: &[u8]) -> Vec<u8> {
    let mut v = Vec::new();
    v.extend_from_slice(b"GRUP");
    push_le32(&mut v, 24 + records.len() as u32);
    v.extend_from_slice(label.as_bytes());
    push_le32(&mut v, 0); // top-level group
    push_le32(&mut v, 0);
    push_le32(&mut v, 0);
    v.extend_from_slice(records);
    v
}

fn header_with_three_subrecords() -> Vec<u8> {
    let mut payload = Vec::new();
    payload.extend_from_slice(&raw_subrecord("HEDR", &[0; 12]));
    payload.extend_from_slice(&raw_subrecord("CNAM", b"author\0"));
    payload.extend_from_slice(&raw_subrecord("SNAM", b"notes\0"));
    raw_record("TES4", 0, 40, &payload)
}

#[test]
fn test_file_header() {
    let bytes = header_with_three_subrecords();
    let plugin = read_plugin(&bytes).unwrap();
    assert_eq!(plugin.header.header.version, 40);
    assert_eq!(plugin.header.subrecords.len(), 3);
}

#[test]
fn test_record_type_equality() {
    let a: TypeCode = TypeCode::from_u32(0x5f43504e);
    let b = TypeCode::from_utf8("NPC_").unwrap();
    println!("{:#?}, {:#?}", a, b);
    assert_eq!(a, b);
}

#[test]
fn type_code_round_trips_through_utf8() {
    let tc = TypeCode::from_utf8("GRUP").unwrap();
    assert_eq!(tc.code, *b"GRUP");
    assert_eq!(tc.to_utf8().unwrap(), "GRUP");
    assert!(TypeCode::from_utf8("TOOLONG").is_err());
}

#[test]
fn parse_plugin_reports_structure_and_stop() {
    let mut bytes = header_with_three_subrecords();
    let rec = raw_record("KYWD", 0x10, 44, &raw_subrecord("EDID", b"Sharp"));
    bytes.extend_from_slice(&raw_group("KYWD", &rec));
    let len = bytes.len();
    let (plugin, stop) = parse_plugin(&bytes).unwrap();
    assert_eq!(stop, len);
    assert_eq!(plugin.top_groups.len(), 1);
    assert_eq!(plugin.top_groups[0].records.len(), 1);
    assert_eq!(plugin.top_groups[0].records[0].header.id, 0x10);
    assert_eq!(plugin.top_groups[0].records[0].subrecords[0].data, b"Sharp".to_vec());
}

#[test]
fn read_plugin_rejects_trailing_bytes() {
    let mut bytes = header_with_three_subrecords();
    bytes.extend_from_slice(&[1, 2, 3]);
    assert!(read_plugin(&bytes).is_err());
}

#[test]
fn editor_id_finds_the_edid_subrecord() {
    let mut payload = Vec::new();
    payload.extend_from_slice(&raw_subrecord("CNAM", &[1, 2, 3, 4]));
    payload.extend_from_slice(&raw_subrecord("EDID", b"ArmorKeyword"));
    let bytes = raw_record("KYWD", 7, 44, &payload);
    let (record, _) = esplugin::parser::record(&bytes, 0, bytes.len()).unwrap();
    assert_eq!(record.editor_id().unwrap(), "ArmorKeyword");

    let bytes = raw_record("KYWD", 7, 44, &raw_subrecord("CNAM", &[1, 2, 3, 4]));
    let (record, _) = esplugin::parser::record(&bytes, 0, bytes.len()).unwrap();
    assert!(record.editor_id().is_none());
}

#[test]
fn group_type_code_reads_the_label() {
    let bytes = raw_group("KYWD", &[]);
    let (group, _) = esplugin::parser::group(&bytes, 0, bytes.len()).unwrap();
    let tc = group.type_code().unwrap();
    assert_eq!(tc.code, *b"KYWD");
    assert!(group.top_group_matches_type(TypeCode::from_utf8("KYWD").unwrap()));
    assert!(!group.top_group_matches_type(TypeCode::from_utf8("GMST").unwrap()));
}

#[test]
fn generate_maps_indexes_every_record() {
    let mut bytes = header_with_three_subrecords();
    let mut recs = Vec::new();
    recs.extend_from_slice(&raw_record("KYWD", 0x21, 44, &raw_subrecord("EDID", b"First")));
    recs.extend_from_slice(&raw_record("KYWD", 0x22, 44, &raw_subrecord("EDID", b"Second")));
    bytes.extend_from_slice(&raw_group("KYWD", &recs));
    let plugin = read_plugin(&bytes).unwrap();
    let map = generate_maps(&plugin);
    assert_eq!(map.len(), 2);
    assert_eq!(*map.get(&0x21).unwrap(), RecordIndex { group_pos: 0, record_pos: 0 });
    assert_eq!(*map.get(&0x22).unwrap(), RecordIndex { group_pos: 0, record_pos: 1 });
}

#[test]
fn session_lookups_find_records() {
    let mut bytes = header_with_three_subrecords();
    let mut recs = Vec::new();
    recs.extend_from_slice(&raw_record("KYWD", 0x21, 44, &raw_subrecord("EDID", b"First")));
    recs.extend_from_slice(&raw_record("KYWD", 0x22, 44, &raw_subrecord("EDID", b"Second")));
    bytes.extend_from_slice(&raw_group("KYWD", &recs));
    let plugin = Plugin::new(read_plugin(&bytes).unwrap(), true);
    assert!(plugin.base);

    let record = plugin.get_record(0x22).unwrap();
    assert_eq!(record.header.id, 0x22);
    assert_eq!(record.editor_id().unwrap(), "Second");
    assert!(plugin.get_record(0x99).is_none());

    let records = plugin.get_records_by_code(TypeCode::from_utf8("KYWD").unwrap()).unwrap();
    assert_eq!(records.len(), 2);
    assert!(plugin.get_records_by_code(TypeCode::from_utf8("GMST").unwrap()).is_none());
}
