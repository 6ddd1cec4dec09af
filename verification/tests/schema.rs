use dbase::dbf::DbfReader;
use dbase::dbf::FieldType;
use dbase::errors::Error;

/// A 32-byte header whose data-start offset declares room for `columns`
/// descriptors (header + descriptors + terminator byte).
fn header_for(columns: u16) -> Vec<u8> {
    let mut v = vec![0u8; 32];
    v[0] = 0x03;
    v[1] = 26;
    v[2] = 2;
    v[3] = 23;
    let record_start = 32 + 32 * columns + 1;
    v[8] = (record_start & 0xff) as u8;
    v[9] = (record_start >> 8) as u8;
    v
}

/// A 32-byte column descriptor: NUL-padded name, type tag, size and
/// decimal-places bytes.
fn descriptor(name: &str, tag: u8, size: u8, decimal: u8) -> Vec<u8> {
    let mut d = vec![0u8; 32];
    let bytes = name.as_bytes();
    let mut i = 0;
    while i < bytes.len() && i < 11 {
        d[i] = bytes[i];
        i += 1;
    }
    d[11] = tag;
    d[16] = size;
    d[17] = decimal;
    d
}

#[test]
fn five_columns_decode_in_file_order() {
    let mut v = header_for(5);
    v.extend(descriptor("ID", 0x4e, 10, 0));
    v.extend(descriptor("NAME", 0x43, 30, 0));
    v.extend(descriptor("BIRTH", 0x44, 8, 0));
    v.extend(descriptor("ACTIVE", 0x4c, 1, 0));
    v.extend(descriptor("NOTES", 0x4d, 10, 0));
    v.push(0x0d);

    let dbf = DbfReader::from_reader(&v).unwrap();
    let fields = dbf.fields();
    assert_eq!(5, fields.len());
    assert_eq!("ID", fields[0].name());
    assert_eq!("NAME", fields[1].name());
    assert_eq!("BIRTH", fields[2].name());
    assert_eq!("ACTIVE", fields[3].name());
    assert_eq!("NOTES", fields[4].name());
    assert!(matches!(fields[0].field_type(), FieldType::Numeric { size: 10, decimal: 0 }));
    assert!(matches!(fields[1].field_type(), FieldType::Character(30)));
    assert!(matches!(fields[2].field_type(), FieldType::Date));
    assert!(matches!(fields[3].field_type(), FieldType::Logical));
    assert!(matches!(fields[4].field_type(), FieldType::Memo));
}

#[test]
fn names_longer_than_eleven_bytes_are_cut() {
    let mut v = header_for(1);
    v.extend(descriptor("ABCDEFGHIJKLMNOP", 0x43, 5, 0));
    v.push(0x0d);
    let dbf = DbfReader::from_reader(&v).unwrap();
    assert_eq!("ABCDEFGHIJK", dbf.fields()[0].name());
}

#[test]
fn name_stops_at_first_nul() {
    let mut v = header_for(1);
    let mut d = descriptor("", 0x44, 0, 0);
    d[0] = b'A';
    d[1] = b'B';
    // d[2] stays NUL; bytes after it are ignored
    d[3] = b'C';
    v.extend(d);
    v.push(0x0d);
    let dbf = DbfReader::from_reader(&v).unwrap();
    assert_eq!("AB", dbf.fields()[0].name());
}

#[test]
fn decoding_stops_at_terminator_before_count() {
    // the offset declares room for 5 descriptors, but the terminator comes
    // after 2: the terminator wins
    let mut v = header_for(5);
    v.extend(descriptor("A", 0x44, 0, 0));
    v.extend(descriptor("B", 0x4c, 0, 0));
    v.push(0x0d);
    let dbf = DbfReader::from_reader(&v).unwrap();
    assert_eq!(2, dbf.fields().len());
}

#[test]
fn decoding_stops_at_count_without_terminator() {
    // the offset declares room for 1 descriptor and no terminator byte
    // follows: the computed count wins, with no error
    let mut v = header_for(1);
    v.extend(descriptor("A", 0x44, 0, 0));
    let dbf = DbfReader::from_reader(&v).unwrap();
    assert_eq!(1, dbf.fields().len());
    assert_eq!("A", dbf.fields()[0].name());
}

#[test]
fn unknown_field_type_fails_whole_schema() {
    let mut v = header_for(2);
    v.extend(descriptor("A", 0x44, 0, 0));
    v.extend(descriptor("B", 0x5a, 0, 0));
    v.push(0x0d);
    let r = DbfReader::from_reader(&v);
    assert_eq!(Err(Error::UnsupportedFieldType(0x5a)), r.map(|_| ()));
}

#[test]
fn foxpro_only_types_decode() {
    let mut v = header_for(4);
    v.extend(descriptor("I", 0x49, 4, 0));
    v.extend(descriptor("Y", 0x59, 8, 4));
    v.extend(descriptor("T", 0x54, 8, 0));
    v.extend(descriptor("B", 0x42, 8, 0));
    v.push(0x0d);
    let dbf = DbfReader::from_reader(&v).unwrap();
    assert!(matches!(dbf.fields()[0].field_type(), FieldType::Integer));
    assert!(matches!(dbf.fields()[1].field_type(), FieldType::Currency));
    assert!(matches!(dbf.fields()[2].field_type(), FieldType::DateTime));
    assert!(matches!(dbf.fields()[3].field_type(), FieldType::Double));
}

#[test]
fn float_type_keeps_size_and_decimal() {
    let mut v = header_for(1);
    v.extend(descriptor("F", 0x46, 12, 3));
    v.push(0x0d);
    let dbf = DbfReader::from_reader(&v).unwrap();
    assert!(matches!(dbf.fields()[0].field_type(), FieldType::Float { size: 12, decimal: 3 }));
}

#[test]
fn truncated_descriptor_is_rejected() {
    let mut v = header_for(1);
    v.extend(vec![0u8; 8]);
    let r = DbfReader::from_reader(&v);
    assert_eq!(Err(Error::UnexpectedEof), r.map(|_| ()));
}
