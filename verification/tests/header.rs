use dbase::dbf::DbfReader;
use dbase::dbf::DbfVersion;
use dbase::errors::Error;

/// A minimal table file: the 32-byte header region truncated to the 12
/// decoded bytes, with a zero data-start offset so that no descriptors are
/// expected.
fn header_bytes(version: u8, year: u8, month: u8, day: u8) -> Vec<u8> {
    let mut v = vec![0u8; 12];
    v[0] = version;
    v[1] = year;
    v[2] = month;
    v[3] = day;
    v
}

#[test]
fn every_supported_version_byte_decodes() {
    let cases = [
        (0x03u8, DbfVersion::Dbase),
        (0x83, DbfVersion::Dbase3WithMemo),
        (0x8b, DbfVersion::Dbase4WithMemo),
        (0xf5, DbfVersion::FoxProWithMemo),
        (0x30, DbfVersion::VisualFoxPro),
    ];
    for (byte, expected) in cases {
        let dbf = DbfReader::from_reader(&header_bytes(byte, 26, 2, 23)).unwrap();
        assert_eq!(expected, dbf.header.version);
    }
}

#[test]
fn unknown_version_byte_is_rejected() {
    let r = DbfReader::from_reader(&header_bytes(0x04, 26, 2, 23));
    assert_eq!(Err(Error::UnsupportedVersion(0x04)), r.map(|_| ()));
    let r = DbfReader::from_reader(&header_bytes(0x00, 26, 2, 23));
    assert_eq!(Err(Error::UnsupportedVersion(0x00)), r.map(|_| ()));
}

#[test]
fn year_decoding_is_century_blind() {
    // a year byte of 26 always decodes to 1926, never 2026, in every dialect
    for byte in [0x03u8, 0x83, 0x8b, 0xf5, 0x30] {
        let dbf = DbfReader::from_reader(&header_bytes(byte, 26, 2, 23)).unwrap();
        assert_eq!(1926, dbf.header.last_update.year);
        assert_ne!(2026, dbf.header.last_update.year);
        assert_eq!(2, dbf.header.last_update.month);
        assert_eq!(23, dbf.header.last_update.day);
    }
}

#[test]
fn invalid_month_is_rejected() {
    let r = DbfReader::from_reader(&header_bytes(0x03, 26, 13, 1));
    assert_eq!(Err(Error::InvalidDate(1926, 13, 1)), r.map(|_| ()));
    let r = DbfReader::from_reader(&header_bytes(0x03, 26, 0, 1));
    assert_eq!(Err(Error::InvalidDate(1926, 0, 1)), r.map(|_| ()));
}

#[test]
fn invalid_calendar_day_is_rejected() {
    // day 31 in February does not exist
    let r = DbfReader::from_reader(&header_bytes(0x03, 26, 2, 31));
    assert_eq!(Err(Error::InvalidDate(1926, 2, 31)), r.map(|_| ()));
    // 1900 is not a leap year (divisible by 100, not by 400)
    let r = DbfReader::from_reader(&header_bytes(0x03, 0, 2, 29));
    assert_eq!(Err(Error::InvalidDate(1900, 2, 29)), r.map(|_| ()));
    // 2000 is a leap year (divisible by 400)
    let dbf = DbfReader::from_reader(&header_bytes(0x03, 100, 2, 29)).unwrap();
    assert_eq!(2000, dbf.header.last_update.year);
    assert_eq!(29, dbf.header.last_update.day);
}

#[test]
fn other_header_fields_are_little_endian() {
    let mut v = header_bytes(0x03, 26, 2, 23);
    // row count 8, row length 0x2E
    v[4] = 8;
    v[10] = 0x2e;
    let dbf = DbfReader::from_reader(&v).unwrap();
    assert_eq!(8, dbf.header.num_records);
    assert_eq!(0, dbf.header.record_start);
    assert_eq!(0x2e, dbf.header.record_length);

    // multi-byte values: least significant byte first
    let mut v = header_bytes(0x03, 26, 2, 23);
    v[4] = 0x01;
    v[5] = 0x02;
    v[6] = 0x03;
    v[7] = 0x04;
    v[10] = 0x10;
    v[11] = 0x20;
    let dbf = DbfReader::from_reader(&v).unwrap();
    assert_eq!(0x04030201, dbf.header.num_records);
    assert_eq!(0x2010, dbf.header.record_length);
}

#[test]
fn truncated_header_is_rejected() {
    assert_eq!(
        Err(Error::UnexpectedEof),
        DbfReader::from_reader(&[]).map(|_| ())
    );
    assert_eq!(
        Err(Error::UnexpectedEof),
        DbfReader::from_reader(&[0x03]).map(|_| ())
    );
    assert_eq!(
        Err(Error::UnexpectedEof),
        DbfReader::from_reader(&[0x03, 26, 2, 23, 0, 0]).map(|_| ())
    );
}
