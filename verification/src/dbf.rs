//! The table file: a fixed 32-byte header followed by a sequence of fixed
//! 32-byte column descriptors, terminated by a `0x0D` byte or by the
//! descriptor count computed from the data-start offset — whichever comes
//! first.

use vstd::prelude::*;

use crate::SliceUntilTerminator;
use crate::date::Date;
use crate::date::date_valid;
use crate::errors::Error;
use crate::num::le16_at;
use crate::num::le32_at;
use crate::scan_prefix;
use crate::text::utf8_lossy;

verus! {

/// The closed set of supported version tags, from byte 0 of the table
/// header. dBase III, IV and 5 tables without memo fields, and FoxPro 1.0 and
/// 2.0 tables, all share the plain `Dbase` tag.
#[derive(Clone, Copy, Debug, PartialEq, Eq, Structural)]
pub enum DbfVersion {
    /// Table without memo fields (byte `0x03`).
    Dbase,
    /// dBase III table with a memo file (byte `0x83`).
    Dbase3WithMemo,
    /// dBase IV/5 table with a memo file (byte `0x8B`).
    Dbase4WithMemo,
    /// FoxPro table with a memo file (byte `0xF5`).
    FoxProWithMemo,
    /// Visual FoxPro table without memo fields (byte `0x30`).
    VisualFoxPro,
}

/// The version tag that a header's first byte decodes to, if any.
pub open spec fn version_of_byte(b: u8) -> Option<DbfVersion> {
    if b == 0x03 {
        Some(DbfVersion::Dbase)
    } else if b == 0x83 {
        Some(DbfVersion::Dbase3WithMemo)
    } else if b == 0x8b {
        Some(DbfVersion::Dbase4WithMemo)
    } else if b == 0xf5 {
        Some(DbfVersion::FoxProWithMemo)
    } else if b == 0x30 {
        Some(DbfVersion::VisualFoxPro)
    } else {
        None
    }
}

pub fn version_from_byte(b: u8) -> (r: Option<DbfVersion>)
    ensures
        r == version_of_byte(b),
{
    if b == 0x03 {
        Some(DbfVersion::Dbase)
    } else if b == 0x83 {
        Some(DbfVersion::Dbase3WithMemo)
    } else if b == 0x8b {
        Some(DbfVersion::Dbase4WithMemo)
    } else if b == 0xf5 {
        Some(DbfVersion::FoxProWithMemo)
    } else if b == 0x30 {
        Some(DbfVersion::VisualFoxPro)
    } else {
        None
    }
}

/// The year stored in a header's year byte. It is decoded as `1900 + byte`
/// unconditionally for every dialect — including dialects whose true intent
/// was a 2000s date. A year byte of 26 always decodes to 1926, never 2026.
pub open spec fn header_year(b: u8) -> u16 {
    (1900 + b) as u16
}

/// The decoded fixed 32-byte table header.
#[derive(Clone, Copy, Debug, PartialEq, Eq, Structural)]
pub struct Header {
    pub version: DbfVersion,
    pub last_update: Date,
    /// Row count (bytes 4-7, little-endian), unchecked against the actual
    /// file size.
    pub num_records: u32,
    /// Byte position where the first row begins (bytes 8-9, little-endian).
    pub record_start: u16,
    /// Length of one row in bytes (bytes 10-11, little-endian).
    pub record_length: u16,
}

/// The decode of the first 32 bytes of a table file: a header, or the first
/// failure in decoding order (version byte, then date bytes, then the
/// remaining fixed fields).
pub open spec fn parse_header(s: Seq<u8>) -> Result<Header, Error> {
    if s.len() < 1 {
        Err(Error::UnexpectedEof)
    } else if version_of_byte(s[0]) is None {
        Err(Error::UnsupportedVersion(s[0]))
    } else if s.len() < 4 {
        Err(Error::UnexpectedEof)
    } else if !date_valid(1900 + s[1] as int, s[2] as int, s[3] as int) {
        Err(Error::InvalidDate(header_year(s[1]), s[2], s[3]))
    } else if s.len() < 12 {
        Err(Error::UnexpectedEof)
    } else {
        Ok(
            Header {
                version: version_of_byte(s[0])->0,
                last_update: Date { year: header_year(s[1]), month: s[2], day: s[3] },
                num_records: le32_at(s, 4),
                record_start: le16_at(s, 8),
                record_length: le16_at(s, 10),
            },
        )
    }
}

/// The field (column) type and its constraints.
#[derive(Clone, Copy, Debug, PartialEq, Eq, Structural)]
pub enum FieldType {
    /// Fixed-size text (tag `C`), with its length.
    Character(u8),
    /// Numeric (tag `N`), with size and decimal places.
    Numeric { size: u8, decimal: u8 },
    /// Floating numeric (tag `F`), with size and decimal places.
    Float { size: u8, decimal: u8 },
    /// Date (tag `D`).
    Date,
    /// Boolean (tag `L`).
    Logical,
    /// Reference into the companion memo store (tag `M`).
    Memo,
    /// FoxPro integer (tag `I`).
    Integer,
    /// FoxPro currency (tag `Y`).
    Currency,
    /// FoxPro datetime (tag `T`).
    DateTime,
    /// FoxPro double (tag `B`).
    Double,
}

/// True when the type-tag byte of a descriptor is in the closed set.
pub open spec fn field_tag_known(t: u8) -> bool {
    t == 0x43 || t == 0x4e || t == 0x46 || t == 0x44 || t == 0x4c || t == 0x4d || t == 0x49 || t
        == 0x42 || t == 0x59 || t == 0x54
}

/// The first failure in decoding the 32-byte descriptor at byte position
/// `pos` of `s`, if any: the name and tag bytes must be present, the tag must
/// be known, and the size/decimal parameter bytes must be present for the
/// types that carry them.
pub open spec fn descriptor_error_at(s: Seq<u8>, pos: int) -> Option<Error> {
    if s.len() < pos + 12 {
        Some(Error::UnexpectedEof)
    } else {
        let t = s[pos + 11];
        if !field_tag_known(t) {
            Some(Error::UnsupportedFieldType(t))
        } else if t == 0x43 && s.len() < pos + 17 {
            Some(Error::UnexpectedEof)
        } else if (t == 0x4e || t == 0x46) && s.len() < pos + 18 {
            Some(Error::UnexpectedEof)
        } else {
            None
        }
    }
}

/// The field type encoded by the descriptor at byte position `pos`: the tag
/// byte at `pos + 11`, with the size byte (`pos + 16`) and decimal-places
/// byte (`pos + 17`) attached for the types that carry them.
pub open spec fn field_type_at(s: Seq<u8>, pos: int) -> FieldType
    recommends
        descriptor_error_at(s, pos) is None,
{
    let t = s[pos + 11];
    if t == 0x43 {
        FieldType::Character(s[pos + 16])
    } else if t == 0x4e {
        FieldType::Numeric { size: s[pos + 16], decimal: s[pos + 17] }
    } else if t == 0x46 {
        FieldType::Float { size: s[pos + 16], decimal: s[pos + 17] }
    } else if t == 0x44 {
        FieldType::Date
    } else if t == 0x4c {
        FieldType::Logical
    } else if t == 0x4d {
        FieldType::Memo
    } else if t == 0x49 {
        FieldType::Integer
    } else if t == 0x42 {
        FieldType::Double
    } else if t == 0x59 {
        FieldType::Currency
    } else {
        FieldType::DateTime
    }
}

/// The name bytes of the descriptor at byte position `pos`: the 11 name
/// bytes, trimmed at the first NUL by the bounded terminator scan.
pub open spec fn field_name_bytes(s: Seq<u8>, pos: int) -> Seq<u8>
    recommends
        pos + 11 <= s.len(),
{
    scan_prefix(s.subrange(pos, pos + 11), seq![0u8])
}

/// A field (column) defined in a given table. Created once at schema-decode
/// time and immutable thereafter.
pub struct Field {
    pub name: String,
    pub field_type: FieldType,
}

/// The relation between the descriptor bytes at position `pos` of `s` and a
/// decoded `Field`.
pub open spec fn field_matches_at(s: Seq<u8>, pos: int, f: Field) -> bool {
    &&& f.name@ == utf8_lossy(field_name_bytes(s, pos))
    &&& f.field_type == field_type_at(s, pos)
}

impl Field {
    /// Decodes the 32-byte column descriptor at byte position `pos` of
    /// `source`. Exactly the bytes that the encoded type calls for must be
    /// present; an unknown type tag fails the decode.
    pub fn from_bytes(source: &[u8], pos: usize) -> (r: Result<Field, Error>)
        requires
            pos + 32 <= usize::MAX,
        ensures
            (match descriptor_error_at(source@, pos as int) {
                Some(e) => r == Result::<Field, Error>::Err(e),
                None => r matches Ok(f) && field_matches_at(source@, pos as int, f),
            }),
    {
        let n = source.len();
        if n < pos + 12 {
            return Err(Error::UnexpectedEof);
        }
        let name_bytes = vstd::slice::slice_subrange(source, pos, pos + 11);
        let nul: [u8; 1] = [0u8];
        let trimmed = name_bytes.until_terminator(nul.as_slice());
        proof {
            assert(nul@ =~= seq![0u8]);
            assert(trimmed@ == field_name_bytes(source@, pos as int));
        }
        let name = crate::text::string_from_utf8_lossy(trimmed);
        let t = source[pos + 11];
        let field_type: FieldType = if t == 0x43 {
            if n < pos + 17 {
                return Err(Error::UnexpectedEof);
            }
            FieldType::Character(source[pos + 16])
        } else if t == 0x4e || t == 0x46 {
            if n < pos + 18 {
                return Err(Error::UnexpectedEof);
            }
            let size = source[pos + 16];
            let decimal = source[pos + 17];
            if t == 0x4e {
                FieldType::Numeric { size, decimal }
            } else {
                FieldType::Float { size, decimal }
            }
        } else if t == 0x44 {
            FieldType::Date
        } else if t == 0x4c {
            FieldType::Logical
        } else if t == 0x4d {
            FieldType::Memo
        } else if t == 0x49 {
            FieldType::Integer
        } else if t == 0x42 {
            FieldType::Double
        } else if t == 0x59 {
            FieldType::Currency
        } else if t == 0x54 {
            FieldType::DateTime
        } else {
            return Err(Error::UnsupportedFieldType(t));
        };
        Ok(Field { name, field_type })
    }

    /// Returns the name of this field (column): at most 11 bytes,
    /// NUL-trimmed, interpreted as text.
    pub fn name(&self) -> (r: &str)
        ensures
            r@ == self.name@,
    {
        self.name.as_str()
    }

    /// Returns the type of this field (column).
    pub fn field_type(&self) -> (r: FieldType)
        ensures
            r == self.field_type,
    {
        self.field_type
    }
}

/// Upper bound on the number of column descriptors, computed from the
/// data-start offset: the offset covers the 32-byte header, the 32-byte
/// descriptors and one terminator byte, so the bound is
/// `(record_start - 1) / 32 - 1`, clamped at zero.
pub open spec fn max_field_count(record_start: u16) -> int {
    let q = (record_start - 1) / 32 - 1;
    if q < 0 {
        0
    } else {
        q
    }
}

fn max_fields(record_start: u16) -> (r: usize)
    ensures
        r == max_field_count(record_start),
        r <= 2046,
{
    if record_start < 1 {
        return 0;
    }
    let q = (record_start - 1) / 32;
    if q < 1 {
        0
    } else {
        (q - 1) as usize
    }
}

/// Byte position of descriptor `k`: descriptors repeat every 32 bytes from
/// offset 32.
pub open spec fn descriptor_pos(k: int) -> int {
    32 + 32 * k
}

/// Outcome of schema decoding from descriptor `k` onward, `max` being the
/// count bound from the data-start offset: the total descriptor count, or
/// the first failure. Decoding stops, without error, at whichever comes
/// first of the `0x0D` terminator byte and the count bound.
pub open spec fn schema_outcome(s: Seq<u8>, k: int, max: int) -> Result<int, Error>
    decreases max - k,
{
    if k >= max {
        Ok(k)
    } else if s.len() <= descriptor_pos(k) {
        Err(Error::UnexpectedEof)
    } else if s[descriptor_pos(k)] == 0x0d {
        Ok(k)
    } else {
        match descriptor_error_at(s, descriptor_pos(k)) {
            Some(e) => Err(e),
            None => schema_outcome(s, k + 1, max),
        }
    }
}

/// Law: header decoding succeeds exactly on the closed version-byte set,
/// yields the matching tag, and fails with `UnsupportedVersion` carrying the
/// offending byte on every other first byte.
pub proof fn lemma_header_version_closed_set(s: Seq<u8>)
    requires
        s.len() >= 1,
    ensures
        (version_of_byte(s[0]) is Some) <==> (s[0] == 0x03 || s[0] == 0x83 || s[0] == 0x8b || s[0]
            == 0xf5 || s[0] == 0x30),
        version_of_byte(s[0]) is None ==> parse_header(s) == Err::<Header, Error>(
            Error::UnsupportedVersion(s[0]),
        ),
        parse_header(s) matches Ok(h) ==> Some(h.version) == version_of_byte(s[0]),
{
}

/// Law: year decoding is literal and century-blind. A decoded header's year
/// is `1900` plus the year byte, for every dialect — a year byte of 26
/// always yields 1926, never 2026.
pub proof fn lemma_year_decoding_literal(s: Seq<u8>)
    requires
        s.len() >= 4,
    ensures
        parse_header(s) matches Ok(h) ==> h.last_update.year == 1900 + s[1],
        parse_header(s) matches Ok(h) ==> h.last_update.month == s[2] && h.last_update.day == s[3],
{
}

/// Law: a decoded column name is NUL-trimmed: it comes from at most the 11
/// name bytes of its descriptor, is exactly the bytes up to the first NUL,
/// and contains no NUL itself.
pub proof fn lemma_field_name_bytes_trimmed(s: Seq<u8>, pos: int)
    requires
        0 <= pos,
        pos + 11 <= s.len(),
    ensures
        field_name_bytes(s, pos).len() <= 11,
        field_name_bytes(s, pos) == s.subrange(pos, pos + field_name_bytes(s, pos).len() as int),
        forall|i: int|
            0 <= i < field_name_bytes(s, pos).len() ==> #[trigger] field_name_bytes(s, pos)[i]
                != 0,
{
    let sub = s.subrange(pos, pos + 11);
    let d = seq![0u8];
    crate::lemma_scan_len_spec(sub, d);
    assert(field_name_bytes(s, pos) == sub.take(crate::scan_len(sub, d) as int));
    assert(field_name_bytes(s, pos) =~= s.subrange(
        pos,
        pos + field_name_bytes(s, pos).len() as int,
    ));
    assert forall|i: int|
        0 <= i < field_name_bytes(s, pos).len() implies #[trigger] field_name_bytes(s, pos)[i]
        != 0 by {
        assert(!crate::matches_at(sub, d, i));
        assert(sub.subrange(i, i + 1) =~= seq![sub[i]]);
    }
}

/// A table reader: the decoded header and column schema of one table file.
pub struct DbfReader {
    pub header: Header,
    pub fields: Vec<Field>,
}

impl DbfReader {
    /// Decodes a table file from its raw bytes: the fixed 32-byte header,
    /// then the 32-byte column descriptors until the terminator byte or the
    /// computed descriptor bound — whichever comes first. All-or-nothing: on
    /// any failure no partial result is returned.
    #[verifier::loop_isolation(false)]
    pub fn from_reader(source: &[u8]) -> (r: Result<DbfReader, Error>)
        ensures
            (match parse_header(source@) {
                Err(e) => r == Result::<DbfReader, Error>::Err(e),
                Ok(h) => (match schema_outcome(source@, 0, max_field_count(h.record_start)) {
                    Err(e) => r == Result::<DbfReader, Error>::Err(e),
                    Ok(count) => {
                        &&& r is Ok
                        &&& r->Ok_0.header == h
                        &&& r->Ok_0.fields@.len() == count
                        &&& forall|i: int|
                            0 <= i < count ==> field_matches_at(
                                source@,
                                descriptor_pos(i),
                                #[trigger] r->Ok_0.fields@[i],
                            )
                    },
                }),
            }),
    {
        let n = source.len();
        if n < 1 {
            return Err(Error::UnexpectedEof);
        }
        let version_byte = source[0];
        let version = match version_from_byte(version_byte) {
            Some(v) => v,
            None => { return Err(Error::UnsupportedVersion(version_byte)) },
        };
        if n < 4 {
            return Err(Error::UnexpectedEof);
        }
        let year: u16 = 1900 + source[1] as u16;
        let month = source[2];
        let day = source[3];
        let last_update = match Date::new(year, month, day) {
            Some(d) => d,
            None => { return Err(Error::InvalidDate(year, month, day)) },
        };
        if n < 12 {
            return Err(Error::UnexpectedEof);
        }
        let num_records = crate::num::read_le_u32(source, 4);
        let record_start = crate::num::read_le_u16(source, 8);
        let record_length = crate::num::read_le_u16(source, 10);
        let header = Header { version, last_update, num_records, record_start, record_length };
        proof {
            assert(parse_header(source@) == Ok::<Header, Error>(header));
        }
        let max = max_fields(record_start);
        let mut fields: Vec<Field> = Vec::new();
        let mut k: usize = 0;
        let mut done = false;
        while k < max && !done
            invariant
                k == fields@.len(),
                k <= max,
                schema_outcome(source@, 0, max as int) == schema_outcome(
                    source@,
                    k as int,
                    max as int,
                ),
                done ==> k < max && source@.len() > descriptor_pos(k as int) && source@[
                    descriptor_pos(k as int)
                ] == 0x0d,
                forall|i: int|
                    0 <= i < k ==> field_matches_at(
                        source@,
                        descriptor_pos(i),
                        #[trigger] fields@[i],
                    ),
            decreases max - k, (if done {
                0int
            } else {
                1int
            }),
        {
            let pos = 32 + 32 * k;
            if pos >= n {
                return Err(Error::UnexpectedEof);
            }
            let first = source[pos];
            if first == 0x0d {
                done = true;
            } else {
                match Field::from_bytes(source, pos) {
                    Ok(f) => { fields.push(f) },
                    Err(e) => { return Err(e) },
                }
                k += 1;
            }
        }
        Ok(DbfReader { header, fields })
    }

    /// Fields (columns) defined in this table, in file order. Ownership of
    /// the columns belongs to this table-level decode result.
    pub fn fields(&self) -> (r: &[Field])
        ensures
            r@ == self.fields@,
    {
        self.fields.as_slice()
    }
}

} // verus!
