use vstd::prelude::*;

verus! {

/// Failure vocabulary shared by the table and memo decoders.
///
/// Every decode step is all-or-nothing: when one of these errors is returned,
/// no partially populated structure is handed back.
#[derive(Clone, Copy, Debug, PartialEq, Eq, Structural)]
pub enum Error {
    /// The table header's version byte is outside the supported closed set.
    /// Carries the offending byte.
    UnsupportedVersion(u8),
    /// The header's date bytes do not form a real calendar date. Carries the
    /// decoded year (1900 plus the year byte), the month byte and the day
    /// byte.
    InvalidDate(u16, u8, u8),
    /// A column descriptor's type tag is not one of the known tags. Carries
    /// the offending byte.
    UnsupportedFieldType(u8),
    /// A dBase IV/5 memo record's total-length field is smaller than the
    /// 8 bytes of record header it must cover.
    LengthUnderflow,
    /// The byte source ended before the structure being decoded was
    /// complete.
    UnexpectedEof,
    /// A memo payload was projected as text but is not valid UTF-8.
    Encoding,
}

} // verus!
