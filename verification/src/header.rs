//! The checks on the fixed header of a data file.
//!
//! | offset | size | field                                           |
//! |-------:|-----:|-------------------------------------------------|
//! |      0 |    2 | header size, in the file's byte order           |
//! |      2 |    2 | magic bytes                                     |
//! |      4 |    2 | size of the data info, in the file's byte order |
//! |      8 |    1 | byte order: 0 little-endian, 1 big-endian       |
//! |      9 |    1 | character set family                            |
//! |     10 |    1 | size of a character, in bytes                   |
//! |     12 |    4 | tag of the sub-format                           |
//! |     16 |    4 | format version                                  |
//! |     20 |    4 | data version                                    |
//!
//! The checks run in a fixed order and the first that fails decides the
//! error. A field that lies behind the end of the data fails the check that
//! reads it with `UnexpectedEof`.

use vstd::prelude::*;

use crate::error::BundleError;
use crate::format::DataFormat;
use crate::reader::{holds, u16_at, Order, OrderedReader};
use crate::version::PiecewiseVersion;

verus! {

/// The first magic byte, at offset 2.
pub const MAGIC1: u8 = 0xda;

/// The second magic byte, at offset 3.
pub const MAGIC2: u8 = 0x27;

/// The only character set family that is read: ASCII.
pub const CHARSET_FAMILY: u8 = 0;

/// The only character size that is read: two bytes.
pub const CHAR_SIZE: u8 = 2;

/// The least size of the data info.
pub const MIN_DATA_INFO_SIZE: u16 = 20;

/// What `check_magic` returns for `bytes`.
pub open spec fn spec_check_magic(bytes: Seq<u8>) -> Result<(), BundleError> {
    if !holds(bytes, 2, 2) {
        Err(BundleError::UnexpectedEof)
    } else if bytes[2] != MAGIC1 || bytes[3] != MAGIC2 {
        Err(BundleError::NotDataFile)
    } else {
        Ok(())
    }
}

/// What `read_endianness` returns for `bytes`.
pub open spec fn spec_read_endianness(bytes: Seq<u8>) -> Result<u8, BundleError> {
    if !holds(bytes, 8, 3) {
        Err(BundleError::UnexpectedEof)
    } else if bytes[8] > 1 || bytes[9] != CHARSET_FAMILY || bytes[10] != CHAR_SIZE {
        Err(BundleError::HeaderCheckFailed)
    } else {
        Ok(bytes[8])
    }
}

/// The byte order that the byte at offset 8 stands for.
pub open spec fn spec_order_of(flag: u8) -> Order {
    if flag == 1 {
        Order::BigEndian
    } else {
        Order::LittleEndian
    }
}

/// Whether the two sizes of a header fit each other: the data info has its
/// least size, and the header has room for it and the four bytes before it.
pub open spec fn sizes_agree(header_size: u16, data_info_size: u16) -> bool {
    data_info_size >= MIN_DATA_INFO_SIZE && header_size >= data_info_size + 4
}

/// What `read_header_size` returns for a reader over `bytes` in `order`.
pub open spec fn spec_read_header_size(bytes: Seq<u8>, order: Order) -> Result<u16, BundleError> {
    if !holds(bytes, 0, 2) || !holds(bytes, 4, 2) {
        Err(BundleError::UnexpectedEof)
    } else if !sizes_agree(u16_at(bytes, order, 0), u16_at(bytes, order, 4)) {
        Err(BundleError::HeaderCheckFailed)
    } else {
        Ok(u16_at(bytes, order, 0))
    }
}

/// What `validate_format_version` returns for a reader over `bytes`, when the
/// caller expects `format`.
pub open spec fn spec_validate_format_version(bytes: Seq<u8>, format: DataFormat) -> Result<
    (),
    BundleError,
> {
    if !holds(bytes, 12, 4) {
        Err(BundleError::UnexpectedEof)
    } else if bytes.subrange(12, 16) != format.spec_tag_bytes() {
        Err(BundleError::HeaderCheckFailed)
    } else if !holds(bytes, 16, 4) {
        Err(BundleError::UnexpectedEof)
    } else if !format.accepts(bytes.subrange(16, 20)) {
        Err(BundleError::HeaderCheckFailed)
    } else {
        Ok(())
    }
}

/// What `read_data_version` returns for a reader over `bytes`.
pub open spec fn spec_read_data_version(bytes: Seq<u8>) -> Result<PiecewiseVersion, BundleError> {
    if !holds(bytes, 20, 4) {
        Err(BundleError::UnexpectedEof)
    } else {
        Ok((bytes[20], bytes[21], bytes[22], bytes[23]))
    }
}

/// What `read_header` returns for a reader over `bytes` in `order`, when the
/// caller expects `format`: the header size and the data version, or the
/// error of the first check that fails.
pub open spec fn spec_read_header(bytes: Seq<u8>, order: Order, format: DataFormat) -> Result<
    (u16, PiecewiseVersion),
    BundleError,
> {
    match spec_read_header_size(bytes, order) {
        Err(e) => Err(e),
        Ok(header_size) => match spec_validate_format_version(bytes, format) {
            Err(e) => Err(e),
            Ok(_) => match spec_read_data_version(bytes) {
                Err(e) => Err(e),
                Ok(data_version) => Ok((header_size, data_version)),
            },
        },
    }
}

/// What the header of a file says, once every check on it has passed.
pub struct Header {
    /// The byte order of the file.
    pub order: Order,
    /// The size of the header, which is the offset of the first byte behind it.
    pub header_size: u16,
    /// The data version.
    pub data_version: PiecewiseVersion,
}

/// The outcome of all checks on the header of `bytes`, when the caller
/// expects `format`: the magic bytes first, then the byte order with the
/// character set, then what `read_header` checks, in the byte order found.
pub open spec fn spec_check_header(bytes: Seq<u8>, format: DataFormat) -> Result<
    Header,
    BundleError,
> {
    match spec_check_magic(bytes) {
        Err(e) => Err(e),
        Ok(_) => match spec_read_endianness(bytes) {
            Err(e) => Err(e),
            Ok(flag) => match spec_read_header(bytes, spec_order_of(flag), format) {
                Err(e) => Err(e),
                Ok(header) => Ok(
                    Header {
                        order: spec_order_of(flag),
                        header_size: header.0,
                        data_version: header.1,
                    },
                ),
            },
        },
    }
}

/// Checks the two magic bytes at offsets 2 and 3.
pub fn check_magic(bytes: &[u8]) -> (r: Result<(), BundleError>)
    ensures
        r == spec_check_magic(bytes@),
{
    if bytes.len() < 4 {
        return Err(BundleError::UnexpectedEof);
    }
    let magic1 = bytes[2];
    let magic2 = bytes[3];
    if magic1 != MAGIC1 || magic2 != MAGIC2 {
        Err(BundleError::NotDataFile)
    } else {
        Ok(())
    }
}

/// Reads the byte-order flag at offset 8 and checks it together with the
/// character set family and the character size behind it. The flag is 1 for
/// big-endian and 0 for little-endian.
pub fn read_endianness(bytes: &[u8]) -> (r: Result<u8, BundleError>)
    ensures
        r == spec_read_endianness(bytes@),
{
    if bytes.len() < 11 {
        return Err(BundleError::UnexpectedEof);
    }
    let big_endian = bytes[8];
    let charset_family = bytes[9];
    let char_size = bytes[10];
    if big_endian > 1 || charset_family != CHARSET_FAMILY || char_size != CHAR_SIZE {
        Err(BundleError::HeaderCheckFailed)
    } else {
        Ok(big_endian)
    }
}

/// The byte order that the flag at offset 8 stands for.
pub fn order_of(flag: u8) -> (r: Order)
    ensures
        r == spec_order_of(flag),
{
    if flag == 1 {
        Order::BigEndian
    } else {
        Order::LittleEndian
    }
}

/// Reads the header size at offset 0 and the size of the data info at offset
/// 4, and checks the one against the other. On success the cursor stands
/// behind the second size.
pub fn read_header_size(reader: &mut OrderedReader) -> (r: Result<u16, BundleError>)
    ensures
        final(reader)@.bytes == old(reader)@.bytes,
        final(reader)@.order == old(reader)@.order,
        r == spec_read_header_size(old(reader)@.bytes, old(reader)@.order),
        r is Ok ==> final(reader)@.position == 6,
{
    let header_size = reader.read_u16_from(0)?;
    let data_info_size = reader.read_u16_from(4)?;
    if data_info_size < MIN_DATA_INFO_SIZE || (header_size as u32) < data_info_size as u32 + 4 {
        return Err(BundleError::HeaderCheckFailed);
    }
    Ok(header_size)
}

/// Checks that the header declares the sub-format `data_format`, at offset 12,
/// in a format version that this sub-format can be read in, at offset 16. On
/// success the cursor stands behind the format version.
pub fn validate_format_version(reader: &mut OrderedReader, data_format: DataFormat) -> (r: Result<
    (),
    BundleError,
>)
    ensures
        final(reader)@.bytes == old(reader)@.bytes,
        final(reader)@.order == old(reader)@.order,
        r == spec_validate_format_version(old(reader)@.bytes, data_format),
        r is Ok ==> final(reader)@.position == 20,
{
    let ghost bytes = reader@.bytes;
    reader.seek(12);
    let df = [reader.read_u8()?, reader.read_u8()?, reader.read_u8()?, reader.read_u8()?];
    let tag = data_format.tag_bytes();
    if df[0] != tag[0] || df[1] != tag[1] || df[2] != tag[2] || df[3] != tag[3] {
        return Err(BundleError::HeaderCheckFailed);
    }
    assert(bytes.subrange(12, 16) =~= data_format.spec_tag_bytes());
    // the format version follows the tag
    let format_version = [
        reader.read_u8()?,
        reader.read_u8()?,
        reader.read_u8()?,
        reader.read_u8()?,
    ];
    if !data_format.is_acceptable_version(format_version) {
        return Err(BundleError::HeaderCheckFailed);
    }
    Ok(())
}

/// Reads the four bytes of the data version at offset 20. On success the
/// cursor stands behind them.
pub fn read_data_version(reader: &mut OrderedReader) -> (r: Result<PiecewiseVersion, BundleError>)
    ensures
        final(reader)@.bytes == old(reader)@.bytes,
        final(reader)@.order == old(reader)@.order,
        r == spec_read_data_version(old(reader)@.bytes),
        r is Ok ==> final(reader)@.position == 24,
{
    reader.seek(20);
    let data_version = (
        reader.read_u8()?,
        reader.read_u8()?,
        reader.read_u8()?,
        reader.read_u8()?,
    );
    Ok(data_version)
}

/// Checks the header from its sizes to its format version and reads the data
/// version. On success it returns the header size and the data version, and
/// the cursor stands at the end of the header.
pub fn read_header(reader: &mut OrderedReader, data_format: DataFormat) -> (r: Result<
    (u16, PiecewiseVersion),
    BundleError,
>)
    ensures
        final(reader)@.bytes == old(reader)@.bytes,
        final(reader)@.order == old(reader)@.order,
        r == spec_read_header(old(reader)@.bytes, old(reader)@.order, data_format),
        r matches Ok(header) ==> final(reader)@.position == header.0,
{
    let header_size = read_header_size(reader)?;
    validate_format_version(reader, data_format)?;

    let data_version = read_data_version(reader)?;
    reader.seek(header_size as u64);
    Ok((header_size, data_version))
}

} // verus!
