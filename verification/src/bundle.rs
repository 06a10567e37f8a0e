//! The index table behind the header of a resource bundle, and the reader
//! that a successful parse hands out.
//!
//! Behind the header lies one 32-bit word, the offset of the root resource,
//! and behind that the index table: 32-bit words, all in the file's byte
//! order. The low byte of the first index word is the number of words in the
//! table.

use vstd::prelude::*;

use crate::error::BundleError;
use crate::format::DataFormat;
use crate::header::{
    check_magic, order_of, read_endianness, read_header, spec_check_header, MAGIC1, MAGIC2,
};
use crate::reader::{
    holds, lemma_mirrored_reads, mirrored, u16_at, u32_at, Order, OrderedReader, ReaderView,
};
use crate::version::Version;

verus! {

/// The index word whose low byte is the length of the table, in words.
pub const RES_INDEX_LENGTH: u8 = 0;

/// The index word that holds the end of the key table, in words.
pub const RES_INDEX_KEYS_TOP: u8 = 1;

/// The index word that holds the end of the bundle, in bytes.
pub const RES_INDEX_BUNDLE_TOP: u8 = 3;

/// The index word that holds the attributes. A table must reach beyond it.
pub const RES_INDEX_ATTRIBUTES: u8 = 5;

/// The attribute bit of a bundle that no other bundle stands in for.
pub const RES_ATT_NO_FALLBACK: u32 = 1;

/// The attribute bit of a bundle that lends its keys and strings to others.
pub const RES_ATT_IS_POOL_BUNDLE: u32 = 2;

/// The attribute bit of a bundle that borrows keys and strings from a pool
/// bundle.
pub const RES_ATT_USES_POOL_BUNDLE: u32 = 4;

/// The offset of the format version's major byte in the header.
pub const FORMAT_MAJOR_OFFSET: u64 = 16;

/// What the attributes word says of a bundle, together with the two limits
/// of pool string indexes.
#[derive(Clone, Copy, Debug, PartialEq, Eq, Structural)]
pub struct BundleAttributes {
    /// No other bundle stands in for what this one lacks.
    pub no_fallback: bool,
    /// This bundle lends its keys and strings to others.
    pub is_pool_bundle: bool,
    /// This bundle borrows keys and strings from a pool bundle.
    pub uses_pool_bundle: bool,
    /// The limit of the pool string indexes.
    pub pool_string_index_limit: u32,
    /// The limit of the pool string indexes that fit in 16 bits.
    pub pool_string_index_16_limit: u32,
}

/// What the index table says of a bundle as a whole.
#[derive(Clone, Copy, Debug, PartialEq, Eq, Structural)]
pub struct IndexTable {
    /// The word behind the header: where the tree of resources starts.
    pub root_resource: u32,
    /// The highest offset that lies inside the bundle: one less than the
    /// bundle's end, so -1 for a bundle that ends at 0.
    pub max_offset: i64,
    /// The attributes word, decoded.
    pub attributes: BundleAttributes,
    /// The number of bytes that a buffer for the bundle's keys takes.
    pub key_buffer_size: u64,
}

/// The offset of the index word `n` in a file whose header takes
/// `header_size` bytes.
pub open spec fn spec_index_offset(header_size: u16, n: u8) -> int {
    header_size + 4 + 4 * n
}

/// The length of the index table, in words, as its first word `indexes_0`
/// gives it.
pub open spec fn spec_indexes_length(indexes_0: u32) -> u32 {
    indexes_0 & 0xff
}

/// What `decode_attributes` returns.
///
/// The three flags are the three lowest bits of `att`. The limit of the pool
/// string indexes is put together from the upper three bytes of `indexes_0`,
/// which count from format version 3 on, and bits 12 to 15 of `att`, which
/// become its bits 24 to 27. The 16-bit limit is the upper half of `att`.
pub open spec fn spec_decode_attributes(
    indexes_0: u32,
    file_format_major_version: u8,
    att: u32,
) -> BundleAttributes {
    BundleAttributes {
        no_fallback: att & RES_ATT_NO_FALLBACK != 0,
        is_pool_bundle: att & RES_ATT_IS_POOL_BUNDLE != 0,
        uses_pool_bundle: att & RES_ATT_USES_POOL_BUNDLE != 0,
        pool_string_index_limit: (if file_format_major_version >= 3 {
            indexes_0 >> 8
        } else {
            0u32
        }) | ((att & 0xf000) << 12),
        pool_string_index_16_limit: att >> 16,
    }
}

/// What `key_buffer_size` returns.
///
/// The keys lie between the end of the index table, at word
/// `1 + indexes_length`, and the word `keys_top`. A pool bundle keeps just
/// them; any other bundle keeps everything below `keys_top`, the words before
/// the keys included. Where the key table is empty, so is the buffer.
pub open spec fn spec_key_buffer_size(
    keys_top: u32,
    indexes_length: u32,
    is_pool_bundle: bool,
) -> int {
    let keys_bottom = 1 + indexes_length;
    if keys_top > keys_bottom {
        if is_pool_bundle {
            (keys_top - keys_bottom) * 4
        } else {
            keys_top * 4
        }
    } else {
        0
    }
}

/// What `read_index_table` returns for a reader over `bytes` in `order`, when
/// the header takes `header_size` bytes.
///
/// The root word and the first index word must be there; the table must then
/// say that it reaches beyond the attributes word; and the words up to the
/// attributes word must be there.
pub open spec fn spec_read_index_table(bytes: Seq<u8>, order: Order, header_size: u16) -> Result<
    IndexTable,
    BundleError,
> {
    let indexes_0 = u32_at(bytes, order, spec_index_offset(header_size, RES_INDEX_LENGTH));
    let bundle_top = u32_at(bytes, order, spec_index_offset(header_size, RES_INDEX_BUNDLE_TOP));
    let att = u32_at(bytes, order, spec_index_offset(header_size, RES_INDEX_ATTRIBUTES));
    let keys_top = u32_at(bytes, order, spec_index_offset(header_size, RES_INDEX_KEYS_TOP));
    let attributes = spec_decode_attributes(indexes_0, bytes[FORMAT_MAJOR_OFFSET as int], att);
    if !holds(bytes, header_size as int, 8) {
        Err(BundleError::UnexpectedEof)
    } else if spec_indexes_length(indexes_0) <= RES_INDEX_ATTRIBUTES {
        Err(BundleError::NotEnoughIndexes)
    } else if !holds(bytes, spec_index_offset(header_size, RES_INDEX_ATTRIBUTES), 4) {
        Err(BundleError::UnexpectedEof)
    } else {
        Ok(
            IndexTable {
                root_resource: u32_at(bytes, order, header_size as int),
                max_offset: (bundle_top - 1) as i64,
                attributes,
                key_buffer_size: spec_key_buffer_size(
                    keys_top,
                    spec_indexes_length(indexes_0),
                    attributes.is_pool_bundle,
                ) as u64,
            },
        )
    }
}

/// The offset of the index word `n` in a file whose header takes
/// `header_size` bytes.
pub fn index_offset(header_size: u16, n: u8) -> (r: u64)
    ensures
        r == spec_index_offset(header_size, n),
{
    header_size as u64 + 4 + 4 * (n as u64)
}

/// Decodes the attributes word `att`, with the first index word `indexes_0`
/// and the major format version of the file.
pub fn decode_attributes(indexes_0: u32, file_format_major_version: u8, att: u32) -> (r:
    BundleAttributes)
    ensures
        r == spec_decode_attributes(indexes_0, file_format_major_version, att),
{
    let mut pool_string_index_limit: u32 = 0;
    if file_format_major_version >= 3 {
        pool_string_index_limit = indexes_0 >> 8;
    }
    // bits 15..12 -> 27..24
    pool_string_index_limit = pool_string_index_limit | ((att & 0xf000) << 12);
    BundleAttributes {
        no_fallback: (att & RES_ATT_NO_FALLBACK) != 0,
        is_pool_bundle: (att & RES_ATT_IS_POOL_BUNDLE) != 0,
        uses_pool_bundle: (att & RES_ATT_USES_POOL_BUNDLE) != 0,
        pool_string_index_limit,
        pool_string_index_16_limit: att >> 16,
    }
}

/// The number of bytes that a buffer for the keys of a bundle takes, from
/// the end of its key table `keys_top` and the length of its index table
/// `indexes_length`, both in words.
pub fn key_buffer_size(keys_top: u32, indexes_length: u32, is_pool_bundle: bool) -> (r: u64)
    ensures
        r == spec_key_buffer_size(keys_top, indexes_length, is_pool_bundle),
{
    let keys_bottom: u64 = 1 + indexes_length as u64;
    let keys_top: u64 = keys_top as u64;
    if keys_top > keys_bottom {
        if is_pool_bundle {
            (keys_top - keys_bottom) * 4
        } else {
            keys_top * 4
        }
    } else {
        0
    }
}

/// Reads the root word and the index table behind a header of `header_size`
/// bytes. On success the cursor stands behind the index word that holds the
/// end of the key table, which is read last.
pub fn read_index_table(reader: &mut OrderedReader, header_size: u16) -> (r: Result<
    IndexTable,
    BundleError,
>)
    ensures
        final(reader)@.bytes == old(reader)@.bytes,
        final(reader)@.order == old(reader)@.order,
        r == spec_read_index_table(old(reader)@.bytes, old(reader)@.order, header_size),
        r is Ok ==> final(reader)@.position == spec_index_offset(header_size, RES_INDEX_KEYS_TOP)
            + 4,
{
    let root_resource = reader.read_u32_from(header_size as u64)?;
    let indexes_0 = reader.read_u32()?;
    let indexes_length = indexes_0 & 0xff;
    if indexes_length <= RES_INDEX_ATTRIBUTES as u32 {
        return Err(BundleError::NotEnoughIndexes);
    }
    let bundle_top = reader.read_u32_from(index_offset(header_size, RES_INDEX_BUNDLE_TOP))?;
    let max_offset = bundle_top as i64 - 1;

    let file_format_major_version = reader.read_u8_from(FORMAT_MAJOR_OFFSET)?;
    let att = reader.read_u32_from(index_offset(header_size, RES_INDEX_ATTRIBUTES))?;
    let attributes = decode_attributes(indexes_0, file_format_major_version, att);

    let keys_top = reader.read_u32_from(index_offset(header_size, RES_INDEX_KEYS_TOP))?;
    let key_buffer_size = key_buffer_size(keys_top, indexes_length, attributes.is_pool_bundle);

    Ok(IndexTable { root_resource, max_offset, attributes, key_buffer_size })
}

/// What a bundle reader is, as far as contracts are concerned.
pub struct BundleView {
    /// The cursor over the file.
    pub reader: ReaderView,
    /// The release that the data version of the header resolves to.
    pub data_version: Version,
    /// What the index table says.
    pub index: IndexTable,
}

/// What `ResourceBundleReader::try_init` returns for `bytes`, when the caller
/// expects `format`: the error of the header if it has one, else the error
/// of the index table if it has one, else the reader, with its cursor where
/// the index table was read last.
pub open spec fn spec_try_init(bytes: Seq<u8>, format: DataFormat) -> Result<
    BundleView,
    BundleError,
> {
    match spec_check_header(bytes, format) {
        Err(e) => Err(e),
        Ok(header) => match spec_read_index_table(bytes, header.order, header.header_size) {
            Err(e) => Err(e),
            Ok(index) => Ok(
                BundleView {
                    reader: ReaderView {
                        bytes,
                        position: (spec_index_offset(header.header_size, RES_INDEX_KEYS_TOP)
                            + 4) as nat,
                        order: header.order,
                    },
                    data_version: Version::resolve(header.data_version),
                    index,
                },
            ),
        },
    }
}

/// A resource bundle whose header and index table were found in order.
///
/// It owns the cursor over the file, in the file's byte order, and keeps
/// what the header and the index table say of the bundle.
#[derive(Clone, Debug)]
pub struct ResourceBundleReader {
    reader: OrderedReader,
    data_version: Version,
    index: IndexTable,
}

impl View for ResourceBundleReader {
    type V = BundleView;

    closed spec fn view(&self) -> BundleView {
        BundleView { reader: self.reader@, data_version: self.data_version, index: self.index }
    }
}

impl ResourceBundleReader {
    /// Parses the header and the index table of the data file `bytes`, which
    /// the caller expects to be of the sub-format `data_format`.
    pub fn try_init(bytes: Vec<u8>, data_format: DataFormat) -> (r: Result<
        ResourceBundleReader,
        BundleError,
    >)
        ensures
            match r {
                Ok(bundle) => spec_try_init(bytes@, data_format) == Ok::<BundleView, BundleError>(
                    bundle@,
                ),
                Err(e) => spec_try_init(bytes@, data_format) == Err::<BundleView, BundleError>(e),
            },
    {
        check_magic(bytes.as_slice())?;
        let order = order_of(read_endianness(bytes.as_slice())?);
        let mut reader = OrderedReader::wrap(bytes, order);
        let (header_size, data_version) = read_header(&mut reader, data_format)?;
        let index = read_index_table(&mut reader, header_size)?;

        Ok(ResourceBundleReader { reader, data_version: Version::try_from(data_version)?, index })
    }

    /// The release that the data version of the header resolves to.
    pub fn version(&self) -> (r: Version)
        ensures
            r == self@.data_version,
    {
        self.data_version
    }

    /// The offset at which the tree of resources starts.
    pub fn root_resource(&self) -> (r: u32)
        ensures
            r == self@.index.root_resource,
    {
        self.index.root_resource
    }

    /// What the index table says of the bundle.
    pub fn index(&self) -> (r: IndexTable)
        ensures
            r == self@.index,
    {
        self.index
    }

    /// Gives up the bundle for its cursor, which stands where the index
    /// table was read last: whoever decodes the resources seeks from there.
    pub fn into_reader(self) -> (r: OrderedReader)
        ensures
            r@ == self@.reader,
    {
        self.reader
    }
}

/// A file whose magic bytes are wrong is refused as no data file, whatever
/// bytes follow them and whatever sub-format the caller expects.
pub proof fn lemma_wrong_magic_is_no_data_file(bytes: Seq<u8>, format: DataFormat)
    requires
        holds(bytes, 2, 2),
        bytes[2] != MAGIC1 || bytes[3] != MAGIC2,
    ensures
        spec_try_init(bytes, format) == Err::<BundleView, BundleError>(BundleError::NotDataFile),
{
}

/// An index table whose first word is there and gives a length of five words
/// or less is refused as too short, whatever the other bytes are: by
/// `read_index_table` for every header size and byte order, and by `try_init`
/// for every file whose header is in order.
pub proof fn lemma_short_index_table_is_refused(
    bytes: Seq<u8>,
    order: Order,
    header_size: u16,
    format: DataFormat,
)
    requires
        holds(bytes, header_size as int, 8),
        spec_indexes_length(
            u32_at(bytes, order, spec_index_offset(header_size, RES_INDEX_LENGTH)),
        ) <= 5,
    ensures
        spec_read_index_table(bytes, order, header_size) == Err::<IndexTable, BundleError>(
            BundleError::NotEnoughIndexes,
        ),
        (spec_check_header(bytes, format) matches Ok(header) && header.order == order
            && header.header_size == header_size) ==> spec_try_init(bytes, format) == Err::<
            BundleView,
            BundleError,
        >(BundleError::NotEnoughIndexes),
{
}

/// A file that parses was read in the byte order that its byte at offset 8
/// names, 0 for low byte first and 1 for high byte first: the header size,
/// the root word and every index word that counts were taken in that order.
pub proof fn lemma_declared_order_decides(bytes: Seq<u8>, format: DataFormat)
    requires
        spec_try_init(bytes, format) is Ok,
    ensures
        ({
            let bundle = spec_try_init(bytes, format)->Ok_0;
            let order = bundle.reader.order;
            let header_size = u16_at(bytes, order, 0);
            let indexes_0 = u32_at(bytes, order, spec_index_offset(header_size, RES_INDEX_LENGTH));
            &&& bytes[8] == 0 ==> order == Order::LittleEndian
            &&& bytes[8] == 1 ==> order == Order::BigEndian
            &&& bytes[8] == 0 || bytes[8] == 1
            &&& bundle.index.root_resource == u32_at(bytes, order, header_size as int)
            &&& bundle.index.max_offset == u32_at(
                bytes,
                order,
                spec_index_offset(header_size, RES_INDEX_BUNDLE_TOP),
            ) - 1
            &&& bundle.index.attributes == spec_decode_attributes(
                indexes_0,
                bytes[FORMAT_MAJOR_OFFSET as int],
                u32_at(bytes, order, spec_index_offset(header_size, RES_INDEX_ATTRIBUTES)),
            )
            &&& bundle.index.key_buffer_size == spec_key_buffer_size(
                u32_at(bytes, order, spec_index_offset(header_size, RES_INDEX_KEYS_TOP)),
                spec_indexes_length(indexes_0),
                bundle.index.attributes.is_pool_bundle,
            )
        }),
{
}

/// Whether `big` and `little` spell the same file, `big` high byte first and
/// `little` low byte first: both have a whole header; their bytes at offset 8
/// name their orders; their single bytes are the same; and their two sizes,
/// their root words and their index words up to the attributes word, as far
/// as the file reaches, are each other's reverse.
pub open spec fn same_file_in_both_orders(big: Seq<u8>, little: Seq<u8>) -> bool {
    let header_size = u16_at(big, Order::BigEndian, 0);
    &&& big.len() == little.len()
    &&& holds(big, 0, 24)
    &&& big[8] == 1 && little[8] == 0
    &&& big.subrange(2, 4) == little.subrange(2, 4)
    &&& big.subrange(9, 11) == little.subrange(9, 11)
    &&& big.subrange(12, 24) == little.subrange(12, 24)
    &&& mirrored(big, little, 0, 2)
    &&& mirrored(big, little, 4, 2)
    &&& holds(big, header_size as int, 4) ==> mirrored(big, little, header_size as int, 4)
    &&& forall|n: u8|
        n <= RES_INDEX_ATTRIBUTES && holds(big, #[trigger] spec_index_offset(header_size, n), 4)
            ==> mirrored(big, little, spec_index_offset(header_size, n), 4)
}

/// The byte order of a file does not show in what is read from it: the same
/// file written in the two orders is refused with the same error in both, or
/// parses in both to the same version and the same index table, with the
/// cursor at the same offset.
pub proof fn lemma_byte_order_does_not_show(big: Seq<u8>, little: Seq<u8>, format: DataFormat)
    requires
        same_file_in_both_orders(big, little),
    ensures
        match spec_try_init(big, format) {
            Ok(b) => spec_try_init(little, format) matches Ok(l) && l.data_version
                == b.data_version && l.index == b.index && l.reader.position == b.reader.position
                && b.reader.order == Order::BigEndian && l.reader.order == Order::LittleEndian,
            Err(e) => spec_try_init(little, format) == Err::<BundleView, BundleError>(e),
        },
{
    let header_size = u16_at(big, Order::BigEndian, 0);
    lemma_mirrored_reads(big, little, 0);
    lemma_mirrored_reads(big, little, 4);
    assert(big[2] == little[2] && big[3] == little[3]) by {
        assert(big.subrange(2, 4)[0] == little.subrange(2, 4)[0]);
        assert(big.subrange(2, 4)[1] == little.subrange(2, 4)[1]);
    }
    assert(big[9] == little[9] && big[10] == little[10]) by {
        assert(big.subrange(9, 11)[0] == little.subrange(9, 11)[0]);
        assert(big.subrange(9, 11)[1] == little.subrange(9, 11)[1]);
    }
    assert forall|i: int| 12 <= i < 24 implies big[i] == little[i] by {
        assert(big.subrange(12, 24)[i - 12] == little.subrange(12, 24)[i - 12]);
    }
    assert(big.subrange(12, 16) =~= little.subrange(12, 16));
    assert(big.subrange(16, 20) =~= little.subrange(16, 20));
    lemma_mirrored_reads(big, little, header_size as int);
    lemma_mirrored_reads(big, little, spec_index_offset(header_size, RES_INDEX_LENGTH));
    lemma_mirrored_reads(big, little, spec_index_offset(header_size, RES_INDEX_KEYS_TOP));
    lemma_mirrored_reads(big, little, spec_index_offset(header_size, RES_INDEX_BUNDLE_TOP));
    lemma_mirrored_reads(big, little, spec_index_offset(header_size, RES_INDEX_ATTRIBUTES));
}

} // verus!
