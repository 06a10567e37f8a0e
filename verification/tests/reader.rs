use icu_bundle::{BundleError, Order, OrderedReader};

#[test]
fn wrap_starts_at_the_first_byte() {
    let reader = OrderedReader::wrap(vec![1, 2, 3], Order::LittleEndian);
    assert_eq!(reader.position(), 0);
    assert_eq!(reader.order(), Order::LittleEndian);
    let reader = OrderedReader::wrap(Vec::new(), Order::BigEndian);
    assert_eq!(reader.position(), 0);
    assert_eq!(reader.order(), Order::BigEndian);
}

#[test]
fn read_u16_follows_the_order() {
    let mut big = OrderedReader::wrap(vec![0x12, 0x34, 0xab, 0xcd], Order::BigEndian);
    assert_eq!(big.read_u16(), Ok(0x1234));
    assert_eq!(big.position(), 2);
    assert_eq!(big.read_u16(), Ok(0xabcd));
    assert_eq!(big.position(), 4);

    let mut little = OrderedReader::wrap(vec![0x12, 0x34, 0xab, 0xcd], Order::LittleEndian);
    assert_eq!(little.read_u16(), Ok(0x3412));
    assert_eq!(little.read_u16(), Ok(0xcdab));
    assert_eq!(little.position(), 4);
}

#[test]
fn read_u32_follows_the_order() {
    let bytes = vec![0x12, 0x34, 0x56, 0x78, 0xff, 0x00, 0x00, 0x01];
    let mut big = OrderedReader::wrap(bytes.clone(), Order::BigEndian);
    assert_eq!(big.read_u32(), Ok(0x1234_5678));
    assert_eq!(big.read_u32(), Ok(0xff00_0001));
    assert_eq!(big.position(), 8);

    let mut little = OrderedReader::wrap(bytes, Order::LittleEndian);
    assert_eq!(little.read_u32(), Ok(0x7856_3412));
    assert_eq!(little.read_u32(), Ok(0x0100_00ff));
    assert_eq!(little.position(), 8);
}

#[test]
fn read_u8_knows_no_order() {
    for order in [Order::BigEndian, Order::LittleEndian] {
        let mut reader = OrderedReader::wrap(vec![7, 9], order);
        assert_eq!(reader.read_u8(), Ok(7));
        assert_eq!(reader.read_u8(), Ok(9));
        assert_eq!(reader.position(), 2);
        assert_eq!(reader.read_u8(), Err(BundleError::UnexpectedEof));
    }
}

#[test]
fn a_short_read_fails_and_leaves_the_cursor() {
    let mut reader = OrderedReader::wrap(vec![1, 2, 3, 4, 5], Order::BigEndian);
    reader.seek(2);
    assert_eq!(reader.read_u32(), Err(BundleError::UnexpectedEof));
    assert_eq!(reader.position(), 2);
    assert_eq!(reader.read_u16(), Ok(0x0304));
    assert_eq!(reader.read_u16(), Err(BundleError::UnexpectedEof));
    assert_eq!(reader.position(), 4);
    assert_eq!(reader.read_u8(), Ok(5));
    assert_eq!(reader.read_u8(), Err(BundleError::UnexpectedEof));
    assert_eq!(reader.position(), 5);
}

#[test]
fn seek_takes_an_offset_behind_the_end() {
    let mut reader = OrderedReader::wrap(vec![1, 2], Order::LittleEndian);
    reader.seek(1000);
    assert_eq!(reader.position(), 1000);
    assert_eq!(reader.read_u8(), Err(BundleError::UnexpectedEof));
    assert_eq!(reader.read_u16(), Err(BundleError::UnexpectedEof));
    assert_eq!(reader.read_u32(), Err(BundleError::UnexpectedEof));
    assert_eq!(reader.position(), 1000);
    reader.seek(u64::MAX);
    assert_eq!(reader.read_u32(), Err(BundleError::UnexpectedEof));
    assert_eq!(reader.position(), u64::MAX);
    reader.seek(0);
    assert_eq!(reader.read_u16(), Ok(0x0201));
}

#[test]
fn reads_from_an_offset() {
    let bytes = vec![0, 1, 2, 3, 4, 5, 6, 7];
    let mut reader = OrderedReader::wrap(bytes, Order::BigEndian);
    assert_eq!(reader.read_u8_from(7), Ok(7));
    assert_eq!(reader.position(), 8);
    assert_eq!(reader.read_u16_from(3), Ok(0x0304));
    assert_eq!(reader.position(), 5);
    assert_eq!(reader.read_u32_from(4), Ok(0x0405_0607));
    assert_eq!(reader.position(), 8);
    assert_eq!(reader.read_u32_from(5), Err(BundleError::UnexpectedEof));
    assert_eq!(reader.position(), 5);
    assert_eq!(reader.read_u16_from(7), Err(BundleError::UnexpectedEof));
    assert_eq!(reader.read_u8_from(8), Err(BundleError::UnexpectedEof));
    assert_eq!(reader.position(), 8);
}

#[test]
fn the_order_holds_for_every_read() {
    let mut reader = OrderedReader::wrap(vec![1, 0, 2, 0, 0, 0], Order::LittleEndian);
    assert_eq!(reader.read_u16(), Ok(1));
    assert_eq!(reader.order(), Order::LittleEndian);
    assert_eq!(reader.read_u32(), Ok(2));
    assert_eq!(reader.order(), Order::LittleEndian);
}
