use pkhex_rs::error::DecodeError;
use pkhex_rs::utils::{offset_mut, offset_ref, range_mut, SliceUtils};

#[test]
fn utils_exploration() {
    let mut bytes = vec![0u8, 0u8, 0u8, 0u8];

    let slice = bytes.get_mutable_offset(1, 2).unwrap();

    let data = u16::to_le_bytes(0x2);
    slice.write_into(&data, 0).unwrap();

    assert_eq!(bytes, [0u8, 2u8, 0u8, 0u8]);
    assert_eq!(u16::to_ne_bytes(0x2), u16::to_le_bytes(0x2));
    assert_ne!(u16::to_be_bytes(0x2), u16::to_le_bytes(0x2));
}

#[test]
fn get_offset_lends_the_requested_bytes() {
    let bytes = [0x2Au8, 0, 0, 0];
    assert_eq!(bytes.get_offset(0x0, 1).unwrap(), &[42u8]);
    assert_eq!(bytes.get_offset(1, 3).unwrap(), &[0u8, 0, 0]);
    assert_eq!(bytes.get_offset(4, 0).unwrap(), &[] as &[u8]);
    let v = vec![1u8, 2, 3, 4, 5];
    assert_eq!(v.get_offset(2, 2).unwrap(), &[3u8, 4]);
    assert_eq!(v[..].get_offset(3, 2).unwrap(), &[4u8, 5]);
}

#[test]
fn get_offset_past_the_end_is_a_bounds_error() {
    let bytes = [1u8, 2, 3, 4];
    assert_eq!(bytes.get_offset(2, 3), Err(DecodeError::Bounds));
    assert_eq!(bytes.get_offset(5, 0), Err(DecodeError::Bounds));
    assert_eq!(bytes.get_offset(usize::MAX, 2), Err(DecodeError::Bounds));
    assert_eq!(bytes.get_offset(1, usize::MAX), Err(DecodeError::Bounds));
    assert_eq!(offset_ref(&bytes, 4, 1), Err(DecodeError::Bounds));
}

#[test]
fn little_endian_reads_at_an_offset() {
    let bytes = [0x2Au8, 0, 0, 0];
    assert_eq!(bytes.get_u16_le_offset(0x0), Ok(42));
    assert_eq!(bytes.get_u32_le_offset(0x0), Ok(42));
    let v = vec![0xFFu8, 0x34, 0x12, 0x78, 0x56];
    assert_eq!(v.get_u16_le_offset(1), Ok(0x1234));
    assert_eq!(v.get_u32_le_offset(1), Ok(0x5678_1234));
    assert_eq!(v.get_u16_le_offset(3), Ok(0x5678));
    assert_eq!(v.get_u16_le_offset(4), Err(DecodeError::Bounds));
    assert_eq!(v.get_u32_le_offset(2), Err(DecodeError::Bounds));
    assert_eq!(v.get_u32_le_offset(usize::MAX), Err(DecodeError::Bounds));
}

#[test]
fn little_endian_reads_at_the_front() {
    let bytes = [0x01u8, 0x02, 0x03, 0x04, 0x05];
    assert_eq!(bytes.get_u16_le(), Ok(0x0201));
    assert_eq!(bytes.get_u32_le(), Ok(0x0403_0201));
    let short = [0x01u8];
    assert_eq!(short.get_u16_le(), Err(DecodeError::Bounds));
    let three = vec![1u8, 2, 3];
    assert_eq!(three.get_u16_le(), Ok(0x0201));
    assert_eq!(three.get_u32_le(), Err(DecodeError::Bounds));
    let empty: [u8; 0] = [];
    assert_eq!(empty.get_u16_le(), Err(DecodeError::Bounds));
}

#[test]
fn write_into_writes_at_the_offset() {
    let mut bytes = vec![0u8; 6];
    bytes.write_into(&[9, 8, 7], 2).unwrap();
    assert_eq!(bytes, [0u8, 0, 9, 8, 7, 0]);
    bytes.write_into(&[1], 5).unwrap();
    assert_eq!(bytes, [0u8, 0, 9, 8, 7, 1]);
    bytes.write_into(&[], 6).unwrap();
    assert_eq!(bytes, [0u8, 0, 9, 8, 7, 1]);
    let mut array = [5u8; 3];
    array.write_into(&[1, 2, 3], 0).unwrap();
    assert_eq!(array, [1u8, 2, 3]);
}

#[test]
fn write_into_past_the_end_changes_nothing() {
    let mut bytes = vec![1u8, 2, 3, 4];
    assert_eq!(bytes.write_into(&[9, 9], 3), Err(DecodeError::Bounds));
    assert_eq!(bytes, [1u8, 2, 3, 4]);
    assert_eq!(bytes.write_into(&[9], usize::MAX), Err(DecodeError::Bounds));
    assert_eq!(bytes, [1u8, 2, 3, 4]);
    assert_eq!(bytes.write_into(&[9, 9, 9, 9, 9], 0), Err(DecodeError::Bounds));
    assert_eq!(bytes, [1u8, 2, 3, 4]);
}

#[test]
fn mutable_slice_takes_both_ends() {
    let mut bytes = vec![0u8, 1, 2, 3, 4];
    {
        let part = bytes.get_mutable_slice(1, 3).unwrap();
        assert_eq!(part, &[1u8, 2, 3]);
        part[0] = 10;
        part[2] = 30;
    }
    assert_eq!(bytes, [0u8, 10, 2, 30, 4]);
    assert_eq!(bytes.get_mutable_slice(4, 4).unwrap(), &[4u8]);
    assert_eq!(bytes.get_mutable_slice(2, 1).unwrap(), &[] as &[u8]);
}

#[test]
fn mutable_slice_out_of_range_is_a_bounds_error() {
    let mut bytes = vec![0u8, 1, 2, 3, 4];
    assert!(matches!(bytes.get_mutable_slice(1, 5), Err(DecodeError::Bounds)));
    assert!(matches!(bytes.get_mutable_slice(3, 1), Err(DecodeError::Bounds)));
    assert!(matches!(bytes.get_mutable_slice(0, usize::MAX), Err(DecodeError::Bounds)));
    assert!(matches!(range_mut(&mut bytes, 6, 4), Err(DecodeError::Bounds)));
    assert_eq!(bytes, [0u8, 1, 2, 3, 4]);
}

#[test]
fn mutable_offset_writes_through() {
    let mut bytes = [7u8; 6];
    {
        let part = bytes.get_mutable_offset(2, 3).unwrap();
        assert_eq!(part.len(), 3);
        part.write_into(&[1, 2, 3], 0).unwrap();
    }
    assert_eq!(bytes, [7u8, 7, 1, 2, 3, 7]);
    assert!(matches!(bytes.get_mutable_offset(4, 3), Err(DecodeError::Bounds)));
    assert!(matches!(offset_mut(&mut bytes, usize::MAX, 1), Err(DecodeError::Bounds)));
    assert_eq!(bytes.get_mutable_offset(6, 0).unwrap(), &[] as &[u8]);
    assert_eq!(bytes, [7u8, 7, 1, 2, 3, 7]);
}
