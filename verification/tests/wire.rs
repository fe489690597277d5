use helium_wallet::wire::{
    put_bytes, put_message, put_varint, read_field, read_fields, read_varint, write_varint, Field,
    Value,
};

#[test]
fn varint_of_300_is_two_bytes() {
    let mut out: Vec<u8> = Vec::new();
    write_varint(&mut out, 300);
    assert_eq!(out, vec![0xac, 0x02]);
    assert_eq!(read_varint(&out, 0), Some((300, 2)));
}

#[test]
fn varint_of_small_values_is_one_byte() {
    for v in [0u64, 1, 127] {
        let mut out: Vec<u8> = Vec::new();
        write_varint(&mut out, v);
        assert_eq!(out, vec![v as u8]);
        assert_eq!(read_varint(&out, 0), Some((v, 1)));
    }
}

#[test]
fn varint_of_largest_value_is_ten_bytes() {
    let mut out: Vec<u8> = Vec::new();
    write_varint(&mut out, u64::MAX);
    assert_eq!(
        out,
        vec![0xff, 0xff, 0xff, 0xff, 0xff, 0xff, 0xff, 0xff, 0xff, 0x01]
    );
    assert_eq!(read_varint(&out, 0), Some((u64::MAX, 10)));
}

#[test]
fn varint_round_trips_at_powers_of_two() {
    for shift in 0..64 {
        for delta in [0u64, 1] {
            let v = (1u64 << shift).wrapping_sub(delta);
            let mut out: Vec<u8> = vec![9, 9];
            write_varint(&mut out, v);
            let written = out.len() - 2;
            out.push(0x55);
            assert_eq!(read_varint(&out, 2), Some((v, written)));
        }
    }
}

#[test]
fn varint_that_ends_early_is_refused() {
    assert_eq!(read_varint(&[], 0), None);
    assert_eq!(read_varint(&[0x80], 0), None);
    assert_eq!(read_varint(&[0xff, 0xff], 0), None);
}

#[test]
fn varint_that_overflows_is_refused() {
    let too_big = [0xff, 0xff, 0xff, 0xff, 0xff, 0xff, 0xff, 0xff, 0xff, 0x02];
    assert_eq!(read_varint(&too_big, 0), None);
    let too_long = [0x80, 0x80, 0x80, 0x80, 0x80, 0x80, 0x80, 0x80, 0x80, 0x80, 0x00];
    assert_eq!(read_varint(&too_long, 0), None);
}

#[test]
fn varint_with_padding_zero_groups_is_read() {
    assert_eq!(read_varint(&[0x81, 0x00], 0), Some((1, 2)));
}

#[test]
fn zero_and_empty_fields_are_left_out() {
    let mut out: Vec<u8> = Vec::new();
    put_varint(&mut out, 3, 0);
    put_bytes(&mut out, 4, &[]);
    assert!(out.is_empty());
    put_message(&mut out, 4, &[]);
    assert_eq!(out, vec![0x22, 0x00]);
}

#[test]
fn fields_are_written_as_key_and_value() {
    let mut out: Vec<u8> = Vec::new();
    put_varint(&mut out, 2, 150);
    put_bytes(&mut out, 1, &[7, 8, 9]);
    assert_eq!(out, vec![0x10, 0x96, 0x01, 0x0a, 0x03, 7, 8, 9]);
    let fields = read_fields(&out).unwrap();
    assert_eq!(
        fields,
        vec![
            Field { number: 2, value: Value::Varint(150) },
            Field { number: 1, value: Value::Bytes(vec![7, 8, 9]) },
        ]
    );
}

#[test]
fn field_with_length_past_the_end_is_refused() {
    assert!(read_field(&[0x0a, 0x03, 1, 2], 0).is_none());
    assert!(read_fields(&[0x0a, 0x03, 1, 2]).is_none());
}

#[test]
fn field_number_zero_and_other_kinds_are_refused() {
    assert!(read_field(&[0x00, 0x01], 0).is_none());
    assert!(read_field(&[0x09, 1, 2, 3, 4, 5, 6, 7, 8], 0).is_none());
    assert!(read_field(&[0x0d, 1, 2, 3, 4], 0).is_none());
}

#[test]
fn empty_bytes_are_no_fields() {
    assert_eq!(read_fields(&[]), Some(vec![]));
}
