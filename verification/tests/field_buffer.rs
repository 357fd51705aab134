//! Tests for the field read adapter over a real bit buffer.

use std::cell::Cell;
use std::rc::Rc;

use packet_fields::bits::Bit;
use packet_fields::error::BufferError;
use packet_fields::error::ErrorCause;
use packet_fields::error::PacketParseError;
use packet_fields::error::ValidationError;
use packet_fields::field_buffer::FieldBuffer;

fn expect_buffer_leaf(e: PacketParseError, name: &str, cause: BufferError) {
    match e {
        PacketParseError::Field { field_name, error } => {
            assert_eq!(field_name, name);
            match error {
                ErrorCause::Buffer(be) => assert_eq!(be, cause),
                _ => panic!("expected a buffer cause"),
            }
        }
        _ => panic!("expected a leaf failure"),
    }
}

#[test]
fn test_scenario_two_bit_then_bool_then_five_bits_then_byte() {
    let mut buf = FieldBuffer::from_bytes(vec![0b10_000000, 0b11111111]);
    let version = buf
        .read_bits_as_u8_field_and_validate(2, "version", |v| {
            if v == 2 {
                Ok(())
            } else {
                Err(ValidationError("wrong version".to_owned()))
            }
        })
        .unwrap();
    assert_eq!(version, 2);
    assert_eq!(buf.read_bool_field("has_padding").unwrap(), false);
    assert_eq!(buf.read_bits_as_u8_field(5, "csrc_count").unwrap(), 0);
    assert_eq!(buf.read_u8_field("payload_type").unwrap(), 255);
    assert_eq!(buf.bits_left(), 0);
}

#[test]
fn test_empty_buffer_read_fails_with_exhaustion_leaf() {
    let mut buf = FieldBuffer::from_bytes(vec![]);
    let e = buf.read_u8_field("version").unwrap_err();
    expect_buffer_leaf(
        e,
        "version",
        BufferError::NotEnoughData {
            requested: 8,
            bits_left: 0,
        },
    );

    let e = buf.read_bit_field("flag").unwrap_err();
    expect_buffer_leaf(
        e,
        "flag",
        BufferError::NotEnoughData {
            requested: 1,
            bits_left: 0,
        },
    );

    let e = buf.read_bytes_field(3, "payload").unwrap_err();
    expect_buffer_leaf(
        e,
        "payload",
        BufferError::NotEnoughData {
            requested: 24,
            bits_left: 0,
        },
    );
}

#[test]
fn test_validator_never_runs_when_the_read_fails() {
    let calls = Rc::new(Cell::new(0u32));
    let seen = calls.clone();
    let mut buf = FieldBuffer::from_bytes(vec![]);
    let e = buf
        .read_u8_field_and_validate("version", move |_| {
            seen.set(seen.get() + 1);
            Ok(())
        })
        .unwrap_err();
    expect_buffer_leaf(
        e,
        "version",
        BufferError::NotEnoughData {
            requested: 8,
            bits_left: 0,
        },
    );
    assert_eq!(calls.get(), 0);
}

#[test]
fn test_validator_runs_once_after_a_successful_read() {
    let calls = Rc::new(Cell::new(0u32));
    let seen = calls.clone();
    let mut buf = FieldBuffer::from_bytes(vec![0xAB]);
    let v = buf
        .read_u8_field_and_validate("version", move |_| {
            seen.set(seen.get() + 1);
            Ok(())
        })
        .unwrap();
    assert_eq!(v, 0xAB);
    assert_eq!(calls.get(), 1);
}

#[test]
fn test_read_bit_field() {
    let mut buf = FieldBuffer::from_bytes(vec![0b01_000000]);
    assert_eq!(buf.read_bit_field("first").unwrap(), Bit::Zero);
    assert_eq!(buf.read_bit_field("second").unwrap(), Bit::One);
}

#[test]
fn test_read_u16_u24_u32_fields() {
    let mut buf = FieldBuffer::from_bytes(vec![0x12, 0x34, 0x56, 0x78, 0x9A, 0xBC, 0xDE, 0xF0, 0x11]);
    assert_eq!(buf.read_u16_field("a").unwrap(), 0x1234);
    assert_eq!(buf.read_u24_field("b").unwrap(), 0x56789A);
    assert_eq!(buf.read_u32_field("c").unwrap(), 0xBCDEF011);
}

#[test]
fn test_read_unaligned_u16_field() {
    // Skip four bits first: the sixteen-bit read then straddles bytes.
    let mut buf = FieldBuffer::from_bytes(vec![0xAB, 0xCD, 0xEF]);
    assert_eq!(buf.read_bits_as_u8_field(4, "nibble").unwrap(), 0xA);
    assert_eq!(buf.read_u16_field("mid").unwrap(), 0xBCDE);
}

#[test]
fn test_read_bytes_field() {
    let mut buf = FieldBuffer::from_bytes(vec![0x01, 0x02, 0x03, 0x04]);
    assert_eq!(buf.read_bytes_field(3, "payload").unwrap(), vec![0x01, 0x02, 0x03]);
    assert_eq!(buf.bits_left(), 8);
}

#[test]
fn test_read_bytes_field_unaligned() {
    let mut buf = FieldBuffer::from_bytes(vec![0xAB, 0xCD, 0xEF]);
    assert_eq!(buf.read_bits_as_u8_field(4, "nibble").unwrap(), 0xA);
    assert_eq!(buf.read_bytes_field(2, "payload").unwrap(), vec![0xBC, 0xDE]);
}

#[test]
fn test_too_many_bits_for_u8() {
    let mut buf = FieldBuffer::from_bytes(vec![0xFF, 0xFF]);
    let e = buf.read_bits_as_u8_field(9, "wide").unwrap_err();
    expect_buffer_leaf(
        e,
        "wide",
        BufferError::TooManyBits {
            requested: 9,
            max: 8,
        },
    );
    // The failed request consumed nothing.
    assert_eq!(buf.bits_left(), 16);
}

#[test]
fn test_failed_read_leaves_the_cursor_in_place() {
    let mut buf = FieldBuffer::from_bytes(vec![0xAB]);
    let e = buf.read_u16_field("wide").unwrap_err();
    expect_buffer_leaf(
        e,
        "wide",
        BufferError::NotEnoughData {
            requested: 16,
            bits_left: 8,
        },
    );
    assert_eq!(buf.bits_left(), 8);
    assert_eq!(buf.read_u8_field("byte").unwrap(), 0xAB);
}

#[test]
fn test_read_and_validate_failure_is_tagged_with_the_field_name() {
    let mut buf = FieldBuffer::from_bytes(vec![0b01_000000]);
    let e = buf
        .read_bits_as_u8_field_and_validate(2, "version", |v| {
            if v == 2 {
                Ok(())
            } else {
                Err(ValidationError("wrong version".to_owned()))
            }
        })
        .unwrap_err();
    match e {
        PacketParseError::Field { field_name, error } => {
            assert_eq!(field_name, "version");
            match error {
                ErrorCause::Validation(ve) => assert_eq!(ve.0, "wrong version"),
                _ => panic!("expected a validation cause"),
            }
        }
        _ => panic!("expected a leaf failure"),
    }
    // The read itself succeeded, so the two bits are consumed.
    assert_eq!(buf.bits_left(), 6);
}

#[test]
fn test_read_bit_and_bool_and_bytes_validate_variants() {
    let mut buf = FieldBuffer::from_bytes(vec![0b10_000000, 0x42, 0x43]);
    let bit = buf
        .read_bit_field_and_validate("flag", |b| {
            if *b == Bit::One {
                Ok(())
            } else {
                Err(ValidationError("flag must be set".to_owned()))
            }
        })
        .unwrap();
    assert_eq!(bit, Bit::One);
    let b = buf
        .read_bool_field_and_validate("second", |b| {
            if b {
                Err(ValidationError("must be clear".to_owned()))
            } else {
                Ok(())
            }
        })
        .unwrap();
    assert_eq!(b, false);
    let mut rest = FieldBuffer::from_bytes(vec![0x42, 0x43]);
    let bytes = rest
        .read_bytes_field_and_validate(2, "payload", |v| {
            if v.len() == 2 {
                Ok(())
            } else {
                Err(ValidationError("bad length".to_owned()))
            }
        })
        .unwrap();
    assert_eq!(bytes, vec![0x42, 0x43]);
}

#[test]
fn test_zero_width_read_succeeds_and_consumes_nothing() {
    let mut buf = FieldBuffer::from_bytes(vec![0xFF]);
    assert_eq!(buf.read_bits_as_u8_field(0, "pad").unwrap(), 0);
    assert_eq!(buf.bits_left(), 8);

    let mut empty = FieldBuffer::from_bytes(vec![]);
    assert_eq!(empty.read_bits_as_u8_field(0, "pad").unwrap(), 0);
    assert_eq!(empty.bits_left(), 0);
}

#[test]
fn test_zero_width_read_and_validate_runs_the_validator_once() {
    let calls = Rc::new(Cell::new(0u32));
    let seen = calls.clone();
    let mut buf = FieldBuffer::from_bytes(vec![]);
    let v = buf
        .read_bits_as_u8_field_and_validate(0, "pad", move |v| {
            seen.set(seen.get() + 1);
            assert_eq!(v, 0);
            Ok(())
        })
        .unwrap();
    assert_eq!(v, 0);
    assert_eq!(calls.get(), 1);
}
