//! Tests for the parse orchestrators and the error context model.

use packet_fields::error::BufferError;
use packet_fields::error::ErrorCause;
use packet_fields::error::PacketParseError;
use packet_fields::error::ValidationError;
use packet_fields::field_buffer::FieldBuffer;
use packet_fields::packet_parsing::try_parse_field;
use packet_fields::packet_parsing::try_parse_field_group;
use packet_fields::validators::RequireEqual;

fn parse_field_success() -> Result<u8, ErrorCause> {
    Ok(42)
}

fn parse_field_error() -> Result<u8, ErrorCause> {
    Err(ErrorCause::Validation(ValidationError("Error".to_owned())))
}

#[test]
fn test_try_parse_succeeds() {
    assert_eq!(
        try_parse_field("field", || parse_field_success()).unwrap(),
        42
    );
}

#[test]
fn test_try_parse_fails() {
    let result = try_parse_field("field", || parse_field_error());
    assert!(result.is_err());
}

#[test]
fn test_try_parse_multiple_calls() {
    let result = try_parse_field("field", || {
        parse_field_success()?;
        parse_field_success()?;
        parse_field_success()
    });
    assert!(result.is_ok());
}

fn fake_read_u8(succeed: bool) -> Result<u8, ErrorCause> {
    if succeed {
        Ok(42)
    } else {
        Err(ErrorCause::Buffer(BufferError::NotEnoughData {
            requested: 80,
            bits_left: 40,
        }))
    }
}

fn fake_validate() -> Result<u8, ErrorCause> {
    Err(ErrorCause::Validation(ValidationError(
        "input didn't match expected".to_owned(),
    )))
}

fn parse_thing() -> Result<u8, PacketParseError> {
    try_parse_field("my field", || {
        let _res = fake_read_u8(false)?;
        let res = fake_validate()?;
        Ok(res)
    })
}

#[test]
fn test_name() {
    if let Err(e) = parse_thing() {
        println!("{}", e.message());
    }
}

#[test]
fn test_failed_field_keeps_name() {
    let e = try_parse_field("version", || parse_field_error()).unwrap_err();
    assert_eq!(e.name(), "version");
    assert_eq!(e.leaf_name(), "version");
    match e {
        PacketParseError::Field { field_name, error } => {
            assert_eq!(field_name, "version");
            match error {
                ErrorCause::Validation(ve) => assert_eq!(ve.0, "Error"),
                _ => panic!("expected a validation cause"),
            }
        }
        _ => panic!("expected a leaf failure"),
    }
}

#[test]
fn test_group_failure_keeps_inner_error() {
    let e = try_parse_field_group("header", || -> Result<u8, PacketParseError> {
        Err(try_parse_field("version", || parse_field_error()).unwrap_err())
    })
    .unwrap_err();
    assert_eq!(e.name(), "header");
    assert_eq!(e.leaf_name(), "version");
    let inner = e.inner().expect("a group failure wraps an inner error");
    assert_eq!(inner.name(), "version");
    assert!(inner.inner().is_none());
}

#[test]
fn test_nested_groups_report_full_path() {
    let e = try_parse_field_group("g", || {
        try_parse_field_group("h", || {
            try_parse_field("f", || -> Result<u8, ErrorCause> {
                Err(ErrorCause::Buffer(BufferError::NotEnoughData {
                    requested: 8,
                    bits_left: 0,
                }))
            })
        })
    })
    .unwrap_err();
    assert_eq!(e.name(), "g");
    let mid = e.inner().expect("outer group wraps the middle group");
    assert_eq!(mid.name(), "h");
    let leaf = mid.inner().expect("middle group wraps the field failure");
    assert_eq!(leaf.name(), "f");
    assert!(leaf.inner().is_none());
    assert_eq!(e.leaf_name(), "f");
}

#[test]
fn test_group_success_returns_value_unchanged() {
    let r = try_parse_field_group("header", || -> Result<u8, PacketParseError> { Ok(7) });
    assert_eq!(r.unwrap(), 7);
}

#[test]
fn test_message_spells_out_the_path() {
    let e = try_parse_field_group("header", || {
        try_parse_field("version", || -> Result<u8, ErrorCause> {
            Err(ErrorCause::Buffer(BufferError::NotEnoughData {
                requested: 8,
                bits_left: 2,
            }))
        })
    })
    .unwrap_err();
    assert_eq!(
        e.message(),
        "Error parsing field group 'header': Unable to parse field 'version': \
         Not enough data in the buffer to read all requested bits, \
         requested to read 8 bits while only 2 bits are left"
    );
}

#[test]
fn test_too_many_bits_message() {
    let cause = ErrorCause::Buffer(BufferError::TooManyBits {
        requested: 9,
        max: 8,
    });
    assert_eq!(
        cause.message(),
        "Too many bits requested to fit in the requested data type, \
         requested to read 9 bits while only 8 fit in the datatype"
    );
}

#[test]
fn test_nested_parse_cause_message() {
    let inner = try_parse_field("f", || parse_field_error()).unwrap_err();
    let e = try_parse_field("outer", || -> Result<u8, ErrorCause> {
        Err(ErrorCause::Parse(Box::new(inner)))
    })
    .unwrap_err();
    assert_eq!(e.name(), "outer");
    assert_eq!(
        e.message(),
        "Unable to parse field 'outer': Unable to parse field 'f': Validation error: Error"
    );
}

#[test]
fn test_require_value_failure_wrapped_as_field_error() {
    let mut buf = FieldBuffer::from_bytes(vec![0b01_000000]);
    let e = try_parse_field("version", || {
        let v = buf
            .read_bits_as_u8_field(2, "version")
            .map_err(|e| ErrorCause::Parse(Box::new(e)))?;
        let v = v
            .require_value(2)
            .map_err(ErrorCause::RequireEqual)?;
        Ok(v)
    })
    .unwrap_err();
    assert_eq!(e.name(), "version");
    assert_eq!(
        e.message(),
        "Unable to parse field 'version': A value of 2 was required, got value 1"
    );
}
