//! Tests for the validation combinators and the stock constraints.

use packet_fields::error::ValidationError;
use packet_fields::validators::RequireEqual;
use packet_fields::validators::RequireInRange;
use packet_fields::validators::Validatable;
use packet_fields::validators::ValueRange;

#[test]
fn test_require_value() {
    assert!(true.require_value(true).is_ok());
    assert!(2u64.require_value(3u64).is_err());
}

#[test]
fn test_require_in_range() {
    let value = 42u8;

    assert_eq!(
        value
            .require_in_range(ValueRange {
                start: 0,
                end: 42,
                end_inclusive: true,
            })
            .unwrap(),
        42
    );
    assert!(value
        .require_in_range(ValueRange {
            start: 0,
            end: 42,
            end_inclusive: false,
        })
        .is_err());
}

#[test]
fn test_require_value_message_names_both_values() {
    let e = 2u64.require_value(3u64).unwrap_err();
    assert_eq!(e.0, "A value of 3 was required, got value 2");
    let e = false.require_value(true).unwrap_err();
    assert_eq!(e.0, "A value of true was required, got value false");
}

#[test]
fn test_require_value_returns_value_unchanged() {
    assert_eq!(200u8.require_value(200u8).unwrap(), 200);
    assert_eq!(65535u16.require_value(65535u16).unwrap(), 65535);
    assert_eq!(7u32.require_value(7u32).unwrap(), 7);
}

#[test]
fn test_require_in_range_boundaries() {
    let closed = |v: u16| {
        v.require_in_range(ValueRange {
            start: 10,
            end: 20,
            end_inclusive: true,
        })
    };
    assert_eq!(closed(10).unwrap(), 10);
    assert_eq!(closed(20).unwrap(), 20);
    assert!(closed(9).is_err());
    assert!(closed(21).is_err());

    let half_open = |v: u16| {
        v.require_in_range(ValueRange {
            start: 10,
            end: 20,
            end_inclusive: false,
        })
    };
    assert_eq!(half_open(10).unwrap(), 10);
    assert_eq!(half_open(19).unwrap(), 19);
    assert!(half_open(20).is_err());
}

#[test]
fn test_require_in_range_message_names_value_and_range() {
    let e = 42u8
        .require_in_range(ValueRange {
            start: 0,
            end: 42,
            end_inclusive: false,
        })
        .unwrap_err();
    assert_eq!(e.0, "Expected value 42 to be within range 0..42");
}

#[test]
fn test_validate_success_returns_value_unchanged() {
    let r = 7u8.validate(|v| {
        if *v == 7 {
            Ok(())
        } else {
            Err(ValidationError("not seven".to_owned()))
        }
    });
    assert_eq!(r.unwrap(), 7);
}

#[test]
fn test_validate_failure_returns_the_predicate_error() {
    let r = 8u8.validate(|v| {
        if *v == 7 {
            Ok(())
        } else {
            Err(ValidationError("not seven".to_owned()))
        }
    });
    assert_eq!(r.unwrap_err().0, "not seven");
}
