//! The validation combinators: run a caller-supplied predicate on a value
//! just read, or apply one of the two stock constraints, equality and range
//! membership, whose failure messages name the offending values.

use crate::bits::Bit;
use crate::display::dec_digits;
use crate::display::u64_to_dec;
use crate::error::RequireEqualError;
use crate::error::ValidationError;
use vstd::prelude::*;
use vstd::string::StrSliceExecFns;
use vstd::string::StringExecFns;

verus! {

/// The message of a failed equality constraint, over the display forms of
/// the expected and the actual value.
pub open spec fn require_value_text(expected: Seq<char>, got: Seq<char>) -> Seq<char> {
    "A value of "@ + expected + " was required, got value "@ + got
}

/// The message of a failed range constraint, over the display forms of the
/// value and the range's two ends.
pub open spec fn require_in_range_text(got: Seq<char>, start: Seq<char>, end: Seq<char>) -> Seq<
    char,
> {
    "Expected value "@ + got + " to be within range "@ + start + ".."@ + end
}

fn require_value_message(expected: &str, got: &str) -> (s: String)
    ensures
        s@ == require_value_text(expected@, got@),
{
    let s = "A value of ".to_owned().concat(expected).concat(" was required, got value ").concat(
        got,
    );
    proof {
        assert(s@ =~= require_value_text(expected@, got@));
    }
    s
}

fn require_in_range_message(got: &str, start: &str, end: &str) -> (s: String)
    ensures
        s@ == require_in_range_text(got@, start@, end@),
{
    let s = "Expected value ".to_owned().concat(got).concat(" to be within range ").concat(
        start,
    ).concat("..").concat(end);
    proof {
        assert(s@ =~= require_in_range_text(got@, start@, end@));
    }
    s
}

/// Run a caller-supplied predicate on an already-read value: on success the
/// value itself comes back unchanged, on failure the predicate's validation
/// error does.
pub trait Validatable: Sized {
    fn validate<F: FnOnce(&Self) -> Result<(), ValidationError>>(self, validator: F) -> (r: Result<
        Self,
        ValidationError,
    >)
        requires
            call_requires(validator, (&self,)),
        ensures
            match r {
                Ok(v) => v == self && (exists|done: Result<(), ValidationError>|
                    done is Ok && #[trigger] call_ensures(validator, (&self,), done)),
                Err(e) => call_ensures(validator, (&self,), Err(e)),
            },
    ;
}

impl<T: Sized> Validatable for T {
    fn validate<F: FnOnce(&Self) -> Result<(), ValidationError>>(self, validator: F) -> (r: Result<
        Self,
        ValidationError,
    >) {
        match validator(&self) {
            Ok(()) => Ok(self),
            Err(e) => Err(e),
        }
    }
}

/// A value with a display form, which the stock constraints put into their
/// failure messages.
pub trait DisplayedValue: Sized {
    /// The characters of the value's display form.
    spec fn display_spec(&self) -> Seq<char>;

    /// The value's display form.
    fn display_value(&self) -> (s: String)
        ensures
            s@ == self.display_spec(),
    ;
}

/// The equality constraint: require a parsed value to equal the expected
/// one, or fail with a message naming both.
pub trait RequireEqual: DisplayedValue {
    /// Whether two values are equal, decided in executable code.
    fn same_value(&self, other: &Self) -> (b: bool)
        ensures
            b == (self == other),
    ;

    /// Succeeds with the value itself exactly when it equals `expected`; a
    /// mismatch fails with a message naming both values.
    fn require_value(self, expected: Self) -> (r: Result<Self, RequireEqualError>)
        ensures
            self == expected ==> (r matches Ok(v) && v == self),
            self != expected ==> (r matches Err(e) && e.0@ == require_value_text(
                expected.display_spec(),
                self.display_spec(),
            )),
    ;
}

/// A range of values, closed at the start and either open or closed at the
/// end.
pub struct ValueRange<T> {
    pub start: T,
    pub end: T,
    pub end_inclusive: bool,
}

/// A value with an order, which the range constraint goes by.
pub trait OrderedValue: Sized {
    /// The order the range constraint goes by.
    spec fn le_spec(&self, other: &Self) -> bool;

    /// Whether this value is at most the other, decided in executable code.
    fn le_value(&self, other: &Self) -> (b: bool)
        ensures
            b == self.le_spec(other),
    ;
}

/// Whether a range contains a value: at least the start, and at most the
/// end or strictly below it, as the range's end is closed or open.
pub open spec fn spec_range_contains<T: OrderedValue>(range: &ValueRange<T>, v: &T) -> bool {
    &&& range.start.le_spec(v)
    &&& if range.end_inclusive {
        v.le_spec(&range.end)
    } else {
        !range.end.le_spec(v)
    }
}

impl<T: OrderedValue> ValueRange<T> {
    /// Whether the range contains the value.
    pub fn contains(&self, v: &T) -> (b: bool)
        ensures
            b == spec_range_contains(self, v),
    {
        self.start.le_value(v) && (if self.end_inclusive {
            v.le_value(&self.end)
        } else {
            !self.end.le_value(v)
        })
    }
}

/// Boundary law for ranges over sixty-four-bit values: with
/// `start <= end`, both ends of a closed range lie in it and the values one
/// unit outside it do not, while an open-ended range excludes its end.
/// Together with `require_in_range`'s contract this fixes the constraint's
/// behaviour at the edges.
pub proof fn lemma_range_boundaries(start: u64, end: u64)
    requires
        start <= end,
    ensures
        spec_range_contains(&(ValueRange { start, end, end_inclusive: true }), &start),
        spec_range_contains(&(ValueRange { start, end, end_inclusive: true }), &end),
        start >= 1 ==> !spec_range_contains(
            &(ValueRange { start, end, end_inclusive: true }),
            &((start - 1) as u64),
        ),
        end < u64::MAX ==> !spec_range_contains(
            &(ValueRange { start, end, end_inclusive: true }),
            &((end + 1) as u64),
        ),
        !spec_range_contains(&(ValueRange { start, end, end_inclusive: false }), &end),
{
}

/// The range-membership constraint: require a parsed value to lie within a
/// range, or fail with a message naming the value and the range's ends.
pub trait RequireInRange: DisplayedValue + OrderedValue {
    /// Succeeds with the value itself exactly when the range contains it; a
    /// value outside fails with a message naming it and the range's ends.
    fn require_in_range(self, range: ValueRange<Self>) -> (r: Result<Self, ValidationError>)
        ensures
            spec_range_contains(&range, &self) ==> (r matches Ok(v) && v == self),
            !spec_range_contains(&range, &self) ==> (r matches Err(e) && e.0@
                == require_in_range_text(
                self.display_spec(),
                range.start.display_spec(),
                range.end.display_spec(),
            )),
    ;
}

impl DisplayedValue for bool {
    open spec fn display_spec(&self) -> Seq<char> {
        if *self {
            "true"@
        } else {
            "false"@
        }
    }

    fn display_value(&self) -> (s: String) {
        if *self {
            "true".to_owned()
        } else {
            "false".to_owned()
        }
    }
}

impl RequireEqual for bool {
    fn same_value(&self, other: &Self) -> (b: bool) {
        *self == *other
    }

    fn require_value(self, expected: Self) -> (r: Result<Self, RequireEqualError>) {
        if self.same_value(&expected) {
            Ok(self)
        } else {
            Err(
                RequireEqualError(
                    require_value_message(
                        expected.display_value().as_str(),
                        self.display_value().as_str(),
                    ),
                ),
            )
        }
    }
}

impl DisplayedValue for Bit {
    open spec fn display_spec(&self) -> Seq<char> {
        if *self is One {
            "1"@
        } else {
            "0"@
        }
    }

    fn display_value(&self) -> (s: String) {
        if matches!(self, Bit::One) {
            "1".to_owned()
        } else {
            "0".to_owned()
        }
    }
}

impl RequireEqual for Bit {
    fn same_value(&self, other: &Self) -> (b: bool) {
        *self == *other
    }

    fn require_value(self, expected: Self) -> (r: Result<Self, RequireEqualError>) {
        if self.same_value(&expected) {
            Ok(self)
        } else {
            Err(
                RequireEqualError(
                    require_value_message(
                        expected.display_value().as_str(),
                        self.display_value().as_str(),
                    ),
                ),
            )
        }
    }
}

impl DisplayedValue for u8 {
    open spec fn display_spec(&self) -> Seq<char> {
        dec_digits(*self as nat)
    }

    fn display_value(&self) -> (s: String) {
        u64_to_dec(*self as u64)
    }
}

impl RequireEqual for u8 {
    fn same_value(&self, other: &Self) -> (b: bool) {
        *self == *other
    }

    fn require_value(self, expected: Self) -> (r: Result<Self, RequireEqualError>) {
        if self.same_value(&expected) {
            Ok(self)
        } else {
            Err(
                RequireEqualError(
                    require_value_message(
                        expected.display_value().as_str(),
                        self.display_value().as_str(),
                    ),
                ),
            )
        }
    }
}

impl OrderedValue for u8 {
    open spec fn le_spec(&self, other: &Self) -> bool {
        *self <= *other
    }

    fn le_value(&self, other: &Self) -> (b: bool) {
        *self <= *other
    }
}

impl RequireInRange for u8 {
    fn require_in_range(self, range: ValueRange<Self>) -> (r: Result<Self, ValidationError>) {
        if range.contains(&self) {
            Ok(self)
        } else {
            Err(
                ValidationError(
                    require_in_range_message(
                        self.display_value().as_str(),
                        range.start.display_value().as_str(),
                        range.end.display_value().as_str(),
                    ),
                ),
            )
        }
    }
}

impl DisplayedValue for u16 {
    open spec fn display_spec(&self) -> Seq<char> {
        dec_digits(*self as nat)
    }

    fn display_value(&self) -> (s: String) {
        u64_to_dec(*self as u64)
    }
}

impl RequireEqual for u16 {
    fn same_value(&self, other: &Self) -> (b: bool) {
        *self == *other
    }

    fn require_value(self, expected: Self) -> (r: Result<Self, RequireEqualError>) {
        if self.same_value(&expected) {
            Ok(self)
        } else {
            Err(
                RequireEqualError(
                    require_value_message(
                        expected.display_value().as_str(),
                        self.display_value().as_str(),
                    ),
                ),
            )
        }
    }
}

impl OrderedValue for u16 {
    open spec fn le_spec(&self, other: &Self) -> bool {
        *self <= *other
    }

    fn le_value(&self, other: &Self) -> (b: bool) {
        *self <= *other
    }
}

impl RequireInRange for u16 {
    fn require_in_range(self, range: ValueRange<Self>) -> (r: Result<Self, ValidationError>) {
        if range.contains(&self) {
            Ok(self)
        } else {
            Err(
                ValidationError(
                    require_in_range_message(
                        self.display_value().as_str(),
                        range.start.display_value().as_str(),
                        range.end.display_value().as_str(),
                    ),
                ),
            )
        }
    }
}

impl DisplayedValue for u32 {
    open spec fn display_spec(&self) -> Seq<char> {
        dec_digits(*self as nat)
    }

    fn display_value(&self) -> (s: String) {
        u64_to_dec(*self as u64)
    }
}

impl RequireEqual for u32 {
    fn same_value(&self, other: &Self) -> (b: bool) {
        *self == *other
    }

    fn require_value(self, expected: Self) -> (r: Result<Self, RequireEqualError>) {
        if self.same_value(&expected) {
            Ok(self)
        } else {
            Err(
                RequireEqualError(
                    require_value_message(
                        expected.display_value().as_str(),
                        self.display_value().as_str(),
                    ),
                ),
            )
        }
    }
}

impl OrderedValue for u32 {
    open spec fn le_spec(&self, other: &Self) -> bool {
        *self <= *other
    }

    fn le_value(&self, other: &Self) -> (b: bool) {
        *self <= *other
    }
}

impl RequireInRange for u32 {
    fn require_in_range(self, range: ValueRange<Self>) -> (r: Result<Self, ValidationError>) {
        if range.contains(&self) {
            Ok(self)
        } else {
            Err(
                ValidationError(
                    require_in_range_message(
                        self.display_value().as_str(),
                        range.start.display_value().as_str(),
                        range.end.display_value().as_str(),
                    ),
                ),
            )
        }
    }
}

impl DisplayedValue for u64 {
    open spec fn display_spec(&self) -> Seq<char> {
        dec_digits(*self as nat)
    }

    fn display_value(&self) -> (s: String) {
        u64_to_dec(*self)
    }
}

impl RequireEqual for u64 {
    fn same_value(&self, other: &Self) -> (b: bool) {
        *self == *other
    }

    fn require_value(self, expected: Self) -> (r: Result<Self, RequireEqualError>) {
        if self.same_value(&expected) {
            Ok(self)
        } else {
            Err(
                RequireEqualError(
                    require_value_message(
                        expected.display_value().as_str(),
                        self.display_value().as_str(),
                    ),
                ),
            )
        }
    }
}

impl OrderedValue for u64 {
    open spec fn le_spec(&self, other: &Self) -> bool {
        *self <= *other
    }

    fn le_value(&self, other: &Self) -> (b: bool) {
        *self <= *other
    }
}

impl RequireInRange for u64 {
    fn require_in_range(self, range: ValueRange<Self>) -> (r: Result<Self, ValidationError>) {
        if range.contains(&self) {
            Ok(self)
        } else {
            Err(
                ValidationError(
                    require_in_range_message(
                        self.display_value().as_str(),
                        range.start.display_value().as_str(),
                        range.end.display_value().as_str(),
                    ),
                ),
            )
        }
    }
}

} // verus!
