//! The error context model: a failed read or validation is tagged with the
//! name of the field where it happened, and every enclosing field group adds
//! its own name, so the final error spells out a path from the outermost
//! group down to the failing field and its root cause.

use crate::display::dec_digits;
use crate::display::u64_to_dec;
use vstd::prelude::*;
use vstd::string::StrSliceExecFns;
use vstd::string::StringExecFns;

verus! {

/// A semantically invalid value: the read succeeded but a validation
/// predicate rejected the value, with a human-readable message.
#[derive(Debug)]
pub struct ValidationError(pub String);

/// A failed equality constraint, with a message naming the expected and the
/// actual value.
#[derive(Debug)]
pub struct RequireEqualError(pub String);

/// A structural failure reported by the bit buffer: the requested read could
/// not be performed at all.
#[derive(Clone, Copy, Debug, PartialEq, Eq, Structural)]
pub enum BufferError {
    /// Fewer bits remain in the buffer than the read requested.
    NotEnoughData { requested: usize, bits_left: usize },
    /// More bits were requested than fit in the read's data type.
    TooManyBits { requested: usize, max: usize },
}

/// The underlying cause of a leaf failure: what went wrong at the exact
/// point of failure, before any field name was attached.
#[derive(Debug)]
pub enum ErrorCause {
    /// The buffer could not satisfy the read.
    Buffer(BufferError),
    /// A validation predicate rejected the value.
    Validation(ValidationError),
    /// An equality constraint rejected the value.
    RequireEqual(RequireEqualError),
    /// An already-tagged parse error escaping from an inner block.
    Parse(Box<PacketParseError>),
}

/// A parse failure with its full name context: either one field's failure
/// (name plus underlying cause), or a field group's failure wrapping the
/// error of the field or group inside it. The chain always ends in exactly
/// one `Field` leaf.
#[derive(Debug)]
#[allow(inconsistent_fields)]
pub enum PacketParseError {
    /// A single field could not be read or validated.
    Field { field_name: String, error: ErrorCause },
    /// A field inside the named group failed; the inner error keeps its own
    /// name and chain.
    FieldGroup { field_group_name: String, error: Box<PacketParseError> },
}

impl PacketParseError {
    /// The names along the error chain, outermost group first, the failing
    /// field's own name last.
    pub open spec fn path_names(self) -> Seq<Seq<char>>
        decreases self,
    {
        match self {
            PacketParseError::Field { field_name, error } => seq![field_name@],
            PacketParseError::FieldGroup { field_group_name, error } => seq![field_group_name@]
                + error.path_names(),
        }
    }

    /// The name of the failing field at the end of the chain.
    pub open spec fn spec_leaf_name(self) -> Seq<char>
        decreases self,
    {
        match self {
            PacketParseError::Field { field_name, error } => field_name@,
            PacketParseError::FieldGroup { field_group_name, error } => error.spec_leaf_name(),
        }
    }

    /// The cause at the end of the chain.
    pub open spec fn spec_leaf_error(self) -> ErrorCause
        decreases self,
    {
        match self {
            PacketParseError::Field { field_name, error } => error,
            PacketParseError::FieldGroup { field_group_name, error } => error.spec_leaf_error(),
        }
    }

    /// The outermost name of the chain: the failing field's own name for a
    /// leaf, the group's name otherwise.
    pub fn name(&self) -> (r: &str)
        ensures
            r@ == self.path_names()[0],
    {
        match self {
            PacketParseError::Field { field_name, error } => field_name.as_str(),
            PacketParseError::FieldGroup { field_group_name, error } => field_group_name.as_str(),
        }
    }

    /// The name of the failing field at the end of the chain.
    pub fn leaf_name(&self) -> (r: &str)
        ensures
            r@ == self.spec_leaf_name(),
        decreases *self,
    {
        match self {
            PacketParseError::Field { field_name, error } => field_name.as_str(),
            PacketParseError::FieldGroup { field_group_name, error } => error.leaf_name(),
        }
    }

    /// The error one group level further in, if this is a group failure.
    pub fn inner(&self) -> (r: Option<&PacketParseError>)
        ensures
            match r {
                Some(e) => self matches PacketParseError::FieldGroup { field_group_name, error }
                    && *e == *error,
                None => self matches PacketParseError::Field { .. },
            },
    {
        match self {
            PacketParseError::Field { .. } => None,
            PacketParseError::FieldGroup { field_group_name, error } => Some(&**error),
        }
    }

    /// The full diagnostic text, one name per chain link.
    pub open spec fn text(self) -> Seq<char>
        decreases self,
    {
        match self {
            PacketParseError::Field { field_name, error } => "Unable to parse field '"@
                + field_name@ + "': "@ + error.text(),
            PacketParseError::FieldGroup { field_group_name, error } =>
                "Error parsing field group '"@ + field_group_name@ + "': "@ + error.text(),
        }
    }

    /// The full diagnostic text, one name per chain link.
    pub fn message(&self) -> (s: String)
        ensures
            s@ == self.text(),
        decreases *self,
    {
        match self {
            PacketParseError::Field { field_name, error } => {
                let s = "Unable to parse field '".to_owned().concat(field_name.as_str()).concat(
                    "': ",
                );
                let r = s.concat(error.message().as_str());
                proof {
                    assert(r@ =~= self.text());
                }
                r
            },
            PacketParseError::FieldGroup { field_group_name, error } => {
                let s = "Error parsing field group '".to_owned().concat(
                    field_group_name.as_str(),
                ).concat("': ");
                let r = s.concat(error.message().as_str());
                proof {
                    assert(r@ =~= self.text());
                }
                r
            },
        }
    }
}

impl ErrorCause {
    /// The diagnostic text of the root cause alone.
    pub open spec fn text(self) -> Seq<char>
        decreases self,
    {
        match self {
            ErrorCause::Buffer(e) => e.text(),
            ErrorCause::Validation(e) => e.text(),
            ErrorCause::RequireEqual(e) => e.text(),
            ErrorCause::Parse(e) => e.text(),
        }
    }

    /// The diagnostic text of the root cause alone.
    pub fn message(&self) -> (s: String)
        ensures
            s@ == self.text(),
        decreases *self,
    {
        match self {
            ErrorCause::Buffer(e) => e.message(),
            ErrorCause::Validation(e) => e.message(),
            ErrorCause::RequireEqual(e) => e.message(),
            ErrorCause::Parse(e) => e.message(),
        }
    }
}

impl BufferError {
    /// The diagnostic text of a buffer failure.
    pub open spec fn text(self) -> Seq<char> {
        match self {
            BufferError::NotEnoughData { requested, bits_left } =>
                "Not enough data in the buffer to read all requested bits, requested to read "@
                + dec_digits(requested as nat) + " bits while only "@ + dec_digits(
                bits_left as nat,
            ) + " bits are left"@,
            BufferError::TooManyBits { requested, max } =>
                "Too many bits requested to fit in the requested data type, requested to read "@
                + dec_digits(requested as nat) + " bits while only "@ + dec_digits(max as nat)
                + " fit in the datatype"@,
        }
    }

    /// The diagnostic text of a buffer failure.
    pub fn message(&self) -> (s: String)
        ensures
            s@ == self.text(),
    {
        match self {
            BufferError::NotEnoughData { requested, bits_left } => {
                let s =
                    "Not enough data in the buffer to read all requested bits, requested to read ".to_owned().concat(
                    u64_to_dec(*requested as u64).as_str(),
                ).concat(" bits while only ").concat(u64_to_dec(*bits_left as u64).as_str()).concat(
                    " bits are left",
                );
                proof {
                    assert(s@ =~= self.text());
                }
                s
            },
            BufferError::TooManyBits { requested, max } => {
                let s =
                    "Too many bits requested to fit in the requested data type, requested to read ".to_owned().concat(
                    u64_to_dec(*requested as u64).as_str(),
                ).concat(" bits while only ").concat(u64_to_dec(*max as u64).as_str()).concat(
                    " fit in the datatype",
                );
                proof {
                    assert(s@ =~= self.text());
                }
                s
            },
        }
    }
}

impl ValidationError {
    /// The diagnostic text of a failed validation.
    pub open spec fn text(self) -> Seq<char> {
        "Validation error: "@ + self.0@
    }

    /// The diagnostic text of a failed validation.
    pub fn message(&self) -> (s: String)
        ensures
            s@ == self.text(),
    {
        let s = "Validation error: ".to_owned().concat(self.0.as_str());
        proof {
            assert(s@ =~= self.text());
        }
        s
    }
}

impl RequireEqualError {
    /// The diagnostic text of a failed equality constraint: the message
    /// itself.
    pub open spec fn text(self) -> Seq<char> {
        self.0@
    }

    /// The diagnostic text of a failed equality constraint: the message
    /// itself.
    pub fn message(&self) -> (s: String)
        ensures
            s@ == self.text(),
    {
        self.0.as_str().to_owned()
    }
}

} // verus!
