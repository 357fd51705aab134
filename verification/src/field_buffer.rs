//! The field read adapter: every primitive read of the bit buffer, offered
//! as a field-scoped operation that on failure reports a leaf error tagged
//! with the field's name, and optionally validates the value just read.

use crate::bits::Bit;
use crate::bits::bit_of;
use crate::bits::bits_to_bytes;
use crate::bits::bits_to_uint;
use crate::bits::bytes_to_bits;
use crate::bitstream::RawBitStream;
use crate::bitstream::stream_bits;
use crate::bitstream::stream_bits_left;
use crate::bitstream::stream_from_bytes;
use crate::bitstream::stream_read_bool;
use crate::bitstream::stream_read_bytes;
use crate::bitstream::stream_read_int_u8;
use crate::bitstream::stream_read_int_u16;
use crate::bitstream::stream_read_int_u32;
use crate::bitstream::stream_total_bits;
use crate::error::BufferError;
use crate::error::ErrorCause;
use crate::error::PacketParseError;
use crate::error::ValidationError;
use vstd::prelude::*;

verus! {

/// The error a field read reports when the buffer itself failed: a leaf
/// failure under the field's name whose cause is the given buffer error.
pub open spec fn is_buffer_leaf(e: PacketParseError, name: Seq<char>, cause: BufferError) -> bool {
    &&& e matches PacketParseError::Field { field_name, error }
    &&& field_name@ == name
    &&& error == ErrorCause::Buffer(cause)
}

/// The unsigned value of the first `count` bits, as an eight-bit integer.
pub open spec fn uint_value_u8(bits: Seq<bool>, count: int) -> u8
    recommends
        0 <= count <= 8,
{
    bits_to_uint(bits.take(count)) as u8
}

/// The unsigned value of the first `count` bits, as a sixteen-bit integer.
pub open spec fn uint_value_u16(bits: Seq<bool>, count: int) -> u16
    recommends
        0 <= count <= 16,
{
    bits_to_uint(bits.take(count)) as u16
}

/// The unsigned value of the first `count` bits, as a thirty-two-bit
/// integer.
pub open spec fn uint_value_u32(bits: Seq<bool>, count: int) -> u32
    recommends
        0 <= count <= 32,
{
    bits_to_uint(bits.take(count)) as u32
}

/// A bit-addressable buffer whose reads are field-scoped: each read either
/// returns the typed value and advances the cursor by exactly the consumed
/// width, or reports a leaf failure tagged with the field's name and leaves
/// the cursor where it was.
pub struct FieldBuffer {
    raw: RawBitStream,
}

impl View for FieldBuffer {
    type V = Seq<bool>;

    /// A buffer is seen as the sequence of bits not read yet.
    closed spec fn view(&self) -> Seq<bool> {
        stream_bits(self.raw)
    }
}

impl FieldBuffer {
    #[verifier::type_invariant]
    spec fn wf(self) -> bool {
        &&& stream_bits(self.raw).len() <= stream_total_bits(self.raw)
        &&& stream_total_bits(self.raw) + 64 <= usize::MAX
    }

    /// A buffer over the given bytes, nothing read yet.
    pub fn from_bytes(bytes: Vec<u8>) -> (r: FieldBuffer)
        requires
            8 * bytes@.len() + 64 <= usize::MAX,
        ensures
            r@ == bytes_to_bits(bytes@),
    {
        FieldBuffer { raw: stream_from_bytes(bytes) }
    }

    /// The number of bits not read yet.
    pub fn bits_left(&self) -> (n: usize)
        ensures
            n as nat == self@.len(),
    {
        stream_bits_left(&self.raw)
    }

    /// Read a single bit under the given field name.
    pub fn read_bit_field(&mut self, field_name: &str) -> (r: Result<Bit, PacketParseError>)
        ensures
            old(self)@.len() >= 1 ==> {
                &&& final(self)@ == old(self)@.skip(1)
                &&& r matches Ok(b) && b == bit_of(old(self)@[0])
            },
            old(self)@.len() == 0 ==> {
                &&& final(self)@ == old(self)@
                &&& r matches Err(e) && is_buffer_leaf(
                    e,
                    field_name@,
                    BufferError::NotEnoughData { requested: 1, bits_left: 0 },
                )
            },
    {
        proof {
            use_type_invariant(&*self);
        }
        if stream_bits_left(&self.raw) >= 1 {
            let b = stream_read_bool(&mut self.raw);
            Ok(Bit::from_bool(b))
        } else {
            Err(
                PacketParseError::Field {
                    field_name: field_name.to_owned(),
                    error: ErrorCause::Buffer(
                        BufferError::NotEnoughData { requested: 1, bits_left: 0 },
                    ),
                },
            )
        }
    }

    /// Read a single bit as a boolean under the given field name.
    pub fn read_bool_field(&mut self, field_name: &str) -> (r: Result<bool, PacketParseError>)
        ensures
            old(self)@.len() >= 1 ==> {
                &&& final(self)@ == old(self)@.skip(1)
                &&& r matches Ok(b) && b == old(self)@[0]
            },
            old(self)@.len() == 0 ==> {
                &&& final(self)@ == old(self)@
                &&& r matches Err(e) && is_buffer_leaf(
                    e,
                    field_name@,
                    BufferError::NotEnoughData { requested: 1, bits_left: 0 },
                )
            },
    {
        proof {
            use_type_invariant(&*self);
        }
        if stream_bits_left(&self.raw) >= 1 {
            let b = stream_read_bool(&mut self.raw);
            Ok(b)
        } else {
            Err(
                PacketParseError::Field {
                    field_name: field_name.to_owned(),
                    error: ErrorCause::Buffer(
                        BufferError::NotEnoughData { requested: 1, bits_left: 0 },
                    ),
                },
            )
        }
    }

    /// Read `num_bits` bits (at most eight) as an eight-bit integer under
    /// the given field name.
    pub fn read_bits_as_u8_field(&mut self, num_bits: usize, field_name: &str) -> (r: Result<
        u8,
        PacketParseError,
    >)
        ensures
            num_bits > 8 ==> {
                &&& final(self)@ == old(self)@
                &&& r matches Err(e) && is_buffer_leaf(
                    e,
                    field_name@,
                    BufferError::TooManyBits { requested: num_bits, max: 8 },
                )
            },
            num_bits <= 8 && old(self)@.len() >= num_bits ==> {
                &&& final(self)@ == old(self)@.skip(num_bits as int)
                &&& r matches Ok(v) && v == uint_value_u8(old(self)@, num_bits as int)
            },
            num_bits <= 8 && old(self)@.len() < num_bits ==> {
                &&& final(self)@ == old(self)@
                &&& r matches Err(e) && is_buffer_leaf(
                    e,
                    field_name@,
                    BufferError::NotEnoughData {
                        requested: num_bits,
                        bits_left: old(self)@.len() as usize,
                    },
                )
            },
    {
        proof {
            use_type_invariant(&*self);
        }
        if num_bits > 8 {
            Err(
                PacketParseError::Field {
                    field_name: field_name.to_owned(),
                    error: ErrorCause::Buffer(
                        BufferError::TooManyBits { requested: num_bits, max: 8 },
                    ),
                },
            )
        } else if num_bits == 0 {
            // A zero-width read consumes nothing and its value is zero.
            proof {
                assert(old(self)@.skip(0) =~= old(self)@);
                assert(old(self)@.take(0) =~= Seq::<bool>::empty());
            }
            Ok(0)
        } else if num_bits <= stream_bits_left(&self.raw) {
            let v = stream_read_int_u8(&mut self.raw, num_bits);
            Ok(v)
        } else {
            let left = stream_bits_left(&self.raw);
            Err(
                PacketParseError::Field {
                    field_name: field_name.to_owned(),
                    error: ErrorCause::Buffer(
                        BufferError::NotEnoughData { requested: num_bits, bits_left: left },
                    ),
                },
            )
        }
    }

    /// Read an eight-bit unsigned integer under the given field name.
    pub fn read_u8_field(&mut self, field_name: &str) -> (r: Result<u8, PacketParseError>)
        ensures
            old(self)@.len() >= 8 ==> {
                &&& final(self)@ == old(self)@.skip(8)
                &&& r matches Ok(v) && v == uint_value_u8(old(self)@, 8)
            },
            old(self)@.len() < 8 ==> {
                &&& final(self)@ == old(self)@
                &&& r matches Err(e) && is_buffer_leaf(
                    e,
                    field_name@,
                    BufferError::NotEnoughData {
                        requested: 8,
                        bits_left: old(self)@.len() as usize,
                    },
                )
            },
    {
        proof {
            use_type_invariant(&*self);
        }
        if stream_bits_left(&self.raw) >= 8 {
            let v = stream_read_int_u8(&mut self.raw, 8);
            Ok(v)
        } else {
            let left = stream_bits_left(&self.raw);
            Err(
                PacketParseError::Field {
                    field_name: field_name.to_owned(),
                    error: ErrorCause::Buffer(
                        BufferError::NotEnoughData { requested: 8, bits_left: left },
                    ),
                },
            )
        }
    }

    /// Read a sixteen-bit unsigned integer under the given field name.
    pub fn read_u16_field(&mut self, field_name: &str) -> (r: Result<u16, PacketParseError>)
        ensures
            old(self)@.len() >= 16 ==> {
                &&& final(self)@ == old(self)@.skip(16)
                &&& r matches Ok(v) && v == uint_value_u16(old(self)@, 16)
            },
            old(self)@.len() < 16 ==> {
                &&& final(self)@ == old(self)@
                &&& r matches Err(e) && is_buffer_leaf(
                    e,
                    field_name@,
                    BufferError::NotEnoughData {
                        requested: 16,
                        bits_left: old(self)@.len() as usize,
                    },
                )
            },
    {
        proof {
            use_type_invariant(&*self);
        }
        if stream_bits_left(&self.raw) >= 16 {
            let v = stream_read_int_u16(&mut self.raw, 16);
            Ok(v)
        } else {
            let left = stream_bits_left(&self.raw);
            Err(
                PacketParseError::Field {
                    field_name: field_name.to_owned(),
                    error: ErrorCause::Buffer(
                        BufferError::NotEnoughData { requested: 16, bits_left: left },
                    ),
                },
            )
        }
    }

    /// Read a twenty-four-bit unsigned integer under the given field name.
    pub fn read_u24_field(&mut self, field_name: &str) -> (r: Result<u32, PacketParseError>)
        ensures
            old(self)@.len() >= 24 ==> {
                &&& final(self)@ == old(self)@.skip(24)
                &&& r matches Ok(v) && v == uint_value_u32(old(self)@, 24)
            },
            old(self)@.len() < 24 ==> {
                &&& final(self)@ == old(self)@
                &&& r matches Err(e) && is_buffer_leaf(
                    e,
                    field_name@,
                    BufferError::NotEnoughData {
                        requested: 24,
                        bits_left: old(self)@.len() as usize,
                    },
                )
            },
    {
        proof {
            use_type_invariant(&*self);
        }
        if stream_bits_left(&self.raw) >= 24 {
            let v = stream_read_int_u32(&mut self.raw, 24);
            Ok(v)
        } else {
            let left = stream_bits_left(&self.raw);
            Err(
                PacketParseError::Field {
                    field_name: field_name.to_owned(),
                    error: ErrorCause::Buffer(
                        BufferError::NotEnoughData { requested: 24, bits_left: left },
                    ),
                },
            )
        }
    }

    /// Read a thirty-two-bit unsigned integer under the given field name.
    pub fn read_u32_field(&mut self, field_name: &str) -> (r: Result<u32, PacketParseError>)
        ensures
            old(self)@.len() >= 32 ==> {
                &&& final(self)@ == old(self)@.skip(32)
                &&& r matches Ok(v) && v == uint_value_u32(old(self)@, 32)
            },
            old(self)@.len() < 32 ==> {
                &&& final(self)@ == old(self)@
                &&& r matches Err(e) && is_buffer_leaf(
                    e,
                    field_name@,
                    BufferError::NotEnoughData {
                        requested: 32,
                        bits_left: old(self)@.len() as usize,
                    },
                )
            },
    {
        proof {
            use_type_invariant(&*self);
        }
        if stream_bits_left(&self.raw) >= 32 {
            let v = stream_read_int_u32(&mut self.raw, 32);
            Ok(v)
        } else {
            let left = stream_bits_left(&self.raw);
            Err(
                PacketParseError::Field {
                    field_name: field_name.to_owned(),
                    error: ErrorCause::Buffer(
                        BufferError::NotEnoughData { requested: 32, bits_left: left },
                    ),
                },
            )
        }
    }

    /// Read a run of `num_bytes` bytes under the given field name.
    pub fn read_bytes_field(&mut self, num_bytes: usize, field_name: &str) -> (r: Result<
        Vec<u8>,
        PacketParseError,
    >)
        requires
            8 * num_bytes <= usize::MAX,
        ensures
            old(self)@.len() >= 8 * num_bytes ==> {
                &&& final(self)@ == old(self)@.skip(8 * num_bytes as int)
                &&& r matches Ok(v) && v@ == bits_to_bytes(old(self)@.take(8 * num_bytes as int))
            },
            old(self)@.len() < 8 * num_bytes ==> {
                &&& final(self)@ == old(self)@
                &&& r matches Err(e) && is_buffer_leaf(
                    e,
                    field_name@,
                    BufferError::NotEnoughData {
                        requested: (8 * num_bytes) as usize,
                        bits_left: old(self)@.len() as usize,
                    },
                )
            },
    {
        proof {
            use_type_invariant(&*self);
        }
        let needed: usize = 8 * num_bytes;
        if needed <= stream_bits_left(&self.raw) {
            let v = stream_read_bytes(&mut self.raw, num_bytes);
            Ok(v)
        } else {
            let left = stream_bits_left(&self.raw);
            Err(
                PacketParseError::Field {
                    field_name: field_name.to_owned(),
                    error: ErrorCause::Buffer(
                        BufferError::NotEnoughData { requested: needed, bits_left: left },
                    ),
                },
            )
        }
    }

    /// Read a single bit under the given field name, then run the validator
    /// on it; a validation failure is reported under the same field name.
    /// The validator is only consulted once the read itself succeeded.
    pub fn read_bit_field_and_validate<F: FnOnce(&Bit) -> Result<(), ValidationError>>(
        &mut self,
        field_name: &str,
        validator: F,
    ) -> (r: Result<Bit, PacketParseError>)
        requires
            forall|b: &Bit| call_requires(validator, (b,)),
        ensures
            old(self)@.len() == 0 ==> {
                &&& final(self)@ == old(self)@
                &&& r matches Err(e) && is_buffer_leaf(
                    e,
                    field_name@,
                    BufferError::NotEnoughData { requested: 1, bits_left: 0 },
                )
            },
            old(self)@.len() >= 1 ==> {
                &&& final(self)@ == old(self)@.skip(1)
                &&& match r {
                    Ok(b) => b == bit_of(old(self)@[0]) && (exists|done: Result<(), ValidationError>|
                        done is Ok && #[trigger] call_ensures(validator, (&b,), done)),
                    Err(e) => {
                        &&& e matches PacketParseError::Field { field_name: n, error: c }
                        &&& n@ == field_name@
                        &&& c matches ErrorCause::Validation(ve)
                        &&& call_ensures(validator, (&bit_of(old(self)@[0]),), Err(ve))
                    },
                }
            },
    {
        let v = match self.read_bit_field(field_name) {
            Ok(v) => v,
            Err(e) => { return Err(e) },
        };
        match validator(&v) {
            Ok(()) => Ok(v),
            Err(ve) => Err(
                PacketParseError::Field {
                    field_name: field_name.to_owned(),
                    error: ErrorCause::Validation(ve),
                },
            ),
        }
    }

    /// Read a single bit as a boolean under the given field name, then run
    /// the validator on it; a validation failure is reported under the same
    /// field name. The validator is only consulted once the read itself
    /// succeeded.
    pub fn read_bool_field_and_validate<F: FnOnce(bool) -> Result<(), ValidationError>>(
        &mut self,
        field_name: &str,
        validator: F,
    ) -> (r: Result<bool, PacketParseError>)
        requires
            forall|b: bool| call_requires(validator, (b,)),
        ensures
            old(self)@.len() == 0 ==> {
                &&& final(self)@ == old(self)@
                &&& r matches Err(e) && is_buffer_leaf(
                    e,
                    field_name@,
                    BufferError::NotEnoughData { requested: 1, bits_left: 0 },
                )
            },
            old(self)@.len() >= 1 ==> {
                &&& final(self)@ == old(self)@.skip(1)
                &&& match r {
                    Ok(b) => b == old(self)@[0] && (exists|done: Result<(), ValidationError>|
                        done is Ok && #[trigger] call_ensures(validator, (b,), done)),
                    Err(e) => {
                        &&& e matches PacketParseError::Field { field_name: n, error: c }
                        &&& n@ == field_name@
                        &&& c matches ErrorCause::Validation(ve)
                        &&& call_ensures(validator, (old(self)@[0],), Err(ve))
                    },
                }
            },
    {
        let v = match self.read_bool_field(field_name) {
            Ok(v) => v,
            Err(e) => { return Err(e) },
        };
        match validator(v) {
            Ok(()) => Ok(v),
            Err(ve) => Err(
                PacketParseError::Field {
                    field_name: field_name.to_owned(),
                    error: ErrorCause::Validation(ve),
                },
            ),
        }
    }

    /// Read `num_bits` bits (at most eight) as an eight-bit integer under
    /// the given field name, then run the validator on the value; a
    /// validation failure is reported under the same field name. The
    /// validator is only consulted once the read itself succeeded.
    pub fn read_bits_as_u8_field_and_validate<F: FnOnce(u8) -> Result<(), ValidationError>>(
        &mut self,
        num_bits: usize,
        field_name: &str,
        validator: F,
    ) -> (r: Result<u8, PacketParseError>)
        requires
            forall|v: u8| call_requires(validator, (v,)),
        ensures
            num_bits > 8 ==> {
                &&& final(self)@ == old(self)@
                &&& r matches Err(e) && is_buffer_leaf(
                    e,
                    field_name@,
                    BufferError::TooManyBits { requested: num_bits, max: 8 },
                )
            },
            num_bits <= 8 && old(self)@.len() < num_bits ==> {
                &&& final(self)@ == old(self)@
                &&& r matches Err(e) && is_buffer_leaf(
                    e,
                    field_name@,
                    BufferError::NotEnoughData {
                        requested: num_bits,
                        bits_left: old(self)@.len() as usize,
                    },
                )
            },
            num_bits <= 8 && old(self)@.len() >= num_bits ==> {
                &&& final(self)@ == old(self)@.skip(num_bits as int)
                &&& match r {
                    Ok(v) => v == uint_value_u8(old(self)@, num_bits as int) && (exists|done: Result<(), ValidationError>|
                        done is Ok && #[trigger] call_ensures(validator, (v,), done)),
                    Err(e) => {
                        &&& e matches PacketParseError::Field { field_name: n, error: c }
                        &&& n@ == field_name@
                        &&& c matches ErrorCause::Validation(ve)
                        &&& call_ensures(
                            validator,
                            (uint_value_u8(old(self)@, num_bits as int),),
                            Err(ve),
                        )
                    },
                }
            },
    {
        let v = match self.read_bits_as_u8_field(num_bits, field_name) {
            Ok(v) => v,
            Err(e) => { return Err(e) },
        };
        match validator(v) {
            Ok(()) => Ok(v),
            Err(ve) => Err(
                PacketParseError::Field {
                    field_name: field_name.to_owned(),
                    error: ErrorCause::Validation(ve),
                },
            ),
        }
    }

    /// Read an eight-bit unsigned integer under the given field name, then
    /// run the validator on the value; a validation failure is reported
    /// under the same field name. The validator is only consulted once the
    /// read itself succeeded.
    pub fn read_u8_field_and_validate<F: FnOnce(u8) -> Result<(), ValidationError>>(
        &mut self,
        field_name: &str,
        validator: F,
    ) -> (r: Result<u8, PacketParseError>)
        requires
            forall|v: u8| call_requires(validator, (v,)),
        ensures
            old(self)@.len() < 8 ==> {
                &&& final(self)@ == old(self)@
                &&& r matches Err(e) && is_buffer_leaf(
                    e,
                    field_name@,
                    BufferError::NotEnoughData {
                        requested: 8,
                        bits_left: old(self)@.len() as usize,
                    },
                )
            },
            old(self)@.len() >= 8 ==> {
                &&& final(self)@ == old(self)@.skip(8)
                &&& match r {
                    Ok(v) => v == uint_value_u8(old(self)@, 8) && (exists|done: Result<(), ValidationError>|
                        done is Ok && #[trigger] call_ensures(validator, (v,), done)),
                    Err(e) => {
                        &&& e matches PacketParseError::Field { field_name: n, error: c }
                        &&& n@ == field_name@
                        &&& c matches ErrorCause::Validation(ve)
                        &&& call_ensures(validator, (uint_value_u8(old(self)@, 8),), Err(ve))
                    },
                }
            },
    {
        let v = match self.read_u8_field(field_name) {
            Ok(v) => v,
            Err(e) => { return Err(e) },
        };
        match validator(v) {
            Ok(()) => Ok(v),
            Err(ve) => Err(
                PacketParseError::Field {
                    field_name: field_name.to_owned(),
                    error: ErrorCause::Validation(ve),
                },
            ),
        }
    }

    /// Read a sixteen-bit unsigned integer under the given field name, then
    /// run the validator on the value; a validation failure is reported
    /// under the same field name. The validator is only consulted once the
    /// read itself succeeded.
    pub fn read_u16_field_and_validate<F: FnOnce(u16) -> Result<(), ValidationError>>(
        &mut self,
        field_name: &str,
        validator: F,
    ) -> (r: Result<u16, PacketParseError>)
        requires
            forall|v: u16| call_requires(validator, (v,)),
        ensures
            old(self)@.len() < 16 ==> {
                &&& final(self)@ == old(self)@
                &&& r matches Err(e) && is_buffer_leaf(
                    e,
                    field_name@,
                    BufferError::NotEnoughData {
                        requested: 16,
                        bits_left: old(self)@.len() as usize,
                    },
                )
            },
            old(self)@.len() >= 16 ==> {
                &&& final(self)@ == old(self)@.skip(16)
                &&& match r {
                    Ok(v) => v == uint_value_u16(old(self)@, 16) && (exists|done: Result<(), ValidationError>|
                        done is Ok && #[trigger] call_ensures(validator, (v,), done)),
                    Err(e) => {
                        &&& e matches PacketParseError::Field { field_name: n, error: c }
                        &&& n@ == field_name@
                        &&& c matches ErrorCause::Validation(ve)
                        &&& call_ensures(validator, (uint_value_u16(old(self)@, 16),), Err(ve))
                    },
                }
            },
    {
        let v = match self.read_u16_field(field_name) {
            Ok(v) => v,
            Err(e) => { return Err(e) },
        };
        match validator(v) {
            Ok(()) => Ok(v),
            Err(ve) => Err(
                PacketParseError::Field {
                    field_name: field_name.to_owned(),
                    error: ErrorCause::Validation(ve),
                },
            ),
        }
    }

    /// Read a twenty-four-bit unsigned integer under the given field name,
    /// then run the validator on the value; a validation failure is
    /// reported under the same field name. The validator is only consulted
    /// once the read itself succeeded.
    pub fn read_u24_field_and_validate<F: FnOnce(u32) -> Result<(), ValidationError>>(
        &mut self,
        field_name: &str,
        validator: F,
    ) -> (r: Result<u32, PacketParseError>)
        requires
            forall|v: u32| call_requires(validator, (v,)),
        ensures
            old(self)@.len() < 24 ==> {
                &&& final(self)@ == old(self)@
                &&& r matches Err(e) && is_buffer_leaf(
                    e,
                    field_name@,
                    BufferError::NotEnoughData {
                        requested: 24,
                        bits_left: old(self)@.len() as usize,
                    },
                )
            },
            old(self)@.len() >= 24 ==> {
                &&& final(self)@ == old(self)@.skip(24)
                &&& match r {
                    Ok(v) => v == uint_value_u32(old(self)@, 24) && (exists|done: Result<(), ValidationError>|
                        done is Ok && #[trigger] call_ensures(validator, (v,), done)),
                    Err(e) => {
                        &&& e matches PacketParseError::Field { field_name: n, error: c }
                        &&& n@ == field_name@
                        &&& c matches ErrorCause::Validation(ve)
                        &&& call_ensures(validator, (uint_value_u32(old(self)@, 24),), Err(ve))
                    },
                }
            },
    {
        let v = match self.read_u24_field(field_name) {
            Ok(v) => v,
            Err(e) => { return Err(e) },
        };
        match validator(v) {
            Ok(()) => Ok(v),
            Err(ve) => Err(
                PacketParseError::Field {
                    field_name: field_name.to_owned(),
                    error: ErrorCause::Validation(ve),
                },
            ),
        }
    }

    /// Read a thirty-two-bit unsigned integer under the given field name,
    /// then run the validator on the value; a validation failure is
    /// reported under the same field name. The validator is only consulted
    /// once the read itself succeeded.
    pub fn read_u32_field_and_validate<F: FnOnce(u32) -> Result<(), ValidationError>>(
        &mut self,
        field_name: &str,
        validator: F,
    ) -> (r: Result<u32, PacketParseError>)
        requires
            forall|v: u32| call_requires(validator, (v,)),
        ensures
            old(self)@.len() < 32 ==> {
                &&& final(self)@ == old(self)@
                &&& r matches Err(e) && is_buffer_leaf(
                    e,
                    field_name@,
                    BufferError::NotEnoughData {
                        requested: 32,
                        bits_left: old(self)@.len() as usize,
                    },
                )
            },
            old(self)@.len() >= 32 ==> {
                &&& final(self)@ == old(self)@.skip(32)
                &&& match r {
                    Ok(v) => v == uint_value_u32(old(self)@, 32) && (exists|done: Result<(), ValidationError>|
                        done is Ok && #[trigger] call_ensures(validator, (v,), done)),
                    Err(e) => {
                        &&& e matches PacketParseError::Field { field_name: n, error: c }
                        &&& n@ == field_name@
                        &&& c matches ErrorCause::Validation(ve)
                        &&& call_ensures(validator, (uint_value_u32(old(self)@, 32),), Err(ve))
                    },
                }
            },
    {
        let v = match self.read_u32_field(field_name) {
            Ok(v) => v,
            Err(e) => { return Err(e) },
        };
        match validator(v) {
            Ok(()) => Ok(v),
            Err(ve) => Err(
                PacketParseError::Field {
                    field_name: field_name.to_owned(),
                    error: ErrorCause::Validation(ve),
                },
            ),
        }
    }

    /// Read a run of `num_bytes` bytes under the given field name, then run
    /// the validator on the bytes; a validation failure is reported under
    /// the same field name. The validator is only consulted once the read
    /// itself succeeded.
    pub fn read_bytes_field_and_validate<F: FnOnce(&Vec<u8>) -> Result<(), ValidationError>>(
        &mut self,
        num_bytes: usize,
        field_name: &str,
        validator: F,
    ) -> (r: Result<Vec<u8>, PacketParseError>)
        requires
            8 * num_bytes <= usize::MAX,
            forall|v: &Vec<u8>| call_requires(validator, (v,)),
        ensures
            old(self)@.len() < 8 * num_bytes ==> {
                &&& final(self)@ == old(self)@
                &&& r matches Err(e) && is_buffer_leaf(
                    e,
                    field_name@,
                    BufferError::NotEnoughData {
                        requested: (8 * num_bytes) as usize,
                        bits_left: old(self)@.len() as usize,
                    },
                )
            },
            old(self)@.len() >= 8 * num_bytes ==> {
                &&& final(self)@ == old(self)@.skip(8 * num_bytes as int)
                &&& match r {
                    Ok(v) => v@ == bits_to_bytes(old(self)@.take(8 * num_bytes as int))
                        && (exists|done: Result<(), ValidationError>|
                        done is Ok && #[trigger] call_ensures(validator, (&v,), done)),
                    Err(e) => {
                        &&& e matches PacketParseError::Field { field_name: n, error: c }
                        &&& n@ == field_name@
                        &&& exists|w: Vec<u8>, ve: ValidationError|
                            {
                                &&& w@ == bits_to_bytes(old(self)@.take(8 * num_bytes as int))
                                &&& #[trigger] call_ensures(validator, (&w,), Err(ve))
                                &&& c == ErrorCause::Validation(ve)
                            }
                    },
                }
            },
    {
        let v = match self.read_bytes_field(num_bytes, field_name) {
            Ok(v) => v,
            Err(e) => { return Err(e) },
        };
        let res = validator(&v);
        match res {
            Ok(()) => Ok(v),
            Err(ve) => {
                proof {
                    assert(call_ensures(validator, (&v,), Err(ve)));
                }
                Err(
                    PacketParseError::Field {
                        field_name: field_name.to_owned(),
                        error: ErrorCause::Validation(ve),
                    },
                )
            },
        }
    }
}

} // verus!
