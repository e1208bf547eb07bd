//! Value variants and little-endian helpers.
//!
//! The whole CANopen wire protocol is little-endian; this module confines all
//! byte-order logic so the rest of the library works on typed values.

use vstd::prelude::*;

verus! {

/// The mapped index of an object dictionary entry: the 16-bit index in the
/// upper bits and the 8-bit subindex in the lowest byte, a 24-bit key.
pub fn map_index(index: u16, subindex: u8) -> (r: u32)
    ensures
        r == index * 256 + subindex,
{
    (index as u32) * 256 + (subindex as u32)
}

/// Splitting a fixed-width integer into its low and high halves.
pub trait Split {
    type Output;

    /// The low half of the value.
    fn lo(&self) -> Self::Output;

    /// The high half of the value.
    fn hi(&self) -> Self::Output;

    /// Both halves, high first.
    fn split(&self) -> (Self::Output, Self::Output);
}

impl Split for u16 {
    type Output = u8;

    fn lo(&self) -> (r: u8)
        ensures
            r == *self % 256,
    {
        proof {
            assert(*self as u8 == *self % 256) by (bit_vector);
        }
        *self as u8
    }

    fn hi(&self) -> (r: u8)
        ensures
            r == *self / 256,
    {
        proof {
            assert((*self >> 8) as u8 == *self / 256) by (bit_vector);
        }
        (*self >> 8) as u8
    }

    fn split(&self) -> (r: (u8, u8))
        ensures
            r.0 == *self / 256,
            r.1 == *self % 256,
    {
        (self.hi(), self.lo())
    }
}

impl Split for u32 {
    type Output = u16;

    fn lo(&self) -> (r: u16)
        ensures
            r == *self % 0x1_0000,
    {
        proof {
            assert(*self as u16 == *self % 0x1_0000) by (bit_vector);
        }
        *self as u16
    }

    fn hi(&self) -> (r: u16)
        ensures
            r == *self / 0x1_0000,
    {
        proof {
            assert((*self >> 16) as u16 == *self / 0x1_0000) by (bit_vector);
        }
        (*self >> 16) as u16
    }

    fn split(&self) -> (r: (u16, u16))
        ensures
            r.0 == *self / 0x1_0000,
            r.1 == *self % 0x1_0000,
    {
        (self.hi(), self.lo())
    }
}

impl Split for u64 {
    type Output = u32;

    fn lo(&self) -> (r: u32)
        ensures
            r == *self % 0x1_0000_0000,
    {
        proof {
            assert(*self as u32 == *self % 0x1_0000_0000) by (bit_vector);
        }
        *self as u32
    }

    fn hi(&self) -> (r: u32)
        ensures
            r == *self / 0x1_0000_0000,
    {
        proof {
            assert((*self >> 32) as u32 == *self / 0x1_0000_0000) by (bit_vector);
        }
        (*self >> 32) as u32
    }

    fn split(&self) -> (r: (u32, u32))
        ensures
            r.0 == *self / 0x1_0000_0000,
            r.1 == *self % 0x1_0000_0000,
    {
        (self.hi(), self.lo())
    }
}

} // verus!

verus! {

/// A typed value of an object dictionary entry.
///
/// Numeric variants carry their machine value. `F32` carries the IEEE-754
/// bit pattern of the 32-bit float as a plain integer: the library never
/// computes with the float, it only moves its four little-endian bytes.
/// `S` carries the bytes of a visible string.
#[derive(Debug, Clone, PartialEq)]
pub enum ValueVariant {
    U8(u8),
    U16(u16),
    U32(u32),
    I8(i8),
    I32(i32),
    I16(i16),
    F32(u32),
    S(Vec<u8>),
}

/// The mathematical shape of a value: the same variants with the string
/// bytes as a sequence.
#[verifier::ext_equal]
pub enum ValueView {
    U8(u8),
    U16(u16),
    U32(u32),
    I8(i8),
    I32(i32),
    I16(i16),
    F32(u32),
    S(Seq<u8>),
}

impl View for ValueVariant {
    type V = ValueView;

    open spec fn view(&self) -> ValueView {
        match self {
            ValueVariant::U8(x) => ValueView::U8(*x),
            ValueVariant::U16(x) => ValueView::U16(*x),
            ValueVariant::U32(x) => ValueView::U32(*x),
            ValueVariant::I8(x) => ValueView::I8(*x),
            ValueVariant::I32(x) => ValueView::I32(*x),
            ValueVariant::I16(x) => ValueView::I16(*x),
            ValueVariant::F32(x) => ValueView::F32(*x),
            ValueVariant::S(v) => ValueView::S(v@),
        }
    }
}

/// The type tags a value can declare.
#[derive(Copy, Clone, PartialEq, Eq, Structural, Debug)]
pub enum ValueType {
    Unspecified,
    U8,
    U16,
    U32,
    I8,
    I16,
    I32,
    F32,
    STR,
}

/// The type tag of a value.
pub open spec fn spec_value_type_of(v: ValueView) -> ValueType {
    match v {
        ValueView::U8(_) => ValueType::U8,
        ValueView::U16(_) => ValueType::U16,
        ValueView::U32(_) => ValueType::U32,
        ValueView::I8(_) => ValueType::I8,
        ValueView::I32(_) => ValueType::I32,
        ValueView::I16(_) => ValueType::I16,
        ValueView::F32(_) => ValueType::F32,
        ValueView::S(_) => ValueType::STR,
    }
}

/// Whether two values carry the same type tag.
pub open spec fn spec_same_tag(a: ValueView, b: ValueView) -> bool {
    spec_value_type_of(a) == spec_value_type_of(b)
}

/// The little-endian wire bytes of a value. String values serialise to
/// nothing here: their bytes travel by segmented transfer, not through this
/// codec.
pub open spec fn spec_to_le_bytes(v: ValueView) -> Seq<u8> {
    match v {
        ValueView::U8(x) => seq![x],
        ValueView::I8(x) => seq![x as u8],
        ValueView::U16(x) => seq![(x % 0x100) as u8, (x / 0x100) as u8],
        ValueView::I16(x) => seq![((x as u16) % 0x100) as u8, ((x as u16) / 0x100) as u8],
        ValueView::U32(x) => seq![
            (x % 0x100) as u8,
            ((x / 0x100) % 0x100) as u8,
            ((x / 0x1_0000) % 0x100) as u8,
            (x / 0x100_0000) as u8,
        ],
        ValueView::I32(x) => seq![
            ((x as u32) % 0x100) as u8,
            (((x as u32) / 0x100) % 0x100) as u8,
            (((x as u32) / 0x1_0000) % 0x100) as u8,
            ((x as u32) / 0x100_0000) as u8,
        ],
        ValueView::F32(x) => seq![
            (x % 0x100) as u8,
            ((x / 0x100) % 0x100) as u8,
            ((x / 0x1_0000) % 0x100) as u8,
            (x / 0x100_0000) as u8,
        ],
        ValueView::S(_) => seq![],
    }
}

/// Write four little-endian bytes of a 32-bit value into a vector.
fn push_le_u32(v: &mut Vec<u8>, x: u32)
    ensures
        final(v)@ == old(v)@ + seq![
            (x % 0x100) as u8,
            ((x / 0x100) % 0x100) as u8,
            ((x / 0x1_0000) % 0x100) as u8,
            (x / 0x100_0000) as u8,
        ],
{
    v.push((x % 0x100) as u8);
    v.push(((x / 0x100) % 0x100) as u8);
    v.push(((x / 0x1_0000) % 0x100) as u8);
    v.push((x / 0x100_0000) as u8);
    proof {
        assert(v@ =~= old(v)@ + seq![
            (x % 0x100) as u8,
            ((x / 0x100) % 0x100) as u8,
            ((x / 0x1_0000) % 0x100) as u8,
            (x / 0x100_0000) as u8,
        ]);
    }
}

impl ValueVariant {
    /// The type tag this value declares.
    pub fn value_type(&self) -> (r: ValueType)
        ensures
            r == spec_value_type_of(self@),
    {
        match self {
            ValueVariant::U8(_) => ValueType::U8,
            ValueVariant::U16(_) => ValueType::U16,
            ValueVariant::U32(_) => ValueType::U32,
            ValueVariant::I8(_) => ValueType::I8,
            ValueVariant::I32(_) => ValueType::I32,
            ValueVariant::I16(_) => ValueType::I16,
            ValueVariant::F32(_) => ValueType::F32,
            ValueVariant::S(_) => ValueType::STR,
        }
    }

    /// The little-endian wire bytes of this value. Numeric variants yield
    /// their width in bytes; string values yield nothing (their bytes are
    /// framed by segmented transfer instead).
    pub fn to_little_endian_buffer(&self) -> (r: Vec<u8>)
        ensures
            r@ == spec_to_le_bytes(self@),
    {
        let mut v: Vec<u8> = Vec::new();
        match self {
            ValueVariant::U8(x) => {
                v.push(*x);
            },
            ValueVariant::I8(x) => {
                v.push(*x as u8);
            },
            ValueVariant::U16(x) => {
                v.push((*x % 0x100) as u8);
                v.push((*x / 0x100) as u8);
            },
            ValueVariant::I16(x) => {
                let u = *x as u16;
                v.push((u % 0x100) as u8);
                v.push((u / 0x100) as u8);
            },
            ValueVariant::U32(x) => {
                push_le_u32(&mut v, *x);
            },
            ValueVariant::I32(x) => {
                push_le_u32(&mut v, *x as u32);
            },
            ValueVariant::F32(x) => {
                push_le_u32(&mut v, *x);
            },
            ValueVariant::S(_) => {},
        }
        proof {
            assert(v@ =~= spec_to_le_bytes(self@));
        }
        v
    }
}

/// The value denoted by a buffer read under a type tag: numeric tags demand
/// exactly their width in little-endian bytes, the string tag takes the
/// bytes verbatim, and the unspecified tag denotes nothing.
pub open spec fn spec_parse_buffer_as(t: ValueType, d: Seq<u8>) -> Option<ValueView> {
    match t {
        ValueType::U8 => if d.len() == 1 {
            Some(ValueView::U8(d[0]))
        } else {
            None
        },
        ValueType::I8 => if d.len() == 1 {
            Some(ValueView::I8(d[0] as i8))
        } else {
            None
        },
        ValueType::U16 => if d.len() == 2 {
            Some(ValueView::U16((d[0] + d[1] * 0x100) as u16))
        } else {
            None
        },
        ValueType::I16 => if d.len() == 2 {
            Some(ValueView::I16(((d[0] + d[1] * 0x100) as u16) as i16))
        } else {
            None
        },
        ValueType::U32 => if d.len() == 4 {
            Some(ValueView::U32((d[0] + d[1] * 0x100 + d[2] * 0x1_0000 + d[3] * 0x100_0000) as u32))
        } else {
            None
        },
        ValueType::I32 => if d.len() == 4 {
            Some(
                ValueView::I32(
                    ((d[0] + d[1] * 0x100 + d[2] * 0x1_0000 + d[3] * 0x100_0000) as u32) as i32,
                ),
            )
        } else {
            None
        },
        ValueType::F32 => if d.len() == 4 {
            Some(ValueView::F32((d[0] + d[1] * 0x100 + d[2] * 0x1_0000 + d[3] * 0x100_0000) as u32))
        } else {
            None
        },
        ValueType::STR => Some(ValueView::S(d)),
        ValueType::Unspecified => None,
    }
}

/// Read a buffer as a value of the declared type.
///
/// Numeric types demand exactly their width in bytes and read them little
/// endian; the string type takes the bytes verbatim; any other length, and
/// the unspecified type, fail with `InvalidNumberType` naming the type.
pub fn parse_buffer_as(value_type: ValueType, data: &[u8]) -> (r: Result<
    ValueVariant,
    crate::CanOpenError,
>)
    ensures
        r is Ok <==> spec_parse_buffer_as(value_type, data@) is Some,
        r matches Ok(v) ==> spec_parse_buffer_as(value_type, data@) == Some(v@),
        r matches Err(e) ==> e is InvalidNumberType,
{
    match value_type {
        ValueType::U8 => {
            if data.len() == 1 {
                Ok(ValueVariant::U8(data[0]))
            } else {
                Err(crate::CanOpenError::InvalidNumberType { number_type: u8_name() })
            }
        },
        ValueType::I8 => {
            if data.len() == 1 {
                Ok(ValueVariant::I8(data[0] as i8))
            } else {
                Err(crate::CanOpenError::InvalidNumberType { number_type: i8_name() })
            }
        },
        ValueType::U16 => {
            if data.len() == 2 {
                Ok(ValueVariant::U16(data[0] as u16 + data[1] as u16 * 0x100))
            } else {
                Err(crate::CanOpenError::InvalidNumberType { number_type: u16_name() })
            }
        },
        ValueType::I16 => {
            if data.len() == 2 {
                Ok(ValueVariant::I16((data[0] as u16 + data[1] as u16 * 0x100) as i16))
            } else {
                Err(crate::CanOpenError::InvalidNumberType { number_type: i16_name() })
            }
        },
        ValueType::U32 => {
            if data.len() == 4 {
                Ok(ValueVariant::U32(le_u32(data[0], data[1], data[2], data[3])))
            } else {
                Err(crate::CanOpenError::InvalidNumberType { number_type: u32_name() })
            }
        },
        ValueType::I32 => {
            if data.len() == 4 {
                Ok(ValueVariant::I32(le_u32(data[0], data[1], data[2], data[3]) as i32))
            } else {
                Err(crate::CanOpenError::InvalidNumberType { number_type: i32_name() })
            }
        },
        ValueType::F32 => {
            if data.len() == 4 {
                Ok(ValueVariant::F32(le_u32(data[0], data[1], data[2], data[3])))
            } else {
                Err(crate::CanOpenError::InvalidNumberType { number_type: f32_name() })
            }
        },
        ValueType::STR => {
            let mut v: Vec<u8> = Vec::new();
            let mut i: usize = 0;
            while i < data.len()
                invariant
                    i <= data@.len(),
                    v@ == data@.take(i as int),
                decreases data@.len() - i,
            {
                v.push(data[i]);
                proof {
                    assert(v@ =~= data@.take(i + 1 as int));
                }
                i += 1;
            }
            proof {
                assert(v@ =~= data@);
            }
            Ok(ValueVariant::S(v))
        },
        ValueType::Unspecified => Err(
            crate::CanOpenError::InvalidNumberType { number_type: none_name() },
        ),
    }
}

/// Assemble a 32-bit value from four little-endian bytes.
fn le_u32(b0: u8, b1: u8, b2: u8, b3: u8) -> (r: u32)
    ensures
        r == b0 + b1 * 0x100 + b2 * 0x1_0000 + b3 * 0x100_0000,
{
    b0 as u32 + b1 as u32 * 0x100 + b2 as u32 * 0x1_0000 + b3 as u32 * 0x100_0000
}

/// The name of the 8-bit unsigned type, for error reports.
fn u8_name() -> String {
    "u8".to_string()
}

/// The name of the 8-bit signed type, for error reports.
fn i8_name() -> String {
    "i8".to_string()
}

/// The name of the 16-bit unsigned type, for error reports.
fn u16_name() -> String {
    "u16".to_string()
}

/// The name of the 16-bit signed type, for error reports.
fn i16_name() -> String {
    "i16".to_string()
}

/// The name of the 32-bit unsigned type, for error reports.
fn u32_name() -> String {
    "u32".to_string()
}

/// The name of the 32-bit signed type, for error reports.
fn i32_name() -> String {
    "i32".to_string()
}

/// The name of the 32-bit float type, for error reports.
fn f32_name() -> String {
    "f32".to_string()
}

/// The name of the unspecified type, for error reports.
fn none_name() -> String {
    "None".to_string()
}

/// Reading the little-endian bytes of a numeric value under its own type
/// tag yields the value again.
pub proof fn lemma_value_le_round_trip(v: ValueView)
    requires
        !(v is S),
    ensures
        spec_parse_buffer_as(spec_value_type_of(v), spec_to_le_bytes(v)) == Some(v),
{
    match v {
        ValueView::U8(x) => {},
        ValueView::I8(x) => {
            assert((x as u8) as i8 == x) by (bit_vector);
        },
        ValueView::U16(x) => {
            assert((x % 0x100) + (x / 0x100) * 0x100 == x) by (bit_vector);
        },
        ValueView::I16(x) => {
            let u = x as u16;
            assert((u % 0x100) + (u / 0x100) * 0x100 == u) by (bit_vector);
            assert((x as u16) as i16 == x) by (bit_vector);
        },
        ValueView::U32(x) => {
            assert((x % 0x100) + ((x / 0x100) % 0x100) * 0x100 + ((x / 0x1_0000) % 0x100) * 0x1_0000
                + (x / 0x100_0000) * 0x100_0000 == x) by (bit_vector);
        },
        ValueView::I32(x) => {
            let u = x as u32;
            assert((u % 0x100) + ((u / 0x100) % 0x100) * 0x100 + ((u / 0x1_0000) % 0x100) * 0x1_0000
                + (u / 0x100_0000) * 0x100_0000 == u) by (bit_vector);
            assert((x as u32) as i32 == x) by (bit_vector);
        },
        ValueView::F32(x) => {
            assert((x % 0x100) + ((x / 0x100) % 0x100) * 0x100 + ((x / 0x1_0000) % 0x100) * 0x1_0000
                + (x / 0x100_0000) * 0x100_0000 == x) by (bit_vector);
        },
        ValueView::S(_) => {},
    }
}

} // verus!

verus! {

impl Split for i16 {
    type Output = u8;

    fn lo(&self) -> (r: u8)
        ensures
            r == (*self as u16) % 0x100,
    {
        proof {
            let x = *self;
            assert(x as u8 == (x as u16) % 0x100) by (bit_vector);
        }
        *self as u8
    }

    fn hi(&self) -> (r: u8)
        ensures
            r == (*self as u16) / 0x100,
    {
        proof {
            let x = *self;
            assert((x >> 8) as u8 == (x as u16) / 0x100) by (bit_vector);
        }
        (*self >> 8) as u8
    }

    fn split(&self) -> (r: (u8, u8))
        ensures
            r.0 == (*self as u16) / 0x100,
            r.1 == (*self as u16) % 0x100,
    {
        (self.hi(), self.lo())
    }
}

impl Split for i32 {
    type Output = u16;

    fn lo(&self) -> (r: u16)
        ensures
            r == (*self as u32) % 0x1_0000,
    {
        proof {
            let x = *self;
            assert(x as u16 == (x as u32) % 0x1_0000) by (bit_vector);
        }
        *self as u16
    }

    fn hi(&self) -> (r: u16)
        ensures
            r == (*self as u32) / 0x1_0000,
    {
        proof {
            let x = *self;
            assert((x >> 16) as u16 == (x as u32) / 0x1_0000) by (bit_vector);
        }
        (*self >> 16) as u16
    }

    fn split(&self) -> (r: (u16, u16))
        ensures
            r.0 == (*self as u32) / 0x1_0000,
            r.1 == (*self as u32) % 0x1_0000,
    {
        (self.hi(), self.lo())
    }
}

impl Split for i64 {
    type Output = u32;

    fn lo(&self) -> (r: u32)
        ensures
            r == (*self as u64) % 0x1_0000_0000,
    {
        proof {
            let x = *self;
            assert(x as u32 == (x as u64) % 0x1_0000_0000) by (bit_vector);
        }
        *self as u32
    }

    fn hi(&self) -> (r: u32)
        ensures
            r == (*self as u64) / 0x1_0000_0000,
    {
        proof {
            let x = *self;
            assert((x >> 32) as u32 == (x as u64) / 0x1_0000_0000) by (bit_vector);
        }
        (*self >> 32) as u32
    }

    fn split(&self) -> (r: (u32, u32))
        ensures
            r.0 == (*self as u64) / 0x1_0000_0000,
            r.1 == (*self as u64) % 0x1_0000_0000,
    {
        (self.hi(), self.lo())
    }
}

} // verus!
