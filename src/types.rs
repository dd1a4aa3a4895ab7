use vstd::prelude::*;

verus! {

/// The concrete types that evaluation works on.
#[derive(Clone, Copy, Debug, PartialEq, Eq, Structural)]
pub enum EvalType {
    Int,
    Real,
    Decimal,
    Bytes,
    DateTime,
    Duration,
    Json,
}

/// Integer values.
pub type Int = i64;

/// Byte string values.
pub type Bytes = Vec<u8>;

/// Borrowed byte string values.
pub type BytesRef<'a> = &'a [u8];

/// The view of an optional value.
pub open spec fn opt_view<T: View>(o: Option<T>) -> Option<T::V> {
    match o {
        Some(v) => Some(v@),
        None => None,
    }
}

/// Copies a byte slice into a fresh vector.
pub fn copy_bytes(src: &[u8]) -> (r: Vec<u8>)
    ensures
        r@ == src@,
{
    let mut r: Vec<u8> = Vec::with_capacity(src.len());
    let mut i: usize = 0;
    while i < src.len()
        invariant
            i <= src@.len(),
            r@ == src@.subrange(0, i as int),
        decreases src@.len() - i,
    {
        r.push(src[i]);
        i = i + 1;
        assert(r@ =~= src@.subrange(0, i as int));
    }
    assert(r@ =~= src@);
    r
}

/// The sign bit of an IEEE 754 binary64 pattern.
pub const SIGN_MASK: u64 = 0x8000_0000_0000_0000;

/// The exponent field of an IEEE 754 binary64 pattern.
pub const EXPONENT_MASK: u64 = 0x7ff0_0000_0000_0000;

/// The fraction field of an IEEE 754 binary64 pattern.
pub const FRACTION_MASK: u64 = 0x000f_ffff_ffff_ffff;

/// Whether a binary64 pattern encodes NaN: all exponent bits set, fraction not zero.
pub open spec fn is_nan_bits(bits: u64) -> bool {
    bits & EXPONENT_MASK == EXPONENT_MASK && bits & FRACTION_MASK != 0
}

/// Whether a binary64 pattern encodes zero of either sign.
pub open spec fn is_zero_bits(bits: u64) -> bool {
    bits & !SIGN_MASK == 0
}

/// Returned when a real is built from a NaN pattern.
#[derive(Clone, Copy, Debug, PartialEq, Eq, Structural)]
pub struct FloatIsNan;

/// A real value, held as the IEEE 754 binary64 pattern of a number that is
/// never NaN.
#[derive(Clone, Copy, Debug, PartialEq, Eq, Structural)]
pub struct Real {
    bits: u64,
}

impl View for Real {
    type V = Real;

    open spec fn view(&self) -> Real {
        *self
    }
}

impl Real {
    pub closed spec fn spec_bits(self) -> u64 {
        self.bits
    }

    #[verifier::type_invariant]
    spec fn not_nan(self) -> bool {
        !is_nan_bits(self.bits)
    }

    /// Builds a real from a binary64 pattern; NaN patterns are refused.
    pub fn new(bits: u64) -> (r: Result<Real, FloatIsNan>)
        ensures
            is_nan_bits(bits) <==> r.is_err(),
            r matches Ok(x) ==> x.spec_bits() == bits,
    {
        if bits & EXPONENT_MASK == EXPONENT_MASK && bits & FRACTION_MASK != 0 {
            Err(FloatIsNan)
        } else {
            Ok(Real { bits })
        }
    }

    /// The pattern held, which is never NaN.
    pub fn to_bits(&self) -> (r: u64)
        ensures
            r == self.spec_bits(),
            !is_nan_bits(r),
    {
        proof {
            use_type_invariant(self);
        }
        self.bits
    }

    /// Whether two reals are equal as numbers: the same pattern, or zeros
    /// of either sign.
    pub open spec fn spec_same(self, other: Real) -> bool {
        self.spec_bits() == other.spec_bits() || (is_zero_bits(self.spec_bits())
            && is_zero_bits(other.spec_bits()))
    }

    pub fn same_as(&self, other: &Real) -> (r: bool)
        ensures
            r == self.spec_same(*other),
    {
        self.bits == other.bits || (self.is_zero() && other.is_zero())
    }

    pub fn is_zero(&self) -> (r: bool)
        ensures
            r == is_zero_bits(self.spec_bits()),
    {
        self.bits & !SIGN_MASK == 0
    }
}

impl Default for Real {
    fn default() -> (r: Real)
        ensures
            r.spec_bits() == 0,
    {
        assert(0u64 & 0x7ff0_0000_0000_0000u64 == 0) by (bit_vector);
        Real { bits: 0 }
    }
}

/// A decimal value, carried in its packed fixed-size encoding.
#[derive(Clone, Copy, Debug, PartialEq, Eq, Structural)]
pub struct Decimal {
    pub packed: u128,
}

impl View for Decimal {
    type V = Decimal;

    open spec fn view(&self) -> Decimal {
        *self
    }
}

impl Default for Decimal {
    fn default() -> (r: Decimal)
        ensures
            r.packed == 0,
    {
        Decimal { packed: 0 }
    }
}

/// A date and time value, carried in its packed encoding.
#[derive(Clone, Copy, Debug, PartialEq, Eq, Structural)]
pub struct DateTime {
    pub packed: u64,
}

impl View for DateTime {
    type V = DateTime;

    open spec fn view(&self) -> DateTime {
        *self
    }
}

impl Default for DateTime {
    fn default() -> (r: DateTime)
        ensures
            r.packed == 0,
    {
        DateTime { packed: 0 }
    }
}

/// A duration value, in nanoseconds, with its fractional-second precision.
#[derive(Clone, Copy, Debug, PartialEq, Eq, Structural)]
pub struct Duration {
    pub nanos: i64,
    pub fsp: u8,
}

impl View for Duration {
    type V = Duration;

    open spec fn view(&self) -> Duration {
        *self
    }
}

impl Default for Duration {
    fn default() -> (r: Duration)
        ensures
            r.nanos == 0 && r.fsp == 0,
    {
        Duration { nanos: 0, fsp: 0 }
    }
}

/// A JSON value in its binary encoding: a type code and the encoded payload.
#[derive(Clone, Debug)]
pub struct Json {
    pub type_code: u8,
    pub value: Vec<u8>,
}

impl View for Json {
    type V = (u8, Seq<u8>);

    open spec fn view(&self) -> (u8, Seq<u8>) {
        (self.type_code, self.value@)
    }
}

impl Json {
    pub fn as_ref(&self) -> (r: JsonRef<'_>)
        ensures
            r@ == self@,
    {
        JsonRef { type_code: self.type_code, value: self.value.as_slice() }
    }
}

/// A borrowed JSON value in its binary encoding.
#[derive(Clone, Copy, Debug)]
pub struct JsonRef<'a> {
    pub type_code: u8,
    pub value: &'a [u8],
}

impl<'a> View for JsonRef<'a> {
    type V = (u8, Seq<u8>);

    open spec fn view(&self) -> (u8, Seq<u8>) {
        (self.type_code, self.value@)
    }
}

impl<'a> JsonRef<'a> {
    pub fn new(type_code: u8, value: &'a [u8]) -> (r: JsonRef<'a>)
        ensures
            r@ == (type_code, value@),
    {
        JsonRef { type_code, value }
    }

    pub fn to_owned(&self) -> (r: Json)
        ensures
            r@ == self@,
    {
        Json { type_code: self.type_code, value: copy_bytes(self.value) }
    }
}

} // verus!
