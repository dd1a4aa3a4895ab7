use vstd::prelude::*;

use crate::bit_vec::BitVec;
use crate::chunked_vec_bytes::ChunkedVecBytes;
use crate::chunked_vec_json::ChunkedVecJson;
use crate::chunked_vec_sized::ChunkedVecSized;
use crate::presence;
use crate::scalar::{ScalarValue, ScalarValueRef};
use crate::types::{opt_view, Bytes, BytesRef, DateTime, Decimal, Duration, EvalType, Int, Json, JsonRef, Real};
use crate::vector::VectorValue;
use crate::ChunkedVec;

verus! {

/// A fixed-size evaluation type that can be borrowed out of the scalar and
/// column unions. Asking for a type other than the one the union holds is a
/// contract violation.
pub trait Evaluable: Sized + View {
    spec fn spec_eval_type() -> EvalType;

    /// What a scalar of this type holds.
    spec fn scalar_payload(v: ScalarValue) -> Option<Self::V>;

    /// What a borrowed scalar of this type holds.
    spec fn scalar_ref_payload(v: ScalarValueRef<'_>) -> Option<Self::V>;

    /// The rows of a column of this type.
    spec fn column_rows(v: VectorValue) -> Seq<Option<Self::V>>;

    fn eval_type() -> (r: EvalType)
        ensures
            r == Self::spec_eval_type(),
    ;

    fn borrow_scalar_value(v: &ScalarValue) -> (r: Option<&Self>)
        requires
            v.spec_eval_type() == Self::spec_eval_type(),
        ensures
            opt_view(r) == Self::scalar_payload(*v),
    ;

    fn borrow_scalar_value_ref<'a>(v: ScalarValueRef<'a>) -> (r: Option<&'a Self>)
        requires
            v.spec_eval_type() == Self::spec_eval_type(),
        ensures
            opt_view(r) == Self::scalar_ref_payload(v),
    ;

    fn borrow_vector_value(v: &VectorValue) -> (r: &ChunkedVecSized<Self>)
        requires
            v.wf(),
            v.spec_eval_type() == Self::spec_eval_type(),
        ensures
            r.wf(),
            r@ == Self::column_rows(*v),
    ;

    /// Whether two values are equal as values of this type.
    spec fn spec_same(a: Self::V, b: Self::V) -> bool;

    /// Whether two values are equal.
    fn same_value(&self, other: &Self) -> (r: bool)
        ensures
            r == Self::spec_same(self@, other@),
    ;
}

impl Evaluable for Int {
    open spec fn spec_eval_type() -> EvalType {
        EvalType::Int
    }

    open spec fn scalar_payload(v: ScalarValue) -> Option<Int> {
        match v {
            ScalarValue::Int(x) => x,
            _ => None,
        }
    }

    open spec fn scalar_ref_payload(v: ScalarValueRef<'_>) -> Option<Int> {
        match v {
            ScalarValueRef::Int(x) => opt_view(x),
            _ => None,
        }
    }

    open spec fn column_rows(v: VectorValue) -> Seq<Option<Int>> {
        match v {
            VectorValue::Int(c) => c@,
            _ => Seq::empty(),
        }
    }

    fn eval_type() -> (r: EvalType) {
        EvalType::Int
    }

    fn borrow_scalar_value(v: &ScalarValue) -> (r: Option<&Int>) {
        match v {
            ScalarValue::Int(x) => x.as_ref(),
            _ => vstd::pervasive::unreached(),
        }
    }

    fn borrow_scalar_value_ref<'a>(v: ScalarValueRef<'a>) -> (r: Option<&'a Int>) {
        match v {
            ScalarValueRef::Int(x) => x,
            _ => vstd::pervasive::unreached(),
        }
    }

    fn borrow_vector_value(v: &VectorValue) -> (r: &ChunkedVecSized<Int>) {
        match v {
            VectorValue::Int(x) => x,
            _ => vstd::pervasive::unreached(),
        }
    }

    open spec fn spec_same(a: Int, b: Int) -> bool {
        a == b
    }

    fn same_value(&self, other: &Int) -> (r: bool) {
        *self == *other
    }
}

impl Evaluable for Real {
    open spec fn spec_eval_type() -> EvalType {
        EvalType::Real
    }

    open spec fn scalar_payload(v: ScalarValue) -> Option<Real> {
        match v {
            ScalarValue::Real(x) => x,
            _ => None,
        }
    }

    open spec fn scalar_ref_payload(v: ScalarValueRef<'_>) -> Option<Real> {
        match v {
            ScalarValueRef::Real(x) => opt_view(x),
            _ => None,
        }
    }

    open spec fn column_rows(v: VectorValue) -> Seq<Option<Real>> {
        match v {
            VectorValue::Real(c) => c@,
            _ => Seq::empty(),
        }
    }

    fn eval_type() -> (r: EvalType) {
        EvalType::Real
    }

    fn borrow_scalar_value(v: &ScalarValue) -> (r: Option<&Real>) {
        match v {
            ScalarValue::Real(x) => x.as_ref(),
            _ => vstd::pervasive::unreached(),
        }
    }

    fn borrow_scalar_value_ref<'a>(v: ScalarValueRef<'a>) -> (r: Option<&'a Real>) {
        match v {
            ScalarValueRef::Real(x) => x,
            _ => vstd::pervasive::unreached(),
        }
    }

    fn borrow_vector_value(v: &VectorValue) -> (r: &ChunkedVecSized<Real>) {
        match v {
            VectorValue::Real(x) => x,
            _ => vstd::pervasive::unreached(),
        }
    }

    open spec fn spec_same(a: Real, b: Real) -> bool {
        a.spec_same(b)
    }

    fn same_value(&self, other: &Real) -> (r: bool) {
        self.same_as(other)
    }
}

impl Evaluable for Decimal {
    open spec fn spec_eval_type() -> EvalType {
        EvalType::Decimal
    }

    open spec fn scalar_payload(v: ScalarValue) -> Option<Decimal> {
        match v {
            ScalarValue::Decimal(x) => x,
            _ => None,
        }
    }

    open spec fn scalar_ref_payload(v: ScalarValueRef<'_>) -> Option<Decimal> {
        match v {
            ScalarValueRef::Decimal(x) => opt_view(x),
            _ => None,
        }
    }

    open spec fn column_rows(v: VectorValue) -> Seq<Option<Decimal>> {
        match v {
            VectorValue::Decimal(c) => c@,
            _ => Seq::empty(),
        }
    }

    fn eval_type() -> (r: EvalType) {
        EvalType::Decimal
    }

    fn borrow_scalar_value(v: &ScalarValue) -> (r: Option<&Decimal>) {
        match v {
            ScalarValue::Decimal(x) => x.as_ref(),
            _ => vstd::pervasive::unreached(),
        }
    }

    fn borrow_scalar_value_ref<'a>(v: ScalarValueRef<'a>) -> (r: Option<&'a Decimal>) {
        match v {
            ScalarValueRef::Decimal(x) => x,
            _ => vstd::pervasive::unreached(),
        }
    }

    fn borrow_vector_value(v: &VectorValue) -> (r: &ChunkedVecSized<Decimal>) {
        match v {
            VectorValue::Decimal(x) => x,
            _ => vstd::pervasive::unreached(),
        }
    }

    open spec fn spec_same(a: Decimal, b: Decimal) -> bool {
        a == b
    }

    fn same_value(&self, other: &Decimal) -> (r: bool) {
        self.packed == other.packed
    }
}

impl Evaluable for DateTime {
    open spec fn spec_eval_type() -> EvalType {
        EvalType::DateTime
    }

    open spec fn scalar_payload(v: ScalarValue) -> Option<DateTime> {
        match v {
            ScalarValue::DateTime(x) => x,
            _ => None,
        }
    }

    open spec fn scalar_ref_payload(v: ScalarValueRef<'_>) -> Option<DateTime> {
        match v {
            ScalarValueRef::DateTime(x) => opt_view(x),
            _ => None,
        }
    }

    open spec fn column_rows(v: VectorValue) -> Seq<Option<DateTime>> {
        match v {
            VectorValue::DateTime(c) => c@,
            _ => Seq::empty(),
        }
    }

    fn eval_type() -> (r: EvalType) {
        EvalType::DateTime
    }

    fn borrow_scalar_value(v: &ScalarValue) -> (r: Option<&DateTime>) {
        match v {
            ScalarValue::DateTime(x) => x.as_ref(),
            _ => vstd::pervasive::unreached(),
        }
    }

    fn borrow_scalar_value_ref<'a>(v: ScalarValueRef<'a>) -> (r: Option<&'a DateTime>) {
        match v {
            ScalarValueRef::DateTime(x) => x,
            _ => vstd::pervasive::unreached(),
        }
    }

    fn borrow_vector_value(v: &VectorValue) -> (r: &ChunkedVecSized<DateTime>) {
        match v {
            VectorValue::DateTime(x) => x,
            _ => vstd::pervasive::unreached(),
        }
    }

    open spec fn spec_same(a: DateTime, b: DateTime) -> bool {
        a == b
    }

    fn same_value(&self, other: &DateTime) -> (r: bool) {
        self.packed == other.packed
    }
}

impl Evaluable for Duration {
    open spec fn spec_eval_type() -> EvalType {
        EvalType::Duration
    }

    open spec fn scalar_payload(v: ScalarValue) -> Option<Duration> {
        match v {
            ScalarValue::Duration(x) => x,
            _ => None,
        }
    }

    open spec fn scalar_ref_payload(v: ScalarValueRef<'_>) -> Option<Duration> {
        match v {
            ScalarValueRef::Duration(x) => opt_view(x),
            _ => None,
        }
    }

    open spec fn column_rows(v: VectorValue) -> Seq<Option<Duration>> {
        match v {
            VectorValue::Duration(c) => c@,
            _ => Seq::empty(),
        }
    }

    fn eval_type() -> (r: EvalType) {
        EvalType::Duration
    }

    fn borrow_scalar_value(v: &ScalarValue) -> (r: Option<&Duration>) {
        match v {
            ScalarValue::Duration(x) => x.as_ref(),
            _ => vstd::pervasive::unreached(),
        }
    }

    fn borrow_scalar_value_ref<'a>(v: ScalarValueRef<'a>) -> (r: Option<&'a Duration>) {
        match v {
            ScalarValueRef::Duration(x) => x,
            _ => vstd::pervasive::unreached(),
        }
    }

    fn borrow_vector_value(v: &VectorValue) -> (r: &ChunkedVecSized<Duration>) {
        match v {
            VectorValue::Duration(x) => x,
            _ => vstd::pervasive::unreached(),
        }
    }

    open spec fn spec_same(a: Duration, b: Duration) -> bool {
        a == b
    }

    fn same_value(&self, other: &Duration) -> (r: bool) {
        self.nanos == other.nanos && self.fsp == other.fsp
    }
}

/// A type that evaluation can produce a column of.
pub trait EvaluableRet: Sized + View {
    /// The column type that collects results of this type.
    type ChunkedType: ChunkedVec<Self>;

    spec fn spec_ret_eval_type() -> EvalType;

    /// The rows of a column of this type.
    spec fn ret_rows(v: VectorValue) -> Seq<Option<Self::V>>;

    fn ret_eval_type() -> (r: EvalType)
        ensures
            r == Self::spec_ret_eval_type(),
    ;

    /// Wraps a finished column into the column union.
    fn into_vector_value(vec: Self::ChunkedType) -> (r: VectorValue)
        requires
            vec.chunked_wf(),
        ensures
            r.wf(),
            r.spec_eval_type() == Self::spec_ret_eval_type(),
            Self::ret_rows(r) == vec.chunked_view(),
    ;
}

impl EvaluableRet for Int {
    type ChunkedType = ChunkedVecSized<Int>;

    open spec fn spec_ret_eval_type() -> EvalType {
        EvalType::Int
    }

    open spec fn ret_rows(v: VectorValue) -> Seq<Option<<Int as View>::V>> {
        match v {
            VectorValue::Int(c) => c@,
            _ => Seq::empty(),
        }
    }

    fn ret_eval_type() -> (r: EvalType) {
        EvalType::Int
    }

    fn into_vector_value(vec: ChunkedVecSized<Int>) -> (r: VectorValue) {
        VectorValue::Int(vec)
    }
}

impl EvaluableRet for Real {
    type ChunkedType = ChunkedVecSized<Real>;

    open spec fn spec_ret_eval_type() -> EvalType {
        EvalType::Real
    }

    open spec fn ret_rows(v: VectorValue) -> Seq<Option<<Real as View>::V>> {
        match v {
            VectorValue::Real(c) => c@,
            _ => Seq::empty(),
        }
    }

    fn ret_eval_type() -> (r: EvalType) {
        EvalType::Real
    }

    fn into_vector_value(vec: ChunkedVecSized<Real>) -> (r: VectorValue) {
        assert(vec.chunked_wf() == vec.wf());
        VectorValue::Real(vec)
    }
}

impl EvaluableRet for Decimal {
    type ChunkedType = ChunkedVecSized<Decimal>;

    open spec fn spec_ret_eval_type() -> EvalType {
        EvalType::Decimal
    }

    open spec fn ret_rows(v: VectorValue) -> Seq<Option<<Decimal as View>::V>> {
        match v {
            VectorValue::Decimal(c) => c@,
            _ => Seq::empty(),
        }
    }

    fn ret_eval_type() -> (r: EvalType) {
        EvalType::Decimal
    }

    fn into_vector_value(vec: ChunkedVecSized<Decimal>) -> (r: VectorValue) {
        assert(vec.chunked_wf() == vec.wf());
        VectorValue::Decimal(vec)
    }
}

impl EvaluableRet for Bytes {
    type ChunkedType = ChunkedVecBytes;

    open spec fn spec_ret_eval_type() -> EvalType {
        EvalType::Bytes
    }

    open spec fn ret_rows(v: VectorValue) -> Seq<Option<<Bytes as View>::V>> {
        match v {
            VectorValue::Bytes(c) => c@,
            _ => Seq::empty(),
        }
    }

    fn ret_eval_type() -> (r: EvalType) {
        EvalType::Bytes
    }

    fn into_vector_value(vec: ChunkedVecBytes) -> (r: VectorValue) {
        VectorValue::Bytes(vec)
    }
}

impl EvaluableRet for DateTime {
    type ChunkedType = ChunkedVecSized<DateTime>;

    open spec fn spec_ret_eval_type() -> EvalType {
        EvalType::DateTime
    }

    open spec fn ret_rows(v: VectorValue) -> Seq<Option<<DateTime as View>::V>> {
        match v {
            VectorValue::DateTime(c) => c@,
            _ => Seq::empty(),
        }
    }

    fn ret_eval_type() -> (r: EvalType) {
        EvalType::DateTime
    }

    fn into_vector_value(vec: ChunkedVecSized<DateTime>) -> (r: VectorValue) {
        assert(vec.chunked_wf() == vec.wf());
        VectorValue::DateTime(vec)
    }
}

impl EvaluableRet for Duration {
    type ChunkedType = ChunkedVecSized<Duration>;

    open spec fn spec_ret_eval_type() -> EvalType {
        EvalType::Duration
    }

    open spec fn ret_rows(v: VectorValue) -> Seq<Option<<Duration as View>::V>> {
        match v {
            VectorValue::Duration(c) => c@,
            _ => Seq::empty(),
        }
    }

    fn ret_eval_type() -> (r: EvalType) {
        EvalType::Duration
    }

    fn into_vector_value(vec: ChunkedVecSized<Duration>) -> (r: VectorValue) {
        assert(vec.chunked_wf() == vec.wf());
        VectorValue::Duration(vec)
    }
}

impl EvaluableRet for Json {
    type ChunkedType = ChunkedVecJson;

    open spec fn spec_ret_eval_type() -> EvalType {
        EvalType::Json
    }

    open spec fn ret_rows(v: VectorValue) -> Seq<Option<<Json as View>::V>> {
        match v {
            VectorValue::Json(c) => c@,
            _ => Seq::empty(),
        }
    }

    fn ret_eval_type() -> (r: EvalType) {
        EvalType::Json
    }

    fn into_vector_value(vec: ChunkedVecJson) -> (r: VectorValue) {
        VectorValue::Json(vec)
    }
}

/// A borrowed column of one evaluation type, read row by row whatever its layout.
pub trait ChunkRef<'a, T: View>: Sized + Copy {
    spec fn chunk_wf(self) -> bool;

    /// The rows, in order; `None` marks an absent row.
    spec fn chunk_view(self) -> Seq<Option<T::V>>;

    fn get_option_ref(self, idx: usize) -> (r: Option<T>)
        requires
            self.chunk_wf(),
            idx < self.chunk_view().len(),
        ensures
            opt_view(r) == self.chunk_view()[idx as int],
    ;

    fn get_bit_vec(self) -> (r: &'a BitVec)
        requires
            self.chunk_wf(),
        ensures
            r.wf(),
            r@ == presence(self.chunk_view()),
    ;

    /// An absent value of the row type, to name that type where no row is at hand.
    fn phantom_data(self) -> (r: Option<T>)
        ensures
            r is None,
    ;
}

/// A borrowed evaluation value: fixed-size values borrow by reference, byte
/// strings and JSON values have borrowed forms of their own. Asking for a type
/// other than the one a union holds is a contract violation.
pub trait EvaluableRef<'a>: Sized + View + Copy {
    type ChunkedType: ChunkRef<'a, Self> + 'a;

    /// The owned form of this value.
    type EvaluableType: EvaluableRet;

    spec fn spec_eval_type() -> EvalType;

    /// What a scalar of this type holds.
    spec fn scalar_payload(v: ScalarValue) -> Option<Self::V>;

    /// What a borrowed scalar of this type holds.
    spec fn scalar_ref_payload(v: ScalarValueRef<'a>) -> Option<Self::V>;

    /// The rows of a column of this type.
    spec fn column_rows(v: VectorValue) -> Seq<Option<Self::V>>;

    /// How an owned value reads once borrowed.
    spec fn owned_view(o: Self::EvaluableType) -> Self::V;

    fn eval_type() -> (r: EvalType)
        ensures
            r == Self::spec_eval_type(),
    ;

    fn borrow_scalar_value(v: &'a ScalarValue) -> (r: Option<Self>)
        requires
            v.spec_eval_type() == Self::spec_eval_type(),
        ensures
            opt_view(r) == Self::scalar_payload(*v),
    ;

    fn borrow_scalar_value_ref(v: ScalarValueRef<'a>) -> (r: Option<Self>)
        requires
            v.spec_eval_type() == Self::spec_eval_type(),
        ensures
            opt_view(r) == Self::scalar_ref_payload(v),
    ;

    fn borrow_vector_value(v: &'a VectorValue) -> (r: Self::ChunkedType)
        requires
            v.wf(),
            v.spec_eval_type() == Self::spec_eval_type(),
        ensures
            r.chunk_wf(),
            r.chunk_view() == Self::column_rows(*v),
    ;

    /// Copies the value into its owned form.
    fn to_owned_value(self) -> (r: Self::EvaluableType)
        ensures
            Self::owned_view(r) == self@,
    ;

    /// Borrows an owned value.
    fn from_owned_value(value: &'a Self::EvaluableType) -> (r: Self)
        ensures
            r@ == Self::owned_view(*value),
    ;
}

impl<'a, T: Evaluable + EvaluableRet + Copy + 'a> ChunkRef<'a, &'a T> for &'a ChunkedVecSized<T> {
    open spec fn chunk_wf(self) -> bool {
        self.wf()
    }

    open spec fn chunk_view(self) -> Seq<Option<T::V>> {
        self@
    }

    fn get_option_ref(self, idx: usize) -> (r: Option<&'a T>) {
        ChunkedVecSized::get_option_ref(self, idx)
    }

    fn get_bit_vec(self) -> (r: &'a BitVec) {
        self.bitmap()
    }

    fn phantom_data(self) -> (r: Option<&'a T>) {
        None
    }
}

impl<'a> ChunkRef<'a, BytesRef<'a>> for &'a ChunkedVecBytes {
    open spec fn chunk_wf(self) -> bool {
        self.wf()
    }

    open spec fn chunk_view(self) -> Seq<Option<Seq<u8>>> {
        self@
    }

    fn get_option_ref(self, idx: usize) -> (r: Option<BytesRef<'a>>) {
        ChunkedVecBytes::get_option_ref(self, idx)
    }

    fn get_bit_vec(self) -> (r: &'a BitVec) {
        self.bitmap()
    }

    fn phantom_data(self) -> (r: Option<BytesRef<'a>>) {
        None
    }
}

impl<'a> ChunkRef<'a, JsonRef<'a>> for &'a ChunkedVecJson {
    open spec fn chunk_wf(self) -> bool {
        self.wf()
    }

    open spec fn chunk_view(self) -> Seq<Option<(u8, Seq<u8>)>> {
        self@
    }

    fn get_option_ref(self, idx: usize) -> (r: Option<JsonRef<'a>>) {
        ChunkedVecJson::get_option_ref(self, idx)
    }

    fn get_bit_vec(self) -> (r: &'a BitVec) {
        self.bitmap()
    }

    fn phantom_data(self) -> (r: Option<JsonRef<'a>>) {
        None
    }
}

impl<'a, T: Evaluable + EvaluableRet + Copy + 'a> EvaluableRef<'a> for &'a T {
    type ChunkedType = &'a ChunkedVecSized<T>;

    type EvaluableType = T;

    open spec fn spec_eval_type() -> EvalType {
        <T as Evaluable>::spec_eval_type()
    }

    open spec fn scalar_payload(v: ScalarValue) -> Option<T::V> {
        <T as Evaluable>::scalar_payload(v)
    }

    open spec fn scalar_ref_payload(v: ScalarValueRef<'a>) -> Option<T::V> {
        <T as Evaluable>::scalar_ref_payload(v)
    }

    open spec fn column_rows(v: VectorValue) -> Seq<Option<T::V>> {
        <T as Evaluable>::column_rows(v)
    }

    open spec fn owned_view(o: T) -> T::V {
        o@
    }

    fn eval_type() -> (r: EvalType) {
        <T as Evaluable>::eval_type()
    }

    fn borrow_scalar_value(v: &'a ScalarValue) -> (r: Option<&'a T>) {
        <T as Evaluable>::borrow_scalar_value(v)
    }

    fn borrow_scalar_value_ref(v: ScalarValueRef<'a>) -> (r: Option<&'a T>) {
        <T as Evaluable>::borrow_scalar_value_ref(v)
    }

    fn borrow_vector_value(v: &'a VectorValue) -> (r: &'a ChunkedVecSized<T>) {
        <T as Evaluable>::borrow_vector_value(v)
    }

    fn to_owned_value(self) -> (r: T) {
        *self
    }

    fn from_owned_value(value: &'a T) -> (r: &'a T) {
        value
    }
}

impl<'a> EvaluableRef<'a> for BytesRef<'a> {
    type ChunkedType = &'a ChunkedVecBytes;

    type EvaluableType = Bytes;

    open spec fn spec_eval_type() -> EvalType {
        EvalType::Bytes
    }

    open spec fn scalar_payload(v: ScalarValue) -> Option<Seq<u8>> {
        match v {
            ScalarValue::Bytes(x) => opt_view(x),
            _ => None,
        }
    }

    open spec fn scalar_ref_payload(v: ScalarValueRef<'a>) -> Option<Seq<u8>> {
        match v {
            ScalarValueRef::Bytes(x) => opt_view(x),
            _ => None,
        }
    }

    open spec fn column_rows(v: VectorValue) -> Seq<Option<Seq<u8>>> {
        match v {
            VectorValue::Bytes(c) => c@,
            _ => Seq::empty(),
        }
    }

    open spec fn owned_view(o: Bytes) -> Seq<u8> {
        o@
    }

    fn eval_type() -> (r: EvalType) {
        EvalType::Bytes
    }

    fn borrow_scalar_value(v: &'a ScalarValue) -> (r: Option<BytesRef<'a>>) {
        match v {
            ScalarValue::Bytes(x) => match x {
                Some(b) => Some(b.as_slice()),
                None => None,
            },
            _ => vstd::pervasive::unreached(),
        }
    }

    fn borrow_scalar_value_ref(v: ScalarValueRef<'a>) -> (r: Option<BytesRef<'a>>) {
        match v {
            ScalarValueRef::Bytes(x) => x,
            _ => vstd::pervasive::unreached(),
        }
    }

    fn borrow_vector_value(v: &'a VectorValue) -> (r: &'a ChunkedVecBytes) {
        match v {
            VectorValue::Bytes(x) => x,
            _ => vstd::pervasive::unreached(),
        }
    }

    fn to_owned_value(self) -> (r: Bytes) {
        crate::types::copy_bytes(self)
    }

    fn from_owned_value(value: &'a Bytes) -> (r: BytesRef<'a>) {
        value.as_slice()
    }
}

impl<'a> EvaluableRef<'a> for JsonRef<'a> {
    type ChunkedType = &'a ChunkedVecJson;

    type EvaluableType = Json;

    open spec fn spec_eval_type() -> EvalType {
        EvalType::Json
    }

    open spec fn scalar_payload(v: ScalarValue) -> Option<(u8, Seq<u8>)> {
        match v {
            ScalarValue::Json(x) => opt_view(x),
            _ => None,
        }
    }

    open spec fn scalar_ref_payload(v: ScalarValueRef<'a>) -> Option<(u8, Seq<u8>)> {
        match v {
            ScalarValueRef::Json(x) => opt_view(x),
            _ => None,
        }
    }

    open spec fn column_rows(v: VectorValue) -> Seq<Option<(u8, Seq<u8>)>> {
        match v {
            VectorValue::Json(c) => c@,
            _ => Seq::empty(),
        }
    }

    open spec fn owned_view(o: Json) -> (u8, Seq<u8>) {
        o@
    }

    fn eval_type() -> (r: EvalType) {
        EvalType::Json
    }

    fn borrow_scalar_value(v: &'a ScalarValue) -> (r: Option<JsonRef<'a>>) {
        match v {
            ScalarValue::Json(x) => match x {
                Some(j) => Some(j.as_ref()),
                None => None,
            },
            _ => vstd::pervasive::unreached(),
        }
    }

    fn borrow_scalar_value_ref(v: ScalarValueRef<'a>) -> (r: Option<JsonRef<'a>>) {
        match v {
            ScalarValueRef::Json(x) => x,
            _ => vstd::pervasive::unreached(),
        }
    }

    fn borrow_vector_value(v: &'a VectorValue) -> (r: &'a ChunkedVecJson) {
        match v {
            VectorValue::Json(x) => x,
            _ => vstd::pervasive::unreached(),
        }
    }

    fn to_owned_value(self) -> (r: Json) {
        JsonRef::to_owned(&self)
    }

    fn from_owned_value(value: &'a Json) -> (r: JsonRef<'a>) {
        value.as_ref()
    }
}

/// Borrowing a value's owned copy reads as the value itself: whatever
/// `to_owned_value` returns for `x`, `from_owned_value` on it gives back a
/// value equal to `x`.
pub proof fn lemma_owned_round_trip<'a, R: EvaluableRef<'a>>(x: R, owned: R::EvaluableType, back: R)
    requires
        R::owned_view(owned) == x@,
        back@ == R::owned_view(owned),
    ensures
        back@ == x@,
{
}

/// Detaches a borrowed value from the batch it was read from, so that an
/// accumulator may keep it after that batch is gone. The payload is copied,
/// so the result never refers to the batch's buffers.
pub trait UnsafeRefInto<T>: Sized {
    /// Whether `r` holds the same value as `s`.
    spec fn same_value(s: Self, r: T) -> bool;

    fn unsafe_into(self) -> (r: T)
        ensures
            Self::same_value(self, r),
    ;
}

impl<'a, T: Evaluable + EvaluableRet + Copy + 'a> UnsafeRefInto<T> for &'a T {
    open spec fn same_value(s: &'a T, r: T) -> bool {
        r@ == s@
    }

    fn unsafe_into(self) -> (r: T) {
        *self
    }
}

impl<'a> UnsafeRefInto<Bytes> for BytesRef<'a> {
    open spec fn same_value(s: BytesRef<'a>, r: Bytes) -> bool {
        r@ == s@
    }

    fn unsafe_into(self) -> (r: Bytes) {
        crate::types::copy_bytes(self)
    }
}

impl<'a> UnsafeRefInto<Json> for JsonRef<'a> {
    open spec fn same_value(s: JsonRef<'a>, r: Json) -> bool {
        r@ == s@
    }

    fn unsafe_into(self) -> (r: Json) {
        JsonRef::to_owned(&self)
    }
}

impl<A: UnsafeRefInto<B>, B> UnsafeRefInto<Option<B>> for Option<A> {
    open spec fn same_value(s: Option<A>, r: Option<B>) -> bool {
        match (s, r) {
            (None, None) => true,
            (Some(a), Some(b)) => A::same_value(a, b),
            _ => false,
        }
    }

    fn unsafe_into(self) -> (r: Option<B>) {
        match self {
            Some(x) => Some(x.unsafe_into()),
            None => None,
        }
    }
}

} // verus!
