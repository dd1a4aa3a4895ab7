//! Columnar values for a vectorized SQL expression evaluator: presence
//! masks, columns of fixed-size values, byte strings and JSON values, the
//! scalar and column unions over the evaluation types, the traits that let
//! generic row code borrow a column of a given type, logical-row mappings,
//! and the conversion of values to SQL truth values.

use vstd::prelude::*;

pub mod as_bool;
pub mod bit_vec;
pub mod chunked_vec_bytes;
pub mod chunked_vec_json;
pub mod chunked_vec_sized;
pub mod evaluable;
pub mod logical_rows;
pub mod scalar;
pub mod types;
pub mod vector;

pub use as_bool::{AsMySQLBool, ConvertToReal, EvalError};
pub use bit_vec::{bit_and_all, BitAndIterator, BitVec};
pub use chunked_vec_bytes::{BytesGuard, BytesWriter, ChunkedVecBytes, PartialBytesWriter};
pub use chunked_vec_json::ChunkedVecJson;
pub use chunked_vec_sized::ChunkedVecSized;
pub use evaluable::{ChunkRef, Evaluable, EvaluableRef, EvaluableRet, UnsafeRefInto};
pub use logical_rows::{identical_logical_rows, LogicalRows, BATCH_MAX_SIZE};
pub use scalar::{ScalarValue, ScalarValueRef};
pub use vector::VectorValue;
pub use types::{
    Bytes, BytesRef, DateTime, Decimal, Duration, EvalType, FloatIsNan, Int, Json, JsonRef, Real,
};

verus! {

/// Which rows of a column are present.
pub open spec fn presence<V>(rows: Seq<Option<V>>) -> Seq<bool> {
    Seq::new(rows.len(), |i: int| rows[i] is Some)
}

/// A column that is built row by row.
///
/// The presence mask and the values are always changed together, so that an
/// absent row never exposes the value stored under it.
pub trait ChunkedVec<T: View>: Sized {
    spec fn chunked_wf(&self) -> bool;

    /// The rows, in order; `None` marks an absent row.
    spec fn chunked_view(&self) -> Seq<Option<T::V>>;

    fn chunked_with_capacity(capacity: usize) -> (r: Self)
        ensures
            r.chunked_wf(),
            r.chunked_view() == Seq::<Option<T::V>>::empty(),
    ;

    fn chunked_push(&mut self, value: Option<T>)
        requires
            old(self).chunked_wf(),
        ensures
            final(self).chunked_wf(),
            final(self).chunked_view() == old(self).chunked_view().push(
                crate::types::opt_view(value),
            ),
    ;
}

/// Pushing an absent row makes the column one row longer, and the new last
/// row reads as absent and is cleared in the presence mask.
pub proof fn lemma_push_none_reads_absent<T: View, C: ChunkedVec<T>>(before: C, after: C)
    requires
        after.chunked_view() == before.chunked_view().push(None),
    ensures
        after.chunked_view().len() == before.chunked_view().len() + 1,
        after.chunked_view()[before.chunked_view().len() as int] is None,
        !presence(after.chunked_view())[before.chunked_view().len() as int],
{
}

/// Pushing a present value `v` makes the column one row longer, and the new
/// last row reads back as `v`, unchanged, and is set in the presence mask.
pub proof fn lemma_push_some_reads_back<T: View, C: ChunkedVec<T>>(before: C, v: T, after: C)
    requires
        after.chunked_view() == before.chunked_view().push(crate::types::opt_view(Some(v))),
    ensures
        after.chunked_view().len() == before.chunked_view().len() + 1,
        after.chunked_view()[before.chunked_view().len() as int] == Some(v@),
        presence(after.chunked_view())[before.chunked_view().len() as int],
{
}

} // verus!
