use vstd::prelude::*;

use crate::chunked_vec_bytes::ChunkedVecBytes;
use crate::chunked_vec_json::ChunkedVecJson;
use crate::chunked_vec_sized::ChunkedVecSized;
use crate::types::{DateTime, Decimal, Duration, EvalType, Int, Real};

verus! {

/// A whole column of one of the evaluation types.
pub enum VectorValue {
    Int(ChunkedVecSized<Int>),
    Real(ChunkedVecSized<Real>),
    Decimal(ChunkedVecSized<Decimal>),
    Bytes(ChunkedVecBytes),
    DateTime(ChunkedVecSized<DateTime>),
    Duration(ChunkedVecSized<Duration>),
    Json(ChunkedVecJson),
}

impl VectorValue {
    pub open spec fn spec_eval_type(&self) -> EvalType {
        match self {
            VectorValue::Int(_) => EvalType::Int,
            VectorValue::Real(_) => EvalType::Real,
            VectorValue::Decimal(_) => EvalType::Decimal,
            VectorValue::Bytes(_) => EvalType::Bytes,
            VectorValue::DateTime(_) => EvalType::DateTime,
            VectorValue::Duration(_) => EvalType::Duration,
            VectorValue::Json(_) => EvalType::Json,
        }
    }

    pub open spec fn wf(&self) -> bool {
        match self {
            VectorValue::Int(c) => c.wf(),
            VectorValue::Real(c) => c.wf(),
            VectorValue::Decimal(c) => c.wf(),
            VectorValue::Bytes(c) => c.wf(),
            VectorValue::DateTime(c) => c.wf(),
            VectorValue::Duration(c) => c.wf(),
            VectorValue::Json(c) => c.wf(),
        }
    }

    /// The number of rows.
    pub open spec fn spec_len(&self) -> nat {
        match self {
            VectorValue::Int(c) => c@.len(),
            VectorValue::Real(c) => c@.len(),
            VectorValue::Decimal(c) => c@.len(),
            VectorValue::Bytes(c) => c@.len(),
            VectorValue::DateTime(c) => c@.len(),
            VectorValue::Duration(c) => c@.len(),
            VectorValue::Json(c) => c@.len(),
        }
    }

    /// An empty column of the type that `eval_tp` names.
    pub fn with_capacity(capacity: usize, eval_tp: EvalType) -> (r: VectorValue)
        ensures
            r.wf(),
            r.spec_eval_type() == eval_tp,
            r.spec_len() == 0,
    {
        match eval_tp {
            EvalType::Int => VectorValue::Int(ChunkedVecSized::with_capacity(capacity)),
            EvalType::Real => VectorValue::Real(ChunkedVecSized::with_capacity(capacity)),
            EvalType::Decimal => VectorValue::Decimal(ChunkedVecSized::with_capacity(capacity)),
            EvalType::Bytes => VectorValue::Bytes(ChunkedVecBytes::with_capacity(capacity)),
            EvalType::DateTime => VectorValue::DateTime(ChunkedVecSized::with_capacity(capacity)),
            EvalType::Duration => VectorValue::Duration(ChunkedVecSized::with_capacity(capacity)),
            EvalType::Json => VectorValue::Json(ChunkedVecJson::with_capacity(capacity)),
        }
    }

    pub fn eval_type(&self) -> (r: EvalType)
        ensures
            r == self.spec_eval_type(),
    {
        match self {
            VectorValue::Int(_) => EvalType::Int,
            VectorValue::Real(_) => EvalType::Real,
            VectorValue::Decimal(_) => EvalType::Decimal,
            VectorValue::Bytes(_) => EvalType::Bytes,
            VectorValue::DateTime(_) => EvalType::DateTime,
            VectorValue::Duration(_) => EvalType::Duration,
            VectorValue::Json(_) => EvalType::Json,
        }
    }

    pub fn len(&self) -> (r: usize)
        requires
            self.wf(),
        ensures
            r == self.spec_len(),
    {
        match self {
            VectorValue::Int(c) => c.len(),
            VectorValue::Real(c) => c.len(),
            VectorValue::Decimal(c) => c.len(),
            VectorValue::Bytes(c) => c.len(),
            VectorValue::DateTime(c) => c.len(),
            VectorValue::Duration(c) => c.len(),
            VectorValue::Json(c) => c.len(),
        }
    }

    pub fn is_empty(&self) -> (r: bool)
        requires
            self.wf(),
        ensures
            r == (self.spec_len() == 0),
    {
        self.len() == 0
    }
}

} // verus!
