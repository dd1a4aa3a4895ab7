use vstd::prelude::*;

use crate::types::{Bytes, BytesRef, DateTime, Decimal, Duration, EvalType, Int, Json, JsonRef, Real};

verus! {

/// One value of one of the evaluation types, possibly absent.
#[derive(Clone, Debug)]
pub enum ScalarValue {
    Int(Option<Int>),
    Real(Option<Real>),
    Decimal(Option<Decimal>),
    Bytes(Option<Bytes>),
    DateTime(Option<DateTime>),
    Duration(Option<Duration>),
    Json(Option<Json>),
}

impl ScalarValue {
    pub open spec fn spec_eval_type(&self) -> EvalType {
        match self {
            ScalarValue::Int(_) => EvalType::Int,
            ScalarValue::Real(_) => EvalType::Real,
            ScalarValue::Decimal(_) => EvalType::Decimal,
            ScalarValue::Bytes(_) => EvalType::Bytes,
            ScalarValue::DateTime(_) => EvalType::DateTime,
            ScalarValue::Duration(_) => EvalType::Duration,
            ScalarValue::Json(_) => EvalType::Json,
        }
    }

    /// Whether the value is absent.
    pub open spec fn spec_is_none(&self) -> bool {
        match self {
            ScalarValue::Int(x) => x is None,
            ScalarValue::Real(x) => x is None,
            ScalarValue::Decimal(x) => x is None,
            ScalarValue::Bytes(x) => x is None,
            ScalarValue::DateTime(x) => x is None,
            ScalarValue::Duration(x) => x is None,
            ScalarValue::Json(x) => x is None,
        }
    }

    pub fn eval_type(&self) -> (r: EvalType)
        ensures
            r == self.spec_eval_type(),
    {
        match self {
            ScalarValue::Int(_) => EvalType::Int,
            ScalarValue::Real(_) => EvalType::Real,
            ScalarValue::Decimal(_) => EvalType::Decimal,
            ScalarValue::Bytes(_) => EvalType::Bytes,
            ScalarValue::DateTime(_) => EvalType::DateTime,
            ScalarValue::Duration(_) => EvalType::Duration,
            ScalarValue::Json(_) => EvalType::Json,
        }
    }

    pub fn is_none(&self) -> (r: bool)
        ensures
            r == self.spec_is_none(),
    {
        match self {
            ScalarValue::Int(x) => x.is_none(),
            ScalarValue::Real(x) => x.is_none(),
            ScalarValue::Decimal(x) => x.is_none(),
            ScalarValue::Bytes(x) => x.is_none(),
            ScalarValue::DateTime(x) => x.is_none(),
            ScalarValue::Duration(x) => x.is_none(),
            ScalarValue::Json(x) => x.is_none(),
        }
    }

    /// Borrows the value without copying its payload.
    pub fn as_scalar_value_ref(&self) -> (r: ScalarValueRef<'_>)
        ensures
            r.spec_eval_type() == self.spec_eval_type(),
            r.spec_is_none() == self.spec_is_none(),
            r.same_payload(*self),
    {
        match self {
            ScalarValue::Int(x) => ScalarValueRef::Int(x.as_ref()),
            ScalarValue::Real(x) => ScalarValueRef::Real(x.as_ref()),
            ScalarValue::Decimal(x) => ScalarValueRef::Decimal(x.as_ref()),
            ScalarValue::Bytes(x) => ScalarValueRef::Bytes(
                match x {
                    Some(b) => Some(b.as_slice()),
                    None => None,
                },
            ),
            ScalarValue::DateTime(x) => ScalarValueRef::DateTime(x.as_ref()),
            ScalarValue::Duration(x) => ScalarValueRef::Duration(x.as_ref()),
            ScalarValue::Json(x) => ScalarValueRef::Json(
                match x {
                    Some(j) => Some(j.as_ref()),
                    None => None,
                },
            ),
        }
    }
}

/// A borrowed counterpart of `ScalarValue`; byte and JSON payloads are not copied.
#[derive(Clone, Copy, Debug)]
pub enum ScalarValueRef<'a> {
    Int(Option<&'a Int>),
    Real(Option<&'a Real>),
    Decimal(Option<&'a Decimal>),
    Bytes(Option<BytesRef<'a>>),
    DateTime(Option<&'a DateTime>),
    Duration(Option<&'a Duration>),
    Json(Option<JsonRef<'a>>),
}

impl<'a> ScalarValueRef<'a> {
    pub open spec fn spec_eval_type(&self) -> EvalType {
        match self {
            ScalarValueRef::Int(_) => EvalType::Int,
            ScalarValueRef::Real(_) => EvalType::Real,
            ScalarValueRef::Decimal(_) => EvalType::Decimal,
            ScalarValueRef::Bytes(_) => EvalType::Bytes,
            ScalarValueRef::DateTime(_) => EvalType::DateTime,
            ScalarValueRef::Duration(_) => EvalType::Duration,
            ScalarValueRef::Json(_) => EvalType::Json,
        }
    }

    pub open spec fn spec_is_none(&self) -> bool {
        match self {
            ScalarValueRef::Int(x) => x is None,
            ScalarValueRef::Real(x) => x is None,
            ScalarValueRef::Decimal(x) => x is None,
            ScalarValueRef::Bytes(x) => x is None,
            ScalarValueRef::DateTime(x) => x is None,
            ScalarValueRef::Duration(x) => x is None,
            ScalarValueRef::Json(x) => x is None,
        }
    }

    /// Whether this borrowed value reads as the owned value `v`.
    pub open spec fn same_payload(&self, v: ScalarValue) -> bool {
        match (*self, v) {
            (ScalarValueRef::Int(a), ScalarValue::Int(b)) => crate::types::opt_view(a)
                == crate::types::opt_view(b),
            (ScalarValueRef::Real(a), ScalarValue::Real(b)) => crate::types::opt_view(a)
                == crate::types::opt_view(b),
            (ScalarValueRef::Decimal(a), ScalarValue::Decimal(b)) => crate::types::opt_view(a)
                == crate::types::opt_view(b),
            (ScalarValueRef::Bytes(a), ScalarValue::Bytes(b)) => crate::types::opt_view(a)
                == crate::types::opt_view(b),
            (ScalarValueRef::DateTime(a), ScalarValue::DateTime(b)) => crate::types::opt_view(a)
                == crate::types::opt_view(b),
            (ScalarValueRef::Duration(a), ScalarValue::Duration(b)) => crate::types::opt_view(a)
                == crate::types::opt_view(b),
            (ScalarValueRef::Json(a), ScalarValue::Json(b)) => crate::types::opt_view(a)
                == crate::types::opt_view(b),
            _ => false,
        }
    }

    pub fn eval_type(&self) -> (r: EvalType)
        ensures
            r == self.spec_eval_type(),
    {
        match self {
            ScalarValueRef::Int(_) => EvalType::Int,
            ScalarValueRef::Real(_) => EvalType::Real,
            ScalarValueRef::Decimal(_) => EvalType::Decimal,
            ScalarValueRef::Bytes(_) => EvalType::Bytes,
            ScalarValueRef::DateTime(_) => EvalType::DateTime,
            ScalarValueRef::Duration(_) => EvalType::Duration,
            ScalarValueRef::Json(_) => EvalType::Json,
        }
    }

    pub fn is_none(&self) -> (r: bool)
        ensures
            r == self.spec_is_none(),
    {
        match self {
            ScalarValueRef::Int(x) => x.is_none(),
            ScalarValueRef::Real(x) => x.is_none(),
            ScalarValueRef::Decimal(x) => x.is_none(),
            ScalarValueRef::Bytes(x) => x.is_none(),
            ScalarValueRef::DateTime(x) => x.is_none(),
            ScalarValueRef::Duration(x) => x.is_none(),
            ScalarValueRef::Json(x) => x.is_none(),
        }
    }
}

} // verus!
