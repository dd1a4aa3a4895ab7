use vstd::prelude::*;

use crate::types::{Bytes, BytesRef, Int, JsonRef, Real};

verus! {

/// Why a value could not be converted.
#[derive(Clone, Debug, PartialEq, Eq)]
pub enum EvalError {
    /// The input is not in a form that converts to the target type.
    InvalidFormat(String),
    /// The converted value does not fit the target type.
    Overflow(String),
}

/// Turns a byte string into a real, under the conversion policy (truncation,
/// overflow) of the evaluation in progress. The outcome, and what the
/// conversion leaves in the context (warnings, say), depend only on the
/// context and the bytes.
pub trait ConvertToReal: Sized {
    /// What converting `bytes` in this context returns.
    spec fn spec_convert(&self, bytes: Seq<u8>) -> Result<Real, EvalError>;

    /// The context after converting `bytes`.
    spec fn spec_after_convert(&self, bytes: Seq<u8>) -> Self;

    fn convert_bytes_to_real(&mut self, bytes: &[u8]) -> (r: Result<Real, EvalError>)
        ensures
            r == old(self).spec_convert(bytes@),
            *final(self) == old(self).spec_after_convert(bytes@),
    ;
}

/// The truth value of a real: false exactly on zero.
pub open spec fn real_truth(x: Real) -> bool {
    !crate::types::is_zero_bits(x.spec_bits())
}

/// The truth value of a byte string whose conversion to a real gives
/// `converted`: false when empty (nothing is converted then), else the truth
/// value of the converted real, or the conversion's error.
pub open spec fn bytes_truth(bytes: Seq<u8>, converted: Result<Real, EvalError>) -> Result<bool, EvalError> {
    if bytes.len() == 0 {
        Ok(false)
    } else {
        match converted {
            Ok(x) => Ok(real_truth(x)),
            Err(e) => Err(e),
        }
    }
}

/// Evaluates a byte string as a logic value, given what its conversion to a
/// real returned.
pub fn bytes_as_mysql_bool_with(bytes: &[u8], converted: Result<Real, EvalError>) -> (r: Result<bool, EvalError>)
    ensures
        r == bytes_truth(bytes@, converted),
{
    if bytes.len() == 0 {
        Ok(false)
    } else {
        match converted {
            Ok(x) => Ok(!x.is_zero()),
            Err(e) => Err(e),
        }
    }
}

/// What a conversion of `input` in `context` returns; where nothing is to be
/// converted the outcome is never read.
pub open spec fn conversion_outcome<C: ConvertToReal>(input: Option<Seq<u8>>, context: C) -> Result<Real, EvalError> {
    match input {
        Some(b) => context.spec_convert(b),
        None => arbitrary(),
    }
}

/// The context after converting `input`; unchanged where nothing is converted.
pub open spec fn context_after<C: ConvertToReal>(input: Option<Seq<u8>>, context: C) -> C {
    match input {
        Some(b) => context.spec_after_convert(b),
        None => context,
    }
}

/// Evaluates a value as a logic value. Absent values are false; JSON values
/// are always false; only non-empty byte strings go through the converter.
pub trait AsMySQLBool {
    /// The bytes handed to the converter, or `None` where nothing is converted.
    spec fn conversion_input(&self) -> Option<Seq<u8>>;

    /// The result when the conversion (if any) returns `converted`.
    spec fn spec_mysql_bool(&self, converted: Result<Real, EvalError>) -> Result<bool, EvalError>;

    fn as_mysql_bool<C: ConvertToReal>(&self, context: &mut C) -> (r: Result<bool, EvalError>)
        ensures
            r == self.spec_mysql_bool(conversion_outcome(self.conversion_input(), *old(context))),
            *final(context) == context_after(self.conversion_input(), *old(context)),
    ;
}

impl AsMySQLBool for Int {
    open spec fn conversion_input(&self) -> Option<Seq<u8>> {
        None
    }

    open spec fn spec_mysql_bool(&self, converted: Result<Real, EvalError>) -> Result<bool, EvalError> {
        Ok(*self != 0)
    }

    fn as_mysql_bool<C: ConvertToReal>(&self, context: &mut C) -> (r: Result<bool, EvalError>) {
        Ok(*self != 0)
    }
}

impl AsMySQLBool for Real {
    open spec fn conversion_input(&self) -> Option<Seq<u8>> {
        None
    }

    open spec fn spec_mysql_bool(&self, converted: Result<Real, EvalError>) -> Result<bool, EvalError> {
        Ok(real_truth(*self))
    }

    fn as_mysql_bool<C: ConvertToReal>(&self, context: &mut C) -> (r: Result<bool, EvalError>) {
        Ok(!self.is_zero())
    }
}

impl<'a, T: AsMySQLBool> AsMySQLBool for &'a T {
    open spec fn conversion_input(&self) -> Option<Seq<u8>> {
        (**self).conversion_input()
    }

    open spec fn spec_mysql_bool(&self, converted: Result<Real, EvalError>) -> Result<bool, EvalError> {
        (**self).spec_mysql_bool(converted)
    }

    fn as_mysql_bool<C: ConvertToReal>(&self, context: &mut C) -> (r: Result<bool, EvalError>) {
        (**self).as_mysql_bool(context)
    }
}

impl<'a> AsMySQLBool for BytesRef<'a> {
    open spec fn conversion_input(&self) -> Option<Seq<u8>> {
        if self@.len() == 0 {
            None
        } else {
            Some(self@)
        }
    }

    open spec fn spec_mysql_bool(&self, converted: Result<Real, EvalError>) -> Result<bool, EvalError> {
        bytes_truth(self@, converted)
    }

    fn as_mysql_bool<C: ConvertToReal>(&self, context: &mut C) -> (r: Result<bool, EvalError>) {
        if self.len() == 0 {
            Ok(false)
        } else {
            let converted = context.convert_bytes_to_real(self);
            bytes_as_mysql_bool_with(self, converted)
        }
    }
}

impl AsMySQLBool for Bytes {
    open spec fn conversion_input(&self) -> Option<Seq<u8>> {
        if self@.len() == 0 {
            None
        } else {
            Some(self@)
        }
    }

    open spec fn spec_mysql_bool(&self, converted: Result<Real, EvalError>) -> Result<bool, EvalError> {
        bytes_truth(self@, converted)
    }

    fn as_mysql_bool<C: ConvertToReal>(&self, context: &mut C) -> (r: Result<bool, EvalError>) {
        self.as_slice().as_mysql_bool(context)
    }
}

impl<'a> AsMySQLBool for JsonRef<'a> {
    open spec fn conversion_input(&self) -> Option<Seq<u8>> {
        None
    }

    open spec fn spec_mysql_bool(&self, converted: Result<Real, EvalError>) -> Result<bool, EvalError> {
        Ok(false)
    }

    fn as_mysql_bool<C: ConvertToReal>(&self, context: &mut C) -> (r: Result<bool, EvalError>) {
        Ok(false)
    }
}

impl<'a, T: AsMySQLBool> AsMySQLBool for Option<&'a T> {
    open spec fn conversion_input(&self) -> Option<Seq<u8>> {
        match self {
            None => None,
            Some(v) => v.conversion_input(),
        }
    }

    open spec fn spec_mysql_bool(&self, converted: Result<Real, EvalError>) -> Result<bool, EvalError> {
        match self {
            None => Ok(false),
            Some(v) => v.spec_mysql_bool(converted),
        }
    }

    fn as_mysql_bool<C: ConvertToReal>(&self, context: &mut C) -> (r: Result<bool, EvalError>) {
        match self {
            None => Ok(false),
            Some(v) => v.as_mysql_bool(context),
        }
    }
}

impl<'a> AsMySQLBool for Option<BytesRef<'a>> {
    open spec fn conversion_input(&self) -> Option<Seq<u8>> {
        match self {
            None => None,
            Some(v) => v.conversion_input(),
        }
    }

    open spec fn spec_mysql_bool(&self, converted: Result<Real, EvalError>) -> Result<bool, EvalError> {
        match self {
            None => Ok(false),
            Some(v) => v.spec_mysql_bool(converted),
        }
    }

    fn as_mysql_bool<C: ConvertToReal>(&self, context: &mut C) -> (r: Result<bool, EvalError>) {
        match self {
            None => Ok(false),
            Some(v) => v.as_mysql_bool(context),
        }
    }
}

impl<'a> AsMySQLBool for Option<JsonRef<'a>> {
    open spec fn conversion_input(&self) -> Option<Seq<u8>> {
        match self {
            None => None,
            Some(v) => v.conversion_input(),
        }
    }

    open spec fn spec_mysql_bool(&self, converted: Result<Real, EvalError>) -> Result<bool, EvalError> {
        match self {
            None => Ok(false),
            Some(v) => v.spec_mysql_bool(converted),
        }
    }

    fn as_mysql_bool<C: ConvertToReal>(&self, context: &mut C) -> (r: Result<bool, EvalError>) {
        match self {
            None => Ok(false),
            Some(v) => v.as_mysql_bool(context),
        }
    }
}

} // verus!
