//! The boundary adapter: the one place an argument-conversion error can
//! originate.
//!
//! The embedding runtime is dynamically typed, so a caller may hand the
//! exported callable anything. All the adapter can learn of such a value
//! is whether it converts to a signed 64-bit integer, and if so to which
//! one; [`HostValue`] records exactly that, and the adapter's decisions
//! are verified over it. The glue that inspects the runtime's actual
//! values reduces each argument to a `HostValue` before calling in.

use vstd::prelude::*;

use crate::arith::add_numbers;
use crate::arith::wrapped_sum;
use crate::ModuleError;

verus! {

/// A caller-supplied argument, as the boundary adapter sees it.
#[derive(Clone, Copy, Debug, PartialEq, Eq, Structural)]
pub enum HostValue {
    /// A value that converts to a signed 64-bit integer: this one.
    Int(i64),
    /// A value with no such conversion: wrong type (a string, say), or
    /// an integer outside the signed 64-bit range.
    Unconvertible,
}

/// Convert one caller-supplied argument to a native integer, or reject
/// it. This is the only source of [`ModuleError::ArgumentConversion`].
pub fn convert_arg(v: HostValue) -> (r: Result<i64, ModuleError>)
    ensures
        v matches HostValue::Int(i) ==> r == Ok::<i64, ModuleError>(i),
        v is Unconvertible ==> r == Err::<i64, ModuleError>(ModuleError::ArgumentConversion),
{
    match v {
        HostValue::Int(i) => Ok(i),
        HostValue::Unconvertible => Err(ModuleError::ArgumentConversion),
    }
}

/// One invocation of the exported callable, as the boundary sees it:
/// convert both arguments, then add. A conversion failure is surfaced to
/// the caller before the addition executes; when both arguments convert,
/// the call cannot fail and returns their wraparound sum.
pub fn invoke_add(a: HostValue, b: HostValue) -> (r: Result<i64, ModuleError>)
    ensures
        a is Int && b is Int ==> r == Ok::<i64, ModuleError>(wrapped_sum(a->0, b->0)),
        !(a is Int && b is Int) ==> r == Err::<i64, ModuleError>(ModuleError::ArgumentConversion),
{
    let x = match convert_arg(a) {
        Ok(v) => v,
        Err(e) => return Err(e),
    };
    let y = match convert_arg(b) {
        Ok(v) => v,
        Err(e) => return Err(e),
    };
    Ok(add_numbers(x, y))
}

} // verus!
