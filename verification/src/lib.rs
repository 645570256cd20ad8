//! Verified core of a minimal native-extension module.
//!
//! The module publishes a single callable, `add_numbers`, to an embedding
//! runtime. Everything the boundary decides is modelled and verified here:
//! the arithmetic itself ([`arith`]), the conversion of caller-supplied
//! values at the call boundary ([`boundary`]), and the registration of the
//! exported name at load time ([`exports`]). The foreign-function glue that
//! hands values across the boundary lives outside the library and calls in
//! with plain values.

use vstd::prelude::*;

pub mod arith;
pub mod boundary;
pub mod exports;

verus! {

/// Every way this module can fail. The arithmetic itself never fails; the
/// two failure paths belong to the boundary and to module load.
#[derive(Clone, Copy, Debug, PartialEq, Eq, Structural)]
pub enum ModuleError {
    /// A caller-supplied argument could not be converted to a signed
    /// 64-bit integer (wrong type, or out of the representable range).
    /// Raised by the boundary adapter before the addition executes.
    ArgumentConversion,
    /// The exported name could not be registered at module load (the
    /// runtime's table already held it). Fatal to loading the module.
    Registration,
}

} // verus!
