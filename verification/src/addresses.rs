//! Accounts under which the framework's modules are published.

use vstd::prelude::*;

verus! {

/// The account of the Rooch framework, as a hex literal.
pub const ROOCH_FRAMEWORK_ADDRESS: &'static str = "0x3";

} // verus!
