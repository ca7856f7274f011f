//! Bindings that let host code call the Move modules of the Rooch framework.
//!
//! A binding builds the request that names one Move function and carries its
//! arguments, hands it to a [`function_call::MoveFunctionCaller`], and turns what
//! comes back into a plain result.

pub mod addresses;
pub mod encoding;
pub mod framework;
pub mod function_call;
