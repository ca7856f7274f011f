//! One module per Move module of the Rooch framework.

pub mod ecdsa_k1_recoverable_validator;
