//! Simple Authentication and Security Layer (SASL) mechanisms.
pub mod scram;
