//! Structural verification core for confidential balance transfers.
//!
//! A submitted byte blob is checked to be a well-formed zero-knowledge proof
//! for a hidden-amount transfer: a fixed-layout codec, a Fiat-Shamir
//! transcript, and structural validators over the parsed records. Full curve
//! algebra is out of scope and delegated to an off-path verifier; this core
//! performs format and non-triviality checks only.

pub mod crypto_primitives;
pub mod merlin_transcript;
pub mod proof_verification;
