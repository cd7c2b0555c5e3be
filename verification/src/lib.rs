//! A minimal on-chain conformance probe: an instruction processor whose only
//! purpose is to test whether the host execution environment enforces
//! read-only account immutability, including across a self-invocation
//! boundary.
//!
//! The processor itself is the verified core. The host runtime (account
//! storage, the write-protection check at the runtime boundary, and the
//! dispatcher that routes a self-invocation back into this program) is modeled
//! by an explicit, injected [`host::Host`], so that every observable outcome
//! of the probe — for a correct host and for the faulty hosts it exists to
//! detect — is stated and proved.

pub mod account;
pub mod host;
pub mod instr;
pub mod laws;
pub mod processor;
