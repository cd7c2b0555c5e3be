use vstd::prelude::*;

verus! {

/// A handle to the single on-chain account made visible to an invocation.
///
/// The handle carries the account's identity, its owning program, the two
/// capability flags supplied by the host for the current call frame, and the
/// account's backing data buffer. Identities are modeled as plain integers:
/// the processor never inspects them, it only passes them along when it
/// issues a self-invocation.
pub struct AccountInfo {
    /// Identity of the account itself.
    pub key: u64,
    /// Identity of the program that owns the account.
    pub owner: u64,
    /// Whether this invocation was signed by the account's key.
    pub is_signer: bool,
    /// Whether the current call frame is permitted to mutate `data`.
    /// The whole probe exists to test that the host honors this flag.
    pub is_writable: bool,
    /// The account's backing data buffer, at least one byte long.
    pub data: Vec<u8>,
}

impl AccountInfo {
    /// Well-formedness: the buffer holds at least the one byte that the
    /// processor reads and writes.
    pub open spec fn wf(&self) -> bool {
        self.data@.len() >= 1
    }

    /// The single persisted byte at offset zero — the only state that
    /// survives a self-invocation chain.
    pub open spec fn byte(&self) -> u8 {
        self.data@[0]
    }
}

} // verus!
