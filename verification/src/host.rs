use vstd::prelude::*;
use crate::account::AccountInfo;
use crate::instr::Failure;

verus! {

/// How a host under test treats a write issued through an account handle
/// whose `is_writable` flag is false. A correct host rejects the write; the
/// two faulty behaviors are the bugs this probe exists to detect.
#[derive(Clone, Copy, Debug, PartialEq, Eq, Structural)]
pub enum WritePolicy {
    /// The correct host: the write faults the issuing call frame at once,
    /// and the buffer is left untouched.
    RejectImmediately,
    /// A faulty host that reports success but never commits the write.
    IgnoreSilently,
    /// A faulty host that commits the write through the read-only handle.
    CommitAnyway,
}

/// The model of the host runtime boundary that the processor runs against.
///
/// The processor holds only a borrowed view of it and trusts whatever the
/// boundary reports; whether that trust is well-founded is exactly what the
/// instruction state machine probes. Keeping the write-protection decision
/// here — not inside the processor — mirrors the system under test, where
/// enforcement is the runtime's job.
#[derive(Clone, Copy, Debug, PartialEq, Eq, Structural)]
pub struct Host {
    /// The behavior of this host's write-protection check.
    pub policy: WritePolicy,
}

/// Whether a write through a handle with writability `w` commits to the
/// buffer under policy `p`.
pub open spec fn write_commits(p: WritePolicy, w: bool) -> bool {
    w || p is CommitAnyway
}

/// Whether such a write is reported back to the issuing frame as a success.
pub open spec fn write_reported_ok(p: WritePolicy, w: bool) -> bool {
    w || !(p is RejectImmediately)
}

impl Host {
    /// The runtime boundary through which every mutation of account data
    /// goes: commit `value` at offset zero of `acct`'s buffer, subject to
    /// this host's write-protection check on the frame's `is_writable` flag.
    pub fn write_byte(&self, acct: &mut AccountInfo, value: u8) -> (r: Result<(), Failure>)
        requires
            old(acct).wf(),
        ensures
            final(acct).wf(),
            final(acct).key == old(acct).key,
            final(acct).owner == old(acct).owner,
            final(acct).is_signer == old(acct).is_signer,
            final(acct).is_writable == old(acct).is_writable,
            final(acct).data@.len() == old(acct).data@.len(),
            write_commits(self.policy, old(acct).is_writable) ==> final(acct).data@
                == old(acct).data@.update(0, value),
            !write_commits(self.policy, old(acct).is_writable) ==> final(acct).data@
                == old(acct).data@,
            r == if write_reported_ok(self.policy, old(acct).is_writable) {
                Result::<(), Failure>::Ok(())
            } else {
                Result::<(), Failure>::Err(Failure::WriteProtectionRejected)
            },
    {
        if acct.is_writable {
            acct.data[0] = value;
            Ok(())
        } else {
            match self.policy {
                WritePolicy::RejectImmediately => Err(Failure::WriteProtectionRejected),
                WritePolicy::IgnoreSilently => Ok(()),
                WritePolicy::CommitAnyway => {
                    acct.data[0] = value;
                    Ok(())
                },
            }
        }
    }
}

} // verus!
