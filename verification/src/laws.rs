use vstd::prelude::*;
use crate::host::WritePolicy;
use crate::instr::{Failure, Opcode, INSTRUCTION_INVOKE_MODIFY, INSTRUCTION_MODIFY,
    INSTRUCTION_MODIFY_INVOKE, INSTRUCTION_VERIFY_MODIFIED};
use crate::processor::spec_process;

verus! {

/// A subject account that arrives with its `is_writable` flag set is
/// rejected as a test-setup violation — for every instruction byte (all
/// four opcodes and every invalid byte alike), under every host, with the
/// subject byte untouched. The probe never silently succeeds on a writable
/// subject.
pub proof fn law_writable_subject_rejected(p: WritePolicy, b0: u8, instr: u8)
    ensures
        spec_process(p, true, b0, instr) == (
            Err::<(), Failure>(Failure::TestSetupViolation),
            b0,
        ),
{
}

/// A direct modification of a fresh read-only account (byte 0) ends in one
/// of exactly two observable states: the call fails with the host's
/// write-protection rejection and the byte remains 0, or — on a host that
/// commits writes through read-only handles — the call succeeds and the
/// byte becomes 1. A harness distinguishes the two by reading the byte
/// afterwards.
///
/// The host that acknowledges a write without committing it is excluded:
/// there the call succeeds while the byte remains 0, and this opcode alone
/// cannot observe the difference.
pub proof fn law_modify_fresh_dichotomy(p: WritePolicy)
    requires
        !(p is IgnoreSilently),
    ensures
        ({
            let r = spec_process(p, false, 0u8, INSTRUCTION_MODIFY);
            (r == (Err::<(), Failure>(Failure::WriteProtectionRejected), 0u8)) || (r == (
                Ok::<(), Failure>(()),
                1u8,
            ))
        }),
{
}

/// Re-entrancy does not change whether the write is blocked: on every
/// subject flag, every subject byte and every host, the invoke-then-modify
/// chain has exactly the observable outcome of the direct modification —
/// the same result and the same final byte.
pub proof fn law_invoke_then_modify_transparent(p: WritePolicy, w: bool, b0: u8)
    ensures
        spec_process(p, w, b0, INSTRUCTION_INVOKE_MODIFY) == spec_process(
            p,
            w,
            b0,
            INSTRUCTION_MODIFY,
        ),
{
    reveal_with_fuel(spec_process, 3);
}

/// The modify-then-invoke chain on a fresh read-only account, by host
/// behavior: an outer success implies the nested verification observed
/// byte 1 (and a verification on byte 1 indeed succeeds); a host that
/// rejects the write aborts the whole call at once with the byte still 0;
/// a host that acknowledges the write without committing it is caught by
/// the nested verification's assertion, aborting the whole call with the
/// byte still 0; and a host that commits the write yields the outer
/// success with the byte at 1.
pub proof fn law_modify_then_invoke_outcomes(p: WritePolicy)
    ensures
        ({
            let r = spec_process(p, false, 0u8, INSTRUCTION_MODIFY_INVOKE);
            &&& r.0 is Ok ==> r.1 == 1 && spec_process(p, false, 1u8, INSTRUCTION_VERIFY_MODIFIED)
                == (Ok::<(), Failure>(()), 1u8)
            &&& p is RejectImmediately ==> r == (
                Err::<(), Failure>(Failure::WriteProtectionRejected),
                0u8,
            )
            &&& p is IgnoreSilently ==> r == (Err::<(), Failure>(Failure::AssertionFailed), 0u8)
                && spec_process(p, false, 0u8, INSTRUCTION_VERIFY_MODIFIED).0 == Err::<
                    (),
                    Failure,
                >(Failure::AssertionFailed)
            &&& p is CommitAnyway ==> r == (Ok::<(), Failure>(()), 1u8)
        }),
{
    reveal_with_fuel(spec_process, 3);
}

/// A verification on a read-only account whose byte is still 0 aborts with
/// the assertion failure; on byte 1 it succeeds. In every case it is free
/// of side effects: the byte after the call is the byte before it.
pub proof fn law_verify_modified(p: WritePolicy, b0: u8)
    ensures
        b0 == 0 ==> spec_process(p, false, b0, INSTRUCTION_VERIFY_MODIFIED) == (
            Err::<(), Failure>(Failure::AssertionFailed),
            0u8,
        ),
        b0 == 1 ==> spec_process(p, false, b0, INSTRUCTION_VERIFY_MODIFIED) == (
            Ok::<(), Failure>(()),
            1u8,
        ),
        spec_process(p, false, b0, INSTRUCTION_VERIFY_MODIFIED).1 == b0,
{
}

/// Idempotence of verification: after one successful modification chain on
/// a fresh read-only account, verifying twice in sequence succeeds both
/// times and never changes the byte.
///
/// The one excluded input is the direct modification under the host that
/// acknowledges writes without committing them: there the chain reports
/// success while the byte remains 0, and a subsequent verification fails.
pub proof fn law_verify_idempotent(p: WritePolicy, instr: u8)
    requires
        instr == INSTRUCTION_MODIFY || instr == INSTRUCTION_MODIFY_INVOKE,
        !(instr == INSTRUCTION_MODIFY && p is IgnoreSilently),
        spec_process(p, false, 0u8, instr).0 is Ok,
    ensures
        ({
            let b = spec_process(p, false, 0u8, instr).1;
            let first = spec_process(p, false, b, INSTRUCTION_VERIFY_MODIFIED);
            let second = spec_process(p, false, first.1, INSTRUCTION_VERIFY_MODIFIED);
            &&& first == (Ok::<(), Failure>(()), b)
            &&& second == (Ok::<(), Failure>(()), b)
        }),
{
    reveal_with_fuel(spec_process, 3);
}

/// On the correct host, a well-formed scenario — a valid opcode byte, a
/// read-only subject, the subject byte holding the opcode's expected value
/// — never trips a fatal invariant violation: the only failure that can
/// fire is the host's specific write-protection rejection, never masked
/// behind a failure of the fatal class.
pub proof fn law_correct_host_failures_are_rejections(b0: u8, instr: u8)
    requires
        Opcode::spec_from_byte(instr) is Some,
        b0 == Opcode::spec_from_byte(instr)->Some_0.spec_expected_byte(),
    ensures
        ({
            let r = spec_process(WritePolicy::RejectImmediately, false, b0, instr).0;
            r is Err ==> r->Err_0 == Failure::WriteProtectionRejected && !r->Err_0.is_fatal()
        }),
{
    reveal_with_fuel(spec_process, 3);
}

/// Every instruction byte outside the closed opcode set aborts with the
/// unknown-instruction fatal condition, deterministically, on every host
/// and every subject byte, leaving the byte untouched.
pub proof fn law_unknown_instruction(p: WritePolicy, b0: u8, instr: u8)
    requires
        instr != INSTRUCTION_MODIFY,
        instr != INSTRUCTION_INVOKE_MODIFY,
        instr != INSTRUCTION_MODIFY_INVOKE,
        instr != INSTRUCTION_VERIFY_MODIFIED,
    ensures
        spec_process(p, false, b0, instr) == (
            Err::<(), Failure>(Failure::UnknownInstruction),
            b0,
        ),
{
}

} // verus!
