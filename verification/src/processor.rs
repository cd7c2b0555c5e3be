use vstd::prelude::*;
use crate::account::AccountInfo;
use crate::host::{Host, WritePolicy, write_commits, write_reported_ok};
use crate::instr::{Failure, Opcode, ARGUMENT_INDEX};

verus! {

/// Termination measure for the self-invocation chain: instruction bytes
/// whose branch issues a nested invocation rank above those that do not,
/// and every nested opcode is of the lower rank.
pub open spec fn instr_rank(b: u8) -> int {
    match Opcode::spec_from_byte(b) {
        Some(op) => if op.spec_nested() is Some {
            2int
        } else {
            0int
        },
        None => 0int,
    }
}

/// The complete observable outcome of one invocation of the processor:
/// given the host's write policy `p`, the subject account's `is_writable`
/// flag `w` and persisted byte `b0` for this frame, and instruction byte
/// `instr`, the pair of the call's result and the subject byte's value
/// after the call.
///
/// The stages mirror the processor: the fixed read-only test precondition,
/// opcode decode, the branch's byte assertion, the write through the host
/// boundary (which commits and reports success according to the host's
/// policy), and finally the nested self-invocation, whose frame always sees
/// a read-only handle.
pub open spec fn spec_process(p: WritePolicy, w: bool, b0: u8, instr: u8) -> (Result<
    (),
    Failure,
>, u8)
    decreases instr_rank(instr),
{
    if w {
        (Err(Failure::TestSetupViolation), b0)
    } else {
        match Opcode::spec_from_byte(instr) {
            None => (Err(Failure::UnknownInstruction), b0),
            Some(op) => {
                if b0 != op.spec_expected_byte() {
                    (Err(Failure::AssertionFailed), b0)
                } else {
                    let b1 = if op.spec_writes_subject() && write_commits(p, false) {
                        1u8
                    } else {
                        b0
                    };
                    if op.spec_writes_subject() && !write_reported_ok(p, false) {
                        (Err(Failure::WriteProtectionRejected), b1)
                    } else {
                        match op.spec_nested() {
                            None => (Ok(()), b1),
                            Some(n) => spec_process(p, false, b1, n.spec_to_byte()),
                        }
                    }
                }
            },
        }
    }
}

/// One frame of the processor, acting on the subject account handle.
///
/// The result and the subject byte afterwards are exactly
/// [`spec_process`] of the frame's inputs; everything else about the
/// account — identity, owner, flags, buffer length, every byte past offset
/// zero — is unchanged.
fn process_subject(host: &Host, program_id: u64, subject: &mut AccountInfo, instr: u8) -> (r:
    Result<(), Failure>)
    requires
        old(subject).wf(),
    ensures
        final(subject).wf(),
        final(subject).key == old(subject).key,
        final(subject).owner == old(subject).owner,
        final(subject).is_signer == old(subject).is_signer,
        final(subject).is_writable == old(subject).is_writable,
        final(subject).data@ == old(subject).data@.update(0, final(subject).byte()),
        (r, final(subject).byte()) == spec_process(
            host.policy,
            old(subject).is_writable,
            old(subject).byte(),
            instr,
        ),
    decreases instr_rank(instr),
{
    if subject.is_writable {
        proof {
            assert(old(subject).data@.update(0, old(subject).byte()) =~= old(subject).data@);
        }
        return Err(Failure::TestSetupViolation);
    }
    let op = match Opcode::from_byte(instr) {
        None => {
            proof {
                assert(old(subject).data@.update(0, old(subject).byte()) =~= old(subject).data@);
            }
            return Err(Failure::UnknownInstruction);
        },
        Some(op) => op,
    };
    let b0 = subject.data[0];
    if b0 != op.expected_byte() {
        proof {
            assert(old(subject).data@.update(0, old(subject).byte()) =~= old(subject).data@);
        }
        return Err(Failure::AssertionFailed);
    }
    if op.writes_subject() {
        match host.write_byte(subject, 1) {
            Err(f) => {
                return Err(f);
            },
            Ok(_) => {},
        }
    }
    match op.nested() {
        None => {
            proof {
                assert(subject.data@.update(0, subject.byte()) =~= subject.data@);
            }
            Ok(())
        },
        Some(n) => invoke_readonly(host, program_id, subject, n.to_byte()),
    }
}

/// The model of the host's self-invocation facility, as this program uses
/// it: route a nested instruction, addressed to `program_id` and carrying
/// the subject account as a read-only, non-signer handle, back into this
/// same program, then restore the caller's frame view of the handle.
///
/// The nested frame always sees `is_writable == false`, whatever the outer
/// frame held: the account reference handed down is marked read-only by
/// design, and the host never escalates a handle's writability across an
/// invocation boundary.
fn invoke_readonly(host: &Host, program_id: u64, subject: &mut AccountInfo, instr: u8) -> (r:
    Result<(), Failure>)
    requires
        old(subject).wf(),
    ensures
        final(subject).wf(),
        final(subject).key == old(subject).key,
        final(subject).owner == old(subject).owner,
        final(subject).is_signer == old(subject).is_signer,
        final(subject).is_writable == old(subject).is_writable,
        final(subject).data@ == old(subject).data@.update(0, final(subject).byte()),
        (r, final(subject).byte()) == spec_process(host.policy, false, old(subject).byte(), instr),
    decreases instr_rank(instr) + 1,
{
    let saved_writable = subject.is_writable;
    subject.is_writable = false;
    let r = process_subject(host, program_id, subject, instr);
    subject.is_writable = saved_writable;
    r
}

/// The sole externally callable surface: one invocation of the instruction
/// processor, against the host model `host`, addressed to program
/// `program_id`, over the supplied account handles and instruction payload.
///
/// The subject is the handle at [`ARGUMENT_INDEX`]; the payload's byte zero
/// is the opcode. The call's result and the subject byte afterwards are
/// exactly [`spec_process`] of the subject's flag and byte, the opcode byte,
/// and the host's policy; no other account, and nothing else about the
/// subject, changes.
pub fn process_instruction(
    host: &Host,
    program_id: u64,
    accounts: &mut Vec<AccountInfo>,
    instruction_data: &Vec<u8>,
) -> (r: Result<(), Failure>)
    requires
        old(accounts)@.len() >= 1,
        old(accounts)@[ARGUMENT_INDEX as int].wf(),
        instruction_data@.len() >= 1,
    ensures
        final(accounts)@.len() == old(accounts)@.len(),
        forall|i: int|
            1 <= i < old(accounts)@.len() ==> final(accounts)@[i] == old(accounts)@[i],
        final(accounts)@[0].wf(),
        final(accounts)@[0].key == old(accounts)@[0].key,
        final(accounts)@[0].owner == old(accounts)@[0].owner,
        final(accounts)@[0].is_signer == old(accounts)@[0].is_signer,
        final(accounts)@[0].is_writable == old(accounts)@[0].is_writable,
        final(accounts)@[0].data@ == old(accounts)@[0].data@.update(
            0,
            final(accounts)@[0].byte(),
        ),
        (r, final(accounts)@[0].byte()) == spec_process(
            host.policy,
            old(accounts)@[0].is_writable,
            old(accounts)@[0].byte(),
            instruction_data@[0],
        ),
{
    let instr = instruction_data[0];
    let subject = &mut accounts[ARGUMENT_INDEX];
    process_subject(host, program_id, subject, instr)
}

} // verus!
