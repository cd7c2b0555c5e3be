use ro_account_modify::account::AccountInfo;
use ro_account_modify::host::{Host, WritePolicy};
use ro_account_modify::instr::{Failure, Opcode};
use ro_account_modify::instr::{
    ARGUMENT_INDEX, INSTRUCTION_INVOKE_MODIFY, INSTRUCTION_MODIFY, INSTRUCTION_MODIFY_INVOKE,
    INSTRUCTION_VERIFY_MODIFIED,
};

#[test]
fn opcode_bytes_decode_to_the_closed_set() {
    assert_eq!(Opcode::from_byte(INSTRUCTION_MODIFY), Some(Opcode::Modify));
    assert_eq!(
        Opcode::from_byte(INSTRUCTION_INVOKE_MODIFY),
        Some(Opcode::InvokeThenModify)
    );
    assert_eq!(
        Opcode::from_byte(INSTRUCTION_MODIFY_INVOKE),
        Some(Opcode::ModifyThenInvoke)
    );
    assert_eq!(
        Opcode::from_byte(INSTRUCTION_VERIFY_MODIFIED),
        Some(Opcode::VerifyModified)
    );
    for b in 4..=255u8 {
        assert_eq!(Opcode::from_byte(b), None);
    }
}

#[test]
fn opcode_byte_round_trip() {
    for b in 0..=3u8 {
        let op = Opcode::from_byte(b).unwrap();
        assert_eq!(op.to_byte(), b);
    }
}

#[test]
fn expected_bytes_match_the_dispatch_table() {
    assert_eq!(Opcode::Modify.expected_byte(), 0);
    assert_eq!(Opcode::InvokeThenModify.expected_byte(), 0);
    assert_eq!(Opcode::ModifyThenInvoke.expected_byte(), 0);
    assert_eq!(Opcode::VerifyModified.expected_byte(), 1);
}

#[test]
fn write_and_nesting_structure_match_the_dispatch_table() {
    assert!(Opcode::Modify.writes_subject());
    assert!(!Opcode::InvokeThenModify.writes_subject());
    assert!(Opcode::ModifyThenInvoke.writes_subject());
    assert!(!Opcode::VerifyModified.writes_subject());

    assert_eq!(Opcode::Modify.nested(), None);
    assert_eq!(Opcode::InvokeThenModify.nested(), Some(Opcode::Modify));
    assert_eq!(
        Opcode::ModifyThenInvoke.nested(),
        Some(Opcode::VerifyModified)
    );
    assert_eq!(Opcode::VerifyModified.nested(), None);
}

#[test]
fn nested_opcodes_never_invoke_again() {
    for b in 0..=3u8 {
        if let Some(nested) = Opcode::from_byte(b).unwrap().nested() {
            assert_eq!(nested.nested(), None);
        }
    }
}

#[test]
fn trace_lines_identify_each_branch() {
    assert_eq!(Opcode::Modify.trace_line(), "modify ro account");
    assert_eq!(
        Opcode::InvokeThenModify.trace_line(),
        "invoke and modify ro account"
    );
    assert_eq!(
        Opcode::ModifyThenInvoke.trace_line(),
        "modify and invoke ro account"
    );
    assert_eq!(Opcode::VerifyModified.trace_line(), "verify modified");
}

#[test]
fn subject_account_is_index_zero() {
    assert_eq!(ARGUMENT_INDEX, 0);
}

#[test]
fn failure_classes() {
    // Exercise a value of each variant as the library hands them out.
    let fatal = [
        Failure::TestSetupViolation,
        Failure::AssertionFailed,
        Failure::UnknownInstruction,
    ];
    for f in fatal {
        assert_ne!(f, Failure::WriteProtectionRejected);
    }
}

#[test]
fn host_boundary_commits_only_per_policy() {
    let mut acct = AccountInfo {
        key: 5,
        owner: 6,
        is_signer: false,
        is_writable: true,
        data: vec![0u8, 7u8],
    };
    // A writable handle commits under every policy.
    for policy in [
        WritePolicy::RejectImmediately,
        WritePolicy::IgnoreSilently,
        WritePolicy::CommitAnyway,
    ] {
        acct.data[0] = 0;
        let host = Host { policy };
        assert_eq!(host.write_byte(&mut acct, 1), Ok(()));
        assert_eq!(acct.data[0], 1);
    }
    // A read-only handle goes by the policy.
    acct.is_writable = false;

    acct.data[0] = 0;
    let host = Host { policy: WritePolicy::RejectImmediately };
    assert_eq!(
        host.write_byte(&mut acct, 1),
        Err(Failure::WriteProtectionRejected)
    );
    assert_eq!(acct.data[0], 0);

    let host = Host { policy: WritePolicy::IgnoreSilently };
    assert_eq!(host.write_byte(&mut acct, 1), Ok(()));
    assert_eq!(acct.data[0], 0);

    let host = Host { policy: WritePolicy::CommitAnyway };
    assert_eq!(host.write_byte(&mut acct, 1), Ok(()));
    assert_eq!(acct.data[0], 1);

    assert_eq!(acct.data[1], 7);
}
