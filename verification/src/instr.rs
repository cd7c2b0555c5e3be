use vstd::prelude::*;

verus! {

/// Index of the subject account among the handles supplied to an invocation.
pub const ARGUMENT_INDEX: usize = 0;

/// Instruction byte selecting [`Opcode::Modify`].
pub const INSTRUCTION_MODIFY: u8 = 0;

/// Instruction byte selecting [`Opcode::InvokeThenModify`].
pub const INSTRUCTION_INVOKE_MODIFY: u8 = 1;

/// Instruction byte selecting [`Opcode::ModifyThenInvoke`].
pub const INSTRUCTION_MODIFY_INVOKE: u8 = 2;

/// Instruction byte selecting [`Opcode::VerifyModified`].
pub const INSTRUCTION_VERIFY_MODIFIED: u8 = 3;

/// The closed set of instruction variants. Byte zero of the instruction
/// payload selects one of these; every other byte value is invalid.
#[derive(Clone, Copy, Debug, PartialEq, Eq, Structural)]
pub enum Opcode {
    /// Attempt an in-place write of the subject byte to 1.
    Modify,
    /// Re-invoke this program on the same account, read-only, with
    /// [`Opcode::Modify`], and propagate the nested result.
    InvokeThenModify,
    /// Write the subject byte to 1 in this frame, then re-invoke this
    /// program on the same account, read-only, with
    /// [`Opcode::VerifyModified`].
    ModifyThenInvoke,
    /// Pure check that the subject byte equals 1; no mutation.
    VerifyModified,
}

/// Every way one invocation of the processor can fail.
///
/// The first three are fatal invariant violations: they signal a broken test
/// setup or a probe assertion firing, and a harness must never see them on a
/// well-formed scenario against a correct host. The last is the host's own
/// rejection, propagated through the processor unchanged.
#[derive(Clone, Copy, Debug, PartialEq, Eq, Structural)]
pub enum Failure {
    /// The subject account arrived with its `is_writable` flag set. The
    /// probe's fixed precondition is a read-only subject, so this is a
    /// test-setup violation, not a runtime outcome under test.
    TestSetupViolation,
    /// The subject byte did not hold the value the opcode's precondition
    /// demands (0 before a modification, 1 for a verification).
    AssertionFailed,
    /// The instruction byte is outside the closed opcode set.
    UnknownInstruction,
    /// The host runtime rejected a write issued through a read-only handle.
    /// For a correct host this is the expected outcome of every
    /// modification path.
    WriteProtectionRejected,
}

impl Failure {
    /// Whether this failure is of the fatal class (a broken invariant that
    /// must abort the whole scenario) rather than the host's ordinary
    /// rejection of a forbidden write.
    pub open spec fn is_fatal(self) -> bool {
        !(self is WriteProtectionRejected)
    }
}

impl Opcode {
    /// The opcode selected by instruction byte `b`, if any.
    pub open spec fn spec_from_byte(b: u8) -> Option<Opcode> {
        if b == INSTRUCTION_MODIFY {
            Some(Opcode::Modify)
        } else if b == INSTRUCTION_INVOKE_MODIFY {
            Some(Opcode::InvokeThenModify)
        } else if b == INSTRUCTION_MODIFY_INVOKE {
            Some(Opcode::ModifyThenInvoke)
        } else if b == INSTRUCTION_VERIFY_MODIFIED {
            Some(Opcode::VerifyModified)
        } else {
            None
        }
    }

    /// Decode instruction byte `b`; `None` exactly on the bytes outside the
    /// closed opcode set.
    pub fn from_byte(b: u8) -> (r: Option<Opcode>)
        ensures
            r == Opcode::spec_from_byte(b),
    {
        if b == INSTRUCTION_MODIFY {
            Some(Opcode::Modify)
        } else if b == INSTRUCTION_INVOKE_MODIFY {
            Some(Opcode::InvokeThenModify)
        } else if b == INSTRUCTION_MODIFY_INVOKE {
            Some(Opcode::ModifyThenInvoke)
        } else if b == INSTRUCTION_VERIFY_MODIFIED {
            Some(Opcode::VerifyModified)
        } else {
            None
        }
    }

    /// The instruction byte that selects this opcode.
    pub open spec fn spec_to_byte(self) -> u8 {
        match self {
            Opcode::Modify => INSTRUCTION_MODIFY,
            Opcode::InvokeThenModify => INSTRUCTION_INVOKE_MODIFY,
            Opcode::ModifyThenInvoke => INSTRUCTION_MODIFY_INVOKE,
            Opcode::VerifyModified => INSTRUCTION_VERIFY_MODIFIED,
        }
    }

    /// Encode this opcode as its instruction byte.
    pub fn to_byte(self) -> (r: u8)
        ensures
            r == self.spec_to_byte(),
    {
        match self {
            Opcode::Modify => INSTRUCTION_MODIFY,
            Opcode::InvokeThenModify => INSTRUCTION_INVOKE_MODIFY,
            Opcode::ModifyThenInvoke => INSTRUCTION_MODIFY_INVOKE,
            Opcode::VerifyModified => INSTRUCTION_VERIFY_MODIFIED,
        }
    }

    /// The value the subject byte must hold on entry to this opcode's
    /// branch; any other value fires the branch's assertion.
    pub open spec fn spec_expected_byte(self) -> u8 {
        match self {
            Opcode::VerifyModified => 1u8,
            _ => 0u8,
        }
    }

    /// Executable form of [`Opcode::spec_expected_byte`].
    pub fn expected_byte(self) -> (r: u8)
        ensures
            r == self.spec_expected_byte(),
    {
        match self {
            Opcode::VerifyModified => 1u8,
            _ => 0u8,
        }
    }

    /// Whether this opcode's branch writes the subject byte in its own
    /// frame before any nested invocation.
    pub open spec fn spec_writes_subject(self) -> bool {
        match self {
            Opcode::Modify | Opcode::ModifyThenInvoke => true,
            _ => false,
        }
    }

    /// Executable form of [`Opcode::spec_writes_subject`].
    pub fn writes_subject(self) -> (r: bool)
        ensures
            r == self.spec_writes_subject(),
    {
        match self {
            Opcode::Modify | Opcode::ModifyThenInvoke => true,
            _ => false,
        }
    }

    /// The opcode this branch hands to its nested self-invocation, if it
    /// issues one. At most one invocation per frame, and the nested opcode
    /// never invokes again, so recursion depth is bounded by one.
    pub open spec fn spec_nested(self) -> Option<Opcode> {
        match self {
            Opcode::InvokeThenModify => Some(Opcode::Modify),
            Opcode::ModifyThenInvoke => Some(Opcode::VerifyModified),
            _ => None,
        }
    }

    /// Executable form of [`Opcode::spec_nested`].
    pub fn nested(self) -> (r: Option<Opcode>)
        ensures
            r == self.spec_nested(),
    {
        match self {
            Opcode::InvokeThenModify => Some(Opcode::Modify),
            Opcode::ModifyThenInvoke => Some(Opcode::VerifyModified),
            _ => None,
        }
    }

    /// The diagnostic trace line for this opcode's branch; advisory only,
    /// no effect on control flow.
    pub fn trace_line(self) -> (r: &'static str)
        ensures
            self is Modify ==> r@ == "modify ro account"@,
            self is InvokeThenModify ==> r@ == "invoke and modify ro account"@,
            self is ModifyThenInvoke ==> r@ == "modify and invoke ro account"@,
            self is VerifyModified ==> r@ == "verify modified"@,
    {
        match self {
            Opcode::Modify => "modify ro account",
            Opcode::InvokeThenModify => "invoke and modify ro account",
            Opcode::ModifyThenInvoke => "modify and invoke ro account",
            Opcode::VerifyModified => "verify modified",
        }
    }
}

} // verus!
