//! Outcomes of instruction execution, as the tracing helpers see them.

use vstd::prelude::*;

verus! {

/// How the execution of a call frame ended.
///
/// The variants are those of the execution engine's result code, under the
/// same names. The first four are the successful outcomes.
#[derive(Clone, Copy, Debug, PartialEq, Eq, Structural)]
pub enum InstructionResult {
    /// Encountered a `STOP` opcode.
    Stop,
    /// Return from the current call.
    Return,
    /// Self-destruct the current contract.
    SelfDestruct,
    /// Temporarily suspended, for a nested call or create.
    Suspend,
    /// Revert the transaction.
    Revert,
    /// Exceeded maximum call depth.
    CallTooDeep,
    /// Insufficient funds for transfer.
    OutOfFunds,
    /// Init code of a create starts with `0xEF00`.
    CreateInitCodeStartingEF00,
    /// Invalid EVM Object Format init code.
    InvalidEOFInitCode,
    /// An extended delegate call to a contract that is not in EVM Object Format.
    InvalidExtDelegateCallTarget,
    /// Out of gas.
    OutOfGas,
    /// Out of gas during memory expansion.
    MemoryOOG,
    /// The memory limit of the engine has been exceeded.
    MemoryLimitOOG,
    /// Out of gas while running a precompiled contract.
    PrecompileOOG,
    /// Out of gas caused by an invalid operand.
    InvalidOperandOOG,
    /// Out of gas while checking the reentrancy sentry.
    ReentrancySentryOOG,
    /// Unknown or invalid opcode.
    OpcodeNotFound,
    /// A call with value transfer in a static context.
    CallNotAllowedInsideStatic,
    /// A state modification in a static call.
    StateChangeDuringStaticCall,
    /// The designated invalid opcode `0xFE` was executed.
    InvalidFEOpcode,
    /// Jump to a destination that is not a jump destination.
    InvalidJump,
    /// The feature or opcode is not activated in this version of the rules.
    NotActivated,
    /// Pop from an empty stack.
    StackUnderflow,
    /// Push onto a full stack.
    StackOverflow,
    /// Invalid memory or storage offset.
    OutOfOffset,
    /// Address collision during contract creation.
    CreateCollision,
    /// Payment amount overflow.
    OverflowPayment,
    /// Error in a precompiled contract.
    PrecompileError,
    /// Nonce overflow.
    NonceOverflow,
    /// Created contract exceeds the size limit.
    CreateContractSizeLimit,
    /// Created contract starts with the byte `0xEF`.
    CreateContractStartingWithEF,
    /// Init code exceeds the size limit.
    CreateInitCodeSizeLimit,
    /// Fatal error outside the interpreter, such as a database failure.
    FatalExternalError,
    /// Invalid encoding of an instruction's immediate operand.
    InvalidImmediateEncoding,
}

impl InstructionResult {
    /// Whether the outcome is a success.
    pub open spec fn spec_is_ok(self) -> bool {
        self == InstructionResult::Stop || self == InstructionResult::Return
            || self == InstructionResult::SelfDestruct || self == InstructionResult::Suspend
    }

    /// The variant's name, which is how the outcome prints in debug style.
    pub open spec fn spec_name(self) -> Seq<char> {
        match self {
            InstructionResult::Stop => "Stop"@,
            InstructionResult::Return => "Return"@,
            InstructionResult::SelfDestruct => "SelfDestruct"@,
            InstructionResult::Suspend => "Suspend"@,
            InstructionResult::Revert => "Revert"@,
            InstructionResult::CallTooDeep => "CallTooDeep"@,
            InstructionResult::OutOfFunds => "OutOfFunds"@,
            InstructionResult::CreateInitCodeStartingEF00 => "CreateInitCodeStartingEF00"@,
            InstructionResult::InvalidEOFInitCode => "InvalidEOFInitCode"@,
            InstructionResult::InvalidExtDelegateCallTarget => "InvalidExtDelegateCallTarget"@,
            InstructionResult::OutOfGas => "OutOfGas"@,
            InstructionResult::MemoryOOG => "MemoryOOG"@,
            InstructionResult::MemoryLimitOOG => "MemoryLimitOOG"@,
            InstructionResult::PrecompileOOG => "PrecompileOOG"@,
            InstructionResult::InvalidOperandOOG => "InvalidOperandOOG"@,
            InstructionResult::ReentrancySentryOOG => "ReentrancySentryOOG"@,
            InstructionResult::OpcodeNotFound => "OpcodeNotFound"@,
            InstructionResult::CallNotAllowedInsideStatic => "CallNotAllowedInsideStatic"@,
            InstructionResult::StateChangeDuringStaticCall => "StateChangeDuringStaticCall"@,
            InstructionResult::InvalidFEOpcode => "InvalidFEOpcode"@,
            InstructionResult::InvalidJump => "InvalidJump"@,
            InstructionResult::NotActivated => "NotActivated"@,
            InstructionResult::StackUnderflow => "StackUnderflow"@,
            InstructionResult::StackOverflow => "StackOverflow"@,
            InstructionResult::OutOfOffset => "OutOfOffset"@,
            InstructionResult::CreateCollision => "CreateCollision"@,
            InstructionResult::OverflowPayment => "OverflowPayment"@,
            InstructionResult::PrecompileError => "PrecompileError"@,
            InstructionResult::NonceOverflow => "NonceOverflow"@,
            InstructionResult::CreateContractSizeLimit => "CreateContractSizeLimit"@,
            InstructionResult::CreateContractStartingWithEF => "CreateContractStartingWithEF"@,
            InstructionResult::CreateInitCodeSizeLimit => "CreateInitCodeSizeLimit"@,
            InstructionResult::FatalExternalError => "FatalExternalError"@,
            InstructionResult::InvalidImmediateEncoding => "InvalidImmediateEncoding"@,
        }
    }

    /// Returns whether the result is a success.
    #[verifier::when_used_as_spec(spec_is_ok)]
    pub fn is_ok(self) -> (ok: bool)
        ensures
            ok == self.spec_is_ok(),
    {
        matches!(
            self,
            InstructionResult::Stop | InstructionResult::Return | InstructionResult::SelfDestruct
                | InstructionResult::Suspend
        )
    }

    /// Returns the variant's name.
    pub fn name(self) -> (name: &'static str)
        ensures
            name@ == self.spec_name(),
    {
        match self {
            InstructionResult::Stop => "Stop",
            InstructionResult::Return => "Return",
            InstructionResult::SelfDestruct => "SelfDestruct",
            InstructionResult::Suspend => "Suspend",
            InstructionResult::Revert => "Revert",
            InstructionResult::CallTooDeep => "CallTooDeep",
            InstructionResult::OutOfFunds => "OutOfFunds",
            InstructionResult::CreateInitCodeStartingEF00 => "CreateInitCodeStartingEF00",
            InstructionResult::InvalidEOFInitCode => "InvalidEOFInitCode",
            InstructionResult::InvalidExtDelegateCallTarget => "InvalidExtDelegateCallTarget",
            InstructionResult::OutOfGas => "OutOfGas",
            InstructionResult::MemoryOOG => "MemoryOOG",
            InstructionResult::MemoryLimitOOG => "MemoryLimitOOG",
            InstructionResult::PrecompileOOG => "PrecompileOOG",
            InstructionResult::InvalidOperandOOG => "InvalidOperandOOG",
            InstructionResult::ReentrancySentryOOG => "ReentrancySentryOOG",
            InstructionResult::OpcodeNotFound => "OpcodeNotFound",
            InstructionResult::CallNotAllowedInsideStatic => "CallNotAllowedInsideStatic",
            InstructionResult::StateChangeDuringStaticCall => "StateChangeDuringStaticCall",
            InstructionResult::InvalidFEOpcode => "InvalidFEOpcode",
            InstructionResult::InvalidJump => "InvalidJump",
            InstructionResult::NotActivated => "NotActivated",
            InstructionResult::StackUnderflow => "StackUnderflow",
            InstructionResult::StackOverflow => "StackOverflow",
            InstructionResult::OutOfOffset => "OutOfOffset",
            InstructionResult::CreateCollision => "CreateCollision",
            InstructionResult::OverflowPayment => "OverflowPayment",
            InstructionResult::PrecompileError => "PrecompileError",
            InstructionResult::NonceOverflow => "NonceOverflow",
            InstructionResult::CreateContractSizeLimit => "CreateContractSizeLimit",
            InstructionResult::CreateContractStartingWithEF => "CreateContractStartingWithEF",
            InstructionResult::CreateInitCodeSizeLimit => "CreateInitCodeSizeLimit",
            InstructionResult::FatalExternalError => "FatalExternalError",
            InstructionResult::InvalidImmediateEncoding => "InvalidImmediateEncoding",
        }
    }
}

} // verus!
