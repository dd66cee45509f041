//! Error kinds.

use vstd::prelude::*;

verus! {

/// The failures that this program raises on its own account.
#[derive(Clone, Copy, Debug, PartialEq, Eq, Structural)]
pub enum OneSolError {
    /// A value or a relation between the supplied accounts is not acceptable.
    InvalidInput,
    /// The instruction payload does not name a known instruction.
    InvalidInstruction,
    /// The supplied authority is not the address derived for the pool.
    InvalidProgramAddress,
    /// The token account is delegated to somebody else.
    InvalidDelegate,
    /// The token account is owned by somebody else.
    InvalidOwner,
    /// Source or destination is the pool's own token account.
    IncorrectSwapAccount,
    /// The routed output is below the caller's minimum.
    ExceededSlippage,
    /// A token account is not owned by the supplied token program.
    IncorrectTokenProgramId,
    /// The account's data is not a token account.
    ExpectedAccount,
    /// A number did not fit its target type.
    ConversionFailure,
    /// A trade would move no tokens.
    ZeroTradingTokens,
    /// An internal inconsistency.
    InternalError,
    /// Anything else.
    Unknown,
}

impl OneSolError {
    /// The diagnostic line that belongs to each kind.
    pub open spec fn spec_label(self) -> Seq<char> {
        match self {
            OneSolError::Unknown => "Error: Unknown"@,
            OneSolError::ExceededSlippage => "Error: ExceededSlippage"@,
            OneSolError::IncorrectSwapAccount => "Error: IncorrectSwapAccount"@,
            OneSolError::InvalidDelegate => "Error: InvalidDelegate"@,
            OneSolError::InvalidInstruction => "Error: InvalidInstruction"@,
            OneSolError::InvalidInput => "Error: InvalidInput"@,
            OneSolError::InvalidOwner => "Error: InvalidOwner"@,
            OneSolError::InvalidProgramAddress => "Error: InvildProgramAddress"@,
            OneSolError::ExpectedAccount => "Error: ExpectedAccount"@,
            OneSolError::IncorrectTokenProgramId => "Error: IncorrectTokenProgramId"@,
            OneSolError::ConversionFailure => "Error: ConversionFailure"@,
            OneSolError::ZeroTradingTokens => "Error: ZeroTradingTokens"@,
            OneSolError::InternalError => "Error: InternalError"@,
        }
    }

    /// The human-readable line to log before the failure is handed to the
    /// caller.
    pub fn label(&self) -> (s: &'static str)
        ensures
            s@ == self.spec_label(),
    {
        match self {
            OneSolError::Unknown => "Error: Unknown",
            OneSolError::ExceededSlippage => "Error: ExceededSlippage",
            OneSolError::IncorrectSwapAccount => "Error: IncorrectSwapAccount",
            OneSolError::InvalidDelegate => "Error: InvalidDelegate",
            OneSolError::InvalidInstruction => "Error: InvalidInstruction",
            OneSolError::InvalidInput => "Error: InvalidInput",
            OneSolError::InvalidOwner => "Error: InvalidOwner",
            OneSolError::InvalidProgramAddress => "Error: InvildProgramAddress",
            OneSolError::ExpectedAccount => "Error: ExpectedAccount",
            OneSolError::IncorrectTokenProgramId => "Error: IncorrectTokenProgramId",
            OneSolError::ConversionFailure => "Error: ConversionFailure",
            OneSolError::ZeroTradingTokens => "Error: ZeroTradingTokens",
            OneSolError::InternalError => "Error: InternalError",
        }
    }
}

/// Why an invocation failed.
#[derive(Clone, Copy, Debug, PartialEq, Eq, Structural)]
pub enum ProgramFailure {
    /// One of this program's own error kinds.
    Protocol(OneSolError),
    /// The pool account is not owned by this program.
    IncorrectProgramId,
    /// The account list ends before the accounts that the instruction needs.
    NotEnoughAccountKeys,
    /// A fixed-size record was given a buffer of another size.
    InvalidAccountData,
    /// A collaborator failed; its numeric code is handed on as it came.
    Collaborator(u64),
}

} // verus!
