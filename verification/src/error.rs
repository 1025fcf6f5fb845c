use vstd::prelude::*;

verus! {

/// Why an instruction was refused. A refused instruction changes nothing.
#[derive(Clone, Copy, Debug, PartialEq, Eq, Structural)]
pub enum ErrorCode {
    InvalidFeePercentages,
    LeagueFull,
    LeagueNotActive,
    LeagueAlreadyResolved,
    Unauthorized,
    InvalidLeagueState,
    InsufficientFunds,
    MathOverflow,
    VrfRequestFailed,
    InvalidVrfProof,
}

impl ErrorCode {
    /// The message that accompanies the error.
    pub fn message(&self) -> (text: &'static str)
        ensures
            text@ == (match *self {
                ErrorCode::InvalidFeePercentages => "Invalid fee percentages"@,
                ErrorCode::LeagueFull => "League is full"@,
                ErrorCode::LeagueNotActive => "League not active"@,
                ErrorCode::LeagueAlreadyResolved => "League already resolved"@,
                ErrorCode::Unauthorized => "Unauthorized operation"@,
                ErrorCode::InvalidLeagueState => "Invalid league state"@,
                ErrorCode::InsufficientFunds => "Insufficient funds"@,
                ErrorCode::MathOverflow => "Math overflow"@,
                ErrorCode::VrfRequestFailed => "VRF request failed"@,
                ErrorCode::InvalidVrfProof => "Invalid VRF proof"@,
            }),
    {
        match self {
            ErrorCode::InvalidFeePercentages => "Invalid fee percentages",
            ErrorCode::LeagueFull => "League is full",
            ErrorCode::LeagueNotActive => "League not active",
            ErrorCode::LeagueAlreadyResolved => "League already resolved",
            ErrorCode::Unauthorized => "Unauthorized operation",
            ErrorCode::InvalidLeagueState => "Invalid league state",
            ErrorCode::InsufficientFunds => "Insufficient funds",
            ErrorCode::MathOverflow => "Math overflow",
            ErrorCode::VrfRequestFailed => "VRF request failed",
            ErrorCode::InvalidVrfProof => "Invalid VRF proof",
        }
    }
}

} // verus!
