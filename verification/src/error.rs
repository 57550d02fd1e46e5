//! The failures a handler can report, each with a stable numeric code.

use vstd::prelude::*;

verus! {

/// Why a handler refused an instruction.
#[derive(Debug, Clone, Copy, PartialEq, Eq, Structural)]
pub enum SolcatError {
    InvalidAddress,
    InvalidRiskScore,
    InsufficientStake,
    ReportAlreadyExists,
    NotAuthorized,
    InvalidReportData,
    InsufficientReputation,
    TimeLockActive,
    InvalidVoteWeight,
    ReportLimitExceeded,
    CooldownActive,
    InsufficientTokenBalance,
    InvalidTokenMint,
    StakingDisabled,
    InvalidStakeAmount,
    StakeLocked,
    InvalidRewardCalculation,
    TreasuryMismatch,
    InvalidBatchReport,
    BatchVerificationPending,
    AddressAlreadyBlacklisted,
    InvalidBlacklistOperation,
    HistoryUpdateFailed,
}

impl SolcatError {
    /// The code of each failure: its position in the declaration, from zero.
    pub open spec fn spec_code(self) -> nat {
        match self {
            SolcatError::InvalidAddress => 0,
            SolcatError::InvalidRiskScore => 1,
            SolcatError::InsufficientStake => 2,
            SolcatError::ReportAlreadyExists => 3,
            SolcatError::NotAuthorized => 4,
            SolcatError::InvalidReportData => 5,
            SolcatError::InsufficientReputation => 6,
            SolcatError::TimeLockActive => 7,
            SolcatError::InvalidVoteWeight => 8,
            SolcatError::ReportLimitExceeded => 9,
            SolcatError::CooldownActive => 10,
            SolcatError::InsufficientTokenBalance => 11,
            SolcatError::InvalidTokenMint => 12,
            SolcatError::StakingDisabled => 13,
            SolcatError::InvalidStakeAmount => 14,
            SolcatError::StakeLocked => 15,
            SolcatError::InvalidRewardCalculation => 16,
            SolcatError::TreasuryMismatch => 17,
            SolcatError::InvalidBatchReport => 18,
            SolcatError::BatchVerificationPending => 19,
            SolcatError::AddressAlreadyBlacklisted => 20,
            SolcatError::InvalidBlacklistOperation => 21,
            SolcatError::HistoryUpdateFailed => 22,
        }
    }

    /// The stable numeric reason handed to the host.
    pub fn code(&self) -> (c: u32)
        ensures
            c == self.spec_code(),
    {
        match self {
            SolcatError::InvalidAddress => 0,
            SolcatError::InvalidRiskScore => 1,
            SolcatError::InsufficientStake => 2,
            SolcatError::ReportAlreadyExists => 3,
            SolcatError::NotAuthorized => 4,
            SolcatError::InvalidReportData => 5,
            SolcatError::InsufficientReputation => 6,
            SolcatError::TimeLockActive => 7,
            SolcatError::InvalidVoteWeight => 8,
            SolcatError::ReportLimitExceeded => 9,
            SolcatError::CooldownActive => 10,
            SolcatError::InsufficientTokenBalance => 11,
            SolcatError::InvalidTokenMint => 12,
            SolcatError::StakingDisabled => 13,
            SolcatError::InvalidStakeAmount => 14,
            SolcatError::StakeLocked => 15,
            SolcatError::InvalidRewardCalculation => 16,
            SolcatError::TreasuryMismatch => 17,
            SolcatError::InvalidBatchReport => 18,
            SolcatError::BatchVerificationPending => 19,
            SolcatError::AddressAlreadyBlacklisted => 20,
            SolcatError::InvalidBlacklistOperation => 21,
            SolcatError::HistoryUpdateFailed => 22,
        }
    }

    /// What each failure says of itself.
    pub open spec fn spec_message(self) -> Seq<char> {
        match self {
            SolcatError::InvalidAddress => "Invalid address format"@,
            SolcatError::InvalidRiskScore => "Invalid risk score"@,
            SolcatError::InsufficientStake => "Insufficient stake"@,
            SolcatError::ReportAlreadyExists => "Report already exists"@,
            SolcatError::NotAuthorized => "Not authorized"@,
            SolcatError::InvalidReportData => "Invalid report data"@,
            SolcatError::InsufficientReputation => "Insufficient reputation"@,
            SolcatError::TimeLockActive => "Time lock active"@,
            SolcatError::InvalidVoteWeight => "Invalid vote weight"@,
            SolcatError::ReportLimitExceeded => "Report limit exceeded"@,
            SolcatError::CooldownActive => "Cooldown period active"@,
            SolcatError::InsufficientTokenBalance => "Insufficient token balance"@,
            SolcatError::InvalidTokenMint => "Invalid token mint"@,
            SolcatError::StakingDisabled => "Staking disabled"@,
            SolcatError::InvalidStakeAmount => "Invalid stake amount"@,
            SolcatError::StakeLocked => "Stake locked"@,
            SolcatError::InvalidRewardCalculation => "Invalid reward calculation"@,
            SolcatError::TreasuryMismatch => "Treasury account mismatch"@,
            SolcatError::InvalidBatchReport => "Invalid batch report"@,
            SolcatError::BatchVerificationPending => "Batch verification pending"@,
            SolcatError::AddressAlreadyBlacklisted => "Address already blacklisted"@,
            SolcatError::InvalidBlacklistOperation => "Invalid blacklist operation"@,
            SolcatError::HistoryUpdateFailed => "History update failed"@,
        }
    }

    /// The failure in words.
    pub fn message(&self) -> (m: &'static str)
        ensures
            m@ == self.spec_message(),
    {
        match self {
            SolcatError::InvalidAddress => "Invalid address format",
            SolcatError::InvalidRiskScore => "Invalid risk score",
            SolcatError::InsufficientStake => "Insufficient stake",
            SolcatError::ReportAlreadyExists => "Report already exists",
            SolcatError::NotAuthorized => "Not authorized",
            SolcatError::InvalidReportData => "Invalid report data",
            SolcatError::InsufficientReputation => "Insufficient reputation",
            SolcatError::TimeLockActive => "Time lock active",
            SolcatError::InvalidVoteWeight => "Invalid vote weight",
            SolcatError::ReportLimitExceeded => "Report limit exceeded",
            SolcatError::CooldownActive => "Cooldown period active",
            SolcatError::InsufficientTokenBalance => "Insufficient token balance",
            SolcatError::InvalidTokenMint => "Invalid token mint",
            SolcatError::StakingDisabled => "Staking disabled",
            SolcatError::InvalidStakeAmount => "Invalid stake amount",
            SolcatError::StakeLocked => "Stake locked",
            SolcatError::InvalidRewardCalculation => "Invalid reward calculation",
            SolcatError::TreasuryMismatch => "Treasury account mismatch",
            SolcatError::InvalidBatchReport => "Invalid batch report",
            SolcatError::BatchVerificationPending => "Batch verification pending",
            SolcatError::AddressAlreadyBlacklisted => "Address already blacklisted",
            SolcatError::InvalidBlacklistOperation => "Invalid blacklist operation",
            SolcatError::HistoryUpdateFailed => "History update failed",
        }
    }
}

/// Distinct failures have distinct codes.
pub proof fn lemma_code_injective(a: SolcatError, b: SolcatError)
    requires
        a.spec_code() == b.spec_code(),
    ensures
        a == b,
{
}

} // verus!
