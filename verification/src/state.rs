//! The persisted records and the invariants over their fields.

use vstd::prelude::*;

verus! {

/// The 32-byte key under which the host addresses a record or an identity.
#[derive(Debug, Clone, Copy, PartialEq, Eq, Hash)]
pub struct Address {
    pub bytes: [u8; 32],
}

impl View for Address {
    type V = Seq<u8>;

    open spec fn view(&self) -> Seq<u8> {
        self.bytes@
    }
}

impl Address {
    /// The address made of the given bytes.
    pub fn new_from_array(bytes: [u8; 32]) -> (a: Address)
        ensures
            a@ == bytes@,
            a.bytes == bytes,
    {
        Address { bytes }
    }

    /// The bytes of the address.
    pub fn to_bytes(&self) -> (b: [u8; 32])
        ensures
            b@ == self@,
    {
        self.bytes
    }

    /// Whether two addresses hold the same 32 bytes.
    pub fn same(&self, other: &Address) -> (r: bool)
        ensures
            r == (self@ == other@),
    {
        let mut i: usize = 0;
        while i < 32
            invariant
                i <= 32,
                forall|j: int| 0 <= j < i ==> self.bytes@[j] == other.bytes@[j],
            decreases 32 - i,
        {
            if self.bytes[i] != other.bytes[i] {
                return false;
            }
            i += 1;
        }
        assert(self@ =~= other@);
        true
    }
}

/// The kind of threat a report claims.
#[derive(Debug, Clone, Copy, PartialEq, Eq, Structural)]
pub enum RiskType {
    Scam,
    Phishing,
    Malware,
    Ransomware,
    MoneyLaundering,
    MarketManipulation,
    Unknown,
}

/// The evidence a reporter declares for a report.
#[derive(Debug)]
pub struct RiskAssessment {
    pub base_score: u8,
    pub risk_types: Vec<RiskType>,
    pub confidence_score: u8,
    pub evidence_count: u32,
    pub last_update: i64,
}

impl RiskAssessment {
    /// Both declared scores are percentages.
    pub open spec fn wf(&self) -> bool {
        self.base_score <= 100 && self.confidence_score <= 100
    }
}

/// The behaviour observed of the reported address.
#[derive(Debug)]
pub struct RiskMetrics {
    pub transaction_volume: u64,
    pub unique_interactions: u32,
    pub age_of_account: i64,
    pub suspicious_patterns: Vec<String>,
}

/// One reporter's current claim about one address.
#[derive(Debug)]
pub struct AddressReport {
    pub reporter: Address,
    pub reported_address: Address,
    pub risk_score: u8,
    pub stake_amount: u64,
    pub timestamp: i64,
    pub description: String,
    pub vote_weight: u32,
    pub last_update_time: i64,
    pub time_lock_end: i64,
    pub risk_assessment: RiskAssessment,
    pub risk_metrics: RiskMetrics,
}

impl AddressReport {
    /// The published score is a percentage.
    pub open spec fn wf(&self) -> bool {
        self.risk_score <= 100
    }
}

/// What all reports about one address add up to.
#[derive(Debug)]
pub struct AddressStats {
    pub total_reports: u32,
    pub risk_scores: Vec<u8>,
    pub total_stake: u64,
    pub last_update: i64,
    pub weighted_risk_score: u32,
    pub total_vote_weight: u32,
}

impl AddressStats {
    /// The statistics of an address nobody has reported yet.
    pub open spec fn is_fresh(&self) -> bool {
        &&& self.total_reports == 0
        &&& self.risk_scores@ == Seq::<u8>::empty()
        &&& self.total_stake == 0
        &&& self.last_update == 0
        &&& self.weighted_risk_score == 0
        &&& self.total_vote_weight == 0
    }

    /// The stored statistics, or fresh ones where the record is absent.
    pub fn load_or_default(stored: Option<AddressStats>) -> (s: AddressStats)
        ensures
            stored is Some ==> s == stored->Some_0,
            stored is None ==> s.is_fresh(),
    {
        match stored {
            Some(s) => s,
            None => AddressStats {
                total_reports: 0,
                risk_scores: Vec::new(),
                total_stake: 0,
                last_update: 0,
                weighted_risk_score: 0,
                total_vote_weight: 0,
            },
        }
    }
}

/// A reporter's reputation, rate-limit state and stake.
#[derive(Debug, Clone, Copy, PartialEq, Eq)]
pub struct ReporterStats {
    pub total_reports: u32,
    pub successful_reports: u32,
    pub total_stake: u64,
    pub reputation_score: u8,
    pub last_report_time: i64,
    pub reports_in_window: u32,
    pub cooldown_end_time: i64,
    pub token_balance: u64,
    pub rewards_claimed: u64,
}

impl ReporterStats {
    /// The reputation is a percentage.
    pub open spec fn wf(&self) -> bool {
        self.reputation_score <= 100
    }
}

/// The parameters of the network, which handlers only read.
#[derive(Debug, Clone, Copy, PartialEq, Eq)]
pub struct GlobalConfig {
    pub min_stake_amount: u64,
    pub reward_rate: u64,
    pub token_mint: Address,
    pub treasury: Address,
    pub total_supply: u64,
    pub circulating_supply: u64,
    pub staking_enabled: bool,
    pub min_lock_duration: i64,
}

/// The accumulator shared by all token stakers.
#[derive(Debug, Clone, Copy, PartialEq, Eq)]
pub struct StakePool {
    pub total_staked: u64,
    pub reward_per_token: u64,
    pub last_update_time: i64,
    pub reward_rate: u64,
}

/// One staker's position in the pool.
#[derive(Debug, Clone, Copy, PartialEq, Eq)]
pub struct UserStake {
    pub owner: Address,
    pub amount: u64,
    pub rewards_earned: u64,
    pub reward_per_token_paid: u64,
    pub lock_end_time: i64,
}

impl UserStake {
    /// The position of an owner who has staked nothing yet.
    pub open spec fn fresh(owner: Address) -> UserStake {
        UserStake { owner, amount: 0, rewards_earned: 0, reward_per_token_paid: 0, lock_end_time: 0 }
    }

    /// The stored position, or an empty one of `owner` where the record is absent.
    pub fn load_or_default(stored: Option<UserStake>, owner: Address) -> (s: UserStake)
        ensures
            stored is Some ==> s == stored->Some_0,
            stored is None ==> s == UserStake::fresh(owner),
    {
        match stored {
            Some(s) => s,
            None => UserStake {
                owner,
                amount: 0,
                rewards_earned: 0,
                reward_per_token_paid: 0,
                lock_end_time: 0,
            },
        }
    }
}

/// A report as it stood when it was entered into the audit trail.
#[derive(Debug)]
pub struct HistoricalReport {
    pub timestamp: i64,
    pub risk_score: u8,
    pub reporter: Address,
    pub description: String,
}

/// The audit trail of an address, with its blacklist flag.
#[derive(Debug)]
pub struct ReportHistory {
    pub address: Address,
    pub reports: Vec<HistoricalReport>,
    pub is_blacklisted: bool,
    pub blacklist_reason: String,
    pub blacklist_timestamp: i64,
}

impl ReportHistory {
    /// The history of `address` before anything was entered.
    pub open spec fn is_fresh(&self, address: Address) -> bool {
        &&& self.address == address
        &&& self.reports@ == Seq::<HistoricalReport>::empty()
        &&& !self.is_blacklisted
        &&& self.blacklist_reason@ == Seq::<char>::empty()
        &&& self.blacklist_timestamp == 0
    }

    /// The stored history, or an empty one of `address` where the record is absent.
    pub fn load_or_default(stored: Option<ReportHistory>, address: Address) -> (h: ReportHistory)
        ensures
            stored is Some ==> h == stored->Some_0,
            stored is None ==> h.is_fresh(address),
    {
        match stored {
            Some(h) => h,
            None => ReportHistory {
                address,
                reports: Vec::new(),
                is_blacklisted: false,
                blacklist_reason: String::new(),
                blacklist_timestamp: 0,
            },
        }
    }
}

/// Where a batch stands in its review.
#[derive(Debug, Clone, Copy, PartialEq, Eq, Structural)]
pub enum VerificationStatus {
    Pending,
    Verified,
    Rejected,
}

/// Several addresses reported at once, awaiting a verifier.
#[derive(Debug)]
pub struct BatchReport {
    pub reporter: Address,
    pub addresses: Vec<Address>,
    pub risk_scores: Vec<u8>,
    pub timestamp: i64,
    pub verification_status: VerificationStatus,
}

impl BatchReport {
    /// One to ten addresses, each with a percentage beside it.
    pub open spec fn wf(&self) -> bool {
        &&& 1 <= self.addresses@.len() <= 10
        &&& self.risk_scores@.len() == self.addresses@.len()
        &&& forall|i: int| 0 <= i < self.risk_scores@.len() ==> self.risk_scores@[i] <= 100
    }
}

} // verus!
