//! The audit trail of an address, which only grows, and its blacklist flag,
//! which is set once and never cleared.

use vstd::prelude::*;
use crate::error::SolcatError;
use crate::state::{Address, AddressReport, HistoricalReport, ReportHistory};

verus! {

/// The entry that a report leaves in the trail at `now`.
pub open spec fn snapshot_of(report: AddressReport, now: i64) -> HistoricalReport {
    HistoricalReport {
        timestamp: now,
        risk_score: report.risk_score,
        reporter: report.reporter,
        description: report.description,
    }
}

/// Enters the report, as it stands at `now`, at the end of the trail.
pub fn update_history(report: &AddressReport, history: &mut ReportHistory, now: i64)
    ensures
        final(history).reports@ == old(history).reports@.push(snapshot_of(*report, now)),
        final(history).address == old(history).address,
        final(history).is_blacklisted == old(history).is_blacklisted,
        final(history).blacklist_reason == old(history).blacklist_reason,
        final(history).blacklist_timestamp == old(history).blacklist_timestamp,
{
    history.reports.push(
        HistoricalReport {
            timestamp: now,
            risk_score: report.risk_score,
            reporter: report.reporter,
            description: report.description.clone(),
        },
    );
}

/// Why a blacklisting is refused, if it is.
pub open spec fn blacklist_rejection(
    authority: Address,
    authority_is_signer: bool,
    admin: Address,
    is_blacklisted: bool,
) -> Option<SolcatError> {
    if !authority_is_signer || authority@ != admin@ {
        Some(SolcatError::NotAuthorized)
    } else if is_blacklisted {
        Some(SolcatError::AddressAlreadyBlacklisted)
    } else {
        None
    }
}

/// Blacklists the address of this history for `reason`, on the word of the
/// administrator `admin`. An address that is blacklisted stays so.
pub fn blacklist_address(
    authority: Address,
    authority_is_signer: bool,
    admin: Address,
    history: &mut ReportHistory,
    reason: String,
    now: i64,
) -> (r: Result<(), SolcatError>)
    ensures
        match r {
            Ok(_) => {
                &&& blacklist_rejection(
                    authority,
                    authority_is_signer,
                    admin,
                    old(history).is_blacklisted,
                ) is None
                &&& *final(history) == (ReportHistory {
                    is_blacklisted: true,
                    blacklist_reason: reason,
                    blacklist_timestamp: now,
                    ..*old(history)
                })
            },
            Err(e) => {
                &&& blacklist_rejection(
                    authority,
                    authority_is_signer,
                    admin,
                    old(history).is_blacklisted,
                ) == Some(e)
                &&& *final(history) == *old(history)
            },
        },
        old(history).is_blacklisted ==> final(history).is_blacklisted,
{
    if !authority_is_signer || !authority.same(&admin) {
        return Err(SolcatError::NotAuthorized);
    }
    if history.is_blacklisted {
        return Err(SolcatError::AddressAlreadyBlacklisted);
    }
    history.is_blacklisted = true;
    history.blacklist_reason = reason;
    history.blacklist_timestamp = now;
    Ok(())
}

/// Once an address is blacklisted, every further blacklisting is refused,
/// and one by the administrator is refused because the address already is.
pub proof fn lemma_blacklist_is_one_way(authority: Address, authority_is_signer: bool, admin: Address)
    ensures
        blacklist_rejection(authority, authority_is_signer, admin, true) is Some,
        authority_is_signer && authority@ == admin@ ==> blacklist_rejection(
            authority,
            authority_is_signer,
            admin,
            true,
        ) == Some(SolcatError::AddressAlreadyBlacklisted),
{
}

} // verus!
