//! How a send fails, and the memo that marks its transactions.

use crate::key::Signature;
use crate::leader::SendRoute;
use vstd::prelude::*;

verus! {

/// Why a transaction was not confirmed. `E` is what the confirmation service
/// reports.
#[derive(Clone, Debug)]
pub enum TxConfirmError<E> {
    /// None of the expected signatures was confirmed in time.
    Timeout { expected_sigs: Vec<Signature>, timeout_secs: u64 },
    /// A failure described in words.
    Other(String),
    /// The report of the confirmation service, as it came.
    Confirm(E),
}

/// The version of the transactions of a send.
#[derive(Clone, Copy, Debug, PartialEq, Eq, Structural)]
pub enum TxVersion {
    V0,
    V1,
}

/// The kind of a send.
#[derive(Clone, Copy, Debug, PartialEq, Eq, Structural)]
pub enum Attempt {
    /// An ordinary send.
    Send,
    /// A send under a single budget.
    WithCost,
    /// A low-cost send.
    Cheap,
    /// A send that bids by tip only, on this route.
    TipOnly(SendRoute),
}

/// What precedes the report of the confirmation service, where a send passes it
/// on in words.
pub open spec fn failure_prefix(attempt: Attempt, version: TxVersion) -> Option<&'static str> {
    match (attempt, version) {
        (Attempt::Send, _) => None,
        (Attempt::WithCost, _) => None,
        (Attempt::Cheap, TxVersion::V0) => Some("send_cheap failed: "),
        (Attempt::Cheap, TxVersion::V1) => Some("send_cheap_v1 failed: "),
        (Attempt::TipOnly(SendRoute::Harmonic), TxVersion::V0) => Some(
            "send_tip_only failed: send_tip_only(harmonic) failed: ",
        ),
        (Attempt::TipOnly(SendRoute::Jito), TxVersion::V0) => Some(
            "send_tip_only failed: send_tip_only(jito) failed: ",
        ),
        (Attempt::TipOnly(_), TxVersion::V0) => Some(
            "send_tip_only failed: send_tip_only(fallback) failed: ",
        ),
        (Attempt::TipOnly(SendRoute::Harmonic), TxVersion::V1) => Some(
            "send_tip_only_v1 failed: send_tip_only_v1(harmonic) failed: ",
        ),
        (Attempt::TipOnly(SendRoute::Jito), TxVersion::V1) => Some(
            "send_tip_only_v1 failed: send_tip_only_v1(jito) failed: ",
        ),
        (Attempt::TipOnly(_), TxVersion::V1) => Some(
            "send_tip_only_v1 failed: send_tip_only_v1(fallback) failed: ",
        ),
    }
}

fn prefix_for(attempt: Attempt, version: TxVersion) -> (r: Option<&'static str>)
    ensures
        r == failure_prefix(attempt, version),
{
    match (attempt, version) {
        (Attempt::Send, _) => None,
        (Attempt::WithCost, _) => None,
        (Attempt::Cheap, TxVersion::V0) => Some("send_cheap failed: "),
        (Attempt::Cheap, TxVersion::V1) => Some("send_cheap_v1 failed: "),
        (Attempt::TipOnly(SendRoute::Harmonic), TxVersion::V0) => Some(
            "send_tip_only failed: send_tip_only(harmonic) failed: ",
        ),
        (Attempt::TipOnly(SendRoute::Jito), TxVersion::V0) => Some(
            "send_tip_only failed: send_tip_only(jito) failed: ",
        ),
        (Attempt::TipOnly(_), TxVersion::V0) => Some(
            "send_tip_only failed: send_tip_only(fallback) failed: ",
        ),
        (Attempt::TipOnly(SendRoute::Harmonic), TxVersion::V1) => Some(
            "send_tip_only_v1 failed: send_tip_only_v1(harmonic) failed: ",
        ),
        (Attempt::TipOnly(SendRoute::Jito), TxVersion::V1) => Some(
            "send_tip_only_v1 failed: send_tip_only_v1(jito) failed: ",
        ),
        (Attempt::TipOnly(_), TxVersion::V1) => Some(
            "send_tip_only_v1 failed: send_tip_only_v1(fallback) failed: ",
        ),
    }
}

/// The error that a send ends with, given the report of the confirmation service
/// and that report in words.
///
/// An ordinary send and a send under a budget hand the report on as it is. The
/// other kinds put its words behind the name of what failed.
pub fn into_tx_confirm_err<E>(
    attempt: Attempt,
    version: TxVersion,
    report: E,
    shown: &str,
) -> (r: TxConfirmError<E>)
    ensures
        match failure_prefix(attempt, version) {
            None => r == TxConfirmError::Confirm(report),
            Some(prefix) => r matches TxConfirmError::Other(text) && text@ == prefix@ + shown@,
        },
{
    match prefix_for(attempt, version) {
        None => TxConfirmError::Confirm(report),
        Some(prefix) => {
            let mut text = prefix.to_owned();
            text.append(shown);
            TxConfirmError::Other(text)
        },
    }
}

/// The memo that marks the transactions: the configured tag, or `default`.
pub fn memo_tag(configured: Option<String>) -> (r: String)
    ensures
        r@ == match configured {
            Some(tag) => tag@,
            None => "default"@,
        },
{
    match configured {
        Some(tag) => tag,
        None => "default".to_owned(),
    }
}

} // verus!
