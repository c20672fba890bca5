//! The records that the Pye backend exchanges with the daemon, the endpoints it
//! serves, and how its answers are judged.

use vstd::prelude::*;

use crate::error::PyeCliError;
use crate::text::{decimal, decimal_string};

verus! {

/// A pending bond payment as the backend lists it.
#[derive(Debug, Clone, PartialEq, Eq)]
pub struct BondPaymentsV2 {
    pub id: String,
    pub bond_pubkey: String,
    /// Lamports already paid.
    pub amount: u64,
    pub fee_payer: Option<String>,
    /// May be absent in the backend's records.
    pub is_jito_claim: Option<bool>,
    pub epoch: u64,
    pub finalized: bool,
    pub signature: Option<String>,
    pub finalization_attempts: u16,
    /// Lamports that should have been paid in all.
    pub expected_amount: u64,
    pub organization_id: u64,
    pub validator_vote_account: String,
}

/// What the backend knows about low-balance alerts.
#[derive(Debug, Clone, PartialEq, Eq)]
pub struct CliAlertInfo {
    /// The last epoch for which an alert was sent, if any.
    pub cli_low_balance_alert_last_epoch: Option<u64>,
    /// The average expected payout over the last three epochs, as the backend
    /// writes it: a decimal number such as `"197164398.00000000"`.
    pub avg_expected_amount_last_3_epochs: String,
}

/// Which payment goes with which instruction of a transaction.
#[derive(Debug, Clone, PartialEq, Eq)]
pub struct PaymentInfo {
    pub payment_id: String,
    /// Position of the payment's transfer in its transaction, from 0.
    pub instruction_index: u64,
}

/// The body of a request that records a transaction's signature for the
/// payments it carries.
#[derive(Debug, Clone, PartialEq, Eq)]
pub struct SignatureUpdateRequest {
    pub payment_infos: Vec<PaymentInfo>,
    pub signature: String,
}

/// The body of a request that asks the backend to mail a low-balance alert.
#[derive(Debug, Clone, PartialEq, Eq)]
pub struct LowBalanceAlertRequest {
    pub recipient_email: String,
    pub current_epoch: u64,
    /// The payer's balance in lamports, in decimal.
    pub balance_lamports: String,
}

/// The body of a heartbeat report.
#[derive(Debug, Clone, PartialEq, Eq)]
pub struct HeartbeatRequest {
    pub payer_pubkey: String,
    /// The payer's balance in lamports, in decimal.
    pub payer_balance_lamports: String,
    pub version: String,
    /// Present only after an alert was sent; the backend then records the epoch.
    pub current_epoch: Option<u64>,
}

/// The backend functions that the daemon calls.
#[derive(Debug, Clone, Copy, PartialEq, Eq)]
pub enum ApiFunction {
    GetCliAlertInfo,
    BondPaymentsV2,
    UpdateBondPaymentSignatures,
    SendCliLowBalanceAlert,
    CliHeartbeat,
}

/// The name under which the backend serves a function.
pub open spec fn function_name(f: ApiFunction) -> Seq<char> {
    match f {
        ApiFunction::GetCliAlertInfo => "get_cli_alert_info"@,
        ApiFunction::BondPaymentsV2 => "bond_payments_v2"@,
        ApiFunction::UpdateBondPaymentSignatures => "update_bond_payment_signatures"@,
        ApiFunction::SendCliLowBalanceAlert => "send_cli_low_balance_alert"@,
        ApiFunction::CliHeartbeat => "cli_heartbeat"@,
    }
}

/// The URL of a backend function under the backend's base URL.
pub open spec fn function_url(api_url: Seq<char>, f: ApiFunction) -> Seq<char> {
    api_url + "/functions/v1/"@ + function_name(f)
}

impl ApiFunction {
    /// The name under which the backend serves this function.
    pub fn name(&self) -> (r: &'static str)
        ensures
            r@ == function_name(*self),
    {
        match self {
            ApiFunction::GetCliAlertInfo => "get_cli_alert_info",
            ApiFunction::BondPaymentsV2 => "bond_payments_v2",
            ApiFunction::UpdateBondPaymentSignatures => "update_bond_payment_signatures",
            ApiFunction::SendCliLowBalanceAlert => "send_cli_low_balance_alert",
            ApiFunction::CliHeartbeat => "cli_heartbeat",
        }
    }
}

/// The URL to call for `f` on the backend at `api_url`.
pub fn endpoint_url(api_url: &str, f: ApiFunction) -> (r: String)
    ensures
        r@ == function_url(api_url@, f),
{
    let mut r = api_url.to_owned();
    r.append("/functions/v1/");
    r.append(f.name());
    r
}

/// How the daemon judges a backend answer: a status of 300 or more is an
/// error that carries the status and the body; otherwise the body is the
/// answer.
pub fn check_api_response(status: u16, body: String) -> (r: Result<String, PyeCliError>)
    ensures
        status >= 300 ==> r == Err::<String, PyeCliError>(PyeCliError::PyeApiError(status, body)),
        status < 300 ==> r == Ok::<String, PyeCliError>(body),
{
    if status >= 300 {
        Err(PyeCliError::PyeApiError(status, body))
    } else {
        Ok(body)
    }
}

/// The request that asks for an alert to `recipient_email` about a balance of
/// `balance_lamports` in `current_epoch`.
pub fn low_balance_alert_request(
    recipient_email: String,
    current_epoch: u64,
    balance_lamports: u64,
) -> (r: LowBalanceAlertRequest)
    ensures
        r.recipient_email == recipient_email,
        r.current_epoch == current_epoch,
        r.balance_lamports@ == decimal(balance_lamports as nat),
{
    LowBalanceAlertRequest {
        recipient_email,
        current_epoch,
        balance_lamports: decimal_string(balance_lamports),
    }
}

} // verus!
