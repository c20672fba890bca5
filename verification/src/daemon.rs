//! The payment daemon's settings and the decisions it takes once a cycle's
//! payments are done: whether to send a low-balance alert, and what the
//! heartbeat reports.

use vstd::prelude::*;

use crate::api::{low_balance_alert_request, CliAlertInfo, HeartbeatRequest, LowBalanceAlertRequest};
use crate::solana::{address_text, Payer};
use crate::text::{
    all_digits, before_first_dot, chars_of, decimal, decimal_string, first_dot, has_visible_text,
    is_digit, is_white_space, lemma_before_first_dot, lemma_decimal_digits,
    lemma_parse_decimal_roundtrip, parse_decimal_u64, parse_u64, trim_bounds, trim_end,
    trim_start, trimmed,
};

verus! {

/// The version that heartbeats report (semantic versioning).
pub const CLI_HEARTBEAT_VERSION: &'static str = "2.0.1";

/// Seconds between two cycles of the daemon: five minutes.
pub const CYCLE_SECS: u64 = 300;

/// The settings that the daemon runs with.
#[derive(Debug, Clone, PartialEq, Eq)]
pub struct CommonHandlerArgs {
    /// The Solana RPC endpoint.
    pub rpc_url: String,
    /// Path to the payer's keypair file.
    pub payer: String,
    pub pye_api_key: String,
    pub api_url: String,
    /// Where low-balance alerts go; none are sent without it.
    pub cli_alert_email: Option<String>,
}

/// How far the cluster is into its current epoch.
#[derive(Debug, Clone, Copy, PartialEq, Eq)]
pub struct EpochProgress {
    pub epoch: u64,
    pub slot_index: u64,
    pub slots_in_epoch: u64,
}

/// What to do about a low balance this cycle.
#[derive(Debug, Clone, PartialEq, Eq)]
pub struct AlertPlan {
    /// The balance calls for an alert.
    pub should_alert: bool,
    /// The alert to send, when one is due and there is an address to send it to.
    pub request: Option<LowBalanceAlertRequest>,
}

/// The whole lamports of the backend's average payout: the digits before the
/// decimal point of the trimmed text, or 0 when they do not make a `u64`.
pub open spec fn avg_lamports(avg_text: Seq<char>) -> u64 {
    match parse_u64(before_first_dot(trimmed(avg_text))) {
        Some(v) => v,
        None => 0,
    }
}

/// The balance under which an alert is due: three average payouts, saturating
/// at `u64::MAX`.
pub open spec fn alert_threshold(avg: u64) -> u64 {
    if avg * 3 <= u64::MAX {
        (avg * 3) as u64
    } else {
        u64::MAX
    }
}

/// Half of the epoch's slots have passed, by when payouts are done.
pub open spec fn is_past_half_epoch(p: EpochProgress) -> bool {
    p.slot_index * 2 >= p.slots_in_epoch
}

/// An alert was already sent for this epoch or a later one.
pub open spec fn already_alerted(last_alert_epoch: Option<u64>, epoch: u64) -> bool {
    match last_alert_epoch {
        Some(last) => epoch <= last,
        None => false,
    }
}

/// An alert is due: the balance is under three average payouts, none was sent
/// for this epoch yet, the average is positive and half the epoch is over.
pub open spec fn alert_due(p: EpochProgress, info: CliAlertInfo, balance: u64) -> bool {
    let avg = avg_lamports(info.avg_expected_amount_last_3_epochs@);
    &&& balance < alert_threshold(avg)
    &&& !already_alerted(info.cli_low_balance_alert_last_epoch, p.epoch)
    &&& avg > 0
    &&& is_past_half_epoch(p)
}

/// Once the backend has recorded an alert for an epoch, no other alert is due
/// in that epoch or any earlier one, whatever the balance.
pub proof fn lemma_alert_at_most_once_per_epoch(p: EpochProgress, info: CliAlertInfo, balance: u64)
    requires
        info.cli_low_balance_alert_last_epoch matches Some(last) && p.epoch <= last,
    ensures
        !alert_due(p, info, balance),
{
}

/// Any `u64` written in decimal reads back as itself, alone or followed by a
/// decimal point and fraction digits: the whole lamports are never cut.
pub proof fn law_avg_reads_decimal_back(n: u64, fraction: Seq<char>)
    requires
        all_digits(fraction),
    ensures
        avg_lamports(decimal(n as nat)) == n,
        avg_lamports(decimal(n as nat) + seq!['.'] + fraction) == n,
{
    let d = decimal(n as nat);
    lemma_decimal_digits(n as nat);
    lemma_parse_decimal_roundtrip(n);
    assert(is_digit(d[0]));
    assert(!is_white_space(d[0]));
    assert(is_digit(d.last()));
    // Alone: nothing to trim, and no dot.
    assert(trim_start(d) == d);
    assert(trim_end(d) == d);
    assert forall|m: int| 0 <= m < d.len() implies d[m] != '.' by {
        assert(is_digit(d[m]));
    }
    lemma_before_first_dot(d, d.len() as int);
    assert(d.take(d.len() as int) =~= d);
    // With a fraction: nothing to trim either, and the first dot follows the digits.
    let s = d + seq!['.'] + fraction;
    assert(s[0] == d[0]);
    assert(trim_start(s) == s);
    assert(!is_white_space(s.last())) by {
        if fraction.len() > 0 {
            assert(s.last() == fraction.last());
            assert(is_digit(fraction[fraction.len() - 1]));
        } else {
            assert(s.last() == '.');
        }
    }
    assert(trim_end(s) == s);
    assert forall|m: int| 0 <= m < d.len() implies s[m] != '.' by {
        assert(s[m] == d[m]);
        assert(is_digit(d[m]));
    }
    assert(s[d.len() as int] == '.');
    lemma_before_first_dot(s, d.len() as int);
    assert(s.take(d.len() as int) =~= d);
}

/// An average that the text writes as an integer part is read as that part;
/// a text whose integer part is no `u64` is read as 0.
pub proof fn law_avg_is_integer_part(avg_text: Seq<char>)
    ensures
        parse_u64(before_first_dot(trimmed(avg_text))) matches Some(v) ==> avg_lamports(avg_text) == v,
        parse_u64(before_first_dot(trimmed(avg_text))) is None ==> avg_lamports(avg_text) == 0,
{
}

/// The threshold is three average payouts whenever that fits in a `u64`, and
/// `u64::MAX` otherwise: never more than three payouts, never less unless
/// capped, and a larger average never lowers it.
pub proof fn law_threshold_is_three_payouts(avg: u64, other: u64)
    ensures
        alert_threshold(avg) <= 3 * avg,
        alert_threshold(avg) == 3 * avg || (alert_threshold(avg) == u64::MAX && 3 * avg > u64::MAX),
        avg <= other ==> alert_threshold(avg) <= alert_threshold(other),
{
}

/// When an alert is due, in terms of the inputs: an alert is due exactly when
/// the balance is under three average payouts (and under `u64::MAX` when three
/// payouts do not fit), the average is positive, half the epoch's slots have
/// passed and the backend has recorded no alert for this epoch or a later one.
/// So a lower balance never makes an alert less due.
pub proof fn law_alert_due(p: EpochProgress, info: CliAlertInfo, balance: u64, lower: u64)
    ensures
        ({
            let avg = avg_lamports(info.avg_expected_amount_last_3_epochs@);
            alert_due(p, info, balance) <==> {
                &&& balance < 3 * avg
                &&& (3 * avg <= u64::MAX || balance < u64::MAX)
                &&& avg > 0
                &&& p.slot_index * 2 >= p.slots_in_epoch
                &&& match info.cli_low_balance_alert_last_epoch {
                    Some(last) => last < p.epoch,
                    None => true,
                }
            }
        }),
        lower <= balance && alert_due(p, info, balance) ==> alert_due(p, info, lower),
{
}

/// The whole lamports of the backend's average payout text.
pub fn parse_avg_lamports(avg_text: &str) -> (r: u64)
    ensures
        r == avg_lamports(avg_text@),
{
    let v = chars_of(avg_text);
    let (lo, hi) = trim_bounds(&v);
    let k = first_dot(&v, lo, hi);
    match parse_decimal_u64(&v, lo, k) {
        Some(n) => n,
        None => 0,
    }
}

/// Three average payouts, saturating at `u64::MAX`.
pub fn threshold_for(avg: u64) -> (r: u64)
    ensures
        r == alert_threshold(avg),
        r <= 3 * avg,
        r == 3 * avg || (r == u64::MAX && 3 * avg > u64::MAX),
{
    match avg.checked_mul(3) {
        Some(t) => t,
        None => u64::MAX,
    }
}

/// Whether half of the epoch's slots have passed.
pub fn past_half_epoch(p: EpochProgress) -> (r: bool)
    ensures
        r == is_past_half_epoch(p),
{
    if p.slot_index >= p.slots_in_epoch {
        true
    } else {
        p.slot_index >= p.slots_in_epoch - p.slot_index
    }
}

/// What to do about the payer's balance: with the epoch's progress and the
/// backend's alert record both known, an alert is due as `alert_due` says, and
/// it goes out when an address with something besides white space is set; with
/// either unknown, nothing is done.
pub fn plan_low_balance_alert(
    progress: Option<EpochProgress>,
    info: Option<CliAlertInfo>,
    balance_lamports: u64,
    alert_email: &Option<String>,
) -> (r: AlertPlan)
    ensures
        match (progress, info) {
            (Some(p), Some(i)) => {
                &&& r.should_alert == alert_due(p, i, balance_lamports)
                &&& (r.request is Some <==> (r.should_alert && (alert_email matches Some(e)
                    && trimmed(e@).len() > 0)))
                &&& r.request matches Some(req) ==> {
                    &&& req.recipient_email == alert_email->0
                    &&& req.current_epoch == p.epoch
                    &&& req.balance_lamports@ == decimal(balance_lamports as nat)
                }
            },
            _ => !r.should_alert && r.request is None,
        },
{
    match (progress, info) {
        (Some(p), Some(i)) => {
            let avg = parse_avg_lamports(i.avg_expected_amount_last_3_epochs.as_str());
            let below_threshold = balance_lamports < threshold_for(avg);
            let already = match i.cli_low_balance_alert_last_epoch {
                Some(last) => p.epoch <= last,
                None => false,
            };
            let should = below_threshold && !already && avg > 0 && past_half_epoch(p);
            let request = if should {
                match alert_email {
                    Some(e) => {
                        if has_visible_text(e.as_str()) {
                            Some(low_balance_alert_request(e.clone(), p.epoch, balance_lamports))
                        } else {
                            None
                        }
                    },
                    None => None,
                }
            } else {
                None
            };
            AlertPlan { should_alert: should, request }
        },
        _ => AlertPlan { should_alert: false, request: None },
    }
}

/// The epoch that the heartbeat reports an alert for: the alert's epoch when
/// one was planned and sending it succeeded, otherwise none.
pub fn alert_sent_for_epoch(plan: &AlertPlan, sent: bool) -> (r: Option<u64>)
    ensures
        r == (if sent && plan.request is Some {
            Some(plan.request->0.current_epoch)
        } else {
            None
        }),
{
    match &plan.request {
        Some(req) => if sent {
            Some(req.current_epoch)
        } else {
            None
        },
        None => None,
    }
}

/// The heartbeat: the payer's address, its balance in decimal, this version
/// and the epoch an alert was sent for, if any.
pub fn heartbeat_report(
    payer: &Payer,
    balance_lamports: u64,
    alert_sent_for_epoch: Option<u64>,
) -> (r: HeartbeatRequest)
    ensures
        r.payer_pubkey@ == address_text(payer.spec_address()@),
        r.payer_balance_lamports@ == decimal(balance_lamports as nat),
        r.version@ == CLI_HEARTBEAT_VERSION@,
        r.current_epoch == alert_sent_for_epoch,
{
    HeartbeatRequest {
        payer_pubkey: payer.address_text(),
        payer_balance_lamports: decimal_string(balance_lamports),
        version: CLI_HEARTBEAT_VERSION.to_owned(),
        current_epoch: alert_sent_for_epoch,
    }
}

} // verus!
