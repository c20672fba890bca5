use pye_cli::api::{check_api_response, endpoint_url, low_balance_alert_request, ApiFunction};
use pye_cli::error::PyeCliError;

#[test]
fn endpoints_live_under_functions_v1() {
    let base = "https://example.supabase.co";
    assert_eq!(
        endpoint_url(base, ApiFunction::GetCliAlertInfo),
        "https://example.supabase.co/functions/v1/get_cli_alert_info"
    );
    assert_eq!(
        endpoint_url(base, ApiFunction::BondPaymentsV2),
        "https://example.supabase.co/functions/v1/bond_payments_v2"
    );
    assert_eq!(
        endpoint_url(base, ApiFunction::UpdateBondPaymentSignatures),
        "https://example.supabase.co/functions/v1/update_bond_payment_signatures"
    );
    assert_eq!(
        endpoint_url(base, ApiFunction::SendCliLowBalanceAlert),
        "https://example.supabase.co/functions/v1/send_cli_low_balance_alert"
    );
    assert_eq!(
        endpoint_url(base, ApiFunction::CliHeartbeat),
        "https://example.supabase.co/functions/v1/cli_heartbeat"
    );
}

#[test]
fn statuses_below_300_pass_the_body_through() {
    assert_eq!(check_api_response(200, "[]".to_string()), Ok("[]".to_string()));
    assert_eq!(check_api_response(204, String::new()), Ok(String::new()));
    assert_eq!(check_api_response(299, "x".to_string()), Ok("x".to_string()));
}

#[test]
fn statuses_from_300_are_api_errors() {
    assert_eq!(
        check_api_response(300, "moved".to_string()),
        Err(PyeCliError::PyeApiError(300, "moved".to_string()))
    );
    assert_eq!(
        check_api_response(401, "unauthorized".to_string()),
        Err(PyeCliError::PyeApiError(401, "unauthorized".to_string()))
    );
    assert_eq!(
        check_api_response(500, "boom".to_string()),
        Err(PyeCliError::PyeApiError(500, "boom".to_string()))
    );
}

#[test]
fn alert_request_writes_the_balance_in_decimal() {
    let r = low_balance_alert_request("ops@example.com".to_string(), 812, 1_500_000_000);
    assert_eq!(r.recipient_email, "ops@example.com");
    assert_eq!(r.current_epoch, 812);
    assert_eq!(r.balance_lamports, "1500000000");
}

#[test]
fn error_messages_name_the_variant() {
    assert_eq!(PyeCliError::ReqwestError("timeout".into()).message(), "ReqwestError: timeout");
    assert_eq!(PyeCliError::SerdeJsonError("eof".into()).message(), "SerdeJsonError: eof");
    assert_eq!(PyeCliError::TryFromIntError("big".into()).message(), "TryFromIntError: big");
    assert_eq!(
        PyeCliError::SolanaClientError("rpc".into()).message(),
        "SolanaClientError: rpc"
    );
    assert_eq!(PyeCliError::DialoguerError("tty".into()).message(), "DialoguerError: tty");
    assert_eq!(PyeCliError::AuthFailed("key".into()).message(), "AuthFailed: key");
    assert_eq!(
        PyeCliError::ReadKeypairError("missing".into()).message(),
        "ReadKeypairError: missing"
    );
    assert_eq!(
        PyeCliError::PyeApiError(503, "down".into()).message(),
        "PyeApiError: 503 down"
    );
}
