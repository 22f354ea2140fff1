//! The decisions of the payment and access-phase handlers.

use nginx_x402::amount::Amount;
use nginx_x402::config::{FacilitatorFallback, ParsedX402Config, X402Config};
use nginx_x402::error::ConfigError;
use nginx_x402::handler::{
    finish_payment_check, plan_402_response, start_for_location, start_payment_check,
    verification_result, verify_precheck, FacilitatorOutcome, HandlerAction, HandlerStep,
    CONFIGURATION_ERROR, DEFAULT_FACILITATOR_TIMEOUT_SECS, INVALID_PAYMENT,
    PAYMENT_VERIFICATION_FAILED, TIMEOUT,
};
use nginx_x402::panic_handler::catch_panic_or_default;
use nginx_x402::phase::{
    handle_skip_payment_method, head_or_trace_status, phase_action, PhaseAction, SkipAction,
};
use nginx_x402::request::HttpMethod;
use nginx_x402::requirements::PaymentRequirements;

const PAY_TO: &str = "0x209693Bc6afc0C5328bA36FaF03C514EF312287C";

fn config() -> ParsedX402Config {
    ParsedX402Config {
        enabled: true,
        amount: Some(Amount::new(1, 3)),
        pay_to: Some(PAY_TO.to_string()),
        facilitator_url: Some("https://x402.org/facilitator".to_string()),
        description: Some("Article".to_string()),
        network: Some("base-sepolia".to_string()),
        network_id: None,
        resource: None,
        asset: None,
        asset_decimals: None,
        timeout: None,
        facilitator_fallback: FacilitatorFallback::Error,
        ttl: None,
    }
}

fn some_requirements() -> PaymentRequirements {
    PaymentRequirements::new(
        "exact".to_string(),
        "base".to_string(),
        "1000".to_string(),
        "0xa".to_string(),
        "0xb".to_string(),
        "/".to_string(),
        "".to_string(),
    )
}

#[test]
fn test_disabled_location_passes() {
    let mut c = config();
    c.enabled = false;
    c.amount = None;
    assert!(matches!(start_payment_check(&c, None, None, Some("/x"), None), Some(HandlerStep::Pass)));
}

#[test]
fn test_request_without_payment_is_asked_to_pay() {
    match start_payment_check(&config(), None, None, Some("/article/1"), None) {
        Some(HandlerStep::RequirePayment { requirements }) => {
            assert_eq!(requirements.resource, "/article/1");
            assert_eq!(requirements.max_amount_required, "1000");
            assert_eq!(requirements.network, "base-sepolia");
        }
        other => panic!("unexpected step {:?}", other),
    }
    match start_payment_check(&config(), None, None, None, None) {
        Some(HandlerStep::RequirePayment { requirements }) => {
            assert_eq!(requirements.resource, "/")
        }
        other => panic!("unexpected step {:?}", other),
    }
}

#[test]
fn test_requirements_name_the_full_url() {
    match start_payment_check(&config(), None, Some("example.com"), Some("/api/protected"), None) {
        Some(HandlerStep::RequirePayment { requirements }) => {
            assert_eq!(requirements.resource, "http://example.com/api/protected")
        }
        other => panic!("unexpected step {:?}", other),
    }
    match start_payment_check(&config(), Some("HTTPS"), Some("example.com"), Some("/a"), None) {
        Some(HandlerStep::RequirePayment { requirements }) => {
            assert_eq!(requirements.resource, "https://example.com/a")
        }
        other => panic!("unexpected step {:?}", other),
    }
    let mut c = config();
    c.resource = Some("https://api.example.com/item".to_string());
    match start_payment_check(&c, None, Some("example.com"), Some("/a"), None) {
        Some(HandlerStep::RequirePayment { requirements }) => {
            assert_eq!(requirements.resource, "https://api.example.com/item")
        }
        other => panic!("unexpected step {:?}", other),
    }
}

#[test]
fn test_malformed_payment_fails() {
    match start_payment_check(&config(), None, None, Some("/x"), Some("not base64!")) {
        Some(HandlerStep::Fail { error }) => assert_eq!(
            error.to_string(),
            "Configuration error: X-PAYMENT header contains invalid Base64 characters"
        ),
        other => panic!("unexpected step {:?}", other),
    }
    match start_payment_check(&config(), None, None, Some("/x"), Some("")) {
        Some(HandlerStep::Fail { error }) => assert_eq!(
            error.to_string(),
            "Configuration error: X-PAYMENT header cannot be empty"
        ),
        other => panic!("unexpected step {:?}", other),
    }
}

#[test]
fn test_payment_without_facilitator_fails() {
    let mut c = config();
    c.facilitator_url = None;
    match start_payment_check(&c, None, None, Some("/x"), Some("eyJ4NDAy")) {
        Some(HandlerStep::Fail { error }) => {
            assert_eq!(error.to_string(), "Facilitator URL not configured")
        }
        other => panic!("unexpected step {:?}", other),
    }
}

#[test]
fn test_payment_is_verified() {
    let mut c = config();
    match start_payment_check(&c, None, None, Some("/x"), Some("eyJ4NDAy")) {
        Some(HandlerStep::Verify { payment, facilitator_url, timeout_secs, .. }) => {
            assert_eq!(payment, "eyJ4NDAy");
            assert_eq!(facilitator_url, "https://x402.org/facilitator");
            assert_eq!(timeout_secs, DEFAULT_FACILITATOR_TIMEOUT_SECS);
            assert_eq!(timeout_secs, 10);
        }
        other => panic!("unexpected step {:?}", other),
    }
    c.timeout = Some(30);
    match start_payment_check(&c, None, None, Some("/x"), Some("eyJ4NDAy")) {
        Some(HandlerStep::Verify { timeout_secs, .. }) => assert_eq!(timeout_secs, 30),
        other => panic!("unexpected step {:?}", other),
    }
}

#[test]
fn test_requirement_errors_fail_the_request() {
    match start_payment_check(&config(), None, None, Some("/../secret"), None) {
        Some(HandlerStep::Fail { error }) => assert_eq!(
            error.to_string(),
            "Configuration error: Resource path contains invalid characters"
        ),
        other => panic!("unexpected step {:?}", other),
    }
}

#[test]
fn test_start_for_location() {
    let mut raw = X402Config::unset();
    raw.enabled = 1;
    raw.amount_str = b"-1".to_vec();
    match start_for_location(&raw, None, None, Some("/x"), None) {
        Err(e) => assert_eq!(e.to_string(), "Configuration error: Amount cannot be negative"),
        Ok(_) => panic!("a negative amount must be refused"),
    }
    raw.amount_str = b"0.25".to_vec();
    raw.pay_to_str = PAY_TO.as_bytes().to_vec();
    match start_for_location(&raw, None, None, Some("/x"), None) {
        Ok(Some(HandlerStep::RequirePayment { requirements })) => {
            assert_eq!(requirements.max_amount_required, "250000");
            assert_eq!(requirements.network, "base");
        }
        other => panic!("unexpected step {:?}", other),
    }
}

#[test]
fn test_start_for_location_amount_out_of_range() {
    let mut raw = X402Config::unset();
    raw.enabled = 1;
    raw.amount_str = b"1000000000".to_vec();
    raw.pay_to_str = PAY_TO.as_bytes().to_vec();
    raw.asset_str = b"0x1111111111111111111111111111111111111111".to_vec();
    raw.asset_decimals_str = b"28".to_vec();
    assert!(matches!(start_for_location(&raw, None, None, Some("/x"), None), Ok(None)));
    raw.asset_decimals_str = b"13".to_vec();
    match start_for_location(&raw, None, None, Some("/x"), None) {
        Ok(Some(HandlerStep::RequirePayment { requirements })) => {
            assert_eq!(requirements.max_amount_required, "10000000000000000000000")
        }
        other => panic!("unexpected step {:?}", other),
    }
}

#[test]
fn test_precheck_of_verification() {
    assert_eq!(verify_precheck("", "https://f").err().unwrap().to_string(), "Invalid payment");
    assert_eq!(verify_precheck("abc", "").err().unwrap().to_string(), "Configuration error");
    assert!(verify_precheck("abc", "https://f").is_ok());
    assert_eq!(INVALID_PAYMENT, "Invalid payment");
    assert_eq!(CONFIGURATION_ERROR, "Configuration error");
}

#[test]
fn test_verification_results() {
    assert_eq!(
        verification_result(FacilitatorOutcome::Answered { is_valid: true }).unwrap(),
        true
    );
    assert_eq!(
        verification_result(FacilitatorOutcome::Answered { is_valid: false }).unwrap(),
        false
    );
    assert_eq!(
        verification_result(FacilitatorOutcome::PayloadUnreadable).err().unwrap().to_string(),
        INVALID_PAYMENT
    );
    assert_eq!(
        verification_result(FacilitatorOutcome::Failed).err().unwrap().to_string(),
        PAYMENT_VERIFICATION_FAILED
    );
    assert_eq!(
        verification_result(FacilitatorOutcome::TimedOut).err().unwrap().to_string(),
        TIMEOUT
    );
    let e = ConfigError::msg("Lock poisoned");
    assert_eq!(
        verification_result(FacilitatorOutcome::ClientUnavailable { error: e })
            .err()
            .unwrap()
            .to_string(),
        "Lock poisoned"
    );
}

#[test]
fn test_after_verification() {
    let q = some_requirements();
    assert!(matches!(
        finish_payment_check(q.clone(), FacilitatorFallback::Error, Ok(true)),
        HandlerAction::Allow
    ));
    match finish_payment_check(q.clone(), FacilitatorFallback::Pass, Ok(false)) {
        HandlerAction::Respond402 { error, requirements } => {
            assert_eq!(error, Some("Payment verification failed".to_string()));
            assert_eq!(requirements.max_amount_required, "1000");
        }
        other => panic!("unexpected action {:?}", other),
    }
    match finish_payment_check(q.clone(), FacilitatorFallback::Error, Err(ConfigError::msg("x"))) {
        HandlerAction::RespondError { status, content_type, body } => {
            assert_eq!(status, 500);
            assert_eq!(content_type, "text/plain; charset=utf-8");
            assert_eq!(body, "Internal server error");
        }
        other => panic!("unexpected action {:?}", other),
    }
    assert!(matches!(
        finish_payment_check(q, FacilitatorFallback::Pass, Err(ConfigError::msg("x"))),
        HandlerAction::Allow
    ));
}

#[test]
fn test_402_response_plan() {
    let r = plan_402_response(true, Some("Payment verification failed"), Some("Article"));
    assert!(r.html);
    assert_eq!(r.content_type, "text/html; charset=utf-8");
    assert_eq!(r.message, "Payment verification failed");
    let r = plan_402_response(false, None, Some("Article"));
    assert!(!r.html);
    assert_eq!(r.content_type, "application/json; charset=utf-8");
    assert_eq!(r.message, "Article");
    assert_eq!(plan_402_response(false, None, None).message, "");
}

#[test]
fn test_phase_actions() {
    assert_eq!(
        phase_action(Some(HttpMethod::Options), true, true, b"/x", Some(1)),
        PhaseAction::SkipMethod { method: HttpMethod::Options }
    );
    assert_eq!(
        phase_action(Some(HttpMethod::Get), true, false, b"/x", Some(1)),
        PhaseAction::ClearAndDecline
    );
    assert_eq!(phase_action(Some(HttpMethod::Get), false, true, b"/x", Some(1)), PhaseAction::Decline);
    assert_eq!(phase_action(None, false, false, b"@fallback", Some(1)), PhaseAction::Decline);
    assert_eq!(phase_action(Some(HttpMethod::Post), false, false, b"/x", None), PhaseAction::Decline);
    assert_eq!(phase_action(Some(HttpMethod::Post), false, false, b"/x", Some(0)), PhaseAction::Decline);
    assert_eq!(
        phase_action(Some(HttpMethod::Post), false, false, b"/x", Some(1)),
        PhaseAction::CheckPayment
    );
    assert_eq!(phase_action(None, false, false, b"", Some(1)), PhaseAction::CheckPayment);
}

#[test]
fn test_skipped_methods() {
    assert_eq!(handle_skip_payment_method(true, HttpMethod::Head), SkipAction::Forward);
    assert_eq!(handle_skip_payment_method(false, HttpMethod::Options), SkipAction::SendNoContent);
    assert_eq!(
        handle_skip_payment_method(false, HttpMethod::Head),
        SkipAction::SendStatus { status: 200 }
    );
    assert_eq!(
        handle_skip_payment_method(false, HttpMethod::Trace),
        SkipAction::SendStatus { status: 405 }
    );
    assert_eq!(handle_skip_payment_method(false, HttpMethod::Get), SkipAction::ClearAndDecline);
    assert_eq!(head_or_trace_status(HttpMethod::Head), 200);
    assert_eq!(head_or_trace_status(HttpMethod::Trace), 405);
}

#[test]
fn test_panic_guard_default() {
    assert_eq!(catch_panic_or_default(Some(3), 7), 3);
    assert_eq!(catch_panic_or_default(None, 7), 7);
}
