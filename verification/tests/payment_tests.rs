//! Reading the payment and the requirements of the C interface.

use nginx_x402::ffi::{TextArg, STATUS_INVALID_INPUT};
use nginx_x402::payment::{
    body_402, facilitator_request, json_answer, paywall_page, requirements_to_json,
    verification_inputs,
};
use nginx_x402::networks::NetworkKind;
use nginx_x402::requirements::PaymentRequirements;
use rust_x402::types::{ExactEvmPayload, ExactEvmPayloadAuthorization, PaymentPayload};

const REQUIREMENT: &str = r#"{"scheme":"exact","network":"base-sepolia","maxAmountRequired":"1000000","asset":"0x036CbD53842c5426634e7929541eC2318f3dCF7e","payTo":"0x209693Bc6afc0C5328bA36FaF03C514EF312287C","resource":"/test","description":"Test","maxTimeoutSeconds":60}"#;

fn text(s: &str) -> TextArg {
    TextArg::Text(s.to_string())
}

fn requirement_list() -> String {
    format!("[{}]", REQUIREMENT)
}

fn encoded_payment() -> String {
    let authorization = ExactEvmPayloadAuthorization::new(
        "0x857b06519E91e3A54538791bDbb0E22373e36b66",
        "0x209693Bc6afc0C5328bA36FaF03C514EF312287C",
        "1000000",
        "1745323800",
        "1745323985",
        "0xf3746613c2d920b5fdabc0856f2aeb2d4f88ee6037b8cc5d04a71a4462f13480",
    );
    let payload = ExactEvmPayload {
        signature: "0x2d6a7588d6acca505cbf0d9a4a227e0c52c6c34008c8e8986a1283259764173608a2ce6496642e377d6da8dbbf5836e9bd15092f9ecab05ded3d6293af148b571c".to_string(),
        authorization,
    };
    PaymentPayload::new("exact", "base-sepolia", payload).to_base64().unwrap()
}

#[test]
fn test_verification_inputs_read() {
    let inputs = verification_inputs(&text(&encoded_payment()), &text(REQUIREMENT), &TextArg::Null)
        .ok()
        .unwrap();
    assert_eq!(inputs.facilitator_url, "https://x402.org/facilitator");
    assert_eq!(inputs.payload.network, "base-sepolia");
    assert_eq!(inputs.requirements.max_amount_required, "1000000");

    let custom = verification_inputs(
        &text(&encoded_payment()),
        &text(REQUIREMENT),
        &text("https://facilitator.example"),
    )
    .ok()
    .unwrap();
    assert_eq!(custom.facilitator_url, "https://facilitator.example");
}

#[test]
fn test_verification_inputs_refused() {
    let payment = encoded_payment();
    let refused = |p: &TextArg, q: &TextArg, f: &TextArg| match verification_inputs(p, q, f) {
        Err(code) => code,
        Ok(_) => panic!("the inputs should be refused"),
    };
    assert_eq!(refused(&TextArg::Null, &text(REQUIREMENT), &TextArg::Null), STATUS_INVALID_INPUT);
    assert_eq!(refused(&TextArg::NotUtf8, &text(REQUIREMENT), &TextArg::Null), STATUS_INVALID_INPUT);
    assert_eq!(refused(&text(&payment), &TextArg::Null, &TextArg::Null), STATUS_INVALID_INPUT);
    assert_eq!(refused(&text(&payment), &text(REQUIREMENT), &TextArg::NotUtf8), STATUS_INVALID_INPUT);
    assert_eq!(refused(&text("not base64!"), &text(REQUIREMENT), &TextArg::Null), STATUS_INVALID_INPUT);
    assert_eq!(refused(&text("aGVsbG8="), &text(REQUIREMENT), &TextArg::Null), STATUS_INVALID_INPUT);
    assert_eq!(refused(&text(&payment), &text("not valid json"), &TextArg::Null), STATUS_INVALID_INPUT);
}

#[test]
fn test_paywall_page_for_requirements() {
    let html = paywall_page(&text(&requirement_list()), &text("Custom error message")).unwrap();
    assert!(html.contains("Custom error message"));
    assert!(html.contains("<!DOCTYPE html>"));
    let default = paywall_page(&text(&requirement_list()), &TextArg::Null).unwrap();
    assert!(default.contains("Payment required"));
}

#[test]
fn test_paywall_page_refused() {
    assert_eq!(paywall_page(&TextArg::Null, &TextArg::Null), Err(STATUS_INVALID_INPUT));
    assert_eq!(paywall_page(&text("not valid json"), &TextArg::Null), Err(STATUS_INVALID_INPUT));
    assert_eq!(paywall_page(&text(REQUIREMENT), &TextArg::Null), Err(STATUS_INVALID_INPUT));
}

#[test]
fn test_json_answer_structure() {
    let answer = json_answer(&text(&requirement_list()), &TextArg::Null).unwrap();
    let json: serde_json::Value = serde_json::from_str(&answer).unwrap();
    assert_eq!(json["error"], "X-PAYMENT header is required");
    assert_eq!(json["accepts"][0]["payTo"], "0x209693Bc6afc0C5328bA36FaF03C514EF312287C");
    assert_eq!(json["x402Version"], 1);

    let failed = json_answer(&text(&requirement_list()), &text("Payment verification failed")).unwrap();
    assert!(failed.contains("Payment verification failed"));
}

#[test]
fn test_json_answer_refused() {
    assert_eq!(json_answer(&TextArg::Null, &TextArg::Null), Err(STATUS_INVALID_INPUT));
    assert_eq!(json_answer(&text("not valid json"), &TextArg::Null), Err(STATUS_INVALID_INPUT));
}

fn library_requirements() -> PaymentRequirements {
    let mut q = PaymentRequirements::new(
        "exact".to_string(),
        "base-sepolia".to_string(),
        "1000".to_string(),
        "0x036CbD53842c5426634e7929541eC2318f3dCF7e".to_string(),
        "0x209693bc6afc0c5328ba36faf03c514ef312287c".to_string(),
        "/api".to_string(),
        "Payment required".to_string(),
    );
    q.set_usdc_info(NetworkKind::Testnet);
    q
}

#[test]
fn test_body_402_html_or_json() {
    let accepts = vec![library_requirements()];
    let html = body_402(true, "Pay first", &accepts).ok().unwrap();
    assert!(html.contains("<!DOCTYPE html>"));
    assert!(html.contains("Pay first"));
    assert!(html.contains("0x209693bc6afc0c5328ba36faf03c514ef312287c"));
    let json = body_402(false, "Pay first", &accepts).ok().unwrap();
    let value: serde_json::Value = serde_json::from_str(&json).unwrap();
    assert_eq!(value["error"], "Pay first");
    assert_eq!(value["x402Version"], 1);
    assert_eq!(value["accepts"][0]["maxAmountRequired"], "1000");
    assert_eq!(value["accepts"][0]["resource"], "/api");
    assert_eq!(value["accepts"][0]["maxTimeoutSeconds"], 60);
    assert_eq!(value["accepts"][0]["extra"]["name"], "USDC");
    assert_eq!(value["accepts"][0]["extra"]["version"], "2");
}

#[test]
fn test_requirements_to_json() {
    let json = requirements_to_json(&library_requirements()).unwrap();
    let value: serde_json::Value = serde_json::from_str(&json).unwrap();
    assert_eq!(value["scheme"], "exact");
    assert_eq!(value["network"], "base-sepolia");
    assert_eq!(value["payTo"], "0x209693bc6afc0c5328ba36faf03c514ef312287c");
    assert_eq!(value["asset"], "0x036CbD53842c5426634e7929541eC2318f3dCF7e");
    assert_eq!(value["extra"]["name"], "USDC");
    assert!(value.get("mimeType").is_none());
}

#[test]
fn test_facilitator_request() {
    let q = library_requirements();
    let (payload, requirements) = facilitator_request(&encoded_payment(), &q).unwrap();
    assert_eq!(payload.scheme, "exact");
    assert_eq!(requirements.pay_to, "0x209693bc6afc0c5328ba36faf03c514ef312287c");
    assert_eq!(requirements.max_amount_required, "1000");
    assert!(facilitator_request("not base64!", &q).is_none());
}
