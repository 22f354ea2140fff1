//! The configuration of the C interface and the requirements it gives.

use nginx_x402::amount::Amount;
use nginx_x402::nginx_config::{NginxX402Config, X402Error};

/// A decimal amount written in text.
fn dec(s: &str) -> Amount {
    Amount::parse(s).unwrap()
}

#[test]
fn config_test_config_creation() {
    let config = NginxX402Config::new(
        dec("0.0001"),
        "0x209693Bc6afc0C5328bA36FaF03C514EF312287C".to_string(),
    );
    assert_eq!(config.amount, dec("0.0001"));
    assert_eq!(config.pay_to, "0x209693Bc6afc0C5328bA36FaF03C514EF312287C");
}

#[test]
fn config_test_create_payment_requirements() {
    let config = NginxX402Config::new(
        dec("0.0001"),
        "0x209693Bc6afc0C5328bA36FaF03C514EF312287C".to_string(),
    );
    let requirements = config.create_payment_requirements("/test").unwrap();
    assert_eq!(requirements.scheme, "exact");
    assert_eq!(requirements.network, "base-sepolia");
}

#[test]
fn mod_test_config_creation() {
    let config = NginxX402Config::new(
        dec("0.0001"),
        "0x209693Bc6afc0C5328bA36FaF03C514EF312287C".to_string(),
    );
    assert_eq!(
        config.amount,
        dec("0.0001"),
        "Amount should match input"
    );
    assert_eq!(
        config.pay_to, "0x209693Bc6afc0C5328bA36FaF03C514EF312287C",
        "Pay-to address should match input"
    );
    assert!(config.testnet, "Should default to testnet");
}

#[test]
fn test_config_default() {
    let config = NginxX402Config::default();
    assert_eq!(
        config.amount,
        dec("0.0001"),
        "Default amount should be 0.0001"
    );
    assert!(config.pay_to.is_empty(), "Default pay_to should be empty");
    assert!(config.testnet, "Default should be testnet");
    assert_eq!(
        config.facilitator_url, "https://x402.org/facilitator",
        "Default facilitator URL should be set"
    );
}

#[test]
fn mod_test_create_payment_requirements() {
    let config = NginxX402Config::new(
        dec("0.0001"),
        "0x209693Bc6afc0C5328bA36FaF03C514EF312287C".to_string(),
    );
    let requirements = config
        .create_payment_requirements("/test")
        .expect("Should create requirements successfully");
    assert_eq!(requirements.scheme, "exact", "Scheme should be exact");
    assert_eq!(
        requirements.network, "base-sepolia",
        "Network should be base-sepolia for testnet"
    );
    assert_eq!(
        requirements.resource, "/test",
        "Resource should match input"
    );
    assert!(
        !requirements.pay_to.is_empty(),
        "Pay-to address should not be empty"
    );
}

#[test]
fn test_create_payment_requirements_with_custom_resource() {
    let mut config = NginxX402Config::new(
        dec("0.0001"),
        "0x209693Bc6afc0C5328bA36FaF03C514EF312287C".to_string(),
    );
    config.resource = Some("/custom/resource".to_string());
    let requirements = config
        .create_payment_requirements("/requested")
        .expect("Should create requirements successfully");
    assert_eq!(
        requirements.resource, "/custom/resource",
        "Should use custom resource instead of request URI"
    );
}

#[test]
fn test_create_payment_requirements_with_description() {
    let mut config = NginxX402Config::new(
        dec("0.0001"),
        "0x209693Bc6afc0C5328bA36FaF03C514EF312287C".to_string(),
    );
    config.description = Some("Custom payment description".to_string());
    let requirements = config
        .create_payment_requirements("/test")
        .expect("Should create requirements successfully");
    assert_eq!(
        requirements.description, "Custom payment description",
        "Description should match input"
    );
}

#[test]
fn test_create_payment_requirements_without_description() {
    let config = NginxX402Config::new(
        dec("0.0001"),
        "0x209693Bc6afc0C5328bA36FaF03C514EF312287C".to_string(),
    );
    let requirements = config
        .create_payment_requirements("/test")
        .expect("Should create requirements successfully");
    assert_eq!(
        requirements.description, "Payment required",
        "Should use default description"
    );
}

#[test]
fn test_create_payment_requirements_mainnet() {
    let mut config = NginxX402Config::new(
        dec("0.0001"),
        "0x209693Bc6afc0C5328bA36FaF03C514EF312287C".to_string(),
    );
    config.testnet = false;
    let requirements = config
        .create_payment_requirements("/test")
        .expect("Should create requirements successfully");
    assert_eq!(
        requirements.network, "base",
        "Network should be base for mainnet"
    );
}

#[test]
fn test_create_payment_requirements_with_explicit_network() {
    let mut config = NginxX402Config::new(
        dec("0.0001"),
        "0x209693Bc6afc0C5328bA36FaF03C514EF312287C".to_string(),
    );
    config.network = Some("base-sepolia".to_string());
    let requirements = config
        .create_payment_requirements("/test")
        .expect("Should create requirements successfully");
    assert_eq!(
        requirements.network, "base-sepolia",
        "Network should match explicit setting"
    );
}

#[test]
fn test_create_payment_requirements_different_amounts() {
    let amounts = vec!["0.0001", "0.001", "0.01", "1.0", "100.0"];

    for amount_str in amounts {
        let amount = Amount::parse(amount_str)
            .unwrap_or_else(|_| panic!("Should parse amount: {}", amount_str));
        let config = NginxX402Config::new(amount, "0x209693Bc6afc0C5328bA36FaF03C514EF312287C".to_string());
        let requirements = config
            .create_payment_requirements("/test")
            .unwrap_or_else(|_| {
                panic!("Should create requirements for amount: {}", amount_str)
            });
        assert!(
            !requirements.max_amount_required.is_empty(),
            "max_amount_required should not be empty for amount: {}",
            amount_str
        );
    }
}

#[test]
fn test_create_payment_requirements_pay_to_lowercase() {
    let config = NginxX402Config::new(
        dec("0.0001"),
        "0x209693Bc6afc0C5328bA36FaF03C514EF312287C".to_string(), // Mixed case
    );
    let requirements = config
        .create_payment_requirements("/test")
        .expect("Should create requirements successfully");
    assert_eq!(
        requirements.pay_to, "0x209693bc6afc0c5328ba36faf03c514ef312287c",
        "Pay-to address should be lowercase"
    );
}

#[test]
fn test_create_payment_requirements_unsupported_network() {
    let mut config = NginxX402Config::new(
        dec("0.0001"),
        "0x209693Bc6afc0C5328bA36FaF03C514EF312287C".to_string(),
    );
    config.network = Some("unsupported-network".to_string());
    let result = config.create_payment_requirements("/test");
    assert!(
        result.is_err(),
        "Should return error for unsupported network"
    );
    match result {
        Err(X402Error::NetworkNotSupported { network }) => {
            assert_eq!(
                network, "unsupported-network",
                "Error should contain network name"
            );
        }
        _ => panic!("Should return NetworkNotSupported error"),
    }
}

#[test]
fn test_create_payment_requirements_empty_pay_to() {
    let config = NginxX402Config::new(
        dec("0.0001"),
        String::new(), // Empty pay_to
    );
    let requirements = config
        .create_payment_requirements("/test")
        .expect("Should create requirements even with empty pay_to");
    assert_eq!(requirements.pay_to, "", "Pay-to should be empty string");
}

#[test]
fn test_create_payment_requirements_zero_amount() {
    let config = NginxX402Config::new(
        dec("0"),
        "0x209693Bc6afc0C5328bA36FaF03C514EF312287C".to_string(),
    );
    let requirements = config
        .create_payment_requirements("/test")
        .expect("Should create requirements with zero amount");
    assert_eq!(
        requirements.max_amount_required, "0",
        "max_amount_required should be 0"
    );
}

#[test]
fn test_create_payment_requirements_very_large_amount() {
    let config = NginxX402Config::new(
        dec("1000000.0"),
        "0x209693Bc6afc0C5328bA36FaF03C514EF312287C".to_string(),
    );
    let requirements = config
        .create_payment_requirements("/test")
        .expect("Should create requirements with large amount");
    assert!(
        !requirements.max_amount_required.is_empty(),
        "max_amount_required should not be empty"
    );
    // Verify it's a valid number
    let max_amount: u64 = requirements
        .max_amount_required
        .parse()
        .expect("max_amount_required should be a valid number");
    assert!(
        max_amount > 0,
        "max_amount_required should be greater than 0"
    );
}
