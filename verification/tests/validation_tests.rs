//! Every rejection of the validation functions and of directive parsing.

use nginx_x402::amount::Amount;
use nginx_x402::config::{FacilitatorFallback, X402Config};
use nginx_x402::error::{ConfigError, ValidationError};
use nginx_x402::validation::{
    chain_id_to_network, validate_amount, validate_ethereum_address, validate_network,
    validate_payment_header, validate_resource_path, validate_url,
};

fn message(e: ValidationError) -> String {
    e.message()
}

#[test]
fn test_address_rejections() {
    assert_eq!(
        message(validate_ethereum_address("").err().unwrap()),
        "Configuration error: Ethereum address cannot be empty"
    );
    assert_eq!(
        message(validate_ethereum_address("0x12").err().unwrap()),
        "Configuration error: Invalid Ethereum address length: expected 42 characters, got 4"
    );
    assert_eq!(
        message(validate_ethereum_address("1x209693Bc6afc0C5328bA36FaF03C514EF312287C").err().unwrap()),
        "Configuration error: Ethereum address must start with 0x"
    );
    assert_eq!(
        message(validate_ethereum_address("0x209693Bc6afc0C5328bA36FaF03C514EF31228zz").err().unwrap()),
        "Configuration error: Ethereum address contains invalid characters (must be hex)"
    );
    assert!(validate_ethereum_address("0XABCDEFabcdef0123456789ABCDEFabcdef012345").is_ok());
}

#[test]
fn test_url_rejections() {
    assert_eq!(
        message(validate_url("").err().unwrap()),
        "Configuration error: URL cannot be empty"
    );
    assert_eq!(
        message(validate_url("ftp://example.com").err().unwrap()),
        "Configuration error: URL must start with http:// or https://"
    );
    assert_eq!(
        message(validate_url("http://").err().unwrap()),
        "Configuration error: URL is too short"
    );
    assert_eq!(
        message(validate_url("https://a b").err().unwrap()),
        "Configuration error: URL contains invalid whitespace characters"
    );
    assert!(validate_url("https://").is_ok());
    assert!(validate_url("http://a").is_ok());
}

#[test]
fn test_network_rejections() {
    assert_eq!(
        message(validate_network("").err().unwrap()),
        "Configuration error: Network name cannot be empty"
    );
    assert!(matches!(
        validate_network("ethereum"),
        Err(ValidationError::UnsupportedNetwork { .. })
    ));
    assert_eq!(
        message(chain_id_to_network(1).err().unwrap()),
        "Configuration error: Unsupported network_id (chainId): 1. Supported chainIds: 8453 (base), 84532 (base-sepolia)"
    );
    assert_eq!(chain_id_to_network(8453).unwrap(), "base");
    assert_eq!(chain_id_to_network(84532).unwrap(), "base-sepolia");
}

#[test]
fn test_amount_rejections() {
    assert_eq!(
        message(validate_amount(Amount::new(-1, 0)).err().unwrap()),
        "Configuration error: Amount cannot be negative"
    );
    assert_eq!(
        message(validate_amount(Amount::new(10000000005, 1)).err().unwrap()),
        "Configuration error: Amount too large: maximum is 1000000000 USDC, got 1000000000.5"
    );
    assert_eq!(
        message(validate_amount(Amount::new(1, 7)).err().unwrap()),
        "Configuration error: Amount has too many decimal places: maximum is 6, got 7"
    );
    assert!(validate_amount(Amount::new(1000000000, 0)).is_ok());
    assert!(validate_amount(Amount::new(1000000000000000, 6)).is_ok());
}

#[test]
fn test_resource_rejections() {
    assert_eq!(
        message(validate_resource_path(" \t").err().unwrap()),
        "Configuration error: Resource path cannot be empty"
    );
    assert_eq!(
        message(validate_resource_path("/a/../b").err().unwrap()),
        "Configuration error: Resource path contains invalid characters"
    );
    let long = format!("/{}", "a".repeat(2048));
    assert_eq!(
        message(validate_resource_path(&long).err().unwrap()),
        "Configuration error: Resource path is too long"
    );
    let longest = format!("/{}", "a".repeat(2047));
    assert_eq!(validate_resource_path(&longest).unwrap(), longest);
}

#[test]
fn test_payment_header_rejections() {
    assert_eq!(
        message(validate_payment_header("").err().unwrap()),
        "Configuration error: X-PAYMENT header cannot be empty"
    );
    let big = "A".repeat(16385);
    assert_eq!(
        message(validate_payment_header(&big).err().unwrap()),
        "Configuration error: X-PAYMENT header too large: maximum is 16384 bytes, got 16385"
    );
    assert!(validate_payment_header(&"A".repeat(16384)).is_ok());
    assert_eq!(
        message(validate_payment_header("abc$").err().unwrap()),
        "Configuration error: X-PAYMENT header contains invalid Base64 characters"
    );
    assert!(validate_payment_header("eyJhIjoxfQ==+/").is_ok());
}

fn parse_error(field: fn(&mut X402Config) -> &mut Vec<u8>, value: &[u8]) -> String {
    let mut c = X402Config::unset();
    *field(&mut c) = value.to_vec();
    c.parse().err().map(|e: ConfigError| e.to_string()).unwrap_or_default()
}

#[test]
fn test_directive_rejections() {
    assert_eq!(parse_error(|c| &mut c.amount_str, b"\xff"), "Invalid amount string encoding");
    assert_eq!(
        parse_error(|c| &mut c.pay_to_str, b"\xff"),
        "Invalid pay_to string encoding"
    );
    assert_eq!(
        parse_error(|c| &mut c.network_id_str, b"abc"),
        "Invalid network_id format: invalid digit found in string"
    );
    assert_eq!(
        parse_error(|c| &mut c.network_id_str, b"99999999999999999999"),
        "Invalid network_id format: number too large to fit in target type"
    );
    assert_eq!(
        parse_error(|c| &mut c.asset_decimals_str, b"29"),
        "asset_decimals must be at most 28 (Decimal max precision)"
    );
    assert_eq!(
        parse_error(|c| &mut c.asset_decimals_str, b"256"),
        "Invalid asset_decimals format: number too large to fit in target type"
    );
    assert_eq!(
        parse_error(|c| &mut c.timeout_str, b"0"),
        "Timeout must be at least 1 second"
    );
    assert_eq!(
        parse_error(|c| &mut c.timeout_str, b"301"),
        "Timeout must be at most 300 seconds (5 minutes)"
    );
    assert_eq!(
        parse_error(|c| &mut c.timeout_str, b"+"),
        "Invalid timeout format: invalid digit found in string"
    );
    assert_eq!(
        parse_error(|c| &mut c.ttl_str, b"3601"),
        "ttl must be at most 3600 seconds (1 hour)"
    );
    assert_eq!(
        parse_error(|c| &mut c.facilitator_fallback_str, b"retry"),
        "Invalid facilitator_fallback value. Must be 'error' or 'pass'"
    );
}

#[test]
fn test_directive_values() {
    let mut c = X402Config::unset();
    c.timeout_str = b"30".to_vec();
    c.ttl_str = b"+60".to_vec();
    c.facilitator_fallback_str = b"Bypass".to_vec();
    c.network_id_str = b"8453".to_vec();
    c.network_str = b"not-even-checked".to_vec();
    c.asset_decimals_str = b"18".to_vec();
    let p = c.parse().unwrap();
    assert!(!p.enabled);
    assert_eq!(p.timeout, Some(30));
    assert_eq!(p.ttl, Some(60));
    assert_eq!(p.facilitator_fallback, FacilitatorFallback::Pass);
    assert_eq!(p.network_id, Some(8453));
    assert_eq!(p.network, None);
    assert_eq!(p.asset_decimals, Some(18));
    let unset = X402Config::unset().parse().unwrap();
    assert_eq!(unset.facilitator_fallback, FacilitatorFallback::Error);
    assert!(unset.amount.is_none() && unset.timeout.is_none() && unset.ttl.is_none());
}
