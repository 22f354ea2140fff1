//! Payment requirements of a location.

use nginx_x402::amount::{Amount, MAX_MANTISSA};
use nginx_x402::config::{FacilitatorFallback, ParsedX402Config, X402Config};
use nginx_x402::requirements::{create_requirements, try_create_requirements, PaymentRequirements};

const PAY_TO: &str = "0x209693Bc6afc0C5328bA36FaF03C514EF312287C";
const BASE_USDC: &str = "0x833589fCD6eDb6E08f4c7C32D4f71b54bdA02913";
const SEPOLIA_USDC: &str = "0x036CbD53842c5426634e7929541eC2318f3dCF7e";
const CUSTOM_TOKEN: &str = "0x1111111111111111111111111111111111111111";

/// A location with the module on, the given amount and the test recipient.
fn raw(amount: &str) -> X402Config {
    let mut c = X402Config::unset();
    c.enabled = 1;
    c.amount_str = amount.as_bytes().to_vec();
    c.pay_to_str = PAY_TO.as_bytes().to_vec();
    c
}

/// A parsed configuration built field by field.
fn parsed() -> ParsedX402Config {
    ParsedX402Config {
        enabled: true,
        amount: Some(Amount::new(1, 4)),
        pay_to: Some(PAY_TO.to_string()),
        facilitator_url: Some("https://x402.org/facilitator".to_string()),
        description: None,
        network: None,
        network_id: None,
        resource: None,
        asset: None,
        asset_decimals: None,
        timeout: None,
        facilitator_fallback: FacilitatorFallback::Error,
        ttl: None,
    }
}

fn requirements(config: &ParsedX402Config, resource: &str) -> PaymentRequirements {
    create_requirements(config, resource).unwrap()
}

fn error_of(config: &ParsedX402Config, resource: &str) -> String {
    create_requirements(config, resource).err().unwrap().to_string()
}

#[test]
fn test_requirements_default_network_is_base_mainnet() {
    let config = raw("0.0001").parse().unwrap();
    let q = requirements(&config, "/test");
    assert_eq!(q.scheme, "exact");
    assert_eq!(q.network, "base");
    assert_eq!(q.asset, BASE_USDC);
    assert_eq!(q.max_amount_required, "100");
    assert_eq!(q.pay_to, "0x209693bc6afc0c5328ba36faf03c514ef312287c");
    assert_eq!(q.resource, "/test");
    assert_eq!(q.description, "");
    assert_eq!(q.mime_type, None);
    assert_eq!(q.max_timeout_seconds, 60);
    let extra = q.extra.unwrap();
    assert_eq!(extra.name, "USD Coin");
    assert_eq!(extra.version, "2");
}

#[test]
fn test_requirements_on_base_sepolia_use_testnet_usdc() {
    let mut c = raw("0.01");
    c.network_str = b"base-sepolia".to_vec();
    c.description_str = b"Premium content".to_vec();
    let q = requirements(&c.parse().unwrap(), "/premium");
    assert_eq!(q.network, "base-sepolia");
    assert_eq!(q.asset, SEPOLIA_USDC);
    assert_eq!(q.max_amount_required, "10000");
    assert_eq!(q.description, "Premium content");
    assert_eq!(q.extra.unwrap().name, "USDC");
}

#[test]
fn test_requirements_network_id_selects_network() {
    let mut c = raw("1.50");
    c.network_id_str = b"84532".to_vec();
    c.network_str = b"base".to_vec();
    let q = requirements(&c.parse().unwrap(), "/x");
    assert_eq!(q.network, "base-sepolia");
    assert_eq!(q.asset, SEPOLIA_USDC);
    assert_eq!(q.max_amount_required, "1500000");
}

#[test]
fn test_requirements_custom_asset_has_no_usdc_metadata() {
    let mut c = raw("0.0001");
    c.asset_str = CUSTOM_TOKEN.as_bytes().to_vec();
    c.asset_decimals_str = b"18".to_vec();
    let q = requirements(&c.parse().unwrap(), "/x");
    assert_eq!(q.asset, CUSTOM_TOKEN);
    assert_eq!(q.max_amount_required, "100000000000000");
    assert!(q.extra.is_none());
}

#[test]
fn test_requirements_zero_amount() {
    let q = requirements(&raw("0").parse().unwrap(), "/x");
    assert_eq!(q.max_amount_required, "0");
}

#[test]
fn test_requirements_configured_resource_wins() {
    let mut c = raw("0.0001");
    c.resource_str = b"  premium/article ".to_vec();
    let q = requirements(&c.parse().unwrap(), "/requested");
    assert_eq!(q.resource, "/premium/article");
}

#[test]
fn test_requirements_configured_full_url_kept() {
    let mut c = raw("0.0001");
    c.resource_str = b"https://example.com/api/item".to_vec();
    let q = requirements(&c.parse().unwrap(), "/requested");
    assert_eq!(q.resource, "https://example.com/api/item");
    let q = requirements(&parsed(), " http://h/x ");
    assert_eq!(q.resource, "http://h/x");
    // only the http and https schemes count as full URLs
    assert_eq!(requirements(&parsed(), "ftp://h/x").resource, "/ftp://h/x");
}

#[test]
fn test_requirements_relative_path_made_absolute() {
    let q = requirements(&parsed(), "docs/page");
    assert_eq!(q.resource, "/docs/page");
}

#[test]
fn test_requirements_reject_path_traversal() {
    assert_eq!(
        error_of(&parsed(), "/a/../etc/passwd"),
        "Configuration error: Resource path contains invalid characters"
    );
    assert_eq!(
        error_of(&parsed(), "   "),
        "Configuration error: Resource path cannot be empty"
    );
}

#[test]
fn test_requirements_need_amount_and_recipient() {
    let mut c = parsed();
    c.amount = None;
    assert_eq!(error_of(&c, "/x"), "Amount not configured");
    let mut c = parsed();
    c.amount = Some(Amount::new(-1, 0));
    assert_eq!(error_of(&c, "/x"), "Amount cannot be negative");
    let mut c = parsed();
    c.pay_to = None;
    assert_eq!(error_of(&c, "/x"), "Pay-to address not configured");
    let mut c = parsed();
    c.pay_to = Some(" \t ".to_string());
    assert_eq!(error_of(&c, "/x"), "Pay-to address cannot be empty");
}

#[test]
fn test_requirements_unknown_network() {
    let mut c = parsed();
    c.network = Some("solana".to_string());
    assert_eq!(error_of(&c, "/x"), "Network not supported: solana");
    c.asset = Some(CUSTOM_TOKEN.to_string());
    assert_eq!(error_of(&c, "/x"), "Network not supported: solana");
}

#[test]
fn test_requirements_unknown_chain_id() {
    let mut c = parsed();
    c.network_id = Some(1);
    assert_eq!(
        error_of(&c, "/x"),
        "Configuration error: Unsupported network_id (chainId): 1. Supported chainIds: 8453 (base), 84532 (base-sepolia)"
    );
}

#[test]
fn test_requirements_custom_asset_on_avalanche() {
    let mut c = parsed();
    c.network = Some("avalanche".to_string());
    c.asset = Some(CUSTOM_TOKEN.to_string());
    let q = requirements(&c, "/x");
    assert_eq!(q.network, "avalanche");
    assert_eq!(q.asset, CUSTOM_TOKEN);
}

#[test]
fn test_try_requirements_amount_out_of_range() {
    let mut c = parsed();
    c.amount = Some(Amount::new(MAX_MANTISSA, 0));
    assert!(try_create_requirements(&c, "/x").is_none());
    // a failing check comes first
    c.pay_to = None;
    let r = try_create_requirements(&c, "/x").unwrap();
    assert_eq!(r.err().unwrap().to_string(), "Pay-to address not configured");
}

#[test]
fn test_try_requirements_in_range() {
    let r = try_create_requirements(&parsed(), "/x").unwrap().unwrap();
    assert_eq!(r.max_amount_required, "100");
}

#[test]
fn test_set_usdc_info_changes_only_extra() {
    let mut q = PaymentRequirements::new(
        "exact".to_string(),
        "base".to_string(),
        "1".to_string(),
        BASE_USDC.to_string(),
        "0xabc".to_string(),
        "/".to_string(),
        "d".to_string(),
    );
    assert!(q.extra.is_none());
    q.set_usdc_info(nginx_x402::networks::NetworkKind::Testnet);
    let extra = q.extra.clone().unwrap();
    assert_eq!(extra.name, "USDC");
    assert_eq!(extra.version, "2");
    assert_eq!(q.network, "base");
    assert_eq!(q.max_timeout_seconds, 60);
}

#[test]
fn test_amount_atomic_units() {
    let a = Amount::parse("1.50").unwrap();
    assert_eq!(a.mantissa, 150);
    assert_eq!(a.scale, 2);
    let u = a.to_atomic_units(6).unwrap();
    assert_eq!(u.to_text(), "1500000");
    assert_eq!(Amount::new(1, 4).to_atomic_units(6).unwrap().to_text(), "100");
    assert_eq!(Amount::new(5, 1).to_text(), "0.5");
    assert_eq!(Amount::new(-25, 3).to_text(), "-0.025");
    assert!(Amount::parse("abc").is_err());
    assert!(Amount::new(MAX_MANTISSA, 0).to_atomic_units(6).is_none());
}
