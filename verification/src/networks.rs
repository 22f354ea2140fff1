//! The networks, tokens and payment scheme of `rust_x402`.

use rust_x402::types::{networks, schemes, Network};
use vstd::prelude::*;

verus! {

/// The name of Base mainnet.
pub open spec fn base_mainnet() -> Seq<char> {
    seq!['b', 'a', 's', 'e']
}

/// The name of Base Sepolia.
pub open spec fn base_sepolia() -> Seq<char> {
    seq!['b', 'a', 's', 'e', '-', 's', 'e', 'p', 'o', 'l', 'i', 'a']
}

/// The name of Avalanche mainnet.
pub open spec fn avalanche_mainnet() -> Seq<char> {
    seq!['a', 'v', 'a', 'l', 'a', 'n', 'c', 'h', 'e']
}

/// The name of Avalanche Fuji.
pub open spec fn avalanche_fuji() -> Seq<char> {
    seq!['a', 'v', 'a', 'l', 'a', 'n', 'c', 'h', 'e', '-', 'f', 'u', 'j', 'i']
}

/// The supported networks, in the order `networks::all_supported` lists them.
pub open spec fn supported_networks() -> Seq<Seq<char>> {
    seq![base_mainnet(), base_sepolia(), avalanche_mainnet(), avalanche_fuji()]
}

/// `networks::is_supported`.
pub open spec fn is_supported_network(network: Seq<char>) -> bool {
    supported_networks().contains(network)
}

/// `networks::get_usdc_address`: the USDC contract of each supported network.
pub open spec fn usdc_address_of(network: Seq<char>) -> Option<Seq<char>> {
    if network == base_mainnet() {
        Some("0x833589fCD6eDb6E08f4c7C32D4f71b54bdA02913"@)
    } else if network == base_sepolia() {
        Some("0x036CbD53842c5426634e7929541eC2318f3dCF7e"@)
    } else if network == avalanche_mainnet() {
        Some("0xB97EF9Ef8734C71904D8002F8b6Bc66Dd9c48a6E"@)
    } else if network == avalanche_fuji() {
        Some("0x5425890298aed601595a70AB815c96711a31Bc65"@)
    } else {
        None
    }
}

/// The two kinds of network `rust_x402` distinguishes for token metadata.
#[derive(Clone, Copy, Debug, PartialEq, Eq, Structural)]
pub enum NetworkKind {
    Mainnet,
    Testnet,
}

/// `Network::usdc_name`: the USDC token name of each kind of network.
pub open spec fn usdc_name_of(kind: NetworkKind) -> Seq<char> {
    match kind {
        NetworkKind::Mainnet => "USD Coin"@,
        NetworkKind::Testnet => "USDC"@,
    }
}

/// The name of Base mainnet as a string.
pub fn base_mainnet_name() -> (r: String)
    ensures
        r@ == base_mainnet(),
{
    let r = String::from_str("base");
    proof {
        reveal_strlit("base");
    }
    assert(r@ =~= base_mainnet());
    r
}

/// The name of Base Sepolia as a string.
pub fn base_sepolia_name() -> (r: String)
    ensures
        r@ == base_sepolia(),
{
    let r = String::from_str("base-sepolia");
    proof {
        reveal_strlit("base-sepolia");
    }
    assert(r@ =~= base_sepolia());
    r
}

/// `networks::is_supported`: the network is one of the four supported names.
#[verifier::external_body]
pub(crate) fn network_supported(network: &str) -> (r: bool)
    ensures
        r == is_supported_network(network@),
{
    networks::is_supported(network)
}

/// `networks::get_usdc_address`: the USDC contract address of a supported
/// network, `None` for any other name.
#[verifier::external_body]
pub(crate) fn usdc_address(network: &str) -> (r: Option<String>)
    ensures
        match r {
            Some(a) => usdc_address_of(network@) == Some(a@),
            None => usdc_address_of(network@) is None,
        },
{
    match networks::get_usdc_address(network) {
        Some(a) => Some(a.to_string()),
        None => None,
    }
}

/// `networks::all_supported`: the four supported network names in order.
#[verifier::external_body]
pub(crate) fn all_supported() -> (r: Vec<String>)
    ensures
        r@.len() == supported_networks().len(),
        forall|i: int| 0 <= i < r@.len() ==> r@[i]@ == supported_networks()[i],
{
    let mut r = Vec::new();
    for n in networks::all_supported() {
        r.push(n.to_string());
    }
    r
}

/// `Network::usdc_name`: `"USD Coin"` on mainnet, `"USDC"` on testnet.
#[verifier::external_body]
pub(crate) fn usdc_name(kind: NetworkKind) -> (r: String)
    ensures
        r@ == usdc_name_of(kind),
{
    let network = match kind {
        NetworkKind::Mainnet => Network::Mainnet,
        NetworkKind::Testnet => Network::Testnet,
    };
    network.usdc_name().to_string()
}

/// `schemes::EXACT`, the name of the exact payment scheme: `"exact"`.
#[verifier::external_body]
pub(crate) fn scheme_exact() -> (r: String)
    ensures
        r@ == "exact"@,
{
    schemes::EXACT.to_string()
}

} // verus!
