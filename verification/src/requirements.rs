//! Payment requirements: what a client has to pay, to whom, on which network
//! and for which resource.

use crate::amount::{
    abs, decimal_product, decimal_text, exact_units_text, fits_exactly, normalized, pow10, Amount,
    MAX_MANTISSA,
};
use crate::config::{ParsedView, ParsedX402Config};
use crate::error::{ConfigError, ValidationError};
use crate::networks::{
    base_mainnet, base_mainnet_name, base_sepolia, base_sepolia_name, is_supported_network,
    network_supported, scheme_exact, usdc_address, usdc_address_of, usdc_name, usdc_name_of,
    NetworkKind,
};
use crate::text::{chars_of, contains_seq, lowercase, to_lowercase, trim, trimmed};
use crate::validation::{
    chain_id_to_network, chain_network, dot_dot, is_full_url, lemma_resource_path_sanitized, resource_check,
    validate_resource_path,
};
use vstd::prelude::*;
use vstd::utf8::encode_utf8;

verus! {

/// The metadata of a USDC token contract that a wallet needs to sign a
/// transfer: the token's name and the version of its signing domain.
#[derive(Clone, Debug)]
pub struct UsdcInfo {
    pub name: String,
    pub version: String,
}

/// The payment requirements of a resource, as the x402 protocol states them.
#[derive(Clone, Debug)]
pub struct PaymentRequirements {
    /// The payment scheme (`"exact"`).
    pub scheme: String,
    /// The network the payment is made on.
    pub network: String,
    /// The amount to pay, in atomic units of the token, as a decimal integer.
    pub max_amount_required: String,
    /// The token contract.
    pub asset: String,
    /// The recipient.
    pub pay_to: String,
    /// The protected resource.
    pub resource: String,
    /// What the payment is for.
    pub description: String,
    /// The MIME type of the protected resource.
    pub mime_type: Option<String>,
    /// How long a client may take to pay.
    pub max_timeout_seconds: u32,
    /// Token metadata, when the token is USDC.
    pub extra: Option<UsdcInfo>,
}

/// Payment requirements as mathematical values; `extra` is the token name and
/// the signing-domain version.
pub struct RequirementsView {
    pub scheme: Seq<char>,
    pub network: Seq<char>,
    pub max_amount_required: Seq<char>,
    pub asset: Seq<char>,
    pub pay_to: Seq<char>,
    pub resource: Seq<char>,
    pub description: Seq<char>,
    pub mime_type: Option<Seq<char>>,
    pub max_timeout_seconds: u32,
    pub extra: Option<(Seq<char>, Seq<char>)>,
}

impl View for PaymentRequirements {
    type V = RequirementsView;

    open spec fn view(&self) -> RequirementsView {
        RequirementsView {
            scheme: self.scheme@,
            network: self.network@,
            max_amount_required: self.max_amount_required@,
            asset: self.asset@,
            pay_to: self.pay_to@,
            resource: self.resource@,
            description: self.description@,
            mime_type: match self.mime_type {
                Some(m) => Some(m@),
                None => None,
            },
            max_timeout_seconds: self.max_timeout_seconds,
            extra: match self.extra {
                Some(x) => Some((x.name@, x.version@)),
                None => None,
            },
        }
    }
}

/// The USDC metadata of a kind of network.
pub open spec fn usdc_info_of(kind: NetworkKind) -> (Seq<char>, Seq<char>) {
    (usdc_name_of(kind), "2"@)
}

/// Fresh requirements: no MIME type, a payment window of 60 seconds and no
/// token metadata.
pub open spec fn fresh_requirements(
    scheme: Seq<char>,
    network: Seq<char>,
    max_amount_required: Seq<char>,
    asset: Seq<char>,
    pay_to: Seq<char>,
    resource: Seq<char>,
    description: Seq<char>,
) -> RequirementsView {
    RequirementsView {
        scheme,
        network,
        max_amount_required,
        asset,
        pay_to,
        resource,
        description,
        mime_type: None,
        max_timeout_seconds: 60,
        extra: None,
    }
}

impl PaymentRequirements {
    /// Requirements with the given fields, no MIME type, a payment window of
    /// 60 seconds and no token metadata.
    pub fn new(
        scheme: String,
        network: String,
        max_amount_required: String,
        asset: String,
        pay_to: String,
        resource: String,
        description: String,
    ) -> (r: PaymentRequirements)
        ensures
            r@ == fresh_requirements(
                scheme@,
                network@,
                max_amount_required@,
                asset@,
                pay_to@,
                resource@,
                description@,
            ),
    {
        PaymentRequirements {
            scheme,
            network,
            max_amount_required,
            asset,
            pay_to,
            resource,
            description,
            mime_type: None,
            max_timeout_seconds: 60,
            extra: None,
        }
    }

    /// Records the USDC metadata of a kind of network; nothing else changes.
    pub fn set_usdc_info(&mut self, kind: NetworkKind)
        ensures
            final(self)@ == (RequirementsView { extra: Some(usdc_info_of(kind)), ..old(self)@ }),
    {
        let name = usdc_name(kind);
        let version = String::from_str("2");
        self.extra = Some(UsdcInfo { name, version });
    }
}

// ---------------------------------------------------------------------------
// Requirements of a location
// ---------------------------------------------------------------------------

/// `"Network not supported: "` and the network.
pub open spec fn not_supported_text(network: Seq<char>) -> Seq<char> {
    "Network not supported: "@ + network
}

/// The network a location asks payment on: that of its chain identifier when
/// it has one, else its network name, else Base mainnet.
pub open spec fn configured_network(c: ParsedView) -> Result<Seq<char>, Seq<char>> {
    match c.network_id {
        Some(id) => match chain_network(id) {
            Some(n) => Ok(n),
            None => Err(ValidationError::UnsupportedChainId { chain_id: id }.text()),
        },
        None => match c.network {
            Some(n) => Ok(n),
            None => Ok(base_mainnet()),
        },
    }
}

/// The token a location asks payment in: its configured asset when the
/// network is supported, otherwise the USDC contract of the network.
pub open spec fn configured_asset(c: ParsedView, network: Seq<char>) -> Result<
    Seq<char>,
    Seq<char>,
> {
    match c.asset {
        Some(a) => if is_supported_network(network) {
            Ok(a)
        } else {
            Err(not_supported_text(network))
        },
        None => match usdc_address_of(network) {
            Some(a) => Ok(a),
            None => Err(not_supported_text(network)),
        },
    }
}

/// The checks made before the amount is converted, in order: an amount is
/// configured and not negative, a recipient is configured and not blank, the
/// network and the token are known, and the resource (the configured one, else
/// the requested one) is a valid path. On success: the network, the token and
/// the sanitised resource path.
pub open spec fn requirements_check(c: ParsedView, requested: Seq<char>) -> Result<
    (Seq<char>, Seq<char>, Seq<char>),
    Seq<char>,
> {
    match c.amount {
        None => Err("Amount not configured"@),
        Some(a) => if a.0 < 0 {
            Err("Amount cannot be negative"@)
        } else {
            match c.pay_to {
                None => Err("Pay-to address not configured"@),
                Some(p) => if trimmed(p).len() == 0 {
                    Err("Pay-to address cannot be empty"@)
                } else {
                    match configured_network(c) {
                        Err(e) => Err(e),
                        Ok(n) => match configured_asset(c, n) {
                            Err(e) => Err(e),
                            Ok(asset) => {
                                let res = match c.resource {
                                    Some(r) => r,
                                    None => requested,
                                };
                                match resource_check(res, encode_utf8(res).len()) {
                                    Err(e) => Err(e.text()),
                                    Ok(path) => Ok((n, asset, path)),
                                }
                            },
                        },
                    }
                },
            }
        },
    }
}

/// The text of `amount * 10^decimals` with trailing zeros removed: the
/// amount in atomic units of a token with that many decimals.
pub open spec fn atomic_units_text(amount: (int, nat), decimals: nat) -> Seq<char> {
    let u = normalized(decimal_product(amount, (pow10(decimals), 0nat)).unwrap());
    decimal_text(u.0, u.1)
}

/// The decimals of the token a location asks payment in: the configured
/// ones, else the six of USDC.
pub open spec fn token_decimals(c: ParsedView) -> nat {
    match c.asset_decimals {
        Some(d) => d as nat,
        None => 6,
    }
}

/// The kind of network for token metadata: Base Sepolia is the testnet.
pub open spec fn kind_of(network: Seq<char>) -> NetworkKind {
    if network == base_sepolia() {
        NetworkKind::Testnet
    } else {
        NetworkKind::Mainnet
    }
}

/// The requirements of a location for a requested path, or the message of
/// the first check that fails. The amount is expressed in atomic units of the
/// token (see [`token_decimals`]), the recipient is lower-cased, the
/// description defaults to empty, and USDC metadata is attached unless a
/// custom token is configured.
pub open spec fn requirements_outcome(c: ParsedView, requested: Seq<char>) -> Result<
    RequirementsView,
    Seq<char>,
> {
    match requirements_check(c, requested) {
        Err(e) => Err(e),
        Ok(checked) => {
            let (n, asset, path) = checked;
            let base = fresh_requirements(
                "exact"@,
                n,
                atomic_units_text(c.amount.unwrap(), token_decimals(c)),
                asset,
                lowercase(c.pay_to.unwrap()),
                path,
                match c.description {
                    Some(d) => d,
                    None => Seq::<char>::empty(),
                },
            );
            if c.asset is None {
                Ok(RequirementsView { extra: Some(usdc_info_of(kind_of(n))), ..base })
            } else {
                Ok(base)
            }
        },
    }
}

/// Without a custom token, requirements carry the testnet USDC metadata
/// (`"USDC"`, version 2) exactly on Base Sepolia, and the mainnet metadata
/// (`"USD Coin"`, version 2) on every other network.
pub proof fn lemma_usdc_metadata_by_network(c: ParsedView, requested: Seq<char>)
    ensures
        c.asset is None ==> match requirements_outcome(c, requested) {
            Ok(q) => (q.extra == Some(("USDC"@, "2"@)) <==> q.network == "base-sepolia"@) && (
            q.network != "base-sepolia"@ ==> q.extra == Some(("USD Coin"@, "2"@))),
            Err(_) => true,
        },
{
    reveal_strlit("USDC");
    reveal_strlit("USD Coin");
    reveal_strlit("2");
    reveal_strlit("base-sepolia");
    assert(base_sepolia() =~= "base-sepolia"@);
    assert("USDC"@.len() != "USD Coin"@.len());
    if c.asset is None {
        match requirements_check(c, requested) {
            Err(_) => {},
            Ok(checked) => {
                let (n, asset, path) = checked;
                let q = requirements_outcome(c, requested)->Ok_0;
                assert(q.network == n);
                assert(q.extra == Some(usdc_info_of(kind_of(n))));
                if n == base_sepolia() {
                    assert(q.extra == Some(("USDC"@, "2"@)));
                } else {
                    assert(q.extra == Some(("USD Coin"@, "2"@)));
                }
            },
        }
    }
}

/// A result of building requirements, as mathematical values.
pub open spec fn outcome_view(r: Result<PaymentRequirements, ConfigError>) -> Result<
    RequirementsView,
    Seq<char>,
> {
    match r {
        Ok(q) => Ok(q@),
        Err(e) => Err(e@),
    }
}

/// Whether converting the configured amount to atomic units, which happens
/// once every check has passed, stays within the decimal range.
pub open spec fn conversion_defined(c: ParsedView, requested: Seq<char>) -> bool {
    requirements_check(c, requested) is Ok ==> decimal_product(
        c.amount.unwrap(),
        (pow10(token_decimals(c)), 0nat),
    ) is Some
}

/// `"Network not supported: "` and the network, as a string.
fn not_supported(network: &String) -> (r: ConfigError)
    ensures
        r@ == not_supported_text(network@),
{
    let mut m = String::from_str("Network not supported: ");
    m.append(network.as_str());
    ConfigError::new(m)
}

/// The network of a location (see [`configured_network`]).
fn select_network(config: &ParsedX402Config) -> (r: Result<String, ConfigError>)
    ensures
        outcome_text(r) == configured_network(config@),
{
    match config.network_id {
        Some(id) => match chain_id_to_network(id) {
            Ok(n) => Ok(n),
            Err(e) => Err(ConfigError::from_validation(&e)),
        },
        None => match &config.network {
            Some(n) => Ok(n.clone()),
            None => Ok(base_mainnet_name()),
        },
    }
}

/// A result carrying text, as mathematical values.
pub open spec fn outcome_text(r: Result<String, ConfigError>) -> Result<Seq<char>, Seq<char>> {
    match r {
        Ok(s) => Ok(s@),
        Err(e) => Err(e@),
    }
}

/// The token of a location on a network (see [`configured_asset`]).
fn select_asset(config: &ParsedX402Config, network: &String) -> (r: Result<String, ConfigError>)
    ensures
        outcome_text(r) == configured_asset(config@, network@),
{
    match &config.asset {
        Some(a) => {
            if !network_supported(network.as_str()) {
                return Err(not_supported(network));
            }
            Ok(a.clone())
        },
        None => match usdc_address(network.as_str()) {
            Some(a) => Ok(a),
            None => Err(not_supported(network)),
        },
    }
}

/// The checks of [`requirements_check`], with their results as strings.
fn check_requirements(config: &ParsedX402Config, resource: &str) -> (r: Result<
    (String, String, String),
    ConfigError,
>)
    requires
        config.amount matches Some(a) ==> a.wf(),
    ensures
        match r {
            Ok((n, asset, path)) => requirements_check(config@, resource@) == Ok::<
                (Seq<char>, Seq<char>, Seq<char>),
                Seq<char>,
            >((n@, asset@, path@)),
            Err(e) => requirements_check(config@, resource@) == Err::<
                (Seq<char>, Seq<char>, Seq<char>),
                Seq<char>,
            >(e@),
        },
{
    let amount = match config.amount {
        None => return Err(ConfigError::msg("Amount not configured")),
        Some(a) => a,
    };
    if amount.below_zero() {
        return Err(ConfigError::msg("Amount cannot be negative"));
    }
    let pay_to = match &config.pay_to {
        None => return Err(ConfigError::msg("Pay-to address not configured")),
        Some(p) => p,
    };
    let pay_to_chars = chars_of(pay_to.as_str());
    if trim(&pay_to_chars).len() == 0 {
        return Err(ConfigError::msg("Pay-to address cannot be empty"));
    }
    let network = match select_network(config) {
        Ok(n) => n,
        Err(e) => return Err(e),
    };
    let asset = match select_asset(config, &network) {
        Ok(a) => a,
        Err(e) => return Err(e),
    };
    let path = match &config.resource {
        Some(x) => validate_resource_path(x.as_str()),
        None => validate_resource_path(resource),
    };
    match path {
        Ok(p) => Ok((network, asset, p)),
        Err(e) => Err(ConfigError::from_validation(&e)),
    }
}

/// The payment requirements of a location for a requested path (see
/// [`requirements_outcome`]). The configured resource, when there is one,
/// takes the place of the requested path.
pub fn create_requirements(config: &ParsedX402Config, resource: &str) -> (r: Result<
    PaymentRequirements,
    ConfigError,
>)
    requires
        config.amount matches Some(a) ==> a.wf(),
        config.asset_decimals matches Some(d) ==> d <= 28,
        conversion_defined(config@, resource@),
    ensures
        outcome_view(r) == requirements_outcome(config@, resource@),
        fits_exactly(config@.amount.unwrap(), token_decimals(config@)) ==> (r matches Ok(q)
            ==> q.max_amount_required@ == exact_units_text(
            config@.amount.unwrap(),
            token_decimals(config@),
        )),
{
    let (network, asset, path) = match check_requirements(config, resource) {
        Ok(checked) => checked,
        Err(e) => return Err(e),
    };
    let amount = config.amount.unwrap();
    let decimals: u32 = match config.asset_decimals {
        Some(d) => d as u32,
        None => 6,
    };
    let units = amount.to_atomic_units(decimals).unwrap();
    let max_amount = units.to_text();
    let pay_to = to_lowercase(config.pay_to.as_ref().unwrap().as_str());
    let description = match &config.description {
        Some(d) => d.clone(),
        None => String::new(),
    };
    let testnet = network == base_sepolia_name();
    let mut requirements = PaymentRequirements::new(
        scheme_exact(),
        network,
        max_amount,
        asset,
        pay_to,
        path,
        description,
    );
    if config.asset.is_none() {
        let kind = if testnet {
            NetworkKind::Testnet
        } else {
            NetworkKind::Mainnet
        };
        requirements.set_usdc_info(kind);
    }
    Ok(requirements)
}

/// The payment requirements of a location for a requested path, or `None`
/// when every check passes but the configured amount is too large to be
/// expressed in atomic units of the token within the decimal range.
pub fn try_create_requirements(config: &ParsedX402Config, resource: &str) -> (r: Option<
    Result<PaymentRequirements, ConfigError>,
>)
    requires
        config.amount matches Some(a) ==> a.wf(),
        config.asset_decimals matches Some(d) ==> d <= 28,
    ensures
        r is None <==> !conversion_defined(config@, resource@),
        r matches Some(x) ==> outcome_view(x) == requirements_outcome(config@, resource@),
        config.amount matches Some(a) && abs(a.mantissa * pow10(token_decimals(config@)))
            <= MAX_MANTISSA ==> r is Some,
        fits_exactly(config@.amount.unwrap(), token_decimals(config@)) ==> (r matches Some(Ok(q))
            ==> q.max_amount_required@ == exact_units_text(
            config@.amount.unwrap(),
            token_decimals(config@),
        )),
{
    match check_requirements(config, resource) {
        Err(e) => Some(Err(e)),
        Ok(_) => {
            let amount = config.amount.unwrap();
            let decimals: u32 = match config.asset_decimals {
                Some(d) => d as u32,
                None => 6,
            };
            match amount.to_atomic_units(decimals) {
                None => None,
                Some(_) => Some(create_requirements(config, resource)),
            }
        },
    }
}

// ---------------------------------------------------------------------------
// Laws
// ---------------------------------------------------------------------------

/// A chain identifier takes precedence over a network name: when a location
/// configures both, it asks payment on the network of the chain identifier.
pub proof fn lemma_network_id_takes_precedence(c: ParsedView, id: u64, name: Seq<char>)
    requires
        c.network_id == Some(id),
        c.network == Some(name),
        chain_network(id) is Some,
    ensures
        configured_network(c) == Ok::<Seq<char>, Seq<char>>(chain_network(id).unwrap()),
{
}

/// Requirements a location answers with are well formed: the exact scheme, a
/// payment window of 60 seconds, a resource that is an absolute path or a
/// full URL, free of `..`, a lower-cased recipient, and USDC metadata exactly when no custom
/// token is configured.
pub proof fn lemma_requirements_well_formed(c: ParsedView, requested: Seq<char>, q: RequirementsView)
    requires
        requirements_outcome(c, requested) == Ok::<RequirementsView, Seq<char>>(q),
    ensures
        q.scheme == "exact"@,
        q.max_timeout_seconds == 60,
        q.resource.len() > 0,
        q.resource[0] == '/' || is_full_url(q.resource),
        !contains_seq(q.resource, dot_dot()),
        q.pay_to == lowercase(c.pay_to.unwrap()),
        c.asset is None <==> q.extra is Some,
{
    let res = match c.resource {
        Some(r) => r,
        None => requested,
    };
    let (n, asset, path) = requirements_check(c, requested)->Ok_0;
    assert(resource_check(res, encode_utf8(res).len()) == Ok::<Seq<char>, ValidationError>(path));
    lemma_resource_path_sanitized(res, encode_utf8(res).len(), path);
}

} // verus!
