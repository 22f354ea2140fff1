//! Errors: what a validation rejects, and the message type of the module.

use crate::amount::{decimal_text, Amount};
use crate::networks::{all_supported, supported_networks};
use crate::text::{nat_text, push_decimal, string_of};
use vstd::prelude::*;

verus! {

/// `list` joined with `sep` between consecutive elements (`[..].join(sep)`).
pub open spec fn join(list: Seq<Seq<char>>, sep: Seq<char>) -> Seq<char>
    decreases list.len(),
{
    if list.len() == 0 {
        Seq::<char>::empty()
    } else if list.len() == 1 {
        list[0]
    } else {
        join(list.drop_last(), sep) + sep + list.last()
    }
}

/// The explanation of rejecting an unsupported network name.
pub open spec fn unsupported_network_detail(network: Seq<char>) -> Seq<char> {
    "Unsupported network: "@ + network + ". Supported networks: "@ + join(
        supported_networks(),
        ", "@,
    )
}

/// The largest amount a configuration accepts, in whole tokens.
pub open spec fn max_amount_text() -> Seq<char> {
    decimal_text(1_000_000_000int, 0nat)
}

/// Why a configuration value was rejected.
#[derive(Clone, Debug)]
pub enum ValidationError {
    EmptyAddress,
    AddressLength { len: usize },
    AddressPrefix,
    AddressCharacters,
    EmptyUrl,
    UrlScheme,
    UrlTooShort,
    UrlWhitespace,
    EmptyNetwork,
    UnsupportedNetwork { network: String },
    NegativeAmount,
    AmountTooLarge { amount: Amount },
    TooManyDecimals { scale: u32 },
    EmptyResource,
    ResourceCharacters,
    ResourceTooLong,
    EmptyPaymentHeader,
    PaymentHeaderTooLarge { len: usize },
    PaymentHeaderCharacters,
    UnsupportedChainId { chain_id: u64 },
}

impl ValidationError {
    /// The explanation of the rejection.
    pub open spec fn detail(self) -> Seq<char> {
        match self {
            ValidationError::EmptyAddress => "Ethereum address cannot be empty"@,
            ValidationError::AddressLength { len } =>
                "Invalid Ethereum address length: expected 42 characters, got "@ + nat_text(
                    len as nat,
                ),
            ValidationError::AddressPrefix => "Ethereum address must start with 0x"@,
            ValidationError::AddressCharacters =>
                "Ethereum address contains invalid characters (must be hex)"@,
            ValidationError::EmptyUrl => "URL cannot be empty"@,
            ValidationError::UrlScheme => "URL must start with http:// or https://"@,
            ValidationError::UrlTooShort => "URL is too short"@,
            ValidationError::UrlWhitespace => "URL contains invalid whitespace characters"@,
            ValidationError::EmptyNetwork => "Network name cannot be empty"@,
            ValidationError::UnsupportedNetwork { network } => unsupported_network_detail(
                network@,
            ),
            ValidationError::NegativeAmount => "Amount cannot be negative"@,
            ValidationError::AmountTooLarge { amount } => "Amount too large: maximum is "@
                + max_amount_text() + " USDC, got "@ + decimal_text(
                amount.mantissa as int,
                amount.scale as nat,
            ),
            ValidationError::TooManyDecimals { scale } =>
                "Amount has too many decimal places: maximum is 6, got "@ + nat_text(scale as nat),
            ValidationError::EmptyResource => "Resource path cannot be empty"@,
            ValidationError::ResourceCharacters => "Resource path contains invalid characters"@,
            ValidationError::ResourceTooLong => "Resource path is too long"@,
            ValidationError::EmptyPaymentHeader => "X-PAYMENT header cannot be empty"@,
            ValidationError::PaymentHeaderTooLarge { len } =>
                "X-PAYMENT header too large: maximum is 16384 bytes, got "@ + nat_text(len as nat),
            ValidationError::PaymentHeaderCharacters =>
                "X-PAYMENT header contains invalid Base64 characters"@,
            ValidationError::UnsupportedChainId { chain_id } =>
                "Unsupported network_id (chainId): "@ + nat_text(chain_id as nat)
                    + ". Supported chainIds: 8453 (base), 84532 (base-sepolia)"@,
        }
    }

    /// The full message: a configuration error with its explanation.
    pub open spec fn text(self) -> Seq<char> {
        "Configuration error: "@ + self.detail()
    }

    /// The full message of this rejection.
    pub fn message(&self) -> (r: String)
        requires
            self matches ValidationError::AmountTooLarge { amount } ==> amount.wf(),
        ensures
            r@ == self.text(),
    {
        let mut r = String::from_str("Configuration error: ");
        match self {
            ValidationError::EmptyAddress => r.append("Ethereum address cannot be empty"),
            ValidationError::AddressLength { len } => {
                r.append("Invalid Ethereum address length: expected 42 characters, got ");
                append_number(&mut r, *len as u64);
            },
            ValidationError::AddressPrefix => r.append("Ethereum address must start with 0x"),
            ValidationError::AddressCharacters => r.append(
                "Ethereum address contains invalid characters (must be hex)",
            ),
            ValidationError::EmptyUrl => r.append("URL cannot be empty"),
            ValidationError::UrlScheme => r.append("URL must start with http:// or https://"),
            ValidationError::UrlTooShort => r.append("URL is too short"),
            ValidationError::UrlWhitespace => r.append("URL contains invalid whitespace characters"),
            ValidationError::EmptyNetwork => r.append("Network name cannot be empty"),
            ValidationError::UnsupportedNetwork { network } => {
                r.append("Unsupported network: ");
                r.append(network.as_str());
                r.append(". Supported networks: ");
                let list = all_supported();
                let joined = join_strings(&list, ", ");
                proof {
                    assert(views_of(list@) =~= supported_networks());
                }
                r.append(joined.as_str());
            },
            ValidationError::NegativeAmount => r.append("Amount cannot be negative"),
            ValidationError::AmountTooLarge { amount } => {
                r.append("Amount too large: maximum is ");
                let max = Amount::from_u64(1_000_000_000).to_text();
                r.append(max.as_str());
                r.append(" USDC, got ");
                let got = amount.to_text();
                r.append(got.as_str());
            },
            ValidationError::TooManyDecimals { scale } => {
                r.append("Amount has too many decimal places: maximum is 6, got ");
                append_number(&mut r, *scale as u64);
            },
            ValidationError::EmptyResource => r.append("Resource path cannot be empty"),
            ValidationError::ResourceCharacters => r.append(
                "Resource path contains invalid characters",
            ),
            ValidationError::ResourceTooLong => r.append("Resource path is too long"),
            ValidationError::EmptyPaymentHeader => r.append("X-PAYMENT header cannot be empty"),
            ValidationError::PaymentHeaderTooLarge { len } => {
                r.append("X-PAYMENT header too large: maximum is 16384 bytes, got ");
                append_number(&mut r, *len as u64);
            },
            ValidationError::PaymentHeaderCharacters => r.append(
                "X-PAYMENT header contains invalid Base64 characters",
            ),
            ValidationError::UnsupportedChainId { chain_id } => {
                r.append("Unsupported network_id (chainId): ");
                append_number(&mut r, *chain_id);
                r.append(". Supported chainIds: 8453 (base), 84532 (base-sepolia)");
            },
        }
        r
    }
}

/// Appends the decimal representation of `n`.
pub fn append_number(s: &mut String, n: u64)
    ensures
        final(s)@ == old(s)@ + nat_text(n as nat),
{
    let mut digits: Vec<char> = Vec::new();
    push_decimal(n, &mut digits);
    assert(digits@ =~= nat_text(n as nat));
    let t = string_of(&digits);
    s.append(t.as_str());
}

/// The view of each string of a sequence.
pub open spec fn views_of(v: Seq<String>) -> Seq<Seq<char>> {
    v.map_values(|x: String| x@)
}

/// The strings of `list` joined with `sep`.
pub fn join_strings(list: &Vec<String>, sep: &str) -> (r: String)
    ensures
        r@ == join(views_of(list@), sep@),
{
    let mut r = String::new();
    let mut i: usize = 0;
    while i < list.len()
        invariant
            i <= list@.len(),
            r@ == join(views_of(list@.subrange(0, i as int)), sep@),
        decreases list.len() - i,
    {
        let ghost prev = views_of(list@.subrange(0, i as int));
        let ghost next = views_of(list@.subrange(0, i + 1));
        proof {
            assert(next.drop_last() =~= prev);
            assert(next.last() == list@[i as int]@);
        }
        if i > 0 {
            r.append(sep);
        } else {
            assert(next.len() == 1);
        }
        r.append(list[i].as_str());
        i = i + 1;
    }
    assert(list@.subrange(0, list@.len() as int) =~= list@);
    r
}

/// The message of a module operation that failed.
#[derive(Clone, Debug)]
pub struct ConfigError(String);

impl View for ConfigError {
    type V = Seq<char>;

    closed spec fn view(&self) -> Seq<char> {
        self.0@
    }
}

impl ConfigError {
    /// An error with the given message.
    pub fn new(message: String) -> (r: ConfigError)
        ensures
            r@ == message@,
    {
        ConfigError(message)
    }

    /// An error with the given message text.
    pub fn msg(message: &str) -> (r: ConfigError)
        ensures
            r@ == message@,
    {
        ConfigError(String::from_str(message))
    }

    /// The error of a rejected configuration value.
    pub fn from_validation(e: &ValidationError) -> (r: ConfigError)
        requires
            e matches ValidationError::AmountTooLarge { amount } ==> amount.wf(),
        ensures
            r@ == e.text(),
    {
        ConfigError(e.message())
    }

    /// The message.
    pub fn to_string(&self) -> (r: String)
        ensures
            r@ == self@,
    {
        self.0.clone()
    }
}

} // verus!
