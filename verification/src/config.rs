//! The module's location configuration: the raw directive values, their
//! inheritance from enclosing blocks, and their parsing into typed values.

use crate::amount::Amount;
use crate::error::{ConfigError, ValidationError};
use crate::text::{
    ascii_lower, chars_of, is_ascii_text, lemma_ascii_lower_of_ascii, lowercase, parse_unsigned,
    same_chars, to_lowercase, unsigned_parse, utf8_text,
};
use crate::validation::{
    address_check, amount_check, chain_id_to_network, chain_network,
    url_check, validate_amount, validate_ethereum_address, validate_network, validate_url,
};
use crate::amount::decimal_parse;
use vstd::prelude::*;
use vstd::utf8::{decode_utf8, valid_utf8};

verus! {

/// The raw values of the module's directives in one location, as nginx
/// stored them: `enabled` is the `x402` flag, every other field the bytes of
/// a directive's argument (empty when the directive was not given).
#[derive(Clone, Debug)]
pub struct X402Config {
    pub enabled: isize,
    pub amount_str: Vec<u8>,
    pub pay_to_str: Vec<u8>,
    pub facilitator_url_str: Vec<u8>,
    pub description_str: Vec<u8>,
    pub network_str: Vec<u8>,
    pub network_id_str: Vec<u8>,
    pub resource_str: Vec<u8>,
    pub asset_str: Vec<u8>,
    pub asset_decimals_str: Vec<u8>,
    pub timeout_str: Vec<u8>,
    pub facilitator_fallback_str: Vec<u8>,
    pub ttl_str: Vec<u8>,
}

/// What to do when the facilitator cannot be reached or fails.
#[derive(Clone, Copy, Debug, PartialEq, Eq, Structural)]
pub enum FacilitatorFallback {
    /// Answer with status 500.
    Error,
    /// Let the request through as if the module were not there.
    Pass,
}

/// The typed configuration of a location.
#[derive(Clone, Debug)]
pub struct ParsedX402Config {
    pub enabled: bool,
    pub amount: Option<Amount>,
    pub pay_to: Option<String>,
    pub facilitator_url: Option<String>,
    pub description: Option<String>,
    pub network: Option<String>,
    pub network_id: Option<u64>,
    pub resource: Option<String>,
    pub asset: Option<String>,
    pub asset_decimals: Option<u8>,
    /// Facilitator timeout in seconds.
    pub timeout: Option<u64>,
    pub facilitator_fallback: FacilitatorFallback,
    pub ttl: Option<u32>,
}

/// The typed configuration as mathematical values.
pub struct ParsedView {
    pub enabled: bool,
    pub amount: Option<(int, nat)>,
    pub pay_to: Option<Seq<char>>,
    pub facilitator_url: Option<Seq<char>>,
    pub description: Option<Seq<char>>,
    pub network: Option<Seq<char>>,
    pub network_id: Option<u64>,
    pub resource: Option<Seq<char>>,
    pub asset: Option<Seq<char>>,
    pub asset_decimals: Option<u8>,
    pub timeout: Option<u64>,
    pub facilitator_fallback: FacilitatorFallback,
    pub ttl: Option<u32>,
}

pub open spec fn opt_view(s: Option<String>) -> Option<Seq<char>> {
    match s {
        Some(t) => Some(t@),
        None => None,
    }
}

impl View for ParsedX402Config {
    type V = ParsedView;

    open spec fn view(&self) -> ParsedView {
        ParsedView {
            enabled: self.enabled,
            amount: match self.amount {
                Some(a) => Some(a.parts()),
                None => None,
            },
            pay_to: opt_view(self.pay_to),
            facilitator_url: opt_view(self.facilitator_url),
            description: opt_view(self.description),
            network: opt_view(self.network),
            network_id: self.network_id,
            resource: opt_view(self.resource),
            asset: opt_view(self.asset),
            asset_decimals: self.asset_decimals,
            timeout: self.timeout,
            facilitator_fallback: self.facilitator_fallback,
            ttl: self.ttl,
        }
    }
}

// ---------------------------------------------------------------------------
// Inheritance
// ---------------------------------------------------------------------------

/// A location inherits a directive value from the enclosing block when it
/// sets none itself.
pub open spec fn inherit(own: Seq<u8>, parent: Seq<u8>) -> Seq<u8> {
    if own.len() == 0 && parent.len() > 0 {
        parent
    } else {
        own
    }
}

/// Whether a location with a directive value of `own_len` bytes takes the
/// value of `parent_len` bytes from the enclosing block.
pub fn inherits(own_len: usize, parent_len: usize) -> (r: bool)
    ensures
        r == (own_len == 0 && parent_len > 0),
{
    own_len == 0 && parent_len > 0
}

fn inherit_field(own: &mut Vec<u8>, parent: &Vec<u8>)
    ensures
        final(own)@ == inherit(old(own)@, parent@),
{
    if inherits(own.len(), parent.len()) {
        *own = parent.clone();
    }
}

/// The directive values of a location as mathematical values.
pub struct RawView {
    pub enabled: isize,
    pub amount_str: Seq<u8>,
    pub pay_to_str: Seq<u8>,
    pub facilitator_url_str: Seq<u8>,
    pub description_str: Seq<u8>,
    pub network_str: Seq<u8>,
    pub network_id_str: Seq<u8>,
    pub resource_str: Seq<u8>,
    pub asset_str: Seq<u8>,
    pub asset_decimals_str: Seq<u8>,
    pub timeout_str: Seq<u8>,
    pub facilitator_fallback_str: Seq<u8>,
    pub ttl_str: Seq<u8>,
}

impl View for X402Config {
    type V = RawView;

    open spec fn view(&self) -> RawView {
        RawView {
            enabled: self.enabled,
            amount_str: self.amount_str@,
            pay_to_str: self.pay_to_str@,
            facilitator_url_str: self.facilitator_url_str@,
            description_str: self.description_str@,
            network_str: self.network_str@,
            network_id_str: self.network_id_str@,
            resource_str: self.resource_str@,
            asset_str: self.asset_str@,
            asset_decimals_str: self.asset_decimals_str@,
            timeout_str: self.timeout_str@,
            facilitator_fallback_str: self.facilitator_fallback_str@,
            ttl_str: self.ttl_str@,
        }
    }
}

impl RawView {
    /// This location's values merged with those of the enclosing block.
    pub open spec fn merged(self, parent: RawView) -> RawView {
        RawView {
            enabled: if self.enabled == 0 {
                parent.enabled
            } else {
                self.enabled
            },
            amount_str: inherit(self.amount_str, parent.amount_str),
            pay_to_str: inherit(self.pay_to_str, parent.pay_to_str),
            facilitator_url_str: inherit(self.facilitator_url_str, parent.facilitator_url_str),
            description_str: inherit(self.description_str, parent.description_str),
            network_str: inherit(self.network_str, parent.network_str),
            network_id_str: inherit(self.network_id_str, parent.network_id_str),
            resource_str: inherit(self.resource_str, parent.resource_str),
            asset_str: inherit(self.asset_str, parent.asset_str),
            asset_decimals_str: inherit(self.asset_decimals_str, parent.asset_decimals_str),
            timeout_str: inherit(self.timeout_str, parent.timeout_str),
            facilitator_fallback_str: inherit(
                self.facilitator_fallback_str,
                parent.facilitator_fallback_str,
            ),
            ttl_str: inherit(self.ttl_str, parent.ttl_str),
        }
    }

    /// No directive set: the flag off and every value empty.
    pub open spec fn is_unset(self) -> bool {
        &&& self.enabled == 0
        &&& self.amount_str.len() == 0
        &&& self.pay_to_str.len() == 0
        &&& self.facilitator_url_str.len() == 0
        &&& self.description_str.len() == 0
        &&& self.network_str.len() == 0
        &&& self.network_id_str.len() == 0
        &&& self.resource_str.len() == 0
        &&& self.asset_str.len() == 0
        &&& self.asset_decimals_str.len() == 0
        &&& self.timeout_str.len() == 0
        &&& self.facilitator_fallback_str.len() == 0
        &&& self.ttl_str.len() == 0
    }
}

impl X402Config {
    /// A location with no directive set.
    pub fn unset() -> (r: X402Config)
        ensures
            r@.is_unset(),
    {
        X402Config {
            enabled: 0,
            amount_str: Vec::new(),
            pay_to_str: Vec::new(),
            facilitator_url_str: Vec::new(),
            description_str: Vec::new(),
            network_str: Vec::new(),
            network_id_str: Vec::new(),
            resource_str: Vec::new(),
            asset_str: Vec::new(),
            asset_decimals_str: Vec::new(),
            timeout_str: Vec::new(),
            facilitator_fallback_str: Vec::new(),
            ttl_str: Vec::new(),
        }
    }

    /// Merges the configuration of the enclosing block into this one: the
    /// flag is inherited when this location leaves it off, each value when
    /// this location leaves it empty.
    pub fn merge_from(&mut self, parent: &X402Config)
        ensures
            final(self)@ == old(self)@.merged(parent@),
    {
        if self.enabled == 0 {
            self.enabled = parent.enabled;
        }
        inherit_field(&mut self.amount_str, &parent.amount_str);
        inherit_field(&mut self.pay_to_str, &parent.pay_to_str);
        inherit_field(&mut self.facilitator_url_str, &parent.facilitator_url_str);
        inherit_field(&mut self.description_str, &parent.description_str);
        inherit_field(&mut self.network_str, &parent.network_str);
        inherit_field(&mut self.network_id_str, &parent.network_id_str);
        inherit_field(&mut self.resource_str, &parent.resource_str);
        inherit_field(&mut self.asset_str, &parent.asset_str);
        inherit_field(&mut self.asset_decimals_str, &parent.asset_decimals_str);
        inherit_field(&mut self.timeout_str, &parent.timeout_str);
        inherit_field(&mut self.facilitator_fallback_str, &parent.facilitator_fallback_str);
        inherit_field(&mut self.ttl_str, &parent.ttl_str);
    }
}

impl Default for X402Config {
    fn default() -> (r: X402Config)
        ensures
            r@.is_unset(),
    {
        X402Config::unset()
    }
}

/// Merging is idempotent: merging the same enclosing block a second time
/// changes nothing.
pub proof fn lemma_merge_idempotent(own: RawView, parent: RawView)
    ensures
        own.merged(parent).merged(parent) == own.merged(parent),
{
}

/// A block with no directive set passes nothing on: merging it leaves a
/// location's values unchanged.
pub proof fn lemma_merge_unset_parent(own: RawView, parent: RawView)
    requires
        parent.is_unset(),
    ensures
        own.merged(parent) == own,
{
}

/// A value a location sets itself is never overridden by the enclosing
/// block, and an empty one takes the block's value: this holds of the flag
/// and of every directive value.
pub proof fn lemma_merge_own_wins(own: RawView, parent: RawView)
    ensures
        own.amount_str.len() > 0 ==> own.merged(parent).amount_str == own.amount_str,
        own.amount_str.len() == 0 ==> own.merged(parent).amount_str == parent.amount_str,
        own.pay_to_str.len() > 0 ==> own.merged(parent).pay_to_str == own.pay_to_str,
        own.pay_to_str.len() == 0 ==> own.merged(parent).pay_to_str == parent.pay_to_str,
        own.facilitator_url_str.len() > 0 ==> own.merged(parent).facilitator_url_str == own.facilitator_url_str,
        own.facilitator_url_str.len() == 0 ==> own.merged(parent).facilitator_url_str == parent.facilitator_url_str,
        own.description_str.len() > 0 ==> own.merged(parent).description_str == own.description_str,
        own.description_str.len() == 0 ==> own.merged(parent).description_str == parent.description_str,
        own.network_str.len() > 0 ==> own.merged(parent).network_str == own.network_str,
        own.network_str.len() == 0 ==> own.merged(parent).network_str == parent.network_str,
        own.network_id_str.len() > 0 ==> own.merged(parent).network_id_str == own.network_id_str,
        own.network_id_str.len() == 0 ==> own.merged(parent).network_id_str == parent.network_id_str,
        own.resource_str.len() > 0 ==> own.merged(parent).resource_str == own.resource_str,
        own.resource_str.len() == 0 ==> own.merged(parent).resource_str == parent.resource_str,
        own.asset_str.len() > 0 ==> own.merged(parent).asset_str == own.asset_str,
        own.asset_str.len() == 0 ==> own.merged(parent).asset_str == parent.asset_str,
        own.asset_decimals_str.len() > 0 ==> own.merged(parent).asset_decimals_str == own.asset_decimals_str,
        own.asset_decimals_str.len() == 0 ==> own.merged(parent).asset_decimals_str == parent.asset_decimals_str,
        own.timeout_str.len() > 0 ==> own.merged(parent).timeout_str == own.timeout_str,
        own.timeout_str.len() == 0 ==> own.merged(parent).timeout_str == parent.timeout_str,
        own.facilitator_fallback_str.len() > 0 ==> own.merged(parent).facilitator_fallback_str == own.facilitator_fallback_str,
        own.facilitator_fallback_str.len() == 0 ==> own.merged(parent).facilitator_fallback_str == parent.facilitator_fallback_str,
        own.ttl_str.len() > 0 ==> own.merged(parent).ttl_str == own.ttl_str,
        own.ttl_str.len() == 0 ==> own.merged(parent).ttl_str == parent.ttl_str,
        own.enabled != 0 ==> own.merged(parent).enabled == own.enabled,
        own.enabled == 0 ==> own.merged(parent).enabled == parent.enabled,
{
}

// ---------------------------------------------------------------------------
// Parsing
// ---------------------------------------------------------------------------

/// The text of a directive value that is valid UTF-8.
pub open spec fn text_of(b: Seq<u8>) -> Seq<char> {
    decode_utf8(b)
}

/// `x402_amount`: a decimal number accepted by amount validation.
pub open spec fn amount_field(b: Seq<u8>) -> Result<Option<(int, nat)>, Seq<char>> {
    if b.len() == 0 {
        Ok(None)
    } else if !valid_utf8(b) {
        Err("Invalid amount string encoding"@)
    } else {
        match decimal_parse(text_of(b)) {
            Err(e) => Err("Invalid amount format: "@ + e),
            Ok(p) => match amount_check(Amount { mantissa: p.0 as i128, scale: p.1 as u32 }) {
                Err(v) => Err(v.text()),
                Ok(_) => Ok(Some(p)),
            },
        }
    }
}

/// A directive value that must be an Ethereum address (`x402_pay_to`,
/// `x402_asset`); `what` names it in the encoding error.
pub open spec fn address_field(b: Seq<u8>, encoding_error: Seq<char>) -> Result<
    Option<Seq<char>>,
    Seq<char>,
> {
    if b.len() == 0 {
        Ok(None)
    } else if !valid_utf8(b) {
        Err(encoding_error)
    } else {
        match address_check(b) {
            Err(v) => Err(v.text()),
            Ok(_) => Ok(Some(text_of(b))),
        }
    }
}

/// `x402_facilitator_url`: a URL accepted by URL validation.
pub open spec fn url_field(b: Seq<u8>) -> Result<Option<Seq<char>>, Seq<char>> {
    if b.len() == 0 {
        Ok(None)
    } else if !valid_utf8(b) {
        Err("Invalid facilitator_url string encoding"@)
    } else {
        match url_check(b) {
            Err(v) => Err(v.text()),
            Ok(_) => Ok(Some(text_of(b))),
        }
    }
}

/// A free-text directive value (`x402_description`, `x402_resource`): absent
/// when empty or not valid UTF-8.
pub open spec fn free_text_field(b: Seq<u8>) -> Option<Seq<char>> {
    if b.len() > 0 && valid_utf8(b) {
        Some(text_of(b))
    } else {
        None
    }
}

/// `x402_network_id`: the chain identifier of a known network.
pub open spec fn network_id_field(b: Seq<u8>) -> Result<Option<u64>, Seq<char>> {
    if b.len() == 0 {
        Ok(None)
    } else if !valid_utf8(b) {
        Err("Invalid network_id string encoding"@)
    } else {
        match unsigned_parse(b, u64::MAX as int) {
            Err(k) => Err("Invalid network_id format: "@ + k.text()),
            Ok(v) => if chain_network(v as u64) is None {
                Err(ValidationError::UnsupportedChainId { chain_id: v as u64 }.text())
            } else {
                Ok(Some(v as u64))
            },
        }
    }
}

/// `x402_network`: a supported network name; ignored when a chain identifier
/// is configured.
pub open spec fn network_field(b: Seq<u8>, has_network_id: bool) -> Result<
    Option<Seq<char>>,
    Seq<char>,
> {
    if has_network_id || b.len() == 0 {
        Ok(None)
    } else if !valid_utf8(b) {
        Err("Invalid network string encoding"@)
    } else if text_of(b).len() == 0 {
        Err(ValidationError::EmptyNetwork.text())
    } else if !crate::networks::is_supported_network(text_of(b)) {
        Err("Configuration error: "@ + crate::error::unsupported_network_detail(text_of(b)))
    } else {
        Ok(Some(text_of(b)))
    }
}

/// `x402_asset_decimals`: a number of decimals of at most 28.
pub open spec fn asset_decimals_field(b: Seq<u8>) -> Result<Option<u8>, Seq<char>> {
    if b.len() == 0 {
        Ok(None)
    } else if !valid_utf8(b) {
        Err("Invalid asset_decimals string encoding"@)
    } else {
        match unsigned_parse(b, 255) {
            Err(k) => Err("Invalid asset_decimals format: "@ + k.text()),
            Ok(v) => if v > 28 {
                Err("asset_decimals must be at most 28 (Decimal max precision)"@)
            } else {
                Ok(Some(v as u8))
            },
        }
    }
}

/// `x402_timeout`: a number of seconds from 1 to 300.
pub open spec fn timeout_field(b: Seq<u8>) -> Result<Option<u64>, Seq<char>> {
    if b.len() == 0 {
        Ok(None)
    } else if !valid_utf8(b) {
        Err("Invalid timeout string encoding"@)
    } else {
        match unsigned_parse(b, u64::MAX as int) {
            Err(k) => Err("Invalid timeout format: "@ + k.text()),
            Ok(v) => if v < 1 {
                Err("Timeout must be at least 1 second"@)
            } else if v > 300 {
                Err("Timeout must be at most 300 seconds (5 minutes)"@)
            } else {
                Ok(Some(v as u64))
            },
        }
    }
}

/// `x402_facilitator_fallback`: `error` or `500` answer with status 500;
/// `pass`, `bypass` or `through` let the request through; any case; `error`
/// when not given.
pub open spec fn fallback_field(b: Seq<u8>) -> Result<FacilitatorFallback, Seq<char>> {
    if b.len() == 0 {
        Ok(FacilitatorFallback::Error)
    } else if !valid_utf8(b) {
        Err("Invalid facilitator_fallback string encoding"@)
    } else {
        let l = lowercase(text_of(b));
        if l == "error"@ || l == "500"@ {
            Ok(FacilitatorFallback::Error)
        } else if l == "pass"@ || l == "bypass"@ || l == "through"@ {
            Ok(FacilitatorFallback::Pass)
        } else {
            Err("Invalid facilitator_fallback value. Must be 'error' or 'pass'"@)
        }
    }
}

/// `x402_ttl`: a number of seconds from 1 to 3600.
pub open spec fn ttl_field(b: Seq<u8>) -> Result<Option<u32>, Seq<char>> {
    if b.len() == 0 {
        Ok(None)
    } else if !valid_utf8(b) {
        Err("Invalid ttl string encoding"@)
    } else {
        match unsigned_parse(b, u32::MAX as int) {
            Err(k) => Err("Invalid ttl format: "@ + k.text()),
            Ok(v) => if v < 1 {
                Err("ttl must be at least 1 second"@)
            } else if v > 3600 {
                Err("ttl must be at most 3600 seconds (1 hour)"@)
            } else {
                Ok(Some(v as u32))
            },
        }
    }
}

/// The outcome of parsing a location's directive values: the fields are
/// parsed in the order amount, pay-to address, facilitator URL, description,
/// chain identifier, network, resource, asset, asset decimals, timeout,
/// fallback, ttl, and the first rejection is the error. An empty value is
/// absent rather than rejected.
pub open spec fn parse_outcome(c: RawView) -> Result<ParsedView, Seq<char>> {
    match amount_field(c.amount_str) {
        Err(e) => Err(e),
        Ok(amount) => match address_field(c.pay_to_str, "Invalid pay_to string encoding"@) {
            Err(e) => Err(e),
            Ok(pay_to) => match url_field(c.facilitator_url_str) {
                Err(e) => Err(e),
                Ok(facilitator_url) => match network_id_field(c.network_id_str) {
                    Err(e) => Err(e),
                    Ok(network_id) => match network_field(c.network_str, network_id is Some) {
                        Err(e) => Err(e),
                        Ok(network) => match address_field(
                            c.asset_str,
                            "Invalid asset string encoding"@,
                        ) {
                            Err(e) => Err(e),
                            Ok(asset) => match asset_decimals_field(c.asset_decimals_str) {
                                Err(e) => Err(e),
                                Ok(asset_decimals) => match timeout_field(c.timeout_str) {
                                    Err(e) => Err(e),
                                    Ok(timeout) => match fallback_field(
                                        c.facilitator_fallback_str,
                                    ) {
                                        Err(e) => Err(e),
                                        Ok(facilitator_fallback) => match ttl_field(c.ttl_str) {
                                            Err(e) => Err(e),
                                            Ok(ttl) => Ok(
                                                ParsedView {
                                                    enabled: c.enabled != 0,
                                                    amount,
                                                    pay_to,
                                                    facilitator_url,
                                                    description: free_text_field(
                                                        c.description_str,
                                                    ),
                                                    network,
                                                    network_id,
                                                    resource: free_text_field(c.resource_str),
                                                    asset,
                                                    asset_decimals,
                                                    timeout,
                                                    facilitator_fallback,
                                                    ttl,
                                                },
                                            ),
                                        },
                                    },
                                },
                            },
                        },
                    },
                },
            },
        },
    }
}

fn text_error(prefix: &str, detail: String) -> (r: ConfigError)
    ensures
        r@ == prefix@ + detail@,
{
    let mut m = String::from_str(prefix);
    m.append(detail.as_str());
    ConfigError::new(m)
}

fn parse_amount(b: &Vec<u8>) -> (r: Result<Option<Amount>, ConfigError>)
    ensures
        match r {
            Ok(a) => amount_field(b@) == Ok::<Option<(int, nat)>, Seq<char>>(
                match a {
                    Some(x) => Some(x.parts()),
                    None => None,
                },
            ) && (a matches Some(x) ==> x.wf()),
            Err(e) => amount_field(b@) == Err::<Option<(int, nat)>, Seq<char>>(e@),
        },
{
    if b.len() == 0 {
        return Ok(None);
    }
    let text = match utf8_text(b.as_slice()) {
        Some(t) => t,
        None => return Err(ConfigError::msg("Invalid amount string encoding")),
    };
    let amount = match Amount::parse(text) {
        Ok(a) => a,
        Err(e) => return Err(text_error("Invalid amount format: ", e)),
    };
    match validate_amount(amount) {
        Err(v) => Err(ConfigError::from_validation(&v)),
        Ok(()) => Ok(Some(amount)),
    }
}

fn parse_address(b: &Vec<u8>, encoding_error: &str) -> (r: Result<Option<String>, ConfigError>)
    ensures
        match r {
            Ok(a) => address_field(b@, encoding_error@) == Ok::<Option<Seq<char>>, Seq<char>>(
                opt_view(a),
            ),
            Err(e) => address_field(b@, encoding_error@) == Err::<Option<Seq<char>>, Seq<char>>(
                e@,
            ),
        },
{
    if b.len() == 0 {
        return Ok(None);
    }
    let text = match utf8_text(b.as_slice()) {
        Some(t) => t,
        None => return Err(ConfigError::msg(encoding_error)),
    };
    match validate_ethereum_address(text) {
        Err(v) => Err(ConfigError::from_validation(&v)),
        Ok(()) => Ok(Some(String::from_str(text))),
    }
}

fn parse_url(b: &Vec<u8>) -> (r: Result<Option<String>, ConfigError>)
    ensures
        match r {
            Ok(a) => url_field(b@) == Ok::<Option<Seq<char>>, Seq<char>>(opt_view(a)),
            Err(e) => url_field(b@) == Err::<Option<Seq<char>>, Seq<char>>(e@),
        },
{
    if b.len() == 0 {
        return Ok(None);
    }
    let text = match utf8_text(b.as_slice()) {
        Some(t) => t,
        None => return Err(ConfigError::msg("Invalid facilitator_url string encoding")),
    };
    match validate_url(text) {
        Err(v) => Err(ConfigError::from_validation(&v)),
        Ok(()) => Ok(Some(String::from_str(text))),
    }
}

fn parse_free_text(b: &Vec<u8>) -> (r: Option<String>)
    ensures
        opt_view(r) == free_text_field(b@),
{
    if b.len() == 0 {
        return None;
    }
    match utf8_text(b.as_slice()) {
        Some(t) => Some(String::from_str(t)),
        None => None,
    }
}

fn parse_network_id(b: &Vec<u8>) -> (r: Result<Option<u64>, ConfigError>)
    ensures
        match r {
            Ok(a) => network_id_field(b@) == Ok::<Option<u64>, Seq<char>>(a),
            Err(e) => network_id_field(b@) == Err::<Option<u64>, Seq<char>>(e@),
        },
{
    if b.len() == 0 {
        return Ok(None);
    }
    if utf8_text(b.as_slice()).is_none() {
        return Err(ConfigError::msg("Invalid network_id string encoding"));
    }
    let v = match parse_unsigned(b.as_slice(), u64::MAX) {
        Ok(v) => v,
        Err(k) => return Err(text_error("Invalid network_id format: ", k.message())),
    };
    match chain_id_to_network(v) {
        Err(e) => Err(ConfigError::from_validation(&e)),
        Ok(_) => Ok(Some(v)),
    }
}

fn parse_network(b: &Vec<u8>, has_network_id: bool) -> (r: Result<Option<String>, ConfigError>)
    ensures
        match r {
            Ok(a) => network_field(b@, has_network_id) == Ok::<Option<Seq<char>>, Seq<char>>(
                opt_view(a),
            ),
            Err(e) => network_field(b@, has_network_id) == Err::<Option<Seq<char>>, Seq<char>>(
                e@,
            ),
        },
{
    if has_network_id || b.len() == 0 {
        return Ok(None);
    }
    let text = match utf8_text(b.as_slice()) {
        Some(t) => t,
        None => return Err(ConfigError::msg("Invalid network string encoding")),
    };
    match validate_network(text) {
        Err(v) => Err(ConfigError::from_validation(&v)),
        Ok(()) => Ok(Some(String::from_str(text))),
    }
}

fn parse_asset_decimals(b: &Vec<u8>) -> (r: Result<Option<u8>, ConfigError>)
    ensures
        match r {
            Ok(a) => asset_decimals_field(b@) == Ok::<Option<u8>, Seq<char>>(a),
            Err(e) => asset_decimals_field(b@) == Err::<Option<u8>, Seq<char>>(e@),
        },
        r matches Ok(Some(d)) ==> d <= 28,
{
    if b.len() == 0 {
        return Ok(None);
    }
    if utf8_text(b.as_slice()).is_none() {
        return Err(ConfigError::msg("Invalid asset_decimals string encoding"));
    }
    let v = match parse_unsigned(b.as_slice(), 255) {
        Ok(v) => v,
        Err(k) => return Err(text_error("Invalid asset_decimals format: ", k.message())),
    };
    if v > 28 {
        return Err(ConfigError::msg("asset_decimals must be at most 28 (Decimal max precision)"));
    }
    Ok(Some(v as u8))
}

fn parse_timeout(b: &Vec<u8>) -> (r: Result<Option<u64>, ConfigError>)
    ensures
        match r {
            Ok(a) => timeout_field(b@) == Ok::<Option<u64>, Seq<char>>(a),
            Err(e) => timeout_field(b@) == Err::<Option<u64>, Seq<char>>(e@),
        },
{
    if b.len() == 0 {
        return Ok(None);
    }
    if utf8_text(b.as_slice()).is_none() {
        return Err(ConfigError::msg("Invalid timeout string encoding"));
    }
    let v = match parse_unsigned(b.as_slice(), u64::MAX) {
        Ok(v) => v,
        Err(k) => return Err(text_error("Invalid timeout format: ", k.message())),
    };
    if v < 1 {
        return Err(ConfigError::msg("Timeout must be at least 1 second"));
    }
    if v > 300 {
        return Err(ConfigError::msg("Timeout must be at most 300 seconds (5 minutes)"));
    }
    Ok(Some(v))
}

/// Whether the bytes are UTF-8 text that is the word `w` in some mix of ASCII
/// upper and lower case.
pub open spec fn spells_word(b: Seq<u8>, w: Seq<char>) -> bool {
    valid_utf8(b) && ascii_lower(decode_utf8(b)) == w
}

/// The words that let a request through when the facilitator fails.
pub open spec fn pass_word(b: Seq<u8>) -> bool {
    spells_word(b, "pass"@) || spells_word(b, "bypass"@) || spells_word(b, "through"@)
}

/// The words that answer with an error when the facilitator fails.
pub open spec fn error_word(b: Seq<u8>) -> bool {
    spells_word(b, "error"@) || spells_word(b, "500"@)
}

fn parse_fallback(b: &Vec<u8>) -> (r: Result<FacilitatorFallback, ConfigError>)
    ensures
        match r {
            Ok(a) => fallback_field(b@) == Ok::<FacilitatorFallback, Seq<char>>(a),
            Err(e) => fallback_field(b@) == Err::<FacilitatorFallback, Seq<char>>(e@),
        },
        pass_word(b@) ==> r == Ok::<FacilitatorFallback, ConfigError>(FacilitatorFallback::Pass),
        error_word(b@) || b@.len() == 0 ==> r == Ok::<FacilitatorFallback, ConfigError>(
            FacilitatorFallback::Error,
        ),
{
    proof {
        reveal_strlit("pass");
        reveal_strlit("bypass");
        reveal_strlit("through");
        reveal_strlit("error");
        reveal_strlit("500");
        assert(is_ascii_text("pass"@));
        assert(is_ascii_text("bypass"@));
        assert(is_ascii_text("through"@));
        assert(is_ascii_text("error"@));
        assert(is_ascii_text("500"@));
        if pass_word(b@) || error_word(b@) {
            lemma_ascii_lower_of_ascii(decode_utf8(b@));
        }
    }
    if b.len() == 0 {
        return Ok(FacilitatorFallback::Error);
    }
    let text = match utf8_text(b.as_slice()) {
        Some(t) => t,
        None => return Err(ConfigError::msg("Invalid facilitator_fallback string encoding")),
    };
    let lower = to_lowercase(text);
    let l = chars_of(lower.as_str());
    if same_chars(&l, &chars_of("error")) || same_chars(&l, &chars_of("500")) {
        Ok(FacilitatorFallback::Error)
    } else if same_chars(&l, &chars_of("pass")) || same_chars(&l, &chars_of("bypass"))
        || same_chars(&l, &chars_of("through")) {
        Ok(FacilitatorFallback::Pass)
    } else {
        Err(ConfigError::msg("Invalid facilitator_fallback value. Must be 'error' or 'pass'"))
    }
}

fn parse_ttl(b: &Vec<u8>) -> (r: Result<Option<u32>, ConfigError>)
    ensures
        match r {
            Ok(a) => ttl_field(b@) == Ok::<Option<u32>, Seq<char>>(a),
            Err(e) => ttl_field(b@) == Err::<Option<u32>, Seq<char>>(e@),
        },
{
    if b.len() == 0 {
        return Ok(None);
    }
    if utf8_text(b.as_slice()).is_none() {
        return Err(ConfigError::msg("Invalid ttl string encoding"));
    }
    let v = match parse_unsigned(b.as_slice(), 4294967295) {
        Ok(v) => v,
        Err(k) => return Err(text_error("Invalid ttl format: ", k.message())),
    };
    if v < 1 {
        return Err(ConfigError::msg("ttl must be at least 1 second"));
    }
    if v > 3600 {
        return Err(ConfigError::msg("ttl must be at most 3600 seconds (1 hour)"));
    }
    Ok(Some(v as u32))
}

impl X402Config {
    /// Parses and validates the directive values into typed values. Empty
    /// values are absent rather than rejected; the first value that is
    /// rejected gives the error (see [`parse_outcome`]).
    pub fn parse(&self) -> (r: Result<ParsedX402Config, ConfigError>)
        ensures
            match r {
                Ok(p) => parse_outcome(self@) == Ok::<ParsedView, Seq<char>>(p@) && (
                p.amount matches Some(a) ==> a.wf()) && (p.asset_decimals matches Some(d) ==> d
                    <= 28),
                Err(e) => parse_outcome(self@) == Err::<ParsedView, Seq<char>>(e@),
            },
            r matches Ok(p) ==> (pass_word(self.facilitator_fallback_str@)
                ==> p.facilitator_fallback == FacilitatorFallback::Pass),
            r matches Ok(p) ==> (error_word(self.facilitator_fallback_str@)
                || self.facilitator_fallback_str@.len() == 0 ==> p.facilitator_fallback
                == FacilitatorFallback::Error),
    {
        let amount = match parse_amount(&self.amount_str) {
            Ok(a) => a,
            Err(e) => return Err(e),
        };
        let pay_to = match parse_address(&self.pay_to_str, "Invalid pay_to string encoding") {
            Ok(a) => a,
            Err(e) => return Err(e),
        };
        let facilitator_url = match parse_url(&self.facilitator_url_str) {
            Ok(a) => a,
            Err(e) => return Err(e),
        };
        let description = parse_free_text(&self.description_str);
        let network_id = match parse_network_id(&self.network_id_str) {
            Ok(a) => a,
            Err(e) => return Err(e),
        };
        let network = match parse_network(&self.network_str, network_id.is_some()) {
            Ok(a) => a,
            Err(e) => return Err(e),
        };
        let resource = parse_free_text(&self.resource_str);
        let asset = match parse_address(&self.asset_str, "Invalid asset string encoding") {
            Ok(a) => a,
            Err(e) => return Err(e),
        };
        let asset_decimals = match parse_asset_decimals(&self.asset_decimals_str) {
            Ok(a) => a,
            Err(e) => return Err(e),
        };
        let timeout = match parse_timeout(&self.timeout_str) {
            Ok(a) => a,
            Err(e) => return Err(e),
        };
        let facilitator_fallback = match parse_fallback(&self.facilitator_fallback_str) {
            Ok(a) => a,
            Err(e) => return Err(e),
        };
        let ttl = match parse_ttl(&self.ttl_str) {
            Ok(a) => a,
            Err(e) => return Err(e),
        };
        Ok(
            ParsedX402Config {
                enabled: self.enabled != 0,
                amount,
                pay_to,
                facilitator_url,
                description,
                network,
                network_id,
                resource,
                asset,
                asset_decimals,
                timeout,
                facilitator_fallback,
                ttl,
            },
        )
    }
}

// ---------------------------------------------------------------------------
// Directives
// ---------------------------------------------------------------------------

/// The directives that take a text argument.
#[derive(Clone, Copy, Debug, PartialEq, Eq, Structural)]
pub enum Directive {
    Amount,
    PayTo,
    FacilitatorUrl,
    Description,
    Network,
    NetworkId,
    Resource,
    Asset,
    AssetDecimals,
    Timeout,
    FacilitatorFallback,
    Ttl,
}

impl RawView {
    /// These values with the argument of one directive replaced.
    pub open spec fn with_value(self, d: Directive, v: Seq<u8>) -> RawView {
        match d {
            Directive::Amount => RawView { amount_str: v, ..self },
            Directive::PayTo => RawView { pay_to_str: v, ..self },
            Directive::FacilitatorUrl => RawView { facilitator_url_str: v, ..self },
            Directive::Description => RawView { description_str: v, ..self },
            Directive::Network => RawView { network_str: v, ..self },
            Directive::NetworkId => RawView { network_id_str: v, ..self },
            Directive::Resource => RawView { resource_str: v, ..self },
            Directive::Asset => RawView { asset_str: v, ..self },
            Directive::AssetDecimals => RawView { asset_decimals_str: v, ..self },
            Directive::Timeout => RawView { timeout_str: v, ..self },
            Directive::FacilitatorFallback => RawView { facilitator_fallback_str: v, ..self },
            Directive::Ttl => RawView { ttl_str: v, ..self },
        }
    }
}

/// What the argument of the `x402` directive turns the module to: on or
/// off, without regard to case; anything else leaves it as it is.
pub open spec fn switch_value(v: Seq<u8>) -> Option<bool> {
    if !valid_utf8(v) {
        None
    } else if lowercase(decode_utf8(v)) == "on"@ {
        Some(true)
    } else if lowercase(decode_utf8(v)) == "off"@ {
        Some(false)
    } else {
        None
    }
}

/// A vector holding these bytes.
fn bytes_to_vec(b: &[u8]) -> (r: Vec<u8>)
    ensures
        r@ == b@,
{
    let mut r: Vec<u8> = Vec::new();
    let mut i: usize = 0;
    while i < b.len()
        invariant
            i <= b@.len(),
            r@ == b@.subrange(0, i as int),
        decreases b.len() - i,
    {
        r.push(b[i]);
        i = i + 1;
    }
    assert(r@ =~= b@);
    r
}

impl X402Config {
    /// Stores the argument of a directive. An argument that is not UTF-8 is
    /// refused (`false`) and nothing changes.
    pub fn set_directive(&mut self, directive: Directive, value: &[u8]) -> (r: bool)
        ensures
            r == valid_utf8(value@),
            r ==> final(self)@ == old(self)@.with_value(directive, value@),
            !r ==> final(self)@ == old(self)@,
    {
        if utf8_text(value).is_none() {
            return false;
        }
        let v = bytes_to_vec(value);
        match directive {
            Directive::Amount => self.amount_str = v,
            Directive::PayTo => self.pay_to_str = v,
            Directive::FacilitatorUrl => self.facilitator_url_str = v,
            Directive::Description => self.description_str = v,
            Directive::Network => self.network_str = v,
            Directive::NetworkId => self.network_id_str = v,
            Directive::Resource => self.resource_str = v,
            Directive::Asset => self.asset_str = v,
            Directive::AssetDecimals => self.asset_decimals_str = v,
            Directive::Timeout => self.timeout_str = v,
            Directive::FacilitatorFallback => self.facilitator_fallback_str = v,
            Directive::Ttl => self.ttl_str = v,
        }
        true
    }

    /// Applies the argument of the `x402` directive (see [`switch_value`]):
    /// `on` sets the flag to 1, `off` to 0. Returns what it was switched to.
    pub fn set_switch(&mut self, value: &[u8]) -> (r: Option<bool>)
        ensures
            r == switch_value(value@),
            final(self)@ == match r {
                Some(true) => RawView { enabled: 1, ..old(self)@ },
                Some(false) => RawView { enabled: 0, ..old(self)@ },
                None => old(self)@,
            },
    {
        let text = match utf8_text(value) {
            Some(t) => t,
            None => return None,
        };
        let lower = to_lowercase(text);
        let l = chars_of(lower.as_str());
        let on = chars_of("on");
        let off = chars_of("off");
        if same_chars(&l, &on) {
            self.enabled = 1;
            Some(true)
        } else if same_chars(&l, &off) {
            self.enabled = 0;
            Some(false)
        } else {
            None
        }
    }
}

} // verus!
