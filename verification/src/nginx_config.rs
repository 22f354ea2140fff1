//! The configuration of the C interface: a payment amount and recipient, and
//! the requirements they give for a requested path.

use crate::amount::{exact_units_text, fits_exactly, units_defined, Amount};
use crate::networks::{
    base_mainnet, base_mainnet_name, base_sepolia, base_sepolia_name, scheme_exact, usdc_address,
    usdc_address_of, NetworkKind,
};
use crate::requirements::{
    atomic_units_text, fresh_requirements, usdc_info_of, PaymentRequirements, RequirementsView,
};
use crate::text::{lowercase, to_lowercase};
use vstd::prelude::*;

verus! {

/// The facilitator used when none is configured.
pub open spec fn default_facilitator() -> Seq<char> {
    "https://x402.org/facilitator"@
}

/// The facilitator used when none is configured, as a string.
pub fn default_facilitator_url() -> (r: String)
    ensures
        r@ == default_facilitator(),
{
    String::from_str("https://x402.org/facilitator")
}

/// Why payment requirements or a configuration could not be made.
#[derive(Clone, Debug)]
pub enum X402Error {
    /// No USDC contract is known for the network.
    NetworkNotSupported { network: String },
    /// A configuration value could not be read.
    Config { message: String },
}

impl X402Error {
    /// The message of the error.
    pub open spec fn text(self) -> Seq<char> {
        match self {
            X402Error::NetworkNotSupported { network } => "Network not supported: "@ + network@,
            X402Error::Config { message } => "Configuration error: "@ + message@,
        }
    }

    /// The message of the error.
    pub fn to_string(&self) -> (r: String)
        ensures
            r@ == self.text(),
    {
        match self {
            X402Error::NetworkNotSupported { network } => {
                let mut m = String::from_str("Network not supported: ");
                m.append(network.as_str());
                m
            },
            X402Error::Config { message } => {
                let mut m = String::from_str("Configuration error: ");
                m.append(message.as_str());
                m
            },
        }
    }
}

/// A payment configuration: the amount in whole tokens, the recipient, and
/// where and how payments are checked.
#[derive(Clone, Debug)]
pub struct NginxX402Config {
    pub amount: Amount,
    pub pay_to: String,
    pub description: Option<String>,
    pub facilitator_url: String,
    pub testnet: bool,
    pub network: Option<String>,
    pub resource: Option<String>,
}

impl Default for NginxX402Config {
    /// An amount of 0.0001, no recipient, the public facilitator, testnet.
    fn default() -> (r: NginxX402Config)
        ensures
            r.amount == (Amount { mantissa: 1, scale: 4 }),
            r.pay_to@ == Seq::<char>::empty(),
            r.description is None,
            r.facilitator_url@ == default_facilitator(),
            r.testnet,
            r.network is None,
            r.resource is None,
    {
        NginxX402Config {
            amount: Amount::new(1, 4),
            pay_to: String::new(),
            description: None,
            facilitator_url: default_facilitator_url(),
            testnet: true,
            network: None,
            resource: None,
        }
    }
}

/// The network a configuration pays on: its network name, else Base Sepolia
/// on testnet, else Base mainnet.
pub open spec fn network_of(network: Option<Seq<char>>, testnet: bool) -> Seq<char> {
    match network {
        Some(n) => n,
        None => if testnet {
            base_sepolia()
        } else {
            base_mainnet()
        },
    }
}

/// The requirements of a configuration for a requested path, or the error
/// when its network has no USDC contract. The amount is expressed in atomic
/// units of USDC (six decimals); the configured resource takes the place of
/// the path; the recipient is lower-cased; the description defaults
/// to `"Payment required"`; the USDC metadata follows the `testnet` flag.
pub open spec fn payment_requirements_of(
    amount: (int, nat),
    pay_to: Seq<char>,
    description: Option<Seq<char>>,
    testnet: bool,
    network: Option<Seq<char>>,
    resource: Option<Seq<char>>,
    request_uri: Seq<char>,
) -> Result<RequirementsView, Seq<char>> {
    let n = network_of(network, testnet);
    match usdc_address_of(n) {
        None => Err("Network not supported: "@ + n),
        Some(asset) => Ok(
            RequirementsView {
                extra: Some(
                    usdc_info_of(
                        if testnet {
                            NetworkKind::Testnet
                        } else {
                            NetworkKind::Mainnet
                        },
                    ),
                ),
                ..fresh_requirements(
                    "exact"@,
                    n,
                    atomic_units_text(amount, 6),
                    asset,
                    lowercase(pay_to),
                    match resource {
                        Some(r) => r,
                        None => request_uri,
                    },
                    match description {
                        Some(d) => d,
                        None => "Payment required"@,
                    },
                )
            },
        ),
    }
}

impl NginxX402Config {
    /// The network this configuration pays on.
    pub open spec fn spec_network(&self) -> Seq<char> {
        network_of(
            match self.network {
                Some(n) => Some(n@),
                None => None,
            },
            self.testnet,
        )
    }

    /// The requirements for a requested path (see [`payment_requirements_of`]).
    pub open spec fn requirements_for(&self, request_uri: Seq<char>) -> Result<
        RequirementsView,
        Seq<char>,
    > {
        payment_requirements_of(
            self.amount.parts(),
            self.pay_to@,
            match self.description {
                Some(d) => Some(d@),
                None => None,
            },
            self.testnet,
            match self.network {
                Some(n) => Some(n@),
                None => None,
            },
            match self.resource {
                Some(r) => Some(r@),
                None => None,
            },
            request_uri,
        )
    }

    /// Whether converting the amount to atomic units, which happens once the
    /// network is known, stays within the decimal range.
    pub open spec fn conversion_defined(&self) -> bool {
        usdc_address_of(self.spec_network()) is Some ==> units_defined(self.amount, 6)
    }

    /// A configuration with this amount and recipient and default settings
    /// otherwise (see `default`).
    pub fn new(amount: Amount, pay_to: String) -> (r: NginxX402Config)
        ensures
            r.amount == amount,
            r.pay_to == pay_to,
            r.description is None,
            r.facilitator_url@ == default_facilitator(),
            r.testnet,
            r.network is None,
            r.resource is None,
    {
        NginxX402Config { amount, pay_to, ..Default::default() }
    }

    /// The network this configuration pays on, as a string.
    fn network_name(&self) -> (r: String)
        ensures
            r@ == self.spec_network(),
    {
        match &self.network {
            Some(n) => n.clone(),
            None => if self.testnet {
                base_sepolia_name()
            } else {
                base_mainnet_name()
            },
        }
    }

    /// The payment requirements for a requested path (see
    /// [`requirements_for`](Self::requirements_for)).
    pub fn create_payment_requirements(&self, request_uri: &str) -> (r: Result<
        PaymentRequirements,
        X402Error,
    >)
        requires
            self.amount.wf(),
            self.conversion_defined(),
        ensures
            match r {
                Ok(q) => self.requirements_for(request_uri@) == Ok::<
                    RequirementsView,
                    Seq<char>,
                >(q@),
                Err(e) => e matches X402Error::NetworkNotSupported { network } && network@
                    == self.spec_network() && self.requirements_for(request_uri@) == Err::<
                    RequirementsView,
                    Seq<char>,
                >(e.text()),
            },
            fits_exactly(self.amount.parts(), 6) ==> (r matches Ok(q) ==> q.max_amount_required@
                == exact_units_text(self.amount.parts(), 6)),
    {
        let network = self.network_name();
        let asset = match usdc_address(network.as_str()) {
            Some(a) => a,
            None => return Err(X402Error::NetworkNotSupported { network }),
        };
        let resource = match &self.resource {
            Some(r) => r.clone(),
            None => String::from_str(request_uri),
        };
        let units = self.amount.to_atomic_units(6).unwrap();
        let description = match &self.description {
            Some(d) => d.clone(),
            None => String::from_str("Payment required"),
        };
        let mut requirements = PaymentRequirements::new(
            scheme_exact(),
            network,
            units.to_text(),
            asset,
            to_lowercase(self.pay_to.as_str()),
            resource,
            description,
        );
        let kind = if self.testnet {
            NetworkKind::Testnet
        } else {
            NetworkKind::Mainnet
        };
        requirements.set_usdc_info(kind);
        Ok(requirements)
    }

    /// The payment requirements for a requested path, or `None` when the
    /// network is known but the amount is too large to be expressed in atomic
    /// units within the decimal range.
    pub fn try_create_payment_requirements(&self, request_uri: &str) -> (r: Option<
        Result<PaymentRequirements, X402Error>,
    >)
        requires
            self.amount.wf(),
        ensures
            r is None <==> !self.conversion_defined(),
            r matches Some(Ok(q)) ==> self.requirements_for(request_uri@) == Ok::<
                RequirementsView,
                Seq<char>,
            >(q@),
            r matches Some(Err(e)) ==> e matches X402Error::NetworkNotSupported { network }
                && network@ == self.spec_network() && self.requirements_for(request_uri@)
                == Err::<RequirementsView, Seq<char>>(e.text()),
            fits_exactly(self.amount.parts(), 6) ==> (r matches Some(Ok(q))
                ==> q.max_amount_required@ == exact_units_text(self.amount.parts(), 6)),
    {
        let network = self.network_name();
        if usdc_address(network.as_str()).is_some() && self.amount.to_atomic_units(6).is_none() {
            return None;
        }
        Some(self.create_payment_requirements(request_uri))
    }
}

/// A configuration asks payment on its own network when it names one, else
/// on the network of its `testnet` flag; requirements for it exist exactly
/// when that network has a USDC contract, and then name that network.
pub proof fn lemma_requirements_network(c: NginxX402Config, request_uri: Seq<char>)
    ensures
        c.network matches Some(n) ==> c.spec_network() == n@,
        c.network is None ==> c.spec_network() == (if c.testnet {
            base_sepolia()
        } else {
            base_mainnet()
        }),
        c.requirements_for(request_uri) is Err <==> usdc_address_of(c.spec_network()) is None,
        c.requirements_for(request_uri) matches Ok(q) ==> q.network == c.spec_network(),
{
}

} // verus!
