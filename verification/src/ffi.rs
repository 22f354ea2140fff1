//! The decisions of the C interface: how its string arguments are read, which
//! status code each outcome gets, and how a result is fitted into the
//! caller's buffer.

use crate::amount::{decimal_parse, Amount};
use crate::nginx_config::{
    default_facilitator, default_facilitator_url, payment_requirements_of, NginxX402Config,
    X402Error,
};
use crate::requirements::{PaymentRequirements, RequirementsView};
use crate::text::contains_seq;
use vstd::prelude::*;

verus! {

/// The call succeeded (for a verification: the payment is valid).
pub const STATUS_OK: i32 = 0;

/// An argument is missing or unreadable.
pub const STATUS_INVALID_INPUT: i32 = 1;

/// The facilitator found the payment invalid.
pub const STATUS_VERIFICATION_FAILED: i32 = 2;

/// The facilitator could not be reached or failed.
pub const STATUS_FACILITATOR_ERROR: i32 = 3;

/// The result does not fit in the caller's buffer.
pub const STATUS_BUFFER_TOO_SMALL: i32 = 4;

/// Anything else went wrong.
pub const STATUS_INTERNAL_ERROR: i32 = 5;

/// A string argument of the C interface.
#[derive(Clone, Debug)]
pub enum TextArg {
    /// A null pointer.
    Null,
    /// Bytes that are not UTF-8.
    NotUtf8,
    /// Text.
    Text(String),
}

/// The text of an argument, the empty text when there is none.
pub open spec fn text_or_empty(a: TextArg) -> Seq<char> {
    match a {
        TextArg::Text(t) => t@,
        _ => Seq::<char>::empty(),
    }
}

/// The outcome of fitting `len` bytes and a NUL into `capacity` bytes: the
/// length written, or the size needed.
pub open spec fn fit_in_buffer_spec(len: nat, capacity: nat) -> Result<usize, usize> {
    if capacity >= len + 1 {
        Ok(len as usize)
    } else {
        Err((len + 1) as usize)
    }
}

/// Where a result of `len` bytes goes in a buffer of `capacity` bytes: it is
/// written with a terminating NUL when there is room for both, and the length
/// written is reported (`Ok`); otherwise nothing is written and the size
/// needed, NUL included, is reported (`Err`).
pub fn fit_in_buffer(len: usize, capacity: usize) -> (r: Result<usize, usize>)
    requires
        len < usize::MAX,
    ensures
        capacity >= len + 1 ==> r == Ok::<usize, usize>(len),
        capacity < len + 1 ==> r == Err::<usize, usize>((len + 1) as usize),
{
    let required = len + 1;
    if capacity < required {
        Err(required)
    } else {
        Ok(len)
    }
}

/// Writes a result into a caller's buffer (see [`fit_in_buffer`]): when the
/// text and a terminating NUL fit, they go at the start of the buffer, the
/// rest of it is left as it was, and the text's length is returned (`Ok`);
/// otherwise the buffer is left as it was and the size needed is returned
/// (`Err`).
pub fn write_into_buffer(text: &[u8], buffer: &mut [u8]) -> (r: Result<usize, usize>)
    requires
        text@.len() < usize::MAX,
    ensures
        r == fit_in_buffer_spec(text@.len(), old(buffer)@.len()),
        r is Err ==> final(buffer)@ == old(buffer)@,
        r is Ok ==> final(buffer)@ == text@ + seq![0u8] + old(buffer)@.subrange(
            (text@.len() + 1) as int,
            old(buffer)@.len() as int,
        ),
{
    let n = text.len();
    match fit_in_buffer(n, buffer.len()) {
        Err(required) => Err(required),
        Ok(written) => {
            let mut i: usize = 0;
            while i < n
                invariant
                    n == text@.len(),
                    n < buffer@.len(),
                    i <= n,
                    buffer@.len() == old(buffer)@.len(),
                    forall|j: int| 0 <= j < i ==> buffer@[j] == text@[j],
                    forall|j: int| i <= j < buffer@.len() ==> buffer@[j] == old(buffer)@[j],
                decreases n - i,
            {
                buffer[i] = text[i];
                i = i + 1;
            }
            buffer[n] = 0;
            proof {
                assert(buffer@ =~= text@ + seq![0u8] + old(buffer)@.subrange(
                    (text@.len() + 1) as int,
                    old(buffer)@.len() as int,
                ));
            }
            Ok(written)
        },
    }
}

/// The message of a configuration that cannot be read from these arguments:
/// an amount that is not UTF-8 or not a decimal number, a recipient that is
/// not UTF-8, or a facilitator URL that is not UTF-8, checked in this order.
pub open spec fn c_strings_check(amount: TextArg, pay_to: TextArg, facilitator_url: TextArg) -> Option<
    Seq<char>,
> {
    match amount {
        TextArg::Text(a) => match decimal_parse(a@) {
            Err(e) => Some("Invalid amount: "@ + e),
            Ok(_) => match pay_to {
                TextArg::Text(_) => match facilitator_url {
                    TextArg::NotUtf8 => Some("Invalid facilitator_url string"@),
                    _ => None,
                },
                _ => Some("Invalid pay_to string"@),
            },
        },
        _ => Some("Invalid amount string"@),
    }
}

impl NginxX402Config {
    /// A configuration read from C string arguments: the amount and the
    /// recipient, and the facilitator URL, which defaults to the public
    /// facilitator when it is null (see [`c_strings_check`] for the errors).
    pub fn from_c_strings(
        amount: &TextArg,
        pay_to: &TextArg,
        facilitator_url: &TextArg,
        testnet: bool,
    ) -> (r: Result<NginxX402Config, X402Error>)
        requires
            !(amount is Null),
            !(pay_to is Null),
        ensures
            match r {
                Err(e) => e matches X402Error::Config { message } && c_strings_check(
                    *amount,
                    *pay_to,
                    *facilitator_url,
                ) == Some(message@),
                Ok(c) => {
                    &&& c_strings_check(*amount, *pay_to, *facilitator_url) is None
                    &&& decimal_parse(text_or_empty(*amount)) == Ok::<(int, nat), Seq<char>>(
                        c.amount.parts(),
                    )
                    &&& c.amount.wf()
                    &&& c.pay_to@ == text_or_empty(*pay_to)
                    &&& c.facilitator_url@ == (match *facilitator_url {
                        TextArg::Text(u) => u@,
                        _ => default_facilitator(),
                    })
                    &&& c.testnet == testnet
                    &&& c.description is None
                    &&& c.network is None
                    &&& c.resource is None
                },
            },
    {
        let amount_text = match amount {
            TextArg::Text(a) => a,
            _ => return Err(X402Error::Config { message: String::from_str("Invalid amount string") }),
        };
        let parsed = match Amount::parse(amount_text.as_str()) {
            Ok(a) => a,
            Err(e) => {
                let mut m = String::from_str("Invalid amount: ");
                m.append(e.as_str());
                return Err(X402Error::Config { message: m });
            },
        };
        let pay_to_text = match pay_to {
            TextArg::Text(p) => p.clone(),
            _ => return Err(X402Error::Config { message: String::from_str("Invalid pay_to string") }),
        };
        let url = match facilitator_url {
            TextArg::Null => default_facilitator_url(),
            TextArg::NotUtf8 => return Err(
                X402Error::Config { message: String::from_str("Invalid facilitator_url string") },
            ),
            TextArg::Text(u) => u.clone(),
        };
        let mut config = NginxX402Config::new(parsed, pay_to_text);
        config.facilitator_url = url;
        config.testnet = testnet;
        Ok(config)
    }
}

/// What the C interface gives for a request to create payment requirements:
/// status 1 when the amount or recipient is missing or unreadable, or the
/// network or resource argument is unreadable; status 5 when the requirements
/// cannot be made; `None` when the amount is too large to be expressed in
/// atomic units. Otherwise the requirements for the resource (`/` when
/// null), on the network of the `testnet` flag, with the network and the
/// description replaced by the arguments that are given (a description that
/// is not UTF-8 is ignored).
pub open spec fn c_requirements_outcome(
    amount: TextArg,
    pay_to: TextArg,
    network: TextArg,
    resource: TextArg,
    description: TextArg,
    testnet: bool,
) -> Option<Result<RequirementsView, i32>> {
    if amount is Null || pay_to is Null || c_strings_check(amount, pay_to, TextArg::Null) is Some
        || network is NotUtf8 || resource is NotUtf8 {
        Some(Err(STATUS_INVALID_INPUT))
    } else {
        let parts = decimal_parse(text_or_empty(amount))->Ok_0;
        let uri = match resource {
            TextArg::Text(r) => r@,
            _ => "/"@,
        };
        let n = if testnet {
            crate::networks::base_sepolia()
        } else {
            crate::networks::base_mainnet()
        };
        if crate::networks::usdc_address_of(n) is Some && crate::amount::decimal_product(
            parts,
            (crate::amount::pow10(6), 0nat),
        ) is None {
            None
        } else {
            match payment_requirements_of(
                parts,
                text_or_empty(pay_to),
                None,
                testnet,
                None,
                None,
                uri,
            ) {
                Err(_) => Some(Err(STATUS_INTERNAL_ERROR)),
                Ok(q) => {
                    let q1 = match network {
                        TextArg::Text(x) => RequirementsView { network: x@, ..q },
                        _ => q,
                    };
                    Some(
                        Ok(
                            match description {
                                TextArg::Text(d) => RequirementsView { description: d@, ..q1 },
                                _ => q1,
                            },
                        ),
                    )
                },
            }
        }
    }
}

/// The requirements the C interface serialises for a request to create
/// payment requirements, or its status code (see [`c_requirements_outcome`]).
pub fn requirements_for_c(
    amount: &TextArg,
    pay_to: &TextArg,
    network: &TextArg,
    resource: &TextArg,
    description: &TextArg,
    testnet: bool,
) -> (r: Option<Result<PaymentRequirements, i32>>)
    ensures
        c_requirements_outcome(*amount, *pay_to, *network, *resource, *description, testnet)
            == match r {
            None => None::<Result<RequirementsView, i32>>,
            Some(Ok(q)) => Some(Ok::<RequirementsView, i32>(q@)),
            Some(Err(code)) => Some(Err::<RequirementsView, i32>(code)),
        },
{
    if matches!(amount, TextArg::Null) || matches!(pay_to, TextArg::Null) {
        return Some(Err(STATUS_INVALID_INPUT));
    }
    let config = match NginxX402Config::from_c_strings(amount, pay_to, &TextArg::Null, testnet) {
        Ok(c) => c,
        Err(_) => return Some(Err(STATUS_INVALID_INPUT)),
    };
    if matches!(network, TextArg::NotUtf8) {
        return Some(Err(STATUS_INVALID_INPUT));
    }
    let uri = match resource {
        TextArg::Null => String::from_str("/"),
        TextArg::NotUtf8 => return Some(Err(STATUS_INVALID_INPUT)),
        TextArg::Text(r) => r.clone(),
    };
    let mut requirements = match config.try_create_payment_requirements(uri.as_str()) {
        None => return None,
        Some(Err(_)) => return Some(Err(STATUS_INTERNAL_ERROR)),
        Some(Ok(q)) => q,
    };
    match network {
        TextArg::Text(n) => {
            requirements.network = n.clone();
        },
        _ => {},
    }
    match description {
        TextArg::Text(d) => {
            requirements.description = d.clone();
        },
        _ => {},
    }
    Some(Ok(requirements))
}

/// The facilitator a verification request goes to: the public facilitator
/// when the argument is null, status 1 when it is not UTF-8.
pub fn verification_facilitator(facilitator_url: &TextArg) -> (r: Result<String, i32>)
    ensures
        match *facilitator_url {
            TextArg::Null => r matches Ok(u) && u@ == default_facilitator(),
            TextArg::NotUtf8 => r == Err::<String, i32>(STATUS_INVALID_INPUT),
            TextArg::Text(t) => r matches Ok(u) && u@ == t@,
        },
{
    match facilitator_url {
        TextArg::Null => Ok(default_facilitator_url()),
        TextArg::NotUtf8 => Err(STATUS_INVALID_INPUT),
        TextArg::Text(t) => Ok(t.clone()),
    }
}

/// The status of a verification the facilitator answered: 0 for a valid
/// payment, 2 otherwise.
pub fn verification_status(is_valid: bool) -> (r: i32)
    ensures
        r == if is_valid {
            STATUS_OK
        } else {
            STATUS_VERIFICATION_FAILED
        },
{
    if is_valid {
        STATUS_OK
    } else {
        STATUS_VERIFICATION_FAILED
    }
}

/// The message a paywall page shows: the given one, `"Payment required"`
/// when it is null or not UTF-8.
pub fn paywall_error_text(error_msg: &TextArg) -> (r: String)
    ensures
        r@ == match *error_msg {
            TextArg::Text(t) => t@,
            _ => "Payment required"@,
        },
{
    match error_msg {
        TextArg::Text(t) => t.clone(),
        _ => String::from_str("Payment required"),
    }
}

/// The message of a JSON 402 answer: the given one, `"X-PAYMENT header is
/// required"` when it is null or not UTF-8.
pub fn json_error_text(error_msg: &TextArg) -> (r: String)
    ensures
        r@ == match *error_msg {
            TextArg::Text(t) => t@,
            _ => "X-PAYMENT header is required"@,
        },
{
    match error_msg {
        TextArg::Text(t) => t.clone(),
        _ => String::from_str("X-PAYMENT header is required"),
    }
}

/// Whether `rust_x402` takes a request for a browser's: its Accept value
/// mentions `text/html` and its User-Agent `Mozilla`.
pub open spec fn template_browser(user_agent: Seq<char>, accept: Seq<char>) -> bool {
    contains_seq(accept, "text/html"@) && contains_seq(user_agent, "Mozilla"@)
}

/// `template::is_browser_request` of `rust_x402`: true when the Accept
/// value contains `text/html` and the User-Agent contains `Mozilla`.
#[verifier::external_body]
fn template_is_browser_request(user_agent: &str, accept: &str) -> (r: bool)
    ensures
        r == template_browser(user_agent@, accept@),
{
    rust_x402::template::is_browser_request(user_agent, accept)
}

/// The C interface's browser test: 1 for a browser, 0 otherwise; a missing
/// or unreadable header counts as empty.
pub fn browser_request_code(user_agent: &TextArg, accept: &TextArg) -> (r: i32)
    ensures
        r == if template_browser(text_or_empty(*user_agent), text_or_empty(*accept)) {
            1i32
        } else {
            0i32
        },
{
    let ua = match user_agent {
        TextArg::Text(t) => t.clone(),
        _ => String::new(),
    };
    let ac = match accept {
        TextArg::Text(t) => t.clone(),
        _ => String::new(),
    };
    if template_is_browser_request(ua.as_str(), ac.as_str()) {
        1
    } else {
        0
    }
}

} // verus!
