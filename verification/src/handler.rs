//! The decisions of the payment handler. The handler alternates between work
//! that only the server can do (reading the request, asking the facilitator,
//! sending a response) and decisions, which are made here: from what the
//! server read to the next thing it has to do.

use crate::amount::{abs, lemma_pow10_bound, lemma_pow10_monotone, pow10, Amount, MAX_MANTISSA};
use crate::config::{parse_outcome, FacilitatorFallback, ParsedView, ParsedX402Config, X402Config};
use crate::error::{append_number, ConfigError};
use crate::request::{build_full_url, full_url};
use crate::text::nat_text;
use crate::requirements::{
    conversion_defined, requirements_outcome, token_decimals, try_create_requirements,
    PaymentRequirements, RequirementsView,
};
use crate::validation::{amount_check, payment_header_check, validate_payment_header};
use vstd::prelude::*;
use vstd::utf8::encode_utf8;

verus! {

// ---------------------------------------------------------------------------
// Messages shown to clients
// ---------------------------------------------------------------------------

/// The facilitator rejected the payment, or could not check it.
pub const PAYMENT_VERIFICATION_FAILED: &'static str = "Payment verification failed";

/// The payment could not be read.
pub const INVALID_PAYMENT: &'static str = "Invalid payment";

/// The module is not configured to check payments.
pub const CONFIGURATION_ERROR: &'static str = "Configuration error";

/// The facilitator did not answer in time.
pub const TIMEOUT: &'static str = "Request timeout";

/// How long to wait for the facilitator when no timeout is configured, in
/// seconds.
pub const DEFAULT_FACILITATOR_TIMEOUT_SECS: u64 = 10;

// ---------------------------------------------------------------------------
// Before verification
// ---------------------------------------------------------------------------

/// What the handler does with a request before any payment is checked.
#[derive(Clone, Debug)]
pub enum HandlerStep {
    /// The module is off here: the request goes through.
    Pass,
    /// No payment was offered: answer 402 with these requirements.
    RequirePayment { requirements: PaymentRequirements },
    /// Ask the facilitator whether `payment` meets the requirements, waiting
    /// at most `timeout_secs` seconds.
    Verify {
        requirements: PaymentRequirements,
        payment: String,
        facilitator_url: String,
        timeout_secs: u64,
    },
    /// The request fails with this error.
    Fail { error: ConfigError },
}

/// A [`HandlerStep`] as mathematical values.
pub enum StepView {
    Pass,
    RequirePayment(RequirementsView),
    Verify(RequirementsView, Seq<char>, Seq<char>, u64),
    Fail(Seq<char>),
}

impl View for HandlerStep {
    type V = StepView;

    open spec fn view(&self) -> StepView {
        match self {
            HandlerStep::Pass => StepView::Pass,
            HandlerStep::RequirePayment { requirements } => StepView::RequirePayment(
                requirements@,
            ),
            HandlerStep::Verify { requirements, payment, facilitator_url, timeout_secs } =>
                StepView::Verify(requirements@, payment@, facilitator_url@, *timeout_secs),
            HandlerStep::Fail { error } => StepView::Fail(error@),
        }
    }
}

/// The resource a request names, which it is checked for unless the
/// location configures one: its full URL built from the X-Forwarded-Proto
/// and Host headers and the path (see [`full_url`]); without a Host header or
/// a readable path, the path, else `/`.
pub open spec fn request_resource(
    forwarded_proto: Option<Seq<char>>,
    host: Option<Seq<char>>,
    path: Option<Seq<char>>,
) -> Seq<char> {
    match full_url(forwarded_proto, host, path) {
        Some(u) => u,
        None => match path {
            Some(p) => p,
            None => "/"@,
        },
    }
}

/// An optional string slice as optional text.
pub open spec fn opt_text(s: Option<&str>) -> Option<Seq<char>> {
    match s {
        Some(t) => Some(t@),
        None => None,
    }
}

/// The first step for a request naming the resource `requested` (see
/// [`request_resource`]) with this `X-PAYMENT` header: pass
/// when the module is off; fail when the requirements cannot be made; ask for
/// payment when none is offered; fail when the offered payment is malformed
/// or no facilitator is configured; otherwise verify it, waiting the
/// configured timeout or 10 seconds.
pub open spec fn first_step(c: ParsedView, requested: Seq<char>, payment: Option<Seq<char>>) -> StepView {
    if !c.enabled {
        StepView::Pass
    } else {
        match requirements_outcome(c, requested) {
            Err(e) => StepView::Fail(e),
            Ok(q) => match payment {
                None => StepView::RequirePayment(q),
                Some(p) => match payment_header_check(encode_utf8(p)) {
                    Err(v) => StepView::Fail(v.text()),
                    Ok(_) => match c.facilitator_url {
                        None => StepView::Fail("Facilitator URL not configured"@),
                        Some(u) => StepView::Verify(
                            q,
                            p,
                            u,
                            match c.timeout {
                                Some(t) => t,
                                None => 10,
                            },
                        ),
                    },
                },
            },
        }
    }
}

/// Whether the first step can be decided: the module is off, or the amount
/// can be expressed in atomic units when the requirements are made.
pub open spec fn first_step_defined(c: ParsedView, requested: Seq<char>) -> bool {
    c.enabled ==> conversion_defined(c, requested)
}

/// The first step for a request (see [`first_step`]), from the location's
/// configuration and the request's X-Forwarded-Proto, Host and `X-PAYMENT`
/// headers and path (`None` when it is not UTF-8). The requirements are made
/// for the configured resource, else for the request's full URL (see
/// [`request_resource`]). `None` when the amount is too large to be expressed
/// in atomic units.
pub fn start_payment_check(
    config: &ParsedX402Config,
    forwarded_proto: Option<&str>,
    host: Option<&str>,
    path: Option<&str>,
    payment_header: Option<&str>,
) -> (r: Option<HandlerStep>)
    requires
        config.amount matches Some(a) ==> a.wf(),
        config.asset_decimals matches Some(d) ==> d <= 28,
    ensures
        r is None <==> !first_step_defined(
            config@,
            request_resource(opt_text(forwarded_proto), opt_text(host), opt_text(path)),
        ),
        r matches Some(s) ==> s@ == first_step(
            config@,
            request_resource(opt_text(forwarded_proto), opt_text(host), opt_text(path)),
            opt_text(payment_header),
        ),
        config.amount matches Some(a) && abs(a.mantissa * pow10(token_decimals(config@)))
            <= MAX_MANTISSA ==> r is Some,
{
    if !config.enabled {
        return Some(HandlerStep::Pass);
    }
    let requested: String = match build_full_url(forwarded_proto, host, path) {
        Some(u) => u,
        None => match path {
            Some(p) => String::from_str(p),
            None => String::from_str("/"),
        },
    };
    let resource: &str = requested.as_str();
    let requirements = match try_create_requirements(config, resource) {
        None => return None,
        Some(Err(e)) => return Some(HandlerStep::Fail { error: e }),
        Some(Ok(q)) => q,
    };
    let payment = match payment_header {
        None => return Some(HandlerStep::RequirePayment { requirements }),
        Some(p) => p,
    };
    match validate_payment_header(payment) {
        Err(v) => return Some(HandlerStep::Fail { error: ConfigError::from_validation(&v) }),
        Ok(()) => {},
    }
    let facilitator_url = match &config.facilitator_url {
        None => return Some(
            HandlerStep::Fail { error: ConfigError::msg("Facilitator URL not configured") },
        ),
        Some(u) => u.clone(),
    };
    let timeout_secs = match config.timeout {
        Some(t) => t,
        None => DEFAULT_FACILITATOR_TIMEOUT_SECS,
    };
    Some(
        HandlerStep::Verify {
            requirements,
            payment: String::from_str(payment),
            facilitator_url,
            timeout_secs,
        },
    )
}

/// A validated amount (not negative, at most one billion, at most six
/// decimals) is expressed in atomic units of a token with up to 13 decimals
/// well inside the decimal range.
pub proof fn lemma_validated_amount_converts(a: Amount, decimals: nat)
    requires
        a.wf(),
        amount_check(a) is Ok,
        decimals <= 13,
    ensures
        abs(a.mantissa * pow10(decimals)) <= MAX_MANTISSA,
{
    lemma_pow10_monotone(a.scale as nat, 6);
    lemma_pow10_monotone(decimals, 13);
    reveal_with_fuel(pow10, 14);
    assert(pow10(6) == 1_000_000);
    assert(pow10(13) == 10_000_000_000_000);
    let m = a.mantissa as int;
    let p = pow10(a.scale as nat);
    let f = pow10(decimals);
    lemma_pow10_bound(decimals);
    assert(0 <= m <= 1_000_000_000 * p);
    assert(m * f <= 1_000_000_000 * 1_000_000 * 10_000_000_000_000) by (nonlinear_arith)
        requires
            0 <= m <= 1_000_000_000 * p,
            0 < p <= 1_000_000,
            0 < f <= 10_000_000_000_000,
    ;
    assert(m * f >= 0) by (nonlinear_arith)
        requires
            0 <= m,
            0 < f,
    ;
}

/// The first step for a request from a location's raw configuration: the
/// configuration's parse error, or the first step of the parsed configuration
/// (`None` when its amount cannot be expressed in atomic units). A parsed
/// configuration whose token has at most 13 decimals always yields a step:
/// its amount is validated, hence small enough.
pub fn start_for_location(
    conf: &X402Config,
    forwarded_proto: Option<&str>,
    host: Option<&str>,
    path: Option<&str>,
    payment_header: Option<&str>,
) -> (r: Result<Option<HandlerStep>, ConfigError>)
    ensures
        match r {
            Err(e) => parse_outcome(conf@) == Err::<ParsedView, Seq<char>>(e@),
            Ok(None) => parse_outcome(conf@) is Ok && !first_step_defined(
                parse_outcome(conf@)->Ok_0,
                request_resource(opt_text(forwarded_proto), opt_text(host), opt_text(path)),
            ),
            Ok(Some(s)) => parse_outcome(conf@) is Ok && s@ == first_step(
                parse_outcome(conf@)->Ok_0,
                request_resource(opt_text(forwarded_proto), opt_text(host), opt_text(path)),
                opt_text(payment_header),
            ),
        },
        parse_outcome(conf@) is Ok && token_decimals(parse_outcome(conf@)->Ok_0) <= 13 ==> r
            matches Ok(Some(_)),
{
    let parsed = match conf.parse() {
        Ok(p) => p,
        Err(e) => return Err(e),
    };
    proof {
        if let Some(a) = parsed.amount {
            if token_decimals(parsed@) <= 13 {
                assert(amount_check(Amount { mantissa: a.mantissa, scale: a.scale }) is Ok);
                lemma_validated_amount_converts(a, token_decimals(parsed@));
            }
        }
    }
    Ok(start_payment_check(&parsed, forwarded_proto, host, path, payment_header))
}

// ---------------------------------------------------------------------------
// Verification
// ---------------------------------------------------------------------------

/// The checks made before a payment is sent to the facilitator: the payment
/// and the facilitator URL must not be empty.
pub fn verify_precheck(payment: &str, facilitator_url: &str) -> (r: Result<(), ConfigError>)
    ensures
        payment@.len() == 0 ==> (r matches Err(e) && e@ == INVALID_PAYMENT@),
        payment@.len() != 0 && facilitator_url@.len() == 0 ==> (r matches Err(e) && e@
            == CONFIGURATION_ERROR@),
        payment@.len() != 0 && facilitator_url@.len() != 0 ==> r is Ok,
{
    if payment.is_empty() {
        return Err(ConfigError::msg(INVALID_PAYMENT));
    }
    if facilitator_url.is_empty() {
        return Err(ConfigError::msg(CONFIGURATION_ERROR));
    }
    Ok(())
}

/// How a request to the facilitator ended.
#[derive(Clone, Debug)]
pub enum FacilitatorOutcome {
    /// The payment could not be decoded.
    PayloadUnreadable,
    /// No client for the facilitator could be had.
    ClientUnavailable { error: ConfigError },
    /// The facilitator answered whether the payment is valid.
    Answered { is_valid: bool },
    /// The facilitator failed.
    Failed,
    /// The facilitator did not answer in time.
    TimedOut,
}

/// The verification result of a facilitator request: whether the payment is
/// valid when the facilitator answered, otherwise an error whose message is
/// safe to show to clients (the client error is passed on).
pub open spec fn verification_view(o: FacilitatorOutcome) -> Result<bool, Seq<char>> {
    match o {
        FacilitatorOutcome::PayloadUnreadable => Err(INVALID_PAYMENT@),
        FacilitatorOutcome::ClientUnavailable { error } => Err(error@),
        FacilitatorOutcome::Answered { is_valid } => Ok(is_valid),
        FacilitatorOutcome::Failed => Err(PAYMENT_VERIFICATION_FAILED@),
        FacilitatorOutcome::TimedOut => Err(TIMEOUT@),
    }
}

/// The verification result of a facilitator request (see
/// [`verification_view`]).
pub fn verification_result(outcome: FacilitatorOutcome) -> (r: Result<bool, ConfigError>)
    ensures
        verification_view(outcome) == match r {
            Ok(b) => Ok::<bool, Seq<char>>(b),
            Err(e) => Err::<bool, Seq<char>>(e@),
        },
{
    match outcome {
        FacilitatorOutcome::PayloadUnreadable => Err(ConfigError::msg(INVALID_PAYMENT)),
        FacilitatorOutcome::ClientUnavailable { error } => Err(error),
        FacilitatorOutcome::Answered { is_valid } => Ok(is_valid),
        FacilitatorOutcome::Failed => Err(ConfigError::msg(PAYMENT_VERIFICATION_FAILED)),
        FacilitatorOutcome::TimedOut => Err(ConfigError::msg(TIMEOUT)),
    }
}

// ---------------------------------------------------------------------------
// After verification
// ---------------------------------------------------------------------------

/// What the handler finally does with a request.
#[derive(Clone, Debug)]
pub enum HandlerAction {
    /// Let the request through.
    Allow,
    /// Answer 402 with the requirements, and the error message when there is
    /// one.
    Respond402 { requirements: PaymentRequirements, error: Option<String> },
    /// Answer with this status, content type and body.
    RespondError { status: u16, content_type: String, body: String },
}

/// A [`HandlerAction`] as mathematical values.
pub enum ActionView {
    Allow,
    Respond402(RequirementsView, Option<Seq<char>>),
    RespondError(u16, Seq<char>, Seq<char>),
}

impl View for HandlerAction {
    type V = ActionView;

    open spec fn view(&self) -> ActionView {
        match self {
            HandlerAction::Allow => ActionView::Allow,
            HandlerAction::Respond402 { requirements, error } => ActionView::Respond402(
                requirements@,
                match error {
                    Some(e) => Some(e@),
                    None => None,
                },
            ),
            HandlerAction::RespondError { status, content_type, body } => ActionView::RespondError(
                *status,
                content_type@,
                body@,
            ),
        }
    }
}

/// What follows a verification: a valid payment lets the request through, an
/// invalid one is answered 402 with `"Payment verification failed"`; when the
/// verification itself failed, the fallback decides: status 500 with the
/// plain-text body `"Internal server error"`, or the request goes through.
pub open spec fn after_verification(
    q: RequirementsView,
    fallback: FacilitatorFallback,
    verification: Result<bool, Seq<char>>,
) -> ActionView {
    match verification {
        Ok(true) => ActionView::Allow,
        Ok(false) => ActionView::Respond402(q, Some(PAYMENT_VERIFICATION_FAILED@)),
        Err(_) => match fallback {
            FacilitatorFallback::Error => ActionView::RespondError(
                500,
                "text/plain; charset=utf-8"@,
                "Internal server error"@,
            ),
            FacilitatorFallback::Pass => ActionView::Allow,
        },
    }
}

/// What follows a verification (see [`after_verification`]).
pub fn finish_payment_check(
    requirements: PaymentRequirements,
    fallback: FacilitatorFallback,
    verification: Result<bool, ConfigError>,
) -> (r: HandlerAction)
    ensures
        r@ == after_verification(
            requirements@,
            fallback,
            match verification {
                Ok(b) => Ok::<bool, Seq<char>>(b),
                Err(e) => Err::<bool, Seq<char>>(e@),
            },
        ),
{
    match verification {
        Ok(true) => HandlerAction::Allow,
        Ok(false) => HandlerAction::Respond402 {
            requirements,
            error: Some(String::from_str(PAYMENT_VERIFICATION_FAILED)),
        },
        Err(_) => match fallback {
            FacilitatorFallback::Error => HandlerAction::RespondError {
                status: 500,
                content_type: String::from_str("text/plain; charset=utf-8"),
                body: String::from_str("Internal server error"),
            },
            FacilitatorFallback::Pass => HandlerAction::Allow,
        },
    }
}

// ---------------------------------------------------------------------------
// The 402 answer
// ---------------------------------------------------------------------------

/// How a 402 answer is written: an HTML paywall page for browsers, JSON for
/// other clients, and the message it shows.
#[derive(Clone, Debug)]
pub struct Response402 {
    pub html: bool,
    pub content_type: String,
    pub message: String,
}

/// The message of a 402 answer: the handler's error, else the configured
/// description, else nothing.
pub open spec fn message_402(error: Option<Seq<char>>, description: Option<Seq<char>>) -> Seq<char> {
    match error {
        Some(e) => e,
        None => match description {
            Some(d) => d,
            None => Seq::<char>::empty(),
        },
    }
}

/// How to write a 402 answer (see [`message_402`]); the content type is
/// `text/html` or `application/json`, in UTF-8.
pub fn plan_402_response(is_browser: bool, error: Option<&str>, description: Option<&str>) -> (r:
    Response402)
    ensures
        r.html == is_browser,
        r.content_type@ == if is_browser {
            "text/html; charset=utf-8"@
        } else {
            "application/json; charset=utf-8"@
        },
        r.message@ == message_402(
            match error {
                Some(e) => Some(e@),
                None => None,
            },
            match description {
                Some(d) => Some(d@),
                None => None,
            },
        ),
{
    let message = match error {
        Some(e) => String::from_str(e),
        None => match description {
            Some(d) => String::from_str(d),
            None => String::new(),
        },
    };
    let content_type = if is_browser {
        String::from_str("text/html; charset=utf-8")
    } else {
        String::from_str("application/json; charset=utf-8")
    };
    Response402 { html: is_browser, content_type, message }
}

// ---------------------------------------------------------------------------
// Sending a body
// ---------------------------------------------------------------------------

/// A response body must not be empty: nginx cannot make an empty buffer.
pub fn check_response_body(len: usize) -> (r: Result<(), ConfigError>)
    ensures
        len == 0 ==> (r matches Err(e) && e@ == "Cannot send empty response body"@),
        len != 0 ==> r is Ok,
{
    if len == 0 {
        Err(ConfigError::msg("Cannot send empty response body"))
    } else {
        Ok(())
    }
}

/// Where copying a body of `len` bytes into a buffer that spans the
/// addresses `pos` to `end` stops, or why it must not be done: the buffer is
/// inverted, too small, or the end address would overflow or pass the
/// buffer's end.
pub open spec fn body_copy_end(pos: usize, end: usize, len: usize) -> Result<int, Seq<char>> {
    if end < pos {
        Err("Buffer end is before buffer pos"@)
    } else if end - pos < len {
        Err(
            "Buffer capacity ("@ + nat_text((end - pos) as nat) + ") is less than body length ("@
                + nat_text(len as nat) + ")"@,
        )
    } else if pos + len > usize::MAX {
        Err("Buffer pointer addition overflow"@)
    } else if pos + len > end {
        Err("Buffer pointer would exceed buffer end"@)
    } else {
        Ok(pos + len)
    }
}

/// Where copying a body into a buffer stops (see [`body_copy_end`]).
pub fn plan_body_copy(pos: usize, end: usize, len: usize) -> (r: Result<usize, ConfigError>)
    ensures
        match r {
            Ok(last) => body_copy_end(pos, end, len) == Ok::<int, Seq<char>>(last as int),
            Err(e) => body_copy_end(pos, end, len) == Err::<int, Seq<char>>(e@),
        },
{
    if end < pos {
        return Err(ConfigError::msg("Buffer end is before buffer pos"));
    }
    let capacity = end - pos;
    if capacity < len {
        let mut m = String::from_str("Buffer capacity (");
        append_number(&mut m, capacity as u64);
        m.append(") is less than body length (");
        append_number(&mut m, len as u64);
        m.append(")");
        return Err(ConfigError::new(m));
    }
    let last = match pos.checked_add(len) {
        Some(l) => l,
        None => return Err(ConfigError::msg("Buffer pointer addition overflow")),
    };
    if last > end {
        return Err(ConfigError::msg("Buffer pointer would exceed buffer end"));
    }
    Ok(last)
}

// ---------------------------------------------------------------------------
// Laws
// ---------------------------------------------------------------------------

/// Where the module is on, a request without payment is never let through
/// and never sent to the facilitator: it is asked to pay, or it fails.
pub proof fn lemma_unpaid_request_not_served(c: ParsedView, requested: Seq<char>)
    requires
        c.enabled,
    ensures
        first_step(c, requested, None) is RequirePayment || first_step(c, requested, None) is Fail,
{
}

/// Only an offered payment that is well formed reaches the facilitator, and
/// then with the facilitator configured for the location.
pub proof fn lemma_only_well_formed_payments_verified(
    c: ParsedView,
    requested: Seq<char>,
    payment: Option<Seq<char>>,
)
    requires
        first_step(c, requested, payment) is Verify,
    ensures
        c.enabled,
        payment matches Some(p) && payment_header_check(encode_utf8(p)) is Ok,
        c.facilitator_url is Some,
{
}

/// With the `error` fallback a request is let through after verification
/// exactly when the facilitator found its payment valid; with `pass`, unless
/// the facilitator found it invalid.
pub proof fn lemma_allowed_after_verification(
    q: RequirementsView,
    fallback: FacilitatorFallback,
    verification: Result<bool, Seq<char>>,
)
    ensures
        fallback == FacilitatorFallback::Error ==> (after_verification(q, fallback, verification)
            is Allow <==> verification == Ok::<bool, Seq<char>>(true)),
        fallback == FacilitatorFallback::Pass ==> (after_verification(q, fallback, verification)
            is Allow <==> verification != Ok::<bool, Seq<char>>(false)),
{
}

} // verus!
