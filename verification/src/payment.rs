//! The payment and the requirements a verification or a 402 answer of the
//! C interface works on, read with `rust_x402`.

use crate::ffi::{
    json_error_text, paywall_error_text, text_or_empty, verification_facilitator, TextArg,
    STATUS_INTERNAL_ERROR, STATUS_INVALID_INPUT,
};
use crate::error::ConfigError;
use crate::nginx_config::default_facilitator;
use crate::requirements::{PaymentRequirements, RequirementsView};
use rust_x402::types::PaymentRequirements as X402Requirements;
use vstd::prelude::*;

verus! {

/// A payment payload as `rust_x402` decodes it from an `X-PAYMENT` value.
#[verifier::external_type_specification]
#[verifier::external_body]
pub struct ExPaymentPayload(rust_x402::types::PaymentPayload);

/// Payment requirements as `rust_x402` reads them from JSON.
#[verifier::external_type_specification]
#[verifier::external_body]
pub struct ExX402Requirements(X402Requirements);

/// Whether `PaymentPayload::from_base64` of `rust_x402` accepts this text:
/// standard base64 of a JSON payment payload.
pub uninterp spec fn payment_decodes(b64: Seq<char>) -> bool;

/// Whether serde reads this text as one set of `rust_x402` payment
/// requirements.
pub uninterp spec fn requirements_json_parses(json: Seq<char>) -> bool;

/// Whether serde reads this text as a JSON array of `rust_x402` payment
/// requirements.
pub uninterp spec fn requirements_list_parses(json: Seq<char>) -> bool;

/// `PaymentPayload::from_base64` of `rust_x402`, which decodes standard
/// base64 and reads the bytes as JSON. The contract says only when it
/// succeeds, by a name for that: whether given text decodes is a property of
/// the text alone. The payload itself stays opaque.
#[verifier::external_body]
fn decode_payment(b64: &str) -> (r: Option<rust_x402::types::PaymentPayload>)
    ensures
        r is Some <==> payment_decodes(b64@),
{
    rust_x402::types::PaymentPayload::from_base64(b64).ok()
}

/// `serde_json::from_str` into `rust_x402`'s payment requirements. The
/// contract says only when it succeeds, by a name for that; the requirements
/// read stay opaque.
#[verifier::external_body]
fn parse_requirements_json(json: &str) -> (r: Option<X402Requirements>)
    ensures
        r is Some <==> requirements_json_parses(json@),
{
    serde_json::from_str::<X402Requirements>(json).ok()
}

/// What a verification request hands to the facilitator.
pub struct VerificationInputs {
    /// The decoded payment.
    pub payload: rust_x402::types::PaymentPayload,
    /// The requirements it must meet.
    pub requirements: X402Requirements,
    /// The facilitator's URL.
    pub facilitator_url: String,
}

/// Whether the arguments of a verification request can be read: the payment
/// and the requirements are text, the facilitator URL is null or text, the
/// payment decodes and the requirements parse.
pub open spec fn verification_inputs_readable(
    payment_b64: TextArg,
    requirements_json: TextArg,
    facilitator_url: TextArg,
) -> bool {
    &&& payment_b64 is Text
    &&& requirements_json is Text
    &&& !(facilitator_url is NotUtf8)
    &&& payment_decodes(text_or_empty(payment_b64))
    &&& requirements_json_parses(text_or_empty(requirements_json))
}

/// The inputs of a verification request, read from the C arguments: status 1
/// when one cannot be read (see [`verification_inputs_readable`]); else the
/// decoded payment and requirements and the facilitator's URL, the public
/// facilitator when none is given.
pub fn verification_inputs(
    payment_b64: &TextArg,
    requirements_json: &TextArg,
    facilitator_url: &TextArg,
) -> (r: Result<VerificationInputs, i32>)
    ensures
        r is Ok <==> verification_inputs_readable(*payment_b64, *requirements_json, *facilitator_url),
        r matches Err(code) ==> code == STATUS_INVALID_INPUT,
        r matches Ok(v) ==> v.facilitator_url@ == match *facilitator_url {
            TextArg::Text(u) => u@,
            _ => default_facilitator(),
        },
{
    let payment = match payment_b64 {
        TextArg::Text(p) => p,
        _ => return Err(STATUS_INVALID_INPUT),
    };
    let requirements_text = match requirements_json {
        TextArg::Text(q) => q,
        _ => return Err(STATUS_INVALID_INPUT),
    };
    let url = match verification_facilitator(facilitator_url) {
        Ok(u) => u,
        Err(code) => return Err(code),
    };
    let payload = match decode_payment(payment.as_str()) {
        Some(p) => p,
        None => return Err(STATUS_INVALID_INPUT),
    };
    let requirements = match parse_requirements_json(requirements_text.as_str()) {
        Some(q) => q,
        None => return Err(STATUS_INVALID_INPUT),
    };
    Ok(VerificationInputs { payload, requirements, facilitator_url: url })
}

/// `PaymentRequirements::new` of `rust_x402` on the fields of the library's
/// requirements, with the MIME type and the payment window copied and the
/// token metadata written as the JSON object `{"name", "version"}`. Nothing is
/// stated of the result, which is opaque here; the renderings below are
/// named over the library's requirements instead.
#[verifier::external_body]
fn x402_requirements(q: &PaymentRequirements) -> X402Requirements {
    let mut r = X402Requirements::new(q.scheme.as_str(), q.network.as_str(),
        q.max_amount_required.as_str(), q.asset.as_str(), q.pay_to.as_str(),
        q.resource.as_str(), q.description.as_str());
    r.mime_type = q.mime_type.clone();
    r.max_timeout_seconds = q.max_timeout_seconds;
    r.extra = q.extra.as_ref().map(|x| {
        let mut m = serde_json::Map::new();
        m.insert(String::from("name"), serde_json::Value::from(x.name.as_str()));
        m.insert(String::from("version"), serde_json::Value::from(x.version.as_str()));
        serde_json::Value::Object(m)
    });
    r
}

/// The views of a list of requirements.
pub open spec fn requirement_views(s: Seq<PaymentRequirements>) -> Seq<RequirementsView> {
    s.map_values(|q: PaymentRequirements| q@)
}

/// Optional text as optional characters.
pub open spec fn opt_text(t: Option<String>) -> Option<Seq<char>> {
    match t {
        Some(s) => Some(s@),
        None => None,
    }
}

/// What `template::generate_paywall_html` of `rust_x402` gives, without
/// customisation, for a message and these requirements: the paywall page,
/// which carries the message and the requirements for the wallet script.
pub uninterp spec fn paywall_page_of(error: Seq<char>, requirements: Seq<RequirementsView>) -> Seq<
    char,
>;

/// What `serde_json::to_string` gives for `rust_x402`'s
/// `PaymentRequirementsResponse::new(error, requirements)`: the JSON 402
/// answer listing the requirements in order, or `None` when serde fails.
pub uninterp spec fn json_answer_of(error: Seq<char>, requirements: Seq<RequirementsView>) -> Option<
    Seq<char>,
>;

/// What `serde_json::to_string` gives for one set of requirements in
/// `rust_x402`'s form, or `None` when serde fails.
pub uninterp spec fn requirements_json_of(requirements: RequirementsView) -> Option<Seq<char>>;

/// What `template::generate_paywall_html` of `rust_x402` gives, without
/// customisation, for a message and the requirements read from a JSON array
/// (meaningful where the text reads as such an array).
pub uninterp spec fn paywall_html(error: Seq<char>, requirements_json: Seq<char>) -> Seq<char>;

/// What `serde_json::to_string` gives for `PaymentRequirementsResponse::new`
/// of a message and the requirements read from a JSON array, or `None` when
/// serde fails to write it (meaningful where the text reads as such an
/// array).
pub uninterp spec fn json_answer_text(error: Seq<char>, requirements_json: Seq<char>) -> Option<
    Seq<char>,
>;

/// `template::generate_paywall_html` of `rust_x402`, with no customisation,
/// for the library's requirements in `rust_x402`'s form; the page is named by
/// [`paywall_page_of`].
#[verifier::external_body]
fn render_paywall(error: &str, requirements: &Vec<PaymentRequirements>) -> (r: String)
    ensures
        r@ == paywall_page_of(error@, requirement_views(requirements@)),
{
    let list: Vec<X402Requirements> = requirements.iter().map(x402_requirements).collect();
    rust_x402::template::generate_paywall_html(error, &list, None)
}

/// `PaymentRequirementsResponse::new` of `rust_x402` for the library's
/// requirements in its form, written by `serde_json::to_string`; the text is
/// named by [`json_answer_of`].
#[verifier::external_body]
fn render_json_response(error: &str, requirements: &Vec<PaymentRequirements>) -> (r: Option<String>)
    ensures
        opt_text(r) == json_answer_of(error@, requirement_views(requirements@)),
{
    let list: Vec<X402Requirements> = requirements.iter().map(x402_requirements).collect();
    let response = rust_x402::types::PaymentRequirementsResponse::new(error, list);
    serde_json::to_string(&response).ok()
}

/// `serde_json::to_string` of the library's requirements in `rust_x402`'s
/// form; the text is named by [`requirements_json_of`].
#[verifier::external_body]
fn write_requirements_json(requirements: &PaymentRequirements) -> (r: Option<String>)
    ensures
        opt_text(r) == requirements_json_of(requirements@),
{
    serde_json::to_string(&x402_requirements(requirements)).ok()
}

/// `template::generate_paywall_html` of `rust_x402`, with no customisation,
/// for the requirements `serde_json::from_str` reads from a JSON array;
/// `None` when the text is not such an array. The page is named by
/// [`paywall_html`].
#[verifier::external_body]
fn render_paywall_json(error: &str, requirements_json: &str) -> (r: Option<String>)
    ensures
        r is Some <==> requirements_list_parses(requirements_json@),
        r matches Some(h) ==> h@ == paywall_html(error@, requirements_json@),
{
    let list: Vec<X402Requirements> = serde_json::from_str(requirements_json).ok()?;
    Some(rust_x402::template::generate_paywall_html(error, &list, None))
}

/// `PaymentRequirementsResponse::new` of `rust_x402` for the requirements
/// `serde_json::from_str` reads from a JSON array, written by
/// `serde_json::to_string`; `None` when the text is not such an array. The
/// text is named by [`json_answer_text`].
#[verifier::external_body]
fn render_json_answer(error: &str, requirements_json: &str) -> (r: Option<Option<String>>)
    ensures
        r is Some <==> requirements_list_parses(requirements_json@),
        r matches Some(t) ==> opt_text(t) == json_answer_text(error@, requirements_json@),
{
    let list: Vec<X402Requirements> = serde_json::from_str(requirements_json).ok()?;
    let response = rust_x402::types::PaymentRequirementsResponse::new(error, list);
    Some(serde_json::to_string(&response).ok())
}

/// The message of a C argument with a default for null or unreadable text.
pub open spec fn message_or(error_msg: TextArg, default: Seq<char>) -> Seq<char> {
    match error_msg {
        TextArg::Text(t) => t@,
        _ => default,
    }
}

/// The paywall page the C interface writes: status 1 when the requirements
/// argument is not text or not a JSON array of payment requirements; else
/// the page for them with the given message (`"Payment required"` when it is
/// null or not UTF-8).
pub fn paywall_page(requirements_json: &TextArg, error_msg: &TextArg) -> (r: Result<String, i32>)
    ensures
        r is Ok <==> (requirements_json is Text && requirements_list_parses(
            text_or_empty(*requirements_json),
        )),
        r matches Err(code) ==> code == STATUS_INVALID_INPUT,
        r matches Ok(h) ==> h@ == paywall_html(
            message_or(*error_msg, "Payment required"@),
            text_or_empty(*requirements_json),
        ),
{
    let json = match requirements_json {
        TextArg::Text(q) => q,
        _ => return Err(STATUS_INVALID_INPUT),
    };
    let error = paywall_error_text(error_msg);
    match render_paywall_json(error.as_str(), json.as_str()) {
        Some(h) => Ok(h),
        None => Err(STATUS_INVALID_INPUT),
    }
}

/// The JSON 402 answer the C interface writes: status 1 when the
/// requirements argument is not text or not a JSON array of payment
/// requirements; status 5 when the answer cannot be written as JSON; else
/// the answer for them with the given message (`"X-PAYMENT header is
/// required"` when it is null or not UTF-8).
pub fn json_answer(requirements_json: &TextArg, error_msg: &TextArg) -> (r: Result<String, i32>)
    ensures
        ({
            let readable = requirements_json is Text && requirements_list_parses(
                text_or_empty(*requirements_json),
            );
            let text = json_answer_text(
                message_or(*error_msg, "X-PAYMENT header is required"@),
                text_or_empty(*requirements_json),
            );
            &&& !readable ==> r == Err::<String, i32>(STATUS_INVALID_INPUT)
            &&& readable && text is None ==> r == Err::<String, i32>(STATUS_INTERNAL_ERROR)
            &&& readable && text is Some ==> (r matches Ok(t) && t@ == text->Some_0)
        }),
{
    let json = match requirements_json {
        TextArg::Text(q) => q,
        _ => return Err(STATUS_INVALID_INPUT),
    };
    let error = json_error_text(error_msg);
    match render_json_answer(error.as_str(), json.as_str()) {
        None => Err(STATUS_INVALID_INPUT),
        Some(None) => Err(STATUS_INTERNAL_ERROR),
        Some(Some(t)) => Ok(t),
    }
}

/// The body of a 402 answer: the paywall page for the message and the
/// requirements when the answer is HTML; else their JSON answer, and
/// `"Failed to serialize response"` when that cannot be written.
pub fn body_402(html: bool, message: &str, accepts: &Vec<PaymentRequirements>) -> (r: Result<
    String,
    ConfigError,
>)
    ensures
        html ==> (r matches Ok(b) && b@ == paywall_page_of(message@, requirement_views(accepts@))),
        !html ==> match json_answer_of(message@, requirement_views(accepts@)) {
            Some(t) => r matches Ok(b) && b@ == t,
            None => r matches Err(e) && e@ == "Failed to serialize response"@,
        },
{
    if html {
        Ok(render_paywall(message, accepts))
    } else {
        match render_json_response(message, accepts) {
            Some(text) => Ok(text),
            None => Err(ConfigError::msg("Failed to serialize response")),
        }
    }
}

/// The JSON text of one set of requirements, as the C interface writes it:
/// status 5 when serde cannot write it.
pub fn requirements_to_json(requirements: &PaymentRequirements) -> (r: Result<String, i32>)
    ensures
        match requirements_json_of(requirements@) {
            Some(t) => r matches Ok(s) && s@ == t,
            None => r == Err::<String, i32>(STATUS_INTERNAL_ERROR),
        },
{
    match write_requirements_json(requirements) {
        Some(t) => Ok(t),
        None => Err(STATUS_INTERNAL_ERROR),
    }
}

/// What the facilitator is asked about a request that offers a payment: the
/// payload decoded from the `X-PAYMENT` value and the requirements in
/// `rust_x402`'s form; `None` exactly when the value does not decode.
pub fn facilitator_request(payment_b64: &str, requirements: &PaymentRequirements) -> (r: Option<
    (rust_x402::types::PaymentPayload, X402Requirements),
>)
    ensures
        r is Some <==> payment_decodes(payment_b64@),
{
    match decode_payment(payment_b64) {
        Some(p) => Some((p, x402_requirements(requirements))),
        None => None,
    }
}

} // verus!
