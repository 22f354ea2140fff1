//! The decisions of the access-phase handler, which runs before any content
//! handler (such as a proxy) and decides which requests the payment check
//! applies to.

use crate::request::{should_skip_payment_for_method, skips_payment, HttpMethod};
use vstd::prelude::*;

verus! {

/// What the access-phase handler does with a request.
#[derive(Clone, Copy, Debug, PartialEq, Eq, Structural)]
pub enum PhaseAction {
    /// A method that never pays (see [`handle_skip_payment_method`]).
    SkipMethod { method: HttpMethod },
    /// A WebSocket upgrade: remove the module's content handler and decline.
    ClearAndDecline,
    /// Not for the module: decline.
    Decline,
    /// Check the payment.
    CheckPayment,
}

/// The action for a request: methods that never pay are handled apart;
/// WebSocket upgrades, subrequests, named locations (a URI beginning with
/// `@`) and locations without the module or with the module off are
/// declined; every other request has its payment checked. `enabled` is the
/// location's `x402` flag, `None` when its configuration cannot be read.
pub open spec fn phase_action_of(
    method: Option<HttpMethod>,
    websocket: bool,
    subrequest: bool,
    uri: Seq<u8>,
    enabled: Option<isize>,
) -> PhaseAction {
    if skips_payment(method) {
        PhaseAction::SkipMethod { method: method.unwrap() }
    } else if websocket {
        PhaseAction::ClearAndDecline
    } else if subrequest {
        PhaseAction::Decline
    } else if uri.len() > 0 && uri[0] == 64 {
        PhaseAction::Decline
    } else {
        match enabled {
            Some(e) => if e != 0 {
                PhaseAction::CheckPayment
            } else {
                PhaseAction::Decline
            },
            None => PhaseAction::Decline,
        }
    }
}

/// The action for a request (see [`phase_action_of`]).
pub fn phase_action(
    method: Option<HttpMethod>,
    websocket: bool,
    subrequest: bool,
    uri: &[u8],
    enabled: Option<isize>,
) -> (r: PhaseAction)
    ensures
        r == phase_action_of(method, websocket, subrequest, uri@, enabled),
{
    if should_skip_payment_for_method(method) {
        return PhaseAction::SkipMethod { method: method.unwrap() };
    }
    if websocket {
        return PhaseAction::ClearAndDecline;
    }
    if subrequest {
        return PhaseAction::Decline;
    }
    if uri.len() > 0 && uri[0] == 64 {
        return PhaseAction::Decline;
    }
    match enabled {
        Some(e) => if e != 0 {
            PhaseAction::CheckPayment
        } else {
            PhaseAction::Decline
        },
        None => PhaseAction::Decline,
    }
}

/// How a request that never pays is handled.
#[derive(Clone, Copy, Debug, PartialEq, Eq, Structural)]
pub enum SkipAction {
    /// A proxy serves the location: remove the module's content handler and
    /// let the backend answer.
    Forward,
    /// Answer `204 No Content` (a CORS preflight).
    SendNoContent,
    /// Answer with this status and an empty body.
    SendStatus { status: u16 },
    /// Remove the module's content handler and decline.
    ClearAndDecline,
}

/// How a request with a method that never pays is handled: forwarded when a
/// proxy serves the location; otherwise OPTIONS is answered 204, HEAD 200 and
/// TRACE 405 (405 Method Not Allowed); any other method is declined. When an
/// answer cannot be sent, the request is declined as well.
pub open spec fn skip_action_of(has_proxy_pass: bool, method: HttpMethod) -> SkipAction {
    if has_proxy_pass {
        SkipAction::Forward
    } else {
        match method {
            HttpMethod::Options => SkipAction::SendNoContent,
            HttpMethod::Head => SkipAction::SendStatus { status: 200 },
            HttpMethod::Trace => SkipAction::SendStatus { status: 405 },
            _ => SkipAction::ClearAndDecline,
        }
    }
}

/// How a request with a method that never pays is handled (see
/// [`skip_action_of`]).
pub fn handle_skip_payment_method(has_proxy_pass: bool, method: HttpMethod) -> (r: SkipAction)
    ensures
        r == skip_action_of(has_proxy_pass, method),
{
    if has_proxy_pass {
        return SkipAction::Forward;
    }
    match method {
        HttpMethod::Options => SkipAction::SendNoContent,
        HttpMethod::Head | HttpMethod::Trace => SkipAction::SendStatus {
            status: head_or_trace_status(method),
        },
        _ => SkipAction::ClearAndDecline,
    }
}

/// The status of an answer to HEAD (200) or TRACE (405, as TRACE is
/// disabled).
pub fn head_or_trace_status(method: HttpMethod) -> (r: u16)
    ensures
        r == if method == HttpMethod::Head {
            200u16
        } else {
            405u16
        },
{
    if method == HttpMethod::Head {
        200
    } else {
        405
    }
}

/// The payment check applies only to requests that need it: never to a
/// method that never pays, a WebSocket upgrade, a subrequest, a named
/// location, or a location where the module is off or unconfigured.
pub proof fn lemma_payment_checked_only_where_due(
    method: Option<HttpMethod>,
    websocket: bool,
    subrequest: bool,
    uri: Seq<u8>,
    enabled: Option<isize>,
)
    ensures
        phase_action_of(method, websocket, subrequest, uri, enabled) == PhaseAction::CheckPayment
            <==> (!skips_payment(method) && !websocket && !subrequest && !(uri.len() > 0 && uri[0]
            == 64) && (enabled matches Some(e) && e != 0)),
{
}

/// A request with a method that never pays is never charged: it is
/// forwarded, answered without payment, or declined.
pub proof fn lemma_skipped_methods_never_charged(has_proxy_pass: bool, method: HttpMethod)
    ensures
        has_proxy_pass ==> skip_action_of(has_proxy_pass, method) == SkipAction::Forward,
        method == HttpMethod::Options && !has_proxy_pass ==> skip_action_of(
            has_proxy_pass,
            method,
        ) == SkipAction::SendNoContent,
{
}

} // verus!
