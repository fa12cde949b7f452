//! The webhook gate and the trigger endpoint's decision logic.
//!
//! Per inbound webhook call one of three things is decided: reject as
//! unauthorized, accept without action, or accept and ask the controller for
//! a redeploy. The trigger endpoint asks unconditionally.

use crate::gitlab::Event;
use crate::gitlab::event_should_redeploy;
use crate::gitlab::spec_event_should_redeploy;
use vstd::prelude::*;

verus! {

/// View of an optional secret or header value.
pub open spec fn opt_str_view(o: &Option<String>) -> Option<Seq<char>> {
    match o {
        Some(s) => Some(s@),
        None => None,
    }
}

/// The authorization policy: with no configured secret every request is
/// authorized; with one, only a supplied header that equals it exactly
/// (case-sensitive).
pub open spec fn spec_authorized(secret: Option<Seq<char>>, header: Option<Seq<char>>) -> bool {
    match secret {
        None => true,
        Some(s) => match header {
            None => false,
            Some(h) => h == s,
        },
    }
}

/// Compare the caller-supplied token against the configured secret.
pub fn authorize(validation_value: &Option<String>, header_key: &Option<String>) -> (r: bool)
    ensures
        r == spec_authorized(opt_str_view(validation_value), opt_str_view(header_key)),
{
    match validation_value {
        None => true,
        Some(v) => match header_key {
            None => false,
            Some(h) => *h == *v,
        },
    }
}

/// The only two signals a webhook caller can observe. A missing header and a
/// wrong header map to the same `Unauthorized` signal.
#[derive(Clone, Copy, Debug, PartialEq, Eq, Structural)]
pub enum WebhookStatus {
    NoContent,
    Unauthorized,
}

impl WebhookStatus {
    /// The HTTP status code that carries this signal.
    pub fn code(&self) -> (c: u16)
        ensures
            *self is NoContent ==> c == 204,
            *self is Unauthorized ==> c == 401,
    {
        match self {
            WebhookStatus::NoContent => 204,
            WebhookStatus::Unauthorized => 401,
        }
    }
}

/// What a webhook call comes to: the status to answer with, and whether a
/// `Trigger` message is to be enqueued for the controller.
#[derive(Clone, Copy, Debug, PartialEq, Eq, Structural)]
pub struct WebhookReply {
    pub status: WebhookStatus,
    pub enqueue_trigger: bool,
}

/// Decide an inbound webhook call: unauthorized requests short-circuit before
/// the event validator runs; authorized ones answer `204` whether or not the
/// event justifies a redeploy.
pub fn handle_webhook(
    header_key: Option<String>,
    event: Event,
    validation_value: Option<String>,
    branch: &str,
) -> (r: WebhookReply)
    ensures
        r.status is NoContent <==> spec_authorized(
            opt_str_view(&validation_value),
            opt_str_view(&header_key),
        ),
        r.status is Unauthorized <==> !spec_authorized(
            opt_str_view(&validation_value),
            opt_str_view(&header_key),
        ),
        r.enqueue_trigger <==> (spec_authorized(
            opt_str_view(&validation_value),
            opt_str_view(&header_key),
        ) && spec_event_should_redeploy(&event, branch@)),
{
    if authorize(&validation_value, &header_key) {
        let redeploy = event_should_redeploy(&event, branch);
        WebhookReply { status: WebhookStatus::NoContent, enqueue_trigger: redeploy }
    } else {
        WebhookReply { status: WebhookStatus::Unauthorized, enqueue_trigger: false }
    }
}

/// Decide an inbound trigger call: always enqueue, always answer `204`.
pub fn handle_trigger() -> (r: WebhookReply)
    ensures
        r.status is NoContent,
        r.enqueue_trigger,
{
    WebhookReply { status: WebhookStatus::NoContent, enqueue_trigger: true }
}

/// Law: every request is authorized when no secret is configured, and with a
/// configured secret exactly the requests that supply that secret are.
pub proof fn lemma_webhook_gate(s: Seq<char>, h: Seq<char>, any: Option<Seq<char>>)
    ensures
        spec_authorized(None, any),
        !spec_authorized(Some(s), None),
        spec_authorized(Some(s), Some(h)) <==> h == s,
{
}

} // verus!
