//! Verifying a subscription with the remote service.
//!
//! One request is sent, with the token as bearer credential. The body of
//! the response is decoded only where the status says success; any other
//! status ends the check with one fixed message, and the body is left
//! unread.

use vstd::prelude::*;
use vstd::string::*;
use crate::records::{SubscriptionStatus, SubscriptionStatusView};
use crate::text::joined;

verus! {

/// The address that answers for subscriptions.
pub open spec fn endpoint() -> Seq<char> {
    "https://your-vercel-site.vercel.app/api/subscription/verify"@
}

/// The address that answers for subscriptions.
pub fn subscription_endpoint() -> (r: String)
    ensures
        r@ == endpoint(),
{
    "https://your-vercel-site.vercel.app/api/subscription/verify".to_owned()
}

/// The status codes that say success: 200 to 299.
pub open spec fn is_success(status: u16) -> bool {
    200 <= status < 300
}

/// Tells whether `status` says success.
pub fn status_is_success(status: u16) -> (r: bool)
    ensures
        r == is_success(status),
{
    200 <= status && status < 300
}

/// What to do once the request has been sent.
#[derive(Debug)]
pub enum ResponseAction {
    /// Decode the body of the response as a status record.
    DecodeBody,
    /// End the check with this message.
    GiveUp(String),
}

/// The view of an action.
pub open spec fn action_view(action: ResponseAction) -> Option<Seq<char>> {
    match action {
        ResponseAction::DecodeBody => None,
        ResponseAction::GiveUp(message) => Some(message@),
    }
}

/// What is reported where no response came: the reason, as the transport
/// gave it.
pub open spec fn unanswered_text(reason: Seq<char>) -> Seq<char> {
    "Failed to verify subscription: "@ + reason
}

/// Ends the check where no response came.
pub fn unanswered(reason: &str) -> (r: String)
    ensures
        r@ == unanswered_text(reason@),
{
    joined("Failed to verify subscription: ", reason)
}

/// The message that ends the check on a response of the given status, or
/// `None` where the body is to be decoded.
pub open spec fn refusal(status: u16) -> Option<Seq<char>> {
    if is_success(status) {
        None
    } else {
        Some("Subscription verification failed"@)
    }
}

/// Decides what to do with a response of the given status.
pub fn after_response(status: u16) -> (r: ResponseAction)
    ensures
        action_view(r) == refusal(status),
{
    if status_is_success(status) {
        ResponseAction::DecodeBody
    } else {
        ResponseAction::GiveUp("Subscription verification failed".to_owned())
    }
}

/// The view of the outcome of a check.
pub open spec fn check_view(outcome: Result<SubscriptionStatus, String>) -> Result<
    SubscriptionStatusView,
    Seq<char>,
> {
    match outcome {
        Ok(status) => Ok(status@),
        Err(reason) => Err(reason@),
    }
}

/// What the check ends with once the body has been decoded, or could not
/// be.
pub open spec fn verdict(decoded: Result<SubscriptionStatus, String>) -> Result<
    SubscriptionStatusView,
    Seq<char>,
> {
    match decoded {
        Ok(status) => Ok(status@),
        Err(reason) => Err("Failed to parse response: "@ + reason@),
    }
}

/// Ends the check once the body has been decoded, or could not be.
pub fn after_decoding(decoded: Result<SubscriptionStatus, String>) -> (r: Result<
    SubscriptionStatus,
    String,
>)
    ensures
        check_view(r) == verdict(decoded),
{
    match decoded {
        Ok(status) => Ok(status),
        Err(reason) => Err(joined("Failed to parse response: ", reason.as_str())),
    }
}

} // verus!
