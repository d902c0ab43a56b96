//! Who may post escrow updates to the mirror.

use vstd::prelude::*;
use crate::events::text_is;

verus! {

/// What a webhook request is answered with before its payload is looked at.
#[derive(Clone, Copy, Debug, PartialEq, Eq, Structural)]
pub enum WebhookAccess {
    /// The request presented the configured secret.
    Granted,
    /// The request presented another secret, or none.
    Unauthorized,
    /// No secret is configured: every request is turned away.
    NotConfigured,
}

/// The secret of an optional string.
pub open spec fn spec_secret(secret: Option<String>) -> Option<Seq<char>> {
    match secret {
        Some(s) => Some(s@),
        None => None,
    }
}

/// Access is granted to the one who presents the configured secret. Without
/// a secret, or with an empty one, nobody gets in.
pub open spec fn spec_webhook_access(secret: Option<Seq<char>>, presented: Seq<char>)
    -> WebhookAccess {
    match secret {
        Some(s) => if s.len() == 0 {
            WebhookAccess::NotConfigured
        } else if presented == s {
            WebhookAccess::Granted
        } else {
            WebhookAccess::Unauthorized
        },
        None => WebhookAccess::NotConfigured,
    }
}

/// Decides whether a webhook request may pass, given the configured secret
/// and the one the request presented (empty where it presented none).
pub fn webhook_access(secret: &Option<String>, presented: &str) -> (res: WebhookAccess)
    ensures
        res == spec_webhook_access(spec_secret(*secret), presented@),
{
    match secret {
        None => WebhookAccess::NotConfigured,
        Some(s) => {
            if s.as_str().is_empty() {
                WebhookAccess::NotConfigured
            } else if text_is(s, presented) {
                WebhookAccess::Granted
            } else {
                WebhookAccess::Unauthorized
            }
        },
    }
}

/// A request without secret never passes.
pub proof fn empty_secret_never_passes(secret: Option<Seq<char>>)
    ensures
        spec_webhook_access(secret, Seq::empty()) != WebhookAccess::Granted,
{
}

} // verus!
