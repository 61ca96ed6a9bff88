//! Who the user is, and whether analytics may be sent.
use vstd::prelude::*;

verus! {

/// The reply on the identity of the user.
#[derive(Clone, Copy, Debug, PartialEq, Eq, Structural)]
pub struct IdentityResponse {
    pub is_logged_in: bool,
    pub analytics_enabled: bool,
}

/// Consent to analytics: the project sends usage statistics, and nobody asked not to be
/// tracked.
pub open spec fn consents(do_not_track: bool, send_anonymous_usage_stats: bool) -> bool {
    !do_not_track && send_anonymous_usage_stats
}

/// Whether analytics may be sent.
pub fn analytics_on(do_not_track: bool, send_anonymous_usage_stats: bool) -> (r: bool)
    ensures
        r == consents(do_not_track, send_anonymous_usage_stats),
{
    !do_not_track && send_anonymous_usage_stats
}

/// The identity of the user.
pub fn get_identity(is_logged_in: bool, do_not_track: bool, send_anonymous_usage_stats: bool) -> (r:
    IdentityResponse)
    ensures
        r.is_logged_in == is_logged_in,
        r.analytics_enabled == consents(do_not_track, send_anonymous_usage_stats),
{
    IdentityResponse {
        is_logged_in,
        analytics_enabled: analytics_on(do_not_track, send_anonymous_usage_stats),
    }
}

} // verus!
