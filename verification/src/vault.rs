//! Token lifecycle planning: the decisions the lifecycle manager takes each
//! cycle to keep an endpoint credential alive — tightening observed
//! time-to-live values by configured ceilings, auth-method normalization,
//! the sleep computation, and the wake-time choice between renewing and
//! reissuing.
use vstd::prelude::*;

use crate::config::VaultAuthMethod;

verus! {

/// Fallback maximum time-to-live for a role/secret credential whose
/// endpoint reports none: 32 days, in seconds.
pub const APPROLE_FALLBACK_MAX_TTL_SECS: u64 = 32 * 24 * 60 * 60;

/// Credential metadata the lifecycle manager works from: whether the
/// credential can be renewed, and its time-to-live values in seconds.
#[derive(Debug, Clone, Copy)]
pub struct TokenInfo {
    pub renewable: bool,
    pub ttl: Option<u64>,
    pub max_ttl: Option<u64>,
}

impl TokenInfo {
    /// The metadata of a credential the endpoint reports nothing about: a
    /// permanent root-style token, not renewable and without expiry.
    pub fn new() -> (t: TokenInfo)
        ensures
            !t.renewable,
            t.ttl is None,
            t.max_ttl is None,
    {
        TokenInfo { renewable: false, ttl: None, max_ttl: None }
    }

    /// Metadata from the values the endpoint reported: an absent renewable
    /// flag means not renewable, and a zero time-to-live means none at all.
    pub fn from_observed(renewable: Option<bool>, ttl_secs: u64, max_ttl_secs: Option<u64>) -> (t:
        TokenInfo)
        ensures
            t.renewable == (match renewable {
                Option::Some(b) => b,
                Option::None => false,
            }),
            t.ttl == (if ttl_secs > 0 {
                Option::Some(ttl_secs)
            } else {
                Option::None::<u64>
            }),
            t.max_ttl == (match max_ttl_secs {
                Option::Some(m) => if m > 0 {
                    Option::Some(m)
                } else {
                    Option::None::<u64>
                },
                Option::None => Option::None::<u64>,
            }),
    {
        let renewable = match renewable {
            Option::Some(b) => b,
            Option::None => false,
        };
        let ttl = if ttl_secs > 0 {
            Some(ttl_secs)
        } else {
            None
        };
        let max_ttl = match max_ttl_secs {
            Option::Some(m) => if m > 0 {
                Some(m)
            } else {
                None
            },
            Option::None => None,
        };
        TokenInfo { renewable, ttl, max_ttl }
    }
}

/// An observed time-to-live tightened by a configured ceiling: a positive
/// ceiling smaller than the observed value replaces it, and a ceiling
/// stands in for a value that was not observed at all. A ceiling never
/// loosens an observed value.
pub open spec fn spec_apply_ceiling(observed: Option<u64>, ceiling: Option<u64>) -> Option<u64> {
    match (ceiling, observed) {
        (Option::Some(c), Option::Some(t)) => if c > 0 && c < t {
            Option::Some(c)
        } else {
            Option::Some(t)
        },
        (Option::Some(c), Option::None) => Option::Some(c),
        (Option::None, t) => t,
    }
}

/// Build the renewal plan: the observed metadata with both time-to-live
/// values tightened by the configured ceilings.
pub fn apply_ceilings(info: &TokenInfo, token_ttl: &Option<u64>, token_max_ttl: &Option<u64>) -> (plan:
    TokenInfo)
    ensures
        plan.renewable == info.renewable,
        plan.ttl == spec_apply_ceiling(info.ttl, *token_ttl),
        plan.max_ttl == spec_apply_ceiling(info.max_ttl, *token_max_ttl),
{
    let mut plan = *info;
    if let Option::Some(c) = token_ttl {
        match &info.ttl {
            Option::Some(t) => {
                if *c > 0 && *c < *t {
                    plan.ttl = Some(*c);
                }
            },
            Option::None => {
                plan.ttl = Some(*c);
            },
        }
    }
    if let Option::Some(c) = token_max_ttl {
        match &info.max_ttl {
            Option::Some(m) => {
                if *c > 0 && *c < *m {
                    plan.max_ttl = Some(*c);
                }
            },
            Option::None => {
                plan.max_ttl = Some(*c);
            },
        }
    }
    plan
}

/// The auth method can obtain a brand-new credential by a fresh role/secret
/// exchange.
pub open spec fn spec_is_app_role(auth: VaultAuthMethod) -> bool {
    match auth {
        VaultAuthMethod::AppRoleAuth { .. } => true,
        VaultAuthMethod::TokenAuth { .. } => false,
    }
}

/// The maximum time-to-live the plan holds after auth-method
/// normalization: a role/secret method without one falls back to 32 days; a
/// fixed token cannot be reissued, so any maximum is cleared.
pub open spec fn spec_normalized_max_ttl(max_ttl: Option<u64>, auth: VaultAuthMethod) -> Option<
    u64,
> {
    if spec_is_app_role(auth) {
        if max_ttl is None {
            Option::Some(APPROLE_FALLBACK_MAX_TTL_SECS)
        } else {
            max_ttl
        }
    } else {
        Option::None
    }
}

/// Normalize the plan for the auth method in use.
pub fn normalize_plan(plan: &TokenInfo, auth: &VaultAuthMethod) -> (r: TokenInfo)
    ensures
        r.renewable == plan.renewable,
        r.ttl == plan.ttl,
        r.max_ttl == spec_normalized_max_ttl(plan.max_ttl, *auth),
{
    let mut r = *plan;
    match auth {
        VaultAuthMethod::AppRoleAuth { .. } => {
            if r.max_ttl.is_none() {
                r.max_ttl = Some(APPROLE_FALLBACK_MAX_TTL_SECS);
            }
        },
        VaultAuthMethod::TokenAuth { .. } => {
            r.max_ttl = None;
        },
    }
    r
}

/// The timer the cycle sleeps against: the smaller of the plan's
/// time-to-live values, or whichever one is present.
pub open spec fn spec_timer_secs(ttl: Option<u64>, max_ttl: Option<u64>) -> u64 {
    match (ttl, max_ttl) {
        (Option::None, Option::Some(m)) => m,
        (Option::Some(t), Option::None) => t,
        (Option::Some(t), Option::Some(m)) => if t <= m {
            t
        } else {
            m
        },
        (Option::None, Option::None) => 0,
    }
}

/// Seconds to sleep before the next wake: half the plan's timer. The plan
/// must hold at least one time-to-live value.
pub fn sleep_duration(plan: &TokenInfo) -> (r: u64)
    requires
        plan.ttl is Some || plan.max_ttl is Some,
    ensures
        r == spec_timer_secs(plan.ttl, plan.max_ttl) / 2,
{
    let timer = match (&plan.ttl, &plan.max_ttl) {
        (Option::None, Option::Some(m)) => *m,
        (Option::Some(t), Option::None) => *t,
        (Option::Some(t), Option::Some(m)) => if *t <= *m {
            *t
        } else {
            *m
        },
        (Option::None, Option::None) => vstd::pervasive::unreached(),
    };
    timer / 2
}

/// On wake, a brand-new credential is requested exactly when the plan has a
/// maximum time-to-live, the credential's age has passed half of it, and
/// the auth method supports reissuance.
pub fn should_reissue(plan: &TokenInfo, auth: &VaultAuthMethod, age_secs: u64) -> (r: bool)
    ensures
        r == (plan.max_ttl matches Option::Some(m) && age_secs > m / 2 && spec_is_app_role(
            *auth,
        )),
{
    match &plan.max_ttl {
        Option::Some(m) => {
            if age_secs > *m / 2 {
                match auth {
                    VaultAuthMethod::AppRoleAuth { .. } => true,
                    VaultAuthMethod::TokenAuth { .. } => false,
                }
            } else {
                false
            }
        },
        Option::None => false,
    }
}

/// The existing credential is renewed in place exactly when the plan holds
/// a time-to-live.
pub fn should_renew(plan: &TokenInfo) -> (r: bool)
    ensures
        r == (plan.ttl is Some),
{
    plan.ttl.is_some()
}

} // verus!
