use vault_sync::config::VaultAuthMethod;
use vault_sync::vault::{
    apply_ceilings, normalize_plan, should_reissue, should_renew, sleep_duration, TokenInfo,
    APPROLE_FALLBACK_MAX_TTL_SECS,
};

fn token_auth() -> VaultAuthMethod {
    VaultAuthMethod::TokenAuth { token: "***".to_string() }
}

fn app_role_auth() -> VaultAuthMethod {
    VaultAuthMethod::AppRoleAuth { role_id: "***".to_string(), secret_id: "***".to_string() }
}

#[test]
fn test_new_is_root_style() {
    let t = TokenInfo::new();
    assert!(!t.renewable);
    assert!(t.ttl.is_none());
    assert!(t.max_ttl.is_none());
}

#[test]
fn test_from_observed_zero_means_absent() {
    let t = TokenInfo::from_observed(Some(true), 0, Some(0));
    assert!(t.renewable);
    assert!(t.ttl.is_none());
    assert!(t.max_ttl.is_none());
    let t = TokenInfo::from_observed(None, 3600, Some(7200));
    assert!(!t.renewable);
    assert_eq!(t.ttl, Some(3600));
    assert_eq!(t.max_ttl, Some(7200));
}

#[test]
fn test_ceilings_only_tighten() {
    let info = TokenInfo { renewable: true, ttl: Some(3600), max_ttl: Some(7200) };
    // A smaller positive ceiling takes effect.
    let plan = apply_ceilings(&info, &Some(600), &Some(1200));
    assert_eq!(plan.ttl, Some(600));
    assert_eq!(plan.max_ttl, Some(1200));
    // A larger ceiling does not loosen the observed value.
    let plan = apply_ceilings(&info, &Some(9999), &Some(99999));
    assert_eq!(plan.ttl, Some(3600));
    assert_eq!(plan.max_ttl, Some(7200));
    // A zero ceiling is ignored against an observed value.
    let plan = apply_ceilings(&info, &Some(0), &Some(0));
    assert_eq!(plan.ttl, Some(3600));
    assert_eq!(plan.max_ttl, Some(7200));
    // With nothing observed, the ceiling stands in.
    let bare = TokenInfo { renewable: true, ttl: None, max_ttl: None };
    let plan = apply_ceilings(&bare, &Some(600), &None);
    assert_eq!(plan.ttl, Some(600));
    assert_eq!(plan.max_ttl, None);
}

#[test]
fn test_normalize_app_role_fallback() {
    let plan = TokenInfo { renewable: true, ttl: Some(3600), max_ttl: None };
    let n = normalize_plan(&plan, &app_role_auth());
    assert_eq!(n.max_ttl, Some(APPROLE_FALLBACK_MAX_TTL_SECS));
    assert_eq!(APPROLE_FALLBACK_MAX_TTL_SECS, 32 * 24 * 60 * 60);
    let with_max = TokenInfo { renewable: true, ttl: Some(3600), max_ttl: Some(7200) };
    let n = normalize_plan(&with_max, &app_role_auth());
    assert_eq!(n.max_ttl, Some(7200));
}

#[test]
fn test_normalize_fixed_token_clears_max() {
    let plan = TokenInfo { renewable: true, ttl: Some(3600), max_ttl: Some(7200) };
    let n = normalize_plan(&plan, &token_auth());
    assert_eq!(n.max_ttl, None);
    assert_eq!(n.ttl, Some(3600));
}

#[test]
fn test_sleep_duration_half_of_smaller() {
    let plan = TokenInfo { renewable: true, ttl: Some(3600), max_ttl: Some(7200) };
    assert_eq!(sleep_duration(&plan), 1800);
    let plan = TokenInfo { renewable: true, ttl: Some(7200), max_ttl: Some(3600) };
    assert_eq!(sleep_duration(&plan), 1800);
    let plan = TokenInfo { renewable: true, ttl: None, max_ttl: Some(5000) };
    assert_eq!(sleep_duration(&plan), 2500);
}

#[test]
fn test_fixed_token_cycle_sleeps_then_renews() {
    // A fixed-token credential with an observed time-to-live of 3600
    // seconds, no maximum and no configured ceilings: the cycle sleeps 1800
    // seconds, then renews, and never reissues.
    let info = TokenInfo::from_observed(Some(true), 3600, None);
    let plan = apply_ceilings(&info, &None, &None);
    assert!(plan.renewable);
    let plan = normalize_plan(&plan, &token_auth());
    assert_eq!(plan.max_ttl, None);
    assert_eq!(sleep_duration(&plan), 1800);
    for age in [0, 1800, 3600, 1_000_000] {
        assert!(!should_reissue(&plan, &token_auth(), age));
    }
    assert!(should_renew(&plan));
}

#[test]
fn test_app_role_reissues_past_half_max() {
    let plan = TokenInfo { renewable: true, ttl: Some(3600), max_ttl: Some(7200) };
    assert!(!should_reissue(&plan, &app_role_auth(), 3600));
    assert!(should_reissue(&plan, &app_role_auth(), 3601));
    assert!(!should_reissue(&plan, &token_auth(), 3601));
}
