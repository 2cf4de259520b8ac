use unifly::error::CoreError;
use unifly::site::{resolve_site_in, SiteResponse};

fn uuid_value(text: &str) -> u128 {
    uuid::Uuid::parse_str(text).expect("valid uuid").as_u128()
}

fn site(id: &str, internal: &str, name: &str) -> SiteResponse {
    SiteResponse {
        id: uuid_value(id),
        internal_reference: internal.into(),
        name: name.into(),
    }
}

fn default_site() -> SiteResponse {
    site(
        "11111111-1111-1111-1111-111111111111",
        "default",
        "Main Site",
    )
}

fn guest_site() -> SiteResponse {
    site(
        "22222222-2222-2222-2222-222222222222",
        "guest",
        "Guest Network",
    )
}

#[test]
fn matches_known_uuid_returns_canonical_slug() {
    let sites = vec![default_site(), guest_site()];
    let resolved = resolve_site_in(&sites, "11111111-1111-1111-1111-111111111111").unwrap();
    assert_eq!(resolved.slug, "default");
}

#[test]
fn unmatched_uuid_falls_through_to_not_found() {
    let sites = vec![default_site()];
    let err = resolve_site_in(&sites, "33333333-3333-3333-3333-333333333333").unwrap_err();
    assert!(matches!(err, CoreError::SiteNotFound { .. }));
}

#[test]
fn exact_slug_match_wins_over_case_insensitive_name_collision() {
    let target = site(
        "44444444-4444-4444-4444-444444444444",
        "default",
        "Default Site",
    );
    let collision = site(
        "55555555-5555-5555-5555-555555555555",
        "default-backup",
        "default",
    );
    let sites = vec![target, collision];
    let resolved = resolve_site_in(&sites, "default").unwrap();
    assert_eq!(
        uuid::Uuid::from_u128(resolved.id).to_string(),
        "44444444-4444-4444-4444-444444444444"
    );
    assert_eq!(resolved.slug, "default");
}

#[test]
fn duplicate_display_names_return_ambiguous() {
    let a = site("66666666-6666-6666-6666-666666666666", "home1", "Home");
    let b = site("77777777-7777-7777-7777-777777777777", "home2", "Home");
    let sites = vec![a, b];
    let err = resolve_site_in(&sites, "Home").unwrap_err();
    match err {
        CoreError::SiteAmbiguous { matches, .. } => assert_eq!(matches.len(), 2),
        other => panic!("expected SiteAmbiguous, got {other:?}"),
    }
}

#[test]
fn case_insensitive_name_match_against_single_site_succeeds() {
    let sites = vec![default_site(), guest_site()];
    let resolved = resolve_site_in(&sites, "GUEST NETWORK").unwrap();
    assert_eq!(resolved.slug, "guest");
}

#[test]
fn no_match_returns_not_found_with_full_candidate_list() {
    let sites = vec![default_site(), guest_site()];
    let err = resolve_site_in(&sites, "iot").unwrap_err();
    match err {
        CoreError::SiteNotFound { available, .. } => assert_eq!(available.len(), 2),
        other => panic!("expected SiteNotFound, got {other:?}"),
    }
}

#[test]
fn uuid_match_wins_over_a_slug_equal_to_the_uuid_text() {
    let by_slug = site(
        "88888888-8888-8888-8888-888888888888",
        "99999999-9999-9999-9999-999999999999",
        "Odd",
    );
    let by_id = site("99999999-9999-9999-9999-999999999999", "real", "Real");
    let sites = vec![by_slug, by_id];
    let resolved = resolve_site_in(&sites, "99999999-9999-9999-9999-999999999999").unwrap();
    assert_eq!(resolved.slug, "real");
    assert_eq!(resolved.id, uuid_value("99999999-9999-9999-9999-999999999999"));
}

#[test]
fn simple_uuid_form_is_recognised() {
    let sites = vec![default_site(), guest_site()];
    let resolved = resolve_site_in(&sites, "22222222222222222222222222222222").unwrap();
    assert_eq!(resolved.slug, "guest");
}

#[test]
fn fuzzy_matches_naming_one_site_twice_resolve() {
    let a = site("66666666-6666-6666-6666-666666666666", "home", "HOME");
    let sites = vec![a];
    let resolved = resolve_site_in(&sites, "Home").unwrap();
    assert_eq!(resolved.slug, "home");
}

#[test]
fn ambiguity_lists_matches_in_order_with_their_names() {
    let a = site("66666666-6666-6666-6666-666666666666", "home1", "Home");
    let b = site("77777777-7777-7777-7777-777777777777", "other", "Office");
    let c = site("88888888-8888-8888-8888-888888888888", "HOME", "Cabin");
    let sites = vec![a, b, c];
    match resolve_site_in(&sites, "home").unwrap_err() {
        CoreError::SiteAmbiguous { name, matches } => {
            assert_eq!(name, "home");
            assert_eq!(matches.len(), 2);
            assert_eq!(matches[0].internal_reference, "home1");
            assert_eq!(matches[0].display_name, "Home");
            assert_eq!(matches[1].internal_reference, "HOME");
        }
        other => panic!("expected SiteAmbiguous, got {other:?}"),
    }
}

#[test]
fn empty_site_list_is_not_found_with_no_candidates() {
    match resolve_site_in(&Vec::new(), "default").unwrap_err() {
        CoreError::SiteNotFound { name, available } => {
            assert_eq!(name, "default");
            assert!(available.is_empty());
        }
        other => panic!("expected SiteNotFound, got {other:?}"),
    }
}

#[test]
fn exact_display_name_wins_over_case_insensitive_matches() {
    let a = site("88888888-8888-8888-8888-888888888888", "a", "Home");
    let b = site("99999999-9999-9999-9999-999999999999", "b", "HOME");
    let sites = vec![a, b];
    let r = resolve_site_in(&sites, "Home").unwrap();
    assert_eq!(uuid::Uuid::from_u128(r.id).to_string(), "88888888-8888-8888-8888-888888888888");
    assert_eq!(r.slug, "a");
    // Without an exact display name, both case-insensitive matches count.
    match resolve_site_in(&sites, "home").unwrap_err() {
        CoreError::SiteAmbiguous { matches, .. } => assert_eq!(matches.len(), 2),
        other => panic!("expected SiteAmbiguous, got {other:?}"),
    }
}

#[test]
fn exact_display_name_ambiguity_lists_only_exact_matches() {
    let a = site("66666666-6666-6666-6666-666666666666", "home1", "Home");
    let b = site("77777777-7777-7777-7777-777777777777", "HOME", "Cabin");
    let c = site("88888888-8888-8888-8888-888888888888", "home3", "Home");
    let sites = vec![a, b, c];
    match resolve_site_in(&sites, "Home").unwrap_err() {
        CoreError::SiteAmbiguous { matches, .. } => {
            assert_eq!(matches.len(), 2);
            assert_eq!(matches[0].internal_reference, "home1");
            assert_eq!(matches[1].internal_reference, "home3");
        }
        other => panic!("expected SiteAmbiguous, got {other:?}"),
    }
}
