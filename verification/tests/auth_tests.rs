use crab_dashboard::auth::{
    admin_key_header_value, is_authenticated, load_admin_key, login_after_check, login_after_store,
    login_error_message, login_start, login_submit, AuthEpoch, LoginOutcome, LoginStep, SubmitStep,
};
use crab_dashboard::locale::{Locale, Translations};

#[test]
fn stored_key_must_not_be_blank() {
    assert_eq!(load_admin_key(None), None);
    assert_eq!(load_admin_key(Some("   ".to_string())), None);
    assert_eq!(load_admin_key(Some(String::new())), None);
    assert_eq!(load_admin_key(Some(" k1 ".to_string())), Some(" k1 ".to_string()));
}

#[test]
fn header_key_prefers_the_in_memory_key() {
    assert_eq!(
        admin_key_header_value(Some("mem".to_string()), Some("disk".to_string())),
        Some("mem".to_string())
    );
    assert_eq!(
        admin_key_header_value(Some(" \t".to_string()), Some("disk".to_string())),
        Some("disk".to_string())
    );
    assert_eq!(admin_key_header_value(None, Some(" ".to_string())), None);
    assert_eq!(admin_key_header_value(None, None), None);
    assert!(is_authenticated("k"));
    assert!(!is_authenticated("  \n"));
}

#[test]
fn stale_unauthorized_does_not_clear_a_new_session() {
    let mut epoch = AuthEpoch::new();
    let request = epoch.current();
    epoch.bump(); // a login happened while the request was in flight
    assert!(!epoch.handle_unauthorized(request));
    assert_eq!(epoch.current(), 1);
    let fresh = epoch.current();
    assert!(epoch.handle_unauthorized(fresh));
    assert_eq!(epoch.current(), 2);
    assert!(!epoch.handle_unauthorized(fresh));
}

#[test]
fn error_status_clears_only_on_current_401_with_a_key() {
    let mut epoch = AuthEpoch::new();
    assert!(!epoch.on_error_status(500, true, 0));
    assert!(!epoch.on_error_status(401, false, 0));
    assert_eq!(epoch.current(), 0);
    assert!(epoch.on_error_status(401, true, 0));
    assert_eq!(epoch.current(), 1);
}

#[test]
fn epoch_saturates() {
    let mut epoch = AuthEpoch { value: u64::MAX };
    epoch.bump();
    assert_eq!(epoch.current(), u64::MAX);
}

#[test]
fn login_form_submission() {
    assert!(matches!(login_submit("   ", false), SubmitStep::RejectEmpty));
    assert!(matches!(login_submit(" key ", true), SubmitStep::Busy));
    match login_submit("  secret-key \n", false) {
        SubmitStep::Verify(k) => assert_eq!(k, "secret-key"),
        _ => panic!("expected a key to verify"),
    }
}

#[test]
fn login_error_messages() {
    let en = Translations { locale: Locale::EnUS };
    let zh = Translations { locale: Locale::ZhCN };
    assert_eq!(
        login_error_message(en, "invalid_admin_key"),
        "Invalid key — must match the server CRABCACHE_ADMIN_KEY"
    );
    assert_eq!(
        login_error_message(zh, "invalid_admin_key"),
        "密钥无效，请确认与服务器 CRABCACHE_ADMIN_KEY 一致"
    );
    assert_eq!(login_error_message(en, "Network error: x"), "Network error: x");
}

#[test]
fn login_steps() {
    let en = Translations { locale: Locale::EnUS };
    assert!(matches!(
        login_start(en, "  ", false),
        LoginStep::Done(LoginOutcome::Rejected(ref m)) if m == "Admin API Key is required"
    ));
    assert!(matches!(login_start(en, "k", true), LoginStep::Done(LoginOutcome::Ignored)));
    assert!(matches!(login_start(en, " k1 ", false), LoginStep::Check(ref k) if k == "k1"));
    assert_eq!(login_after_check(en, Ok(())), None);
    assert_eq!(
        login_after_check(en, Err("invalid_admin_key".to_string())),
        Some(LoginOutcome::Rejected("Invalid key — must match the server CRABCACHE_ADMIN_KEY".to_string()))
    );
    assert_eq!(
        login_after_check(en, Err("HTTP 500".to_string())),
        Some(LoginOutcome::Rejected("HTTP 500".to_string()))
    );
    assert_eq!(login_after_store("k1".to_string(), Ok(())), LoginOutcome::LoggedIn("k1".to_string()));
    assert_eq!(
        login_after_store("k1".to_string(), Err("localStorage unavailable".to_string())),
        LoginOutcome::Rejected("localStorage unavailable".to_string())
    );
}
