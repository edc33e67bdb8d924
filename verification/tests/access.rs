//! Authentication and access control: password checking, access levels,
//! secrets, and the API shapes.

use lunacam::api::StreamSettings;
use lunacam::auth::{Authenticator, PathPredicate, UserType};
use lunacam::sec::{authenticate, AccessLevel, Secrets};
use lunacam::stream::{Orientation, StreamState};

#[test]
fn authenticator_grants_by_password() {
    let auth = Authenticator::new(String::from("user-pw"), String::from("admin-pw"));
    assert_eq!(auth.authenticate("user-pw"), Some(UserType::Regular));
    assert_eq!(auth.authenticate("admin-pw"), Some(UserType::Administrator));
    assert_eq!(auth.authenticate("wrong"), None);
    assert_eq!(auth.authenticate(""), None);
}

#[test]
fn authenticator_checks_user_password_first() {
    let auth = Authenticator::new(String::from("same"), String::from("same"));
    assert_eq!(auth.authenticate("same"), Some(UserType::Regular));
}

#[test]
fn path_predicate_matches_exact_path() {
    let p = PathPredicate::new("/login");
    assert!(p.check("/login"));
    assert!(!p.check("/login/"));
    assert!(!p.check("/admin"));
    assert!(!p.check(""));
}

#[test]
fn access_levels_are_sequential() {
    assert!(AccessLevel::User.satisfies(&AccessLevel::User));
    assert!(AccessLevel::Administrator.satisfies(&AccessLevel::User));
    assert!(AccessLevel::Administrator.satisfies(&AccessLevel::Administrator));
    assert!(!AccessLevel::User.satisfies(&AccessLevel::Administrator));
}

#[test]
fn secrets_grant_levels() {
    let secrets = Secrets {
        admin_pw: String::from("a"),
        session_key: [0u8; 32],
        user_pw: String::from("u"),
    };
    assert_eq!(authenticate(&secrets, "u"), Some(AccessLevel::User));
    assert_eq!(authenticate(&secrets, "a"), Some(AccessLevel::Administrator));
    assert_eq!(authenticate(&secrets, "x"), None);
}

#[test]
fn default_secrets_have_empty_passwords() {
    let secrets = Secrets::default();
    assert!(secrets.admin_pw.is_empty());
    assert!(secrets.user_pw.is_empty());
}

#[test]
fn reset_session_key_keeps_passwords() {
    let mut secrets = Secrets {
        admin_pw: String::from("a"),
        session_key: [0u8; 32],
        user_pw: String::from("u"),
    };
    secrets.reset_session_key();
    assert_eq!(secrets.admin_pw, "a");
    assert_eq!(secrets.user_pw, "u");
}

#[test]
fn stream_settings_conversions() {
    let defaults = StreamSettings::default();
    assert!(defaults.enabled.is_none());
    assert!(defaults.orientation.is_none());

    let st = StreamState { enabled: true, orientation: Orientation::Portrait };
    let settings = StreamSettings::of_state(&st);
    assert_eq!(settings.enabled, Some(true));
    assert_eq!(settings.orientation, Some(Orientation::Portrait));

    let update = settings.to_update();
    assert_eq!(update.enabled, Some(true));
    assert_eq!(update.orientation, Some(Orientation::Portrait));
}
