use session_auth::auth::{Backend, Credentials, User};

fn configured_backend() -> Backend {
    Backend::new(User::from_env())
}

fn creds(username: &str, secret: &str) -> Credentials {
    Credentials { username: username.to_string(), password: secret.to_string(), next: None }
}

#[test]
fn configured_account_has_expected_fields() {
    let user = User::from_env();
    assert_eq!(user.id(), 1);
    assert_eq!(user.username, "admin");
    assert_eq!(user.session_auth_hash(), "password".as_bytes());
}

#[test]
fn authenticate_accepts_only_the_exact_pair() {
    let backend = configured_backend();
    let cases: Vec<(&str, &str, bool)> = vec![
        ("admin", "password", true),
        ("root", "password", false),
        ("admin", "hunter2", false),
        ("root", "hunter2", false),
        ("", "", false),
        ("", "password", false),
        ("admin", "", false),
        ("Admin", "password", false),
        ("admin", "Password", false),
        ("admin ", "password", false),
    ];
    for (username, secret, expect_match) in cases {
        let result = backend.authenticate(creds(username, secret)).unwrap();
        assert_eq!(result.is_some(), expect_match, "pair ({username:?}, {secret:?})");
        if let Some(user) = result {
            assert_eq!(user.id(), 1);
            assert_eq!(user.username, "admin");
        }
    }
}

#[test]
fn resolve_returns_identity_only_for_configured_id() {
    let backend = configured_backend();
    let found = backend.get_user(&1).unwrap();
    assert_eq!(found.as_ref().map(User::id), Some(1));
    assert_eq!(found.map(|u| u.username), Some("admin".to_string()));
    for id in [0i64, -1, 2, 42, i64::MIN, i64::MAX] {
        assert!(backend.get_user(&id).unwrap().is_none(), "id {id}");
    }
}

#[test]
fn repeated_resolve_returns_equal_identities() {
    let backend = configured_backend();
    let first = backend.get_user(&1).unwrap().unwrap();
    let second = backend.get_user(&1).unwrap().unwrap();
    assert_eq!(first.id(), second.id());
    assert_eq!(first.username, second.username);
    assert_eq!(first.session_auth_hash(), second.session_auth_hash());
}

#[test]
fn integrity_seed_stable_until_secret_changes() {
    let user = User::from_env();
    assert_eq!(user.session_auth_hash(), user.session_auth_hash());

    let rotated = User::new(1, "admin".to_string(), "rotated".to_string());
    assert_ne!(user.session_auth_hash(), rotated.session_auth_hash());

    // The seed depends on the secret alone: a different id with the same
    // secret carries the same seed.
    let other_id = User::new(9, "admin".to_string(), "password".to_string());
    assert_eq!(user.session_auth_hash(), other_id.session_auth_hash());
}

#[test]
fn auth_error_carries_its_message() {
    let error = session_auth::auth::AuthError::new("session store unavailable".to_string());
    assert_eq!(error.message().as_str(), "session store unavailable");
}
