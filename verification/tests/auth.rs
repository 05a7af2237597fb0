use remotex::domain::auth::{
    Auth, Credentials, EmptyCredentials, PasswordCredentials, Token, TokenCredentials,
    UsernamePassword,
};

#[test]
fn no_auth_required_for_disabled_auth() {
    let auth = Auth {
        tokens: Default::default(),
        passwords: Default::default(),
        enabled: false,
    };
    assert!(
        auth.is_valid(EmptyCredentials),
        "Should be valid for empty credentials"
    );

    assert!(
        auth.is_valid(TokenCredentials::empty()),
        "Should be valid for empty token"
    );

    assert!(
        auth.is_valid(TokenCredentials::default()),
        "Should be valid for empty default token"
    );

    assert!(
        auth.is_valid(TokenCredentials::from("Token")),
        "Should be valid for random token"
    );
}

#[test]
fn auth_required_for_enabled_auth_tokens_empty() {
    let auth = Auth {
        tokens: Default::default(),
        passwords: Default::default(),
        enabled: true,
    };
    assert!(
        !auth.is_valid(EmptyCredentials {}),
        "Should be invalid for no token"
    );

    assert!(
        !auth.is_valid(TokenCredentials::from("Token")),
        "Should be invalid for random token"
    );
}

#[test]
fn auth_required_for_enabled_auth_tokens_single() {
    let auth = Auth {
        tokens: vec![Token {
            name: "random test token".into(),
            value: "test-token".into(),
        }],
        passwords: Default::default(),
        enabled: true,
    };
    assert!(
        !auth.is_valid(EmptyCredentials),
        "Should be invalid for no token"
    );

    assert!(
        !auth.is_valid(TokenCredentials::from("invalid-token")),
        "Should be invalid for invalid token"
    );

    assert!(
        auth.is_valid(TokenCredentials::from("test-token")),
        "Should be valid for valid token"
    );
}

#[test]
fn auth_required_for_user_password() {
    let auth = Auth {
        tokens: Default::default(),
        passwords: vec![UsernamePassword {
            username: "test_user".into(),
            password: "test_password".into(),
        }],
        enabled: true,
    };

    assert!(
        !auth.is_valid(PasswordCredentials::from(("test_user", "wrong_password"))),
        "Should be invalid for invalid password"
    );

    assert!(
        !auth.is_valid(PasswordCredentials::from(("wrong_user", "test_password"))),
        "Should be invalid for invalid username"
    );

    assert!(
        auth.is_valid(PasswordCredentials::from(("test_user", "test_password"))),
        "Should be valid for valid token"
    );
}

fn policy(enabled: bool) -> Auth {
    Auth {
        tokens: vec![
            Token { name: "t1".into(), value: "secret-a".into() },
            Token { name: "t2".into(), value: "secret-b".into() },
            Token { name: "t3".into(), value: "secret-a".into() },
        ],
        passwords: vec![
            UsernamePassword { username: "alice".into(), password: "pw1".into() },
            UsernamePassword { username: "carol".into(), password: "pw3".into() },
        ],
        enabled,
    }
}

#[test]
fn disabled_policy_permits_every_credential() {
    let auth = policy(false);
    assert!(auth.is_valid(EmptyCredentials));
    assert!(auth.is_valid(TokenCredentials::empty()));
    assert!(auth.is_valid(TokenCredentials::from("no such secret")));
    assert!(auth.is_valid(TokenCredentials::from_opt(None)));
    assert!(auth.is_valid(PasswordCredentials::from(("bob", "nothing"))));
}

#[test]
fn enabled_policy_without_secrets_permits_nothing() {
    let auth = Auth { tokens: vec![], passwords: vec![], enabled: true };
    assert!(!auth.is_valid(EmptyCredentials));
    assert!(!auth.is_valid(TokenCredentials::empty()));
    assert!(!auth.is_valid(TokenCredentials::from("")));
    assert!(!auth.is_valid(TokenCredentials::from("secret-a")));
    assert!(!auth.is_valid(PasswordCredentials::from(("", ""))));
    assert!(!auth.is_valid(PasswordCredentials::from(("alice", "pw1"))));
}

#[test]
fn token_comparison_is_exact() {
    let auth = Auth {
        tokens: vec![Token { name: "t1".into(), value: "secret-a".into() }],
        passwords: vec![],
        enabled: true,
    };
    assert!(auth.is_valid(TokenCredentials::from("secret-a")));
    assert!(!auth.is_valid(TokenCredentials::from("secret-A")));
    assert!(!auth.is_valid(TokenCredentials::from("secret-a ")));
    assert!(!auth.is_valid(TokenCredentials::from("secret-")));
    assert!(!auth.is_valid(TokenCredentials::from("t1")));
    assert!(!auth.is_valid(TokenCredentials::from_opt(None)));
    assert!(auth.is_valid(TokenCredentials::from_opt(Some("secret-a".to_string()))));
    assert!(auth.is_valid(TokenCredentials::from("secret-a".to_string())));
}

#[test]
fn password_needs_both_parts_of_one_entry() {
    let auth = policy(true);
    assert!(auth.is_valid(PasswordCredentials::from(("alice", "pw1"))));
    assert!(!auth.is_valid(PasswordCredentials::from(("alice", "wrong"))));
    assert!(!auth.is_valid(PasswordCredentials::from(("bob", "pw1"))));
    assert!(!auth.is_valid(PasswordCredentials::from(("alice", "pw3"))));
    assert!(auth.is_valid(PasswordCredentials::from(("carol", "pw3"))));
    assert!(!auth.is_valid(PasswordCredentials::from(("Alice", "pw1"))));
}

#[test]
fn tokens_do_not_open_the_password_door() {
    let auth = policy(true);
    assert!(!auth.is_valid(PasswordCredentials::from(("t1", "secret-a"))));
    assert!(!auth.is_valid(TokenCredentials::from("pw1")));
}

#[test]
fn get_token_gives_the_first_match() {
    let auth = policy(true);
    let found = auth.get_token("secret-a").expect("the token is there");
    assert_eq!(found.name, "t1");
    assert_eq!(found.value, "secret-a");
    assert_eq!(auth.get_token("secret-b").map(|t| t.name.as_str()), Some("t2"));
    assert!(auth.get_token("secret-c").is_none());
    assert!(auth.get_token("").is_none());
}

#[test]
fn get_token_ignores_the_enabled_flag() {
    let auth = policy(false);
    assert!(auth.get_token("secret-b").is_some());
    assert!(auth.get_token("nothing").is_none());
}

#[test]
fn credentials_judge_for_themselves() {
    let auth = policy(false);
    assert!(!EmptyCredentials.is_valid(&auth));
    assert!(!TokenCredentials::empty().is_valid(&auth));
    assert!(!TokenCredentials::from("nothing").is_valid(&auth));
    assert!(TokenCredentials::from("secret-b").is_valid(&auth));
    assert!(PasswordCredentials::from(("alice", "pw1")).is_valid(&auth));
    assert!(!PasswordCredentials::from(("alice", "pw2")).is_valid(&auth));
}

#[test]
fn policies_are_enabled_unless_told_otherwise() {
    assert!(remotex::domain::auth::default_enabled());
}
