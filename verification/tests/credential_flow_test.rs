use songbird_server::credential::{verify_password, CredentialError};
use songbird_server::handlers::user_handlers::{
    create_user, login_attempt, CreateUserRequest, UserLoginRequest,
};
use songbird_server::models::user::User;
use songbird_server::repositories::user_repository::UserRepository;
use songbird_server::store::Store;

#[test]
fn test_password_round_trip() {
    let mut store = Store::new();
    let repo = UserRepository::new();

    let (status, resp) = create_user(
        &repo,
        &mut store,
        CreateUserRequest {
            username: "alice".to_string(),
            email: "alice@example.com".to_string(),
            password: "hunter42".to_string(),
            avatar_url: None,
        },
    );
    assert_eq!(status, 201);
    assert!(resp.success);

    // The stored credential is a digest, not the plaintext handed in.
    let stored = repo
        .find_by_username(&store, &"alice".to_string())
        .unwrap()
        .unwrap();
    assert_ne!(stored.password_hash, "hunter42");
    assert!(stored.password_hash.starts_with("$argon2"));

    // The right password logs in.
    let (status, resp) = login_attempt(
        &repo,
        &store,
        UserLoginRequest {
            username: "alice".to_string(),
            password: "hunter42".to_string(),
        },
    );
    assert_eq!(status, 200);
    assert!(resp.success);
    assert_eq!(resp.data.unwrap().username, "alice");
    assert_eq!(resp.error, None);

    // A wrong password is a successful refusal with the neutral message.
    let (status, resp) = login_attempt(
        &repo,
        &store,
        UserLoginRequest {
            username: "alice".to_string(),
            password: "hunter43".to_string(),
        },
    );
    assert_eq!(status, 200);
    assert!(!resp.success);
    assert_eq!(resp.error, Some("Username or password incorrect.".to_string()));

    // An unknown username answers exactly as a wrong password does,
    // so neither status nor shape can enumerate users.
    let (status, resp) = login_attempt(
        &repo,
        &store,
        UserLoginRequest {
            username: "bob".to_string(),
            password: "hunter42".to_string(),
        },
    );
    assert_eq!(status, 200);
    assert!(!resp.success);
    assert!(resp.data.is_none());
    assert_eq!(resp.error, Some("Username or password incorrect.".to_string()));
}

#[test]
fn test_malformed_digest_is_an_error_not_a_mismatch() {
    let r = verify_password("hunter42", "not a digest at all");
    assert_eq!(r, Err(CredentialError::MalformedDigest));
}

#[test]
fn test_user_response_excludes_credential() {
    let repo = UserRepository::new();
    let a = User {
        user_id: 5,
        username: "carol".to_string(),
        email: "carol@example.com".to_string(),
        password_hash: "$argon2id$v=19$m=19456,t=2,p=1$c29tZXNhbHQ$someOutput".to_string(),
        avatar_url: None,
        created_at: 3,
        updated_at: None,
        status: "online".to_string(),
    };
    let mut b = a.clone();
    b.password_hash = "an entirely different digest".to_string();

    // Two records that differ only in the credential project to the
    // same public view: the view carries nothing of the digest.
    assert_eq!(repo.to_response(a), repo.to_response(b));
}

#[test]
fn test_duplicate_username_and_email_rejection() {
    let mut store = Store::new();
    let repo = UserRepository::new();

    let (status, _) = create_user(
        &repo,
        &mut store,
        CreateUserRequest {
            username: "dave".to_string(),
            email: "dave@example.com".to_string(),
            password: "pw1".to_string(),
            avatar_url: None,
        },
    );
    assert_eq!(status, 201);

    // Same username, different email.
    let (status, resp) = create_user(
        &repo,
        &mut store,
        CreateUserRequest {
            username: "dave".to_string(),
            email: "other@example.com".to_string(),
            password: "pw2".to_string(),
            avatar_url: None,
        },
    );
    assert_eq!(status, 400);
    assert!(!resp.success);
    assert_eq!(resp.error, Some("Username already taken".to_string()));

    // Same email, different username.
    let (status, resp) = create_user(
        &repo,
        &mut store,
        CreateUserRequest {
            username: "other".to_string(),
            email: "dave@example.com".to_string(),
            password: "pw3".to_string(),
            avatar_url: None,
        },
    );
    assert_eq!(status, 400);
    assert_eq!(resp.error, Some("Email already registered".to_string()));

    // Nothing was stored by the refused calls.
    let all = repo.find_all(&store).unwrap();
    assert_eq!(all.len(), 1);
}
