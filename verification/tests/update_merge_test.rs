use songbird_server::handlers::user_handlers::{
    create_user, delete_user, get_user, update_user, CreateUserRequest, UpdateUserRequest,
};
use songbird_server::repositories::user_repository::UserRepository;
use songbird_server::store::{KeyField, Store, StoreError};

fn patch_nothing() -> UpdateUserRequest {
    UpdateUserRequest {
        username: None,
        email: None,
        password: None,
        avatar_url: None,
        status: None,
    }
}

#[test]
fn test_partial_update_merges_onto_existing_record() {
    let mut store = Store::new();
    let repo = UserRepository::new();

    let (status, _) = create_user(
        &repo,
        &mut store,
        CreateUserRequest {
            username: "a".to_string(),
            email: "a@x.com".to_string(),
            password: "pw".to_string(),
            avatar_url: None,
        },
    );
    assert_eq!(status, 201);

    let (status, resp) = update_user(
        &repo,
        &mut store,
        1,
        UpdateUserRequest {
            status: Some("away".to_string()),
            ..patch_nothing()
        },
    );
    assert_eq!(status, 200);
    let updated = resp.data.unwrap();
    assert_eq!(updated.username, "a");
    assert_eq!(updated.email, "a@x.com");
    assert_eq!(updated.status, "away");

    // Untouched fields survived in the store itself.
    let (status, resp) = get_user(&repo, &store, 1);
    assert_eq!(status, 200);
    let fetched = resp.data.unwrap();
    assert_eq!(fetched.username, "a");
    assert_eq!(fetched.email, "a@x.com");
    assert_eq!(fetched.status, "away");

    // The update stamped a fresh update timestamp.
    let row = repo.find_by_id(&store, 1).unwrap().unwrap();
    assert!(row.updated_at.is_some());
}

#[test]
fn test_update_unknown_user_is_not_found() {
    let mut store = Store::new();
    let repo = UserRepository::new();
    let (status, resp) = update_user(&repo, &mut store, 42, patch_nothing());
    assert_eq!(status, 404);
    assert_eq!(resp.error, Some("User not found".to_string()));
}

#[test]
fn test_update_into_taken_username_is_rejected() {
    let mut store = Store::new();
    let repo = UserRepository::new();
    for (name, mail) in [("a", "a@x.com"), ("b", "b@x.com")] {
        let (status, _) = create_user(
            &repo,
            &mut store,
            CreateUserRequest {
                username: name.to_string(),
                email: mail.to_string(),
                password: "pw".to_string(),
                avatar_url: None,
            },
        );
        assert_eq!(status, 201);
    }
    let (status, resp) = update_user(
        &repo,
        &mut store,
        2,
        UpdateUserRequest {
            username: Some("a".to_string()),
            ..patch_nothing()
        },
    );
    assert_eq!(status, 400);
    assert_eq!(resp.error, Some("Username already taken".to_string()));

    // The repository reports the same collision structurally.
    let row = repo.find_by_id(&store, 2).unwrap().unwrap();
    let mut renamed = row;
    renamed.username = "a".to_string();
    let r = repo.update(&mut store, 2, renamed);
    assert_eq!(r, Err(StoreError::DuplicateKey(KeyField::Username)));
}

#[test]
fn test_repository_update_of_missing_row_is_not_found() {
    let mut store = Store::new();
    let repo = UserRepository::new();
    let ghostless = songbird_server::models::user::User {
        user_id: 9,
        username: "n".to_string(),
        email: "n@x.com".to_string(),
        password_hash: "h".to_string(),
        avatar_url: None,
        created_at: 0,
        updated_at: None,
        status: "online".to_string(),
    };
    assert_eq!(
        repo.update(&mut store, 9, ghostless),
        Err(StoreError::NotFound)
    );
}

#[test]
fn test_idempotent_user_delete() {
    let mut store = Store::new();
    let repo = UserRepository::new();
    let (status, _) = create_user(
        &repo,
        &mut store,
        CreateUserRequest {
            username: "gone".to_string(),
            email: "gone@x.com".to_string(),
            password: "pw".to_string(),
            avatar_url: None,
        },
    );
    assert_eq!(status, 201);

    let (status, resp) = delete_user(&repo, &mut store, 1);
    assert_eq!(status, 200);
    assert_eq!(resp.data, Some("User deleted successfully".to_string()));

    // A second delete of the same id is a plain not-found, no error.
    let (status, resp) = delete_user(&repo, &mut store, 1);
    assert_eq!(status, 404);
    assert_eq!(resp.error, Some("User not found".to_string()));

    // And directly on the repository it is Ok(false).
    assert_eq!(repo.delete(&mut store, 1), Ok(false));
}
