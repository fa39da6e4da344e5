use songbird_server::handlers::server_handlers::{
    create_server, delete_server, get_server, get_server_with_members, update_server,
    CreateServerRequest, UpdateServerRequest,
};
use songbird_server::models::server_member::NewServerMember;
use songbird_server::models::user::NewUser;
use songbird_server::repositories::{ServerMemberRepository, ServerRepository, UserRepository};
use songbird_server::store::{KeyField, Store, StoreError};

fn add_user(store: &mut Store, name: &str, mail: &str) -> i32 {
    let repo = UserRepository::new();
    repo.create(
        store,
        NewUser {
            username: name.to_string(),
            email: mail.to_string(),
            password_hash: "h".to_string(),
            avatar_url: None,
            status: "online".to_string(),
        },
    )
    .unwrap()
    .user_id
}

fn server_repo() -> ServerRepository {
    ServerRepository::new(UserRepository::new())
}

#[test]
fn test_server_with_members_absence_semantics() {
    let mut store = Store::new();
    let repo = server_repo();
    let owner = add_user(&mut store, "owner", "o@x.com");
    let (status, resp) = create_server(
        &repo,
        &mut store,
        CreateServerRequest {
            name: "empty hall".to_string(),
            description: "quiet".to_string(),
            owner_user_id: owner,
            icon_url: None,
        },
    );
    assert_eq!(status, 201);
    let server_id = resp.data.unwrap().server_id;

    // A server with zero members is present with an empty list, not
    // absent.
    let (status, resp) = get_server_with_members(&repo, &store, server_id);
    assert_eq!(status, 200);
    let body = resp.data.unwrap();
    assert_eq!(body.server.server_id, server_id);
    assert_eq!(body.members.len(), 0);

    // A nonexistent server id is absent.
    let (status, resp) = get_server_with_members(&repo, &store, 999);
    assert_eq!(status, 404);
    assert_eq!(resp.error, Some("Server not found".to_string()));

    // With one member, the member's public view appears.
    let member = add_user(&mut store, "guest", "g@x.com");
    let members = ServerMemberRepository::new();
    members
        .create(
            &mut store,
            NewServerMember {
                server_id,
                user_id: member,
                nickname: Some("g".to_string()),
            },
        )
        .unwrap();
    let (_, resp) = get_server_with_members(&repo, &store, server_id);
    let body = resp.data.unwrap();
    assert_eq!(body.members.len(), 1);
    assert_eq!(body.members[0].username, "guest");
}

#[test]
fn test_duplicate_server_name_rejected() {
    let mut store = Store::new();
    let repo = server_repo();
    let owner = add_user(&mut store, "owner", "o@x.com");
    for _ in 0..2 {
        let (status, resp) = create_server(
            &repo,
            &mut store,
            CreateServerRequest {
                name: "the hall".to_string(),
                description: "d".to_string(),
                owner_user_id: owner,
                icon_url: None,
            },
        );
        if status == 201 {
            continue;
        }
        assert_eq!(status, 400);
        assert_eq!(resp.error, Some("Server name already exists".to_string()));
        return;
    }
    panic!("the second create was not refused");
}

#[test]
fn test_create_server_with_unknown_owner_fails() {
    let mut store = Store::new();
    let repo = server_repo();
    let (status, resp) = create_server(
        &repo,
        &mut store,
        CreateServerRequest {
            name: "orphan".to_string(),
            description: "d".to_string(),
            owner_user_id: 42,
            icon_url: None,
        },
    );
    assert_eq!(status, 400);
    assert_eq!(resp.error, Some("Failed to create server".to_string()));
}

#[test]
fn test_server_partial_update_and_idempotent_delete() {
    let mut store = Store::new();
    let repo = server_repo();
    let owner = add_user(&mut store, "owner", "o@x.com");
    let (_, resp) = create_server(
        &repo,
        &mut store,
        CreateServerRequest {
            name: "old name".to_string(),
            description: "d".to_string(),
            owner_user_id: owner,
            icon_url: Some("https://example.com/a.png".to_string()),
        },
    );
    let server_id = resp.data.unwrap().server_id;

    let (status, resp) = update_server(
        &repo,
        &mut store,
        server_id,
        UpdateServerRequest {
            name: Some("new name".to_string()),
            description: None,
            owner_user_id: None,
            icon_url: None,
        },
    );
    assert_eq!(status, 200);
    let updated = resp.data.unwrap();
    assert_eq!(updated.server_name, "new name");
    assert_eq!(updated.owner_user_id, owner);
    assert_eq!(updated.icon_url, Some("https://example.com/a.png".to_string()));

    let (status, _) = get_server(&repo, &store, server_id);
    assert_eq!(status, 200);

    let (status, resp) = delete_server(&repo, &mut store, server_id);
    assert_eq!(status, 200);
    assert_eq!(resp.data, Some("Server deleted successfully".to_string()));

    let (status, resp) = delete_server(&repo, &mut store, server_id);
    assert_eq!(status, 404);
    assert_eq!(resp.error, Some("Server not found".to_string()));
}

#[test]
fn test_membership_composite_key_and_counts() {
    let mut store = Store::new();
    let repo = server_repo();
    let members = ServerMemberRepository::new();
    let owner = add_user(&mut store, "owner", "o@x.com");
    let guest = add_user(&mut store, "guest", "g@x.com");
    let (_, resp) = create_server(
        &repo,
        &mut store,
        CreateServerRequest {
            name: "hall".to_string(),
            description: "d".to_string(),
            owner_user_id: owner,
            icon_url: None,
        },
    );
    let server_id = resp.data.unwrap().server_id;

    members
        .create(
            &mut store,
            NewServerMember {
                server_id,
                user_id: guest,
                nickname: None,
            },
        )
        .unwrap();
    assert_eq!(
        members.create(
            &mut store,
            NewServerMember {
                server_id,
                user_id: guest,
                nickname: None,
            },
        ),
        Err(StoreError::DuplicateKey(KeyField::Composite))
    );
    assert_eq!(
        members.create(
            &mut store,
            NewServerMember {
                server_id: 77,
                user_id: guest,
                nickname: None,
            },
        ),
        Err(StoreError::StoreFailure)
    );

    assert_eq!(members.is_member(&store, server_id, guest), Ok(true));
    assert_eq!(members.is_member(&store, server_id, owner), Ok(false));
    assert_eq!(members.count_members(&store, server_id), Ok(1));

    let renamed = members
        .update_nickname(&mut store, server_id, guest, Some("gg".to_string()))
        .unwrap();
    assert_eq!(renamed.nickname, Some("gg".to_string()));

    assert_eq!(members.delete(&mut store, server_id, guest), Ok(true));
    assert_eq!(members.delete(&mut store, server_id, guest), Ok(false));
    assert_eq!(members.count_members(&store, server_id), Ok(0));
}
