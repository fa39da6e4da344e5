use songbird_server::handlers::user_handlers::{get_user_by_username, ApiResponse};
use songbird_server::models::channel::NewChannel;
use songbird_server::models::server::NewServer;
use songbird_server::models::user::NewUser;
use songbird_server::repositories::{ChannelRepository, ServerRepository, UserRepository};
use songbird_server::store::{Store, StoreError};

fn add_user(store: &mut Store, name: &str, mail: &str) -> i32 {
    UserRepository::new()
        .create(
            store,
            NewUser {
                username: name.to_string(),
                email: mail.to_string(),
                password_hash: "h".to_string(),
                avatar_url: None,
                status: "online".to_string(),
            },
        )
        .unwrap()
        .user_id
}

fn add_standard_channel(store: &mut Store, owner: i32, name: &str) -> i32 {
    let server = ServerRepository::new(UserRepository::new())
        .create(
            store,
            NewServer {
                server_name: format!("server of {}", name),
                owner_user_id: owner,
                icon_url: None,
            },
        )
        .unwrap();
    ChannelRepository::new()
        .create(
            store,
            NewChannel {
                server_id: Some(server.server_id),
                name: name.to_string(),
                channel_type: "standard".to_string(),
            },
        )
        .unwrap()
        .channel_id
}

#[test]
fn test_channel_rename_and_idempotent_delete() {
    let mut store = Store::new();
    let channels = ChannelRepository::new();
    let owner = add_user(&mut store, "o", "o@x.com");
    let channel_id = add_standard_channel(&mut store, owner, "general");

    let fresh = channels.find_by_id(&store, channel_id).unwrap().unwrap();
    assert_eq!(fresh.updated_at, None);

    let renamed = channels
        .update(&mut store, channel_id, "renamed".to_string())
        .unwrap();
    assert_eq!(renamed.name, "renamed");
    assert_eq!(renamed.channel_type, "standard");
    assert_eq!(renamed.created_at, fresh.created_at);
    assert!(renamed.updated_at.is_some());

    assert_eq!(
        channels.update(&mut store, 999, "x".to_string()),
        Err(StoreError::NotFound)
    );

    assert_eq!(channels.delete(&mut store, channel_id), Ok(true));
    assert_eq!(channels.delete(&mut store, channel_id), Ok(false));
}

#[test]
fn test_conflict_free_membership_insert_is_a_no_op() {
    let mut store = Store::new();
    let channels = ChannelRepository::new();
    let owner = add_user(&mut store, "o", "o@x.com");
    let other = add_user(&mut store, "p", "p@x.com");
    let channel_id = add_standard_channel(&mut store, owner, "general");

    // First insert lands; the conflicting second is a quiet no-op.
    assert_eq!(
        channels.add_direct_message_member(&mut store, channel_id, other),
        Ok(true)
    );
    assert_eq!(
        channels.add_direct_message_member(&mut store, channel_id, other),
        Ok(false)
    );
    assert_eq!(
        channels.is_direct_message_member(&store, channel_id, other),
        Ok(true)
    );

    // A missing side is a failure, not a no-op.
    assert_eq!(
        channels.add_direct_message_member(&mut store, 999, other),
        Err(StoreError::StoreFailure)
    );
    assert_eq!(
        channels.add_direct_message_member(&mut store, channel_id, 999),
        Err(StoreError::StoreFailure)
    );

    assert_eq!(
        channels.remove_direct_message_member(&mut store, channel_id, other),
        Ok(true)
    );
    assert_eq!(
        channels.remove_direct_message_member(&mut store, channel_id, other),
        Ok(false)
    );
    assert_eq!(
        channels.is_direct_message_member(&store, channel_id, other),
        Ok(false)
    );
}

#[test]
fn test_get_user_by_username_handler() {
    let mut store = Store::new();
    let repo = UserRepository::new();
    add_user(&mut store, "nadia", "n@x.com");

    let (status, resp): (u16, ApiResponse<_>) =
        get_user_by_username(&repo, &store, "nadia".to_string());
    assert_eq!(status, 200);
    let view = resp.data.unwrap();
    assert_eq!(view.username, "nadia");
    assert_eq!(view.email, "n@x.com");

    let (status, resp) = get_user_by_username(&repo, &store, "nobody".to_string());
    assert_eq!(status, 404);
    assert_eq!(resp.error, Some("User not found".to_string()));

    // Lookups by email find the same record.
    let by_mail = repo
        .find_by_email(&store, &"n@x.com".to_string())
        .unwrap()
        .unwrap();
    assert_eq!(by_mail.username, "nadia");
    assert!(repo
        .find_by_email(&store, &"missing@x.com".to_string())
        .unwrap()
        .is_none());
}
