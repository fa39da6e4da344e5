use songbird_server::models::message::NewMessage;
use songbird_server::models::user::NewUser;
use songbird_server::repositories::{
    ChannelRepository, DirectMessageRepository, MessageRepository, UserRepository,
};
use songbird_server::store::{KeyField, Store, StoreError};

fn add_user(store: &mut Store, name: &str, mail: &str) -> i32 {
    let repo = UserRepository::new();
    repo.create(
        store,
        NewUser {
            username: name.to_string(),
            email: mail.to_string(),
            password_hash: "h".to_string(),
            avatar_url: None,
            status: "online".to_string(),
        },
    )
    .unwrap()
    .user_id
}

fn dm_repo() -> DirectMessageRepository {
    DirectMessageRepository::new(ChannelRepository::new())
}

#[test]
fn test_dm_create_is_atomic_under_forced_failure() {
    let mut store = Store::new();
    let repo = dm_repo();
    let u1 = add_user(&mut store, "a", "a@x.com");

    // The second membership insert collides with the first when both
    // members are the same user: the whole unit must roll back.
    let r = repo.create_dm_channel(&mut store, u1, u1, "pair".to_string());
    assert_eq!(r, Err(StoreError::DuplicateKey(KeyField::Composite)));

    // No channel row and no membership rows are observable afterward.
    let channels = ChannelRepository::new();
    assert_eq!(channels.find_by_id(&store, 1).unwrap(), None);
    assert_eq!(repo.get_dm_channels_for_user(&store, u1).unwrap().len(), 0);

    // A failing membership insert for a missing user rolls back too.
    let r = repo.create_dm_channel(&mut store, u1, 99, "pair".to_string());
    assert_eq!(r, Err(StoreError::StoreFailure));
    assert_eq!(channels.find_by_id(&store, 1).unwrap(), None);
    assert_eq!(repo.get_dm_channels_for_user(&store, u1).unwrap().len(), 0);
}

#[test]
fn test_dm_create_lands_all_three_rows() {
    let mut store = Store::new();
    let repo = dm_repo();
    let u1 = add_user(&mut store, "a", "a@x.com");
    let u2 = add_user(&mut store, "b", "b@x.com");

    let ch = repo
        .create_dm_channel(&mut store, u1, u2, "pair".to_string())
        .unwrap();
    assert_eq!(ch.server_id, None);
    assert_eq!(ch.channel_type, "dm");

    let members = repo.find_dm_members(&store, ch.channel_id).unwrap();
    assert_eq!(members.len(), 2);
    assert_eq!(members[0].user_id, u1);
    assert_eq!(members[1].user_id, u2);

    assert!(repo.find_dm_member(&store, ch.channel_id, u1).unwrap().is_some());
    assert!(repo.find_dm_member(&store, ch.channel_id, 99).unwrap().is_none());
}

#[test]
fn test_find_or_create_reuses_the_existing_pair_channel() {
    let mut store = Store::new();
    let repo = dm_repo();
    let u1 = add_user(&mut store, "a", "a@x.com");
    let u2 = add_user(&mut store, "b", "b@x.com");

    let first = repo.find_or_create_dm_channel(&mut store, u1, u2).unwrap();
    assert_eq!(first.name, "dm_1_2");
    assert_eq!(first.channel_type, "dm");

    let again = repo.find_or_create_dm_channel(&mut store, u1, u2).unwrap();
    assert_eq!(again.channel_id, first.channel_id);

    // Still exactly one dm channel and two membership rows.
    assert_eq!(repo.get_dm_channels_for_user(&store, u1).unwrap().len(), 1);
    assert_eq!(repo.find_dm_members(&store, first.channel_id).unwrap().len(), 2);
}

#[test]
fn test_add_and_remove_dm_member() {
    let mut store = Store::new();
    let repo = dm_repo();
    let u1 = add_user(&mut store, "a", "a@x.com");
    let u2 = add_user(&mut store, "b", "b@x.com");
    let u3 = add_user(&mut store, "c", "c@x.com");
    let ch = repo
        .create_dm_channel(&mut store, u1, u2, "pair".to_string())
        .unwrap();

    // No cap is enforced on standalone member inserts.
    let added = repo.add_dm_member(&mut store, ch.channel_id, u3).unwrap();
    assert_eq!(added.user_id, u3);
    assert_eq!(repo.find_dm_members(&store, ch.channel_id).unwrap().len(), 3);

    // The same pair again is a structural duplicate.
    assert_eq!(
        repo.add_dm_member(&mut store, ch.channel_id, u3),
        Err(StoreError::DuplicateKey(KeyField::Composite))
    );

    assert_eq!(repo.remove_dm_member(&mut store, ch.channel_id, u3), Ok(true));
    assert_eq!(repo.remove_dm_member(&mut store, ch.channel_id, u3), Ok(false));
}

#[test]
fn test_delete_dm_channel_removes_members_and_messages() {
    let mut store = Store::new();
    let repo = dm_repo();
    let messages = MessageRepository::new();
    let u1 = add_user(&mut store, "a", "a@x.com");
    let u2 = add_user(&mut store, "b", "b@x.com");
    let ch = repo
        .create_dm_channel(&mut store, u1, u2, "pair".to_string())
        .unwrap();
    messages
        .create(
            &mut store,
            NewMessage {
                channel_id: ch.channel_id,
                author_user_id: u1,
                content: "hi".to_string(),
            },
        )
        .unwrap();

    assert_eq!(repo.delete_dm_channel(&mut store, ch.channel_id), Ok(true));

    let channels = ChannelRepository::new();
    assert_eq!(channels.find_by_id(&store, ch.channel_id).unwrap(), None);
    assert_eq!(repo.find_dm_members(&store, ch.channel_id).unwrap().len(), 0);
    assert_eq!(messages.count_by_channel(&store, ch.channel_id), Ok(0));

    // A second delete finds nothing and is no error.
    assert_eq!(repo.delete_dm_channel(&mut store, ch.channel_id), Ok(false));
}
