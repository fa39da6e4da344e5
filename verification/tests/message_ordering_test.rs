use songbird_server::models::channel::NewChannel;
use songbird_server::models::message::NewMessage;
use songbird_server::models::server::NewServer;
use songbird_server::models::user::NewUser;
use songbird_server::repositories::{
    ChannelRepository, MessageRepository, ServerRepository, UserRepository,
};
use songbird_server::store::{Store, StoreError};

fn add_user(store: &mut Store, name: &str, mail: &str) -> i32 {
    let repo = UserRepository::new();
    repo.create(
        store,
        NewUser {
            username: name.to_string(),
            email: mail.to_string(),
            password_hash: "h".to_string(),
            avatar_url: None,
            status: "online".to_string(),
        },
    )
    .unwrap()
    .user_id
}

fn add_channel(store: &mut Store, owner: i32, server_name: &str, channel_name: &str) -> i32 {
    let servers = ServerRepository::new(UserRepository::new());
    let server = servers
        .create(
            store,
            NewServer {
                server_name: server_name.to_string(),
                owner_user_id: owner,
                icon_url: None,
            },
        )
        .unwrap();
    let channels = ChannelRepository::new();
    channels
        .create(
            store,
            NewChannel {
                server_id: Some(server.server_id),
                name: channel_name.to_string(),
                channel_type: "standard".to_string(),
            },
        )
        .unwrap()
        .channel_id
}

fn post(store: &mut Store, channel_id: i32, author: i32, content: &str) -> i32 {
    MessageRepository::new()
        .create(
            store,
            NewMessage {
                channel_id,
                author_user_id: author,
                content: content.to_string(),
            },
        )
        .unwrap()
        .message_id
}

#[test]
fn test_find_by_channel_returns_newest_first_with_limit() {
    let mut store = Store::new();
    let author = add_user(&mut store, "a", "a@x.com");
    let channel_id = add_channel(&mut store, author, "hall", "general");
    let messages = MessageRepository::new();

    let m1 = post(&mut store, channel_id, author, "first");
    let m2 = post(&mut store, channel_id, author, "second");
    let m3 = post(&mut store, channel_id, author, "third");

    let listed = messages.find_by_channel(&store, channel_id, 2).unwrap();
    assert_eq!(listed.len(), 2);
    assert_eq!(listed[0].message_id, m3);
    assert_eq!(listed[1].message_id, m2);

    let all = messages.find_by_channel(&store, channel_id, 10).unwrap();
    assert_eq!(all.len(), 3);
    assert_eq!(all[2].message_id, m1);

    let none = messages.find_by_channel(&store, channel_id, 0).unwrap();
    assert_eq!(none.len(), 0);

    assert_eq!(
        messages.find_by_channel(&store, channel_id, -1),
        Err(StoreError::StoreFailure)
    );
}

#[test]
fn test_message_counts_and_edit_semantics() {
    let mut store = Store::new();
    let author = add_user(&mut store, "a", "a@x.com");
    let other = add_user(&mut store, "b", "b@x.com");
    let channel_id = add_channel(&mut store, author, "hall", "general");
    let messages = MessageRepository::new();

    let mid = post(&mut store, channel_id, author, "draft");
    post(&mut store, channel_id, other, "reply");

    assert_eq!(messages.count_by_channel(&store, channel_id), Ok(2));
    assert_eq!(messages.count_by_user(&store, author), Ok(1));
    assert_eq!(messages.count_by_user(&store, 99), Ok(0));

    // A fresh message has no edit mark; editing sets both timestamps
    // together.
    let fresh = messages.find_by_id(&store, mid).unwrap().unwrap();
    assert_eq!(fresh.edited_at, None);
    assert_eq!(fresh.updated_at, None);
    let edited = messages
        .update_content(&mut store, mid, "final".to_string())
        .unwrap();
    assert_eq!(edited.content, "final");
    assert!(edited.edited_at.is_some());
    assert_eq!(edited.updated_at, edited.edited_at);
    assert_eq!(edited.created_at, fresh.created_at);

    assert_eq!(
        messages.update_content(&mut store, 999, "x".to_string()),
        Err(StoreError::NotFound)
    );

    assert_eq!(messages.delete(&mut store, mid), Ok(true));
    assert_eq!(messages.delete(&mut store, mid), Ok(false));
    assert_eq!(messages.count_by_channel(&store, channel_id), Ok(1));
}

#[test]
fn test_message_create_requires_channel_and_author() {
    let mut store = Store::new();
    let author = add_user(&mut store, "a", "a@x.com");
    let channel_id = add_channel(&mut store, author, "hall", "general");
    let messages = MessageRepository::new();

    assert_eq!(
        messages.create(
            &mut store,
            NewMessage {
                channel_id: 999,
                author_user_id: author,
                content: "x".to_string(),
            },
        ),
        Err(StoreError::StoreFailure)
    );
    assert_eq!(
        messages.create(
            &mut store,
            NewMessage {
                channel_id,
                author_user_id: 999,
                content: "x".to_string(),
            },
        ),
        Err(StoreError::StoreFailure)
    );
}

#[test]
fn test_channel_with_messages_distinguishes_unconfigured() {
    let mut store = Store::new();
    let author = add_user(&mut store, "ann", "ann@x.com");
    let channel_id = add_channel(&mut store, author, "hall", "general");
    post(&mut store, channel_id, author, "hello");

    // Without the message sub-component the call is a configuration
    // error, not a not-found.
    let bare = ChannelRepository::new();
    assert_eq!(
        bare.get_channel_with_messages(&store, channel_id, 10),
        Err(StoreError::Unconfigured)
    );

    // With it, the channel and its joined messages come back.
    let wired = ChannelRepository::with_message_repository(MessageRepository::new());
    let body = wired
        .get_channel_with_messages(&store, channel_id, 10)
        .unwrap()
        .unwrap();
    assert_eq!(body.channel.channel_id, channel_id);
    assert_eq!(body.messages.len(), 1);
    assert_eq!(body.messages[0].content, "hello");
    assert_eq!(body.messages[0].author.username, "ann");

    // An unknown channel is absent, not an error.
    assert_eq!(wired.get_channel_with_messages(&store, 999, 10).unwrap(), None);
}

#[test]
fn test_channel_create_enforces_type_rules() {
    let mut store = Store::new();
    let channels = ChannelRepository::new();

    // A typo in the type column is refused.
    assert_eq!(
        channels.create(
            &mut store,
            NewChannel {
                server_id: None,
                name: "x".to_string(),
                channel_type: "direct".to_string(),
            },
        ),
        Err(StoreError::StoreFailure)
    );
    // A standard channel must sit in a server; a dm channel must not.
    assert_eq!(
        channels.create(
            &mut store,
            NewChannel {
                server_id: None,
                name: "x".to_string(),
                channel_type: "standard".to_string(),
            },
        ),
        Err(StoreError::StoreFailure)
    );
}
