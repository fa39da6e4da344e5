use songbird_server::handlers::server_handlers::{
    get_all_servers, get_servers_by_owner, get_servers_for_user,
};
use songbird_server::handlers::user_handlers::get_all_users;
use songbird_server::models::channel::NewChannel;
use songbird_server::models::server::NewServer;
use songbird_server::models::server_member::NewServerMember;
use songbird_server::models::user::NewUser;
use songbird_server::repositories::{
    ChannelRepository, ServerMemberRepository, ServerRepository, UserRepository,
};
use songbird_server::store::Store;

fn add_user(store: &mut Store, name: &str, mail: &str) -> i32 {
    UserRepository::new()
        .create(
            store,
            NewUser {
                username: name.to_string(),
                email: mail.to_string(),
                password_hash: "h".to_string(),
                avatar_url: None,
                status: "online".to_string(),
            },
        )
        .unwrap()
        .user_id
}

fn add_server(store: &mut Store, name: &str, owner: i32) -> i32 {
    ServerRepository::new(UserRepository::new())
        .create(
            store,
            NewServer {
                server_name: name.to_string(),
                owner_user_id: owner,
                icon_url: None,
            },
        )
        .unwrap()
        .server_id
}

#[test]
fn test_users_are_listed_by_username_ascending() {
    let mut store = Store::new();
    let repo = UserRepository::new();
    add_user(&mut store, "carol", "c@x.com");
    add_user(&mut store, "alice", "a@x.com");
    add_user(&mut store, "bob", "b@x.com");

    let listed = repo.find_all(&store).unwrap();
    let names: Vec<&str> = listed.iter().map(|u| u.username.as_str()).collect();
    assert_eq!(names, ["alice", "bob", "carol"]);

    let (status, resp) = get_all_users(&repo, &store);
    assert_eq!(status, 200);
    let views = resp.data.unwrap();
    assert_eq!(views.len(), 3);
    assert_eq!(views[0].username, "alice");
    assert_eq!(views[2].username, "carol");
}

#[test]
fn test_channels_are_listed_by_name_ascending() {
    let mut store = Store::new();
    let owner = add_user(&mut store, "owner", "o@x.com");
    let server_id = add_server(&mut store, "hall", owner);
    let channels = ChannelRepository::new();
    for name in ["zeta", "alpha", "midway"] {
        channels
            .create(
                &mut store,
                NewChannel {
                    server_id: Some(server_id),
                    name: name.to_string(),
                    channel_type: "standard".to_string(),
                },
            )
            .unwrap();
    }

    let listed = channels.find_by_server(&store, server_id).unwrap();
    let names: Vec<&str> = listed.iter().map(|c| c.name.as_str()).collect();
    assert_eq!(names, ["alpha", "midway", "zeta"]);
}

#[test]
fn test_server_listings_by_owner_and_membership() {
    let mut store = Store::new();
    let anna = add_user(&mut store, "anna", "a@x.com");
    let bert = add_user(&mut store, "bert", "b@x.com");
    let s1 = add_server(&mut store, "first", anna);
    let s2 = add_server(&mut store, "second", bert);
    let s3 = add_server(&mut store, "third", anna);

    let repo = ServerRepository::new(UserRepository::new());
    let (_, resp) = get_all_servers(&repo, &store);
    assert_eq!(resp.data.unwrap().len(), 3);

    let (_, resp) = get_servers_by_owner(&repo, &store, anna);
    let owned: Vec<i32> = resp.data.unwrap().iter().map(|s| s.server_id).collect();
    assert_eq!(owned, [s1, s3]);

    let members = ServerMemberRepository::new();
    members
        .create(
            &mut store,
            NewServerMember {
                server_id: s2,
                user_id: anna,
                nickname: None,
            },
        )
        .unwrap();
    let (_, resp) = get_servers_for_user(&repo, &store, anna);
    let joined: Vec<i32> = resp.data.unwrap().iter().map(|s| s.server_id).collect();
    assert_eq!(joined, [s2]);

    let rows = members.find_by_user(&store, anna).unwrap();
    assert_eq!(rows.len(), 1);
    assert_eq!(rows[0].server_id, s2);
}
