//! The server request handlers: each one decodes an already-parsed
//! request value, drives the server repository, and shapes the
//! outcome into the uniform response envelope with its status code.
//! The request's free-form description is accepted and dropped, as
//! the persisted schema has no column for it.

use crate::models::response_types::ServerWithMembersResponse;
use crate::models::server::{NewServer, Server};
use crate::repositories::server_repository::{
    joined_through, owned_by, spec_server_members, ServerRepository,
};
use crate::store::{unchanged_except_servers, KeyField, Store, StoreError};
use vstd::prelude::*;

verus! {

/// A request to create a server.
#[derive(Debug, Clone, PartialEq, Eq)]
pub struct CreateServerRequest {
    pub name: String,
    pub description: String,
    pub owner_user_id: i32,
    pub icon_url: Option<String>,
}

/// A partial update: absent fields leave the stored record untouched.
#[derive(Debug, Clone, PartialEq, Eq)]
pub struct UpdateServerRequest {
    pub name: Option<String>,
    pub description: Option<String>,
    pub owner_user_id: Option<i32>,
    pub icon_url: Option<String>,
}

/// The uniform response envelope every endpoint answers with.
#[derive(Debug, Clone, PartialEq, Eq)]
pub struct ApiResponse<T> {
    pub success: bool,
    pub data: Option<T>,
    pub error: Option<String>,
}

/// The envelope of a successful outcome carrying `data`.
pub open spec fn ok_data<T>(resp: ApiResponse<T>, data: T) -> bool {
    &&& resp.success
    &&& resp.data == Some(data)
    &&& resp.error is None
}

/// The envelope of a failed outcome carrying the message `msg`.
pub open spec fn err_msg<T>(resp: ApiResponse<T>, msg: Seq<char>) -> bool {
    &&& !resp.success
    &&& resp.data is None
    &&& resp.error matches Some(m) && m@ == msg
}

/// Creates a server owned by the given user. A taken name is a 400
/// with its own message; a missing owner or a store refusal is a
/// plain 400.
pub fn create_server(repo: &ServerRepository, store: &mut Store, payload: CreateServerRequest) -> (r:
    (u16, ApiResponse<Server>))
    requires
        old(store).wf(),
    ensures
        final(store).wf(),
        ({
            let dup = old(store).server_name_taken(payload.name@);
            if dup {
                r.0 == 400 && err_msg(r.1, "Server name already exists"@) && *final(store)
                    == *old(store)
            } else if old(store).contains_user(payload.owner_user_id) && old(
                store,
            ).can_insert_server() {
                let s = Server {
                    server_id: old(store).next_server_id,
                    server_name: payload.name,
                    owner_user_id: payload.owner_user_id,
                    icon_url: payload.icon_url,
                    created_at: old(store).clock,
                    updated_at: None,
                };
                &&& r.0 == 201
                &&& ok_data(r.1, s)
                &&& final(store).servers@ == old(store).servers@.push(s)
                &&& final(store).next_server_id == old(store).next_server_id + 1
                &&& final(store).clock == old(store).clock + 1
                &&& unchanged_except_servers(*old(store), *final(store))
            } else {
                r.0 == 400 && err_msg(r.1, "Failed to create server"@) && *final(store) == *old(
                    store,
                )
            }
        }),
{
    let new_server = NewServer {
        server_name: payload.name,
        owner_user_id: payload.owner_user_id,
        icon_url: payload.icon_url,
    };
    match repo.create(store, new_server) {
        Ok(server) => (201, ApiResponse { success: true, data: Some(server), error: None }),
        Err(e) => {
            let error_message: &str = match e {
                StoreError::DuplicateKey(_) => "Server name already exists",
                _ => "Failed to create server",
            };
            (
                400,
                ApiResponse {
                    success: false,
                    data: None,
                    error: Some(error_message.to_owned()),
                },
            )
        },
    }
}

/// Fetches one server by id: 200 with the record, or 404.
pub fn get_server(repo: &ServerRepository, store: &Store, server_id: i32) -> (r: (
    u16,
    ApiResponse<Server>,
))
    requires
        store.wf(),
    ensures
        ({
            if store.contains_server(server_id) {
                r.0 == 200 && ok_data(r.1, store.server_with_id(server_id))
            } else {
                r.0 == 404 && err_msg(r.1, "Server not found"@)
            }
        }),
{
    match repo.find_by_id(store, server_id) {
        Ok(Some(server)) => (200, ApiResponse { success: true, data: Some(server), error: None }),
        _ => (
            404,
            ApiResponse {
                success: false,
                data: None,
                error: Some("Server not found".to_owned()),
            },
        ),
    }
}

/// Fetches one server together with its member views. A server with
/// zero members is a 200 carrying an empty member list; only an
/// unknown server id is a 404.
pub fn get_server_with_members(repo: &ServerRepository, store: &Store, server_id: i32) -> (r: (
    u16,
    ApiResponse<ServerWithMembersResponse>,
))
    requires
        store.wf(),
    ensures
        ({
            if store.contains_server(server_id) {
                &&& r.0 == 200
                &&& r.1.success
                &&& r.1.error is None
                &&& r.1.data matches Some(resp) && resp.server == store.server_with_id(server_id)
                    && resp.members@ == spec_server_members(*store, server_id)
            } else {
                r.0 == 404 && err_msg(r.1, "Server not found"@)
            }
        }),
{
    match repo.get_server_with_members(store, server_id) {
        Ok(Some(server_with_members)) => (
            200,
            ApiResponse { success: true, data: Some(server_with_members), error: None },
        ),
        _ => (
            404,
            ApiResponse {
                success: false,
                data: None,
                error: Some("Server not found".to_owned()),
            },
        ),
    }
}

/// The pure partial-update merge for servers: each present patch
/// field replaces the stored one, each absent field leaves it
/// untouched; the description has no stored counterpart and is
/// dropped. Identity and creation time are never touched.
pub fn merge_server_update(current: Server, patch: UpdateServerRequest) -> (s: Server)
    ensures
        s.server_id == current.server_id,
        s.created_at == current.created_at,
        s.updated_at == current.updated_at,
        match patch.name {
            Some(n) => s.server_name == n,
            None => s.server_name == current.server_name,
        },
        match patch.owner_user_id {
            Some(o) => s.owner_user_id == o,
            None => s.owner_user_id == current.owner_user_id,
        },
        match patch.icon_url {
            Some(u) => s.icon_url == Some(u),
            None => s.icon_url == current.icon_url,
        },
{
    let mut updated = current;
    if let Some(name) = patch.name {
        updated.server_name = name;
    }
    if let Some(owner_user_id) = patch.owner_user_id {
        updated.owner_user_id = owner_user_id;
    }
    if let Some(icon_url) = patch.icon_url {
        updated.icon_url = Some(icon_url);
    }
    updated
}

/// Applies a partial update: the stored record is fetched, the patch
/// is merged onto it, and the merged record replaces the stored one.
/// Untouched fields survive. An unknown id is a 404; a name collision
/// with another server is a 400 with its own message; any other store
/// refusal is a 400.
pub fn update_server(
    repo: &ServerRepository,
    store: &mut Store,
    server_id: i32,
    payload: UpdateServerRequest,
) -> (r: (u16, ApiResponse<Server>))
    requires
        old(store).wf(),
    ensures
        final(store).wf(),
        !old(store).contains_server(server_id) ==> r.0 == 404 && err_msg(r.1, "Server not found"@)
            && *final(store) == *old(store),
        old(store).contains_server(server_id) ==> ({
            let cur = old(store).server_with_id(server_id);
            let new_name = match payload.name {
                Some(n) => n,
                None => cur.server_name,
            };
            let new_owner = match payload.owner_user_id {
                Some(o) => o,
                None => cur.owner_user_id,
            };
            let dup = old(store).server_name_taken_by_other(new_name@, server_id);
            if dup {
                r.0 == 400 && err_msg(r.1, "Server name already exists"@) && *final(store)
                    == *old(store)
            } else if old(store).contains_user(new_owner) && old(store).can_touch() {
                let s = Server {
                    server_id,
                    server_name: new_name,
                    owner_user_id: new_owner,
                    icon_url: match payload.icon_url {
                        Some(u) => Some(u),
                        None => cur.icon_url,
                    },
                    created_at: cur.created_at,
                    updated_at: Some(old(store).clock),
                };
                &&& r.0 == 200
                &&& ok_data(r.1, s)
                &&& final(store).servers@ == old(store).servers@.update(
                    old(store).server_index(server_id),
                    s,
                )
                &&& final(store).next_server_id == old(store).next_server_id
                &&& final(store).clock == old(store).clock + 1
                &&& unchanged_except_servers(*old(store), *final(store))
            } else {
                r.0 == 400 && err_msg(r.1, "Failed to update server"@) && *final(store) == *old(
                    store,
                )
            }
        }),
{
    let current_server = match repo.find_by_id(store, server_id) {
        Ok(Some(server)) => server,
        _ => {
            return (
                404,
                ApiResponse {
                    success: false,
                    data: None,
                    error: Some("Server not found".to_owned()),
                },
            );
        },
    };
    let updated_server = merge_server_update(current_server, payload);
    match repo.update(store, server_id, updated_server) {
        Ok(server) => (200, ApiResponse { success: true, data: Some(server), error: None }),
        Err(e) => {
            let error_message: &str = match e {
                StoreError::DuplicateKey(_) => "Server name already exists",
                _ => "Failed to update server",
            };
            (
                400,
                ApiResponse {
                    success: false,
                    data: None,
                    error: Some(error_message.to_owned()),
                },
            )
        },
    }
}

/// Deletes one server by id: 200 when a row was removed, 404 when
/// the id was unknown, and a second delete of the same id is a plain
/// 404, never an error.
pub fn delete_server(repo: &ServerRepository, store: &mut Store, server_id: i32) -> (r: (
    u16,
    ApiResponse<String>,
))
    requires
        old(store).wf(),
    ensures
        final(store).wf(),
        ({
            if old(store).contains_server(server_id) {
                &&& r.0 == 200
                &&& r.1.success
                &&& r.1.data matches Some(m) && m@ == "Server deleted successfully"@
                &&& r.1.error is None
                &&& final(store).servers@ == old(store).servers@.remove(
                    old(store).server_index(server_id),
                )
                &&& final(store).clock == old(store).clock
                &&& unchanged_except_servers(*old(store), *final(store))
                &&& final(store).next_server_id == old(store).next_server_id
            } else {
                r.0 == 404 && err_msg(r.1, "Server not found"@) && *final(store) == *old(store)
            }
        }),
{
    match repo.delete(store, server_id) {
        Ok(true) => (
            200,
            ApiResponse {
                success: true,
                data: Some("Server deleted successfully".to_owned()),
                error: None,
            },
        ),
        _ => (
            404,
            ApiResponse {
                success: false,
                data: None,
                error: Some("Server not found".to_owned()),
            },
        ),
    }
}

/// Lists every server, in table order. Always a 200.
pub fn get_all_servers(repo: &ServerRepository, store: &Store) -> (r: (
    u16,
    ApiResponse<Vec<Server>>,
))
    requires
        store.wf(),
    ensures
        r.0 == 200,
        r.1.success,
        r.1.error is None,
        r.1.data matches Some(v) && v@ == store.servers@,
{
    let servers = match repo.find_all(store) {
        Ok(servers) => servers,
        Err(_) => Vec::new(),
    };
    (200, ApiResponse { success: true, data: Some(servers), error: None })
}

/// Lists the servers owned by one user, in table order. Always a 200.
pub fn get_servers_by_owner(repo: &ServerRepository, store: &Store, owner_user_id: i32) -> (r: (
    u16,
    ApiResponse<Vec<Server>>,
))
    requires
        store.wf(),
    ensures
        r.0 == 200,
        r.1.success,
        r.1.error is None,
        r.1.data matches Some(v) && v@ == store.servers@.filter(owned_by(owner_user_id)),
{
    let servers = match repo.find_by_owner(store, owner_user_id) {
        Ok(servers) => servers,
        Err(_) => Vec::new(),
    };
    (200, ApiResponse { success: true, data: Some(servers), error: None })
}

/// Lists the servers one user belongs to through membership, in
/// table order. Always a 200.
pub fn get_servers_for_user(repo: &ServerRepository, store: &Store, user_id: i32) -> (r: (
    u16,
    ApiResponse<Vec<Server>>,
))
    requires
        store.wf(),
    ensures
        r.0 == 200,
        r.1.success,
        r.1.error is None,
        r.1.data matches Some(v) && v@ == store.servers@.filter(
            joined_through(store.server_members@, user_id),
        ),
{
    let servers = match repo.find_servers_for_user(store, user_id) {
        Ok(servers) => servers,
        Err(_) => Vec::new(),
    };
    (200, ApiResponse { success: true, data: Some(servers), error: None })
}

} // verus!
