//! The request router's decisions: each route makes exactly one storage
//! call and maps its outcome to a status code and a response body.

use vstd::prelude::*;
use crate::storage::{lists_exactly, Storage, StorageError};

verus! {

/// What a response carries besides its status code. The host serializes
/// `Keys`, `Health` and `Error` as JSON objects and sends `Raw` verbatim.
pub enum ResponseBody {
    /// No body.
    Empty,
    /// The stored bytes, sent verbatim.
    Raw(Vec<u8>),
    /// A human-readable failure message.
    Error(String),
    /// Every key currently present.
    Keys(Vec<String>),
    /// Liveness: a fixed indicator and the build version.
    Health { status: String, version: String },
}

/// A wire response: an HTTP status code and a body.
pub struct ApiResponse {
    pub status: u16,
    pub body: ResponseBody,
}

/// Every engine failure becomes the same generic server-side failure,
/// keeping the message: status 500 with the error text as the body.
pub fn error_response(e: StorageError) -> (resp: ApiResponse)
    ensures
        resp.status == 500,
        resp.body matches ResponseBody::Error(m) && m@ == e.message_view(),
{
    ApiResponse { status: 500, body: ResponseBody::Error(e.into_message()) }
}

/// The liveness probe: always 200, a fixed "ok" indicator, and the build
/// version handed in by the host. No storage access.
pub fn health_response(version: String) -> (resp: ApiResponse)
    ensures
        resp.status == 200,
        resp.body matches ResponseBody::Health { status, version: v }
            && status@ == "ok"@ && v == version,
{
    ApiResponse {
        status: 200,
        body: ResponseBody::Health { status: "ok".to_owned(), version },
    }
}

/// Lists all keys: 200 with every present key (possibly none — an empty
/// store is success, not failure), or 500 on an engine failure.
pub fn handle_list_keys(storage: &Storage) -> (resp: ApiResponse)
    ensures
        resp.status == 200 || resp.status == 500,
        resp.status == 200 ==> (resp.body matches ResponseBody::Keys(keys)
            && lists_exactly(keys@.map_values(|s: String| s@), storage@)),
        resp.status == 500 ==> resp.body is Error,
{
    match storage.list_keys() {
        Ok(keys) => ApiResponse { status: 200, body: ResponseBody::Keys(keys) },
        Err(e) => error_response(e),
    }
}

/// Reads one key: 200 with exactly the stored bytes, 404 when the key is
/// absent, or 500 on an engine failure.
pub fn handle_get_data(storage: &Storage, key: &str) -> (resp: ApiResponse)
    ensures
        resp.status == 200 || resp.status == 404 || resp.status == 500,
        resp.status == 200 ==> storage@.contains_key(key@)
            && (resp.body matches ResponseBody::Raw(v) && v@ == storage@[key@]),
        resp.status == 404 ==> !storage@.contains_key(key@)
            && (resp.body matches ResponseBody::Error(m) && m@ == "Key not found"@),
        resp.status == 500 ==> resp.body is Error,
{
    match storage.get(key) {
        Ok(Some(value)) => ApiResponse { status: 200, body: ResponseBody::Raw(value) },
        Ok(None) => ApiResponse {
            status: 404,
            body: ResponseBody::Error("Key not found".to_owned()),
        },
        Err(e) => error_response(e),
    }
}

/// Writes one key: 201 once the value is durably committed (the prior
/// value, if any, fully replaced), or 500 with the store unchanged.
pub fn handle_put_data(storage: &mut Storage, key: &str, value: &[u8]) -> (resp: ApiResponse)
    requires
        key@.len() > 0,
    ensures
        resp.status == 201 || resp.status == 500,
        resp.status == 201 ==> final(storage)@ == old(storage)@.insert(key@, value@)
            && resp.body is Empty,
        resp.status == 500 ==> final(storage)@ == old(storage)@ && resp.body is Error,
{
    match storage.put(key, value) {
        Ok(()) => ApiResponse { status: 201, body: ResponseBody::Empty },
        Err(e) => error_response(e),
    }
}

/// Deletes one key: 204 once a present value is durably removed, 404 when
/// the key was absent (and nothing changed), or 500 with the store
/// unchanged.
pub fn handle_delete_data(storage: &mut Storage, key: &str) -> (resp: ApiResponse)
    ensures
        resp.status == 204 || resp.status == 404 || resp.status == 500,
        resp.status == 204 ==> old(storage)@.contains_key(key@)
            && final(storage)@ == old(storage)@.remove(key@) && resp.body is Empty,
        resp.status == 404 ==> !old(storage)@.contains_key(key@)
            && final(storage)@ == old(storage)@ && resp.body is Empty,
        resp.status == 500 ==> final(storage)@ == old(storage)@ && resp.body is Error,
{
    match storage.delete(key) {
        Ok(true) => ApiResponse { status: 204, body: ResponseBody::Empty },
        Ok(false) => ApiResponse { status: 404, body: ResponseBody::Empty },
        Err(e) => error_response(e),
    }
}

} // verus!
