use pubky_homeserver_mvp::router::{
    error_response, handle_delete_data, handle_get_data, handle_list_keys, handle_put_data,
    health_response, ResponseBody,
};
use pubky_homeserver_mvp::{Storage, StorageError};

// The default ceiling of `Storage::new` is a 10 GiB map, more than this
// test environment lets a process map, so the tests pick a smaller ceiling
// through the same open path.
fn open_temp_store() -> (tempfile::TempDir, Storage) {
    let dir = tempfile::tempdir().unwrap();
    let storage =
        Storage::with_map_size(dir.path().to_str().unwrap(), 64 * 1024 * 1024).unwrap();
    (dir, storage)
}

#[test]
fn basic_lifecycle_scenario() {
    let (_dir, mut storage) = open_temp_store();

    let resp = handle_put_data(&mut storage, "foo", b"bar");
    assert_eq!(resp.status, 201);
    assert!(matches!(resp.body, ResponseBody::Empty));

    let resp = handle_get_data(&storage, "foo");
    assert_eq!(resp.status, 200);
    match resp.body {
        ResponseBody::Raw(v) => assert_eq!(v, b"bar".to_vec()),
        _ => panic!("expected the raw stored bytes"),
    }

    let resp = handle_list_keys(&storage);
    assert_eq!(resp.status, 200);
    match resp.body {
        ResponseBody::Keys(keys) => assert_eq!(keys, vec!["foo".to_string()]),
        _ => panic!("expected the key listing"),
    }

    let resp = handle_delete_data(&mut storage, "foo");
    assert_eq!(resp.status, 204);
    assert!(matches!(resp.body, ResponseBody::Empty));

    let resp = handle_get_data(&storage, "foo");
    assert_eq!(resp.status, 404);
}

#[test]
fn missing_key_scenario() {
    let (_dir, mut storage) = open_temp_store();

    let resp = handle_get_data(&storage, "missing");
    assert_eq!(resp.status, 404);
    match resp.body {
        ResponseBody::Error(m) => assert_eq!(m, "Key not found"),
        _ => panic!("expected an error body"),
    }

    let resp = handle_delete_data(&mut storage, "missing");
    assert_eq!(resp.status, 404);
    assert!(matches!(resp.body, ResponseBody::Empty));
}

#[test]
fn empty_store_enumeration_scenario() {
    let (_dir, storage) = open_temp_store();
    let resp = handle_list_keys(&storage);
    assert_eq!(resp.status, 200);
    match resp.body {
        ResponseBody::Keys(keys) => assert_eq!(keys, Vec::<String>::new()),
        _ => panic!("expected a key listing"),
    }
}

#[test]
fn health_reports_ok_and_version() {
    let resp = health_response("1.2.3".to_string());
    assert_eq!(resp.status, 200);
    match resp.body {
        ResponseBody::Health { status, version } => {
            assert_eq!(status, "ok");
            assert_eq!(version, "1.2.3");
        }
        _ => panic!("expected the health body"),
    }
}

#[test]
fn engine_failures_become_internal_errors_with_message() {
    let resp = error_response(StorageError::EngineRead("txn failed".to_string()));
    assert_eq!(resp.status, 500);
    match resp.body {
        ResponseBody::Error(m) => assert_eq!(m, "txn failed"),
        _ => panic!("expected an error body"),
    }

    let write = StorageError::EngineWrite("commit failed".to_string());
    assert_eq!(write.into_message(), "commit failed");
    let open = StorageError::EngineOpen("bad directory".to_string());
    assert_eq!(open.into_message(), "bad directory");
}

#[test]
fn overwrite_through_router_keeps_second_value() {
    let (_dir, mut storage) = open_temp_store();
    assert_eq!(handle_put_data(&mut storage, "k", b"v1").status, 201);
    assert_eq!(handle_put_data(&mut storage, "k", b"v2").status, 201);
    let resp = handle_get_data(&storage, "k");
    assert_eq!(resp.status, 200);
    match resp.body {
        ResponseBody::Raw(v) => assert_eq!(v, b"v2".to_vec()),
        _ => panic!("expected the raw stored bytes"),
    }
}
