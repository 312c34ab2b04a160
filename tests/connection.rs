use rocksdb_elixir::{close, delete, destroy, flush, get, open, put, DbError, Operation, RocksDBConnection};

fn opened(path: &str, handle: u32) -> RocksDBConnection<u32> {
    open(String::from(path), Ok(handle)).unwrap()
}

#[test]
fn open_success_gives_open_connection() {
    let conn = opened("/tmp/t1", 7);
    assert!(conn.is_open());
    assert_eq!(conn.path(), "/tmp/t1");
    assert_eq!(conn.resource(), Ok(&7));
}

#[test]
fn open_failure_becomes_engine_open_error() {
    let r = open::<u32>(String::from("/locked"), Err(String::from("IO error: lock held")));
    assert_eq!(r.err(), Some(DbError::EngineOpen(String::from("IO error: lock held"))));
}

#[test]
fn new_gives_open_connection() {
    let conn = RocksDBConnection::new(3u32, String::from("/tmp/new")).unwrap();
    assert!(conn.is_open());
    assert_eq!(conn.resource(), Ok(&3));
    assert_eq!(conn.path(), "/tmp/new");
}

#[test]
fn put_success_hands_back_same_connection() {
    let conn = opened("/tmp/put", 1);
    let conn = put(conn, Ok(())).unwrap();
    assert!(conn.is_open());
    assert_eq!(conn.path(), "/tmp/put");
    assert_eq!(conn.resource(), Ok(&1));
}

#[test]
fn put_failure_becomes_engine_write_error() {
    let conn = opened("/tmp/put_err", 1);
    let r = put(conn, Err(String::from("IO error: disk full")));
    assert_eq!(r.err(), Some(DbError::EngineWrite(String::from("IO error: disk full"))));
}

#[test]
fn delete_of_absent_key_hands_back_connection_unchanged() {
    let conn = opened("/tmp/del", 9);
    let conn = delete(conn, Ok(())).unwrap();
    assert!(conn.is_open());
    assert_eq!(conn.path(), "/tmp/del");
    assert_eq!(conn.resource(), Ok(&9));
}

#[test]
fn delete_failure_becomes_engine_write_error() {
    let conn = opened("/tmp/del_err", 9);
    let r = delete(conn, Err(String::from("Corruption: bad block")));
    assert_eq!(r.err(), Some(DbError::EngineWrite(String::from("Corruption: bad block"))));
}

#[test]
fn get_copies_found_bytes() {
    let conn = opened("/tmp/get", 2);
    let stored: Vec<u8> = vec![0, 1, 2, 255];
    let r = get(&conn, Ok(Some(stored.as_slice()))).unwrap();
    assert_eq!(r, Some(vec![0u8, 1, 2, 255]));
}

#[test]
fn get_copies_empty_value() {
    let conn = opened("/tmp/get_empty", 2);
    let stored: Vec<u8> = Vec::new();
    let r = get(&conn, Ok(Some(stored.as_slice()))).unwrap();
    assert_eq!(r, Some(Vec::new()));
}

#[test]
fn get_absent_key_gives_none() {
    let conn = opened("/tmp/get_none", 2);
    assert_eq!(get(&conn, Ok(None)), Ok(None));
}

#[test]
fn get_failure_becomes_engine_read_error() {
    let conn = opened("/tmp/get_err", 2);
    let r = get(&conn, Err(String::from("IO error: read")));
    assert_eq!(r, Err(DbError::EngineRead(String::from("IO error: read"))));
}

#[test]
fn flush_success_and_failure() {
    let conn = opened("/tmp/flush", 4);
    assert_eq!(flush(&conn, Ok(())), Ok(()));
    assert_eq!(
        flush(&conn, Err(String::from("IO error: sync"))),
        Err(DbError::EngineFlush(String::from("IO error: sync")))
    );
}

#[test]
fn destroy_success_and_failure() {
    assert_eq!(destroy(Ok(())), Ok(()));
    assert_eq!(
        destroy(Err(String::from("IO error: in use"))),
        Err(DbError::EngineDestroy(String::from("IO error: in use")))
    );
}

#[test]
fn close_invalidates_every_operation() {
    let conn = opened("/tmp/closed", 5);
    let conn = close(conn);
    assert!(!conn.is_open());
    assert_eq!(conn.path(), "/tmp/closed");
    assert_eq!(conn.resource(), Err(DbError::ResourceClosed));
    let stored: Vec<u8> = vec![1];
    assert_eq!(get(&conn, Ok(Some(stored.as_slice()))), Err(DbError::ResourceClosed));
    assert_eq!(flush(&conn, Ok(())), Err(DbError::ResourceClosed));
    let conn: RocksDBConnection<u32> = match put(conn, Ok(())) {
        Err(e) => {
            assert_eq!(e, DbError::ResourceClosed);
            RocksDBConnection::from_parts(String::from("/tmp/closed"), None)
        }
        Ok(_) => panic!("put on a closed connection succeeded"),
    };
    match delete(conn, Ok(())) {
        Err(e) => assert_eq!(e, DbError::ResourceClosed),
        Ok(_) => panic!("delete on a closed connection succeeded"),
    }
}

#[test]
fn close_twice_is_no_error() {
    let conn = close(close(opened("/tmp/twice", 6)));
    assert!(!conn.is_open());
    assert_eq!(conn.path(), "/tmp/twice");
}

#[test]
fn parts_round_trip() {
    let conn = RocksDBConnection::from_parts(String::from("/tmp/parts"), Some(8u32));
    assert!(conn.is_open());
    let (path, resource) = conn.into_parts();
    assert_eq!(path, "/tmp/parts");
    assert_eq!(resource, Some(8));
}

#[test]
fn from_engine_tags_each_operation() {
    let m = || String::from("why");
    assert_eq!(DbError::from_engine(Operation::Open, m()), DbError::EngineOpen(m()));
    assert_eq!(DbError::from_engine(Operation::Put, m()), DbError::EngineWrite(m()));
    assert_eq!(DbError::from_engine(Operation::Delete, m()), DbError::EngineWrite(m()));
    assert_eq!(DbError::from_engine(Operation::Get, m()), DbError::EngineRead(m()));
    assert_eq!(DbError::from_engine(Operation::Flush, m()), DbError::EngineFlush(m()));
    assert_eq!(DbError::from_engine(Operation::Destroy, m()), DbError::EngineDestroy(m()));
}

#[test]
fn error_messages() {
    assert_eq!(DbError::ResourceClosed.message(), "resource closed");
    assert_eq!(DbError::EngineOpen(String::from("a")).message(), "a");
    assert_eq!(DbError::EngineWrite(String::from("b")).message(), "b");
    assert_eq!(DbError::EngineRead(String::from("c")).message(), "c");
    assert_eq!(DbError::EngineFlush(String::from("d")).message(), "d");
    assert_eq!(DbError::EngineDestroy(String::from("e")).message(), "e");
}
