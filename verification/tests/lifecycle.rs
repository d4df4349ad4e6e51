use txn_db::error::Error;
use txn_db::handle::EngineHandle;
use txn_db::options::{TransactionDBOptions, TransactionOptions};
use txn_db::transaction_db::{IteratorRequest, OpenReply, TransactionDB, TransactionRequest};

fn handle_at(addr: usize) -> EngineHandle {
    match EngineHandle::new(addr) {
        Some(handle) => handle,
        None => panic!("a null handle"),
    }
}

fn database_at(path: &str, addr: usize) -> TransactionDB {
    let options = TransactionDBOptions::new();
    match TransactionDB::open(path, &options, OpenReply::Opened(handle_at(addr))) {
        Ok(db) => db,
        Err(error) => panic!("open failed: {}", error.message()),
    }
}

fn shared_across_threads<T: Send + Sync>(_value: &T) -> bool {
    true
}

#[test]
fn a_null_address_is_no_handle() {
    assert_eq!(EngineHandle::new(0), None);
}

#[test]
fn a_handle_keeps_its_address() {
    let handle = handle_at(0x1000);
    assert_eq!(handle.addr(), 0x1000);
    assert_eq!(handle.release(), 0x1000);
    assert_eq!(handle_at(usize::MAX).addr(), usize::MAX);
    assert_eq!(handle_at(1).addr(), 1);
}

#[test]
fn an_error_carries_the_message_it_was_given() {
    let error = Error::new(String::from("IO error: lock hold by current process"));
    assert_eq!(error.message(), "IO error: lock hold by current process");
    assert_eq!(error.into_string(), String::from("IO error: lock hold by current process"));
    assert_eq!(Error::new(String::new()).message(), "");
}

#[test]
fn open_ffi_hands_the_handle_on() {
    match TransactionDB::open_ffi(OpenReply::Opened(handle_at(42))) {
        Ok(handle) => assert_eq!(handle.addr(), 42),
        Err(error) => panic!("unexpected error: {}", error.message()),
    }
}

#[test]
fn open_ffi_turns_a_refusal_into_an_error() {
    let reply = OpenReply::Failed(String::from("Corruption: bad magic number"));
    assert_eq!(
        TransactionDB::open_ffi(reply),
        Err(Error::new(String::from("Corruption: bad magic number")))
    );
}

#[test]
fn build_keeps_handle_and_path() {
    match TransactionDB::build(String::from("/var/lib/store"), handle_at(7)) {
        Ok(db) => {
            assert_eq!(db.path(), "/var/lib/store");
            assert_eq!(db.handle(), 7);
        }
        Err(error) => panic!("unexpected error: {}", error.message()),
    }
}

#[test]
fn open_returns_the_path_as_given() {
    let db = database_at("/tmp/db", 0x2000);
    assert_eq!(db.path(), "/tmp/db");
    assert_eq!(db.handle(), 0x2000);
}

#[test]
fn open_does_not_normalize_the_path() {
    assert_eq!(database_at("./a/../b//c/", 1).path(), "./a/../b//c/");
    assert_eq!(database_at("", 1).path(), "");
    assert_eq!(database_at("relative dir/\u{e9}t\u{e9}", 1).path(), "relative dir/\u{e9}t\u{e9}");
    assert_eq!(database_at("C:\\data\\db", 1).path(), "C:\\data\\db");
}

#[test]
fn open_fails_with_the_message_of_the_engine() {
    let options = TransactionDBOptions::new();
    let reply = OpenReply::Failed(String::from("IO error: While lock file: /tmp/db/LOCK"));
    match TransactionDB::open("/tmp/db", &options, reply) {
        Ok(_) => panic!("open must fail when the engine refuses"),
        Err(error) => assert_eq!(error.message(), "IO error: While lock file: /tmp/db/LOCK"),
    }
}

#[test]
fn open_after_a_refusal_succeeds_when_the_engine_answers_with_a_handle() {
    let options = TransactionDBOptions::new();
    let refused = TransactionDB::open("/tmp/db", &options, OpenReply::Failed(String::from("busy")));
    assert!(refused.is_err());
    let db = database_at("/tmp/db", 9);
    assert_eq!(db.close(), 9);
    let again = database_at("/tmp/db", 9);
    assert_eq!(again.path(), "/tmp/db");
    assert_eq!(again.handle(), 9);
}

#[test]
fn a_transaction_request_carries_the_options_as_they_are() {
    let db = database_at("/tmp/db", 0x3000);
    let mut options = TransactionOptions::new();
    options.set_deadlock_detect(true);
    options.set_deadlock_detect_depth(25);
    options.set_expiration(1000);
    options.set_lock_timeout(200);
    options.set_max_write_batch_size(1 << 20);
    let request: TransactionRequest = db.transaction(&options);
    assert_eq!(request.db(), 0x3000);
    assert_eq!(request.options(), options);
    assert!(request.options().deadlock_detect());
    assert!(!request.options().snapshot());
    assert_eq!(request.options().deadlock_detect_depth(), Some(25));
    assert_eq!(request.options().expiration(), Some(1000));
    assert_eq!(request.options().lock_timeout(), Some(200));
    assert_eq!(request.options().max_write_batch_size(), Some(1 << 20));
}

#[test]
fn a_request_with_default_options_asks_for_nothing_special() {
    let db = database_at("/tmp/db", 3);
    let request = db.transaction(&TransactionOptions::new());
    assert_eq!(request.options(), TransactionOptions::new());
    assert!(!request.options().snapshot());
    assert!(!request.options().deadlock_detect());
    assert_eq!(request.options().expiration(), None);
}

#[test]
fn different_options_make_different_requests() {
    let db = database_at("/tmp/db", 0x3000);
    let mut detecting = TransactionOptions::new();
    detecting.set_deadlock_detect(true);
    let mut expiring = TransactionOptions::new();
    expiring.set_expiration(50);
    let first = db.transaction(&detecting);
    let second = db.transaction(&expiring);
    assert_ne!(first, second);
    assert!(first.options().deadlock_detect());
    assert_eq!(first.options().expiration(), None);
    assert!(!second.options().deadlock_detect());
    assert_eq!(second.options().expiration(), Some(50));
}

#[test]
fn options_serve_any_number_of_requests() {
    let db = database_at("/tmp/db", 0x3000);
    let mut options = TransactionOptions::new();
    options.set_lock_timeout(10);
    let first = db.transaction(&options);
    let second = db.transaction(&options);
    assert_eq!(first, second);
    assert_eq!(options.lock_timeout(), Some(10));
}

#[test]
fn a_later_change_reaches_no_earlier_request() {
    let db = database_at("/tmp/db", 0x3000);
    let mut options = TransactionOptions::new();
    options.set_expiration(100);
    let before = db.transaction(&options);
    options.set_expiration(200);
    options.set_snapshot(true);
    let after = db.transaction(&options);
    assert_eq!(before.options().expiration(), Some(100));
    assert!(!before.options().snapshot());
    assert_eq!(after.options().expiration(), Some(200));
    assert!(after.options().snapshot());
}

#[test]
fn the_snapshot_flag_reaches_the_request() {
    let db = database_at("/tmp/db", 0x3000);
    let mut options = TransactionOptions::new();
    options.set_snapshot(true);
    assert!(db.transaction(&options).options().snapshot());
    options.set_snapshot(false);
    assert!(!db.transaction(&options).options().snapshot());
}

#[test]
fn an_iterator_request_names_the_database() {
    let db = database_at("/tmp/db", 0x4000);
    let request: IteratorRequest = db.get_raw_iter();
    assert_eq!(request.db(), 0x4000);
    assert_eq!(db.get_raw_iter(), request);
    assert_ne!(database_at("/tmp/db", 0x4001).get_raw_iter(), request);
}

#[test]
fn close_hands_out_the_handle_to_close() {
    let db = database_at("/tmp/db", 0x5000);
    assert_eq!(db.handle(), 0x5000);
    assert_eq!(db.close(), 0x5000);
}

#[test]
fn a_database_can_be_shared_by_reference() {
    let db = database_at("/tmp/db", 0x6000);
    assert!(shared_across_threads(&db));
    assert!(shared_across_threads(&TransactionOptions::new()));
}

#[test]
fn a_message_means_refusal_whatever_the_address() {
    let message = String::from("Invalid argument: not a transaction database");
    assert_eq!(
        OpenReply::from_raw(0, Some(message.clone())),
        Some(OpenReply::Failed(message.clone()))
    );
    assert_eq!(
        OpenReply::from_raw(0x7000, Some(message.clone())),
        Some(OpenReply::Failed(message))
    );
}

#[test]
fn an_address_without_a_message_is_the_database() {
    assert_eq!(
        OpenReply::from_raw(0x7000, None),
        Some(OpenReply::Opened(handle_at(0x7000)))
    );
}

#[test]
fn neither_address_nor_message_is_no_answer() {
    assert_eq!(OpenReply::from_raw(0, None), None);
}
