use faster_rs::cstr::SESSION_ID_STRIDE;
use faster_rs::status;
use faster_rs::{
    FasterError, FasterKv, FasterKvConfig, NativeCheckPoint, NativeConfig, NativeRecover,
    LOG_PAGE_SIZE_BYTES,
};

fn open_stub(_config: &NativeConfig) -> Option<()> {
    Some(())
}

fn in_memory_store() -> FasterKv<()> {
    FasterKvConfig::default_builder().build(open_stub).unwrap()
}

fn disk_store(dir: &str) -> FasterKv<()> {
    FasterKvConfig::builder()
        .table_size(1 << 14)
        .log_size(LOG_PAGE_SIZE_BYTES * 32)
        .storage_path(dir.to_owned())
        .build(open_stub)
        .unwrap()
}

fn no_native_checkpoint(_h: &()) -> Option<NativeCheckPoint> {
    unreachable!("an in-memory store must not reach the native checkpoint")
}

fn token_buffer(token: &str) -> Vec<u8> {
    let mut buffer = token.as_bytes().to_vec();
    buffer.resize(37, 0);
    buffer
}

#[test]
fn concurrent_checkpoints() {
    //TODO
}

#[test]
fn in_memory_checkpoint_errors() {
    let store = in_memory_store();
    let checkpoint = store.checkpoint(no_native_checkpoint);
    assert!(checkpoint.is_err(), "Checkpoint should fail");
    match checkpoint.err().unwrap() {
        FasterError::InvalidType => {}
        _ => unreachable!("Should give InvalidType Error"),
    }
}

#[test]
fn in_memory_checkpoint_index_errors() {
    let store = in_memory_store();
    let checkpoint = store.checkpoint_index(no_native_checkpoint);
    assert!(checkpoint.is_err(), "Checkpoint should fail");
    match checkpoint.err().unwrap() {
        FasterError::InvalidType => {}
        _ => unreachable!("Should give InvalidType Error"),
    }
}

#[test]
fn in_memory_checkpoint_hybrid_log_errors() {
    let store = in_memory_store();
    let checkpoint = store.checkpoint_hybrid_log(no_native_checkpoint);
    assert!(checkpoint.is_err(), "Checkpoint should fail");
    match checkpoint.err().unwrap() {
        FasterError::InvalidType => {}
        _ => unreachable!("Should give InvalidType Error"),
    }
}

#[test]
fn disk_checkpoint_reads_native_token() {
    let store = disk_store("/tmp/faster-checkpoint");
    let token = "c4ca4238-a0b9-3382-8dcc-509a6f75849b";
    let checkpoint = store
        .checkpoint(|_h: &()| Some(NativeCheckPoint { checked: true, token: token_buffer(token) }))
        .unwrap();
    assert!(checkpoint.checked);
    assert_eq!(checkpoint.token.len(), 37 - 1);
    assert_eq!(checkpoint.token, token);
    let index = store
        .checkpoint_index(|_h: &()| Some(NativeCheckPoint { checked: false, token: token_buffer("ab") }))
        .unwrap();
    assert!(!index.checked);
    assert_eq!(index.token, "ab");
}

#[test]
fn disk_checkpoint_failure_is_reported() {
    let store = disk_store("/tmp/faster-checkpoint");
    for result in [
        store.checkpoint(|_h: &()| None),
        store.checkpoint_index(|_h: &()| None),
        store.checkpoint_hybrid_log(|_h: &()| None),
    ] {
        let err = result.err().unwrap();
        assert!(matches!(err, FasterError::CheckpointError));
        assert_eq!(err.to_string(), "Checkpoint failed");
    }
}

#[test]
fn recover_passes_tokens_as_c_strings_and_reads_session_ids() {
    let store = disk_store("/tmp/faster-recover");
    let mut seen = None;
    let mut ids = vec![0u8; 2 * SESSION_ID_STRIDE];
    ids[..5].copy_from_slice(b"first");
    ids[SESSION_ID_STRIDE..SESSION_ID_STRIDE + 6].copy_from_slice(b"second");
    let outcome = store
        .recover("idx".to_owned(), "log".to_owned(), |_h: &(), a: Vec<u8>, b: Vec<u8>| {
            seen = Some((a, b));
            Some(NativeRecover {
                status: status::OK,
                version: 3,
                session_ids_count: 2,
                session_ids: ids,
            })
        })
        .unwrap();
    assert_eq!(outcome.status, status::OK);
    assert_eq!(outcome.version, 3);
    assert_eq!(outcome.session_ids, vec!["first".to_owned(), "second".to_owned()]);
    assert_eq!(seen, Some((b"idx\0".to_vec(), b"log\0".to_vec())));
}

#[test]
fn recover_failure_and_in_memory_refusal() {
    let store = disk_store("/tmp/faster-recover");
    let err = store
        .recover("a".to_owned(), "b".to_owned(), |_h: &(), _a: Vec<u8>, _b: Vec<u8>| None)
        .err()
        .unwrap();
    assert!(matches!(err, FasterError::RecoveryError));
    assert_eq!(err.to_string(), "Failed to recover");

    let memory = in_memory_store();
    let err = memory
        .recover("a\0".to_owned(), "b".to_owned(), |_h: &(), _a: Vec<u8>, _b: Vec<u8>| {
            unreachable!("an in-memory store must not reach the native recovery")
        })
        .err()
        .unwrap();
    assert!(matches!(err, FasterError::InvalidType));
    assert_eq!(err.to_string(), "Cannot call method with in-memory FasterKv");
}

#[test]
fn continue_session_passes_token_and_answers_serial() {
    let store = disk_store("/tmp/faster-session");
    let serial = store.continue_session("tok".to_owned(), |_h: &(), t: Vec<u8>| {
        assert_eq!(t, b"tok\0".to_vec());
        977
    });
    assert_eq!(serial, 977);
}

#[test]
fn clean_storage_of_in_memory_store_succeeds_without_removing() {
    let memory = in_memory_store();
    assert!(memory
        .clean_storage(|_d: &String| -> Result<(), std::io::Error> {
            unreachable!("an in-memory store has no directory to remove")
        })
        .is_ok());
}

#[test]
fn clean_storage_removes_directory() {
    let store = disk_store("/tmp/faster-clean");
    let mut removed = None;
    assert!(store
        .clean_storage(|d: &String| {
            removed = Some(d.clone());
            Ok(())
        })
        .is_ok());
    assert_eq!(removed.as_deref(), Some("/tmp/faster-clean"));

    let err = store
        .clean_storage(|_d: &String| Err(std::io::Error::new(std::io::ErrorKind::NotFound, "gone")))
        .err()
        .unwrap();
    assert!(matches!(err, FasterError::IOError(_)));
    assert_eq!(err.to_string(), "gone");
}
