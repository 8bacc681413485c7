use receiver::storage::{
    log_file_name, log_payload, StorageError, StorageOp, StorageOutcome, StorageSession,
    VOLUME_INDEX,
};

/// Drive a session to its end, handing each operation the scripted outcome,
/// and return the operations actually performed, in order.
fn drive(session: &mut StorageSession, script: &[StorageOutcome]) -> Vec<StorageOp> {
    let mut performed = Vec::new();
    let mut next_outcome = script.iter().copied();
    while let Some(op) = session.next_op {
        performed.push(op);
        let outcome = next_outcome.next().expect("script ended before the session did");
        session.step(outcome);
    }
    performed
}

#[test]
fn fixed_payload_and_names() {
    assert_eq!(log_payload(), b"Hello World!".to_vec());
    assert_eq!(log_payload().len(), 12);
    assert_eq!(log_file_name(), "file.txt");
    assert_eq!(VOLUME_INDEX, 0);
}

#[test]
fn successful_pass_reports_capacity() {
    let mut s = StorageSession::new();
    assert_eq!(s.report(), None);
    let performed = drive(
        &mut s,
        &[
            StorageOutcome::Capacity(4_194_304),
            StorageOutcome::Completed,
            StorageOutcome::Completed,
            StorageOutcome::Completed,
            StorageOutcome::Completed,
            StorageOutcome::Completed,
            StorageOutcome::Completed,
            StorageOutcome::Completed,
        ],
    );
    assert_eq!(
        performed,
        vec![
            StorageOp::QueryCapacity,
            StorageOp::OpenVolume,
            StorageOp::OpenRootDir,
            StorageOp::OpenFile,
            StorageOp::Write,
            StorageOp::CloseFile,
            StorageOp::CloseDir,
            StorageOp::CloseVolume,
        ]
    );
    assert_eq!(s.report(), Some(Ok(4_194_304)));
}

#[test]
fn capacity_failure_stops_everything() {
    let mut s = StorageSession::new();
    let performed = drive(&mut s, &[StorageOutcome::Failed(StorageError::Device)]);
    // The task reports the error and performs zero further storage operations.
    assert_eq!(performed, vec![StorageOp::QueryCapacity]);
    assert_eq!(s.report(), Some(Err(StorageError::Device)));
}

#[test]
fn failed_write_still_closes_everything_in_order() {
    let mut s = StorageSession::new();
    let performed = drive(
        &mut s,
        &[
            StorageOutcome::Capacity(1_000_000),
            StorageOutcome::Completed,
            StorageOutcome::Completed,
            StorageOutcome::Completed,
            StorageOutcome::Failed(StorageError::Device),
            StorageOutcome::Completed,
            StorageOutcome::Completed,
            StorageOutcome::Completed,
        ],
    );
    // close_file, close_dir and close_volume each ran exactly once, in order.
    assert_eq!(
        performed,
        vec![
            StorageOp::QueryCapacity,
            StorageOp::OpenVolume,
            StorageOp::OpenRootDir,
            StorageOp::OpenFile,
            StorageOp::Write,
            StorageOp::CloseFile,
            StorageOp::CloseDir,
            StorageOp::CloseVolume,
        ]
    );
    assert_eq!(s.report(), Some(Err(StorageError::Device)));
}

#[test]
fn failed_close_does_not_skip_later_closes() {
    let mut s = StorageSession::new();
    let performed = drive(
        &mut s,
        &[
            StorageOutcome::Capacity(1_000_000),
            StorageOutcome::Completed,
            StorageOutcome::Completed,
            StorageOutcome::Completed,
            StorageOutcome::Completed,
            StorageOutcome::Failed(StorageError::Filesystem),
            StorageOutcome::Completed,
            StorageOutcome::Completed,
        ],
    );
    assert_eq!(
        performed,
        vec![
            StorageOp::QueryCapacity,
            StorageOp::OpenVolume,
            StorageOp::OpenRootDir,
            StorageOp::OpenFile,
            StorageOp::Write,
            StorageOp::CloseFile,
            StorageOp::CloseDir,
            StorageOp::CloseVolume,
        ]
    );
    assert_eq!(s.report(), Some(Err(StorageError::Filesystem)));
}

#[test]
fn failed_volume_open_has_nothing_to_close() {
    let mut s = StorageSession::new();
    let performed = drive(
        &mut s,
        &[
            StorageOutcome::Capacity(1_000_000),
            StorageOutcome::Failed(StorageError::Filesystem),
        ],
    );
    assert_eq!(performed, vec![StorageOp::QueryCapacity, StorageOp::OpenVolume]);
    assert_eq!(s.report(), Some(Err(StorageError::Filesystem)));
}

#[test]
fn failed_dir_open_still_closes_the_volume() {
    let mut s = StorageSession::new();
    let performed = drive(
        &mut s,
        &[
            StorageOutcome::Capacity(1_000_000),
            StorageOutcome::Completed,
            StorageOutcome::Failed(StorageError::Filesystem),
            StorageOutcome::Completed,
        ],
    );
    assert_eq!(
        performed,
        vec![
            StorageOp::QueryCapacity,
            StorageOp::OpenVolume,
            StorageOp::OpenRootDir,
            StorageOp::CloseVolume,
        ]
    );
    assert_eq!(s.report(), Some(Err(StorageError::Filesystem)));
}

#[test]
fn failed_file_open_closes_dir_then_volume() {
    let mut s = StorageSession::new();
    let performed = drive(
        &mut s,
        &[
            StorageOutcome::Capacity(1_000_000),
            StorageOutcome::Completed,
            StorageOutcome::Completed,
            StorageOutcome::Failed(StorageError::Filesystem),
            StorageOutcome::Completed,
            StorageOutcome::Completed,
        ],
    );
    assert_eq!(
        performed,
        vec![
            StorageOp::QueryCapacity,
            StorageOp::OpenVolume,
            StorageOp::OpenRootDir,
            StorageOp::OpenFile,
            StorageOp::CloseDir,
            StorageOp::CloseVolume,
        ]
    );
    assert_eq!(s.report(), Some(Err(StorageError::Filesystem)));
}

#[test]
fn first_error_wins() {
    let mut s = StorageSession::new();
    drive(
        &mut s,
        &[
            StorageOutcome::Capacity(1_000_000),
            StorageOutcome::Completed,
            StorageOutcome::Completed,
            StorageOutcome::Completed,
            StorageOutcome::Failed(StorageError::Device),
            StorageOutcome::Failed(StorageError::Filesystem),
            StorageOutcome::Failed(StorageError::Filesystem),
            StorageOutcome::Failed(StorageError::Filesystem),
        ],
    );
    assert_eq!(s.report(), Some(Err(StorageError::Device)));
}
