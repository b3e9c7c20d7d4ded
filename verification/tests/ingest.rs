use file_ingest::ingest::{
    start, step, IngestAction, IngestError, IngestEvent, IngestState, SelectionOutcome,
};
use file_ingest::response::BinaryResponse;

/// Drives one whole invocation the way a host shell would: `outcome` plays
/// the native dialog's answer, `read` plays the filesystem.
fn run_operation(
    outcome: SelectionOutcome,
    read: impl FnOnce(&str) -> Result<Vec<u8>, String>,
) -> Result<Vec<u8>, IngestError> {
    let (state, action) = start();
    assert!(matches!(state, IngestState::AwaitingSelection));
    assert!(matches!(action, IngestAction::ShowDialog));
    let (state, action) = step(state, IngestEvent::DialogClosed { outcome });
    match action {
        IngestAction::ReadFile { path } => {
            let result = read(&path);
            let (state, action) = step(state, IngestEvent::ReadFinished { result });
            assert!(matches!(action, IngestAction::Finish));
            match state {
                IngestState::Done { response } => Ok(response.into_bytes()),
                IngestState::Failed { error } => Err(error),
                _ => panic!("read finished but the state is not terminal"),
            }
        }
        IngestAction::Finish => match state {
            IngestState::Failed { error } => Err(error),
            _ => panic!("no file to read, yet the machine did not settle on a fault"),
        },
        IngestAction::ShowDialog => panic!("dialog already closed"),
    }
}

#[test]
fn successful_pick_round_trip() {
    let picked = SelectionOutcome::Selected {
        path: String::from("/home/user/hello.txt"),
    };
    let got = run_operation(picked, |path| {
        assert_eq!(path, "/home/user/hello.txt");
        Ok(b"hello".to_vec())
    });
    assert_eq!(got, Ok(vec![0x68, 0x65, 0x6C, 0x6C, 0x6F]));
}

#[test]
fn empty_file_gives_empty_payload() {
    let picked = SelectionOutcome::Selected {
        path: String::from("/tmp/empty.bin"),
    };
    let got = run_operation(picked, |_| Ok(Vec::new()));
    assert_eq!(got, Ok(Vec::new()));
}

#[test]
fn cancellation_is_recoverable() {
    let got = run_operation(SelectionOutcome::Dismissed, |_| {
        panic!("nothing was selected, so nothing may be read")
    });
    assert_eq!(got, Err(IngestError::NoSelection));
}

#[test]
fn unresolvable_handle_is_a_typed_fault() {
    let got = run_operation(SelectionOutcome::PathUnresolvable, |_| {
        panic!("no usable path, so nothing may be read")
    });
    assert_eq!(got, Err(IngestError::PathResolution));
}

#[test]
fn unreadable_file_identifies_the_path() {
    let picked = SelectionOutcome::Selected {
        path: String::from("/tmp/deleted-meanwhile.dat"),
    };
    let got = run_operation(picked, |_| Err(String::from("no such file or directory")));
    assert_eq!(
        got,
        Err(IngestError::ReadFailure {
            path: String::from("/tmp/deleted-meanwhile.dat"),
            reason: String::from("no such file or directory"),
        })
    );
}

/// A small deterministic pseudo-random byte stream (a linear congruential
/// generator), standing in for an arbitrary large file.
fn pseudo_random_bytes(len: usize, seed: u64) -> Vec<u8> {
    let mut state = seed;
    let mut out = Vec::with_capacity(len);
    for _ in 0..len {
        state = state
            .wrapping_mul(6364136223846793005)
            .wrapping_add(1442695040888963407);
        out.push((state >> 56) as u8);
    }
    out
}

#[test]
fn large_file_integrity() {
    let megabytes = 4;
    let len = megabytes * 1024 * 1024;
    let bytes = pseudo_random_bytes(len, 0x5EED);
    let picked = SelectionOutcome::Selected {
        path: String::from("/data/big.bin"),
    };
    let expected = bytes.clone();
    let got = run_operation(picked, move |_| Ok(bytes)).unwrap();
    assert_eq!(got.len(), len);
    assert!(got == expected);
}

#[test]
fn no_state_retained_between_invocations() {
    let first = run_operation(
        SelectionOutcome::Selected {
            path: String::from("/tmp/first.txt"),
        },
        |_| Ok(b"first payload".to_vec()),
    );
    let second = run_operation(
        SelectionOutcome::Selected {
            path: String::from("/tmp/second.txt"),
        },
        |_| Ok(b"second".to_vec()),
    );
    assert_eq!(first, Ok(b"first payload".to_vec()));
    assert_eq!(second, Ok(b"second".to_vec()));
    assert_ne!(first, second);
}

#[test]
fn every_invocation_starts_fresh() {
    let (state, action) = start();
    assert!(matches!(state, IngestState::AwaitingSelection));
    assert!(matches!(action, IngestAction::ShowDialog));
    // settle an invocation, then open another: same fresh opening
    let _ = run_operation(SelectionOutcome::Dismissed, |_| Ok(Vec::new()));
    let (state, action) = start();
    assert!(matches!(state, IngestState::AwaitingSelection));
    assert!(matches!(action, IngestAction::ShowDialog));
}

#[test]
fn response_round_trip() {
    let response = BinaryResponse::new(vec![1, 2, 3]);
    assert_eq!(response.len(), 3);
    assert_eq!(response.into_bytes(), vec![1, 2, 3]);
}

#[test]
fn response_of_empty_buffer() {
    let response = BinaryResponse::new(Vec::new());
    assert_eq!(response.len(), 0);
    assert_eq!(response.into_bytes(), Vec::<u8>::new());
}
