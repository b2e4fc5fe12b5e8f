//! Limits on the work that a peer can cause.

use std::sync::Arc;

use moq::session::limits::{DataStreamTaskLimits, DATA_STREAM_EXCESSIVE_LOAD};
use tokio::sync::Semaphore;

#[test]
fn data_stream_admission_enforces_per_session_and_global_limits() {
    let per_session = DataStreamTaskLimits {
        global: Arc::new(Semaphore::new(8)),
        per_session: 1,
    };
    let permit = per_session.try_admit(0).expect("first stream admitted");
    assert!(per_session.try_admit(1).is_none());
    drop(permit);

    let global = Arc::new(Semaphore::new(2));
    let first_session = DataStreamTaskLimits {
        global: global.clone(),
        per_session: 8,
    };
    let second_session = DataStreamTaskLimits {
        global,
        per_session: 8,
    };
    let first = first_session.try_admit(0).expect("first global permit");
    let second = second_session.try_admit(0).expect("second global permit");
    assert!(first_session.try_admit(1).is_none());
    drop(first);
    assert!(first_session.try_admit(1).is_some());
    drop(second);

    assert_eq!(DATA_STREAM_EXCESSIVE_LOAD, 0x9);
}
