use futures::Future;
use futures::Stream;
use wombo::wombo::{cancel_answer, cancel_signal};
use wombo::utils::{check_initialized, check_not_initialized, uuid_v4};
use wombo::{ThreadOptions, Wombo, WomboError, WomboErrorKind};

#[test]
fn should_create_empty_wombo() {
    let wombo = Wombo::<usize>::new();
    assert!(!wombo.is_running());
}

#[test]
fn should_read_wombo_metadata() {
    let wombo = Wombo::<usize>::new();

    assert!(wombo.id().len() > 0);
    assert!(wombo.core_thread_id().is_none());
    assert!(!wombo.is_running());
}

#[test]
fn should_error_uninitialized_cancel() {
    let wombo = Wombo::<usize>::new();
    let res = wombo.cancel();

    assert!(res.is_err());
}

#[test]
fn should_error_uninitialized_exit() {
    let wombo = Wombo::<usize>::new();
    let res = wombo.on_exit();

    assert!(res.is_err());
}

#[test]
fn uninitialized_cancel_says_not_initialized() {
    let wombo = Wombo::<usize>::new();
    let err = wombo.cancel().unwrap_err();
    assert_eq!(*err.kind(), WomboErrorKind::NotInitialized);
    assert_eq!(err.to_string(), "Not Initialized: Wombo not initialized.");
    let err = wombo.on_exit().unwrap_err();
    assert_eq!(err.to_string(), "Not Initialized: Wombo not initialized.");
}

#[test]
fn id_is_a_version_4_uuid() {
    let wombo = Wombo::<usize>::new();
    let id: &str = wombo.id().as_str();
    assert_eq!(id.len(), 36);
    for (i, c) in id.chars().enumerate() {
        if i == 8 || i == 13 || i == 18 || i == 23 {
            assert_eq!(c, '-');
        } else if i == 14 {
            assert_eq!(c, '4');
        } else {
            assert!(c.is_ascii_digit() || ('a'..='f').contains(&c));
        }
    }
    assert_ne!(uuid_v4(), uuid_v4());
}

#[test]
fn clones_share_identity_and_state() {
    let wombo = Wombo::<usize>::new();
    let other = Wombo::<usize>::new();
    let copy = wombo.clone();
    assert!(copy == wombo);
    assert!(other != wombo);
    assert_eq!(copy.id().as_str(), wombo.id().as_str());

    let handle = wombo.prepare_spawn().unwrap();
    handle.enter();
    assert!(copy.is_running());
    let _ = handle.leave(None);
    assert!(!copy.is_running());
}

#[test]
fn loop_lifecycle_reports_result_and_allows_respawn() {
    let wombo = Wombo::<usize>::new();
    let handle = wombo.prepare_spawn().unwrap();
    assert!(!wombo.is_running());

    handle.enter();
    assert!(wombo.is_running());
    assert!(wombo.core_thread_id().is_some());
    assert!(check_initialized(&std::sync::Arc::new(parking_lot::RwLock::new(Some(1)))).is_ok());

    let again = wombo.prepare_spawn().err().unwrap();
    assert_eq!(again.to_string(), "Not Initialized: Wombo already initialized.");

    let unarmed = wombo.cancel().unwrap_err();
    assert_eq!(unarmed.to_string(), "Not Initialized: Cancel sender not initialized.");

    let (tx, rx) = futures::sync::mpsc::unbounded::<bool>();
    handle.arm_cancel(tx);
    assert!(wombo.cancel().is_ok());
    let (first, _rest) = rx.into_future().wait().ok().unwrap();
    assert_eq!(first, Some(true));

    // the cancel sender is used up by the first cancel
    let used = wombo.cancel().unwrap_err();
    assert_eq!(used, WomboError::new(WomboErrorKind::NotInitialized, "Cancel sender not initialized."));

    let exit = wombo.on_exit().unwrap();
    assert_eq!(handle.leave(Some(7)), None);
    assert_eq!(exit.wait().unwrap(), Some(7));

    assert!(!wombo.is_running());
    assert!(wombo.core_thread_id().is_none());
    assert!(wombo.prepare_spawn().is_ok());
}

#[test]
fn cancel_whose_receiver_is_gone_is_unknown() {
    let wombo = Wombo::<usize>::new();
    let handle = wombo.prepare_spawn().unwrap();
    handle.enter();
    let (tx, rx) = futures::sync::mpsc::unbounded::<bool>();
    drop(rx);
    handle.arm_cancel(tx);
    let err = wombo.cancel().unwrap_err();
    assert_eq!(*err.kind(), WomboErrorKind::Unknown);
    assert_eq!(err.to_string(), "Unknown: Error sending cancel command.");
}

#[test]
fn exit_report_to_a_dropped_receiver_comes_back() {
    let wombo = Wombo::<usize>::new();
    let handle = wombo.prepare_spawn().unwrap();
    handle.enter();
    let exit = wombo.on_exit().unwrap();
    drop(exit);
    assert_eq!(handle.leave(Some(5)), Some(Some(5)));
}

#[test]
fn exit_report_without_receiver_is_dropped() {
    let wombo = Wombo::<usize>::new();
    let handle = wombo.prepare_spawn().unwrap();
    handle.enter();
    assert_eq!(handle.leave(Some(5)), None);
}

#[test]
fn second_exit_receiver_replaces_first() {
    let wombo = Wombo::<usize>::new();
    let handle = wombo.prepare_spawn().unwrap();
    handle.enter();
    let first = wombo.on_exit().unwrap();
    let second = wombo.on_exit().unwrap();
    assert_eq!(handle.leave(Some(3)), None);
    assert!(first.wait().is_err());
    assert_eq!(second.wait().unwrap(), Some(3));
}

#[test]
fn checks_on_a_cell() {
    let idle = std::sync::Arc::new(parking_lot::RwLock::new(None));
    assert!(check_not_initialized(&idle).is_ok());
    assert_eq!(check_initialized(&idle).unwrap_err().to_string(), "Not Initialized: Wombo not initialized.");
    let running = std::sync::Arc::new(parking_lot::RwLock::new(Some(4usize)));
    assert_eq!(
        check_not_initialized(&running).unwrap_err().to_string(),
        "Not Initialized: Wombo already initialized."
    );
}

#[test]
fn thread_options_keep_name_and_stack_size() {
    let options = ThreadOptions::new("loop-1", None);
    assert_eq!(options.name, "loop-1");
    assert_eq!(options.stack_size, None);
    let sized = ThreadOptions::new("loop-2", Some(1 << 20));
    assert_eq!(sized.stack_size, Some(1 << 20));
    assert!(sized.clone() == sized);
    assert!(sized != options);
}

#[test]
fn running_is_whether_the_cell_holds_an_id() {
    assert!(wombo::utils::running_of(Some(3)));
    assert!(!wombo::utils::running_of(None));
}

#[test]
fn cancel_sends_true_and_answers_by_what_it_found() {
    assert!(cancel_signal());
    assert!(cancel_answer(true, true, true).is_ok());
    assert_eq!(cancel_answer(false, true, true).unwrap_err().to_string(), "Not Initialized: Wombo not initialized.");
    assert_eq!(
        cancel_answer(true, false, true).unwrap_err().to_string(),
        "Not Initialized: Cancel sender not initialized."
    );
    assert_eq!(cancel_answer(true, true, false).unwrap_err().to_string(), "Unknown: Error sending cancel command.");
}

#[test]
fn id_variant_digit() {
    for _ in 0..32 {
        let id = uuid_v4();
        let c = id.chars().nth(19).unwrap();
        assert!(c == '8' || c == '9' || c == 'a' || c == 'b');
    }
}
