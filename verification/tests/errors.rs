use futures::sync::mpsc::unbounded;
use futures::sync::oneshot::{channel, Canceled};
use futures::Future;
use wombo::{WomboError, WomboErrorKind};

#[test]
fn kind_labels() {
    assert_eq!(WomboErrorKind::Canceled.to_string(), "Canceled");
    assert_eq!(WomboErrorKind::Unknown.to_string(), "Unknown");
    assert_eq!(WomboErrorKind::SendError.to_string(), "Send Error");
    assert_eq!(WomboErrorKind::NotInitialized.to_string(), "Not Initialized");
}

#[test]
fn error_text_is_kind_colon_details() {
    let e = WomboError::new(WomboErrorKind::SendError, "boom");
    assert_eq!(e.to_string(), "Send Error: boom");
    assert_eq!(*e.kind(), WomboErrorKind::SendError);
    assert_eq!(e.clone(), e);
    assert_ne!(e, WomboError::new(WomboErrorKind::SendError, "bang"));
    assert_ne!(e, WomboError::new(WomboErrorKind::Unknown, "boom"));
}

#[test]
fn shorthand_constructors() {
    assert_eq!(WomboError::new_canceled(), WomboError::new(WomboErrorKind::Canceled, ""));
    assert_eq!(WomboError::new_canceled().to_string(), "Canceled: ");
    assert_eq!(WomboError::new_not_initialized(), WomboError::new(WomboErrorKind::NotInitialized, ""));
}

#[test]
fn from_empty_error() {
    let e = WomboError::from(());
    assert_eq!(e.to_string(), "Unknown: Empty error.");
}

#[test]
fn from_canceled() {
    let (tx, rx) = channel::<u8>();
    drop(tx);
    let canceled: Canceled = rx.wait().unwrap_err();
    let e = WomboError::from(canceled);
    assert_eq!(*e.kind(), WomboErrorKind::Canceled);
    assert_eq!(e.to_string(), "Canceled: oneshot canceled");
}

#[test]
fn from_send_error() {
    let (tx, rx) = unbounded::<()>();
    drop(rx);
    let err = tx.unbounded_send(()).unwrap_err();
    let e = WomboError::from(err);
    assert_eq!(e.to_string(), "Send Error: send failed because receiver is gone");
}

#[test]
fn from_io_error() {
    let io = std::io::Error::new(std::io::ErrorKind::Other, "disk on fire");
    let e = WomboError::from(io);
    assert_eq!(*e.kind(), WomboErrorKind::Unknown);
    assert_eq!(e.to_string(), "Unknown: disk on fire");
}
