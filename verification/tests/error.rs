use pathtrace::error::Error;
use pathtrace::error::ExportFailure;

fn denied() -> std::io::Error {
    std::io::Error::new(std::io::ErrorKind::PermissionDenied, "render.exr: permission denied")
}

#[test]
fn an_io_error_is_a_save_error() {
    let error = Error::from(denied());
    assert!(error.is_io());
    match error {
        Error::ExrSave(cause) => assert_eq!(cause.kind(), std::io::ErrorKind::PermissionDenied),
        Error::ExrOther => panic!("the cause was lost"),
    }
}

#[test]
fn an_io_failure_keeps_its_cause() {
    let error = Error::from(ExportFailure::Io(denied()));
    match error {
        Error::ExrSave(cause) => {
            assert_eq!(cause.kind(), std::io::ErrorKind::PermissionDenied);
            assert_eq!(format!("{}", cause), "render.exr: permission denied");
        }
        Error::ExrOther => panic!("the cause was lost"),
    }
}

#[test]
fn other_failures_are_folded_into_one() {
    assert!(matches!(Error::from(ExportFailure::Aborted), Error::ExrOther));
    assert!(matches!(
        Error::from(ExportFailure::NotSupported("deep data".to_string())),
        Error::ExrOther
    ));
    assert!(matches!(
        Error::from(ExportFailure::Invalid("no channels".to_string())),
        Error::ExrOther
    ));
    assert!(!Error::from(ExportFailure::Aborted).is_io());
}

#[test]
fn message_of_a_save_error_is_the_cause() {
    assert_eq!(Error::from(denied()).message(), "render.exr: permission denied");
}

#[test]
fn message_of_another_error_is_fixed() {
    assert_eq!(Error::ExrOther.message(), "Unhandled EXR error");
}
