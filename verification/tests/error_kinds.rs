use netpwn::errors::LaunchError;

#[test]
fn every_kind_has_its_message() {
    assert_eq!(
        LaunchError::BindFailure.message(),
        "failed to bind the listening socket"
    );
    assert_eq!(
        LaunchError::UnsupportedExecutable.message(),
        "Unknown executable file type"
    );
    assert_eq!(LaunchError::DebuggerNotFound.message(), "gdb is not installed");
    assert_eq!(
        LaunchError::MalformedEnvSpec.message(),
        "Invalid environment variable passed"
    );
    assert_eq!(
        LaunchError::ProcessReplacementFailure.message(),
        "failed to replace the process image"
    );
}
