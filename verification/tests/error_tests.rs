use lance_datafusion::error::ExecError;

#[test]
fn error_messages_are_fixed() {
    assert_eq!(
        ExecError::AlreadyConsumed.message(),
        "OneShotExec has already been executed",
    );
    assert_eq!(ExecError::Unsupported.message(), "unsupported operation");
    assert_eq!(
        ExecError::PreconditionViolation.message(),
        "single-partition driver precondition violated",
    );
    assert_eq!(ExecError::Execution("engine said no".to_string()).message(), "engine said no");
    assert_eq!(ExecError::Io("could not start".to_string()).message(), "could not start");
}
