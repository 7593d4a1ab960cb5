use studiole_report::{Attach, ErrorContext, InnerError, OuterError, StructuredError};

#[test]
fn structured_error_display() {
    // Arrange
    let error = StructuredError::new(OuterError::Operation);
    // Act
    let display = error.to_string();
    // Assert
    assert_eq!(display, "Outer operation failed");
}

#[test]
fn structured_error_display__with_attach() {
    // Arrange
    let error = StructuredError::new(OuterError::Operation)
        .attach("path", "/tmp/file.txt")
        .attach("retries", 3);
    // Act
    let display = error.to_string();
    // Assert
    assert_eq!(
        display,
        "Outer operation failed\n▷ path: /tmp/file.txt\n▷ retries: 3"
    );
}

#[test]
fn structured_error_debug__with_source() {
    // Arrange
    let inner = StructuredError::new(InnerError::Operation);
    let outer = inner.change_context(OuterError::Operation);
    // Act
    let debug = outer.debug_string();
    // Assert
    assert_eq!(
        debug,
        "Outer operation failed\n  Caused by: Inner operation failed"
    );
}

#[test]
fn structured_error_diagnostic_code() {
    // Arrange
    let error = StructuredError::new(OuterError::Operation);
    // Act
    let code = error.code().expect("should have code").to_string();
    // Assert
    assert_eq!(code, "studiole_report::OuterError::Operation");
}

#[test]
fn structured_error_current_context() {
    // Arrange
    let error = StructuredError::new(OuterError::Operation);
    // Act
    let context = error.current_context();
    // Assert
    assert_eq!(context, OuterError::Operation.message());
    assert_eq!(
        error.code().expect("should have code"),
        "studiole_report::OuterError::Operation"
    );
}
