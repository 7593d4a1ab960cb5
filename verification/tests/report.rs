use studiole_report::{Attach, InnerError, OuterError, Report, StructuredError};

#[test]
fn report_display() {
    // Arrange
    let report = Report::new(OuterError::Operation);
    // Act
    let display = report.to_string();
    // Assert
    assert_eq!(display, "Outer operation failed");
}

#[test]
fn report_display__with_attach() {
    // Arrange
    let report = Report::new(OuterError::Operation)
        .attach("path", "/tmp/file.txt")
        .attach("retries", 3);
    // Act
    let display = report.to_string();
    // Assert
    assert_eq!(
        display,
        "Outer operation failed\n▷ path: /tmp/file.txt\n▷ retries: 3"
    );
}

#[test]
fn report_display__with_attach_with() {
    // Arrange
    let report = Report::new(OuterError::Operation).attach_with("count", || 42);
    // Act
    let display = report.to_string();
    // Assert
    assert_eq!(display, "Outer operation failed\n▷ count: 42");
}

#[test]
fn report_debug() {
    // Arrange
    let report = Report::new(OuterError::Operation);
    // Act
    let debug = report.debug_string();
    // Assert
    assert_eq!(debug, "Outer operation failed");
}

#[test]
fn report_debug__with_source() {
    // Arrange
    let inner = Report::new(InnerError::Operation);
    let outer = inner.change_context(OuterError::Operation);
    // Act
    let debug = outer.debug_string();
    // Assert
    assert_eq!(
        debug,
        "Outer operation failed\n  Caused by: Inner operation failed"
    );
}

#[test]
fn report_debug__with_additional_and_source() {
    // Arrange
    let inner = Report::new(InnerError::Operation).attach("key", "inner_val");
    let outer = inner
        .change_context(OuterError::Operation)
        .attach("key", "outer_val");
    // Act
    let debug = outer.debug_string();
    // Assert
    assert_eq!(
        debug,
        "Outer operation failed\n▷ key: outer_val\n  Caused by: Inner operation failed\n▷ key: inner_val"
    );
}

#[test]
fn report_source__none_without_wrapping() {
    // Arrange
    let report = Report::new(OuterError::Operation);
    // Act
    let source = report.source();
    // Assert
    assert!(source.is_none());
}

#[test]
fn report_source__set_after_change_context() {
    // Arrange
    let inner = Report::new(InnerError::Operation);
    let outer = inner.change_context(OuterError::Operation);
    // Act
    let source = outer.source().expect("should have source");
    // Assert
    assert_eq!(source.to_string(), "Inner operation failed");
}

#[test]
fn report_change_context__preserves_context() {
    // Arrange
    let inner = Report::new(InnerError::Operation);
    // Act
    let outer = inner.change_context(OuterError::Operation);
    // Assert
    assert_eq!(*outer.current_context(), OuterError::Operation);
}

#[test]
fn report_change_context__clears_additional() {
    // Arrange
    let inner = Report::new(InnerError::Operation).attach("key", "value");
    // Act
    let outer = inner.change_context(OuterError::Operation);
    // Assert
    assert_eq!(outer.attached().len(), 0);
}

#[test]
fn report_attach_path() {
    // Arrange
    let report = Report::new(OuterError::Operation).attach_path("/tmp/data.bin");
    // Act
    let display = report.to_string();
    // Assert
    assert_eq!(display, "Outer operation failed\n▷ path: /tmp/data.bin");
}

#[test]
fn report_from__converts_error_via_question_mark() {
    // Arrange
    fn fallible() -> Result<(), OuterError> {
        Err(OuterError::Operation)
    }
    fn wrapper() -> Result<(), Report<OuterError>> {
        fallible()?;
        Ok(())
    }
    // Act
    let report = wrapper().expect_err("should be err");
    // Assert
    assert_eq!(*report.current_context(), OuterError::Operation);
    assert!(report.source().is_none());
}

#[test]
fn structured_error_from() {
    // Arrange
    let report = Report::new(OuterError::Operation).attach("key", "value");
    // Act
    let error = StructuredError::from(report);
    // Assert
    assert_eq!(error.to_string(), "Outer operation failed\n▷ key: value");
}
