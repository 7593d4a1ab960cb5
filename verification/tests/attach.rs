use studiole_report::{Attach, OuterError, Report, StructuredError};

#[test]
fn structured_error_attach() {
    // Arrange
    let error = StructuredError::new(OuterError::Operation);
    // Act
    let error = error.attach("key", "value");
    // Assert
    assert_eq!(error.attached().len(), 1);
}

#[test]
fn report_attach() {
    // Arrange
    let report = Report::new(OuterError::Operation);
    // Act
    let error = report.attach("key", "value");
    // Assert
    assert_eq!(error.attached().len(), 1);
}

#[test]
fn result_attach__on_err() {
    // Arrange
    let result: Result<i32, Report<OuterError>> = Err(Report::new(OuterError::Operation));
    // Act
    let report = result.attach("key", "value");
    // Assert
    assert_eq!(report.expect_err("should be err").attached().len(), 1);
}

#[test]
fn result_attach__on_ok() {
    // Arrange
    let result: Result<i32, Report<OuterError>> = Ok(42);
    // Act
    let result = result.attach("key", "value");
    // Assert
    match result {
        Ok(value) => assert_eq!(value, 42),
        Err(_) => panic!("should be ok"),
    }
}

#[test]
fn result_attach__attach_path() {
    // Arrange
    let result: Result<i32, Report<OuterError>> = Err(Report::new(OuterError::Operation));
    // Act
    let result = result.attach_path("/tmp/data.bin");
    // Assert
    assert_eq!(result.expect_err("should be err").attached().len(), 1);
}

#[test]
fn result_attach__attach_with() {
    // Arrange
    let result: Result<i32, Report<OuterError>> = Err(Report::new(OuterError::Operation));
    // Act
    let result = result.attach_with("count", || 7);
    // Assert
    assert_eq!(result.expect_err("should be err").attached().len(), 1);
}

#[test]
fn result_attach__structured_error() {
    // Arrange
    let result: Result<i32, StructuredError> = Err(StructuredError::new(OuterError::Operation));
    // Act
    let result = result.attach("file", "test.txt");
    // Assert
    assert_eq!(result.expect_err("should be err").attached().len(), 1);
}
