use std::io;
use studiole_report::{OuterError, ResultExt, StructuredError};

#[test]
fn result_ext_change_context() {
    // Arrange
    let expected = "broken";
    let input: Result<i32, io::Error> = Err(io::Error::other(expected));
    // Act
    let report = input
        .change_context(OuterError::Operation)
        .expect_err("should be err");
    // Assert
    assert_eq!(*report.current_context(), OuterError::Operation);
    let source = report.source().expect("should have source");
    assert_eq!(source.to_string(), expected);
}

#[test]
fn result_ext_change_context__works_with_from() {
    // Arrange
    let expected = "broken";
    let result: Result<i32, io::Error> = Err(io::Error::other(expected));
    let report = result
        .change_context(OuterError::Operation)
        .expect_err("should be err");
    // Act
    let error = StructuredError::from(report);
    // Assert
    assert_eq!(error.to_string(), "Outer operation failed");
}
