use studiole_report::{short_code, OuterError, UnitError};

#[test]
fn short_code__enum_variant() {
    // Act
    let code = short_code(&OuterError::Operation);
    // Assert
    assert_eq!(code, "studiole_report::OuterError::Operation");
}

#[test]
fn short_code__unit_struct() {
    // Act
    let code = short_code(&UnitError);
    // Assert
    assert_eq!(code, "studiole_report::UnitError");
}
