use std::cell::Cell;
use std::io;
use studiole_report::{
    code_from_names, no_color_requested, short_code, strip_ansi_codes, Attach, Attached,
    Attachment, ErrorContext, InnerError, OuterError, Report, ResultExt, StructuredError,
    UnitError,
};

#[test]
fn strip_ansi_codes__removes_color_sequences() {
    assert_eq!(strip_ansi_codes("\x1B[31mred\x1B[0m text"), "red text");
}

#[test]
fn strip_ansi_codes__keeps_plain_text() {
    assert_eq!(strip_ansi_codes("plain × text ▷"), "plain × text ▷");
}

#[test]
fn strip_ansi_codes__unterminated_sequence_runs_to_end() {
    assert_eq!(strip_ansi_codes("ab\x1B[12;4"), "ab");
}

#[test]
fn strip_ansi_codes__sequence_ends_at_lowercase_letter() {
    assert_eq!(strip_ansi_codes("\x1B[2Kx\x1B[1;2hy"), "xy");
}

#[test]
fn strip_ansi_codes__is_idempotent() {
    let once = strip_ansi_codes("\x1B[1m\x1B[4mbold\x1B[0m and \x1B[32mgreen");
    assert_eq!(once, "bold and green");
    assert_eq!(strip_ansi_codes(&once), once);
}

#[test]
fn strip_ansi_codes__empty() {
    assert_eq!(strip_ansi_codes(""), "");
}

#[test]
fn code_from_names__enum_variant() {
    assert_eq!(code_from_names("a::b::C", "D(1)"), "a::C::D");
}

#[test]
fn code_from_names__struct() {
    assert_eq!(code_from_names("a::b::C", "C"), "a::C");
}

#[test]
fn code_from_names__struct_with_fields() {
    assert_eq!(code_from_names("krate::Thing", "Thing { x: 1 }"), "krate::Thing");
}

#[test]
fn code_from_names__no_separator() {
    assert_eq!(code_from_names("Foo", "Foo"), "Foo::Foo");
}

#[test]
fn code_from_names__triple_colon_splits_from_the_left() {
    assert_eq!(code_from_names("a:::b", ":b"), "a:::b");
}

#[test]
fn code_from_names__empty_debug_text() {
    assert_eq!(code_from_names("a::B", ""), "a::B::");
}

#[test]
fn short_code__io_error() {
    let error = io::Error::other("broken");
    assert_eq!(short_code(&error), "std::Error::Custom");
}

#[test]
fn short_code__inner_error() {
    assert_eq!(short_code(&InnerError::Operation), "studiole_report::InnerError::Operation");
}

#[test]
fn context_messages() {
    assert_eq!(OuterError::Operation.message(), "Outer operation failed");
    assert_eq!(InnerError::Operation.message(), "Inner operation failed");
    assert_eq!(UnitError.message(), "Unit struct error");
    assert_eq!(io::Error::other("disk full").message(), "disk full");
}

#[test]
fn attachment_reads_as_name_and_value() {
    let attachment = Attachment::new("retries", 3);
    assert_eq!(attachment.name(), "retries");
    assert_eq!(attachment.value(), "3");
    assert_eq!(attachment.to_string(), "retries: 3");
}

#[test]
fn attachment_with_evaluates_value() {
    let attachment = Attachment::with(String::from("count"), || 40 + 2);
    assert_eq!(attachment.to_string(), "count: 42");
}

#[test]
fn attachment_path_is_named_path() {
    let attachment = Attachment::path("/tmp/data.bin");
    assert_eq!(attachment.to_string(), "path: /tmp/data.bin");
}

#[test]
fn attachment_path_takes_path_values() {
    let path = std::path::PathBuf::from("/var/log/app.log");
    assert_eq!(Attachment::path(&path).to_string(), "path: /var/log/app.log");
    assert_eq!(
        Attachment::path(std::path::Path::new("relative/dir")).to_string(),
        "path: relative/dir"
    );
}

#[test]
fn attachment_path_text_is_named_path() {
    let attachment = Attachment::path_text("/tmp/data.bin");
    assert_eq!(attachment.name(), "path");
    assert_eq!(attachment.value(), "/tmp/data.bin");
}

#[test]
fn attached_keeps_order() {
    let mut attached = Attached::new();
    assert!(attached.is_empty());
    attached.push(Attachment::new("a", 1));
    attached.push(Attachment::new("b", 2));
    assert_eq!(attached.len(), 2);
    assert_eq!(attached.get(0).name(), "a");
    assert_eq!(attached.get(1).value(), "2");
    assert_eq!(attached.to_string(), "\n▷ a: 1\n▷ b: 2");
}

#[test]
fn single_layer_reads_alike_in_both_forms() {
    let error = StructuredError::new(OuterError::Operation).attach("key", "value");
    assert_eq!(error.debug_string(), error.to_string());
}

#[test]
fn wrapped_error_reads_over_its_source() {
    let inner = StructuredError::new(InnerError::Operation).attach("k", "v");
    let inner_debug = inner.debug_string();
    let outer = inner.change_context(OuterError::Operation);
    assert_eq!(
        outer.debug_string(),
        format!("{}\n  Caused by: {}", outer.to_string(), inner_debug)
    );
}

#[test]
fn three_layer_chain() {
    let report = Report::new(UnitError)
        .change_context(InnerError::Operation)
        .attach("step", 2)
        .change_context(OuterError::Operation);
    assert_eq!(
        report.debug_string(),
        "Outer operation failed\n  Caused by: Inner operation failed\n▷ step: 2\n  Caused by: Unit struct error"
    );
    let middle = report.source().expect("should have source");
    assert_eq!(middle.current_context(), "Inner operation failed");
    let bottom = middle.source().expect("should have source");
    assert_eq!(bottom.current_context(), "Unit struct error");
    assert!(bottom.source().is_none());
    assert_eq!(bottom.code(), Some("studiole_report::UnitError"));
}

#[test]
fn attach_keeps_context_and_code() {
    let report = Report::new(InnerError::Operation).change_context(OuterError::Operation);
    let code = report.code().map(|c| c.to_owned());
    let report = report.attach("key", "value");
    assert_eq!(*report.current_context(), OuterError::Operation);
    assert_eq!(report.code().map(|c| c.to_owned()), code);
    assert_eq!(report.source().expect("should have source").attached().len(), 0);
}

#[test]
fn attach_with_on_ok_does_not_evaluate() {
    let calls = Cell::new(0);
    let result: Result<i32, Report<OuterError>> = Ok(1);
    let result = result.attach_with("count", || {
        calls.set(calls.get() + 1);
        5
    });
    assert_eq!(calls.get(), 0);
    assert!(matches!(result, Ok(1)));
}

#[test]
fn attach_with_on_err_evaluates_once() {
    let calls = Cell::new(0);
    let result: Result<i32, Report<OuterError>> = Err(Report::new(OuterError::Operation));
    let result = result.attach_with("count", || {
        calls.set(calls.get() + 1);
        5
    });
    assert_eq!(calls.get(), 1);
    match result {
        Err(report) => assert_eq!(report.to_string(), "Outer operation failed\n▷ count: 5"),
        Ok(_) => panic!("should be err"),
    }
}

#[test]
fn nested_result_attach_reaches_the_error() {
    let result: Result<i32, Result<u8, StructuredError>> =
        Err(Err(StructuredError::new(OuterError::Operation)));
    let result = result.attach("key", "value");
    match result {
        Err(Err(error)) => assert_eq!(error.attached().len(), 1),
        _ => panic!("should be err"),
    }
}

#[test]
fn result_ext_change_context__passes_ok_through() {
    let result: Result<i32, io::Error> = Ok(3);
    let result = result.change_context(OuterError::Operation);
    assert!(matches!(result, Ok(3)));
}

#[test]
fn result_ext_change_context__debug() {
    let result: Result<i32, io::Error> = Err(io::Error::other("broken"));
    let report = result
        .change_context(OuterError::Operation)
        .expect_err("should be err");
    assert_eq!(
        report.debug_string(),
        "Outer operation failed\n  Caused by: broken"
    );
    assert_eq!(
        report.source().expect("should have source").code(),
        Some("std::Error::Custom")
    );
}

#[test]
fn from_parts_builds_layer_over_source() {
    let mut attached = Attached::new();
    attached.push(Attachment::new("key", "value"));
    let source = StructuredError::new(InnerError::Operation);
    let error = StructuredError::from_parts(
        String::from("Custom message"),
        String::from("my::Code"),
        attached,
        Some(source),
    );
    assert_eq!(error.to_string(), "Custom message\n▷ key: value");
    assert_eq!(error.code(), Some("my::Code"));
    assert_eq!(
        error.debug_string(),
        "Custom message\n▷ key: value\n  Caused by: Inner operation failed"
    );
}

#[test]
fn report_as_error_and_from_agree() {
    let report = Report::new(OuterError::Operation).attach("a", "b");
    let text = report.as_error().debug_string();
    let error = StructuredError::from(report);
    assert_eq!(error.debug_string(), text);
}

#[test]
fn no_color_values() {
    assert!(!no_color_requested(None));
    assert!(!no_color_requested(Some("0")));
    assert!(!no_color_requested(Some("false")));
    assert!(!no_color_requested(Some("no")));
    assert!(no_color_requested(Some("1")));
    assert!(no_color_requested(Some("")));
    assert!(no_color_requested(Some("NO")));
}
