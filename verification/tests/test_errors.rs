//! The error taxonomy: predicates, display texts, diagnostic rewriting, and
//! the translation of native return codes.

use dds_connector::{
    ConnectorError, ConnectorIndex, ErrorKind, InvokeResult, ReturnCode,
};
use dds_connector::result::invalid_field_error_from_message;

#[test]
fn error_predicates_match_their_constructors() {
    let timeout = ConnectorError::from_kind(ErrorKind::timeout_error(), None);
    assert!(timeout.is_timeout());
    assert!(!timeout.is_entity_not_found());
    assert!(!timeout.is_field_not_found());
    assert!(!timeout.is_native_error());
    assert!(!timeout.is_stale_resource());

    let entity = ConnectorError::from_kind(ErrorKind::entity_not_found_error("reader"), None);
    assert!(entity.is_entity_not_found());
    assert!(!entity.is_field_not_found());

    let field = ConnectorError::from_kind(ErrorKind::field_not_found_error("long_field"), None);
    assert!(field.is_field_not_found());
    assert!(!field.is_entity_not_found());

    let native = ConnectorError::from_kind(ErrorKind::native_error(ReturnCode::Error), None);
    assert!(native.is_native_error());
    assert!(native.is_native_error_code(ReturnCode::Error));
    assert!(!native.is_native_error_code(ReturnCode::NoData));

    let stale = ConnectorError::from_kind(ErrorKind::stale_entity_error("superseded"), None);
    assert!(stale.is_stale_resource());
    assert!(!stale.is_native_error());
}

#[test]
fn describe_spells_out_each_kind() {
    let timeout = ConnectorError::from_kind(ErrorKind::timeout_error(), None);
    assert_eq!(timeout.describe(), "Operation timed out");

    let entity = ConnectorError::from_kind(ErrorKind::entity_not_found_error("Sub::Reader"), None);
    assert_eq!(entity.describe(), "Entity 'Sub::Reader' was not found");

    let native = ConnectorError::from_kind(
        ErrorKind::native_error(ReturnCode::IllegalOperation),
        None,
    );
    assert_eq!(native.describe(), "Native error with code 'Illegal Operation'");

    let unknown = ConnectorError::from_kind(
        ErrorKind::native_error(ReturnCode::Unknown(77)),
        None,
    );
    assert_eq!(unknown.describe(), "Native error with code 'Unknown error code: 77'");

    let busy = ConnectorError::from_kind(ErrorKind::entity_busy_error("held elsewhere"), None);
    assert_eq!(busy.describe(), "Entity is busy: held elsewhere");

    let lock = ConnectorError::from_kind(ErrorKind::lock_poisoned_error("holder panicked"), None);
    assert_eq!(lock.describe(), "Lock is busy: holder panicked");

    let stale = ConnectorError::from_kind(ErrorKind::stale_entity_error("superseded"), None);
    assert_eq!(stale.describe(), "Stale resource: superseded");

    let argument = ConnectorError::from_kind(ErrorKind::invalid_argument_error("bad index"), None);
    assert_eq!(argument.describe(), "Invalid argument: bad index");

    let assertion = ConnectorError::from_kind(ErrorKind::assertion_failed_error("bug"), None);
    assert_eq!(assertion.describe(), "Assertion failed: bug");

    let with_message = ConnectorError::from_kind(
        ErrorKind::timeout_error(),
        Some("wait expired".to_string()),
    );
    assert_eq!(
        with_message.describe(),
        "Operation timed out - Last error message: wait expired"
    );
}

#[test]
fn field_name_extracted_from_sample_diagnostic() {
    let message =
        "Cannot find a member (name = \"non_existent_field\", id = 0) in type SimpleStruct\n";
    assert_eq!(invalid_field_error_from_message(message), Some("non_existent_field"));
}

#[test]
fn field_name_extracted_from_info_diagnostic() {
    let message = "ERROR RTILuaSampleInfo_get:Unknown SampleInfo field: unknown_field\n";
    assert_eq!(invalid_field_error_from_message(message), Some(" unknown_field"));
}

#[test]
fn unrelated_diagnostics_extract_nothing() {
    assert_eq!(invalid_field_error_from_message("something else went wrong"), None);
    assert_eq!(
        invalid_field_error_from_message("Cannot find a member but no name follows"),
        None
    );
    assert_eq!(invalid_field_error_from_message(""), None);
}

#[test]
fn unknown_field_diagnostic_rewrites_the_error_kind() {
    let message =
        "Cannot find a member (name = \"non_existent_field\", id = 0) in type SimpleStruct\n";
    let err = ConnectorError::from_kind(
        ErrorKind::native_error(ReturnCode::Error),
        Some(message.to_string()),
    );
    assert!(err.is_field_not_found());
    assert!(!err.is_native_error());
    match &err.kind {
        ErrorKind::NotFound { name, .. } => assert_eq!(name, "non_existent_field"),
        other => panic!("expected a field-not-found kind, got {:?}", other),
    }
    assert_eq!(err.last_error_message(), Some(message));
}

#[test]
fn return_codes_translate_both_ways() {
    assert_eq!(ReturnCode::from_native(0), ReturnCode::Success);
    assert_eq!(ReturnCode::from_native(1), ReturnCode::Error);
    assert_eq!(ReturnCode::from_native(9), ReturnCode::AlreadyDeleted);
    assert_eq!(ReturnCode::from_native(10), ReturnCode::Timeout);
    assert_eq!(ReturnCode::from_native(11), ReturnCode::NoData);
    assert_eq!(ReturnCode::from_native(12), ReturnCode::IllegalOperation);
    for collapsed in [2, 3, 4, 5, 6, 7, 8, 1000] {
        assert_eq!(ReturnCode::from_native(collapsed), ReturnCode::Error);
    }
    assert_eq!(ReturnCode::from_native(77), ReturnCode::Unknown(77));

    assert_eq!(ReturnCode::Success.as_native(), 0);
    assert_eq!(ReturnCode::Timeout.as_native(), 10);
    assert_eq!(ReturnCode::Unknown(77).as_native(), 77);
    assert_eq!(
        ReturnCode::from_native(ReturnCode::NoData.as_native()),
        ReturnCode::NoData
    );
}

#[test]
fn replies_translate_to_typed_results() {
    assert!(InvokeResult::no_output(0).into_result(None).is_ok());

    let timeout = InvokeResult::no_output(10).into_result(None).unwrap_err();
    assert!(timeout.is_timeout());

    let no_data = InvokeResult::no_output(11).into_result(None).unwrap_err();
    assert!(no_data.is_native_error_code(ReturnCode::NoData));

    let failure = InvokeResult::no_output(1).into_result(None).unwrap_err();
    assert!(failure.is_native_error_code(ReturnCode::Error));

    let unknown = InvokeResult::no_output(999).into_result(None).unwrap_err();
    assert!(unknown.is_native_error_code(ReturnCode::Unknown(999)));

    let value = InvokeResult::with_output(0, 42u32).into_result(None).unwrap();
    assert_eq!(value, 42);
}

#[test]
fn string_replies_require_a_string() {
    let ok = InvokeResult::with_string_return(Some("hello".to_string()))
        .into_string(None)
        .unwrap();
    assert_eq!(ok, "hello");

    let missing = InvokeResult::with_string_return(None).into_string(None).unwrap_err();
    assert_eq!(missing.describe(), "Invalid conversion: string conversion failed");
}

#[test]
fn indices_convert_to_the_one_based_convention() {
    assert_eq!(ConnectorIndex::from_zero_based(0).unwrap().0, 1);
    assert_eq!(ConnectorIndex::from_zero_based(5).unwrap().0, 6);
    assert_eq!(
        ConnectorIndex::from_zero_based((i32::MAX - 1) as usize).unwrap().0,
        i32::MAX
    );
    let err = ConnectorIndex::from_zero_based(i32::MAX as usize).unwrap_err();
    assert_eq!(err.describe(), "Invalid argument: index exceeds maximum allowed value");
    assert!(ConnectorIndex::from_zero_based(usize::MAX).is_err());
}
