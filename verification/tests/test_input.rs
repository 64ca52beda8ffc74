//! The read side: data-operation replies, sample cursors, the valid-only
//! filter, and the field queries a sample builds.

use dds_connector::{
    Connector, InvokeResult, QueryKind, QuerySource, ReturnCode,
};

fn reader() -> dds_connector::Input {
    let mut connector = Connector::new("MyParticipantLibrary::Zero");
    connector.get_input("TestSubscriber::TestReader", true).unwrap()
}

#[test]
fn test_input_basic_operations_no_data() {
    let mut input = reader();

    // An absent-data reply is success with zero samples, for all three
    // data operations.
    assert!(
        input.read(InvokeResult::no_output(11), None).is_ok(),
        "Read operation should succeed (may return 0 samples)"
    );
    assert!(
        input.take(InvokeResult::no_output(11), None).is_ok(),
        "Take operation should succeed (may return 0 samples)"
    );
    assert!(
        input.return_loan(InvokeResult::no_output(11), None).is_ok(),
        "Return loan operation should always succeed"
    );

    assert!(input.read(InvokeResult::no_output(0), None).is_ok());

    let timeout = input.read(InvokeResult::no_output(10), None).unwrap_err();
    assert!(timeout.is_timeout());

    let failure = input.take(InvokeResult::no_output(1), None).unwrap_err();
    assert!(failure.is_native_error_code(ReturnCode::Error));
}

#[test]
fn a_rewritten_absent_data_reply_is_not_tolerated() {
    // The diagnostic rewrite turns the absent-data code into a field error,
    // which the data operations propagate like any other failure.
    let mut input = reader();
    let message =
        "Cannot find a member (name = \"ghost_field\", id = 0) in type SimpleStruct\n";
    let err = input
        .read(InvokeResult::no_output(11), Some(message.to_string()))
        .unwrap_err();
    assert!(err.is_field_not_found());
}

#[test]
fn test_sample_iterator_basic() {
    let input = reader();
    let mut iterator = input.samples(0);

    assert_eq!(iterator.len(), 0, "Empty iterator should have length 0");
    let (lower, upper) = iterator.size_hint();
    assert!(upper.is_some(), "Should have an upper bound");
    assert_eq!(lower, iterator.len(), "len() should match size hint");
    assert_eq!(
        Some(lower),
        upper,
        "Lower and upper should be equal for ExactSizeIterator"
    );
    assert!(
        iterator.next().is_none(),
        "Iterator should be empty, next() should return None"
    );
}

#[test]
fn cursor_length_counts_down_to_exhaustion() {
    let input = reader();
    let mut iterator = input.samples(3);

    assert_eq!(iterator.len(), 3);
    assert_eq!(iterator.next().unwrap().index(), 0);
    assert_eq!(iterator.len(), 2);
    assert_eq!(iterator.next().unwrap().index(), 1);
    assert_eq!(iterator.len(), 1);
    assert_eq!(iterator.next().unwrap().index(), 2);
    assert_eq!(iterator.len(), 0);
    assert!(iterator.next().is_none());
    assert_eq!(iterator.len(), 0);
    assert!(iterator.next().is_none());
}

#[test]
fn valid_only_yields_exactly_the_valid_samples_in_order() {
    let input = reader();
    let validity = vec![false, true, false, true, false];
    let mut valid = input.samples(5).valid_only();

    let (lower, upper) = valid.size_hint();
    assert_eq!(lower, 0);
    assert_eq!(upper, Some(5));

    assert_eq!(valid.next(&validity).unwrap().index(), 1);
    assert_eq!(valid.next(&validity).unwrap().index(), 3);
    assert!(valid.next(&validity).is_none());
    assert!(valid.next(&validity).is_none());
}

#[test]
fn valid_only_with_no_valid_samples_yields_nothing() {
    let input = reader();
    let validity = vec![false, false, false];
    let mut valid = input.samples(3).valid_only();
    assert!(valid.next(&validity).is_none());

    let input = reader();
    let all_valid = vec![true, true];
    let mut valid = input.samples(2).valid_only();
    assert_eq!(valid.next(&all_valid).unwrap().index(), 0);
    assert_eq!(valid.next(&all_valid).unwrap().index(), 1);
    assert!(valid.next(&all_valid).is_none());
}

#[test]
fn sample_accessors_build_one_based_field_queries() {
    let input = reader();
    let mut iterator = input.samples(2);
    let first = iterator.next().unwrap();
    let second = iterator.next().unwrap();

    let query = second.get_boolean(&input, "boolean_field").unwrap();
    assert_eq!(query.entity, "TestSubscriber::TestReader");
    assert_eq!(query.index.0, 2);
    assert_eq!(query.field, "boolean_field");
    assert_eq!(query.source, QuerySource::Data);
    assert_eq!(query.kind, QueryKind::Boolean);

    let number = first.get_number(&input, "long_field").unwrap();
    assert_eq!(number.index.0, 1);
    assert_eq!(number.kind, QueryKind::Number);

    let string = first.get_string(&input, "string_field").unwrap();
    assert_eq!(string.kind, QueryKind::Text);

    let tagged = first.get_value(&input, "union.number").unwrap();
    assert_eq!(tagged.kind, QueryKind::Tagged);
    assert_eq!(tagged.source, QuerySource::Data);

    let json = first.get_value_json(&input, "simple").unwrap();
    assert_eq!(json.kind, QueryKind::Json);

    let info = first.get_info(&input, "source_timestamp").unwrap();
    assert_eq!(info.source, QuerySource::Info);
    assert_eq!(info.kind, QueryKind::Tagged);

    let info_json = first.get_info_json(&input, "sample_identity").unwrap();
    assert_eq!(info_json.source, QuerySource::Info);
    assert_eq!(info_json.kind, QueryKind::Json);

    let validity = first.is_valid(&input).unwrap();
    assert_eq!(validity.field, "valid_data");
    assert_eq!(validity.source, QuerySource::Info);
    assert_eq!(validity.kind, QueryKind::Boolean);

    let whole = first.get_as_json(&input).unwrap();
    assert_eq!(whole.entity, "TestSubscriber::TestReader");
    assert_eq!(whole.index.0, 1);
}

#[test]
fn input_wait_requests_carry_the_clamped_timeout() {
    let input = reader();
    assert_eq!(input.wait().timeout_ms, -1);
    assert_eq!(input.wait_with_timeout(100).timeout_ms, 100);
    assert_eq!(input.wait_with_timeout(u64::MAX).timeout_ms, i32::MAX);
    assert_eq!(input.wait_for_publications().timeout_ms, -1);
    assert_eq!(input.wait_for_publications_with_timeout(100).timeout_ms, 100);
}

#[test]
fn matched_publications_reply_translates_like_a_string_reply() {
    let input = reader();
    let listed = input
        .display_matched_publications(
            InvokeResult::with_string_return(Some("[{\"name\":\"TestWriter\"}]".to_string())),
            None,
        )
        .unwrap();
    assert_eq!(listed, "[{\"name\":\"TestWriter\"}]");
}
