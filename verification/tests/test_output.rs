//! The write side: instance staleness around publishes, field-set requests,
//! and the JSON form of write parameters.

use dds_connector::{
    Connector, ErrorKind, InvokeResult, SelectedValue, WriteParams, WriteParamsAction,
    WriteParamsIdentity,
};

fn writer() -> dds_connector::Output {
    let mut connector = Connector::new("MyParticipantLibrary::Zero");
    connector.get_output("TestPublisher::TestWriter", true).unwrap()
}

#[test]
fn instance_field_requests_carry_the_field_and_value() {
    let output = writer();
    let instance = output.instance();

    let number = instance.set_number(&output, "long_field", (42.0f64).to_bits()).unwrap();
    assert_eq!(number.entity, "TestPublisher::TestWriter");
    assert_eq!(number.field, "long_field");
    assert_eq!(number.value, SelectedValue::Number((42.0f64).to_bits()));

    let boolean = instance.set_boolean(&output, "boolean_field", true).unwrap();
    assert_eq!(boolean.field, "boolean_field");
    assert_eq!(boolean.value, SelectedValue::Boolean(true));

    let string = instance.set_string(&output, "string_field", "Hello").unwrap();
    assert_eq!(string.field, "string_field");
    assert_eq!(string.value, SelectedValue::String("Hello".to_string()));

    let tagged = instance
        .set_value(&output, "string_field", SelectedValue::String("test_value".to_string()))
        .unwrap();
    assert_eq!(tagged.value, SelectedValue::String("test_value".to_string()));

    let cleared = instance.clear(&output, "optional.string_field").unwrap();
    assert_eq!(cleared.field, "optional.string_field");

    let json = instance
        .set_as_json(&output, "{\"long_field\": 10, \"double_field\": 20.5}")
        .unwrap();
    assert_eq!(json.json, "{\"long_field\": 10, \"double_field\": 20.5}");

    let query = instance.get_as_json(&output).unwrap();
    assert_eq!(query.entity, "TestPublisher::TestWriter");
}

#[test]
fn successful_publish_invalidates_earlier_instances() {
    let mut output = writer();
    let before = output.instance();

    assert!(before.set_boolean(&output, "boolean_field", true).is_ok());

    // The publish succeeds: the generation advances.
    output.write(InvokeResult::no_output(0), None).unwrap();
    assert_eq!(output.generation(), 1);

    // Every access through the earlier instance now fails stale.
    let stale = before.set_boolean(&output, "boolean_field", true).unwrap_err();
    assert!(stale.is_stale_resource());
    assert!(before.set_number(&output, "long_field", 0).is_err());
    assert!(before.set_string(&output, "string_field", "x").is_err());
    assert!(before
        .set_value(&output, "long_field", SelectedValue::Number(0))
        .is_err());
    assert!(before.set_as_json(&output, "{}").is_err());
    assert!(before.clear(&output, "long_field").is_err());
    assert!(before.get_as_json(&output).is_err());
    assert_eq!(
        stale.describe(),
        "Stale resource: Instance invalidated by Output::write or Output::write_with_params"
    );

    // An instance obtained strictly after the publish succeeds.
    let after = output.instance();
    assert!(after.set_boolean(&output, "boolean_field", true).is_ok());
}

#[test]
fn failed_publish_leaves_the_generation_untouched() {
    let mut output = writer();
    let instance = output.instance();

    let err = output.write(InvokeResult::no_output(1), None).unwrap_err();
    assert!(err.is_native_error());
    assert_eq!(output.generation(), 0);

    // The instance is still usable: the buffered content survives for retry.
    assert!(instance.set_boolean(&output, "boolean_field", true).is_ok());

    let timeout = output.write(InvokeResult::no_output(10), None).unwrap_err();
    assert!(timeout.is_timeout());
    assert_eq!(output.generation(), 0);

    output.write(InvokeResult::no_output(0), None).unwrap();
    assert_eq!(output.generation(), 1);
    assert!(instance.set_boolean(&output, "boolean_field", true).is_err());
}

#[test]
fn clear_members_translates_the_reply() {
    let output = writer();
    assert!(output.clear_members(InvokeResult::no_output(0), None).is_ok());
    let err = output.clear_members(InvokeResult::no_output(1), None).unwrap_err();
    assert!(err.is_native_error());
}

#[test]
fn write_params_builders_set_their_fields() {
    let write = WriteParams::write();
    assert_eq!(write.action, Some(WriteParamsAction::Write));
    assert!(write.source_timestamp.is_none());
    assert!(write.identity.is_none());
    assert!(write.related_sample_identity.is_none());

    assert_eq!(WriteParams::dispose().action, Some(WriteParamsAction::Dispose));
    assert_eq!(WriteParams::unregister().action, Some(WriteParamsAction::Unregister));

    let identity = WriteParamsIdentity { writer_guid: [7; 16], sequence_number: 3 };
    let related = WriteParamsIdentity { writer_guid: [9; 16], sequence_number: 8 };
    let full = WriteParams::write()
        .with_source_timestamp(-125)
        .with_identity(identity.clone())
        .with_related_sample_identity(related.clone());
    assert_eq!(full.action, Some(WriteParamsAction::Write));
    assert_eq!(full.source_timestamp, Some(-125));
    assert_eq!(full.identity, Some(identity));
    assert_eq!(full.related_sample_identity, Some(related));

    let default = WriteParams::default();
    assert!(default.action.is_none());
    assert!(default.source_timestamp.is_none());
}

#[test]
fn write_params_marshal_to_their_json_form() {
    assert_eq!(WriteParams::default().to_json(), "{}");
    assert_eq!(WriteParams::write().to_json(), "{\"action\":\"write\"}");
    assert_eq!(WriteParams::dispose().to_json(), "{\"action\":\"dispose\"}");
    assert_eq!(WriteParams::unregister().to_json(), "{\"action\":\"unregister\"}");

    assert_eq!(
        WriteParams::dispose().with_source_timestamp(123).to_json(),
        "{\"action\":\"dispose\",\"source_timestamp\":123}"
    );
    assert_eq!(
        WriteParams::default().with_source_timestamp(-7).to_json(),
        "{\"source_timestamp\":-7}"
    );

    let identity = WriteParamsIdentity {
        writer_guid: [0, 1, 2, 3, 4, 5, 6, 7, 8, 9, 10, 11, 12, 13, 14, 255],
        sequence_number: 42,
    };
    assert_eq!(
        WriteParams::default().with_identity(identity.clone()).to_json(),
        "{\"identity\":{\"writer_guid\":[0,1,2,3,4,5,6,7,8,9,10,11,12,13,14,255],\"sequence_number\":42}}"
    );
    assert_eq!(
        WriteParams::write()
            .with_source_timestamp(1)
            .with_identity(identity.clone())
            .with_related_sample_identity(identity)
            .to_json(),
        "{\"action\":\"write\",\"source_timestamp\":1,\
         \"identity\":{\"writer_guid\":[0,1,2,3,4,5,6,7,8,9,10,11,12,13,14,255],\"sequence_number\":42},\
         \"related_sample_identity\":{\"writer_guid\":[0,1,2,3,4,5,6,7,8,9,10,11,12,13,14,255],\"sequence_number\":42}}"
    );
}

#[test]
fn write_params_json_is_what_the_reference_serializer_produces() {
    // The boundary takes the parameters as JSON text; hold our marshaled
    // form against an independent JSON implementation.
    let params = WriteParams::write()
        .with_source_timestamp(-125)
        .with_identity(WriteParamsIdentity { writer_guid: [1; 16], sequence_number: 9 });
    let text = params.to_json();

    let value: serde_json::Value = serde_json::from_str(&text).unwrap();
    assert_eq!(value["action"], serde_json::Value::String("write".to_string()));
    assert_eq!(value["source_timestamp"], serde_json::Value::from(-125i64));
    assert_eq!(value["identity"]["sequence_number"], serde_json::Value::from(9u64));
    assert_eq!(value["identity"]["writer_guid"][15], serde_json::Value::from(1u8));
    assert_eq!(value.as_object().unwrap().len(), 3);
}

#[test]
fn write_with_params_builds_the_full_request() {
    let output = writer();
    let request = output.write_with_params(&WriteParams::dispose());
    assert_eq!(request.entity, "TestPublisher::TestWriter");
    assert_eq!(request.params_json.as_deref(), Some("{\"action\":\"dispose\"}"));
}

#[test]
fn output_wait_requests_carry_the_clamped_timeout() {
    let output = writer();
    assert_eq!(output.wait().timeout_ms, -1);
    assert_eq!(output.wait_with_timeout(100).timeout_ms, 100);
    assert_eq!(output.wait_with_timeout(u64::MAX).timeout_ms, i32::MAX);
    assert_eq!(output.wait_for_subscriptions().timeout_ms, -1);
    assert_eq!(output.wait_for_subscriptions_with_timeout(250).timeout_ms, 250);
}

#[test]
fn matched_subscriptions_reply_translates_like_a_string_reply() {
    let output = writer();
    let listed = output
        .display_matched_subscriptions(
            InvokeResult::with_string_return(Some("[{\"name\":\"TestReader\"}]".to_string())),
            None,
        )
        .unwrap();
    assert_eq!(listed, "[{\"name\":\"TestReader\"}]");

    let missing = output
        .display_matched_subscriptions(InvokeResult::with_string_return(None), None)
        .unwrap_err();
    assert!(matches!(missing.kind, ErrorKind::Invalid { .. }));
}
