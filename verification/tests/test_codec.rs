//! The composite-form codec: marshaling write parameters to JSON text and
//! reading them back.

use dds_connector::{WriteParams, WriteParamsIdentity};

#[test]
fn params_survive_a_round_trip_through_the_composite_form() {
    let cases = vec![
        WriteParams::default(),
        WriteParams::write(),
        WriteParams::dispose(),
        WriteParams::unregister(),
        WriteParams::write().with_source_timestamp(0),
        WriteParams::default().with_source_timestamp(i64::MIN),
        WriteParams::default().with_source_timestamp(i64::MAX),
        WriteParams::dispose()
            .with_identity(WriteParamsIdentity { writer_guid: [0; 16], sequence_number: 0 }),
        WriteParams::write()
            .with_source_timestamp(-125)
            .with_identity(WriteParamsIdentity {
                writer_guid: [0, 1, 2, 3, 4, 5, 6, 7, 8, 9, 10, 11, 12, 13, 14, 255],
                sequence_number: u64::MAX,
            })
            .with_related_sample_identity(WriteParamsIdentity {
                writer_guid: [255; 16],
                sequence_number: 1,
            }),
        WriteParams::default().with_related_sample_identity(WriteParamsIdentity {
            writer_guid: [9; 16],
            sequence_number: 77,
        }),
    ];
    for params in cases {
        let text = params.to_json();
        let back = WriteParams::from_json(&text);
        assert_eq!(back, Some(params), "round trip failed for {}", text);
    }
}

#[test]
fn malformed_composite_forms_are_refused() {
    assert_eq!(WriteParams::from_json(""), None);
    assert_eq!(WriteParams::from_json("{"), None);
    assert_eq!(WriteParams::from_json("}"), None);
    assert_eq!(WriteParams::from_json("nonsense"), None);
    assert_eq!(WriteParams::from_json("{}x"), None);
    assert_eq!(WriteParams::from_json("{\"action\":\"bogus\"}"), None);
    assert_eq!(WriteParams::from_json("{\"source_timestamp\":}"), None);
    assert_eq!(WriteParams::from_json("{\"source_timestamp\":9999999999999999999999}"), None);
    assert_eq!(
        WriteParams::from_json("{\"identity\":{\"writer_guid\":[1,2],\"sequence_number\":3}}"),
        None
    );
    assert_eq!(WriteParams::from_json("{\"action\":\"write\",}"), None);
}

#[test]
fn empty_object_reads_as_default_params() {
    assert_eq!(WriteParams::from_json("{}"), Some(WriteParams::default()));
}

#[test]
fn members_are_read_in_declaration_order_only() {
    // The marshaled form always lists members in declaration order; a
    // reordered object is not one the marshaler produces and is refused.
    let reordered = "{\"source_timestamp\":1,\"action\":\"write\"}";
    assert_eq!(WriteParams::from_json(reordered), None);

    let in_order = "{\"action\":\"write\",\"source_timestamp\":1}";
    assert_eq!(
        WriteParams::from_json(in_order),
        Some(WriteParams::write().with_source_timestamp(1))
    );
}
