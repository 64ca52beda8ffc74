//! The connector's registries: exclusive acquisition, blocking decisions,
//! release, and the version banner.

use dds_connector::{Acquisition, Connector, ErrorKind};

#[test]
fn test_input_creation_and_display() {
    let mut connector = Connector::new("MyParticipantLibrary::Zero");

    let invalid = connector.get_input("InvalidSubscriber::InvalidReader", false);
    assert!(
        invalid.unwrap_err().is_entity_not_found(),
        "Expected error when getting invalid Input"
    );

    let input = connector.get_input("TestSubscriber::TestReader", true).expect(
        "Failed to get valid Input",
    );
    assert_eq!(input.name(), "TestSubscriber::TestReader");

    let concurrent = connector.get_input("TestSubscriber::TestReader", true);
    assert!(concurrent.is_err(), "get_input should fail on concurrent usage");

    connector.release_input("TestSubscriber::TestReader").unwrap();
    let again = connector.get_input("TestSubscriber::TestReader", true);
    assert!(
        again.is_ok(),
        "Getting input after dropping taken input should succeed"
    );
}

#[test]
fn test_output_creation_and_display() {
    let mut connector = Connector::new("MyParticipantLibrary::Zero");

    let invalid = connector.get_output("InvalidPublisher::InvalidWriter", false);
    assert!(
        invalid.unwrap_err().is_entity_not_found(),
        "Expected error when getting invalid Output"
    );

    let output = connector.get_output("TestPublisher::TestWriter", true).expect(
        "Failed to get valid Output",
    );
    assert_eq!(output.name(), "TestPublisher::TestWriter");
    assert_eq!(output.generation(), 0);

    let concurrent = connector.get_output("TestPublisher::TestWriter", true);
    assert!(concurrent.is_err(), "get_output should fail on concurrent usage");

    connector.release_output("TestPublisher::TestWriter").unwrap();
    let again = connector.get_output("TestPublisher::TestWriter", true);
    assert!(
        again.is_ok(),
        "Getting output after dropping taken output should succeed"
    );
}

#[test]
fn second_writer_for_a_topic_fails_busy_until_the_first_drops() {
    // Two writers and one reader for the same topic name, as two threads
    // would race for them: the second writer acquisition fails busy while
    // the first holds the name, and succeeds once it is released.
    let mut connector = Connector::new("MyParticipantLibrary::Zero");
    let name = "TestPublisher::TestWriter";

    let _first = connector.get_output(name, true).unwrap();
    let _reader = connector.get_input("TestSubscriber::TestReader", true).unwrap();

    let second = connector.get_output(name, true).unwrap_err();
    assert!(matches!(second.kind, ErrorKind::Busy { .. }));
    assert_eq!(
        second.describe(),
        "Entity is busy: Output 'TestPublisher::TestWriter' already in use"
    );

    connector.release_output(name).unwrap();
    let second_try = connector.get_output(name, true);
    assert!(second_try.is_ok());
}

#[test]
fn blocking_acquisition_waits_only_while_the_name_is_held() {
    let mut connector = Connector::new("MyParticipantLibrary::Zero");
    let name = "TestSubscriber::TestReader";

    match connector.take_input(name, true) {
        Acquisition::Granted(input) => assert_eq!(input.name(), name),
        _ => panic!("a free name must be granted"),
    }

    match connector.take_input(name, true) {
        Acquisition::MustWait => {},
        _ => panic!("a held name must tell the waiter to wait"),
    }

    match connector.take_input("Unknown::Reader", false) {
        Acquisition::Refused(e) => assert!(e.is_entity_not_found()),
        _ => panic!("an unknown name must be refused even when blocking"),
    }

    connector.release_input(name).unwrap();
    match connector.take_input(name, true) {
        Acquisition::Granted(_) => {},
        _ => panic!("after the release, the first retrying waiter wins"),
    }

    match connector.take_input(name, true) {
        Acquisition::MustWait => {},
        _ => panic!("the losing waiters find the name held again"),
    }
}

#[test]
fn blocking_writer_acquisition_mirrors_the_reader_side() {
    let mut connector = Connector::new("MyParticipantLibrary::Zero");
    let name = "TestPublisher::TestWriter";

    match connector.take_output(name, true) {
        Acquisition::Granted(output) => assert_eq!(output.name(), name),
        _ => panic!("a free name must be granted"),
    }
    match connector.take_output(name, true) {
        Acquisition::MustWait => {},
        _ => panic!("a held name must tell the waiter to wait"),
    }
    connector.release_output(name).unwrap();
    match connector.take_output(name, true) {
        Acquisition::Granted(_) => {},
        _ => panic!("after the release, the waiter wins"),
    }
}

#[test]
fn double_release_is_refused_as_busy() {
    let mut connector = Connector::new("MyParticipantLibrary::Zero");
    let name = "TestSubscriber::TestReader";

    let _input = connector.get_input(name, true).unwrap();
    connector.release_input(name).unwrap();

    let second = connector.release_input(name).unwrap_err();
    assert!(matches!(second.kind, ErrorKind::Busy { .. }));
    assert_eq!(
        second.describe(),
        "Entity is busy: Input named 'TestSubscriber::TestReader' not found or already released"
    );
}

#[test]
fn reader_and_writer_registries_are_independent() {
    let mut connector = Connector::new("MyParticipantLibrary::Zero");
    let name = "Shared::Name";

    let _input = connector.get_input(name, true).unwrap();
    // The same name is still free on the writer side.
    let _output = connector.get_output(name, true).unwrap();

    assert!(connector.get_input(name, true).is_err());
    assert!(connector.get_output(name, true).is_err());

    connector.release_input(name).unwrap();
    assert!(connector.get_input(name, true).is_ok());
    // Releasing the reader did not free the writer.
    assert!(connector.get_output(name, true).is_err());
}

#[test]
fn wait_requests_carry_the_clamped_timeout() {
    let connector = Connector::new("MyParticipantLibrary::Zero");

    assert_eq!(connector.wait_for_data().timeout_ms, -1);
    assert_eq!(connector.wait_for_data_with_timeout(100).timeout_ms, 100);
    assert_eq!(connector.wait_for_data_with_timeout(0).timeout_ms, 0);
    assert_eq!(
        connector.wait_for_data_with_timeout(u64::MAX).timeout_ms,
        i32::MAX
    );
}

#[test]
fn test_connector_versions() {
    let with_builds = Connector::get_versions_string(
        "0.1.0",
        Some((
            "NDDSCORE_BUILD_6.1.2_20231028T000000Z".to_string(),
            "RTICONNECTOR_BUILD_1.2.0_20231028T000000Z".to_string(),
        )),
    );
    assert_eq!(
        with_builds,
        "RTI Connector for Rust, version 0.1.0\nNDDSCORE_BUILD_6.1.2_20231028T000000Z\nRTICONNECTOR_BUILD_1.2.0_20231028T000000Z"
    );

    let without_builds = Connector::get_versions_string("0.1.0", None);
    assert_eq!(
        without_builds,
        "RTI Connector for Rust, version 0.1.0\n<Unknown RTI Connext version>\n<Unknown RTI Connector for Rust version>"
    );
}
