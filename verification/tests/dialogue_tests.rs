use dialogue_core::dialogue::process_message;
use dialogue_core::dialogue::NameAgeHandler;
use dialogue_core::errors::DialogueError;
use dialogue_core::serializer::round_trip;
use dialogue_core::serializer::Bincode;
use dialogue_core::serializer::Serializer;
use dialogue_core::serializer::CBOR;
use dialogue_core::serializer::JSON;
use dialogue_core::state::StateValue;
use dialogue_core::storage::InMemStorage;
use dialogue_core::storage::Storage;

fn age_state(name: &str) -> StateValue {
    StateValue::AwaitingAge { name: name.to_string() }
}

#[test]
fn json_round_trips_every_state() {
    assert_eq!(round_trip(&JSON, &StateValue::AwaitingName), StateValue::AwaitingName);
    assert_eq!(round_trip(&JSON, &age_state("Alice")), age_state("Alice"));
    let bytes = JSON.serialize(&age_state("Bob")).unwrap();
    assert_eq!(JSON.deserialize(&bytes).unwrap(), age_state("Bob"));
}

#[test]
fn cbor_round_trips_every_state() {
    assert_eq!(round_trip(&CBOR, &StateValue::AwaitingName), StateValue::AwaitingName);
    assert_eq!(round_trip(&CBOR, &age_state("Alice")), age_state("Alice"));
    let bytes = CBOR.serialize(&age_state("Bob")).unwrap();
    assert_eq!(CBOR.deserialize(&bytes).unwrap(), age_state("Bob"));
}

#[test]
fn bincode_round_trips_every_state() {
    assert_eq!(round_trip(&Bincode, &StateValue::AwaitingName), StateValue::AwaitingName);
    assert_eq!(round_trip(&Bincode, &age_state("Alice")), age_state("Alice"));
    let bytes = Bincode.serialize(&age_state("Bob")).unwrap();
    assert_eq!(Bincode.deserialize(&bytes).unwrap(), age_state("Bob"));
}

#[test]
fn json_writes_the_expected_text() {
    assert_eq!(JSON.serialize(&StateValue::AwaitingName).unwrap(), b"null".to_vec());
    assert_eq!(JSON.serialize(&age_state("Alice")).unwrap(), b"\"Alice\"".to_vec());
}

#[test]
fn cbor_writes_the_reference_encoding() {
    let expected = serde_cbor::to_vec(&Some("Alice".to_string())).unwrap();
    assert_eq!(CBOR.serialize(&age_state("Alice")).unwrap(), expected);
    let expected_none = serde_cbor::to_vec(&None::<String>).unwrap();
    assert_eq!(CBOR.serialize(&StateValue::AwaitingName).unwrap(), expected_none);
}

#[test]
fn bincode_writes_the_reference_encoding() {
    let expected = bincode::serialize(&Some("Alice".to_string())).unwrap();
    assert_eq!(Bincode.serialize(&age_state("Alice")).unwrap(), expected);
    let expected_none = bincode::serialize(&None::<String>).unwrap();
    assert_eq!(Bincode.serialize(&StateValue::AwaitingName).unwrap(), expected_none);
}

#[test]
fn malformed_bytes_are_rejected_by_each_strategy() {
    assert_eq!(JSON.deserialize(b"]["), Err(DialogueError::DeserializationError));
    assert_eq!(JSON.deserialize(b""), Err(DialogueError::DeserializationError));
    assert_eq!(CBOR.deserialize(b""), Err(DialogueError::DeserializationError));
    assert_eq!(Bincode.deserialize(&[9u8]), Err(DialogueError::DeserializationError));
}

#[test]
fn first_message_stores_the_collected_name() {
    let mut storage = InMemStorage::new();
    assert_eq!(storage.get_state(1).unwrap(), None);
    let r = process_message(&mut storage, &JSON, &NameAgeHandler, 1, "Alice");
    assert_eq!(r, Ok(()));
    let stored = storage.get_state(1).unwrap().expect("an entry must exist");
    assert_eq!(JSON.deserialize(&stored).unwrap(), age_state("Alice"));
}

#[test]
fn second_message_ends_the_dialogue_and_removes_the_entry() {
    let mut storage = InMemStorage::new();
    process_message(&mut storage, &JSON, &NameAgeHandler, 1, "Alice").unwrap();
    let r = process_message(&mut storage, &JSON, &NameAgeHandler, 1, "30");
    assert_eq!(r, Ok(()));
    assert_eq!(storage.get_state(1).unwrap(), None);
}

#[test]
fn full_dialogue_runs_under_every_strategy() {
    let mut storage = InMemStorage::new();
    process_message(&mut storage, &CBOR, &NameAgeHandler, 5, "Carol").unwrap();
    let stored = storage.get_state(5).unwrap().unwrap();
    assert_eq!(CBOR.deserialize(&stored).unwrap(), age_state("Carol"));
    process_message(&mut storage, &CBOR, &NameAgeHandler, 5, "41").unwrap();
    assert_eq!(storage.get_state(5).unwrap(), None);

    process_message(&mut storage, &Bincode, &NameAgeHandler, 6, "Dan").unwrap();
    let stored = storage.get_state(6).unwrap().unwrap();
    assert_eq!(Bincode.deserialize(&stored).unwrap(), age_state("Dan"));
    process_message(&mut storage, &Bincode, &NameAgeHandler, 6, "52").unwrap();
    assert_eq!(storage.get_state(6).unwrap(), None);
}

#[test]
fn malformed_entry_fails_the_cycle_and_stays_untouched() {
    let mut storage = InMemStorage::new();
    let injected = b"{ not json".to_vec();
    storage.update_state(2, injected.clone()).unwrap();
    let r = process_message(&mut storage, &JSON, &NameAgeHandler, 2, "hello");
    assert_eq!(r, Err(DialogueError::DeserializationError));
    assert_eq!(storage.get_state(2).unwrap(), Some(injected));
}

#[test]
fn handler_failure_leaves_the_entry_unchanged() {
    let mut storage = InMemStorage::new();
    process_message(&mut storage, &JSON, &NameAgeHandler, 3, "Eve").unwrap();
    let before = storage.get_state(3).unwrap();
    let r = process_message(&mut storage, &JSON, &NameAgeHandler, 3, "not a number");
    assert_eq!(r, Err(DialogueError::HandlerError));
    assert_eq!(storage.get_state(3).unwrap(), before);
}

#[test]
fn cycles_for_one_id_never_touch_another() {
    let mut storage = InMemStorage::new();
    process_message(&mut storage, &JSON, &NameAgeHandler, 10, "Frank").unwrap();
    let other_before = storage.get_state(10).unwrap();
    process_message(&mut storage, &JSON, &NameAgeHandler, 11, "Grace").unwrap();
    storage.update_state(12, b"raw".to_vec()).unwrap();
    storage.remove_state(11).unwrap();
    assert_eq!(storage.get_state(10).unwrap(), other_before);
}

#[test]
fn missing_entry_behaves_like_a_stored_initial_state() {
    let mut empty_storage = InMemStorage::new();
    let mut seeded_storage = InMemStorage::new();
    let initial_bytes = JSON.serialize(&StateValue::AwaitingName).unwrap();
    seeded_storage.update_state(4, initial_bytes).unwrap();

    let r_empty = process_message(&mut empty_storage, &JSON, &NameAgeHandler, 4, "Heidi");
    let r_seeded = process_message(&mut seeded_storage, &JSON, &NameAgeHandler, 4, "Heidi");
    assert_eq!(r_empty, r_seeded);
    assert_eq!(empty_storage.get_state(4).unwrap(), seeded_storage.get_state(4).unwrap());
}

#[test]
fn update_overwrites_and_absent_remove_is_a_no_op() {
    let mut storage = InMemStorage::new();
    storage.update_state(1, b"first".to_vec()).unwrap();
    storage.update_state(1, b"second".to_vec()).unwrap();
    assert_eq!(storage.get_state(1).unwrap(), Some(b"second".to_vec()));
    storage.remove_state(1).unwrap();
    assert_eq!(storage.get_state(1).unwrap(), None);
    storage.remove_state(1).unwrap();
    assert_eq!(storage.get_state(1).unwrap(), None);
}

#[test]
fn sequential_cycles_apply_in_arrival_order() {
    let mut storage = InMemStorage::new();
    let r1 = process_message(&mut storage, &JSON, &NameAgeHandler, 8, "Ivan");
    let r2 = process_message(&mut storage, &JSON, &NameAgeHandler, 8, "23");
    assert_eq!(r1, Ok(()));
    assert_eq!(r2, Ok(()));
    assert_eq!(storage.get_state(8).unwrap(), None);
}
