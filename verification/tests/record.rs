use hello_message::HelloError;
use hello_message::HelloEvent;
use hello_message::HelloState;
use hello_message::Identity;
use hello_message::MAX_MESSAGE_BYTES;

fn alice() -> Identity {
    Identity::new([0xA1; 32])
}

fn bob() -> Identity {
    Identity::new([0xB0; 32])
}

const T1: i64 = 1_700_000_000;
const T2: i64 = 1_700_000_060;

#[test]
fn new_record_is_unclaimed_and_empty() {
    let state = HelloState::new();
    assert_eq!(state.authority, Identity::default());
    assert_eq!(state.message, "");
    assert_eq!(state.updated_at, 0);
    assert!(!state.is_initialized());
    assert_eq!(state, HelloState::default());
}

#[test]
fn first_write_creates_record_and_event() {
    let mut state = HelloState::new();
    let event = state.write_at(alice(), String::from("hi"), T1);
    assert_eq!(
        event,
        Ok(HelloEvent { authority: alice(), message: String::from("hi"), updated_at: T1 })
    );
    assert_eq!(
        state,
        HelloState { authority: alice(), message: String::from("hi"), updated_at: T1 }
    );
    assert!(state.is_initialized());
}

#[test]
fn message_of_65_bytes_is_rejected_and_no_record_appears() {
    let mut state = HelloState::new();
    let outcome = state.write_at(alice(), "a".repeat(65), T1);
    assert_eq!(outcome, Err(HelloError::MessageTooLong));
    assert_eq!(state, HelloState::new());
    assert!(!state.is_initialized());
}

#[test]
fn other_identity_is_unauthorized_and_record_is_kept() {
    let mut state = HelloState::new();
    assert!(state.write_at(alice(), String::from("hi"), T1).is_ok());
    let outcome = state.write_at(bob(), String::from("yo"), T2);
    assert_eq!(outcome, Err(HelloError::Unauthorized));
    assert_eq!(
        state,
        HelloState { authority: alice(), message: String::from("hi"), updated_at: T1 }
    );
}

#[test]
fn owner_overwrites_message_and_timestamp() {
    let mut state = HelloState::new();
    assert!(state.write_at(alice(), String::from("hi"), T1).is_ok());
    let event = state.write_at(alice(), String::from("bye"), T2);
    assert_eq!(
        event,
        Ok(HelloEvent { authority: alice(), message: String::from("bye"), updated_at: T2 })
    );
    assert_eq!(state.authority, alice());
    assert_eq!(state.message, "bye");
    assert_eq!(state.updated_at, T2);
    assert!(state.updated_at >= T1);
}

#[test]
fn message_of_exactly_64_bytes_is_accepted() {
    let mut state = HelloState::new();
    let message = "b".repeat(MAX_MESSAGE_BYTES);
    let outcome = state.write_at(alice(), message.clone(), T1);
    assert!(outcome.is_ok());
    assert_eq!(state.message, message);
    assert_eq!(state.message.len(), 64);
}

#[test]
fn empty_message_is_accepted() {
    let mut state = HelloState::new();
    assert!(state.write_at(alice(), String::new(), T1).is_ok());
    assert_eq!(state.message, "");
    assert_eq!(state.authority, alice());
    assert_eq!(state.updated_at, T1);
}

#[test]
fn bound_counts_bytes_not_characters() {
    // Two bytes each: 32 characters fill the bound, 33 exceed it.
    let mut state = HelloState::new();
    let fits = "\u{e9}".repeat(32);
    assert_eq!(fits.len(), 64);
    assert!(state.write_at(alice(), fits.clone(), T1).is_ok());
    assert_eq!(state.message, fits);

    let too_long = "\u{e9}".repeat(33);
    assert_eq!(too_long.chars().count(), 33);
    assert_eq!(state.write_at(alice(), too_long, T2), Err(HelloError::MessageTooLong));
    assert_eq!(state.message, fits);
    assert_eq!(state.updated_at, T1);

    // Four bytes each: 16 characters fill the bound, 17 exceed it.
    let mut other = HelloState::new();
    assert!(other.write_at(bob(), "\u{1F600}".repeat(16), T1).is_ok());
    assert_eq!(
        other.write_at(bob(), "\u{1F600}".repeat(17), T2),
        Err(HelloError::MessageTooLong)
    );
    // Three bytes each: 21 characters are 63 bytes, 22 are 66.
    assert!(other.write_at(bob(), "\u{20AC}".repeat(21), T2).is_ok());
    assert_eq!(
        other.write_at(bob(), "\u{20AC}".repeat(22), T2),
        Err(HelloError::MessageTooLong)
    );
}

#[test]
fn size_bound_is_checked_before_ownership() {
    let mut state = HelloState::new();
    assert!(state.write_at(alice(), String::from("hi"), T1).is_ok());
    let outcome = state.write_at(bob(), "x".repeat(65), T2);
    assert_eq!(outcome, Err(HelloError::MessageTooLong));
    assert_eq!(state.message, "hi");
}

#[test]
fn check_write_gives_the_verdict_without_writing() {
    let mut state = HelloState::new();
    assert_eq!(state.check_write(&alice(), "hi"), Ok(()));
    assert_eq!(state.check_write(&alice(), &"a".repeat(65)), Err(HelloError::MessageTooLong));
    assert_eq!(state, HelloState::new());

    assert!(state.write_at(alice(), String::from("hi"), T1).is_ok());
    assert_eq!(state.check_write(&alice(), "again"), Ok(()));
    assert_eq!(state.check_write(&bob(), "yo"), Err(HelloError::Unauthorized));
    assert_eq!(state.check_write(&bob(), &"a".repeat(65)), Err(HelloError::MessageTooLong));
    assert_eq!(state.message, "hi");
}

#[test]
fn timestamp_is_taken_as_given() {
    let mut state = HelloState::new();
    assert!(state.write_at(alice(), String::from("hi"), -5).is_ok());
    assert_eq!(state.updated_at, -5);
    assert!(state.write_at(alice(), String::from("hi"), i64::MAX).is_ok());
    assert_eq!(state.updated_at, i64::MAX);
}

#[test]
fn default_identity_writes_but_never_claims() {
    let mut state = HelloState::new();
    let zero = Identity::default();
    assert!(state.write_at(zero, String::from("nobody"), T1).is_ok());
    assert_eq!(state.message, "nobody");
    assert!(!state.is_initialized());
    // The record still counts as unclaimed, so the next caller takes it.
    assert!(state.write_at(bob(), String::from("mine"), T2).is_ok());
    assert_eq!(state.authority, bob());
    assert!(state.is_initialized());
    assert_eq!(state.write_at(zero, String::from("back"), T2), Err(HelloError::Unauthorized));
}

#[test]
fn reserved_space_is_116_bytes() {
    assert_eq!(HelloState::SPACE, 116);
    assert_eq!(HelloState::SPACE, 8 + 32 + 4 + 64 + 8);
    assert_eq!(MAX_MESSAGE_BYTES, 64);
}

#[test]
fn stored_length_follows_the_message() {
    let mut state = HelloState::new();
    assert_eq!(state.stored_len(), 52);
    assert!(state.write_at(alice(), String::from("hi"), T1).is_ok());
    assert_eq!(state.stored_len(), 54);
    assert!(state.write_at(alice(), "\u{e9}".repeat(32), T2).is_ok());
    assert_eq!(state.stored_len(), HelloState::SPACE);
}

#[test]
fn errors_are_reported_by_name() {
    assert_eq!(HelloError::Unauthorized.message(), "Unauthorized");
    assert_eq!(HelloError::MessageTooLong.message(), "MessageTooLong");
    assert_ne!(HelloError::Unauthorized, HelloError::MessageTooLong);
}
