use anchor_lang::prelude::borsh;
use anchor_lang::prelude::Pubkey;
use hello_message::HelloState;
use hello_message::Identity;
use hello_message::ACCOUNT_TAG;
use sha2::Digest;
use sha2::Sha256;

fn alice() -> Identity {
    Identity::new([0xA1; 32])
}

fn record(message: &str, updated_at: i64) -> HelloState {
    HelloState { authority: alice(), message: String::from(message), updated_at }
}

#[test]
fn tag_is_the_digest_prefix_of_the_account_name() {
    let digest = Sha256::digest(b"account:HelloState");
    assert_eq!(&ACCOUNT_TAG[..], &digest[..8]);
}

#[test]
fn stored_bytes_of_a_short_record() {
    let data = record("hi", 1_700_000_000).to_account_data();
    let mut expected: Vec<u8> = vec![232, 42, 134, 76, 92, 238, 90, 241];
    expected.extend_from_slice(&[0xA1; 32]);
    expected.extend_from_slice(&[2, 0, 0, 0]);
    expected.extend_from_slice(b"hi");
    expected.extend_from_slice(&[0x00, 0xF1, 0x53, 0x65, 0, 0, 0, 0]);
    assert_eq!(data, expected);
    assert_eq!(data.len(), 54);
}

#[test]
fn stored_bytes_of_a_new_record() {
    let data = HelloState::new().to_account_data();
    let mut expected: Vec<u8> = ACCOUNT_TAG.to_vec();
    expected.extend_from_slice(&[0u8; 32 + 4 + 8]);
    assert_eq!(data, expected);
}

#[test]
fn stored_bytes_agree_with_borsh() {
    for (message, updated_at) in [
        ("", 0i64),
        ("hi", 1_700_000_000),
        ("gr\u{fc}\u{df}e \u{1F600}", -1),
        ("x", i64::MIN),
        ("y", i64::MAX),
    ] {
        let state = record(message, updated_at);
        let data = state.to_account_data();
        let body = borsh::to_vec(&(
            Pubkey::new_from_array(state.authority.to_bytes()),
            state.message.clone(),
            state.updated_at,
        ));
        assert_eq!(&data[..8], &ACCOUNT_TAG[..]);
        assert_eq!(body.ok(), Some(data[8..].to_vec()));
        assert_eq!(data.len(), state.stored_len());
    }
}

#[test]
fn negative_timestamp_is_stored_in_twos_complement() {
    let data = record("", -1).to_account_data();
    assert_eq!(&data[44..], &[0xFF; 8]);
    let data = record("", -2).to_account_data();
    assert_eq!(&data[44..], &[0xFE, 0xFF, 0xFF, 0xFF, 0xFF, 0xFF, 0xFF, 0xFF]);
    let data = record("", i64::MIN).to_account_data();
    assert_eq!(&data[44..], &[0, 0, 0, 0, 0, 0, 0, 0x80]);
}

#[test]
fn longest_record_fills_the_reserved_space() {
    let state = HelloState { authority: alice(), message: "z".repeat(64), updated_at: 5 };
    let data = state.to_account_data();
    assert_eq!(data.len(), HelloState::SPACE);
    assert_eq!(&data[40..44], &[64, 0, 0, 0]);
    assert_eq!(&data[44..108], "z".repeat(64).as_bytes());
    assert_eq!(&data[108..], &[5, 0, 0, 0, 0, 0, 0, 0]);
}
