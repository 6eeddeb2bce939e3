use iota_msg_codec::address::Address;
use iota_msg_codec::error::ConversionError;
use iota_msg_codec::model::{AddressBalancePair, OutputMetadata};
use iota_msg_codec::trytes::{get_trytes_command_body, is_array_of_hashes, GetTrytesResponse};

fn sample_metadata() -> OutputMetadata {
    OutputMetadata {
        message_id: vec![0xDE, 0xAD, 0x00, 0x42],
        transaction_id: vec![0xBE, 0xEF],
        output_index: 3,
        is_spent: true,
        address: Address::from_bytes(vec![0x77; 32]).unwrap(),
        amount: 500,
    }
}

#[test]
fn metadata_response_scenario() {
    let metadata = sample_metadata();
    let response = metadata.to_response();
    assert!(response.is_spent);
    assert_eq!(response.amount, 500);
    assert_eq!(response.output_index, 3);
    assert_eq!(response.message_id, "dead0042");
    assert_eq!(response.message_id.len(), 2 * metadata.message_id.len());
    assert_eq!(response.transaction_id, "beef");
    assert_eq!(response.transaction_id.len(), 2 * metadata.transaction_id.len());
    assert_eq!(response.address, metadata.address.to_bech32());
}

#[test]
fn metadata_response_is_identical_on_repeated_conversion() {
    let metadata = sample_metadata();
    let first = metadata.to_response();
    let second = metadata.to_response();
    assert_eq!(first, second);
    assert_eq!(first.message_id.as_bytes(), second.message_id.as_bytes());
    assert_eq!(first.address.as_bytes(), second.address.as_bytes());
}

#[test]
fn balance_response_renders_address_as_hex() {
    let pair = AddressBalancePair {
        address: Address::from_bytes(vec![0xAB; 32]).unwrap(),
        balance: 12345,
    };
    let response = pair.to_response();
    assert_eq!(response.address, "ab".repeat(32));
    assert_eq!(response.balance, 12345);
}

#[test]
fn balance_response_is_identical_on_repeated_conversion() {
    let pair = AddressBalancePair {
        address: Address::from_bytes(vec![0x01; 32]).unwrap(),
        balance: 0,
    };
    assert_eq!(pair.to_response(), pair.to_response());
}

#[test]
fn hash_array_validation() {
    let good = vec!["A".repeat(81), format!("{}9", "Z".repeat(80))];
    assert!(is_array_of_hashes(&good));
    assert!(is_array_of_hashes(&Vec::new()));
    assert!(!is_array_of_hashes(&vec!["A".repeat(80)]));
    assert!(!is_array_of_hashes(&vec!["A".repeat(82)]));
    assert!(!is_array_of_hashes(&vec![format!("{}a", "A".repeat(80))]));
    assert!(!is_array_of_hashes(&vec!["A".repeat(81), "short".to_string()]));
}

#[test]
fn get_trytes_body_for_two_hashes() {
    let h1 = "A".repeat(81);
    let h2 = "B".repeat(81);
    let body = get_trytes_command_body(&vec![h1.clone(), h2.clone()]);
    assert_eq!(
        body,
        format!("{{\"command\":\"getTrytes\",\"hashes\":[\"{}\",\"{}\"]}}", h1, h2)
    );
}

#[test]
fn get_trytes_body_for_no_hashes() {
    let body = get_trytes_command_body(&Vec::new());
    assert_eq!(body, "{\"command\":\"getTrytes\",\"hashes\":[]}");
}

#[test]
fn get_trytes_response_holds_plain_values() {
    let response = GetTrytesResponse { duration: 12, trytes: vec!["9".repeat(81)] };
    assert_eq!(response.duration, 12);
    assert_eq!(response.trytes.len(), 1);
}

#[test]
fn error_descriptions_name_each_kind() {
    assert_eq!(ConversionError::InvalidFormat("x".to_string()).describe(), "invalid format");
    assert_eq!(ConversionError::InvalidEncoding.describe(), "invalid encoding");
    assert_eq!(ConversionError::MissingUnlockData.describe(), "missing unlock data");
    assert_eq!(ConversionError::InvalidInput("x".to_string()).describe(), "invalid input");
    assert_eq!(ConversionError::InvalidOutput("x".to_string()).describe(), "invalid output");
    assert_eq!(ConversionError::BuilderError.describe(), "builder error");
}
