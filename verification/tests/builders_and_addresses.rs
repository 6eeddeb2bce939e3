use bech32::ToBase32;

use iota_msg_codec::address::{parse_input_reference, Address};
use iota_msg_codec::dto::OutputDto;
use iota_msg_codec::error::ConversionError;
use iota_msg_codec::model::{EssenceBuilder, Input, Output, TransactionPayloadBuilder, UnlockBlock};

#[test]
fn essence_with_zero_inputs_fails_with_builder_error() {
    let address = Address::from_bytes(vec![0x22; 32]).unwrap();
    let builder = EssenceBuilder::new().add_output(Output { address, amount: 1 });
    assert_eq!(builder.finish(), Err(ConversionError::BuilderError));
}

#[test]
fn essence_with_zero_outputs_fails_with_builder_error() {
    let input = Input { transaction_id: vec![0x33; 32], output_index: 0 };
    let builder = EssenceBuilder::new().add_input(input);
    assert_eq!(builder.finish(), Err(ConversionError::BuilderError));
}

#[test]
fn empty_essence_builder_fails_with_builder_error() {
    assert_eq!(EssenceBuilder::new().finish(), Err(ConversionError::BuilderError));
}

#[test]
fn essence_finalization_preserves_input_and_output_order() {
    let in1 = Input { transaction_id: vec![0x01; 32], output_index: 1 };
    let in2 = Input { transaction_id: vec![0x02; 32], output_index: 2 };
    let out1 = Output { address: Address::from_bytes(vec![0x0a; 32]).unwrap(), amount: 10 };
    let out2 = Output { address: Address::from_bytes(vec![0x0b; 32]).unwrap(), amount: 20 };
    let essence = EssenceBuilder::new()
        .add_input(in1.clone())
        .add_input(in2.clone())
        .add_output(out1.clone())
        .add_output(out2.clone())
        .finish()
        .unwrap();
    assert_eq!(essence.inputs(), &vec![in1, in2]);
    assert_eq!(essence.outputs(), &vec![out1, out2]);
    assert!(essence.payload().is_none());
}

#[test]
fn payload_builder_without_essence_fails_with_builder_error() {
    let builder = TransactionPayloadBuilder::new().add_unlock_block(UnlockBlock::Reference(0));
    assert_eq!(builder.finish(), Err(ConversionError::BuilderError));
}

#[test]
fn output_round_trip_through_wire_form() {
    let output = Output { address: Address::from_bytes(vec![0xc4; 32]).unwrap(), amount: 77 };
    let wire = output.to_wire();
    assert_eq!(wire.address, "c4".repeat(32));
    assert_eq!(wire.amount, 77);
    let back = wire.to_domain().unwrap();
    assert_eq!(back, output);
}

#[test]
fn address_from_bytes_rejects_wrong_lengths() {
    assert_eq!(Address::from_bytes(vec![0; 31]), Err(ConversionError::InvalidEncoding));
    assert_eq!(Address::from_bytes(vec![0; 33]), Err(ConversionError::InvalidEncoding));
    assert_eq!(Address::from_bytes(Vec::new()), Err(ConversionError::InvalidEncoding));
}

#[test]
fn address_hex_rendering_is_lowercase() {
    let address = Address::from_bytes(vec![0xde, 0xad, 0xbe, 0xef].repeat(8)).unwrap();
    assert_eq!(address.to_hex(), "deadbeef".repeat(8));
}

#[test]
fn parse_address_accepts_uppercase_hex() {
    let address = Address::parse(&"AB".repeat(32)).unwrap();
    assert_eq!(address.to_hex(), "ab".repeat(32));
}

#[test]
fn parse_address_rejects_malformed_text() {
    for bad in ["", "zz", "iota1notachecksum", "abc"] {
        assert_eq!(
            Address::parse(bad),
            Err(ConversionError::InvalidFormat(bad.to_string())),
            "input {:?}",
            bad
        );
    }
}

#[test]
fn bech32_rendering_matches_reference_encoder() {
    let bytes = vec![0x5f; 32];
    let address = Address::from_bytes(bytes.clone()).unwrap();
    let mut payload = vec![0u8];
    payload.extend_from_slice(&bytes);
    let expected =
        bech32::encode("iota", payload.to_base32(), bech32::Variant::Bech32).unwrap();
    assert_eq!(address.to_bech32(), expected);
}

#[test]
fn bech32_rendering_round_trips_through_parse() {
    let address = Address::from_bytes((0u8..32).collect()).unwrap();
    let rendered = address.to_bech32();
    let parsed = Address::parse(&rendered).unwrap();
    assert_eq!(parsed, address);
}

#[test]
fn parse_input_reference_accepts_canonical_form() {
    let text = format!("{}:65535", "0f".repeat(32));
    let input = parse_input_reference(&text).unwrap();
    assert_eq!(input.transaction_id, vec![0x0f; 32]);
    assert_eq!(input.output_index, 65535);
}

#[test]
fn parse_input_reference_rejects_malformed_text() {
    let long_id = "0f".repeat(32);
    let bad_cases = vec![
        String::new(),
        "abc".to_string(),
        long_id.clone(),
        format!("{}:", long_id),
        format!("{}:65536", long_id),
        format!("{}:1x", long_id),
        format!("{}:-1", long_id),
        format!("{}0:1", long_id),
        format!("{}:1", "zz".repeat(32)),
    ];
    for bad in bad_cases {
        assert_eq!(
            parse_input_reference(&bad),
            Err(ConversionError::InvalidFormat(bad.clone())),
            "input {:?}",
            bad
        );
    }
}

#[test]
fn output_conversion_keeps_zero_and_maximum_amounts() {
    for amount in [0u64, u64::MAX] {
        let dto = OutputDto { address: "9e".repeat(32), amount };
        let output = dto.to_domain().unwrap();
        assert_eq!(output.amount, amount);
    }
}
