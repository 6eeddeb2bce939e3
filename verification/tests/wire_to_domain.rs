use iota_msg_codec::address::Address;
use iota_msg_codec::dto::{
    MessageDto, MessageIndexationPayloadDto, MessagePayloadDto, MessageSignatureUnlockDto,
    MessageTransactionPayloadDto, MessageTransactionPayloadEssenceDto, MessageUnlockBlockJsonDto,
    OutputDto,
};
use iota_msg_codec::error::ConversionError;
use iota_msg_codec::model::{Payload, UnlockBlock};

fn tid_hex() -> String {
    "a5".repeat(32)
}

#[test]
fn unlock_block_with_neither_field_is_missing_unlock_data() {
    let dto = MessageUnlockBlockJsonDto { signature: None, reference: None };
    assert_eq!(dto.to_domain(), Err(ConversionError::MissingUnlockData));
}

#[test]
fn unlock_block_reference_converts_to_reference_variant() {
    let dto = MessageUnlockBlockJsonDto { signature: None, reference: Some(3) };
    assert_eq!(dto.to_domain(), Ok(UnlockBlock::Reference(3)));
}

#[test]
fn unlock_block_signature_takes_priority_over_reference() {
    let dto = MessageUnlockBlockJsonDto {
        signature: Some(MessageSignatureUnlockDto {
            public_key: "aa".repeat(32),
            signature: "bb".repeat(8),
        }),
        reference: Some(7),
    };
    match dto.to_domain() {
        Ok(UnlockBlock::Signature(su)) => {
            assert_eq!(su.public_key, vec![0xaa; 32]);
            assert_eq!(su.signature, vec![0xbb; 8]);
        }
        other => panic!("expected a signature unlock, got {:?}", other),
    }
}

#[test]
fn public_key_of_wrong_length_is_invalid_encoding() {
    let bad_keys =
        vec![String::new(), "aa".to_string(), "aa".repeat(31), "aa".repeat(33), "a".repeat(63)];
    for bad in bad_keys {
        let dto = MessageSignatureUnlockDto { public_key: bad.clone(), signature: "bb".repeat(8) };
        assert_eq!(dto.to_domain(), Err(ConversionError::InvalidEncoding), "input {:?}", bad);
    }
}

#[test]
fn public_key_with_non_hex_character_is_invalid_encoding() {
    let mut pk = "aa".repeat(31);
    pk.push_str("zz");
    let dto = MessageSignatureUnlockDto { public_key: pk, signature: "bb".repeat(8) };
    assert_eq!(dto.to_domain(), Err(ConversionError::InvalidEncoding));
}

#[test]
fn malformed_signature_hex_is_invalid_encoding() {
    let dto = MessageSignatureUnlockDto { public_key: "aa".repeat(32), signature: "b".to_string() };
    assert_eq!(dto.to_domain(), Err(ConversionError::InvalidEncoding));
}

#[test]
fn transaction_scenario_one_input_one_output_one_signature() {
    let address = Address::from_bytes(vec![0x11; 32]).unwrap();
    let bech = address.to_bech32();
    assert!(bech.starts_with("iota1q"));

    let dto = MessageTransactionPayloadDto {
        essence: MessageTransactionPayloadEssenceDto {
            inputs: vec![format!("{}:0", tid_hex())],
            outputs: vec![OutputDto { address: bech, amount: 1000 }],
            payload: None,
        },
        unlock_blocks: vec![MessageUnlockBlockJsonDto {
            signature: Some(MessageSignatureUnlockDto {
                public_key: "aa".repeat(32),
                signature: "bb".repeat(32),
            }),
            reference: None,
        }],
    };
    let payload = dto.to_domain().unwrap();
    let essence = payload.essence();
    assert_eq!(essence.inputs().len(), 1);
    assert_eq!(essence.inputs()[0].transaction_id, vec![0xa5; 32]);
    assert_eq!(essence.inputs()[0].output_index, 0);
    assert_eq!(essence.outputs().len(), 1);
    assert_eq!(essence.outputs()[0].amount, 1000);
    assert_eq!(essence.outputs()[0].address, Address::from_bytes(vec![0x11; 32]).unwrap());
    assert!(essence.payload().is_none());
    assert_eq!(payload.unlock_blocks().len(), 1);
    match &payload.unlock_blocks()[0] {
        UnlockBlock::Signature(su) => assert_eq!(su.public_key, vec![0xaa; 32]),
        other => panic!("expected a signature unlock, got {:?}", other),
    }
}

#[test]
fn indexation_message_scenario() {
    let dto = MessageDto {
        parent1: Some("p1".to_string()),
        parent2: None,
        payload: MessagePayloadDto::Indexation(MessageIndexationPayloadDto {
            index: "MYIDX".to_string(),
            data: vec![1, 2, 3],
        }),
    };
    let message = dto.to_domain().unwrap();
    assert_eq!(message.parent1, Some("p1".to_string()));
    assert_eq!(message.parent2, None);
    match &message.payload {
        Payload::Indexation(ip) => {
            assert_eq!(ip.index().as_str(), "MYIDX");
            assert_eq!(ip.data(), &vec![1u8, 2, 3]);
        }
        other => panic!("expected an indexation payload, got {:?}", other),
    }
}

#[test]
fn bad_input_reference_fails_with_invalid_input() {
    let dto = MessageTransactionPayloadEssenceDto {
        inputs: vec!["not-a-reference".to_string()],
        outputs: vec![OutputDto { address: "11".repeat(32), amount: 5 }],
        payload: None,
    };
    assert_eq!(
        dto.to_domain(),
        Err(ConversionError::InvalidInput("not-a-reference".to_string()))
    );
}

#[test]
fn bad_output_address_fails_with_invalid_output() {
    let dto = MessageTransactionPayloadEssenceDto {
        inputs: vec![format!("{}:1", tid_hex())],
        outputs: vec![OutputDto { address: "what".to_string(), amount: 5 }],
        payload: None,
    };
    assert_eq!(dto.to_domain(), Err(ConversionError::InvalidOutput("what".to_string())));
}

#[test]
fn first_bad_input_wins_over_later_bad_output() {
    let dto = MessageTransactionPayloadEssenceDto {
        inputs: vec![format!("{}:1", tid_hex()), "broken".to_string()],
        outputs: vec![OutputDto { address: "also broken".to_string(), amount: 5 }],
        payload: None,
    };
    assert_eq!(dto.to_domain(), Err(ConversionError::InvalidInput("broken".to_string())));
}

#[test]
fn nested_transaction_payload_in_essence_is_builder_error() {
    let inner = MessageTransactionPayloadDto {
        essence: MessageTransactionPayloadEssenceDto {
            inputs: vec![],
            outputs: vec![],
            payload: None,
        },
        unlock_blocks: vec![],
    };
    let dto = MessageTransactionPayloadEssenceDto {
        inputs: vec![format!("{}:1", tid_hex())],
        outputs: vec![OutputDto { address: "11".repeat(32), amount: 5 }],
        payload: Some(Box::new(MessagePayloadDto::Transaction(inner))),
    };
    assert_eq!(dto.to_domain(), Err(ConversionError::BuilderError));
}

#[test]
fn embedded_indexation_payload_is_attached() {
    let dto = MessageTransactionPayloadEssenceDto {
        inputs: vec![format!("{}:1", tid_hex())],
        outputs: vec![OutputDto { address: "11".repeat(32), amount: 5 }],
        payload: Some(Box::new(MessagePayloadDto::Indexation(MessageIndexationPayloadDto {
            index: "TAG".to_string(),
            data: vec![9],
        }))),
    };
    let essence = dto.to_domain().unwrap();
    let ip = essence.payload().as_ref().unwrap();
    assert_eq!(ip.index().as_str(), "TAG");
    assert_eq!(ip.data(), &vec![9u8]);
}

#[test]
fn indexation_label_too_long_is_invalid_format() {
    let label = "X".repeat(65);
    let dto = MessageDto {
        parent1: None,
        parent2: None,
        payload: MessagePayloadDto::Indexation(MessageIndexationPayloadDto {
            index: label.clone(),
            data: vec![],
        }),
    };
    assert_eq!(dto.to_domain(), Err(ConversionError::InvalidFormat(label)));
}

#[test]
fn indexation_empty_label_is_invalid_format() {
    let dto = MessageDto {
        parent1: None,
        parent2: None,
        payload: MessagePayloadDto::Indexation(MessageIndexationPayloadDto {
            index: String::new(),
            data: vec![1],
        }),
    };
    assert_eq!(dto.to_domain(), Err(ConversionError::InvalidFormat(String::new())));
}
