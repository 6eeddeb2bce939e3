//! The wire-side records and their conversions: untrusted wire data is turned
//! into validated domain values (failing fast with a typed error), and
//! read-model query results are rendered back into wire response records.

use vstd::prelude::*;

use crate::address::{
    spec_address_bech32, spec_parse_address, spec_parse_input, parse_input_reference, Address,
};
use crate::error::{res_view, ConversionError, ErrorV};
use crate::hexcodec::{bytes_of_hex, hex_decode, hex_encode, hex_of, is_hex_seq};
use crate::model::{
    valid_index, AddressBalancePair, AddressBalanceV, EssenceBuilder, EssenceV, IndexationPayload,
    IndexationV, Input, InputV, Message, MessageV, Output, OutputMetadata, OutputMetadataV,
    OutputV, Payload, PayloadV, SignatureUnlock, SignatureUnlockV, TransactionEssence,
    TransactionPayload, TransactionPayloadBuilder, TransactionV, UnlockBlock, UnlockBlockV,
};

verus! {

/// A wire output record: an address string plus an amount.
#[derive(Debug, Clone, PartialEq, Eq)]
pub struct OutputDto {
    pub address: String,
    pub amount: u64,
}

/// A wire transaction essence: input reference strings, output records, and
/// an optional embedded payload (only an indexation payload is a supported
/// shape there).
#[derive(Debug, PartialEq, Eq)]
pub struct MessageTransactionPayloadEssenceDto {
    pub inputs: Vec<String>,
    pub outputs: Vec<OutputDto>,
    pub payload: Option<Box<MessagePayloadDto>>,
}

/// A wire signature unlock: hex public key and hex signature.
#[derive(Debug, Clone, PartialEq, Eq)]
pub struct MessageSignatureUnlockDto {
    pub public_key: String,
    pub signature: String,
}

/// A wire unlock block: a signature, or a reference index. Exactly one should
/// be present; when both are, the signature takes priority.
#[derive(Debug, Clone, PartialEq, Eq)]
pub struct MessageUnlockBlockJsonDto {
    pub signature: Option<MessageSignatureUnlockDto>,
    pub reference: Option<u16>,
}

/// A wire transaction payload: an essence plus ordered unlock blocks.
#[derive(Debug, PartialEq, Eq)]
pub struct MessageTransactionPayloadDto {
    pub essence: MessageTransactionPayloadEssenceDto,
    pub unlock_blocks: Vec<MessageUnlockBlockJsonDto>,
}

/// A wire indexation payload: a label plus raw bytes.
#[derive(Debug, Clone, PartialEq, Eq)]
pub struct MessageIndexationPayloadDto {
    pub index: String,
    pub data: Vec<u8>,
}

/// A wire message payload, already discriminated between the transaction and
/// the indexation shape.
#[derive(Debug, PartialEq, Eq)]
pub enum MessagePayloadDto {
    /// The transaction payload.
    Transaction(MessageTransactionPayloadDto),
    /// The indexation payload.
    Indexation(MessageIndexationPayloadDto),
}

/// A wire message: up to two parent message ids plus a payload.
#[derive(Debug, PartialEq, Eq)]
pub struct MessageDto {
    pub parent1: Option<String>,
    pub parent2: Option<String>,
    pub payload: MessagePayloadDto,
}

/// What converting a wire output yields: the parsed address with the amount,
/// or `InvalidFormat` carrying the offending address string.
pub open spec fn spec_output_to_domain(d: OutputDto) -> Result<OutputV, ErrorV> {
    match spec_parse_address(d.address@) {
        Some(a) => Ok(OutputV { address: a, amount: d.amount }),
        None => Err(ErrorV::InvalidFormat(d.address@)),
    }
}

/// What converting a wire signature unlock yields: both hex fields decoded,
/// with the public key exactly 32 bytes, or `InvalidEncoding`.
pub open spec fn spec_sig_to_domain(d: MessageSignatureUnlockDto) -> Result<
    SignatureUnlockV,
    ErrorV,
> {
    if is_hex_seq(d.public_key@) && d.public_key@.len() == 64 && is_hex_seq(d.signature@) {
        Ok(
            SignatureUnlockV {
                public_key: bytes_of_hex(d.public_key@),
                signature: bytes_of_hex(d.signature@),
            },
        )
    } else {
        Err(ErrorV::InvalidEncoding)
    }
}

/// What converting a wire unlock block yields: the signature variant when a
/// signature is present (it takes priority), the reference variant when only
/// a reference is, and `MissingUnlockData` when neither is.
pub open spec fn spec_unlock_to_domain(d: MessageUnlockBlockJsonDto) -> Result<
    UnlockBlockV,
    ErrorV,
> {
    match d.signature {
        Some(sig) => match spec_sig_to_domain(sig) {
            Ok(su) => Ok(UnlockBlockV::Signature(su)),
            Err(e) => Err(e),
        },
        None => match d.reference {
            Some(i) => Ok(UnlockBlockV::Reference(i)),
            None => Err(ErrorV::MissingUnlockData),
        },
    }
}

/// First-failure conversion of the input reference strings, in order; a
/// failure carries the offending string as `InvalidInput`.
pub open spec fn spec_convert_inputs(ss: Seq<String>) -> Result<Seq<InputV>, ErrorV>
    decreases ss.len(),
{
    if ss.len() == 0 {
        Ok(Seq::<InputV>::empty())
    } else {
        match spec_parse_input(ss[0]@) {
            Some(iv) => match spec_convert_inputs(ss.drop_first()) {
                Ok(rest) => Ok(seq![iv] + rest),
                Err(e) => Err(e),
            },
            None => Err(ErrorV::InvalidInput(ss[0]@)),
        }
    }
}

/// First-failure conversion of the wire outputs, in order; a failure carries
/// the offending address string as `InvalidOutput`.
pub open spec fn spec_convert_outputs(ds: Seq<OutputDto>) -> Result<Seq<OutputV>, ErrorV>
    decreases ds.len(),
{
    if ds.len() == 0 {
        Ok(Seq::<OutputV>::empty())
    } else {
        match spec_output_to_domain(ds[0]) {
            Ok(ov) => match spec_convert_outputs(ds.drop_first()) {
                Ok(rest) => Ok(seq![ov] + rest),
                Err(e) => Err(e),
            },
            Err(_) => Err(ErrorV::InvalidOutput(ds[0].address@)),
        }
    }
}

/// First-failure conversion of the wire unlock blocks, in order, propagating
/// each block's own error.
pub open spec fn spec_convert_unlocks(ds: Seq<MessageUnlockBlockJsonDto>) -> Result<
    Seq<UnlockBlockV>,
    ErrorV,
>
    decreases ds.len(),
{
    if ds.len() == 0 {
        Ok(Seq::<UnlockBlockV>::empty())
    } else {
        match spec_unlock_to_domain(ds[0]) {
            Ok(uv) => match spec_convert_unlocks(ds.drop_first()) {
                Ok(rest) => Ok(seq![uv] + rest),
                Err(e) => Err(e),
            },
            Err(e) => Err(e),
        }
    }
}

/// What the embedded payload of a wire essence yields: nothing, a validated
/// indexation payload, or a failure — `InvalidFormat` for a malformed label,
/// `BuilderError` for the unsupported nested transaction shape.
pub open spec fn spec_embedded_payload(p: Option<Box<MessagePayloadDto>>) -> Result<
    Option<IndexationV>,
    ErrorV,
> {
    match p {
        None => Ok(None::<IndexationV>),
        Some(b) => match *b {
            MessagePayloadDto::Indexation(ip) => if valid_index(ip.index@) {
                Ok(Some(IndexationV { index: ip.index@, data: ip.data@ }))
            } else {
                Err(ErrorV::InvalidFormat(ip.index@))
            },
            MessagePayloadDto::Transaction(_) => Err(ErrorV::BuilderError),
        },
    }
}

/// What converting a wire essence yields: all inputs parsed, then all
/// outputs, then the embedded payload, then the completeness rule (at least
/// one input and one output) — the first failure wins.
pub open spec fn spec_essence_to_domain(d: MessageTransactionPayloadEssenceDto) -> Result<
    EssenceV,
    ErrorV,
> {
    match spec_convert_inputs(d.inputs@) {
        Err(e) => Err(e),
        Ok(ins) => match spec_convert_outputs(d.outputs@) {
            Err(e) => Err(e),
            Ok(outs) => match spec_embedded_payload(d.payload) {
                Err(e) => Err(e),
                Ok(pl) => if ins.len() >= 1 && outs.len() >= 1 {
                    Ok(EssenceV { inputs: ins, outputs: outs, payload: pl })
                } else {
                    Err(ErrorV::BuilderError)
                },
            },
        },
    }
}

/// What converting a wire transaction payload yields: the essence, then the
/// unlock blocks in order, first failure wins.
pub open spec fn spec_transaction_to_domain(d: MessageTransactionPayloadDto) -> Result<
    TransactionV,
    ErrorV,
> {
    match spec_essence_to_domain(d.essence) {
        Err(e) => Err(e),
        Ok(ess) => match spec_convert_unlocks(d.unlock_blocks@) {
            Err(e) => Err(e),
            Ok(ubs) => Ok(TransactionV { essence: ess, unlock_blocks: ubs }),
        },
    }
}

/// What converting a wire payload yields, by its already discriminated shape.
pub open spec fn spec_payload_to_domain(d: MessagePayloadDto) -> Result<PayloadV, ErrorV> {
    match d {
        MessagePayloadDto::Transaction(t) => match spec_transaction_to_domain(t) {
            Ok(tv) => Ok(PayloadV::Transaction(tv)),
            Err(e) => Err(e),
        },
        MessagePayloadDto::Indexation(ip) => if valid_index(ip.index@) {
            Ok(PayloadV::Indexation(IndexationV { index: ip.index@, data: ip.data@ }))
        } else {
            Err(ErrorV::InvalidFormat(ip.index@))
        },
    }
}

/// What converting a wire message yields: the payload converted, the parent
/// ids copied through unchanged.
pub open spec fn spec_message_to_domain(d: MessageDto) -> Result<MessageV, ErrorV> {
    match spec_payload_to_domain(d.payload) {
        Ok(p) => Ok(
            MessageV {
                parent1: d.parent1.deep_view(),
                parent2: d.parent2.deep_view(),
                payload: p,
            },
        ),
        Err(e) => Err(e),
    }
}

impl OutputDto {
    /// Converts the wire output into a domain output by parsing its address.
    pub fn to_domain(&self) -> (r: Result<Output, ConversionError>)
        ensures
            res_view(r) == spec_output_to_domain(*self),
    {
        match Address::parse(self.address.as_str()) {
            Ok(a) => Ok(Output { address: a, amount: self.amount }),
            Err(e) => Err(e),
        }
    }
}

impl Output {
    /// Renders the output in wire form, with the address in its raw hex form.
    pub fn to_wire(&self) -> (r: OutputDto)
        ensures
            r.address@ == hex_of(self.address@),
            r.amount == self.amount,
    {
        OutputDto { address: self.address.to_hex(), amount: self.amount }
    }
}

impl MessageSignatureUnlockDto {
    /// Converts the wire signature unlock by decoding both hex fields; the
    /// public key must be exactly 32 bytes.
    pub fn to_domain(&self) -> (r: Result<SignatureUnlock, ConversionError>)
        ensures
            res_view(r) == spec_sig_to_domain(*self),
    {
        let pk = match hex_decode(self.public_key.as_str()) {
            Some(b) => b,
            None => {
                return Err(ConversionError::InvalidEncoding);
            },
        };
        if pk.len() != 32 {
            return Err(ConversionError::InvalidEncoding);
        }
        let sig = match hex_decode(self.signature.as_str()) {
            Some(b) => b,
            None => {
                return Err(ConversionError::InvalidEncoding);
            },
        };
        Ok(SignatureUnlock { public_key: pk, signature: sig })
    }
}

impl MessageUnlockBlockJsonDto {
    /// Discriminates the wire unlock block: a present signature takes
    /// priority, then a present reference; neither present is
    /// `MissingUnlockData`.
    pub fn to_domain(&self) -> (r: Result<UnlockBlock, ConversionError>)
        ensures
            res_view(r) == spec_unlock_to_domain(*self),
    {
        match &self.signature {
            Some(sig) => match sig.to_domain() {
                Ok(su) => Ok(UnlockBlock::Signature(su)),
                Err(e) => Err(e),
            },
            None => match self.reference {
                Some(i) => Ok(UnlockBlock::Reference(i)),
                None => Err(ConversionError::MissingUnlockData),
            },
        }
    }
}

impl MessageTransactionPayloadEssenceDto {
    /// Converts the wire essence through the essence builder: every input
    /// parsed in order, every output in order, then the embedded payload,
    /// then finalization.
    pub fn to_domain(self) -> (r: Result<TransactionEssence, ConversionError>)
        ensures
            res_view(r) == spec_essence_to_domain(self),
    {
        let ghost ins_full = self.inputs@;
        let ghost outs_full = self.outputs@;
        let mut builder = EssenceBuilder::new();
        proof {
            assert(ins_full.skip(0) =~= ins_full);
            match spec_convert_inputs(ins_full) {
                Ok(rest) => {
                    assert(Seq::<InputV>::empty() + rest =~= rest);
                },
                Err(_) => {},
            }
        }
        let mut i: usize = 0;
        while i < self.inputs.len()
            invariant
                i <= ins_full.len(),
                self.inputs@ == ins_full,
                builder.deep_view().outputs == Seq::<OutputV>::empty(),
                builder.deep_view().payload is None,
                match spec_convert_inputs(ins_full.skip(i as int)) {
                    Ok(rest) => spec_convert_inputs(ins_full) == Ok::<Seq<InputV>, ErrorV>(
                        builder.deep_view().inputs + rest,
                    ),
                    Err(e) => spec_convert_inputs(ins_full) == Err::<Seq<InputV>, ErrorV>(e),
                },
            decreases ins_full.len() - i,
        {
            proof {
                assert(ins_full.skip(i as int)[0] == ins_full[i as int]);
                assert(ins_full.skip(i as int).drop_first() =~= ins_full.skip(i + 1));
            }
            match parse_input_reference(self.inputs[i].as_str()) {
                Ok(input) => {
                    let ghost before = builder.deep_view().inputs;
                    builder = builder.add_input(input);
                    proof {
                        match spec_convert_inputs(ins_full.skip(i + 1)) {
                            Ok(rest) => {
                                assert(before + (seq![input.deep_view()] + rest)
                                    =~= builder.deep_view().inputs + rest);
                            },
                            Err(_) => {},
                        }
                    }
                },
                Err(_) => {
                    return Err(ConversionError::InvalidInput(self.inputs[i].clone()));
                },
            }
            i += 1;
        }
        proof {
            assert(ins_full.skip(ins_full.len() as int) =~= Seq::<String>::empty());
            assert(builder.deep_view().inputs + Seq::<InputV>::empty()
                =~= builder.deep_view().inputs);
        }
        let ghost ins_converted = builder.deep_view().inputs;
        proof {
            assert(outs_full.skip(0) =~= outs_full);
            match spec_convert_outputs(outs_full) {
                Ok(rest) => {
                    assert(Seq::<OutputV>::empty() + rest =~= rest);
                },
                Err(_) => {},
            }
        }
        let mut j: usize = 0;
        while j < self.outputs.len()
            invariant
                j <= outs_full.len(),
                self.inputs@ == ins_full,
                self.outputs@ == outs_full,
                spec_convert_inputs(ins_full) == Ok::<Seq<InputV>, ErrorV>(ins_converted),
                builder.deep_view().inputs == ins_converted,
                builder.deep_view().payload is None,
                match spec_convert_outputs(outs_full.skip(j as int)) {
                    Ok(rest) => spec_convert_outputs(outs_full) == Ok::<Seq<OutputV>, ErrorV>(
                        builder.deep_view().outputs + rest,
                    ),
                    Err(e) => spec_convert_outputs(outs_full) == Err::<Seq<OutputV>, ErrorV>(e),
                },
            decreases outs_full.len() - j,
        {
            proof {
                assert(outs_full.skip(j as int)[0] == outs_full[j as int]);
                assert(outs_full.skip(j as int).drop_first() =~= outs_full.skip(j + 1));
            }
            match self.outputs[j].to_domain() {
                Ok(output) => {
                    let ghost before = builder.deep_view().outputs;
                    builder = builder.add_output(output);
                    proof {
                        match spec_convert_outputs(outs_full.skip(j + 1)) {
                            Ok(rest) => {
                                assert(before + (seq![output.deep_view()] + rest)
                                    =~= builder.deep_view().outputs + rest);
                            },
                            Err(_) => {},
                        }
                    }
                },
                Err(_) => {
                    return Err(ConversionError::InvalidOutput(self.outputs[j].address.clone()));
                },
            }
            j += 1;
        }
        proof {
            assert(outs_full.skip(outs_full.len() as int) =~= Seq::<OutputDto>::empty());
            assert(builder.deep_view().outputs + Seq::<OutputV>::empty()
                =~= builder.deep_view().outputs);
        }
        match self.payload {
            Some(boxed) => {
                match *boxed {
                    MessagePayloadDto::Indexation(ip) => {
                        match IndexationPayload::new(ip.index, ip.data) {
                            Ok(p) => {
                                builder = builder.with_payload(p);
                            },
                            Err(e) => {
                                return Err(e);
                            },
                        }
                    },
                    MessagePayloadDto::Transaction(_) => {
                        return Err(ConversionError::BuilderError);
                    },
                }
            },
            None => {},
        }
        builder.finish()
    }
}

impl MessageTransactionPayloadDto {
    /// Converts the wire transaction payload: the essence first, then every
    /// unlock block in order, composed through the payload builder.
    pub fn to_domain(self) -> (r: Result<TransactionPayload, ConversionError>)
        ensures
            res_view(r) == spec_transaction_to_domain(self),
    {
        let unlock_dtos = self.unlock_blocks;
        let ghost ubs_full = unlock_dtos@;
        let essence = match self.essence.to_domain() {
            Ok(e) => e,
            Err(e) => {
                return Err(e);
            },
        };
        let ghost ess_v = essence.deep_view();
        let mut builder = TransactionPayloadBuilder::new().with_essence(essence);
        proof {
            assert(ubs_full.skip(0) =~= ubs_full);
            match spec_convert_unlocks(ubs_full) {
                Ok(rest) => {
                    assert(Seq::<UnlockBlockV>::empty() + rest =~= rest);
                },
                Err(_) => {},
            }
        }
        let mut i: usize = 0;
        while i < unlock_dtos.len()
            invariant
                i <= ubs_full.len(),
                unlock_dtos@ == ubs_full,
                self.unlock_blocks@ == ubs_full,
                builder.spec_essence() == Some(ess_v),
                spec_essence_to_domain(self.essence) == Ok::<EssenceV, ErrorV>(ess_v),
                match spec_convert_unlocks(ubs_full.skip(i as int)) {
                    Ok(rest) => spec_convert_unlocks(ubs_full) == Ok::<Seq<UnlockBlockV>, ErrorV>(
                        builder.spec_unlock_blocks() + rest,
                    ),
                    Err(e) => spec_convert_unlocks(ubs_full) == Err::<Seq<UnlockBlockV>, ErrorV>(e),
                },
            decreases ubs_full.len() - i,
        {
            proof {
                assert(ubs_full.skip(i as int)[0] == ubs_full[i as int]);
                assert(ubs_full.skip(i as int).drop_first() =~= ubs_full.skip(i + 1));
            }
            match unlock_dtos[i].to_domain() {
                Ok(ub) => {
                    let ghost before = builder.spec_unlock_blocks();
                    builder = builder.add_unlock_block(ub);
                    proof {
                        match spec_convert_unlocks(ubs_full.skip(i + 1)) {
                            Ok(rest) => {
                                assert(before + (seq![ub.deep_view()] + rest)
                                    =~= builder.spec_unlock_blocks() + rest);
                            },
                            Err(_) => {},
                        }
                    }
                },
                Err(e) => {
                    return Err(e);
                },
            }
            i += 1;
        }
        proof {
            assert(ubs_full.skip(ubs_full.len() as int)
                =~= Seq::<MessageUnlockBlockJsonDto>::empty());
            assert(builder.spec_unlock_blocks() + Seq::<UnlockBlockV>::empty()
                =~= builder.spec_unlock_blocks());
        }
        match builder.finish() {
            Ok(p) => Ok(p),
            Err(e) => {
                proof {
                    assert(false);
                }
                Err(e)
            },
        }
    }
}

impl MessagePayloadDto {
    /// Converts the wire payload by its shape: a transaction through the
    /// transaction codec, an indexation record directly.
    pub fn to_domain(self) -> (r: Result<Payload, ConversionError>)
        ensures
            res_view(r) == spec_payload_to_domain(self),
    {
        match self {
            MessagePayloadDto::Transaction(t) => match t.to_domain() {
                Ok(tp) => Ok(Payload::Transaction(tp)),
                Err(e) => Err(e),
            },
            MessagePayloadDto::Indexation(ip) => match IndexationPayload::new(ip.index, ip.data) {
                Ok(p) => Ok(Payload::Indexation(p)),
                Err(e) => Err(e),
            },
        }
    }
}

impl MessageDto {
    /// Converts the wire message: the payload converted, the parent ids
    /// copied through unchanged.
    pub fn to_domain(self) -> (r: Result<Message, ConversionError>)
        ensures
            res_view(r) == spec_message_to_domain(self),
    {
        match self.payload.to_domain() {
            Ok(p) => Ok(Message { parent1: self.parent1, parent2: self.parent2, payload: p }),
            Err(e) => Err(e),
        }
    }
}

/// Spec-level image of an [`OutputMetadataDto`].
#[verifier::ext_equal]
pub struct OutputMetadataDtoV {
    pub message_id: Seq<char>,
    pub transaction_id: Seq<char>,
    pub output_index: u16,
    pub is_spent: bool,
    pub address: Seq<char>,
    pub amount: u64,
}

/// Wire response record for the metadata of a transaction output.
#[derive(Debug, Clone, PartialEq, Eq)]
pub struct OutputMetadataDto {
    pub message_id: String,
    pub transaction_id: String,
    pub output_index: u16,
    pub is_spent: bool,
    pub address: String,
    pub amount: u64,
}

impl DeepView for OutputMetadataDto {
    type V = OutputMetadataDtoV;

    open spec fn deep_view(&self) -> OutputMetadataDtoV {
        OutputMetadataDtoV {
            message_id: self.message_id@,
            transaction_id: self.transaction_id@,
            output_index: self.output_index,
            is_spent: self.is_spent,
            address: self.address@,
            amount: self.amount,
        }
    }
}

/// What rendering output metadata yields: ids in lowercase hex, index, spent
/// flag and amount copied, the address in its canonical encoding.
pub open spec fn spec_metadata_response(m: OutputMetadataV) -> OutputMetadataDtoV {
    OutputMetadataDtoV {
        message_id: hex_of(m.message_id),
        transaction_id: hex_of(m.transaction_id),
        output_index: m.output_index,
        is_spent: m.is_spent,
        address: spec_address_bech32(m.address),
        amount: m.amount,
    }
}

impl OutputMetadata {
    /// Renders the read-model record as a wire response; this never fails.
    pub fn to_response(&self) -> (r: OutputMetadataDto)
        ensures
            r.deep_view() == spec_metadata_response(self.deep_view()),
    {
        let r = OutputMetadataDto {
            message_id: hex_encode(self.message_id.as_slice()),
            transaction_id: hex_encode(self.transaction_id.as_slice()),
            output_index: self.output_index,
            is_spent: self.is_spent,
            address: self.address.to_bech32(),
            amount: self.amount,
        };
        proof {
            assert(r.deep_view() =~= spec_metadata_response(self.deep_view()));
        }
        r
    }
}

/// Spec-level image of an [`AddressBalanceDto`].
#[verifier::ext_equal]
pub struct AddressBalanceDtoV {
    pub address: Seq<char>,
    pub balance: u64,
}

/// Wire response record for an address together with its balance.
#[derive(Debug, Clone, PartialEq, Eq)]
pub struct AddressBalanceDto {
    pub address: String,
    pub balance: u64,
}

impl DeepView for AddressBalanceDto {
    type V = AddressBalanceDtoV;

    open spec fn deep_view(&self) -> AddressBalanceDtoV {
        AddressBalanceDtoV { address: self.address@, balance: self.balance }
    }
}

/// What rendering an address balance pair yields: the address in its raw hex
/// string form, the balance copied.
pub open spec fn spec_balance_response(p: AddressBalanceV) -> AddressBalanceDtoV {
    AddressBalanceDtoV { address: hex_of(p.address), balance: p.balance }
}

impl AddressBalancePair {
    /// Renders the read-model record as a wire response; this never fails.
    pub fn to_response(&self) -> (r: AddressBalanceDto)
        ensures
            r.deep_view() == spec_balance_response(self.deep_view()),
    {
        let r = AddressBalanceDto { address: self.address.to_hex(), balance: self.balance };
        proof {
            assert(r.deep_view() =~= spec_balance_response(self.deep_view()));
        }
        r
    }
}

} // verus!
