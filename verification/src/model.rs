//! The validated, immutable domain model: typed inputs, outputs, unlock
//! blocks, payloads and messages, together with the builders that enforce
//! structural completeness before a transaction essence or payload exists.

use vstd::prelude::*;

use crate::address::Address;
use crate::error::ConversionError;
use crate::error::ErrorV;

verus! {

/// Spec-level image of an [`Input`].
#[verifier::ext_equal]
pub struct InputV {
    pub transaction_id: Seq<u8>,
    pub output_index: u16,
}

/// Spec-level image of an [`Output`].
#[verifier::ext_equal]
pub struct OutputV {
    pub address: Seq<u8>,
    pub amount: u64,
}

/// Spec-level image of a [`SignatureUnlock`].
#[verifier::ext_equal]
pub struct SignatureUnlockV {
    pub public_key: Seq<u8>,
    pub signature: Seq<u8>,
}

/// Spec-level image of an [`UnlockBlock`].
#[verifier::ext_equal]
pub enum UnlockBlockV {
    Signature(SignatureUnlockV),
    Reference(u16),
}

/// Spec-level image of an [`IndexationPayload`].
#[verifier::ext_equal]
pub struct IndexationV {
    pub index: Seq<char>,
    pub data: Seq<u8>,
}

/// Spec-level image of a [`TransactionEssence`] (and of the state of an
/// [`EssenceBuilder`]).
#[verifier::ext_equal]
pub struct EssenceV {
    pub inputs: Seq<InputV>,
    pub outputs: Seq<OutputV>,
    pub payload: Option<IndexationV>,
}

/// Spec-level image of a [`TransactionPayload`].
#[verifier::ext_equal]
pub struct TransactionV {
    pub essence: EssenceV,
    pub unlock_blocks: Seq<UnlockBlockV>,
}

/// Spec-level image of a [`Payload`].
#[verifier::ext_equal]
pub enum PayloadV {
    Transaction(TransactionV),
    Indexation(IndexationV),
}

/// Spec-level image of a [`Message`].
#[verifier::ext_equal]
pub struct MessageV {
    pub parent1: Option<Seq<char>>,
    pub parent2: Option<Seq<char>>,
    pub payload: PayloadV,
}

/// A reference to a prior output: a 32-byte transaction id plus the index of
/// the output inside that transaction.
#[derive(Debug, Clone, PartialEq, Eq)]
pub struct Input {
    pub transaction_id: Vec<u8>,
    pub output_index: u16,
}

impl DeepView for Input {
    type V = InputV;

    open spec fn deep_view(&self) -> InputV {
        InputV { transaction_id: self.transaction_id@, output_index: self.output_index }
    }
}

impl Input {
    /// The transaction id has the fixed width of the identifier format.
    pub open spec fn wf(&self) -> bool {
        self.transaction_id@.len() == 32
    }
}

/// An output: a parsed address plus an amount. Zero and maximum amounts are
/// accepted structurally; range rules are the ledger builder's concern.
#[derive(Debug, Clone, PartialEq, Eq)]
pub struct Output {
    pub address: Address,
    pub amount: u64,
}

impl DeepView for Output {
    type V = OutputV;

    open spec fn deep_view(&self) -> OutputV {
        OutputV { address: self.address@, amount: self.amount }
    }
}

/// A signature unlock: an Ed25519 public key (exactly 32 bytes) and the raw
/// signature bytes. The cryptographic validity of the pair is not this
/// layer's concern.
#[derive(Debug, Clone, PartialEq, Eq)]
pub struct SignatureUnlock {
    pub public_key: Vec<u8>,
    pub signature: Vec<u8>,
}

impl DeepView for SignatureUnlock {
    type V = SignatureUnlockV;

    open spec fn deep_view(&self) -> SignatureUnlockV {
        SignatureUnlockV { public_key: self.public_key@, signature: self.signature@ }
    }
}

impl SignatureUnlock {
    /// The public key has the fixed width of the key format.
    pub open spec fn wf(&self) -> bool {
        self.public_key@.len() == 32
    }
}

/// Proof data authorizing consumption of an input: either a direct signature
/// or a reference to the position of another unlock block's signature.
#[derive(Debug, Clone, PartialEq, Eq)]
pub enum UnlockBlock {
    Signature(SignatureUnlock),
    Reference(u16),
}

impl DeepView for UnlockBlock {
    type V = UnlockBlockV;

    open spec fn deep_view(&self) -> UnlockBlockV {
        match self {
            UnlockBlock::Signature(s) => UnlockBlockV::Signature(s.deep_view()),
            UnlockBlock::Reference(i) => UnlockBlockV::Reference(*i),
        }
    }
}

/// A label is acceptable for an indexation payload: non-empty and at most 64
/// characters.
pub open spec fn valid_index(s: Seq<char>) -> bool {
    1 <= s.len() <= 64
}

/// An auxiliary labeled byte blob, attachable to a message or embedded in a
/// transaction essence. The label is validated at construction; the data is
/// carried as-is.
#[derive(Debug, Clone, PartialEq, Eq)]
pub struct IndexationPayload {
    index: String,
    data: Vec<u8>,
}

impl DeepView for IndexationPayload {
    type V = IndexationV;

    closed spec fn deep_view(&self) -> IndexationV {
        IndexationV { index: self.index@, data: self.data@ }
    }
}

impl IndexationPayload {
    /// Builds an indexation payload, rejecting a malformed label.
    pub fn new(index: String, data: Vec<u8>) -> (r: Result<IndexationPayload, ConversionError>)
        ensures
            match r {
                Ok(p) => valid_index(index@) && p.deep_view() == (IndexationV {
                    index: index@,
                    data: data@,
                }),
                Err(e) => !valid_index(index@) && e.deep_view() == ErrorV::InvalidFormat(index@),
            },
    {
        let len = index.as_str().unicode_len();
        if 1 <= len && len <= 64 {
            Ok(IndexationPayload { index, data })
        } else {
            Err(ConversionError::InvalidFormat(index))
        }
    }

    /// The label of this payload.
    pub fn index(&self) -> (r: &String)
        ensures
            r@ == self.deep_view().index,
    {
        &self.index
    }

    /// The raw data of this payload.
    pub fn data(&self) -> (r: &Vec<u8>)
        ensures
            r@ == self.deep_view().data,
    {
        &self.data
    }
}

/// The economically meaningful body of a transaction: ordered inputs, ordered
/// outputs, and an optional embedded indexation payload. Values exist only
/// through [`EssenceBuilder::finish`], which enforces at least one input and
/// one output.
#[derive(Debug, Clone, PartialEq, Eq)]
pub struct TransactionEssence {
    inputs: Vec<Input>,
    outputs: Vec<Output>,
    payload: Option<IndexationPayload>,
}

impl DeepView for TransactionEssence {
    type V = EssenceV;

    closed spec fn deep_view(&self) -> EssenceV {
        EssenceV {
            inputs: self.inputs.deep_view(),
            outputs: self.outputs.deep_view(),
            payload: self.payload.deep_view(),
        }
    }
}

impl TransactionEssence {
    /// Structural completeness: at least one input and at least one output.
    pub open spec fn wf(&self) -> bool {
        self.deep_view().inputs.len() >= 1 && self.deep_view().outputs.len() >= 1
    }

    /// The ordered inputs of this essence.
    pub fn inputs(&self) -> (r: &Vec<Input>)
        ensures
            r.deep_view() == self.deep_view().inputs,
    {
        &self.inputs
    }

    /// The ordered outputs of this essence.
    pub fn outputs(&self) -> (r: &Vec<Output>)
        ensures
            r.deep_view() == self.deep_view().outputs,
    {
        &self.outputs
    }

    /// The embedded indexation payload, if any.
    pub fn payload(&self) -> (r: &Option<IndexationPayload>)
        ensures
            r.deep_view() == self.deep_view().payload,
    {
        &self.payload
    }
}

/// Accumulates inputs, outputs and an optional embedded payload, and
/// finalizes into an immutable [`TransactionEssence`]. No partial essence is
/// ever exposed.
pub struct EssenceBuilder {
    inputs: Vec<Input>,
    outputs: Vec<Output>,
    payload: Option<IndexationPayload>,
}

impl DeepView for EssenceBuilder {
    type V = EssenceV;

    closed spec fn deep_view(&self) -> EssenceV {
        EssenceV {
            inputs: self.inputs.deep_view(),
            outputs: self.outputs.deep_view(),
            payload: self.payload.deep_view(),
        }
    }
}

impl EssenceBuilder {
    /// An empty builder: no inputs, no outputs, no embedded payload.
    pub fn new() -> (r: EssenceBuilder)
        ensures
            r.deep_view() == (EssenceV {
                inputs: Seq::<InputV>::empty(),
                outputs: Seq::<OutputV>::empty(),
                payload: None::<IndexationV>,
            }),
    {
        EssenceBuilder { inputs: Vec::new(), outputs: Vec::new(), payload: None }
    }

    /// Appends one input, preserving the order of earlier additions.
    pub fn add_input(self, input: Input) -> (r: EssenceBuilder)
        ensures
            r.deep_view() == (EssenceV {
                inputs: self.deep_view().inputs.push(input.deep_view()),
                ..self.deep_view()
            }),
    {
        let mut inputs = self.inputs;
        inputs.push(input);
        EssenceBuilder { inputs, outputs: self.outputs, payload: self.payload }
    }

    /// Appends one output, preserving the order of earlier additions.
    pub fn add_output(self, output: Output) -> (r: EssenceBuilder)
        ensures
            r.deep_view() == (EssenceV {
                outputs: self.deep_view().outputs.push(output.deep_view()),
                ..self.deep_view()
            }),
    {
        let mut outputs = self.outputs;
        outputs.push(output);
        EssenceBuilder { inputs: self.inputs, outputs, payload: self.payload }
    }

    /// Attaches the embedded indexation payload, replacing any earlier one.
    pub fn with_payload(self, payload: IndexationPayload) -> (r: EssenceBuilder)
        ensures
            r.deep_view() == (EssenceV {
                payload: Some(payload.deep_view()),
                ..self.deep_view()
            }),
    {
        EssenceBuilder { inputs: self.inputs, outputs: self.outputs, payload: Some(payload) }
    }

    /// Finalizes the essence. Fails with `BuilderError` exactly when the
    /// builder holds no input or no output; on success the input and output
    /// sequences preserve the order in which they were added.
    pub fn finish(self) -> (r: Result<TransactionEssence, ConversionError>)
        ensures
            match r {
                Ok(e) => self.deep_view().inputs.len() >= 1 && self.deep_view().outputs.len() >= 1
                    && e.deep_view() == self.deep_view() && e.wf(),
                Err(err) => (self.deep_view().inputs.len() == 0 || self.deep_view().outputs.len()
                    == 0) && err.deep_view() == ErrorV::BuilderError,
            },
    {
        if self.inputs.len() == 0 || self.outputs.len() == 0 {
            Err(ConversionError::BuilderError)
        } else {
            Ok(TransactionEssence { inputs: self.inputs, outputs: self.outputs, payload: self.payload })
        }
    }
}

/// A complete transaction payload: an essence plus the ordered unlock blocks
/// authorizing its inputs. Values exist only through
/// [`TransactionPayloadBuilder::finish`]. The number of unlock blocks is not
/// checked against the number of inputs at this layer.
#[derive(Debug, Clone, PartialEq, Eq)]
pub struct TransactionPayload {
    essence: TransactionEssence,
    unlock_blocks: Vec<UnlockBlock>,
}

impl DeepView for TransactionPayload {
    type V = TransactionV;

    closed spec fn deep_view(&self) -> TransactionV {
        TransactionV {
            essence: self.essence.deep_view(),
            unlock_blocks: self.unlock_blocks.deep_view(),
        }
    }
}

impl TransactionPayload {
    /// The essence of this transaction.
    pub fn essence(&self) -> (r: &TransactionEssence)
        ensures
            r.deep_view() == self.deep_view().essence,
    {
        &self.essence
    }

    /// The ordered unlock blocks of this transaction.
    pub fn unlock_blocks(&self) -> (r: &Vec<UnlockBlock>)
        ensures
            r.deep_view() == self.deep_view().unlock_blocks,
    {
        &self.unlock_blocks
    }
}

/// Composes an essence with an ordered sequence of unlock blocks into a
/// [`TransactionPayload`].
pub struct TransactionPayloadBuilder {
    essence: Option<TransactionEssence>,
    unlock_blocks: Vec<UnlockBlock>,
}

impl TransactionPayloadBuilder {
    /// The essence held so far, if any.
    pub closed spec fn spec_essence(&self) -> Option<EssenceV> {
        self.essence.deep_view()
    }

    /// The unlock blocks added so far, in order.
    pub closed spec fn spec_unlock_blocks(&self) -> Seq<UnlockBlockV> {
        self.unlock_blocks.deep_view()
    }

    /// An empty builder: no essence, no unlock blocks.
    pub fn new() -> (r: TransactionPayloadBuilder)
        ensures
            r.spec_essence() is None,
            r.spec_unlock_blocks() == Seq::<UnlockBlockV>::empty(),
    {
        TransactionPayloadBuilder { essence: None, unlock_blocks: Vec::new() }
    }

    /// Sets the essence, replacing any earlier one.
    pub fn with_essence(self, essence: TransactionEssence) -> (r: TransactionPayloadBuilder)
        ensures
            r.spec_essence() == Some(essence.deep_view()),
            r.spec_unlock_blocks() == self.spec_unlock_blocks(),
    {
        TransactionPayloadBuilder { essence: Some(essence), unlock_blocks: self.unlock_blocks }
    }

    /// Appends one unlock block, preserving the order of earlier additions.
    pub fn add_unlock_block(self, unlock_block: UnlockBlock) -> (r: TransactionPayloadBuilder)
        ensures
            r.spec_essence() == self.spec_essence(),
            r.spec_unlock_blocks() == self.spec_unlock_blocks().push(unlock_block.deep_view()),
    {
        let mut unlock_blocks = self.unlock_blocks;
        unlock_blocks.push(unlock_block);
        TransactionPayloadBuilder { essence: self.essence, unlock_blocks }
    }

    /// Finalizes the payload. Fails with `BuilderError` exactly when no
    /// essence was set; the unlock blocks keep their order.
    pub fn finish(self) -> (r: Result<TransactionPayload, ConversionError>)
        ensures
            match r {
                Ok(p) => self.spec_essence() == Some(p.deep_view().essence) && p.deep_view().unlock_blocks
                    == self.spec_unlock_blocks(),
                Err(err) => self.spec_essence() is None && err.deep_view() == ErrorV::BuilderError,
            },
    {
        match self.essence {
            Some(essence) => Ok(TransactionPayload { essence, unlock_blocks: self.unlock_blocks }),
            None => Err(ConversionError::BuilderError),
        }
    }
}

/// A message payload: either a full transaction or a bare indexation record.
#[derive(Debug, Clone, PartialEq, Eq)]
pub enum Payload {
    Transaction(TransactionPayload),
    Indexation(IndexationPayload),
}

impl DeepView for Payload {
    type V = PayloadV;

    open spec fn deep_view(&self) -> PayloadV {
        match self {
            Payload::Transaction(t) => PayloadV::Transaction(t.deep_view()),
            Payload::Indexation(i) => PayloadV::Indexation(i.deep_view()),
        }
    }
}

/// A validated ledger message: up to two parent message ids and a payload.
/// Parent ids are copied through unchanged; this layer does not validate
/// their format.
#[derive(Debug, Clone, PartialEq, Eq)]
pub struct Message {
    pub parent1: Option<String>,
    pub parent2: Option<String>,
    pub payload: Payload,
}

impl DeepView for Message {
    type V = MessageV;

    open spec fn deep_view(&self) -> MessageV {
        MessageV {
            parent1: self.parent1.deep_view(),
            parent2: self.parent2.deep_view(),
            payload: self.payload.deep_view(),
        }
    }
}

/// Spec-level image of an [`OutputMetadata`].
#[verifier::ext_equal]
pub struct OutputMetadataV {
    pub message_id: Seq<u8>,
    pub transaction_id: Seq<u8>,
    pub output_index: u16,
    pub is_spent: bool,
    pub address: Seq<u8>,
    pub amount: u64,
}

/// Read-model record: the spent status, owning address and amount of a
/// previously created transaction output.
#[derive(Debug, Clone, PartialEq, Eq)]
pub struct OutputMetadata {
    pub message_id: Vec<u8>,
    pub transaction_id: Vec<u8>,
    pub output_index: u16,
    pub is_spent: bool,
    pub address: Address,
    pub amount: u64,
}

impl DeepView for OutputMetadata {
    type V = OutputMetadataV;

    open spec fn deep_view(&self) -> OutputMetadataV {
        OutputMetadataV {
            message_id: self.message_id@,
            transaction_id: self.transaction_id@,
            output_index: self.output_index,
            is_spent: self.is_spent,
            address: self.address@,
            amount: self.amount,
        }
    }
}

/// Spec-level image of an [`AddressBalancePair`].
#[verifier::ext_equal]
pub struct AddressBalanceV {
    pub address: Seq<u8>,
    pub balance: u64,
}

/// Read-model record: an address together with its balance.
#[derive(Debug, Clone, PartialEq, Eq)]
pub struct AddressBalancePair {
    pub address: Address,
    pub balance: u64,
}

impl DeepView for AddressBalancePair {
    type V = AddressBalanceV;

    open spec fn deep_view(&self) -> AddressBalanceV {
        AddressBalanceV { address: self.address@, balance: self.balance }
    }
}

} // verus!
