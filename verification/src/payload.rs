//! The trigger dispatcher: what a trigger hands to its action, as an owned
//! occurrence payload, as the description of the JSON document that is
//! delivered, and as the request or the file write that delivers it.

use crate::chainhook::BitcoinChainhookInstance;
use crate::evaluator::{
    hits_of, transactions_of, BitcoinTriggerChainhook, BlockHits, TriggerView,
};
use crate::predicate::BitcoinPredicateType;
use crate::types::{
    transactions_view, BitcoinBlockData, BitcoinBlockDataView, BitcoinBlockMetadata,
    BitcoinTransactionData, BlockIdentifier, HookAction, HttpHook, StacksBaseChainOperation,
    TransactionIdentifier, TxIn, TxOut,
};
use vstd::prelude::*;
use vstd::string::StringExecFns;

verus! {

/// One block of an occurrence, holding the transactions that matched.
#[derive(Clone, Debug)]
pub struct BitcoinTransactionPayload {
    pub block: BitcoinBlockData,
}

/// The predicate of an occurrence.
#[derive(Clone, Debug)]
pub struct BitcoinChainhookPayload {
    pub uuid: String,
}

/// What a trigger hands to its action, with nothing borrowed.
#[derive(Clone, Debug)]
pub struct BitcoinChainhookOccurrencePayload {
    pub apply: Vec<BitcoinTransactionPayload>,
    pub rollback: Vec<BitcoinTransactionPayload>,
    pub chainhook: BitcoinChainhookPayload,
}

/// A block with its transactions replaced by the given ones.
pub open spec fn block_holding(
    block: BitcoinBlockData,
    transactions: Seq<BitcoinTransactionData>,
) -> BitcoinBlockDataView {
    BitcoinBlockDataView {
        block_identifier: block.block_identifier,
        parent_block_identifier: block.parent_block_identifier,
        timestamp: block.timestamp,
        transactions: transactions_view(transactions),
        metadata: block.metadata,
    }
}

/// The blocks of an occurrence for a list of hits: each block holding the
/// transactions that matched in it.
pub open spec fn blocks_holding(hits: Seq<(Seq<BitcoinTransactionData>, BitcoinBlockData)>) -> Seq<
    BitcoinBlockDataView,
> {
    hits.map_values(
        |hit: (Seq<BitcoinTransactionData>, BitcoinBlockData)| block_holding(hit.1, hit.0),
    )
}

/// The blocks that a list of an occurrence holds.
pub open spec fn payload_blocks(payloads: Seq<BitcoinTransactionPayload>) -> Seq<BitcoinBlockDataView> {
    payloads.map_values(|payload: BitcoinTransactionPayload| payload.block@)
}

/// Copies the transactions that a list of references points to.
pub fn copy_transactions(refs: &Vec<&BitcoinTransactionData>) -> (copies: Vec<BitcoinTransactionData>)
    ensures
        transactions_view(copies@) == transactions_view(transactions_of(refs@)),
{
    let ghost wanted = transactions_view(transactions_of(refs@));
    let mut copies: Vec<BitcoinTransactionData> = Vec::new();
    let mut i: usize = 0;
    assert(transactions_view(copies@) =~= wanted.take(0));
    while i < refs.len()
        invariant
            i <= refs.len(),
            wanted == transactions_view(transactions_of(refs@)),
            transactions_view(copies@) == wanted.take(i as int),
        decreases refs.len() - i,
    {
        let ghost before = transactions_view(copies@);
        let copy = refs[i].clone();
        copies.push(copy);
        assert(transactions_view(copies@) =~= before.push(copy@));
        i += 1;
        assert(transactions_view(copies@) =~= wanted.take(i as int));
    }
    assert(wanted.take(i as int) =~= wanted);
    copies
}

/// Copies the blocks of a list of hits, each holding the transactions that
/// matched in it.
pub fn copy_hits(hits: &Vec<BlockHits>) -> (payloads: Vec<BitcoinTransactionPayload>)
    ensures
        payload_blocks(payloads@) == blocks_holding(hits_of(hits@)),
{
    let ghost wanted = blocks_holding(hits_of(hits@));
    let mut payloads: Vec<BitcoinTransactionPayload> = Vec::new();
    let mut i: usize = 0;
    assert(payload_blocks(payloads@) =~= wanted.take(0));
    while i < hits.len()
        invariant
            i <= hits.len(),
            wanted == blocks_holding(hits_of(hits@)),
            payload_blocks(payloads@) == wanted.take(i as int),
        decreases hits.len() - i,
    {
        let ghost before = payload_blocks(payloads@);
        let source = hits[i].1;
        let block = BitcoinBlockData {
            block_identifier: source.block_identifier.clone(),
            parent_block_identifier: source.parent_block_identifier.clone(),
            timestamp: source.timestamp,
            transactions: copy_transactions(&hits[i].0),
            metadata: source.metadata,
        };
        assert(block@ == wanted[i as int]);
        payloads.push(BitcoinTransactionPayload { block });
        assert(payload_blocks(payloads@) =~= before.push(wanted[i as int]));
        i += 1;
        assert(payload_blocks(payloads@) =~= wanted.take(i as int));
    }
    assert(wanted.take(i as int) =~= wanted);
    payloads
}

impl BitcoinChainhookOccurrencePayload {
    /// The occurrence of a trigger: every block of the trigger with the
    /// transactions that matched in it, and the predicate's identifier.
    pub fn from_trigger<'a>(trigger: BitcoinTriggerChainhook<'a>) -> (payload:
        BitcoinChainhookOccurrencePayload)
        ensures
            payload_blocks(payload.apply@) == blocks_holding(trigger@.apply),
            payload_blocks(payload.rollback@) == blocks_holding(trigger@.rollback),
            payload.chainhook.uuid == trigger.chainhook.uuid,
    {
        BitcoinChainhookOccurrencePayload {
            apply: copy_hits(&trigger.apply),
            rollback: copy_hits(&trigger.rollback),
            chainhook: BitcoinChainhookPayload { uuid: trigger.chainhook.uuid.clone() },
        }
    }
}


/// The proofs known for transactions, by transaction identifier. Where a
/// transaction has more than one entry, the last one counts.
pub struct ProofMap {
    pub entries: Vec<(TransactionIdentifier, String)>,
}

/// The proof that a list of entries holds for a transaction.
pub open spec fn proof_in(entries: Seq<(TransactionIdentifier, String)>, id: TransactionIdentifier) -> Option<
    String,
>
    decreases entries.len(),
{
    if entries.len() == 0 {
        None
    } else if entries.last().0.hash@ == id.hash@ {
        Some(entries.last().1)
    } else {
        proof_in(entries.drop_last(), id)
    }
}

impl ProofMap {
    /// A map without proofs.
    pub fn new() -> (proofs: ProofMap)
        ensures
            proofs.entries@.len() == 0,
    {
        ProofMap { entries: Vec::new() }
    }

    /// Records the proof of a transaction.
    pub fn insert(&mut self, id: TransactionIdentifier, proof: String)
        ensures
            final(self).entries@ == old(self).entries@.push((id, proof)),
    {
        self.entries.push((id, proof));
    }

    /// The proof of a transaction, where one is known.
    pub fn get(&self, id: &TransactionIdentifier) -> (found: Option<&String>)
        ensures
            found matches Some(proof) ==> proof_in(self.entries@, *id) == Some(*proof),
            found is None ==> proof_in(self.entries@, *id) is None,
    {
        let mut found: Option<&String> = None;
        let mut i: usize = 0;
        assert(self.entries@.take(0) =~= Seq::empty());
        while i < self.entries.len()
            invariant
                i <= self.entries.len(),
                found matches Some(proof) ==> proof_in(self.entries@.take(i as int), *id) == Some(
                    *proof,
                ),
                found is None ==> proof_in(self.entries@.take(i as int), *id) is None,
            decreases self.entries.len() - i,
        {
            assert(self.entries@.take(i + 1).drop_last() =~= self.entries@.take(i as int));
            if self.entries[i].0.hash == id.hash {
                found = Some(&self.entries[i].1);
            }
            i += 1;
        }
        assert(self.entries@.take(i as int) =~= self.entries@);
        found
    }
}

/// The output that an input spends, as the document shows it.
pub struct PreviousOutputJson<'a> {
    pub txin: &'a String,
    pub vout: u32,
    pub value: u64,
    pub block_height: u64,
}

/// An input, as the document shows it.
pub struct InputJson<'a> {
    pub previous_output: PreviousOutputJson<'a>,
    pub script_sig: &'a String,
    pub sequence: u32,
    pub witness: Vec<&'a String>,
}

/// The metadata of a transaction, as the document shows it.
pub struct TransactionMetadataJson<'a> {
    pub fee: u64,
    pub index: u32,
    pub inputs: Vec<InputJson<'a>>,
    pub outputs: Vec<&'a TxOut>,
    pub stacks_operations: Vec<&'a StacksBaseChainOperation>,
    pub ordinal_operations: Vec<&'a String>,
    pub brc20_operation: Option<&'a String>,
    pub proof: Option<&'a String>,
}

/// A transaction, as the document shows it.
pub struct TransactionJson<'a> {
    pub transaction_identifier: &'a TransactionIdentifier,
    pub operations: Vec<&'a String>,
    pub metadata: TransactionMetadataJson<'a>,
}

/// A block, as the document shows it.
pub struct BlockJson<'a> {
    pub block_identifier: &'a BlockIdentifier,
    pub parent_block_identifier: &'a BlockIdentifier,
    pub timestamp: u32,
    pub transactions: Vec<TransactionJson<'a>>,
    pub metadata: &'a BitcoinBlockMetadata,
}

/// The predicate, as the document shows it.
pub struct ChainhookJson<'a> {
    pub uuid: &'a String,
    pub predicate: &'a BitcoinPredicateType,
    pub is_streaming_blocks: bool,
}

/// The document that is delivered for a trigger.
pub struct PayloadJson<'a> {
    pub apply: Vec<BlockJson<'a>>,
    pub rollback: Vec<BlockJson<'a>>,
    pub chainhook: ChainhookJson<'a>,
}

/// Whether a list of references points, in order, to the entries of a list.
pub open spec fn refers_to<T>(refs: Seq<&T>, items: Seq<T>) -> bool {
    refs.len() == items.len() && forall|i: int| 0 <= i < refs.len() ==> *(#[trigger] refs[i]) == items[i]
}

/// What a list holds where it is shown, and nothing where it is not.
pub open spec fn shown<T>(items: Seq<T>, visible: bool) -> Seq<T> {
    if visible {
        items
    } else {
        Seq::empty()
    }
}

/// Whether a document input shows an input: the output it spends, its
/// script and sequence, and its witness only where witnesses are included.
pub open spec fn shows_input(json: InputJson, input: TxIn, include_witness: bool) -> bool {
    &&& *json.previous_output.txin == input.previous_output.txid.hash
    &&& json.previous_output.vout == input.previous_output.vout
    &&& json.previous_output.value == input.previous_output.value
    &&& json.previous_output.block_height == input.previous_output.block_height
    &&& *json.script_sig == input.script_sig
    &&& json.sequence == input.sequence
    &&& refers_to(json.witness@, shown(input.witness@, include_witness))
}

/// Whether a list of document inputs shows a list of inputs, in order.
pub open spec fn shows_inputs(json: Seq<InputJson>, inputs: Seq<TxIn>, include_witness: bool) -> bool {
    json.len() == inputs.len() && forall|i: int|
        0 <= i < json.len() ==> shows_input(#[trigger] json[i], inputs[i], include_witness)
}

/// The value that a reference points to, where there is one.
pub open spec fn referent<T>(r: Option<&T>) -> Option<T> {
    match r {
        Some(value) => Some(*value),
        None => None,
    }
}

/// Whether a document transaction shows a transaction for a predicate: the
/// identifier, the operations, fee and index, the inputs and outputs only
/// where the predicate includes them, the protocol operations, and the proof
/// that the map holds for it.
pub open spec fn shows_transaction(
    json: TransactionJson,
    tx: BitcoinTransactionData,
    chainhook: BitcoinChainhookInstance,
    proofs: ProofMap,
) -> bool {
    &&& *json.transaction_identifier == tx.transaction_identifier
    &&& refers_to(json.operations@, tx.operations@)
    &&& json.metadata.fee == tx.metadata.fee
    &&& json.metadata.index == tx.metadata.index
    &&& shows_inputs(
        json.metadata.inputs@,
        shown(tx.metadata.inputs@, chainhook.include_inputs),
        chainhook.include_witness,
    )
    &&& refers_to(json.metadata.outputs@, shown(tx.metadata.outputs@, chainhook.include_outputs))
    &&& refers_to(json.metadata.stacks_operations@, tx.metadata.stacks_operations@)
    &&& refers_to(json.metadata.ordinal_operations@, tx.metadata.ordinal_operations@)
    &&& referent(json.metadata.brc20_operation) == tx.metadata.brc20_operation
    &&& referent(json.metadata.proof) == proof_in(proofs.entries@, tx.transaction_identifier)
}

/// Whether a list of document transactions shows a list of transactions, in
/// order.
pub open spec fn shows_transactions(
    json: Seq<TransactionJson>,
    transactions: Seq<BitcoinTransactionData>,
    chainhook: BitcoinChainhookInstance,
    proofs: ProofMap,
) -> bool {
    json.len() == transactions.len() && forall|i: int|
        0 <= i < json.len() ==> shows_transaction(
            #[trigger] json[i],
            transactions[i],
            chainhook,
            proofs,
        )
}

/// Whether a document block shows a block with the transactions that
/// matched in it.
pub open spec fn shows_block(
    json: BlockJson,
    hit: (Seq<BitcoinTransactionData>, BitcoinBlockData),
    chainhook: BitcoinChainhookInstance,
    proofs: ProofMap,
) -> bool {
    &&& *json.block_identifier == hit.1.block_identifier
    &&& *json.parent_block_identifier == hit.1.parent_block_identifier
    &&& json.timestamp == hit.1.timestamp
    &&& *json.metadata == hit.1.metadata
    &&& shows_transactions(json.transactions@, hit.0, chainhook, proofs)
}

/// Whether a list of document blocks shows a list of hits, in order.
pub open spec fn shows_blocks(
    json: Seq<BlockJson>,
    hits: Seq<(Seq<BitcoinTransactionData>, BitcoinBlockData)>,
    chainhook: BitcoinChainhookInstance,
    proofs: ProofMap,
) -> bool {
    json.len() == hits.len() && forall|i: int|
        0 <= i < json.len() ==> shows_block(#[trigger] json[i], hits[i], chainhook, proofs)
}

/// Collects references to the entries of a list where the list is shown,
/// and none where it is not.
pub fn references<'a, T>(items: &'a Vec<T>, visible: bool) -> (refs: Vec<&'a T>)
    ensures
        refers_to(refs@, shown(items@, visible)),
{
    let mut refs: Vec<&'a T> = Vec::new();
    if visible {
        let mut i: usize = 0;
        while i < items.len()
            invariant
                i <= items.len(),
                refs@.len() == i,
                forall|j: int| 0 <= j < i ==> *(#[trigger] refs@[j]) == items@[j],
            decreases items.len() - i,
        {
            refs.push(&items[i]);
            i += 1;
        }
    }
    refs
}

/// Describes the inputs of a transaction for the document.
pub fn serialize_inputs<'a>(inputs: &'a Vec<TxIn>, include_inputs: bool, include_witness: bool) -> (json:
    Vec<InputJson<'a>>)
    ensures
        shows_inputs(json@, shown(inputs@, include_inputs), include_witness),
{
    let mut json: Vec<InputJson<'a>> = Vec::new();
    if include_inputs {
        let mut i: usize = 0;
        while i < inputs.len()
            invariant
                i <= inputs.len(),
                json@.len() == i,
                forall|j: int|
                    0 <= j < i ==> shows_input(#[trigger] json@[j], inputs@[j], include_witness),
            decreases inputs.len() - i,
        {
            let input = &inputs[i];
            json.push(
                InputJson {
                    previous_output: PreviousOutputJson {
                        txin: &input.previous_output.txid.hash,
                        vout: input.previous_output.vout,
                        value: input.previous_output.value,
                        block_height: input.previous_output.block_height,
                    },
                    script_sig: &input.script_sig,
                    sequence: input.sequence,
                    witness: references(&input.witness, include_witness),
                },
            );
            i += 1;
        }
    }
    json
}

/// Describes the transactions of a trigger for the document.
pub fn serialize_bitcoin_transactions_to_json<'a>(
    predicate_spec: &BitcoinChainhookInstance,
    transactions: &Vec<&'a BitcoinTransactionData>,
    proofs: &'a ProofMap,
) -> (json: Vec<TransactionJson<'a>>)
    ensures
        shows_transactions(json@, transactions_of(transactions@), *predicate_spec, *proofs),
{
    let mut json: Vec<TransactionJson<'a>> = Vec::new();
    let mut i: usize = 0;
    while i < transactions.len()
        invariant
            i <= transactions.len(),
            json@.len() == i,
            forall|j: int|
                0 <= j < i ==> shows_transaction(
                    #[trigger] json@[j],
                    *transactions@[j],
                    *predicate_spec,
                    *proofs,
                ),
        decreases transactions.len() - i,
    {
        let transaction = transactions[i];
        let brc20_operation = match &transaction.metadata.brc20_operation {
            Some(operation) => Some(operation),
            None => None,
        };
        let metadata = TransactionMetadataJson {
            fee: transaction.metadata.fee,
            index: transaction.metadata.index,
            inputs: serialize_inputs(
                &transaction.metadata.inputs,
                predicate_spec.include_inputs,
                predicate_spec.include_witness,
            ),
            outputs: references(&transaction.metadata.outputs, predicate_spec.include_outputs),
            stacks_operations: references(&transaction.metadata.stacks_operations, true),
            ordinal_operations: references(&transaction.metadata.ordinal_operations, true),
            brc20_operation,
            proof: proofs.get(&transaction.transaction_identifier),
        };
        json.push(
            TransactionJson {
                transaction_identifier: &transaction.transaction_identifier,
                operations: references(&transaction.operations, true),
                metadata,
            },
        );
        i += 1;
    }
    json
}

/// Describes the blocks of a list of hits for the document.
pub fn serialize_blocks<'a>(
    predicate_spec: &BitcoinChainhookInstance,
    hits: &Vec<BlockHits<'a>>,
    proofs: &'a ProofMap,
) -> (json: Vec<BlockJson<'a>>)
    ensures
        shows_blocks(json@, hits_of(hits@), *predicate_spec, *proofs),
{
    let mut json: Vec<BlockJson<'a>> = Vec::new();
    let mut i: usize = 0;
    while i < hits.len()
        invariant
            i <= hits.len(),
            json@.len() == i,
            forall|j: int|
                0 <= j < i ==> shows_block(
                    #[trigger] json@[j],
                    hits_of(hits@)[j],
                    *predicate_spec,
                    *proofs,
                ),
        decreases hits.len() - i,
    {
        let block = hits[i].1;
        json.push(
            BlockJson {
                block_identifier: &block.block_identifier,
                parent_block_identifier: &block.parent_block_identifier,
                timestamp: block.timestamp,
                transactions: serialize_bitcoin_transactions_to_json(
                    predicate_spec,
                    &hits[i].0,
                    proofs,
                ),
                metadata: &block.metadata,
            },
        );
        i += 1;
    }
    json
}

/// Describes the document that is delivered for a trigger: the blocks
/// applied and rolled back, each with the transactions that matched, and
/// the predicate with its identifier, its rule, and whether it is streaming.
pub fn serialize_bitcoin_payload_to_json<'a>(
    trigger: &BitcoinTriggerChainhook<'a>,
    proofs: &'a ProofMap,
) -> (json: PayloadJson<'a>)
    ensures
        shows_blocks(json.apply@, trigger@.apply, *trigger.chainhook, *proofs),
        shows_blocks(json.rollback@, trigger@.rollback, *trigger.chainhook, *proofs),
        *json.chainhook.uuid == trigger.chainhook.uuid,
        *json.chainhook.predicate == trigger.chainhook.predicate,
        json.chainhook.is_streaming_blocks == trigger.chainhook.enabled,
{
    let predicate_spec = trigger.chainhook;
    PayloadJson {
        apply: serialize_blocks(predicate_spec, &trigger.apply, proofs),
        rollback: serialize_blocks(predicate_spec, &trigger.rollback, proofs),
        chainhook: ChainhookJson {
            uuid: &predicate_spec.uuid,
            predicate: &predicate_spec.predicate,
            is_streaming_blocks: predicate_spec.enabled,
        },
    }
}


/// An HTTP request, ready to be sent.
#[derive(Clone, Debug)]
pub struct HttpRequest {
    pub method: String,
    pub url: String,
    pub headers: Vec<(String, String)>,
    pub body: Vec<u8>,
}

/// What the dispatcher hands to the caller for delivery.
#[derive(Clone, Debug)]
pub enum BitcoinChainhookOccurrence {
    Http(HttpRequest, BitcoinChainhookOccurrencePayload),
    File(String, Vec<u8>),
    Data(BitcoinChainhookOccurrencePayload),
}

/// Whether an occurrence is that of a trigger.
pub open spec fn is_occurrence_of(
    payload: BitcoinChainhookOccurrencePayload,
    trigger: TriggerView,
) -> bool {
    &&& payload_blocks(payload.apply@) == blocks_holding(trigger.apply)
    &&& payload_blocks(payload.rollback@) == blocks_holding(trigger.rollback)
    &&& payload.chainhook.uuid == trigger.chainhook.uuid
}

/// Whether a request posts a document to a hook: a POST to the hook's
/// address that announces JSON, carries the hook's authorization, and has
/// the document as its body.
pub open spec fn posts_to(request: HttpRequest, hook: HttpHook, document: Seq<u8>) -> bool {
    &&& request.method@ == "POST"@
    &&& request.url@ == hook.url@
    &&& request.headers@.len() == 2
    &&& request.headers@[0].0@ == "Content-Type"@
    &&& request.headers@[0].1@ == "application/json"@
    &&& request.headers@[1].0@ == "Authorization"@
    &&& request.headers@[1].1@ == hook.authorization_header@
    &&& request.body@ == document
}

/// The message that reports a document that could not be encoded.
pub open spec fn encoding_failure(reason: Seq<char>) -> Seq<char> {
    "unable to serialize payload "@ + reason
}

/// Whether an outcome is what the action of a trigger asks for, given the
/// encoded document or the reason it could not be encoded. A post and a
/// file write need the document and fail without it; an action that does
/// nothing hands out the occurrence alone.
pub open spec fn is_dispatch_of(
    outcome: Result<BitcoinChainhookOccurrence, String>,
    trigger: TriggerView,
    document: Result<Vec<u8>, String>,
) -> bool {
    match trigger.chainhook.action {
        HookAction::HttpPost(hook) => match document {
            Ok(bytes) => outcome matches Ok(BitcoinChainhookOccurrence::Http(request, payload))
                && posts_to(request, hook, bytes@) && is_occurrence_of(payload, trigger),
            Err(reason) => outcome matches Err(message) && message@ == encoding_failure(reason@),
        },
        HookAction::FileAppend(disk) => match document {
            Ok(bytes) => outcome matches Ok(BitcoinChainhookOccurrence::File(path, content))
                && path@ == disk.path@ && content@ == bytes@,
            Err(reason) => outcome matches Err(message) && message@ == encoding_failure(reason@),
        },
        HookAction::Noop => outcome matches Ok(BitcoinChainhookOccurrence::Data(payload))
            && is_occurrence_of(payload, trigger),
    }
}

/// Builds the message that reports a document that could not be encoded.
fn report_encoding_failure(reason: &String) -> (message: String)
    ensures
        message@ == encoding_failure(reason@),
{
    let mut message = String::from_str("unable to serialize payload ");
    message.append(reason.as_str());
    message
}

/// Turns a trigger into what its action delivers, given the encoded
/// document.
pub fn handle_bitcoin_hook_action<'a>(
    trigger: BitcoinTriggerChainhook<'a>,
    document: Result<Vec<u8>, String>,
) -> (outcome: Result<BitcoinChainhookOccurrence, String>)
    ensures
        is_dispatch_of(outcome, trigger@, document),
{
    match &trigger.chainhook.action {
        HookAction::HttpPost(http) => {
            match document {
                Ok(body) => {
                    let mut headers: Vec<(String, String)> = Vec::new();
                    headers.push(
                        (String::from_str("Content-Type"), String::from_str("application/json")),
                    );
                    headers.push(
                        (String::from_str("Authorization"), http.authorization_header.clone()),
                    );
                    let request = HttpRequest {
                        method: String::from_str("POST"),
                        url: http.url.clone(),
                        headers,
                        body,
                    };
                    let data = BitcoinChainhookOccurrencePayload::from_trigger(trigger);
                    Ok(BitcoinChainhookOccurrence::Http(request, data))
                },
                Err(reason) => Err(report_encoding_failure(&reason)),
            }
        },
        HookAction::FileAppend(disk) => {
            match document {
                Ok(bytes) => Ok(BitcoinChainhookOccurrence::File(disk.path.clone(), bytes)),
                Err(reason) => Err(report_encoding_failure(&reason)),
            }
        },
        HookAction::Noop => Ok(
            BitcoinChainhookOccurrence::Data(BitcoinChainhookOccurrencePayload::from_trigger(trigger)),
        ),
    }
}

} // verus!
