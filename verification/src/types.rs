//! The data that flows through the router: networks, identifiers, blocks,
//! transactions, chain events, matching rules and actions.

use vstd::prelude::*;
use vstd::string::StringSliceAdditionalSpecFns;

verus! {

/// The UTF-8 bytes of a text.
pub open spec fn text_bytes(text: Seq<char>) -> Seq<u8> {
    vstd::utf8::encode_utf8(text)
}

/// The UTF-8 bytes of a string.
pub fn bytes_of(text: &String) -> (bytes: &[u8])
    ensures
        bytes@ == text_bytes(text@),
{
    text.as_str().as_bytes()
}

/// The contents of an optional byte vector.
pub open spec fn bytes_view(bytes: Option<Vec<u8>>) -> Option<Seq<u8>> {
    match bytes {
        Some(b) => Some(b@),
        None => None,
    }
}

/// A network of the base chain.
#[derive(Clone, Copy, Debug, PartialEq, Eq, Structural)]
pub enum BitcoinNetwork {
    Regtest,
    Testnet,
    Signet,
    Mainnet,
}

/// A network of the app chain.
#[derive(Clone, Copy, Debug, PartialEq, Eq, Structural)]
pub enum StacksNetwork {
    Simnet,
    Devnet,
    Testnet,
    Mainnet,
}

/// A block's place in its chain: height and hash.
#[derive(Debug, PartialEq, Eq)]
pub struct BlockIdentifier {
    pub index: u64,
    pub hash: String,
}

impl Clone for BlockIdentifier {
    fn clone(&self) -> (copy: Self)
        ensures
            copy == *self,
    {
        BlockIdentifier { index: self.index, hash: self.hash.clone() }
    }
}

/// A transaction's hash.
#[derive(Debug, PartialEq, Eq)]
pub struct TransactionIdentifier {
    pub hash: String,
}

impl Clone for TransactionIdentifier {
    fn clone(&self) -> (copy: Self)
        ensures
            copy == *self,
    {
        TransactionIdentifier { hash: self.hash.clone() }
    }
}

/// The output that an input spends.
#[derive(Debug, PartialEq, Eq)]
pub struct OutPoint {
    pub txid: TransactionIdentifier,
    pub vout: u32,
    pub value: u64,
    pub block_height: u64,
}

/// One input of a transaction.
#[derive(Debug, PartialEq, Eq)]
pub struct TxIn {
    pub previous_output: OutPoint,
    pub script_sig: String,
    pub sequence: u32,
    pub witness: Vec<String>,
}

/// One output of a transaction. `script_pubkey` is hexadecimal text behind
/// the two characters `0x`.
#[derive(Debug, PartialEq, Eq)]
pub struct TxOut {
    pub value: u64,
    pub script_pubkey: String,
}

/// An app-chain operation found in a base-chain transaction. Each variant
/// carries its details as JSON text.
#[derive(Debug, PartialEq, Eq)]
pub enum StacksBaseChainOperation {
    BlockCommitted(String),
    LeaderRegistered(String),
    StxTransferred(String),
    StxLocked(String),
}

/// What the router knows of a transaction beyond its hash. Ordinal
/// operations, the BRC-20 operation and the generic operations are carried as
/// JSON text.
#[derive(Debug, PartialEq, Eq)]
pub struct BitcoinTransactionMetadata {
    pub inputs: Vec<TxIn>,
    pub outputs: Vec<TxOut>,
    pub ordinal_operations: Vec<String>,
    pub stacks_operations: Vec<StacksBaseChainOperation>,
    pub brc20_operation: Option<String>,
    pub proof: Option<String>,
    pub fee: u64,
    pub index: u32,
}

/// A transaction of the base chain.
#[derive(Debug, PartialEq, Eq)]
pub struct BitcoinTransactionData {
    pub transaction_identifier: TransactionIdentifier,
    pub operations: Vec<String>,
    pub metadata: BitcoinTransactionMetadata,
}

/// What the router knows of a block beyond its transactions.
#[derive(Clone, Copy, Debug, PartialEq, Eq, Structural)]
pub struct BitcoinBlockMetadata {
    pub network: BitcoinNetwork,
}

/// A block of the base chain with its transactions in block order.
#[derive(Debug, PartialEq, Eq)]
pub struct BitcoinBlockData {
    pub block_identifier: BlockIdentifier,
    pub parent_block_identifier: BlockIdentifier,
    pub timestamp: u32,
    pub transactions: Vec<BitcoinTransactionData>,
    pub metadata: BitcoinBlockMetadata,
}

/// New blocks on top of the canonical chain.
#[derive(Clone, Debug, PartialEq, Eq)]
pub struct BitcoinChainUpdatedWithBlocksData {
    pub new_blocks: Vec<BitcoinBlockData>,
    pub confirmed_blocks: Vec<BitcoinBlockData>,
}

/// A reorganisation: blocks that leave the canonical chain and blocks that
/// take their place.
#[derive(Clone, Debug, PartialEq, Eq)]
pub struct BitcoinChainUpdatedWithReorgData {
    pub blocks_to_rollback: Vec<BitcoinBlockData>,
    pub blocks_to_apply: Vec<BitcoinBlockData>,
    pub confirmed_blocks: Vec<BitcoinBlockData>,
}

/// An update of the base chain.
#[derive(Clone, Debug, PartialEq, Eq)]
pub enum BitcoinChainEvent {
    ChainUpdatedWithBlocks(BitcoinChainUpdatedWithBlocksData),
    ChainUpdatedWithReorg(BitcoinChainUpdatedWithReorgData),
}

/// A rule on a text: it begins with, ends with, or is the pattern.
#[derive(Clone, Debug, PartialEq, Eq)]
pub enum MatchingRule {
    Equals(String),
    StartsWith(String),
    EndsWith(String),
}

/// A rule on a text that only accepts the pattern itself.
#[derive(Clone, Debug, PartialEq, Eq)]
pub enum ExactMatchingRule {
    Equals(String),
}

/// Where an HTTP action posts its payload.
#[derive(Clone, Debug, PartialEq, Eq)]
pub struct HttpHook {
    pub url: String,
    pub authorization_header: String,
}

/// The file that a file action appends to.
#[derive(Clone, Debug, PartialEq, Eq)]
pub struct FileHook {
    pub path: String,
}

/// What happens when a predicate matches.
#[derive(Clone, Debug, PartialEq, Eq)]
pub enum HookAction {
    HttpPost(HttpHook),
    FileAppend(FileHook),
    Noop,
}

/// Why a predicate was refused.
#[derive(Clone, Copy, Debug, PartialEq, Eq, Structural)]
pub enum RouterError {
    /// The predicate is malformed: a range without an index, or a
    /// descriptor that does not parse or derive.
    InvalidPredicate,
    /// The predicate is of a kind that is reserved.
    UnsupportedPredicate,
}


impl Clone for OutPoint {
    fn clone(&self) -> (copy: Self)
        ensures
            copy == *self,
    {
        OutPoint {
            txid: self.txid.clone(),
            vout: self.vout,
            value: self.value,
            block_height: self.block_height,
        }
    }
}

impl Clone for TxOut {
    fn clone(&self) -> (copy: Self)
        ensures
            copy == *self,
    {
        TxOut { value: self.value, script_pubkey: self.script_pubkey.clone() }
    }
}

impl Clone for StacksBaseChainOperation {
    fn clone(&self) -> (copy: Self)
        ensures
            copy == *self,
    {
        match self {
            StacksBaseChainOperation::BlockCommitted(data) => StacksBaseChainOperation::BlockCommitted(
                data.clone(),
            ),
            StacksBaseChainOperation::LeaderRegistered(data) => {
                StacksBaseChainOperation::LeaderRegistered(data.clone())
            },
            StacksBaseChainOperation::StxTransferred(data) => StacksBaseChainOperation::StxTransferred(
                data.clone(),
            ),
            StacksBaseChainOperation::StxLocked(data) => StacksBaseChainOperation::StxLocked(
                data.clone(),
            ),
        }
    }
}

/// An input, with its witness as a sequence.
pub struct TxInView {
    pub previous_output: OutPoint,
    pub script_sig: String,
    pub sequence: u32,
    pub witness: Seq<String>,
}

impl View for TxIn {
    type V = TxInView;

    open spec fn view(&self) -> TxInView {
        TxInView {
            previous_output: self.previous_output,
            script_sig: self.script_sig,
            sequence: self.sequence,
            witness: self.witness@,
        }
    }
}

impl Clone for TxIn {
    fn clone(&self) -> (copy: Self)
        ensures
            copy@ == self@,
    {
        let witness = self.witness.clone();
        assert(witness@ =~= self.witness@);
        TxIn {
            previous_output: self.previous_output.clone(),
            script_sig: self.script_sig.clone(),
            sequence: self.sequence,
            witness,
        }
    }
}

/// The inputs of a list, each with its witness as a sequence.
pub open spec fn inputs_view(inputs: Seq<TxIn>) -> Seq<TxInView> {
    inputs.map_values(|input: TxIn| input@)
}

/// The metadata of a transaction, with its lists as sequences.
pub struct BitcoinTransactionMetadataView {
    pub inputs: Seq<TxInView>,
    pub outputs: Seq<TxOut>,
    pub ordinal_operations: Seq<String>,
    pub stacks_operations: Seq<StacksBaseChainOperation>,
    pub brc20_operation: Option<String>,
    pub proof: Option<String>,
    pub fee: u64,
    pub index: u32,
}

impl View for BitcoinTransactionMetadata {
    type V = BitcoinTransactionMetadataView;

    open spec fn view(&self) -> BitcoinTransactionMetadataView {
        BitcoinTransactionMetadataView {
            inputs: inputs_view(self.inputs@),
            outputs: self.outputs@,
            ordinal_operations: self.ordinal_operations@,
            stacks_operations: self.stacks_operations@,
            brc20_operation: self.brc20_operation,
            proof: self.proof,
            fee: self.fee,
            index: self.index,
        }
    }
}

/// Copies an optional text.
pub fn clone_text(text: &Option<String>) -> (copy: Option<String>)
    ensures
        copy == *text,
{
    match text {
        Some(t) => Some(t.clone()),
        None => None,
    }
}

impl Clone for BitcoinTransactionMetadata {
    fn clone(&self) -> (copy: Self)
        ensures
            copy@ == self@,
    {
        let inputs = self.inputs.clone();
        assert(inputs_view(inputs@) =~= inputs_view(self.inputs@));
        let outputs = self.outputs.clone();
        assert(outputs@ =~= self.outputs@);
        let ordinal_operations = self.ordinal_operations.clone();
        assert(ordinal_operations@ =~= self.ordinal_operations@);
        let stacks_operations = self.stacks_operations.clone();
        assert(stacks_operations@ =~= self.stacks_operations@);
        BitcoinTransactionMetadata {
            inputs,
            outputs,
            ordinal_operations,
            stacks_operations,
            brc20_operation: clone_text(&self.brc20_operation),
            proof: clone_text(&self.proof),
            fee: self.fee,
            index: self.index,
        }
    }
}

/// A transaction, with its lists as sequences.
pub struct BitcoinTransactionDataView {
    pub transaction_identifier: TransactionIdentifier,
    pub operations: Seq<String>,
    pub metadata: BitcoinTransactionMetadataView,
}

impl View for BitcoinTransactionData {
    type V = BitcoinTransactionDataView;

    open spec fn view(&self) -> BitcoinTransactionDataView {
        BitcoinTransactionDataView {
            transaction_identifier: self.transaction_identifier,
            operations: self.operations@,
            metadata: self.metadata@,
        }
    }
}

impl Clone for BitcoinTransactionData {
    fn clone(&self) -> (copy: Self)
        ensures
            copy@ == self@,
    {
        let operations = self.operations.clone();
        assert(operations@ =~= self.operations@);
        BitcoinTransactionData {
            transaction_identifier: self.transaction_identifier.clone(),
            operations,
            metadata: self.metadata.clone(),
        }
    }
}

/// The transactions of a list, each with its lists as sequences.
pub open spec fn transactions_view(transactions: Seq<BitcoinTransactionData>) -> Seq<
    BitcoinTransactionDataView,
> {
    transactions.map_values(|tx: BitcoinTransactionData| tx@)
}

/// A block, with its transactions as a sequence.
pub struct BitcoinBlockDataView {
    pub block_identifier: BlockIdentifier,
    pub parent_block_identifier: BlockIdentifier,
    pub timestamp: u32,
    pub transactions: Seq<BitcoinTransactionDataView>,
    pub metadata: BitcoinBlockMetadata,
}

impl View for BitcoinBlockData {
    type V = BitcoinBlockDataView;

    open spec fn view(&self) -> BitcoinBlockDataView {
        BitcoinBlockDataView {
            block_identifier: self.block_identifier,
            parent_block_identifier: self.parent_block_identifier,
            timestamp: self.timestamp,
            transactions: transactions_view(self.transactions@),
            metadata: self.metadata,
        }
    }
}

impl Clone for BitcoinBlockData {
    fn clone(&self) -> (copy: Self)
        ensures
            copy@ == self@,
    {
        let transactions = self.transactions.clone();
        assert(transactions_view(transactions@) =~= transactions_view(self.transactions@));
        BitcoinBlockData {
            block_identifier: self.block_identifier.clone(),
            parent_block_identifier: self.parent_block_identifier.clone(),
            timestamp: self.timestamp,
            transactions,
            metadata: self.metadata,
        }
    }
}

} // verus!
