//! The predicate algebra: a closed sum of rules, each of which a transaction
//! matches or does not.

use crate::hex_text::{hex_encode, hex_encoding};
use crate::matching::{any_output_carries, any_output_pays_to, outputs_carry, outputs_pay_to};
use crate::script::{
    address_has_witness_program, address_is_witness, address_script, address_script_pubkey,
    descriptor_has_wildcard, descriptor_script, descriptor_script_pubkey, descriptor_wildcard,
};
use crate::types::{
    BitcoinNetwork, BitcoinTransactionData, ExactMatchingRule, MatchingRule, RouterError,
    StacksBaseChainOperation, TxIn,
};
use vstd::prelude::*;

verus! {

/// The input that spends a given output.
#[derive(Clone, Debug, PartialEq, Eq)]
pub struct TxinPredicate {
    pub txid: String,
    pub vout: u32,
}

/// An output descriptor and the child indices to derive it at.
#[derive(Clone, Debug, PartialEq, Eq)]
pub struct DescriptorMatchingRule {
    pub expression: String,
    pub range: Option<[u32; 2]>,
}

/// Rules on the inputs of a transaction.
#[derive(Clone, Debug, PartialEq, Eq)]
pub enum InputPredicate {
    Txid(TxinPredicate),
    WitnessScript(MatchingRule),
}

/// Rules on the outputs of a transaction.
#[derive(Clone, Debug, PartialEq, Eq)]
pub enum OutputPredicate {
    OpReturn(MatchingRule),
    P2pkh(ExactMatchingRule),
    P2sh(ExactMatchingRule),
    P2wpkh(ExactMatchingRule),
    P2wsh(ExactMatchingRule),
    Descriptor(DescriptorMatchingRule),
}

/// App-chain operations that a transaction may carry.
#[derive(Clone, Copy, Debug, PartialEq, Eq, Structural)]
pub enum StacksOperations {
    StackerRewarded,
    BlockCommitted,
    LeaderRegistered,
    StxTransferred,
    StxLocked,
}

/// Protocols layered on inscriptions.
#[derive(Clone, Copy, Debug, PartialEq, Eq, Hash, Structural)]
pub enum OrdinalsMetaProtocol {
    All,
    Brc20,
}

/// The inscriptions to follow: all of them, or those of the listed
/// protocols.
#[derive(Clone, Debug, PartialEq, Eq)]
pub struct InscriptionFeedData {
    pub meta_protocols: Option<Vec<OrdinalsMetaProtocol>>,
}

/// Rules on the ordinal operations of a transaction.
#[derive(Clone, Debug, PartialEq, Eq)]
pub enum OrdinalOperations {
    InscriptionFeed(InscriptionFeedData),
}

/// A rule that selects transactions.
#[derive(Clone, Debug, PartialEq, Eq)]
pub enum BitcoinPredicateType {
    Block,
    Txid(ExactMatchingRule),
    Inputs(InputPredicate),
    Outputs(OutputPredicate),
    StacksProtocol(StacksOperations),
    OrdinalsProtocol(OrdinalOperations),
}

/// A predicate on its own, as a filter of transactions.
#[derive(Clone, Debug, PartialEq, Eq)]
pub struct BitcoinTransactionFilterPredicate {
    pub predicate: BitcoinPredicateType,
}

impl BitcoinTransactionFilterPredicate {
    pub fn new(predicate: BitcoinPredicateType) -> (filter: BitcoinTransactionFilterPredicate)
        ensures
            filter.predicate == predicate,
    {
        BitcoinTransactionFilterPredicate { predicate }
    }
}

/// The first index that a descriptor is derived at when no range is given.
pub const DEFAULT_RANGE_START: u32 = 0;

/// The index at which derivation of a wildcard descriptor stops when no range
/// is given.
pub const DEFAULT_RANGE_END: u32 = 5;

/// The child indices `(first, end)` a descriptor is derived at, `end` not
/// included: the given range, or the first five where none is given, for a
/// descriptor with a wildcard; index 0 alone for one without.
pub open spec fn derivation_range(wildcard: bool, range: Option<[u32; 2]>) -> (u32, u32) {
    if wildcard {
        match range {
            Some(bounds) => (bounds[0], bounds[1]),
            None => (DEFAULT_RANGE_START, DEFAULT_RANGE_END),
        }
    } else {
        (0u32, 1u32)
    }
}

/// Whether a range of child indices holds at least one index.
pub open spec fn range_is_valid(range: [u32; 2]) -> bool {
    range[0] < range[1]
}

/// Whether an input spends the output that the rule names.
pub open spec fn input_spends(input: TxIn, rule: TxinPredicate) -> bool {
    input.previous_output.txid.hash@ == rule.txid@ && input.previous_output.vout == rule.vout
}

/// Whether an operation found in a transaction is the one a rule asks for. A
/// rewarded stacker is told by the same operation as a committed block.
pub open spec fn operation_is(found: StacksBaseChainOperation, wanted: StacksOperations) -> bool {
    match wanted {
        StacksOperations::StackerRewarded => found is BlockCommitted,
        StacksOperations::BlockCommitted => found is BlockCommitted,
        StacksOperations::LeaderRegistered => found is LeaderRegistered,
        StacksOperations::StxTransferred => found is StxTransferred,
        StacksOperations::StxLocked => found is StxLocked,
    }
}

/// Whether a transaction belongs to a protocol: any transaction with an
/// ordinal operation belongs to `All`, one with a BRC-20 operation to
/// `Brc20`.
pub open spec fn follows_protocol(tx: BitcoinTransactionData, protocol: OrdinalsMetaProtocol) -> bool {
    match protocol {
        OrdinalsMetaProtocol::All => tx.metadata.ordinal_operations@.len() > 0,
        OrdinalsMetaProtocol::Brc20 => tx.metadata.brc20_operation is Some,
    }
}

/// Whether some output of the transaction pays to the script of an address
/// of a network.
pub open spec fn pays_to_address(tx: BitcoinTransactionData, encoded: Seq<char>, network: BitcoinNetwork) -> bool {
    address_script(encoded, network) is Some && outputs_pay_to(
        tx.metadata.outputs@,
        hex_encoding(address_script(encoded, network)->0),
    )
}

/// Whether some output of the transaction pays to the script of a descriptor
/// at one child index.
pub open spec fn pays_to_descriptor_at(
    tx: BitcoinTransactionData,
    expression: Seq<char>,
    index: u32,
) -> bool {
    descriptor_script(expression, index) is Some && outputs_pay_to(
        tx.metadata.outputs@,
        hex_encoding(descriptor_script(expression, index)->0),
    )
}

/// Whether some output of the transaction pays to the script of a descriptor
/// at one of the child indices of its range.
pub open spec fn pays_to_descriptor(tx: BitcoinTransactionData, rule: DescriptorMatchingRule) -> bool {
    let wildcard = descriptor_wildcard(rule.expression@);
    let (first, end) = derivation_range(wildcard->0, rule.range);
    wildcard is Some && exists|index: u32|
        first <= index < end && #[trigger] pays_to_descriptor_at(tx, rule.expression@, index)
}

impl DescriptorMatchingRule {
    /// Whether the expression is a descriptor that derives at every child
    /// index of its range.
    pub open spec fn derives(&self) -> bool {
        let wildcard = descriptor_wildcard(self.expression@);
        let (first, end) = derivation_range(wildcard->0, self.range);
        wildcard is Some && forall|index: u32|
            first <= index < end ==> (#[trigger] descriptor_script(self.expression@, index)) is Some
    }

    /// Whether the range, where one is given, holds at least one index.
    pub open spec fn has_valid_range(&self) -> bool {
        self.range matches Some(bounds) ==> range_is_valid(bounds)
    }
}

impl BitcoinPredicateType {
    /// Whether a transaction matches the predicate on a network.
    pub open spec fn matches(&self, tx: BitcoinTransactionData, network: BitcoinNetwork) -> bool {
        match *self {
            BitcoinPredicateType::Block => true,
            BitcoinPredicateType::Txid(ExactMatchingRule::Equals(hash)) => {
                tx.transaction_identifier.hash@ == hash@
            },
            BitcoinPredicateType::Inputs(InputPredicate::Txid(rule)) => exists|i: int|
                0 <= i < tx.metadata.inputs@.len() && input_spends(
                    #[trigger] tx.metadata.inputs@[i],
                    rule,
                ),
            BitcoinPredicateType::Inputs(InputPredicate::WitnessScript(_)) => false,
            BitcoinPredicateType::Outputs(OutputPredicate::OpReturn(rule)) => outputs_carry(
                tx.metadata.outputs@,
                rule,
            ),
            BitcoinPredicateType::Outputs(OutputPredicate::P2pkh(ExactMatchingRule::Equals(encoded)))
            | BitcoinPredicateType::Outputs(
                OutputPredicate::P2sh(ExactMatchingRule::Equals(encoded)),
            ) => pays_to_address(tx, encoded@, network),
            BitcoinPredicateType::Outputs(OutputPredicate::P2wpkh(ExactMatchingRule::Equals(encoded)))
            | BitcoinPredicateType::Outputs(
                OutputPredicate::P2wsh(ExactMatchingRule::Equals(encoded)),
            ) => address_is_witness(encoded@) && pays_to_address(tx, encoded@, network),
            BitcoinPredicateType::Outputs(OutputPredicate::Descriptor(rule)) => pays_to_descriptor(
                tx,
                rule,
            ),
            BitcoinPredicateType::StacksProtocol(wanted) => exists|i: int|
                0 <= i < tx.metadata.stacks_operations@.len() && operation_is(
                    #[trigger] tx.metadata.stacks_operations@[i],
                    wanted,
                ),
            BitcoinPredicateType::OrdinalsProtocol(OrdinalOperations::InscriptionFeed(feed)) => {
                match feed.meta_protocols {
                    Some(protocols) => exists|i: int|
                        0 <= i < protocols@.len() && follows_protocol(tx, #[trigger] protocols@[i]),
                    None => tx.metadata.ordinal_operations@.len() > 0,
                }
            },
        }
    }

    /// Whether the predicate is one that can be evaluated at all: rules on a
    /// witness script are reserved.
    pub open spec fn is_supported(&self) -> bool {
        !(*self matches BitcoinPredicateType::Inputs(InputPredicate::WitnessScript(_)))
    }

    /// Whether the predicate is well formed: it is supported, and where it
    /// holds a descriptor, the range is valid and the descriptor derives at
    /// every index of it.
    pub open spec fn is_well_formed(&self) -> bool {
        &&& self.is_supported()
        &&& *self matches BitcoinPredicateType::Outputs(OutputPredicate::Descriptor(rule))
            ==> rule.has_valid_range() && rule.derives()
    }
}


/// Accepts a range of child indices whose first index is below its end, and
/// refuses any other as an invalid predicate.
pub fn deserialize_descriptor_range(range: [u32; 2]) -> (checked: Result<Option<[u32; 2]>, RouterError>)
    ensures
        range_is_valid(range) ==> checked == Ok::<Option<[u32; 2]>, RouterError>(Some(range)),
        !range_is_valid(range) ==> checked == Err::<Option<[u32; 2]>, RouterError>(
            RouterError::InvalidPredicate,
        ),
{
    if !(range[0] < range[1]) {
        Err(RouterError::InvalidPredicate)
    } else {
        Ok(Some(range))
    }
}

/// Looks for an output that pays to the script of an address of a network.
fn transaction_pays_to_address(
    tx: &BitcoinTransactionData,
    encoded: &String,
    network: &BitcoinNetwork,
) -> (found: bool)
    ensures
        found == pays_to_address(*tx, encoded@, *network),
{
    match address_script_pubkey(encoded.as_str(), *network) {
        Some(script) => {
            let script_hex = hex_encode(script.as_slice());
            any_output_pays_to(&tx.metadata.outputs, script_hex.as_slice())
        },
        None => false,
    }
}

/// Looks for an operation of the wanted kind among those of a transaction.
#[verifier::loop_isolation(false)]
fn transaction_carries_operation(tx: &BitcoinTransactionData, wanted: StacksOperations) -> (found: bool)
    ensures
        found == exists|i: int|
            0 <= i < tx.metadata.stacks_operations@.len() && operation_is(
                #[trigger] tx.metadata.stacks_operations@[i],
                wanted,
            ),
{
    let operations = &tx.metadata.stacks_operations;
    let mut i: usize = 0;
    while i < operations.len()
        invariant
            i <= operations.len(),
            forall|j: int| 0 <= j < i ==> !operation_is(#[trigger] operations@[j], wanted),
        decreases operations.len() - i,
    {
        let is_wanted = match wanted {
            StacksOperations::StackerRewarded | StacksOperations::BlockCommitted => {
                matches!(operations[i], StacksBaseChainOperation::BlockCommitted(_))
            },
            StacksOperations::LeaderRegistered => {
                matches!(operations[i], StacksBaseChainOperation::LeaderRegistered(_))
            },
            StacksOperations::StxTransferred => {
                matches!(operations[i], StacksBaseChainOperation::StxTransferred(_))
            },
            StacksOperations::StxLocked => {
                matches!(operations[i], StacksBaseChainOperation::StxLocked(_))
            },
        };
        if is_wanted {
            assert(operation_is(operations@[i as int], wanted));
            return true;
        }
        i += 1;
    }
    false
}

impl DescriptorMatchingRule {
    /// The child indices to derive at, given whether the descriptor has a
    /// wildcard.
    pub fn range_for(&self, wildcard: bool) -> (bounds: (u32, u32))
        ensures
            bounds == derivation_range(wildcard, self.range),
    {
        if wildcard {
            match self.range {
                Some(bounds) => (bounds[0], bounds[1]),
                None => (DEFAULT_RANGE_START, DEFAULT_RANGE_END),
            }
        } else {
            (0, 1)
        }
    }

    /// Tells whether the expression is a descriptor that derives at every
    /// child index of its range.
    #[verifier::loop_isolation(false)]
    pub fn check_derives(&self) -> (derives: bool)
        ensures
            derives == self.derives(),
    {
        match descriptor_has_wildcard(self.expression.as_str()) {
            Some(wildcard) => {
                let (first, end) = self.range_for(wildcard);
                let mut index: u32 = first;
                while index < end
                    invariant
                        first <= index,
                        forall|j: u32|
                            first <= j < index ==> (#[trigger] descriptor_script(
                                self.expression@,
                                j,
                            )) is Some,
                    decreases end - index,
                {
                    if descriptor_script_pubkey(self.expression.as_str(), index).is_none() {
                        return false;
                    }
                    index += 1;
                }
                true
            },
            None => false,
        }
    }

    /// Looks for an output that pays to the descriptor at one of the child
    /// indices of its range.
    #[verifier::loop_isolation(false)]
    pub fn evaluate(&self, tx: &BitcoinTransactionData) -> (found: bool)
        requires
            self.derives(),
        ensures
            found == pays_to_descriptor(*tx, *self),
    {
        let wildcard = descriptor_has_wildcard(self.expression.as_str()).unwrap();
        let (first, end) = self.range_for(wildcard);
        let mut index: u32 = first;
        while index < end
            invariant
                first <= index,
                self.derives(),
                (first, end) == derivation_range(
                    descriptor_wildcard(self.expression@)->0,
                    self.range,
                ),
                forall|j: u32|
                    first <= j < index ==> !(#[trigger] pays_to_descriptor_at(
                        *tx,
                        self.expression@,
                        j,
                    )),
            decreases end - index,
        {
            let script = descriptor_script_pubkey(self.expression.as_str(), index).unwrap();
            let script_hex = hex_encode(script.as_slice());
            if any_output_pays_to(&tx.metadata.outputs, script_hex.as_slice()) {
                assert(pays_to_descriptor_at(*tx, self.expression@, index));
                return true;
            }
            index += 1;
        }
        false
    }
}

impl BitcoinPredicateType {
    /// Tells whether a transaction matches a well-formed predicate on a
    /// network.
    #[verifier::loop_isolation(false)]
    pub fn evaluate_transaction_predicate(
        &self,
        tx: &BitcoinTransactionData,
        network: &BitcoinNetwork,
    ) -> (matched: bool)
        requires
            self.is_well_formed(),
        ensures
            matched == self.matches(*tx, *network),
    {
        match self {
            BitcoinPredicateType::Block => true,
            BitcoinPredicateType::Txid(ExactMatchingRule::Equals(hash)) => {
                tx.transaction_identifier.hash == *hash
            },
            BitcoinPredicateType::Inputs(InputPredicate::Txid(rule)) => {
                let inputs = &tx.metadata.inputs;
                let mut i: usize = 0;
                while i < inputs.len()
                    invariant
                        i <= inputs.len(),
                        forall|j: int| 0 <= j < i ==> !input_spends(#[trigger] inputs@[j], *rule),
                    decreases inputs.len() - i,
                {
                    if inputs[i].previous_output.txid.hash == rule.txid
                        && inputs[i].previous_output.vout == rule.vout {
                        assert(input_spends(inputs@[i as int], *rule));
                        return true;
                    }
                    i += 1;
                }
                false
            },
            BitcoinPredicateType::Inputs(InputPredicate::WitnessScript(_)) => false,
            BitcoinPredicateType::Outputs(OutputPredicate::OpReturn(rule)) => {
                any_output_carries(&tx.metadata.outputs, rule)
            },
            BitcoinPredicateType::Outputs(OutputPredicate::P2pkh(ExactMatchingRule::Equals(encoded)))
            | BitcoinPredicateType::Outputs(
                OutputPredicate::P2sh(ExactMatchingRule::Equals(encoded)),
            ) => transaction_pays_to_address(tx, encoded, network),
            BitcoinPredicateType::Outputs(OutputPredicate::P2wpkh(ExactMatchingRule::Equals(encoded)))
            | BitcoinPredicateType::Outputs(
                OutputPredicate::P2wsh(ExactMatchingRule::Equals(encoded)),
            ) => {
                if address_has_witness_program(encoded.as_str()) {
                    transaction_pays_to_address(tx, encoded, network)
                } else {
                    false
                }
            },
            BitcoinPredicateType::Outputs(OutputPredicate::Descriptor(rule)) => rule.evaluate(tx),
            BitcoinPredicateType::StacksProtocol(wanted) => transaction_carries_operation(
                tx,
                *wanted,
            ),
            BitcoinPredicateType::OrdinalsProtocol(OrdinalOperations::InscriptionFeed(feed)) => {
                match &feed.meta_protocols {
                    Some(protocols) => {
                        let mut i: usize = 0;
                        while i < protocols.len()
                            invariant
                                i <= protocols.len(),
                                forall|j: int|
                                    0 <= j < i ==> !follows_protocol(*tx, #[trigger] protocols@[j]),
                            decreases protocols.len() - i,
                        {
                            let follows = match protocols[i] {
                                OrdinalsMetaProtocol::All => tx.metadata.ordinal_operations.len() > 0,
                                OrdinalsMetaProtocol::Brc20 => tx.metadata.brc20_operation.is_some(),
                            };
                            if follows {
                                assert(follows_protocol(*tx, protocols@[i as int]));
                                return true;
                            }
                            i += 1;
                        }
                        false
                    },
                    None => tx.metadata.ordinal_operations.len() > 0,
                }
            },
        }
    }

    /// Checks that the predicate is well formed. A reserved rule is refused
    /// as unsupported; a descriptor with an empty range, or one that does not
    /// parse or derive, as invalid.
    pub fn validate(&self) -> (checked: Result<(), RouterError>)
        ensures
            checked is Ok <==> self.is_well_formed(),
            !self.is_supported() ==> checked == Err::<(), RouterError>(
                RouterError::UnsupportedPredicate,
            ),
            self.is_supported() && !self.is_well_formed() ==> checked == Err::<(), RouterError>(
                RouterError::InvalidPredicate,
            ),
    {
        match self {
            BitcoinPredicateType::Inputs(InputPredicate::WitnessScript(_)) => Err(
                RouterError::UnsupportedPredicate,
            ),
            BitcoinPredicateType::Outputs(OutputPredicate::Descriptor(rule)) => {
                let valid_range = match rule.range {
                    Some(bounds) => bounds[0] < bounds[1],
                    None => true,
                };
                if valid_range && rule.check_derives() {
                    Ok(())
                } else {
                    Err(RouterError::InvalidPredicate)
                }
            },
            _ => Ok(()),
        }
    }

    /// Tells whether a transaction matches the predicate on a network, after
    /// checking that the predicate is well formed.
    pub fn try_evaluate_transaction_predicate(
        &self,
        tx: &BitcoinTransactionData,
        network: &BitcoinNetwork,
    ) -> (outcome: Result<bool, RouterError>)
        ensures
            self.is_well_formed() ==> outcome == Ok::<bool, RouterError>(self.matches(*tx, *network)),
            !self.is_supported() ==> outcome == Err::<bool, RouterError>(
                RouterError::UnsupportedPredicate,
            ),
            self.is_supported() && !self.is_well_formed() ==> outcome == Err::<bool, RouterError>(
                RouterError::InvalidPredicate,
            ),
    {
        match self.validate() {
            Ok(()) => Ok(self.evaluate_transaction_predicate(tx, network)),
            Err(e) => Err(e),
        }
    }
}


/// A descriptor with a wildcard and no range is evaluated at the child
/// indices 0 to 4, and at no other.
pub proof fn lemma_default_descriptor_range(tx: BitcoinTransactionData, rule: DescriptorMatchingRule)
    requires
        rule.range is None,
        descriptor_wildcard(rule.expression@) == Some(true),
    ensures
        derivation_range(true, rule.range) == (0u32, 5u32),
        pays_to_descriptor(tx, rule) <==> exists|index: u32|
            0 <= index < 5 && #[trigger] pays_to_descriptor_at(tx, rule.expression@, index),
{
}

} // verus!
