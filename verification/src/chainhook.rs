//! Predicate specifications: the envelope that holds one specification per
//! network, and the instance it projects to for one network.

use crate::predicate::BitcoinPredicateType;
use crate::types::{BitcoinNetwork, HookAction, RouterError};
use vstd::prelude::*;
use vstd::string::StringExecFns;

verus! {

/// What a predicate asks for on one network.
#[derive(Clone, Debug, PartialEq, Eq)]
pub struct BitcoinChainhookSpecification {
    pub blocks: Option<Vec<u64>>,
    pub start_block: Option<u64>,
    pub end_block: Option<u64>,
    pub expire_after_occurrence: Option<u64>,
    pub include_proof: Option<bool>,
    pub include_inputs: Option<bool>,
    pub include_outputs: Option<bool>,
    pub include_witness: Option<bool>,
    pub predicate: BitcoinPredicateType,
    pub action: HookAction,
}

/// A predicate's identity with one specification for each network it is
/// written for. The first entry of a network is the one that counts.
#[derive(Clone, Debug, PartialEq, Eq)]
pub struct BitcoinChainhookSpecificationNetworkMap {
    pub uuid: String,
    pub owner_uuid: Option<String>,
    pub name: String,
    pub version: u32,
    pub networks: Vec<(BitcoinNetwork, BitcoinChainhookSpecification)>,
}

/// A predicate on one network, as the router holds it.
#[derive(Clone, Debug, PartialEq, Eq)]
pub struct BitcoinChainhookInstance {
    pub uuid: String,
    pub owner_uuid: Option<String>,
    pub name: String,
    pub network: BitcoinNetwork,
    pub version: u32,
    pub blocks: Option<Vec<u64>>,
    pub start_block: Option<u64>,
    pub end_block: Option<u64>,
    pub expire_after_occurrence: Option<u64>,
    pub predicate: BitcoinPredicateType,
    pub action: HookAction,
    pub include_proof: bool,
    pub include_inputs: bool,
    pub include_outputs: bool,
    pub include_witness: bool,
    pub enabled: bool,
    pub expired_at: Option<u64>,
}

/// The value of a flag that may be left out: `false` unless it is given.
pub open spec fn flag(value: Option<bool>) -> bool {
    match value {
        Some(b) => b,
        None => false,
    }
}

/// The text in front of the identifier in the key of a base-chain predicate.
pub open spec fn base_key_prefix() -> Seq<char> {
    seq!['b', 'a', 's', 'e', ':']
}

/// The text in front of the identifier in the key of an app-chain predicate.
pub open spec fn app_key_prefix() -> Seq<char> {
    seq!['a', 'p', 'p', ':']
}

/// The key under which a base-chain predicate is stored.
pub fn bitcoin_key(uuid: &str) -> (key: String)
    ensures
        key@ == base_key_prefix() + uuid@,
{
    proof {
        reveal_strlit("base:");
    }
    let mut key = String::from_str("base:");
    assert(key@ =~= base_key_prefix());
    key.append(uuid);
    key
}

/// The key under which an app-chain predicate is stored.
pub fn stacks_key(uuid: &str) -> (key: String)
    ensures
        key@ == app_key_prefix() + uuid@,
{
    proof {
        reveal_strlit("app:");
    }
    let mut key = String::from_str("app:");
    assert(key@ =~= app_key_prefix());
    key.append(uuid);
    key
}

/// The key of a predicate of which only the identifier is known: the
/// app-chain key where the store holds one for it, else the base-chain key.
pub fn either_stx_or_btc_key(uuid: &str, stored_as_app_chain: bool) -> (key: String)
    ensures
        stored_as_app_chain ==> key@ == app_key_prefix() + uuid@,
        !stored_as_app_chain ==> key@ == base_key_prefix() + uuid@,
{
    if stored_as_app_chain {
        stacks_key(uuid)
    } else {
        bitcoin_key(uuid)
    }
}

/// Which of a predicate's fields tell the blocks it applies to.
#[derive(Clone, Copy, Debug, PartialEq, Eq, Structural)]
pub enum BlockScope {
    /// The blocks listed one by one.
    ExplicitBlocks,
    /// The blocks from the first block to the last block.
    ScanRange,
    /// Every block from the first block on.
    OpenEndedTail,
}

impl BitcoinChainhookInstance {
    /// The fields that tell the blocks the predicate applies to: the list
    /// where there is one, else the range where it has an end, else the
    /// tail.
    pub open spec fn scope(&self) -> BlockScope {
        if self.blocks is Some {
            BlockScope::ExplicitBlocks
        } else if self.end_block is Some {
            BlockScope::ScanRange
        } else {
            BlockScope::OpenEndedTail
        }
    }

    /// Whether the first block does not lie behind the last, where both are
    /// given.
    pub open spec fn has_ordered_range(&self) -> bool {
        self.start_block matches Some(start) ==> (self.end_block matches Some(end) ==> start <= end)
    }

    /// Whether the predicate is well formed: its range is ordered and its
    /// rule is well formed.
    pub open spec fn is_well_formed(&self) -> bool {
        self.has_ordered_range() && self.predicate.is_well_formed()
    }

    /// Tells which fields tell the blocks the predicate applies to.
    pub fn block_scope(&self) -> (scope: BlockScope)
        ensures
            scope == self.scope(),
    {
        if self.blocks.is_some() {
            BlockScope::ExplicitBlocks
        } else if self.end_block.is_some() {
            BlockScope::ScanRange
        } else {
            BlockScope::OpenEndedTail
        }
    }

    /// Checks that the predicate is well formed. A reserved rule is refused
    /// as unsupported, anything else that is amiss as invalid.
    pub fn validate(&self) -> (checked: Result<(), RouterError>)
        ensures
            checked is Ok <==> self.is_well_formed(),
            !self.predicate.is_supported() ==> checked == Err::<(), RouterError>(
                RouterError::UnsupportedPredicate,
            ),
            self.predicate.is_supported() && !self.is_well_formed() ==> checked == Err::<
                (),
                RouterError,
            >(RouterError::InvalidPredicate),
    {
        match self.predicate.validate() {
            Ok(()) => {
                let ordered = match (self.start_block, self.end_block) {
                    (Some(start), Some(end)) => start <= end,
                    _ => true,
                };
                if ordered {
                    Ok(())
                } else {
                    Err(RouterError::InvalidPredicate)
                }
            },
            Err(e) => Err(e),
        }
    }

    /// The key under which the predicate is stored.
    pub fn key(&self) -> (key: String)
        ensures
            key@ == base_key_prefix() + self.uuid@,
    {
        bitcoin_key(self.uuid.as_str())
    }
}

impl BitcoinChainhookSpecificationNetworkMap {
    /// Whether the envelope holds a specification for a network.
    pub open spec fn has_network(&self, network: BitcoinNetwork) -> bool {
        exists|i: int| 0 <= i < self.networks@.len() && (#[trigger] self.networks@[i]).0 == network
    }

    /// Whether entry `i` is the first one for a network.
    pub open spec fn is_entry_for(&self, i: int, network: BitcoinNetwork) -> bool {
        &&& 0 <= i < self.networks@.len()
        &&& self.networks@[i].0 == network
        &&& forall|j: int| 0 <= j < i ==> (#[trigger] self.networks@[j]).0 != network
    }

    /// The instance that a specification of this envelope gives on a network:
    /// identity from the envelope, the rest from the specification, flags
    /// that were left out off, not enabled and not expired.
    pub open spec fn instance_from(
        &self,
        spec: BitcoinChainhookSpecification,
        network: BitcoinNetwork,
    ) -> BitcoinChainhookInstance {
        BitcoinChainhookInstance {
            uuid: self.uuid,
            owner_uuid: self.owner_uuid,
            name: self.name,
            network: network,
            version: self.version,
            blocks: spec.blocks,
            start_block: spec.start_block,
            end_block: spec.end_block,
            expire_after_occurrence: spec.expire_after_occurrence,
            predicate: spec.predicate,
            action: spec.action,
            include_proof: flag(spec.include_proof),
            include_inputs: flag(spec.include_inputs),
            include_outputs: flag(spec.include_outputs),
            include_witness: flag(spec.include_witness),
            enabled: false,
            expired_at: None,
        }
    }

    /// Projects the envelope to the instance for one network. It fails
    /// exactly when the envelope holds nothing for that network.
    pub fn into_specification_for_network(self, network: &BitcoinNetwork) -> (projected: Result<
        BitcoinChainhookInstance,
        String,
    >)
        ensures
            projected is Ok <==> self.has_network(*network),
            projected matches Ok(instance) ==> instance.network == *network && exists|i: int|
                #[trigger] self.is_entry_for(i, *network) && instance == self.instance_from(
                    self.networks@[i].1,
                    *network,
                ),
            projected matches Err(message) ==> message@ == "Network unknown"@,
    {
        let mut map = self;
        let mut i: usize = 0;
        while i < map.networks.len()
            invariant
                i <= map.networks.len(),
                map == self,
                forall|j: int| 0 <= j < i ==> (#[trigger] map.networks@[j]).0 != *network,
            decreases map.networks.len() - i,
        {
            if map.networks[i].0 == *network {
                assert(self.is_entry_for(i as int, *network));
                let (_, spec) = map.networks.remove(i);
                return Ok(
                    BitcoinChainhookInstance {
                        uuid: map.uuid,
                        owner_uuid: map.owner_uuid,
                        name: map.name,
                        network: *network,
                        version: map.version,
                        blocks: spec.blocks,
                        start_block: spec.start_block,
                        end_block: spec.end_block,
                        expire_after_occurrence: spec.expire_after_occurrence,
                        predicate: spec.predicate,
                        action: spec.action,
                        include_proof: spec.include_proof.unwrap_or(false),
                        include_inputs: spec.include_inputs.unwrap_or(false),
                        include_outputs: spec.include_outputs.unwrap_or(false),
                        include_witness: spec.include_witness.unwrap_or(false),
                        enabled: false,
                        expired_at: None,
                    },
                );
            }
            i += 1;
        }
        Err(String::from_str("Network unknown"))
    }
}

} // verus!
