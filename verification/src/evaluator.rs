//! The event evaluator: applies the active predicates to the blocks of a
//! chain event and tells which transactions matched, which blocks were
//! evaluated and which lay beyond a predicate's last block.

use crate::chainhook::BitcoinChainhookInstance;
use crate::types::{
    BitcoinBlockData, BitcoinChainEvent, BitcoinTransactionData, BlockIdentifier, RouterError,
};
use vstd::prelude::*;

verus! {

/// The transactions of one block that matched a predicate, with the block.
pub type BlockHits<'a> = (Vec<&'a BitcoinTransactionData>, &'a BitcoinBlockData);

/// A predicate that matched, with what it matched in the blocks applied and
/// in the blocks rolled back.
pub struct BitcoinTriggerChainhook<'a> {
    pub chainhook: &'a BitcoinChainhookInstance,
    pub apply: Vec<BlockHits<'a>>,
    pub rollback: Vec<BlockHits<'a>>,
}

/// The blocks recorded for one predicate, in the order of the event.
pub struct PredicateBlocks<'a> {
    pub uuid: &'a str,
    pub blocks: Vec<&'a BlockIdentifier>,
}

/// What a trigger holds, as values.
pub struct TriggerView {
    pub chainhook: BitcoinChainhookInstance,
    pub apply: Seq<(Seq<BitcoinTransactionData>, BitcoinBlockData)>,
    pub rollback: Seq<(Seq<BitcoinTransactionData>, BitcoinBlockData)>,
}

/// The transactions that a list of references points to.
pub open spec fn transactions_of(refs: Seq<&BitcoinTransactionData>) -> Seq<BitcoinTransactionData> {
    refs.map_values(|tx: &BitcoinTransactionData| *tx)
}

/// The matched transactions and blocks that a list of hits points to.
pub open spec fn hits_of(hits: Seq<BlockHits>) -> Seq<(Seq<BitcoinTransactionData>, BitcoinBlockData)> {
    hits.map_values(|hit: BlockHits| (transactions_of(hit.0@), *hit.1))
}

/// The identifiers that a list of references points to.
pub open spec fn identifiers_of(refs: Seq<&BlockIdentifier>) -> Seq<BlockIdentifier> {
    refs.map_values(|id: &BlockIdentifier| *id)
}

impl<'a> View for BitcoinTriggerChainhook<'a> {
    type V = TriggerView;

    open spec fn view(&self) -> TriggerView {
        TriggerView {
            chainhook: *self.chainhook,
            apply: hits_of(self.apply@),
            rollback: hits_of(self.rollback@),
        }
    }
}

/// The triggers that a list holds, as values.
pub open spec fn triggers_of(triggers: Seq<BitcoinTriggerChainhook>) -> Seq<TriggerView> {
    triggers.map_values(|trigger: BitcoinTriggerChainhook| trigger@)
}

/// Whether a block lies within a predicate's range: at or below its last
/// block, where it has one.
pub open spec fn within_end_block(chainhook: BitcoinChainhookInstance, block: BitcoinBlockData) -> bool {
    match chainhook.end_block {
        Some(end_block) => block.block_identifier.index <= end_block,
        None => true,
    }
}

/// The test of a transaction against a predicate on its network, as a
/// function.
pub open spec fn matching(chainhook: BitcoinChainhookInstance) -> spec_fn(BitcoinTransactionData) -> bool {
    |tx: BitcoinTransactionData| chainhook.predicate.matches(tx, chainhook.network)
}

/// The transactions of a block that match a predicate, in block order.
pub open spec fn matched_transactions(
    chainhook: BitcoinChainhookInstance,
    block: BitcoinBlockData,
) -> Seq<BitcoinTransactionData> {
    block.transactions@.filter(matching(chainhook))
}

/// The test of a block for lying within a predicate's range, as a function.
pub open spec fn in_range(chainhook: BitcoinChainhookInstance) -> spec_fn(BitcoinBlockData) -> bool {
    |block: BitcoinBlockData| within_end_block(chainhook, block)
}

/// The test of a block for lying beyond a predicate's range, as a function.
pub open spec fn out_of_range(chainhook: BitcoinChainhookInstance) -> spec_fn(BitcoinBlockData) -> bool {
    |block: BitcoinBlockData| !within_end_block(chainhook, block)
}

/// The test of a block for lying within a predicate's range and holding a
/// transaction that matches, as a function.
pub open spec fn is_hit(chainhook: BitcoinChainhookInstance) -> spec_fn(BitcoinBlockData) -> bool {
    |block: BitcoinBlockData|
        within_end_block(chainhook, block) && matched_transactions(chainhook, block).len() > 0
}

/// The identifier of a block, as a function.
pub open spec fn identifier() -> spec_fn(BitcoinBlockData) -> BlockIdentifier {
    |block: BitcoinBlockData| block.block_identifier
}

/// The blocks among `blocks` in which a predicate matched, each with its
/// matching transactions, in the order given.
pub open spec fn hits_in(chainhook: BitcoinChainhookInstance, blocks: Seq<BitcoinBlockData>) -> Seq<
    (Seq<BitcoinTransactionData>, BitcoinBlockData),
> {
    blocks.filter(is_hit(chainhook)).map_values(
        |block: BitcoinBlockData| (matched_transactions(chainhook, block), block),
    )
}

/// The identifiers of the blocks among `blocks` that a predicate was
/// evaluated on: those within its range.
pub open spec fn evaluated_in(chainhook: BitcoinChainhookInstance, blocks: Seq<BitcoinBlockData>) -> Seq<
    BlockIdentifier,
> {
    blocks.filter(in_range(chainhook)).map_values(identifier())
}

/// The identifiers of the blocks among `blocks` that lie beyond a
/// predicate's range.
pub open spec fn expired_in(chainhook: BitcoinChainhookInstance, blocks: Seq<BitcoinBlockData>) -> Seq<
    BlockIdentifier,
> {
    blocks.filter(out_of_range(chainhook)).map_values(identifier())
}

/// The blocks that an event applies.
pub open spec fn blocks_applied(event: BitcoinChainEvent) -> Seq<BitcoinBlockData> {
    match event {
        BitcoinChainEvent::ChainUpdatedWithBlocks(update) => update.new_blocks@,
        BitcoinChainEvent::ChainUpdatedWithReorg(reorg) => reorg.blocks_to_apply@,
    }
}

/// The blocks that an event rolls back.
pub open spec fn blocks_rolled_back(event: BitcoinChainEvent) -> Seq<BitcoinBlockData> {
    match event {
        BitcoinChainEvent::ChainUpdatedWithBlocks(_) => Seq::empty(),
        BitcoinChainEvent::ChainUpdatedWithReorg(reorg) => reorg.blocks_to_rollback@,
    }
}

/// Whether a predicate fires on an event: it matched in a block applied or
/// in a block rolled back.
pub open spec fn fires(chainhook: BitcoinChainhookInstance, event: BitcoinChainEvent) -> bool {
    hits_in(chainhook, blocks_applied(event)).len() > 0 || hits_in(
        chainhook,
        blocks_rolled_back(event),
    ).len() > 0
}

/// The trigger of a predicate on an event.
pub open spec fn trigger_for(chainhook: BitcoinChainhookInstance, event: BitcoinChainEvent) -> TriggerView {
    TriggerView {
        chainhook,
        apply: hits_in(chainhook, blocks_applied(event)),
        rollback: hits_in(chainhook, blocks_rolled_back(event)),
    }
}

/// The test of a predicate for firing on an event, as a function.
pub open spec fn firing(event: BitcoinChainEvent) -> spec_fn(BitcoinChainhookInstance) -> bool {
    |chainhook: BitcoinChainhookInstance| fires(chainhook, event)
}

/// The predicates that a list of references points to.
pub open spec fn instances_of(refs: Seq<&BitcoinChainhookInstance>) -> Seq<BitcoinChainhookInstance> {
    refs.map_values(|chainhook: &BitcoinChainhookInstance| *chainhook)
}

/// The triggers of an event: one for each predicate that fires, in the
/// order of the predicates.
pub open spec fn triggers_for(active: Seq<BitcoinChainhookInstance>, event: BitcoinChainEvent) -> Seq<
    TriggerView,
> {
    active.filter(firing(event)).map_values(
        |chainhook: BitcoinChainhookInstance| trigger_for(chainhook, event),
    )
}

/// Collects the transactions of a block that match a predicate.
pub fn matching_transactions<'a>(
    chainhook: &BitcoinChainhookInstance,
    block: &'a BitcoinBlockData,
) -> (hits: Vec<&'a BitcoinTransactionData>)
    requires
        chainhook.predicate.is_well_formed(),
    ensures
        transactions_of(hits@) == matched_transactions(*chainhook, *block),
{
    let mut hits: Vec<&'a BitcoinTransactionData> = Vec::new();
    let mut i: usize = 0;
    proof {
        reveal(Seq::filter);
        assert(block.transactions@.take(0) =~= Seq::empty());
        assert(transactions_of(hits@) =~= Seq::empty());
    }
    while i < block.transactions.len()
        invariant
            i <= block.transactions.len(),
            chainhook.predicate.is_well_formed(),
            transactions_of(hits@) == block.transactions@.take(i as int).filter(
                matching(*chainhook),
            ),
        decreases block.transactions.len() - i,
    {
        let tx = &block.transactions[i];
        let ghost before = transactions_of(hits@);
        proof {
            reveal(Seq::filter);
            assert(block.transactions@.take(i + 1).drop_last() =~= block.transactions@.take(
                i as int,
            ));
        }
        if chainhook.predicate.evaluate_transaction_predicate(tx, &chainhook.network) {
            hits.push(tx);
            assert(transactions_of(hits@) =~= before.push(*tx));
        }
        i += 1;
    }
    assert(block.transactions@.take(i as int) =~= block.transactions@);
    hits
}


/// Evaluates a predicate on a list of blocks: the blocks in which it matched
/// with their matching transactions, the identifiers of the blocks within
/// its range, and of those beyond it.
#[verifier::loop_isolation(false)]
pub fn scan_blocks<'a>(chainhook: &BitcoinChainhookInstance, blocks: &'a Vec<BitcoinBlockData>) -> (found: (
    Vec<BlockHits<'a>>,
    Vec<&'a BlockIdentifier>,
    Vec<&'a BlockIdentifier>,
))
    requires
        chainhook.predicate.is_well_formed(),
    ensures
        hits_of(found.0@) == hits_in(*chainhook, blocks@),
        identifiers_of(found.1@) == evaluated_in(*chainhook, blocks@),
        identifiers_of(found.2@) == expired_in(*chainhook, blocks@),
{
    let mut hits: Vec<BlockHits<'a>> = Vec::new();
    let mut evaluated: Vec<&'a BlockIdentifier> = Vec::new();
    let mut expired: Vec<&'a BlockIdentifier> = Vec::new();
    let mut i: usize = 0;
    proof {
        reveal(Seq::filter);
        assert(blocks@.take(0) =~= Seq::empty());
        assert(hits_of(hits@) =~= hits_in(*chainhook, blocks@.take(0)));
        assert(identifiers_of(evaluated@) =~= evaluated_in(*chainhook, blocks@.take(0)));
        assert(identifiers_of(expired@) =~= expired_in(*chainhook, blocks@.take(0)));
    }
    while i < blocks.len()
        invariant
            i <= blocks.len(),
            hits_of(hits@) == hits_in(*chainhook, blocks@.take(i as int)),
            identifiers_of(evaluated@) == evaluated_in(*chainhook, blocks@.take(i as int)),
            identifiers_of(expired@) == expired_in(*chainhook, blocks@.take(i as int)),
        decreases blocks.len() - i,
    {
        let block = &blocks[i];
        let ghost hits_before = hits_of(hits@);
        let ghost evaluated_before = identifiers_of(evaluated@);
        let ghost expired_before = identifiers_of(expired@);
        let ghost seen = blocks@.take(i as int);
        let ghost next = blocks@.take(i + 1);
        proof {
            reveal(Seq::filter);
            assert(next.drop_last() =~= seen);
            assert(next.last() == *block);
        }
        let within = match chainhook.end_block {
            Some(end_block) => block.block_identifier.index <= end_block,
            None => true,
        };
        if within {
            evaluated.push(&block.block_identifier);
            let matched = matching_transactions(chainhook, block);
            if matched.len() > 0 {
                hits.push((matched, block));
                assert(hits_of(hits@) =~= hits_before.push(
                    (matched_transactions(*chainhook, *block), *block),
                ));
                assert(next.filter(is_hit(*chainhook)) == seen.filter(is_hit(*chainhook)).push(
                    *block,
                ));
            } else {
                assert(transactions_of(matched@).len() == 0);
                assert(next.filter(is_hit(*chainhook)) == seen.filter(is_hit(*chainhook)));
            }
            assert(identifiers_of(evaluated@) =~= evaluated_before.push(block.block_identifier));
            assert(next.filter(in_range(*chainhook)) == seen.filter(in_range(*chainhook)).push(
                *block,
            ));
            assert(next.filter(out_of_range(*chainhook)) == seen.filter(out_of_range(*chainhook)));
        } else {
            expired.push(&block.block_identifier);
            assert(identifiers_of(expired@) =~= expired_before.push(block.block_identifier));
            assert(next.filter(out_of_range(*chainhook)) == seen.filter(
                out_of_range(*chainhook),
            ).push(*block));
            assert(next.filter(in_range(*chainhook)) == seen.filter(in_range(*chainhook)));
            assert(next.filter(is_hit(*chainhook)) == seen.filter(is_hit(*chainhook)));
        }
        i += 1;
        assert(hits_of(hits@) =~= hits_in(*chainhook, next));
        assert(identifiers_of(evaluated@) =~= evaluated_in(*chainhook, next));
        assert(identifiers_of(expired@) =~= expired_in(*chainhook, next));
    }
    assert(blocks@.take(i as int) =~= blocks@);
    (hits, evaluated, expired)
}


/// The blocks recorded for each predicate, as values: the predicate's
/// identifier and the identifiers of the blocks.
pub open spec fn records_of(records: Seq<PredicateBlocks>) -> Seq<(Seq<char>, Seq<BlockIdentifier>)> {
    records.map_values(|record: PredicateBlocks| (record.uuid@, identifiers_of(record.blocks@)))
}

/// The blocks of an event that lie beyond a predicate's range: those rolled
/// back first, then those applied.
pub open spec fn expired_on(chainhook: BitcoinChainhookInstance, event: BitcoinChainEvent) -> Seq<
    BlockIdentifier,
> {
    expired_in(chainhook, blocks_rolled_back(event)) + expired_in(chainhook, blocks_applied(event))
}

/// The blocks of an event that a predicate was evaluated on: the applied
/// blocks within its range.
pub open spec fn evaluated_on(chainhook: BitcoinChainhookInstance, event: BitcoinChainEvent) -> Seq<
    BlockIdentifier,
> {
    evaluated_in(chainhook, blocks_applied(event))
}

/// The record of evaluated blocks of a predicate, as a function.
pub open spec fn evaluated_record(event: BitcoinChainEvent) -> spec_fn(BitcoinChainhookInstance) -> (
    Seq<char>,
    Seq<BlockIdentifier>,
) {
    |chainhook: BitcoinChainhookInstance| (chainhook.uuid@, evaluated_on(chainhook, event))
}

/// The record of expired blocks of a predicate, as a function.
pub open spec fn expired_record(event: BitcoinChainEvent) -> spec_fn(BitcoinChainhookInstance) -> (
    Seq<char>,
    Seq<BlockIdentifier>,
) {
    |chainhook: BitcoinChainhookInstance| (chainhook.uuid@, expired_on(chainhook, event))
}

/// What the evaluation of an event gives, as values.
pub struct EvaluationView {
    pub triggers: Seq<TriggerView>,
    pub evaluated: Seq<(Seq<char>, Seq<BlockIdentifier>)>,
    pub expired: Seq<(Seq<char>, Seq<BlockIdentifier>)>,
}

/// The evaluation of an event against a list of predicates: a trigger for
/// each predicate that fires, and for every predicate, in the order given,
/// the blocks it was evaluated on and the blocks beyond its range.
pub open spec fn evaluation_of(active: Seq<BitcoinChainhookInstance>, event: BitcoinChainEvent) -> EvaluationView {
    EvaluationView {
        triggers: triggers_for(active, event),
        evaluated: active.map_values(evaluated_record(event)),
        expired: active.map_values(expired_record(event)),
    }
}

/// What an evaluation returned, as values.
pub open spec fn evaluation_view(
    result: (Vec<BitcoinTriggerChainhook>, Vec<PredicateBlocks>, Vec<PredicateBlocks>),
) -> EvaluationView {
    EvaluationView {
        triggers: triggers_of(result.0@),
        evaluated: records_of(result.1@),
        expired: records_of(result.2@),
    }
}

/// Whether every predicate of a list is well formed.
pub open spec fn all_well_formed(active: Seq<&BitcoinChainhookInstance>) -> bool {
    forall|i: int| 0 <= i < active.len() ==> (#[trigger] active[i]).predicate.is_well_formed()
}

/// Evaluates one predicate on an event.
pub fn evaluate_chainhook_on_chain_event<'a>(
    chain_event: &'a BitcoinChainEvent,
    chainhook: &'a BitcoinChainhookInstance,
) -> (found: (BitcoinTriggerChainhook<'a>, PredicateBlocks<'a>, PredicateBlocks<'a>))
    requires
        chainhook.predicate.is_well_formed(),
    ensures
        found.0@ == trigger_for(*chainhook, *chain_event),
        found.1.uuid@ == chainhook.uuid@,
        identifiers_of(found.1.blocks@) == evaluated_on(*chainhook, *chain_event),
        found.2.uuid@ == chainhook.uuid@,
        identifiers_of(found.2.blocks@) == expired_on(*chainhook, *chain_event),
{
    match chain_event {
        BitcoinChainEvent::ChainUpdatedWithBlocks(update) => {
            let (apply, evaluated, expired) = scan_blocks(chainhook, &update.new_blocks);
            let rollback: Vec<BlockHits<'a>> = Vec::new();
            proof {
                reveal(Seq::filter);
                let none = Seq::<BitcoinBlockData>::empty();
                assert(hits_of(rollback@) =~= hits_in(*chainhook, none));
                assert(expired_in(*chainhook, none) + expired_in(*chainhook, update.new_blocks@)
                    =~= expired_in(*chainhook, update.new_blocks@));
            }
            (
                BitcoinTriggerChainhook { chainhook, apply, rollback },
                PredicateBlocks { uuid: chainhook.uuid.as_str(), blocks: evaluated },
                PredicateBlocks { uuid: chainhook.uuid.as_str(), blocks: expired },
            )
        },
        BitcoinChainEvent::ChainUpdatedWithReorg(reorg) => {
            let (rollback, _, mut expired) = scan_blocks(chainhook, &reorg.blocks_to_rollback);
            let (apply, evaluated, mut expired_apply) = scan_blocks(chainhook, &reorg.blocks_to_apply);
            let ghost first = identifiers_of(expired@);
            let ghost second = identifiers_of(expired_apply@);
            expired.append(&mut expired_apply);
            assert(identifiers_of(expired@) =~= first + second);
            (
                BitcoinTriggerChainhook { chainhook, apply, rollback },
                PredicateBlocks { uuid: chainhook.uuid.as_str(), blocks: evaluated },
                PredicateBlocks { uuid: chainhook.uuid.as_str(), blocks: expired },
            )
        },
    }
}

/// Evaluates the active predicates on a chain event. Predicates are taken in
/// the order given, blocks in the order of the event, transactions in block
/// order. Every predicate gets a record of the blocks it was evaluated on and
/// one of the blocks beyond its range; only a predicate that matched in a
/// block applied or rolled back gets a trigger.
#[verifier::loop_isolation(false)]
pub fn evaluate_bitcoin_chainhooks_on_chain_event<'a>(
    chain_event: &'a BitcoinChainEvent,
    active_chainhooks: &Vec<&'a BitcoinChainhookInstance>,
) -> (result: (Vec<BitcoinTriggerChainhook<'a>>, Vec<PredicateBlocks<'a>>, Vec<PredicateBlocks<'a>>))
    requires
        all_well_formed(active_chainhooks@),
    ensures
        evaluation_view(result) == evaluation_of(instances_of(active_chainhooks@), *chain_event),
{
    let mut triggered: Vec<BitcoinTriggerChainhook<'a>> = Vec::new();
    let mut evaluated: Vec<PredicateBlocks<'a>> = Vec::new();
    let mut expired: Vec<PredicateBlocks<'a>> = Vec::new();
    let ghost active = instances_of(active_chainhooks@);
    let mut i: usize = 0;
    proof {
        reveal(Seq::filter);
        assert(active.take(0) =~= Seq::empty());
        assert(triggers_of(triggered@) =~= triggers_for(active.take(0), *chain_event));
        assert(records_of(evaluated@) =~= active.take(0).map_values(evaluated_record(*chain_event)));
        assert(records_of(expired@) =~= active.take(0).map_values(expired_record(*chain_event)));
    }
    while i < active_chainhooks.len()
        invariant
            i <= active_chainhooks.len(),
            triggers_of(triggered@) == triggers_for(active.take(i as int), *chain_event),
            records_of(evaluated@) == active.take(i as int).map_values(
                evaluated_record(*chain_event),
            ),
            records_of(expired@) == active.take(i as int).map_values(expired_record(*chain_event)),
        decreases active_chainhooks.len() - i,
    {
        let chainhook = active_chainhooks[i];
        let ghost triggers_before = triggers_of(triggered@);
        let ghost evaluated_before = records_of(evaluated@);
        let ghost expired_before = records_of(expired@);
        let ghost seen = active.take(i as int);
        let ghost next = active.take(i + 1);
        proof {
            reveal(Seq::filter);
            assert(next.drop_last() =~= seen);
            assert(next.last() == *chainhook);
        }
        let (trigger, evaluated_blocks, expired_blocks) = evaluate_chainhook_on_chain_event(
            chain_event,
            chainhook,
        );
        evaluated.push(evaluated_blocks);
        expired.push(expired_blocks);
        assert(records_of(evaluated@) =~= evaluated_before.push(
            evaluated_record(*chain_event)(*chainhook),
        ));
        assert(records_of(expired@) =~= expired_before.push(
            expired_record(*chain_event)(*chainhook),
        ));
        if !trigger.apply.is_empty() || !trigger.rollback.is_empty() {
            assert(fires(*chainhook, *chain_event));
            triggered.push(trigger);
            assert(triggers_of(triggered@) =~= triggers_before.push(
                trigger_for(*chainhook, *chain_event),
            ));
            assert(next.filter(firing(*chain_event)) == seen.filter(firing(*chain_event)).push(
                *chainhook,
            ));
        } else {
            assert(!fires(*chainhook, *chain_event));
            assert(next.filter(firing(*chain_event)) == seen.filter(firing(*chain_event)));
        }
        i += 1;
        assert(triggers_of(triggered@) =~= triggers_for(next, *chain_event));
        assert(records_of(evaluated@) =~= next.map_values(evaluated_record(*chain_event)));
        assert(records_of(expired@) =~= next.map_values(expired_record(*chain_event)));
    }
    assert(active.take(i as int) =~= active);
    (triggered, evaluated, expired)
}


/// Whether entry `i` is the first predicate of a list that is not well
/// formed.
pub open spec fn is_first_malformed(active: Seq<&BitcoinChainhookInstance>, i: int) -> bool {
    &&& 0 <= i < active.len()
    &&& !active[i].predicate.is_well_formed()
    &&& forall|j: int| 0 <= j < i ==> (#[trigger] active[j]).predicate.is_well_formed()
}

/// The error that a predicate which is not well formed is refused with.
pub open spec fn refusal_of(chainhook: BitcoinChainhookInstance) -> RouterError {
    if chainhook.predicate.is_supported() {
        RouterError::InvalidPredicate
    } else {
        RouterError::UnsupportedPredicate
    }
}

/// Evaluates the active predicates on a chain event after checking each of
/// them. The first predicate that is not well formed stops the evaluation
/// with its error.
#[verifier::loop_isolation(false)]
pub fn try_evaluate_bitcoin_chainhooks_on_chain_event<'a>(
    chain_event: &'a BitcoinChainEvent,
    active_chainhooks: &Vec<&'a BitcoinChainhookInstance>,
) -> (outcome: Result<
    (Vec<BitcoinTriggerChainhook<'a>>, Vec<PredicateBlocks<'a>>, Vec<PredicateBlocks<'a>>),
    RouterError,
>)
    ensures
        outcome is Ok <==> all_well_formed(active_chainhooks@),
        outcome matches Ok(result) ==> evaluation_view(result) == evaluation_of(
            instances_of(active_chainhooks@),
            *chain_event,
        ),
        outcome matches Err(error) ==> exists|i: int|
            #[trigger] is_first_malformed(active_chainhooks@, i) && error == refusal_of(
                *active_chainhooks@[i],
            ),
{
    let mut i: usize = 0;
    while i < active_chainhooks.len()
        invariant
            i <= active_chainhooks.len(),
            forall|j: int|
                0 <= j < i ==> (#[trigger] active_chainhooks@[j]).predicate.is_well_formed(),
        decreases active_chainhooks.len() - i,
    {
        match active_chainhooks[i].predicate.validate() {
            Ok(()) => {},
            Err(error) => {
                assert(is_first_malformed(active_chainhooks@, i as int));
                return Err(error);
            },
        }
        i += 1;
    }
    Ok(evaluate_bitcoin_chainhooks_on_chain_event(chain_event, active_chainhooks))
}

/// Evaluation is a function of the event and the predicates: whatever two
/// evaluations of one event against one list of predicates return holds the
/// same triggers and the same records.
pub proof fn lemma_evaluation_is_deterministic(
    active: Seq<BitcoinChainhookInstance>,
    event: BitcoinChainEvent,
    first: EvaluationView,
    second: EvaluationView,
)
    requires
        first == evaluation_of(active, event),
        second == evaluation_of(active, event),
    ensures
        first == second,
{
}

/// An entry of a filtered list passes the test and is an entry of the list.
proof fn lemma_filter_member<A>(s: Seq<A>, test: spec_fn(A) -> bool, i: int)
    requires
        0 <= i < s.filter(test).len(),
    ensures
        test(s.filter(test)[i]),
        s.contains(s.filter(test)[i]),
{
    s.lemma_filter_pred(test, i);
    assert(s.filter(test).contains(s.filter(test)[i]));
    s.lemma_filter_contains_rev(test, s.filter(test)[i]);
}

/// A block recorded as evaluated lies within the predicate's range.
proof fn lemma_evaluated_within(
    chainhook: BitcoinChainhookInstance,
    blocks: Seq<BitcoinBlockData>,
    id: BlockIdentifier,
)
    requires
        evaluated_in(chainhook, blocks).contains(id),
    ensures
        chainhook.end_block matches Some(end_block) ==> id.index <= end_block,
{
    let kept = blocks.filter(in_range(chainhook));
    let i = choose|i: int| 0 <= i < kept.len() && kept.map_values(identifier())[i] == id;
    lemma_filter_member(blocks, in_range(chainhook), i);
}

/// A block recorded as expired lies beyond the predicate's range.
proof fn lemma_expired_beyond(
    chainhook: BitcoinChainhookInstance,
    blocks: Seq<BitcoinBlockData>,
    id: BlockIdentifier,
)
    requires
        expired_in(chainhook, blocks).contains(id),
    ensures
        chainhook.end_block matches Some(end_block) && id.index > end_block,
{
    let kept = blocks.filter(out_of_range(chainhook));
    let i = choose|i: int| 0 <= i < kept.len() && kept.map_values(identifier())[i] == id;
    lemma_filter_member(blocks, out_of_range(chainhook), i);
}

/// A block recorded as expired for a predicate lies above every block
/// recorded as evaluated for it.
pub proof fn lemma_expired_lies_beyond_evaluated(
    chainhook: BitcoinChainhookInstance,
    event: BitcoinChainEvent,
    expired: BlockIdentifier,
    evaluated: BlockIdentifier,
)
    requires
        expired_on(chainhook, event).contains(expired),
        evaluated_on(chainhook, event).contains(evaluated),
    ensures
        expired.index > evaluated.index,
{
    lemma_evaluated_within(chainhook, blocks_applied(event), evaluated);
    let rolled_back = expired_in(chainhook, blocks_rolled_back(event));
    let applied = expired_in(chainhook, blocks_applied(event));
    let i = choose|i: int| 0 <= i < (rolled_back + applied).len() && (rolled_back + applied)[i] == expired;
    if i < rolled_back.len() {
        assert(rolled_back[i] == expired);
        lemma_expired_beyond(chainhook, blocks_rolled_back(event), expired);
    } else {
        assert(applied[i - rolled_back.len()] == expired);
        lemma_expired_beyond(chainhook, blocks_applied(event), expired);
    }
}

/// No block of an event is recorded for one predicate both as expired and as
/// evaluated.
pub proof fn lemma_expired_is_not_evaluated(
    chainhook: BitcoinChainhookInstance,
    event: BitcoinChainEvent,
    id: BlockIdentifier,
)
    ensures
        !(expired_on(chainhook, event).contains(id) && evaluated_on(chainhook, event).contains(id)),
{
    if expired_on(chainhook, event).contains(id) && evaluated_on(chainhook, event).contains(id) {
        lemma_expired_lies_beyond_evaluated(chainhook, event, id, id);
    }
}

/// Every applied block in which a predicate matched is among the blocks
/// recorded as evaluated for it.
pub proof fn lemma_triggered_is_evaluated(
    chainhook: BitcoinChainhookInstance,
    event: BitcoinChainEvent,
    k: int,
)
    requires
        0 <= k < trigger_for(chainhook, event).apply.len(),
    ensures
        evaluated_on(chainhook, event).contains(
            trigger_for(chainhook, event).apply[k].1.block_identifier,
        ),
{
    let blocks = blocks_applied(event);
    let block = blocks.filter(is_hit(chainhook))[k];
    lemma_filter_member(blocks, is_hit(chainhook), k);
    let at = choose|i: int| 0 <= i < blocks.len() && blocks[i] == block;
    blocks.lemma_filter_contains(in_range(chainhook), at);
    let kept = blocks.filter(in_range(chainhook));
    let j = choose|j: int| 0 <= j < kept.len() && kept[j] == block;
    assert(kept.map_values(identifier())[j] == block.block_identifier);
}

} // verus!
