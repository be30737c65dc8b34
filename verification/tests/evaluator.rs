use chainhook_core::chainhook::BitcoinChainhookInstance;
use chainhook_core::evaluator::{
    evaluate_bitcoin_chainhooks_on_chain_event, try_evaluate_bitcoin_chainhooks_on_chain_event,
};
use chainhook_core::predicate::{
    BitcoinPredicateType, DescriptorMatchingRule, InputPredicate, OutputPredicate,
};
use chainhook_core::report::PredicateEvaluationReport;
use chainhook_core::types::{
    BitcoinBlockData, BitcoinBlockMetadata, BitcoinChainEvent, BitcoinChainUpdatedWithBlocksData,
    BitcoinChainUpdatedWithReorgData, BitcoinNetwork, BitcoinTransactionData,
    BitcoinTransactionMetadata, BlockIdentifier, ExactMatchingRule, HookAction, MatchingRule,
    RouterError, TransactionIdentifier,
};

fn id(index: u64, tag: &str) -> BlockIdentifier {
    BlockIdentifier { index, hash: format!("0x{}{}", tag, index) }
}

fn tx(hash: String) -> BitcoinTransactionData {
    BitcoinTransactionData {
        transaction_identifier: TransactionIdentifier { hash },
        operations: vec![],
        metadata: BitcoinTransactionMetadata {
            inputs: vec![],
            outputs: vec![],
            ordinal_operations: vec![],
            stacks_operations: vec![],
            brc20_operation: None,
            proof: None,
            fee: 0,
            index: 0,
        },
    }
}

fn block(index: u64, tag: &str, hashes: &[String]) -> BitcoinBlockData {
    BitcoinBlockData {
        block_identifier: id(index, tag),
        parent_block_identifier: id(index - 1, tag),
        timestamp: 0,
        transactions: hashes.iter().cloned().map(tx).collect(),
        metadata: BitcoinBlockMetadata { network: BitcoinNetwork::Regtest },
    }
}

fn chainhook(uuid: &str, predicate: BitcoinPredicateType, end_block: Option<u64>) -> BitcoinChainhookInstance {
    BitcoinChainhookInstance {
        uuid: uuid.to_string(),
        owner_uuid: None,
        name: "test".to_string(),
        network: BitcoinNetwork::Regtest,
        version: 1,
        blocks: None,
        start_block: None,
        end_block,
        expire_after_occurrence: None,
        predicate,
        action: HookAction::Noop,
        include_proof: false,
        include_inputs: false,
        include_outputs: false,
        include_witness: false,
        enabled: true,
        expired_at: None,
    }
}

fn applied(new_blocks: Vec<BitcoinBlockData>) -> BitcoinChainEvent {
    BitcoinChainEvent::ChainUpdatedWithBlocks(BitcoinChainUpdatedWithBlocksData {
        new_blocks,
        confirmed_blocks: vec![],
    })
}

#[test]
fn txid_match_triggers_once_with_one_transaction() {
    let a = "a".repeat(64);
    let b = "b".repeat(64);
    let event = applied(vec![block(7, "x", &[a.clone(), b])]);
    let hook = chainhook("X", BitcoinPredicateType::Txid(ExactMatchingRule::Equals(a.clone())), None);
    let active = vec![&hook];
    let (triggers, evaluated, expired) = evaluate_bitcoin_chainhooks_on_chain_event(&event, &active);

    assert_eq!(triggers.len(), 1);
    assert_eq!(triggers[0].chainhook.uuid, "X");
    assert_eq!(triggers[0].apply.len(), 1);
    assert!(triggers[0].rollback.is_empty());
    assert_eq!(triggers[0].apply[0].0.len(), 1);
    assert_eq!(triggers[0].apply[0].0[0].transaction_identifier.hash, a);
    assert_eq!(triggers[0].apply[0].1.block_identifier, id(7, "x"));

    let report = PredicateEvaluationReport::from_evaluation(&triggers, &evaluated, &expired);
    assert_eq!(report.predicates_triggered.len(), 1);
    assert_eq!(report.predicates_triggered[0].uuid, "X");
    assert_eq!(report.predicates_triggered[0].blocks, vec![id(7, "x")]);
    assert_eq!(report.predicates_evaluated[0].uuid, "X");
    assert_eq!(report.predicates_evaluated[0].blocks, vec![id(7, "x")]);
    assert!(report.predicates_expired[0].blocks.is_empty());
}

#[test]
fn block_beyond_end_block_expires_the_predicate() {
    let event = applied(vec![block(11, "x", &["a".repeat(64)])]);
    let hook = chainhook("X", BitcoinPredicateType::Block, Some(10));
    let active = vec![&hook];
    let (triggers, evaluated, expired) = evaluate_bitcoin_chainhooks_on_chain_event(&event, &active);
    assert!(triggers.is_empty());
    assert_eq!(expired.len(), 1);
    assert_eq!(expired[0].uuid, "X");
    assert_eq!(expired[0].blocks, vec![&id(11, "x")]);
    assert_eq!(evaluated.len(), 1);
    assert!(evaluated[0].blocks.is_empty());
}

#[test]
fn block_at_end_block_is_still_evaluated() {
    let event = applied(vec![block(10, "x", &["a".repeat(64)]), block(11, "x", &["b".repeat(64)])]);
    let hook = chainhook("X", BitcoinPredicateType::Block, Some(10));
    let active = vec![&hook];
    let (triggers, evaluated, expired) = evaluate_bitcoin_chainhooks_on_chain_event(&event, &active);
    assert_eq!(triggers.len(), 1);
    assert_eq!(triggers[0].apply.len(), 1);
    assert_eq!(evaluated[0].blocks, vec![&id(10, "x")]);
    assert_eq!(expired[0].blocks, vec![&id(11, "x")]);
}

#[test]
fn reorg_triggers_on_rollback_and_apply() {
    let event = BitcoinChainEvent::ChainUpdatedWithReorg(BitcoinChainUpdatedWithReorgData {
        blocks_to_rollback: vec![block(10, "old", &["a".repeat(64)])],
        blocks_to_apply: vec![
            block(10, "new", &["b".repeat(64)]),
            block(11, "new", &["c".repeat(64), "d".repeat(64)]),
        ],
        confirmed_blocks: vec![],
    });
    let hook = chainhook("X", BitcoinPredicateType::Block, None);
    let active = vec![&hook];
    let (triggers, evaluated, expired) = evaluate_bitcoin_chainhooks_on_chain_event(&event, &active);
    assert_eq!(triggers.len(), 1);
    let rollback: Vec<&BlockIdentifier> =
        triggers[0].rollback.iter().map(|(_, block)| &block.block_identifier).collect();
    let apply: Vec<&BlockIdentifier> =
        triggers[0].apply.iter().map(|(_, block)| &block.block_identifier).collect();
    assert_eq!(rollback, vec![&id(10, "old")]);
    assert_eq!(apply, vec![&id(10, "new"), &id(11, "new")]);
    assert_eq!(triggers[0].apply[1].0.len(), 2);
    assert_eq!(evaluated[0].blocks, vec![&id(10, "new"), &id(11, "new")]);
    assert!(!evaluated[0].blocks.contains(&&id(10, "old")));
    assert!(expired[0].blocks.is_empty());
}

#[test]
fn reorg_records_expired_blocks_of_both_phases() {
    let event = BitcoinChainEvent::ChainUpdatedWithReorg(BitcoinChainUpdatedWithReorgData {
        blocks_to_rollback: vec![block(9, "old", &["a".repeat(64)]), block(10, "old", &["a".repeat(64)])],
        blocks_to_apply: vec![block(9, "new", &["b".repeat(64)]), block(10, "new", &["c".repeat(64)])],
        confirmed_blocks: vec![],
    });
    let hook = chainhook("X", BitcoinPredicateType::Block, Some(9));
    let active = vec![&hook];
    let (triggers, evaluated, expired) = evaluate_bitcoin_chainhooks_on_chain_event(&event, &active);
    assert_eq!(triggers.len(), 1);
    assert_eq!(triggers[0].rollback.len(), 1);
    assert_eq!(triggers[0].apply.len(), 1);
    assert_eq!(evaluated[0].blocks, vec![&id(9, "new")]);
    assert_eq!(expired[0].blocks, vec![&id(10, "old"), &id(10, "new")]);
    for block in expired[0].blocks.iter() {
        assert!(!evaluated[0].blocks.contains(block));
    }
}

#[test]
fn predicates_keep_the_order_of_the_caller() {
    let a = "a".repeat(64);
    let event = applied(vec![block(1, "x", &[a.clone()]), block(2, "x", &["b".repeat(64)])]);
    let never = chainhook("never", BitcoinPredicateType::Txid(ExactMatchingRule::Equals("f".repeat(64))), None);
    let all = chainhook("all", BitcoinPredicateType::Block, None);
    let one = chainhook("one", BitcoinPredicateType::Txid(ExactMatchingRule::Equals(a)), None);
    let active = vec![&never, &all, &one];
    let (triggers, evaluated, expired) = evaluate_bitcoin_chainhooks_on_chain_event(&event, &active);
    let fired: Vec<&str> = triggers.iter().map(|trigger| trigger.chainhook.uuid.as_str()).collect();
    assert_eq!(fired, vec!["all", "one"]);
    assert_eq!(triggers[0].apply.len(), 2);
    assert_eq!(triggers[1].apply.len(), 1);
    let recorded: Vec<&str> = evaluated.iter().map(|record| record.uuid).collect();
    assert_eq!(recorded, vec!["never", "all", "one"]);
    assert_eq!(evaluated[0].blocks.len(), 2);
    assert_eq!(expired.len(), 3);
    // every block of a trigger is among the evaluated blocks of its predicate
    for trigger in triggers.iter() {
        let record = evaluated.iter().find(|record| record.uuid == trigger.chainhook.uuid).unwrap();
        for (_, block) in trigger.apply.iter() {
            assert!(record.blocks.contains(&&block.block_identifier));
        }
    }
}

#[test]
fn evaluation_is_repeatable() {
    let event = applied(vec![block(1, "x", &["a".repeat(64)])]);
    let hook = chainhook("X", BitcoinPredicateType::Block, None);
    let active = vec![&hook];
    let first = evaluate_bitcoin_chainhooks_on_chain_event(&event, &active);
    let second = evaluate_bitcoin_chainhooks_on_chain_event(&event, &active);
    let report = |r: &(Vec<_>, Vec<_>, Vec<_>)| PredicateEvaluationReport::from_evaluation(&r.0, &r.1, &r.2);
    assert_eq!(report(&first), report(&second));
}

#[test]
fn malformed_predicate_stops_the_evaluation() {
    let event = applied(vec![block(1, "x", &["a".repeat(64)])]);
    let good = chainhook("good", BitcoinPredicateType::Block, None);
    let invalid = chainhook(
        "invalid",
        BitcoinPredicateType::Outputs(OutputPredicate::Descriptor(DescriptorMatchingRule {
            expression: "not a descriptor".to_string(),
            range: None,
        })),
        None,
    );
    let reserved = chainhook(
        "reserved",
        BitcoinPredicateType::Inputs(InputPredicate::WitnessScript(MatchingRule::Equals(String::new()))),
        None,
    );
    let outcome = try_evaluate_bitcoin_chainhooks_on_chain_event(&event, &vec![&good, &invalid, &reserved]);
    assert_eq!(outcome.err(), Some(RouterError::InvalidPredicate));
    let outcome = try_evaluate_bitcoin_chainhooks_on_chain_event(&event, &vec![&reserved, &invalid]);
    assert_eq!(outcome.err(), Some(RouterError::UnsupportedPredicate));
    let outcome = try_evaluate_bitcoin_chainhooks_on_chain_event(&event, &vec![&good]);
    assert_eq!(outcome.unwrap().0.len(), 1);
}
