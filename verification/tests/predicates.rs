use chainhook_core::predicate::{
    deserialize_descriptor_range, BitcoinPredicateType, BitcoinTransactionFilterPredicate,
    DescriptorMatchingRule, InputPredicate, InscriptionFeedData, OrdinalOperations,
    OrdinalsMetaProtocol, OutputPredicate, StacksOperations, TxinPredicate,
};
use chainhook_core::types::{
    BitcoinNetwork, BitcoinTransactionData, BitcoinTransactionMetadata, ExactMatchingRule, MatchingRule, OutPoint,
    RouterError, StacksBaseChainOperation, TransactionIdentifier, TxIn, TxOut,
};
use miniscript::bitcoin::secp256k1::Secp256k1;
use miniscript::Descriptor;

const XPUB: &str = "xpub661MyMwAqRbcFtXgS5sYJABqqG9YLmC4Q1Rdap9gSE8NqtwybGhePY2gZ29ESFjqJoCu1Rupje8YtGqsefD265TMg7usUDFdp6W1EGMcet8";

fn tx_with_outputs(scripts: &[&str]) -> BitcoinTransactionData {
    BitcoinTransactionData {
        transaction_identifier: TransactionIdentifier { hash: "c".repeat(64) },
        operations: vec![],
        metadata: BitcoinTransactionMetadata {
            inputs: vec![],
            outputs: scripts
                .iter()
                .map(|script| TxOut { value: 1000, script_pubkey: script.to_string() })
                .collect(),
            ordinal_operations: vec![],
            stacks_operations: vec![],
            brc20_operation: None,
            proof: None,
            fee: 0,
            index: 0,
        },
    }
}

fn op_return(rule: MatchingRule) -> BitcoinPredicateType {
    BitcoinPredicateType::Outputs(OutputPredicate::OpReturn(rule))
}

fn evaluate(predicate: &BitcoinPredicateType, tx: &BitcoinTransactionData) -> bool {
    predicate.try_evaluate_transaction_predicate(tx, &BitcoinNetwork::Mainnet).unwrap()
}

fn derived_script(expression: &str, index: u32) -> String {
    let (descriptor, _) =
        Descriptor::parse_descriptor(&Secp256k1::signing_only(), expression).unwrap();
    let derived =
        descriptor.derived_descriptor(&Secp256k1::verification_only(), index).unwrap();
    format!("0x{}", hex::encode(derived.script_pubkey().as_bytes()))
}

#[test]
fn block_predicate_matches_any_transaction() {
    assert!(evaluate(&BitcoinPredicateType::Block, &tx_with_outputs(&[])));
}

#[test]
fn filter_predicate_keeps_its_predicate() {
    let filter = BitcoinTransactionFilterPredicate::new(BitcoinPredicateType::Block);
    assert_eq!(filter.predicate, BitcoinPredicateType::Block);
}

#[test]
fn txid_predicate_is_case_sensitive() {
    let tx = tx_with_outputs(&[]);
    let same = BitcoinPredicateType::Txid(ExactMatchingRule::Equals("c".repeat(64)));
    let upper = BitcoinPredicateType::Txid(ExactMatchingRule::Equals("C".repeat(64)));
    let prefixed = BitcoinPredicateType::Txid(ExactMatchingRule::Equals(format!("0x{}", "c".repeat(64))));
    assert!(evaluate(&same, &tx));
    assert!(!evaluate(&upper, &tx));
    assert!(!evaluate(&prefixed, &tx));
}

#[test]
fn input_predicate_matches_the_spent_output() {
    let mut tx = tx_with_outputs(&[]);
    tx.metadata.inputs.push(TxIn {
        previous_output: OutPoint {
            txid: TransactionIdentifier { hash: "d".repeat(64) },
            vout: 3,
            value: 5,
            block_height: 9,
        },
        script_sig: String::new(),
        sequence: 0,
        witness: vec![],
    });
    let spends = |txid: String, vout: u32| {
        BitcoinPredicateType::Inputs(InputPredicate::Txid(TxinPredicate { txid, vout }))
    };
    assert!(evaluate(&spends("d".repeat(64), 3), &tx));
    assert!(!evaluate(&spends("d".repeat(64), 2), &tx));
    assert!(!evaluate(&spends("e".repeat(64), 3), &tx));
}

#[test]
fn witness_script_predicate_is_unsupported() {
    let predicate = BitcoinPredicateType::Inputs(InputPredicate::WitnessScript(
        MatchingRule::Equals("00".to_string()),
    ));
    assert_eq!(predicate.validate(), Err(RouterError::UnsupportedPredicate));
    assert_eq!(
        predicate.try_evaluate_transaction_predicate(&tx_with_outputs(&[]), &BitcoinNetwork::Mainnet),
        Err(RouterError::UnsupportedPredicate)
    );
}

#[test]
fn op_return_equals_matches_with_or_without_prefix_and_in_any_case() {
    // OP_RETURN, length 5, "Hello"
    let tx = tx_with_outputs(&["0x76a914000000000000000000000000000000000000000088ac", "0x6a0548656c6c6f"]);
    assert!(evaluate(&op_return(MatchingRule::Equals("Hello".to_string())), &tx));
    assert!(evaluate(&op_return(MatchingRule::Equals("0x48656c6c6f".to_string())), &tx));
    assert!(evaluate(&op_return(MatchingRule::Equals("0x48656C6C6F".to_string())), &tx));
    assert!(!evaluate(&op_return(MatchingRule::Equals("hello".to_string())), &tx));
    assert!(!evaluate(&op_return(MatchingRule::Equals("Hell".to_string())), &tx));
    assert!(!evaluate(&op_return(MatchingRule::Equals("48656c6c6f".to_string())), &tx));
}

#[test]
fn op_return_prefix_and_suffix_rules() {
    let tx = tx_with_outputs(&["0x6a0548656c6c6f"]);
    assert!(evaluate(&op_return(MatchingRule::StartsWith("Hel".to_string())), &tx));
    assert!(evaluate(&op_return(MatchingRule::StartsWith("0x4865".to_string())), &tx));
    assert!(!evaluate(&op_return(MatchingRule::StartsWith("ello".to_string())), &tx));
    assert!(evaluate(&op_return(MatchingRule::EndsWith("llo".to_string())), &tx));
    assert!(evaluate(&op_return(MatchingRule::EndsWith("0x6C6F".to_string())), &tx));
    assert!(!evaluate(&op_return(MatchingRule::EndsWith("Hel".to_string())), &tx));
    assert!(evaluate(&op_return(MatchingRule::StartsWith("".to_string())), &tx));
}

#[test]
fn op_return_reads_scripts_in_upper_case_and_without_prefix() {
    let tx = tx_with_outputs(&["6A0548656C6C6F"]);
    assert!(evaluate(&op_return(MatchingRule::Equals("Hello".to_string())), &tx));
}

#[test]
fn op_return_skips_outputs_that_carry_no_data() {
    // another opcode, a script of one byte, text that is no hexadecimal, an odd number of digits
    let tx = tx_with_outputs(&["0x0014751e76e8199196d454941c45d1b3a323f1433bd6", "0x6a", "0xzz", "0x6a0"]);
    assert!(!evaluate(&op_return(MatchingRule::StartsWith("".to_string())), &tx));
    let empty = tx_with_outputs(&["0x6a00"]);
    assert!(evaluate(&op_return(MatchingRule::Equals("".to_string())), &empty));
}

#[test]
fn p2wpkh_address_matches_its_witness_output() {
    let address = "bc1qw508d6qejxtdg4y5r3zarvary0c5xw7kv8f3t4".to_string();
    let tx = tx_with_outputs(&["0x0014751e76e8199196d454941c45d1b3a323f1433bd6"]);
    let predicate =
        BitcoinPredicateType::Outputs(OutputPredicate::P2wpkh(ExactMatchingRule::Equals(address)));
    assert!(evaluate(&predicate, &tx));
    let other = tx_with_outputs(&["0x0014751e76e8199196d454941c45d1b3a323f1433bd7"]);
    assert!(!evaluate(&predicate, &other));
}

#[test]
fn p2pkh_address_of_the_same_key_does_not_match_the_witness_output() {
    let address = "1BgGZ9tcN4rm9KBzDn7KprQz87SZ26SAMH".to_string();
    let witness_output = tx_with_outputs(&["0x0014751e76e8199196d454941c45d1b3a323f1433bd6"]);
    let legacy_output = tx_with_outputs(&["0x76a914751e76e8199196d454941c45d1b3a323f1433bd688ac"]);
    let p2pkh = BitcoinPredicateType::Outputs(OutputPredicate::P2pkh(ExactMatchingRule::Equals(
        address.clone(),
    )));
    assert!(!evaluate(&p2pkh, &witness_output));
    assert!(evaluate(&p2pkh, &legacy_output));
    // a legacy address is no witness program
    let p2wpkh =
        BitcoinPredicateType::Outputs(OutputPredicate::P2wpkh(ExactMatchingRule::Equals(address)));
    assert!(!evaluate(&p2wpkh, &legacy_output));
    assert!(!evaluate(&p2wpkh, &witness_output));
}

#[test]
fn p2sh_and_p2wsh_addresses_match_their_outputs() {
    let p2sh = BitcoinPredicateType::Outputs(OutputPredicate::P2sh(ExactMatchingRule::Equals(
        "3P14159f73E4gFr7JterCCQh9QjiTjiZrG".to_string(),
    )));
    let tx = tx_with_outputs(&["0xa914e9c3dd0c07aac76179ebc76a6c78d4d67c6c160a87"]);
    assert!(evaluate(&p2sh, &tx));
    let p2wsh = BitcoinPredicateType::Outputs(OutputPredicate::P2wsh(ExactMatchingRule::Equals(
        "bc1qrp33g0q5c5txsp9arysrx4k6zdkfs4nce4xj0gdcccefvpysxf3qccfmv3".to_string(),
    )));
    let tx = tx_with_outputs(&["0x00201863143c14c5166804bd19203356da136c985678cd4d27a1b8c6329604903262"]);
    assert!(evaluate(&p2wsh, &tx));
    assert!(!evaluate(&p2sh, &tx));
}

#[test]
fn address_is_decoded_for_the_network_of_the_predicate() {
    let mainnet = BitcoinPredicateType::Outputs(OutputPredicate::P2wpkh(ExactMatchingRule::Equals(
        "bc1qw508d6qejxtdg4y5r3zarvary0c5xw7kv8f3t4".to_string(),
    )));
    let testnet = BitcoinPredicateType::Outputs(OutputPredicate::P2wpkh(ExactMatchingRule::Equals(
        "tb1qw508d6qejxtdg4y5r3zarvary0c5xw7kxpjzsx".to_string(),
    )));
    let tx = tx_with_outputs(&["0x0014751e76e8199196d454941c45d1b3a323f1433bd6"]);
    let on = |predicate: &BitcoinPredicateType, network: BitcoinNetwork| {
        predicate.try_evaluate_transaction_predicate(&tx, &network).unwrap()
    };
    assert!(on(&mainnet, BitcoinNetwork::Mainnet));
    assert!(!on(&mainnet, BitcoinNetwork::Testnet));
    assert!(!on(&mainnet, BitcoinNetwork::Regtest));
    assert!(on(&testnet, BitcoinNetwork::Testnet));
    assert!(on(&testnet, BitcoinNetwork::Signet));
    assert!(!on(&testnet, BitcoinNetwork::Mainnet));
    let legacy = BitcoinPredicateType::Outputs(OutputPredicate::P2pkh(ExactMatchingRule::Equals(
        "1BgGZ9tcN4rm9KBzDn7KprQz87SZ26SAMH".to_string(),
    )));
    let legacy_tx = tx_with_outputs(&["0x76a914751e76e8199196d454941c45d1b3a323f1433bd688ac"]);
    assert!(legacy.try_evaluate_transaction_predicate(&legacy_tx, &BitcoinNetwork::Mainnet).unwrap());
    assert!(!legacy.try_evaluate_transaction_predicate(&legacy_tx, &BitcoinNetwork::Testnet).unwrap());
}

#[test]
fn text_that_is_no_address_matches_nothing() {
    let tx = tx_with_outputs(&["0x0014751e76e8199196d454941c45d1b3a323f1433bd6", "0x", ""]);
    for predicate in [
        BitcoinPredicateType::Outputs(OutputPredicate::P2pkh(ExactMatchingRule::Equals("nope".to_string()))),
        BitcoinPredicateType::Outputs(OutputPredicate::P2sh(ExactMatchingRule::Equals("".to_string()))),
        BitcoinPredicateType::Outputs(OutputPredicate::P2wpkh(ExactMatchingRule::Equals("bc1qnope".to_string()))),
        BitcoinPredicateType::Outputs(OutputPredicate::P2wsh(ExactMatchingRule::Equals("nope".to_string()))),
    ] {
        assert_eq!(predicate.validate(), Ok(()));
        assert!(!evaluate(&predicate, &tx));
    }
}

#[test]
fn descriptor_without_wildcard_is_evaluated_once() {
    let expression =
        "wpkh(0279be667ef9dcbbac55a06295ce870b07029bfcdb2dce28d959f2815b16f81798)".to_string();
    let tx = tx_with_outputs(&["0x0014751e76e8199196d454941c45d1b3a323f1433bd6"]);
    let predicate = BitcoinPredicateType::Outputs(OutputPredicate::Descriptor(
        DescriptorMatchingRule { expression: expression.clone(), range: None },
    ));
    assert!(evaluate(&predicate, &tx));
    let ranged = BitcoinPredicateType::Outputs(OutputPredicate::Descriptor(
        DescriptorMatchingRule { expression, range: Some([7, 9]) },
    ));
    assert!(evaluate(&ranged, &tx));
}

#[test]
fn wildcard_descriptor_defaults_to_the_first_five_indices() {
    let expression = format!("wpkh({}/0/*)", XPUB);
    let unranged = BitcoinPredicateType::Outputs(OutputPredicate::Descriptor(
        DescriptorMatchingRule { expression: expression.clone(), range: None },
    ));
    for index in 0..5 {
        let script = derived_script(&expression, index);
        assert!(evaluate(&unranged, &tx_with_outputs(&[script.as_str()])));
    }
    let sixth = derived_script(&expression, 5);
    assert!(!evaluate(&unranged, &tx_with_outputs(&[sixth.as_str()])));
}

#[test]
fn wildcard_descriptor_follows_its_range() {
    let expression = format!("wpkh({}/0/*)", XPUB);
    let ranged = BitcoinPredicateType::Outputs(OutputPredicate::Descriptor(
        DescriptorMatchingRule { expression: expression.clone(), range: Some([5, 7]) },
    ));
    let fifth = derived_script(&expression, 4);
    let sixth = derived_script(&expression, 5);
    let seventh = derived_script(&expression, 6);
    let eighth = derived_script(&expression, 7);
    assert!(!evaluate(&ranged, &tx_with_outputs(&[fifth.as_str()])));
    assert!(evaluate(&ranged, &tx_with_outputs(&[sixth.as_str()])));
    assert!(evaluate(&ranged, &tx_with_outputs(&[seventh.as_str()])));
    assert!(!evaluate(&ranged, &tx_with_outputs(&[eighth.as_str()])));
}

#[test]
fn malformed_descriptors_are_invalid() {
    let unparsable = BitcoinPredicateType::Outputs(OutputPredicate::Descriptor(
        DescriptorMatchingRule { expression: "wpkh(nothing)".to_string(), range: None },
    ));
    assert_eq!(unparsable.validate(), Err(RouterError::InvalidPredicate));
    assert_eq!(
        unparsable.try_evaluate_transaction_predicate(&tx_with_outputs(&[]), &BitcoinNetwork::Mainnet),
        Err(RouterError::InvalidPredicate)
    );
    let empty_range = BitcoinPredicateType::Outputs(OutputPredicate::Descriptor(
        DescriptorMatchingRule { expression: format!("wpkh({}/0/*)", XPUB), range: Some([3, 3]) },
    ));
    assert_eq!(empty_range.validate(), Err(RouterError::InvalidPredicate));
    let hardened_index = BitcoinPredicateType::Outputs(OutputPredicate::Descriptor(
        DescriptorMatchingRule {
            expression: format!("wpkh({}/0/*)", XPUB),
            range: Some([2147483647, 2147483649]),
        },
    ));
    assert_eq!(hardened_index.validate(), Err(RouterError::InvalidPredicate));
}

#[test]
fn descriptor_range_must_hold_an_index() {
    assert_eq!(deserialize_descriptor_range([0, 5]), Ok(Some([0, 5])));
    assert_eq!(deserialize_descriptor_range([5, 5]), Err(RouterError::InvalidPredicate));
    assert_eq!(deserialize_descriptor_range([6, 5]), Err(RouterError::InvalidPredicate));
}

#[test]
fn stacks_protocol_predicates_match_their_operations() {
    let mut tx = tx_with_outputs(&[]);
    let wanted = |operation| BitcoinPredicateType::StacksProtocol(operation);
    assert!(!evaluate(&wanted(StacksOperations::BlockCommitted), &tx));
    tx.metadata.stacks_operations.push(StacksBaseChainOperation::StxLocked("{}".to_string()));
    tx.metadata.stacks_operations.push(StacksBaseChainOperation::BlockCommitted("{}".to_string()));
    assert!(evaluate(&wanted(StacksOperations::BlockCommitted), &tx));
    assert!(evaluate(&wanted(StacksOperations::StackerRewarded), &tx));
    assert!(evaluate(&wanted(StacksOperations::StxLocked), &tx));
    assert!(!evaluate(&wanted(StacksOperations::LeaderRegistered), &tx));
    assert!(!evaluate(&wanted(StacksOperations::StxTransferred), &tx));
    tx.metadata.stacks_operations.push(StacksBaseChainOperation::LeaderRegistered("{}".to_string()));
    tx.metadata.stacks_operations.push(StacksBaseChainOperation::StxTransferred("{}".to_string()));
    assert!(evaluate(&wanted(StacksOperations::LeaderRegistered), &tx));
    assert!(evaluate(&wanted(StacksOperations::StxTransferred), &tx));
}

#[test]
fn inscription_feed_follows_its_protocols() {
    let feed = |meta_protocols| {
        BitcoinPredicateType::OrdinalsProtocol(OrdinalOperations::InscriptionFeed(
            InscriptionFeedData { meta_protocols },
        ))
    };
    let plain = tx_with_outputs(&[]);
    let mut inscribed = tx_with_outputs(&[]);
    inscribed.metadata.ordinal_operations.push("{}".to_string());
    let mut token = tx_with_outputs(&[]);
    token.metadata.brc20_operation = Some("{}".to_string());

    assert!(!evaluate(&feed(None), &plain));
    assert!(evaluate(&feed(None), &inscribed));
    assert!(!evaluate(&feed(None), &token));
    assert!(!evaluate(&feed(Some(vec![])), &inscribed));
    assert!(evaluate(&feed(Some(vec![OrdinalsMetaProtocol::All])), &inscribed));
    assert!(!evaluate(&feed(Some(vec![OrdinalsMetaProtocol::Brc20])), &inscribed));
    assert!(evaluate(&feed(Some(vec![OrdinalsMetaProtocol::Brc20])), &token));
    assert!(!evaluate(&feed(Some(vec![OrdinalsMetaProtocol::All])), &token));
    let both = Some(vec![OrdinalsMetaProtocol::All, OrdinalsMetaProtocol::Brc20]);
    assert!(evaluate(&feed(both.clone()), &token));
    assert!(evaluate(&feed(both.clone()), &inscribed));
    assert!(!evaluate(&feed(both), &plain));
}

#[test]
fn evaluation_gives_the_same_answer_twice() {
    let tx = tx_with_outputs(&["0x6a0548656c6c6f"]);
    let predicate = op_return(MatchingRule::EndsWith("0x6C6F".to_string()));
    assert_eq!(evaluate(&predicate, &tx), evaluate(&predicate, &tx));
}
