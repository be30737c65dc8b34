use chainhook_core::report::{PredicateEvaluationReport, ReportEntry, StatusUpdate};
use chainhook_core::service::{
    ChainKind, ChainhookSpecification, Config, ObserverEvent, Service, ServiceAction,
    StacksChainEvent, Stores, DEFAULT_ARCHIVE_REFRESH_INTERVAL,
};
use chainhook_core::status::{StatusChange, StreamingDataType};
use chainhook_core::types::BlockIdentifier;

const OPEN: Stores = Stores { predicates_open: true, blocks_open: true };
const SHUT: Stores = Stores { predicates_open: false, blocks_open: false };

fn service(http_api_enabled: bool) -> Service {
    Service::new(Config {
        http_api_enabled,
        rely_on_remote_stacks_tsv: true,
        archive_refresh_interval: DEFAULT_ARCHIVE_REFRESH_INTERVAL,
    })
}

fn spec(chain: ChainKind) -> ChainhookSpecification {
    ChainhookSpecification { chain, uuid: "abc".to_string() }
}

fn report() -> PredicateEvaluationReport {
    PredicateEvaluationReport {
        predicates_evaluated: vec![],
        predicates_triggered: vec![ReportEntry {
            uuid: "abc".to_string(),
            blocks: vec![BlockIdentifier { index: 101, hash: "0x01".to_string() }],
        }],
        predicates_expired: vec![],
    }
}

fn updates() -> Vec<StatusUpdate> {
    vec![StatusUpdate {
        uuid: "abc".to_string(),
        change: StatusChange::Streaming(StreamingDataType::Occurrence {
            last_triggered_height: 101,
            triggered_count: 1,
        }),
    }]
}

#[test]
fn new_service_has_seen_no_event() {
    let service = service(true);
    assert_eq!(service.stacks_events, 0);
    assert!(service.config.http_api_enabled);
    assert!(service.loads_stored_predicates(0));
    assert!(!service.loads_stored_predicates(2));
    assert!(!self::service(false).loads_stored_predicates(0));
}

#[test]
fn registered_predicate_is_stored_as_new_and_scanned() {
    let mut service = service(true);
    let event = ObserverEvent::PredicateRegistered(spec(ChainKind::Bitcoin));
    assert_eq!(
        service.handle_event(&event, OPEN),
        vec![
            ServiceAction::PersistSpecification("base:abc".to_string()),
            ServiceAction::SetStatusNew("base:abc".to_string()),
            ServiceAction::EnqueueScan(ChainKind::Bitcoin),
        ]
    );
    assert!(service.handle_event(&event, SHUT).is_empty());
    let event = ObserverEvent::PredicateRegistered(spec(ChainKind::Stacks));
    assert_eq!(
        self::service(false).handle_event(&event, SHUT),
        vec![ServiceAction::EnqueueScan(ChainKind::Stacks)]
    );
}

#[test]
fn enabled_predicate_is_set_to_streaming() {
    let event = ObserverEvent::PredicateEnabled(spec(ChainKind::Stacks));
    assert_eq!(
        service(true).handle_event(&event, OPEN),
        vec![
            ServiceAction::PersistSpecification("app:abc".to_string()),
            ServiceAction::SetStatusStreaming("app:abc".to_string()),
        ]
    );
    assert!(service(true).handle_event(&event, SHUT).is_empty());
    assert!(service(false).handle_event(&event, OPEN).is_empty());
}

#[test]
fn deregistered_predicate_is_deleted() {
    let event = ObserverEvent::PredicateDeregistered(spec(ChainKind::Bitcoin));
    assert_eq!(
        service(true).handle_event(&event, OPEN),
        vec![ServiceAction::DeletePredicate("base:abc".to_string())]
    );
    assert!(service(false).handle_event(&event, OPEN).is_empty());
}

#[test]
fn base_chain_event_updates_the_statuses() {
    let event = ObserverEvent::BitcoinChainEvent(report());
    let mut service = service(true);
    assert_eq!(service.handle_event(&event, SHUT), vec![ServiceAction::UpdateStatuses(updates())]);
    assert_eq!(service.stacks_events, 0);
    assert!(self::service(false).handle_event(&event, OPEN).is_empty());
}

#[test]
fn app_chain_event_moves_the_block_index_and_updates_the_statuses() {
    let mut service = service(true);
    let event = ObserverEvent::StacksChainEvent(StacksChainEvent::ChainUpdatedWithBlocks, report());
    assert_eq!(
        service.handle_event(&event, OPEN),
        vec![
            ServiceAction::ConfirmBlocks,
            ServiceAction::DraftNewBlocks,
            ServiceAction::UpdateStatuses(updates()),
        ]
    );
    assert_eq!(service.stacks_events, 1);
    let event = ObserverEvent::StacksChainEvent(StacksChainEvent::ChainUpdatedWithReorg, report());
    assert_eq!(
        service.handle_event(&event, OPEN),
        vec![
            ServiceAction::ConfirmBlocks,
            ServiceAction::DraftBlocksToApply,
            ServiceAction::UpdateStatuses(updates()),
        ]
    );
    let event = ObserverEvent::StacksChainEvent(StacksChainEvent::ChainUpdatedWithMicroblocks, report());
    assert_eq!(service.handle_event(&event, OPEN), vec![ServiceAction::UpdateStatuses(updates())]);
    assert_eq!(service.stacks_events, 3);
    assert!(service.handle_event(&event, SHUT).is_empty());
    assert_eq!(service.stacks_events, 3);
}

#[test]
fn archive_is_refreshed_every_thirty_two_app_chain_events() {
    let mut service = service(false);
    let event = ObserverEvent::StacksChainEvent(
        StacksChainEvent::ChainUpdatedWithMicroblocksReorg,
        PredicateEvaluationReport::new(),
    );
    for round in 0..3 {
        for seen in 1..32 {
            assert!(service.handle_event(&event, OPEN).is_empty(), "round {} event {}", round, seen);
            assert_eq!(service.stacks_events, seen);
        }
        assert_eq!(service.handle_event(&event, OPEN), vec![ServiceAction::RefreshArchive]);
        assert_eq!(service.stacks_events, 0);
    }
}

#[test]
fn terminate_stops_the_loop_and_other_events_do_nothing() {
    assert_eq!(service(true).handle_event(&ObserverEvent::Terminate, OPEN), vec![ServiceAction::Stop]);
    assert!(service(true).handle_event(&ObserverEvent::Other, OPEN).is_empty());
}
