use chainhook_core::report::{
    update_streaming_status_from_report, PredicateEvaluationReport, ReportEntry, StatusUpdate,
};
use chainhook_core::status::{
    apply_status_change, can_expire, can_scan, can_stream, set_expired_status,
    set_predicate_scanning_status, set_predicate_streaming_status, streaming_update_fits,
    ExpiredData, PredicateStatus, ScanningData, StatusChange, StreamingData, StreamingDataType,
};
use chainhook_core::types::BlockIdentifier;

fn id(index: u64) -> BlockIdentifier {
    BlockIdentifier { index, hash: format!("0x{:064x}", index) }
}

fn streaming(last_occurrence: u128, triggered: u64, evaluated: u64, height: u64) -> PredicateStatus {
    PredicateStatus::Streaming(StreamingData {
        last_occurrence,
        last_evaluation: 0,
        number_of_times_triggered: triggered,
        number_of_blocks_evaluated: evaluated,
        last_evaluated_block_height: height,
    })
}

#[test]
fn scan_hands_over_to_stream() {
    let registered = Some(PredicateStatus::New);
    let scanning = set_predicate_scanning_status(&registered, 100, 100, 0, 100, 1_000);
    assert_eq!(
        scanning,
        PredicateStatus::Scanning(ScanningData {
            number_of_blocks_to_scan: 100,
            number_of_blocks_evaluated: 100,
            number_of_times_triggered: 0,
            last_occurrence: 0,
            last_evaluated_block_height: 100,
        })
    );
    let finished =
        set_predicate_streaming_status(StreamingDataType::FinishedScanning, &Some(scanning), 2_000);
    assert_eq!(
        finished,
        PredicateStatus::Streaming(StreamingData {
            last_occurrence: 0,
            last_evaluation: 2_000,
            number_of_times_triggered: 0,
            number_of_blocks_evaluated: 100,
            last_evaluated_block_height: 100,
        })
    );
    let triggered = set_predicate_streaming_status(
        StreamingDataType::Occurrence { last_triggered_height: 101, triggered_count: 1 },
        &Some(finished),
        3_000,
    );
    assert_eq!(
        triggered,
        PredicateStatus::Streaming(StreamingData {
            last_occurrence: 3_000,
            last_evaluation: 3_000,
            number_of_times_triggered: 1,
            number_of_blocks_evaluated: 101,
            last_evaluated_block_height: 101,
        })
    );
}

#[test]
fn last_evaluation_dominates_the_height() {
    let first = set_predicate_streaming_status(
        StreamingDataType::Evaluation { last_evaluated_height: 50, evaluated_count: 1 },
        &None,
        10,
    );
    let second = set_predicate_streaming_status(
        StreamingDataType::Evaluation { last_evaluated_height: 48, evaluated_count: 1 },
        &Some(first),
        20,
    );
    assert_eq!(
        second,
        PredicateStatus::Streaming(StreamingData {
            last_occurrence: 0,
            last_evaluation: 20,
            number_of_times_triggered: 0,
            number_of_blocks_evaluated: 2,
            last_evaluated_block_height: 48,
        })
    );
}

#[test]
fn occurrence_sets_the_time_of_the_last_occurrence() {
    let before = Some(streaming(500, 2, 7, 30));
    let after = set_predicate_streaming_status(
        StreamingDataType::Occurrence { last_triggered_height: 33, triggered_count: 3 },
        &before,
        900,
    );
    assert_eq!(
        after,
        PredicateStatus::Streaming(StreamingData {
            last_occurrence: 900,
            last_evaluation: 900,
            number_of_times_triggered: 5,
            number_of_blocks_evaluated: 10,
            last_evaluated_block_height: 33,
        })
    );
}

#[test]
fn evaluation_carries_the_time_of_the_last_occurrence() {
    let before = Some(PredicateStatus::Expired(ExpiredData {
        number_of_blocks_evaluated: 4,
        number_of_times_triggered: 1,
        last_occurrence: 77,
        last_evaluated_block_height: 12,
    }));
    let after = set_predicate_streaming_status(
        StreamingDataType::Evaluation { last_evaluated_height: 13, evaluated_count: 2 },
        &before,
        900,
    );
    assert_eq!(
        after,
        PredicateStatus::Streaming(StreamingData {
            last_occurrence: 77,
            last_evaluation: 900,
            number_of_times_triggered: 1,
            number_of_blocks_evaluated: 6,
            last_evaluated_block_height: 13,
        })
    );
}

#[test]
fn scanning_refreshes_the_occurrence_only_when_triggers_grow() {
    let scanning = |triggered, last_occurrence| {
        Some(PredicateStatus::Scanning(ScanningData {
            number_of_blocks_to_scan: 10,
            number_of_blocks_evaluated: 1,
            number_of_times_triggered: triggered,
            last_occurrence,
            last_evaluated_block_height: 1,
        }))
    };
    let last = |status: PredicateStatus| match status {
        PredicateStatus::Scanning(data) => data.last_occurrence,
        _ => unreachable!(),
    };
    assert_eq!(last(set_predicate_scanning_status(&scanning(2, 40), 10, 2, 3, 2, 99)), 99);
    assert_eq!(last(set_predicate_scanning_status(&scanning(2, 40), 10, 2, 2, 2, 99)), 40);
    assert_eq!(last(set_predicate_scanning_status(&Some(PredicateStatus::New), 10, 2, 1, 2, 99)), 99);
    assert_eq!(last(set_predicate_scanning_status(&Some(PredicateStatus::New), 10, 2, 0, 2, 99)), 0);
    assert_eq!(last(set_predicate_scanning_status(&None, 10, 2, 5, 2, 99)), 0);
}

#[test]
fn expiry_adds_the_new_blocks_and_carries_the_rest() {
    let after = set_expired_status(3, 60, &Some(streaming(500, 2, 7, 30)));
    assert_eq!(
        after,
        PredicateStatus::Expired(ExpiredData {
            number_of_blocks_evaluated: 10,
            number_of_times_triggered: 2,
            last_occurrence: 500,
            last_evaluated_block_height: 60,
        })
    );
    let fresh = set_expired_status(3, 60, &None);
    assert_eq!(
        fresh,
        PredicateStatus::Expired(ExpiredData {
            number_of_blocks_evaluated: 3,
            number_of_times_triggered: 0,
            last_occurrence: 0,
            last_evaluated_block_height: 60,
        })
    );
}

#[test]
fn counters_never_shrink_over_a_sequence_of_updates() {
    let mut status: Option<PredicateStatus> = None;
    let counters = |status: &Option<PredicateStatus>| match status {
        Some(PredicateStatus::Scanning(d)) => (d.number_of_blocks_evaluated, d.number_of_times_triggered),
        Some(PredicateStatus::Streaming(d)) => (d.number_of_blocks_evaluated, d.number_of_times_triggered),
        Some(PredicateStatus::Expired(d)) => (d.number_of_blocks_evaluated, d.number_of_times_triggered),
        _ => (0, 0),
    };
    let changes = [
        StatusChange::Scanning {
            number_of_blocks_to_scan: 4,
            number_of_blocks_evaluated: 0,
            number_of_times_triggered: 0,
            current_block_height: 3,
        },
        StatusChange::Streaming(StreamingDataType::Evaluation { last_evaluated_height: 5, evaluated_count: 2 }),
        StatusChange::Streaming(StreamingDataType::Occurrence { last_triggered_height: 6, triggered_count: 1 }),
        StatusChange::Streaming(StreamingDataType::FinishedScanning),
        StatusChange::Expired { evaluated_count: 4, last_evaluated_height: 9 },
        StatusChange::Streaming(StreamingDataType::Occurrence { last_triggered_height: 10, triggered_count: 2 }),
    ];
    for change in changes {
        let before = counters(&status);
        status = apply_status_change(&status, change, 1);
        assert!(status.is_some());
        let after = counters(&status);
        assert!(after.0 >= before.0 && after.1 >= before.1);
    }
    assert_eq!(counters(&status), (9, 3));
}

#[test]
fn legality_of_transitions() {
    let interrupted = Some(PredicateStatus::Interrupted("stopped".to_string()));
    let new = Some(PredicateStatus::New);
    let live = Some(streaming(0, 0, 0, 0));
    assert!(!can_stream(&new) && !can_stream(&interrupted) && can_stream(&None) && can_stream(&live));
    assert!(can_scan(&new) && !can_scan(&interrupted) && can_scan(&None) && !can_scan(&live));
    assert!(can_expire(&new) && !can_expire(&interrupted) && can_expire(&None) && can_expire(&live));
    let finished = StatusChange::Streaming(StreamingDataType::FinishedScanning);
    assert_eq!(apply_status_change(&new, finished, 1), None);
    assert_eq!(apply_status_change(&interrupted, finished, 1), None);
    assert_eq!(
        apply_status_change(&interrupted, StatusChange::Expired { evaluated_count: 1, last_evaluated_height: 1 }, 1),
        None
    );
    let scanned = StatusChange::Scanning {
        number_of_blocks_to_scan: 9,
        number_of_blocks_evaluated: 2,
        number_of_times_triggered: 1,
        current_block_height: 6,
    };
    assert_eq!(apply_status_change(&live, scanned, 1), None);
    assert_eq!(
        apply_status_change(&new, scanned, 77),
        Some(PredicateStatus::Scanning(ScanningData {
            number_of_blocks_to_scan: 9,
            number_of_blocks_evaluated: 2,
            number_of_times_triggered: 1,
            last_occurrence: 77,
            last_evaluated_block_height: 6,
        }))
    );
}

#[test]
fn counters_that_would_overflow_are_refused() {
    let full = Some(streaming(0, 5, u64::MAX - 1, 9));
    let two = StreamingDataType::Evaluation { last_evaluated_height: 10, evaluated_count: 2 };
    let one = StreamingDataType::Evaluation { last_evaluated_height: 10, evaluated_count: 1 };
    assert!(!streaming_update_fits(&full, two));
    assert!(streaming_update_fits(&full, one));
    assert_eq!(apply_status_change(&full, StatusChange::Streaming(two), 1), None);
    assert_eq!(
        apply_status_change(&full, StatusChange::Expired { evaluated_count: 2, last_evaluated_height: 1 }, 1),
        None
    );
    assert!(apply_status_change(&full, StatusChange::Streaming(one), 1).is_some());
}

#[test]
fn report_gives_occurrences_then_evaluations_then_expiries() {
    let report = PredicateEvaluationReport {
        predicates_evaluated: vec![
            ReportEntry { uuid: "a".to_string(), blocks: vec![id(1), id(2), id(3)] },
            ReportEntry { uuid: "b".to_string(), blocks: vec![id(1), id(2)] },
            ReportEntry { uuid: "c".to_string(), blocks: vec![] },
        ],
        predicates_triggered: vec![
            ReportEntry { uuid: "a".to_string(), blocks: vec![id(1), id(3)] },
            ReportEntry { uuid: "b".to_string(), blocks: vec![id(1), id(2)] },
        ],
        predicates_expired: vec![
            ReportEntry { uuid: "c".to_string(), blocks: vec![id(4), id(5)] },
            ReportEntry { uuid: "a".to_string(), blocks: vec![] },
        ],
    };
    let updates = update_streaming_status_from_report(&report);
    assert_eq!(
        updates,
        vec![
            StatusUpdate {
                uuid: "a".to_string(),
                change: StatusChange::Streaming(StreamingDataType::Occurrence {
                    last_triggered_height: 3,
                    triggered_count: 2
                }),
            },
            StatusUpdate {
                uuid: "b".to_string(),
                change: StatusChange::Streaming(StreamingDataType::Occurrence {
                    last_triggered_height: 2,
                    triggered_count: 2
                }),
            },
            StatusUpdate {
                uuid: "a".to_string(),
                change: StatusChange::Streaming(StreamingDataType::Evaluation {
                    last_evaluated_height: 2,
                    evaluated_count: 1
                }),
            },
            StatusUpdate {
                uuid: "c".to_string(),
                change: StatusChange::Expired { evaluated_count: 2, last_evaluated_height: 5 },
            },
        ]
    );
}

#[test]
fn empty_report_gives_no_update() {
    assert!(update_streaming_status_from_report(&PredicateEvaluationReport::new()).is_empty());
}
