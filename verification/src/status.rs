//! The status record of a predicate and the rules by which an update merges
//! into the record that the store holds.

use vstd::prelude::*;

verus! {

/// Counters of a predicate whose history is being scanned.
#[derive(Clone, Copy, Debug, PartialEq, Eq, Structural)]
pub struct ScanningData {
    pub number_of_blocks_to_scan: u64,
    pub number_of_blocks_evaluated: u64,
    pub number_of_times_triggered: u64,
    pub last_occurrence: u128,
    pub last_evaluated_block_height: u64,
}

/// Counters of a predicate that follows the chain tip.
#[derive(Clone, Copy, Debug, PartialEq, Eq, Structural)]
pub struct StreamingData {
    pub last_occurrence: u128,
    pub last_evaluation: u128,
    pub number_of_times_triggered: u64,
    pub number_of_blocks_evaluated: u64,
    pub last_evaluated_block_height: u64,
}

/// Counters of a predicate that has reached its end.
#[derive(Clone, Copy, Debug, PartialEq, Eq, Structural)]
pub struct ExpiredData {
    pub number_of_blocks_evaluated: u64,
    pub number_of_times_triggered: u64,
    pub last_occurrence: u128,
    pub last_evaluated_block_height: u64,
}

/// The lifecycle state of a predicate, with its counters.
#[derive(Clone, Debug, PartialEq, Eq)]
pub enum PredicateStatus {
    Scanning(ScanningData),
    Streaming(StreamingData),
    Expired(ExpiredData),
    Interrupted(String),
    New,
}

/// What happened to a streaming predicate.
#[derive(Clone, Copy, Debug, PartialEq, Eq, Structural)]
pub enum StreamingDataType {
    Occurrence { last_triggered_height: u64, triggered_count: u64 },
    Evaluation { last_evaluated_height: u64, evaluated_count: u64 },
    FinishedScanning,
}

/// The counters that every state with counters shares.
pub struct Counters {
    pub last_occurrence: u128,
    pub number_of_blocks_evaluated: u64,
    pub number_of_times_triggered: u64,
    pub last_evaluated_block_height: u64,
}

/// The counters of a stored status: those of the record, or zeros where
/// nothing is stored or the record holds none.
pub open spec fn counters_of(status: Option<PredicateStatus>) -> Counters {
    match status {
        Some(PredicateStatus::Scanning(data)) => Counters {
            last_occurrence: data.last_occurrence,
            number_of_blocks_evaluated: data.number_of_blocks_evaluated,
            number_of_times_triggered: data.number_of_times_triggered,
            last_evaluated_block_height: data.last_evaluated_block_height,
        },
        Some(PredicateStatus::Streaming(data)) => Counters {
            last_occurrence: data.last_occurrence,
            number_of_blocks_evaluated: data.number_of_blocks_evaluated,
            number_of_times_triggered: data.number_of_times_triggered,
            last_evaluated_block_height: data.last_evaluated_block_height,
        },
        Some(PredicateStatus::Expired(data)) => Counters {
            last_occurrence: data.last_occurrence,
            number_of_blocks_evaluated: data.number_of_blocks_evaluated,
            number_of_times_triggered: data.number_of_times_triggered,
            last_evaluated_block_height: data.last_evaluated_block_height,
        },
        _ => Counters {
            last_occurrence: 0,
            number_of_blocks_evaluated: 0,
            number_of_times_triggered: 0,
            last_evaluated_block_height: 0,
        },
    }
}

/// Whether a predicate with this stored status may be set to streaming: it
/// is scanning, streaming or expired, or has no record.
pub open spec fn may_stream(status: Option<PredicateStatus>) -> bool {
    !(status matches Some(PredicateStatus::New)) && !(status matches Some(
        PredicateStatus::Interrupted(_),
    ))
}

/// Whether a predicate with this stored status may be set to scanning: it is
/// new, scanning or expired, or has no record.
pub open spec fn may_scan(status: Option<PredicateStatus>) -> bool {
    !(status matches Some(PredicateStatus::Streaming(_))) && !(status matches Some(
        PredicateStatus::Interrupted(_),
    ))
}

/// Whether a predicate with this stored status may be set to expired: it was
/// not interrupted.
pub open spec fn may_expire(status: Option<PredicateStatus>) -> bool {
    !(status matches Some(PredicateStatus::Interrupted(_)))
}

/// The number of blocks that a streaming update adds to those evaluated.
pub open spec fn blocks_added(update: StreamingDataType) -> u64 {
    match update {
        StreamingDataType::Occurrence { triggered_count, .. } => triggered_count,
        StreamingDataType::Evaluation { evaluated_count, .. } => evaluated_count,
        StreamingDataType::FinishedScanning => 0,
    }
}

/// The number of triggers that a streaming update adds.
pub open spec fn triggers_added(update: StreamingDataType) -> u64 {
    match update {
        StreamingDataType::Occurrence { triggered_count, .. } => triggered_count,
        _ => 0,
    }
}

/// Whether the counters can take a streaming update without leaving `u64`.
pub open spec fn streaming_fits(status: Option<PredicateStatus>, update: StreamingDataType) -> bool {
    &&& counters_of(status).number_of_blocks_evaluated + blocks_added(update) <= u64::MAX
    &&& counters_of(status).number_of_times_triggered + triggers_added(update) <= u64::MAX
}

/// The streaming record after an update: an occurrence sets the time of the
/// last occurrence to now and counts its blocks as triggered and evaluated; an
/// evaluation counts its blocks as evaluated; the end of a scan carries every
/// counter over. The height is that of the update, where it has one, and the
/// time of the last evaluation is now.
pub open spec fn streaming_after(
    status: Option<PredicateStatus>,
    update: StreamingDataType,
    now_ms: u128,
) -> StreamingData {
    let before = counters_of(status);
    StreamingData {
        last_occurrence: if update is Occurrence {
            now_ms
        } else {
            before.last_occurrence
        },
        last_evaluation: now_ms,
        number_of_times_triggered: (before.number_of_times_triggered + triggers_added(update)) as u64,
        number_of_blocks_evaluated: (before.number_of_blocks_evaluated + blocks_added(update)) as u64,
        last_evaluated_block_height: match update {
            StreamingDataType::Occurrence { last_triggered_height, .. } => last_triggered_height,
            StreamingDataType::Evaluation { last_evaluated_height, .. } => last_evaluated_height,
            StreamingDataType::FinishedScanning => before.last_evaluated_block_height,
        },
    }
}

/// The scanning record after an update. The time of the last occurrence is
/// now where the number of triggers grew beyond that of the record, or beyond
/// zero for a new predicate; else that of the record, and zero where there
/// is none.
pub open spec fn scanning_after(
    status: Option<PredicateStatus>,
    number_of_blocks_to_scan: u64,
    number_of_blocks_evaluated: u64,
    number_of_times_triggered: u64,
    current_block_height: u64,
    now_ms: u128,
) -> ScanningData {
    ScanningData {
        number_of_blocks_to_scan,
        number_of_blocks_evaluated,
        number_of_times_triggered,
        last_occurrence: if status is Some && number_of_times_triggered > counters_of(
            status,
        ).number_of_times_triggered {
            now_ms
        } else {
            counters_of(status).last_occurrence
        },
        last_evaluated_block_height: current_block_height,
    }
}

/// The expired record after an update: the new blocks count as evaluated,
/// the number of triggers and the time of the last occurrence are carried
/// over, the height is that of the update.
pub open spec fn expired_after(
    status: Option<PredicateStatus>,
    number_of_new_blocks_evaluated: u64,
    last_evaluated_block_height: u64,
) -> ExpiredData {
    let before = counters_of(status);
    ExpiredData {
        number_of_blocks_evaluated: (before.number_of_blocks_evaluated
            + number_of_new_blocks_evaluated) as u64,
        number_of_times_triggered: before.number_of_times_triggered,
        last_occurrence: before.last_occurrence,
        last_evaluated_block_height,
    }
}

/// Reads the counters of a stored status.
pub fn read_counters(status: &Option<PredicateStatus>) -> (counters: Counters)
    ensures
        counters == counters_of(*status),
{
    match status {
        Some(PredicateStatus::Scanning(data)) => Counters {
            last_occurrence: data.last_occurrence,
            number_of_blocks_evaluated: data.number_of_blocks_evaluated,
            number_of_times_triggered: data.number_of_times_triggered,
            last_evaluated_block_height: data.last_evaluated_block_height,
        },
        Some(PredicateStatus::Streaming(data)) => Counters {
            last_occurrence: data.last_occurrence,
            number_of_blocks_evaluated: data.number_of_blocks_evaluated,
            number_of_times_triggered: data.number_of_times_triggered,
            last_evaluated_block_height: data.last_evaluated_block_height,
        },
        Some(PredicateStatus::Expired(data)) => Counters {
            last_occurrence: data.last_occurrence,
            number_of_blocks_evaluated: data.number_of_blocks_evaluated,
            number_of_times_triggered: data.number_of_times_triggered,
            last_evaluated_block_height: data.last_evaluated_block_height,
        },
        _ => Counters {
            last_occurrence: 0,
            number_of_blocks_evaluated: 0,
            number_of_times_triggered: 0,
            last_evaluated_block_height: 0,
        },
    }
}

/// Merges a streaming update into the stored status.
pub fn set_predicate_streaming_status(
    streaming_data_type: StreamingDataType,
    current_status: &Option<PredicateStatus>,
    now_ms: u128,
) -> (status: PredicateStatus)
    requires
        may_stream(*current_status),
        streaming_fits(*current_status, streaming_data_type),
    ensures
        status == PredicateStatus::Streaming(
            streaming_after(*current_status, streaming_data_type, now_ms),
        ),
{
    let before = read_counters(current_status);
    let (
        last_occurrence,
        number_of_times_triggered,
        number_of_blocks_evaluated,
        last_evaluated_block_height,
    ) = match streaming_data_type {
        StreamingDataType::Occurrence { last_triggered_height, triggered_count } => (
            now_ms,
            before.number_of_times_triggered + triggered_count,
            before.number_of_blocks_evaluated + triggered_count,
            last_triggered_height,
        ),
        StreamingDataType::Evaluation { last_evaluated_height, evaluated_count } => (
            before.last_occurrence,
            before.number_of_times_triggered,
            before.number_of_blocks_evaluated + evaluated_count,
            last_evaluated_height,
        ),
        StreamingDataType::FinishedScanning => (
            before.last_occurrence,
            before.number_of_times_triggered,
            before.number_of_blocks_evaluated,
            before.last_evaluated_block_height,
        ),
    };
    PredicateStatus::Streaming(
        StreamingData {
            last_occurrence,
            last_evaluation: now_ms,
            number_of_times_triggered,
            last_evaluated_block_height,
            number_of_blocks_evaluated,
        },
    )
}

/// Merges the progress of a scan into the stored status.
pub fn set_predicate_scanning_status(
    current_status: &Option<PredicateStatus>,
    number_of_blocks_to_scan: u64,
    number_of_blocks_evaluated: u64,
    number_of_times_triggered: u64,
    current_block_height: u64,
    now_ms: u128,
) -> (status: PredicateStatus)
    requires
        may_scan(*current_status),
    ensures
        status == PredicateStatus::Scanning(
            scanning_after(
                *current_status,
                number_of_blocks_to_scan,
                number_of_blocks_evaluated,
                number_of_times_triggered,
                current_block_height,
                now_ms,
            ),
        ),
{
    let before = read_counters(current_status);
    let last_occurrence = if current_status.is_some() && number_of_times_triggered
        > before.number_of_times_triggered {
        now_ms
    } else {
        before.last_occurrence
    };
    PredicateStatus::Scanning(
        ScanningData {
            number_of_blocks_to_scan,
            number_of_blocks_evaluated,
            number_of_times_triggered,
            last_occurrence,
            last_evaluated_block_height: current_block_height,
        },
    )
}

/// Merges the end of a predicate into the stored status.
pub fn set_expired_status(
    number_of_new_blocks_evaluated: u64,
    last_evaluated_block_height: u64,
    current_status: &Option<PredicateStatus>,
) -> (status: PredicateStatus)
    requires
        may_expire(*current_status),
        counters_of(*current_status).number_of_blocks_evaluated + number_of_new_blocks_evaluated
            <= u64::MAX,
    ensures
        status == PredicateStatus::Expired(
            expired_after(*current_status, number_of_new_blocks_evaluated, last_evaluated_block_height),
        ),
{
    let before = read_counters(current_status);
    PredicateStatus::Expired(
        ExpiredData {
            number_of_blocks_evaluated: before.number_of_blocks_evaluated
                + number_of_new_blocks_evaluated,
            number_of_times_triggered: before.number_of_times_triggered,
            last_occurrence: before.last_occurrence,
            last_evaluated_block_height,
        },
    )
}

/// After an occurrence the time of the last occurrence is now, which is no
/// earlier than the time recorded before unless the clock went back.
pub proof fn lemma_occurrence_is_fresh(
    status: Option<PredicateStatus>,
    last_triggered_height: u64,
    triggered_count: u64,
    now_ms: u128,
)
    requires
        may_stream(status),
    ensures
        streaming_after(
            status,
            StreamingDataType::Occurrence { last_triggered_height, triggered_count },
            now_ms,
        ).last_occurrence == now_ms,
        now_ms >= counters_of(status).last_occurrence ==> streaming_after(
            status,
            StreamingDataType::Occurrence { last_triggered_height, triggered_count },
            now_ms,
        ).last_occurrence >= counters_of(status).last_occurrence,
{
}


/// Tells whether a predicate with this stored status may be set to
/// streaming.
pub fn can_stream(status: &Option<PredicateStatus>) -> (allowed: bool)
    ensures
        allowed == may_stream(*status),
{
    match status {
        Some(PredicateStatus::New) => false,
        Some(PredicateStatus::Interrupted(_)) => false,
        _ => true,
    }
}

/// Tells whether a predicate with this stored status may be set to
/// scanning.
pub fn can_scan(status: &Option<PredicateStatus>) -> (allowed: bool)
    ensures
        allowed == may_scan(*status),
{
    match status {
        Some(PredicateStatus::Streaming(_)) => false,
        Some(PredicateStatus::Interrupted(_)) => false,
        _ => true,
    }
}

/// Tells whether a predicate with this stored status may be set to expired.
pub fn can_expire(status: &Option<PredicateStatus>) -> (allowed: bool)
    ensures
        allowed == may_expire(*status),
{
    match status {
        Some(PredicateStatus::Interrupted(_)) => false,
        _ => true,
    }
}

/// Tells whether the counters can take a streaming update without leaving
/// `u64`.
pub fn streaming_update_fits(status: &Option<PredicateStatus>, update: StreamingDataType) -> (fits: bool)
    ensures
        fits == streaming_fits(*status, update),
{
    let before = read_counters(status);
    match update {
        StreamingDataType::Occurrence { triggered_count, .. } => {
            triggered_count <= u64::MAX - before.number_of_blocks_evaluated && triggered_count
                <= u64::MAX - before.number_of_times_triggered
        },
        StreamingDataType::Evaluation { evaluated_count, .. } => {
            evaluated_count <= u64::MAX - before.number_of_blocks_evaluated
        },
        StreamingDataType::FinishedScanning => true,
    }
}

/// A change to the status of a predicate.
#[derive(Clone, Copy, Debug, PartialEq, Eq, Structural)]
pub enum StatusChange {
    Scanning {
        number_of_blocks_to_scan: u64,
        number_of_blocks_evaluated: u64,
        number_of_times_triggered: u64,
        current_block_height: u64,
    },
    Streaming(StreamingDataType),
    Expired { evaluated_count: u64, last_evaluated_height: u64 },
}

/// Whether a change can be merged into a stored status: the status admits
/// it and the counters stay within `u64`.
pub open spec fn change_applies(status: Option<PredicateStatus>, change: StatusChange) -> bool {
    match change {
        StatusChange::Scanning { .. } => may_scan(status),
        StatusChange::Streaming(update) => may_stream(status) && streaming_fits(status, update),
        StatusChange::Expired { evaluated_count, .. } => may_expire(status) && counters_of(
            status,
        ).number_of_blocks_evaluated + evaluated_count <= u64::MAX,
    }
}

/// The status after a change has been merged into a stored status.
pub open spec fn status_after(status: Option<PredicateStatus>, change: StatusChange, now_ms: u128) -> PredicateStatus {
    match change {
        StatusChange::Scanning {
            number_of_blocks_to_scan,
            number_of_blocks_evaluated,
            number_of_times_triggered,
            current_block_height,
        } => PredicateStatus::Scanning(
            scanning_after(
                status,
                number_of_blocks_to_scan,
                number_of_blocks_evaluated,
                number_of_times_triggered,
                current_block_height,
                now_ms,
            ),
        ),
        StatusChange::Streaming(update) => PredicateStatus::Streaming(
            streaming_after(status, update, now_ms),
        ),
        StatusChange::Expired { evaluated_count, last_evaluated_height } => PredicateStatus::Expired(
            expired_after(status, evaluated_count, last_evaluated_height),
        ),
    }
}

/// Merges a change into a stored status, or tells that the change cannot
/// be merged.
pub fn apply_status_change(status: &Option<PredicateStatus>, change: StatusChange, now_ms: u128) -> (merged:
    Option<PredicateStatus>)
    ensures
        change_applies(*status, change) ==> merged == Some(status_after(*status, change, now_ms)),
        !change_applies(*status, change) ==> merged is None,
{
    match change {
        StatusChange::Scanning {
            number_of_blocks_to_scan,
            number_of_blocks_evaluated,
            number_of_times_triggered,
            current_block_height,
        } => {
            if can_scan(status) {
                Some(
                    set_predicate_scanning_status(
                        status,
                        number_of_blocks_to_scan,
                        number_of_blocks_evaluated,
                        number_of_times_triggered,
                        current_block_height,
                        now_ms,
                    ),
                )
            } else {
                None
            }
        },
        StatusChange::Streaming(update) => {
            if can_stream(status) && streaming_update_fits(status, update) {
                Some(set_predicate_streaming_status(update, status, now_ms))
            } else {
                None
            }
        },
        StatusChange::Expired { evaluated_count, last_evaluated_height } => {
            if can_expire(status) && evaluated_count <= u64::MAX - read_counters(
                status,
            ).number_of_blocks_evaluated {
                Some(set_expired_status(evaluated_count, last_evaluated_height, status))
            } else {
                None
            }
        },
    }
}


/// Whether a change reports counters no lower than those of the record. A
/// scan reports its counters as they stand; every other change adds to
/// those of the record.
pub open spec fn keeps_counters(status: Option<PredicateStatus>, change: StatusChange) -> bool {
    match change {
        StatusChange::Scanning { number_of_blocks_evaluated, number_of_times_triggered, .. } => {
            number_of_blocks_evaluated >= counters_of(status).number_of_blocks_evaluated
                && number_of_times_triggered >= counters_of(status).number_of_times_triggered
        },
        _ => true,
    }
}

/// Whether every change of a sequence, each with the time it is merged at,
/// can be merged in turn, starting from a stored status, and reports
/// counters no lower than those that stand then.
pub open spec fn is_legal_sequence(status: Option<PredicateStatus>, changes: Seq<(StatusChange, u128)>) -> bool
    decreases changes.len(),
{
    changes.len() == 0 || (change_applies(status, changes[0].0) && keeps_counters(
        status,
        changes[0].0,
    ) && is_legal_sequence(
        Some(status_after(status, changes[0].0, changes[0].1)),
        changes.skip(1),
    ))
}

/// The status after every change of a sequence has been merged in turn.
pub open spec fn status_after_all(status: Option<PredicateStatus>, changes: Seq<(StatusChange, u128)>) -> Option<
    PredicateStatus,
>
    decreases changes.len(),
{
    if changes.len() == 0 {
        status
    } else {
        status_after_all(Some(status_after(status, changes[0].0, changes[0].1)), changes.skip(1))
    }
}

/// One legal change lowers neither the number of blocks evaluated nor the
/// number of triggers.
pub proof fn lemma_counters_grow(status: Option<PredicateStatus>, change: StatusChange, now_ms: u128)
    requires
        change_applies(status, change),
        keeps_counters(status, change),
    ensures
        counters_of(Some(status_after(status, change, now_ms))).number_of_blocks_evaluated
            >= counters_of(status).number_of_blocks_evaluated,
        counters_of(Some(status_after(status, change, now_ms))).number_of_times_triggered
            >= counters_of(status).number_of_times_triggered,
{
}

/// Over any legal sequence of changes, the number of blocks evaluated and
/// the number of triggers never go down.
pub proof fn lemma_counters_grow_over_sequence(
    status: Option<PredicateStatus>,
    changes: Seq<(StatusChange, u128)>,
)
    requires
        is_legal_sequence(status, changes),
    ensures
        counters_of(status_after_all(status, changes)).number_of_blocks_evaluated >= counters_of(
            status,
        ).number_of_blocks_evaluated,
        counters_of(status_after_all(status, changes)).number_of_times_triggered >= counters_of(
            status,
        ).number_of_times_triggered,
    decreases changes.len(),
{
    if changes.len() > 0 {
        lemma_counters_grow(status, changes[0].0, changes[0].1);
        lemma_counters_grow_over_sequence(
            Some(status_after(status, changes[0].0, changes[0].1)),
            changes.skip(1),
        );
    }
}

/// A change that carries a height no lower than that of the record leaves
/// the height no lower; the end of a scan leaves it as it is.
pub proof fn lemma_height_follows_the_change(
    status: Option<PredicateStatus>,
    change: StatusChange,
    now_ms: u128,
)
    requires
        change_applies(status, change),
    ensures
        counters_of(Some(status_after(status, change, now_ms))).last_evaluated_block_height == (match change {
            StatusChange::Scanning { current_block_height, .. } => current_block_height,
            StatusChange::Streaming(StreamingDataType::Occurrence { last_triggered_height, .. }) => {
                last_triggered_height
            },
            StatusChange::Streaming(
                StreamingDataType::Evaluation { last_evaluated_height, .. },
            ) => last_evaluated_height,
            StatusChange::Streaming(StreamingDataType::FinishedScanning) => counters_of(
                status,
            ).last_evaluated_block_height,
            StatusChange::Expired { last_evaluated_height, .. } => last_evaluated_height,
        }),
{
}

} // verus!
