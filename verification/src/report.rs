//! The evaluation report of a chain event and the status updates that
//! follow from it.

use crate::evaluator::{
    hits_of, identifiers_of, records_of, triggers_of, BitcoinTriggerChainhook, BlockHits, PredicateBlocks,
    TriggerView,
};
use crate::status::{StatusChange, StreamingDataType};
use crate::types::{BitcoinBlockData, BitcoinTransactionData, BlockIdentifier};
use vstd::prelude::*;

verus! {

/// The blocks recorded for one predicate.
#[derive(Clone, Debug, PartialEq, Eq)]
pub struct ReportEntry {
    pub uuid: String,
    pub blocks: Vec<BlockIdentifier>,
}

/// What an event did to the predicates: for each predicate the blocks it was
/// evaluated on, the blocks it matched in, and the blocks beyond its range.
/// Where a predicate has more than one entry in a list, the last one counts.
#[derive(Clone, Debug, PartialEq, Eq)]
pub struct PredicateEvaluationReport {
    pub predicates_evaluated: Vec<ReportEntry>,
    pub predicates_triggered: Vec<ReportEntry>,
    pub predicates_expired: Vec<ReportEntry>,
}

/// A change to the status of the predicate with the given identifier.
#[derive(Clone, Debug, PartialEq, Eq)]
pub struct StatusUpdate {
    pub uuid: String,
    pub change: StatusChange,
}

/// Whether two identifiers name the same block.
pub open spec fn same_block(a: BlockIdentifier, b: BlockIdentifier) -> bool {
    a.index == b.index && a.hash@ == b.hash@
}

/// Whether a block is among those listed.
pub open spec fn is_among(id: BlockIdentifier, ids: Seq<BlockIdentifier>) -> bool {
    exists|i: int| 0 <= i < ids.len() && same_block(#[trigger] ids[i], id)
}

/// The blocks recorded for a predicate in a list of entries: those of its
/// last entry, none where it has no entry.
pub open spec fn blocks_recorded(entries: Seq<ReportEntry>, uuid: Seq<char>) -> Seq<BlockIdentifier>
    decreases entries.len(),
{
    if entries.len() == 0 {
        Seq::empty()
    } else if entries.last().uuid@ == uuid {
        entries.last().blocks@
    } else {
        blocks_recorded(entries.drop_last(), uuid)
    }
}

/// The test of a block for not being among those listed, as a function.
pub open spec fn not_among(ids: Seq<BlockIdentifier>) -> spec_fn(BlockIdentifier) -> bool {
    |id: BlockIdentifier| !is_among(id, ids)
}

/// The update that follows from the blocks a predicate matched in: an
/// occurrence at the height of the last of them, counting all of them.
pub open spec fn occurrence_update() -> spec_fn(ReportEntry) -> Option<(Seq<char>, StatusChange)> {
    |entry: ReportEntry|
        if entry.blocks@.len() > 0 {
            Some(
                (
                    entry.uuid@,
                    StatusChange::Streaming(
                        StreamingDataType::Occurrence {
                            last_triggered_height: entry.blocks@.last().index,
                            triggered_count: entry.blocks@.len() as u64,
                        },
                    ),
                ),
            )
        } else {
            None
        }
}

/// The update that follows from the blocks a predicate was evaluated on: an
/// evaluation that leaves out the blocks it matched in, which an occurrence
/// has counted already.
pub open spec fn evaluation_update(triggered: Seq<ReportEntry>) -> spec_fn(ReportEntry) -> Option<
    (Seq<char>, StatusChange),
> {
    |entry: ReportEntry|
        {
            let rest = entry.blocks@.filter(not_among(blocks_recorded(triggered, entry.uuid@)));
            if rest.len() > 0 {
                Some(
                    (
                        entry.uuid@,
                        StatusChange::Streaming(
                            StreamingDataType::Evaluation {
                                last_evaluated_height: rest.last().index,
                                evaluated_count: rest.len() as u64,
                            },
                        ),
                    ),
                )
            } else {
                None
            }
        }
}

/// The update that follows from the blocks beyond a predicate's range: an
/// expiry at the height of the last of them, counting all of them.
pub open spec fn expiry_update() -> spec_fn(ReportEntry) -> Option<(Seq<char>, StatusChange)> {
    |entry: ReportEntry|
        if entry.blocks@.len() > 0 {
            Some(
                (
                    entry.uuid@,
                    StatusChange::Expired {
                        evaluated_count: entry.blocks@.len() as u64,
                        last_evaluated_height: entry.blocks@.last().index,
                    },
                ),
            )
        } else {
            None
        }
}

/// The status updates that follow from a report: the occurrences first, then
/// the evaluations, then the expiries, each in the order of the report.
pub open spec fn updates_for(report: PredicateEvaluationReport) -> Seq<(Seq<char>, StatusChange)> {
    report.predicates_triggered@.filter_map(occurrence_update())
        + report.predicates_evaluated@.filter_map(evaluation_update(report.predicates_triggered@))
        + report.predicates_expired@.filter_map(expiry_update())
}

/// The updates that a list holds, as values.
pub open spec fn updates_of(updates: Seq<StatusUpdate>) -> Seq<(Seq<char>, StatusChange)> {
    updates.map_values(|update: StatusUpdate| (update.uuid@, update.change))
}

/// Tells whether a block is among those listed.
pub fn is_listed(id: &BlockIdentifier, ids: &Vec<BlockIdentifier>) -> (listed: bool)
    ensures
        listed == is_among(*id, ids@),
{
    let mut i: usize = 0;
    while i < ids.len()
        invariant
            i <= ids.len(),
            forall|j: int| 0 <= j < i ==> !same_block(#[trigger] ids@[j], *id),
        decreases ids.len() - i,
    {
        if ids[i].index == id.index && ids[i].hash == id.hash {
            assert(same_block(ids@[i as int], *id));
            return true;
        }
        i += 1;
    }
    false
}

/// Finds the blocks recorded for a predicate in a list of entries.
pub fn recorded_blocks<'a>(entries: &'a Vec<ReportEntry>, uuid: &String) -> (found: Option<
    &'a Vec<BlockIdentifier>,
>)
    ensures
        found matches Some(blocks) ==> blocks@ == blocks_recorded(entries@, uuid@),
        found is None ==> blocks_recorded(entries@, uuid@).len() == 0,
{
    let mut found: Option<&'a Vec<BlockIdentifier>> = None;
    let mut i: usize = 0;
    assert(entries@.take(0) =~= Seq::empty());
    while i < entries.len()
        invariant
            i <= entries.len(),
            found matches Some(blocks) ==> blocks@ == blocks_recorded(
                entries@.take(i as int),
                uuid@,
            ),
            found is None ==> blocks_recorded(entries@.take(i as int), uuid@).len() == 0,
        decreases entries.len() - i,
    {
        assert(entries@.take(i + 1).drop_last() =~= entries@.take(i as int));
        if entries[i].uuid == *uuid {
            found = Some(&entries[i].blocks);
        }
        i += 1;
    }
    assert(entries@.take(i as int) =~= entries@);
    found
}

/// Counts the blocks of a list that are not among those of another, and
/// finds the height of the last of them.
pub fn count_remaining(blocks: &Vec<BlockIdentifier>, counted: Option<&Vec<BlockIdentifier>>) -> (left: (
    usize,
    u64,
))
    ensures
        ({
            let rest = blocks@.filter(
                not_among(
                    match counted {
                        Some(ids) => ids@,
                        None => Seq::empty(),
                    },
                ),
            );
            left.0 == rest.len() && (rest.len() > 0 ==> left.1 == rest.last().index)
        }),
{
    let ghost skip = match counted {
        Some(ids) => ids@,
        None => Seq::empty(),
    };
    let mut count: usize = 0;
    let mut last: u64 = 0;
    let mut i: usize = 0;
    proof {
        reveal(Seq::filter);
        assert(blocks@.take(0) =~= Seq::empty());
    }
    while i < blocks.len()
        invariant
            i <= blocks.len(),
            skip == match counted {
                Some(ids) => ids@,
                None => Seq::empty(),
            },
            count == blocks@.take(i as int).filter(not_among(skip)).len(),
            count <= i,
            count > 0 ==> last == blocks@.take(i as int).filter(not_among(skip)).last().index,
        decreases blocks.len() - i,
    {
        proof {
            reveal(Seq::filter);
            assert(blocks@.take(i + 1).drop_last() =~= blocks@.take(i as int));
        }
        let listed = match counted {
            Some(ids) => is_listed(&blocks[i], ids),
            None => false,
        };
        if !listed {
            count += 1;
            last = blocks[i].index;
        }
        i += 1;
    }
    assert(blocks@.take(i as int) =~= blocks@);
    (count, last)
}

/// Derives the status updates that follow from a report.
#[verifier::loop_isolation(false)]
pub fn update_streaming_status_from_report(report: &PredicateEvaluationReport) -> (updates: Vec<
    StatusUpdate,
>)
    ensures
        updates_of(updates@) == updates_for(*report),
{
    let mut updates: Vec<StatusUpdate> = Vec::new();
    let triggered = &report.predicates_triggered;
    let evaluated = &report.predicates_evaluated;
    let expired = &report.predicates_expired;

    let mut i: usize = 0;
    assert(triggered@.take(0) =~= Seq::empty());
    assert(updates_of(updates@) =~= triggered@.take(0).filter_map(occurrence_update()));
    while i < triggered.len()
        invariant
            i <= triggered.len(),
            updates_of(updates@) == triggered@.take(i as int).filter_map(occurrence_update()),
        decreases triggered.len() - i,
    {
        let ghost before = updates_of(updates@);
        proof {
            triggered@.lemma_filter_map_take_succ(occurrence_update(), i as int);
        }
        let blocks = &triggered[i].blocks;
        if blocks.len() > 0 {
            let change = StatusChange::Streaming(
                StreamingDataType::Occurrence {
                    last_triggered_height: blocks[blocks.len() - 1].index,
                    triggered_count: blocks.len() as u64,
                },
            );
            updates.push(StatusUpdate { uuid: triggered[i].uuid.clone(), change });
            assert(updates_of(updates@) =~= before.push((triggered@[i as int].uuid@, change)));
        }
        i += 1;
    }
    assert(triggered@.take(i as int) =~= triggered@);
    let ghost occurrences = updates_of(updates@);

    let mut i: usize = 0;
    assert(evaluated@.take(0) =~= Seq::empty());
    assert(updates_of(updates@) =~= occurrences + evaluated@.take(0).filter_map(
        evaluation_update(triggered@),
    ));
    while i < evaluated.len()
        invariant
            i <= evaluated.len(),
            updates_of(updates@) == occurrences + evaluated@.take(i as int).filter_map(
                evaluation_update(triggered@),
            ),
        decreases evaluated.len() - i,
    {
        let ghost before = updates_of(updates@);
        proof {
            evaluated@.lemma_filter_map_take_succ(evaluation_update(triggered@), i as int);
        }
        let counted = recorded_blocks(triggered, &evaluated[i].uuid);
        let (count, last) = count_remaining(&evaluated[i].blocks, counted);
        proof {
            if counted is None {
                assert(blocks_recorded(triggered@, evaluated@[i as int].uuid@) =~= Seq::empty());
            }
        }
        if count > 0 {
            let change = StatusChange::Streaming(
                StreamingDataType::Evaluation {
                    last_evaluated_height: last,
                    evaluated_count: count as u64,
                },
            );
            updates.push(StatusUpdate { uuid: evaluated[i].uuid.clone(), change });
            assert(updates_of(updates@) =~= before.push((evaluated@[i as int].uuid@, change)));
        }
        i += 1;
    }
    assert(evaluated@.take(i as int) =~= evaluated@);
    let ghost evaluations = updates_of(updates@);

    let mut i: usize = 0;
    assert(expired@.take(0) =~= Seq::empty());
    assert(updates_of(updates@) =~= evaluations + expired@.take(0).filter_map(expiry_update()));
    while i < expired.len()
        invariant
            i <= expired.len(),
            updates_of(updates@) == evaluations + expired@.take(i as int).filter_map(
                expiry_update(),
            ),
        decreases expired.len() - i,
    {
        let ghost before = updates_of(updates@);
        proof {
            expired@.lemma_filter_map_take_succ(expiry_update(), i as int);
        }
        let blocks = &expired[i].blocks;
        if blocks.len() > 0 {
            let change = StatusChange::Expired {
                evaluated_count: blocks.len() as u64,
                last_evaluated_height: blocks[blocks.len() - 1].index,
            };
            updates.push(StatusUpdate { uuid: expired[i].uuid.clone(), change });
            assert(updates_of(updates@) =~= before.push((expired@[i as int].uuid@, change)));
        }
        i += 1;
    }
    assert(expired@.take(i as int) =~= expired@);
    updates
}


/// The entries of a list, as values: the predicate's identifier and the
/// identifiers of the blocks.
pub open spec fn entries_of(entries: Seq<ReportEntry>) -> Seq<(Seq<char>, Seq<BlockIdentifier>)> {
    entries.map_values(|entry: ReportEntry| (entry.uuid@, entry.blocks@))
}

/// The identifiers of the blocks of a list of hits.
pub open spec fn blocks_hit(hits: Seq<(Seq<BitcoinTransactionData>, BitcoinBlockData)>) -> Seq<
    BlockIdentifier,
> {
    hits.map_values(
        |hit: (Seq<BitcoinTransactionData>, BitcoinBlockData)| hit.1.block_identifier,
    )
}

/// The entries of the predicates that fired: for each trigger the
/// predicate's identifier and the applied blocks it matched in.
pub open spec fn triggered_entries(triggers: Seq<TriggerView>) -> Seq<(Seq<char>, Seq<BlockIdentifier>)> {
    triggers.map_values(|trigger: TriggerView| (trigger.chainhook.uuid@, blocks_hit(trigger.apply)))
}

/// Copies the identifiers that a list of references points to.
pub fn copy_identifiers(refs: &Vec<&BlockIdentifier>) -> (copies: Vec<BlockIdentifier>)
    ensures
        copies@ == identifiers_of(refs@),
{
    let mut copies: Vec<BlockIdentifier> = Vec::new();
    let mut i: usize = 0;
    while i < refs.len()
        invariant
            i <= refs.len(),
            copies@ == identifiers_of(refs@).take(i as int),
        decreases refs.len() - i,
    {
        copies.push(refs[i].clone());
        i += 1;
        assert(copies@ =~= identifiers_of(refs@).take(i as int));
    }
    assert(identifiers_of(refs@).take(i as int) =~= identifiers_of(refs@));
    copies
}

/// Copies the records of an evaluation into entries of a report.
pub fn copy_records(records: &Vec<PredicateBlocks>) -> (entries: Vec<ReportEntry>)
    ensures
        entries_of(entries@) == records_of(records@),
{
    let mut entries: Vec<ReportEntry> = Vec::new();
    let mut i: usize = 0;
    assert(entries_of(entries@) =~= records_of(records@).take(0));
    while i < records.len()
        invariant
            i <= records.len(),
            entries_of(entries@) == records_of(records@).take(i as int),
        decreases records.len() - i,
    {
        let ghost before = entries_of(entries@);
        let uuid = String::from_str(records[i].uuid);
        let blocks = copy_identifiers(&records[i].blocks);
        entries.push(ReportEntry { uuid, blocks });
        assert(entries_of(entries@) =~= before.push(
            (records@[i as int].uuid@, identifiers_of(records@[i as int].blocks@)),
        ));
        i += 1;
        assert(entries_of(entries@) =~= records_of(records@).take(i as int));
    }
    assert(records_of(records@).take(i as int) =~= records_of(records@));
    entries
}

/// Copies the identifiers of the blocks of a list of hits.
pub fn copy_blocks_hit(hits: &Vec<BlockHits>) -> (copies: Vec<BlockIdentifier>)
    ensures
        copies@ == blocks_hit(hits_of(hits@)),
{
    let ghost wanted = blocks_hit(hits_of(hits@));
    let mut copies: Vec<BlockIdentifier> = Vec::new();
    let mut i: usize = 0;
    while i < hits.len()
        invariant
            i <= hits.len(),
            wanted == blocks_hit(hits_of(hits@)),
            copies@ == wanted.take(i as int),
        decreases hits.len() - i,
    {
        copies.push(hits[i].1.block_identifier.clone());
        i += 1;
        assert(copies@ =~= wanted.take(i as int));
    }
    assert(wanted.take(i as int) =~= wanted);
    copies
}

impl PredicateEvaluationReport {
    /// A report of an event that touched no predicate.
    pub fn new() -> (report: PredicateEvaluationReport)
        ensures
            report.predicates_evaluated@.len() == 0,
            report.predicates_triggered@.len() == 0,
            report.predicates_expired@.len() == 0,
    {
        PredicateEvaluationReport {
            predicates_evaluated: Vec::new(),
            predicates_triggered: Vec::new(),
            predicates_expired: Vec::new(),
        }
    }

    /// The report of an evaluation: the records of evaluated and expired
    /// blocks as they are, and for each trigger the applied blocks that the
    /// predicate matched in.
    pub fn from_evaluation(
        triggers: &Vec<BitcoinTriggerChainhook>,
        evaluated: &Vec<PredicateBlocks>,
        expired: &Vec<PredicateBlocks>,
    ) -> (report: PredicateEvaluationReport)
        ensures
            entries_of(report.predicates_evaluated@) == records_of(evaluated@),
            entries_of(report.predicates_expired@) == records_of(expired@),
            entries_of(report.predicates_triggered@) == triggered_entries(triggers_of(triggers@)),
    {
        let ghost wanted = triggered_entries(triggers_of(triggers@));
        let mut triggered: Vec<ReportEntry> = Vec::new();
        let mut i: usize = 0;
        assert(entries_of(triggered@) =~= wanted.take(0));
        while i < triggers.len()
            invariant
                i <= triggers.len(),
                wanted == triggered_entries(triggers_of(triggers@)),
                entries_of(triggered@) == wanted.take(i as int),
            decreases triggers.len() - i,
        {
            let ghost before = entries_of(triggered@);
            let uuid = triggers[i].chainhook.uuid.clone();
            let blocks = copy_blocks_hit(&triggers[i].apply);
            triggered.push(ReportEntry { uuid, blocks });
            assert(entries_of(triggered@) =~= before.push(wanted[i as int]));
            i += 1;
            assert(entries_of(triggered@) =~= wanted.take(i as int));
        }
        assert(wanted.take(i as int) =~= wanted);
        PredicateEvaluationReport {
            predicates_evaluated: copy_records(evaluated),
            predicates_triggered: triggered,
            predicates_expired: copy_records(expired),
        }
    }
}


} // verus!
