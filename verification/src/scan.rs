//! The scan of a predicate over history: the range of blocks to scan and
//! the progress from block to block until the range is exhausted or the
//! predicate has fired as often as it may.

use crate::chainhook::BitcoinChainhookInstance;
use vstd::prelude::*;

verus! {

/// The blocks that a scan covers, both ends included.
#[derive(Clone, Copy, Debug, PartialEq, Eq, Structural)]
pub struct ScanBounds {
    pub first: u64,
    pub last: u64,
}

/// The block a scan starts at: the predicate's first block, but not below
/// the lowest block that the store holds.
pub open spec fn scan_start(start_block: Option<u64>, tip_low: u64) -> u64 {
    match start_block {
        Some(start) => if start >= tip_low {
            start
        } else {
            tip_low
        },
        None => tip_low,
    }
}

/// The block a scan ends at: the predicate's last block, but not above the
/// current tip.
pub open spec fn scan_end(end_block: Option<u64>, current_tip: u64) -> u64 {
    match end_block {
        Some(end) => if end <= current_tip {
            end
        } else {
            current_tip
        },
        None => current_tip,
    }
}

/// The range that a scan covers; `None` where it would start behind its
/// end.
pub open spec fn scan_range(
    start_block: Option<u64>,
    end_block: Option<u64>,
    tip_low: u64,
    current_tip: u64,
) -> Option<ScanBounds> {
    let first = scan_start(start_block, tip_low);
    let last = scan_end(end_block, current_tip);
    if first <= last {
        Some(ScanBounds { first, last })
    } else {
        None
    }
}

/// Determines the range that a scan of a predicate covers.
pub fn scan_bounds(chainhook: &BitcoinChainhookInstance, tip_low: u64, current_tip: u64) -> (bounds:
    Option<ScanBounds>)
    ensures
        bounds == scan_range(chainhook.start_block, chainhook.end_block, tip_low, current_tip),
{
    let first = match chainhook.start_block {
        Some(start) => if start >= tip_low {
            start
        } else {
            tip_low
        },
        None => tip_low,
    };
    let last = match chainhook.end_block {
        Some(end) => if end <= current_tip {
            end
        } else {
            current_tip
        },
        None => current_tip,
    };
    if first <= last {
        Some(ScanBounds { first, last })
    } else {
        None
    }
}

/// How a scan goes on after a block.
#[derive(Clone, Copy, Debug, PartialEq, Eq, Structural)]
pub enum ScanOutcome {
    /// The next block is to be scanned.
    Continue,
    /// The range is exhausted: the predicate is enabled for streaming.
    Finished,
    /// The predicate has fired as often as it may: it expires.
    Expired,
}

/// Where a scan stands.
#[derive(Clone, Copy, Debug, PartialEq, Eq, Structural)]
pub struct ScanProgress {
    pub bounds: ScanBounds,
    /// The block to scan next.
    pub next_block: u64,
    pub number_of_blocks_evaluated: u64,
    pub number_of_times_triggered: u64,
}

impl ScanProgress {
    /// Whether the progress is that of a scan under way: the number of
    /// blocks in the range fits a `u64`, the next block lies in the range,
    /// every block before it has been evaluated, and the predicate fired no
    /// more often than blocks were evaluated.
    pub open spec fn is_under_way(&self) -> bool {
        &&& self.blocks_to_scan() <= u64::MAX
        &&& self.bounds.first <= self.next_block <= self.bounds.last
        &&& self.number_of_blocks_evaluated == self.next_block - self.bounds.first
        &&& self.number_of_times_triggered <= self.number_of_blocks_evaluated
    }

    /// The number of blocks in the range.
    pub open spec fn blocks_to_scan(&self) -> int {
        self.bounds.last - self.bounds.first + 1
    }

    /// Whether a predicate that may fire `limit` times has fired as often
    /// as it may once it has fired `times` times.
    pub open spec fn limit_reached(limit: Option<u64>, times: int) -> bool {
        limit matches Some(most) && times >= most
    }

    /// The outcome of the block that is scanned next, given whether the
    /// predicate fired in it.
    pub open spec fn outcome_of(&self, triggered: bool, expire_after_occurrence: Option<u64>) -> ScanOutcome {
        let times = self.number_of_times_triggered + if triggered {
            1int
        } else {
            0int
        };
        if triggered && Self::limit_reached(expire_after_occurrence, times) {
            ScanOutcome::Expired
        } else if self.next_block == self.bounds.last {
            ScanOutcome::Finished
        } else {
            ScanOutcome::Continue
        }
    }

    /// A scan that has yet to look at its first block.
    pub fn start(bounds: ScanBounds) -> (progress: ScanProgress)
        requires
            bounds.first <= bounds.last,
            bounds.last - bounds.first < u64::MAX,
        ensures
            progress.bounds == bounds,
            progress.next_block == bounds.first,
            progress.number_of_blocks_evaluated == 0,
            progress.number_of_times_triggered == 0,
            progress.is_under_way(),
    {
        ScanProgress {
            bounds,
            next_block: bounds.first,
            number_of_blocks_evaluated: 0,
            number_of_times_triggered: 0,
        }
    }

    /// A scan that has yet to look at its first block, where the range
    /// holds a block and the number of its blocks fits a `u64`.
    pub fn try_start(bounds: ScanBounds) -> (progress: Option<ScanProgress>)
        ensures
            progress is Some <==> bounds.first <= bounds.last && bounds.last - bounds.first
                < u64::MAX,
            progress matches Some(started) ==> started.is_under_way() && started == (ScanProgress {
                bounds,
                next_block: bounds.first,
                number_of_blocks_evaluated: 0,
                number_of_times_triggered: 0,
            }),
    {
        if bounds.first <= bounds.last && bounds.last - bounds.first < u64::MAX {
            Some(Self::start(bounds))
        } else {
            None
        }
    }

    /// Tells whether the progress is that of a scan under way.
    pub fn check_under_way(&self) -> (under_way: bool)
        ensures
            under_way == self.is_under_way(),
    {
        self.bounds.first <= self.next_block && self.next_block <= self.bounds.last
            && self.bounds.last - self.bounds.first < u64::MAX && self.number_of_blocks_evaluated
            == self.next_block - self.bounds.first && self.number_of_times_triggered
            <= self.number_of_blocks_evaluated
    }

    /// The number of blocks in the range.
    pub fn number_of_blocks_to_scan(&self) -> (count: u64)
        requires
            self.is_under_way(),
        ensures
            count == self.blocks_to_scan(),
    {
        self.bounds.last - self.bounds.first + 1
    }

    /// Records the block that was scanned: it counts as evaluated, and as a
    /// trigger where the predicate fired in it. The scan moves to the next
    /// block unless the range is exhausted or the predicate expires.
    pub fn record_block(&mut self, triggered: bool, expire_after_occurrence: Option<u64>) -> (outcome:
        ScanOutcome)
        requires
            old(self).is_under_way(),
        ensures
            outcome == old(self).outcome_of(triggered, expire_after_occurrence),
            final(self).bounds == old(self).bounds,
            final(self).number_of_blocks_evaluated == old(self).number_of_blocks_evaluated + 1,
            final(self).number_of_times_triggered == old(self).number_of_times_triggered + if triggered {
                1int
            } else {
                0int
            },
            outcome is Continue ==> final(self).next_block == old(self).next_block + 1,
            outcome is Continue ==> final(self).is_under_way(),
            !(outcome is Continue) ==> final(self).next_block == old(self).next_block,
    {
        self.number_of_blocks_evaluated = self.number_of_blocks_evaluated + 1;
        if triggered {
            self.number_of_times_triggered = self.number_of_times_triggered + 1;
            let expired = match expire_after_occurrence {
                Some(most) => self.number_of_times_triggered >= most,
                None => false,
            };
            if expired {
                return ScanOutcome::Expired;
            }
        }
        if self.next_block == self.bounds.last {
            ScanOutcome::Finished
        } else {
            self.next_block = self.next_block + 1;
            ScanOutcome::Continue
        }
    }
}


/// Whether every entry of a list is below the one that follows it.
pub open spec fn is_strictly_increasing(heights: Seq<u64>) -> bool {
    forall|i: int, j: int| 0 <= i < j < heights.len() ==> heights[i] < heights[j]
}

/// Whether a list holds, in ascending order and once each, the listed
/// blocks that the store can hold: those from its lowest block to the tip.
pub open spec fn lists_blocks(heights: Seq<u64>, blocks: Seq<u64>, tip_low: u64, current_tip: u64) -> bool {
    &&& is_strictly_increasing(heights)
    &&& forall|height: u64|
        heights.contains(height) <==> blocks.contains(height) && tip_low <= height <= current_tip
}

/// Finds the place of a height in an ascending list: the first entry that
/// is not below it.
fn place_of(heights: &Vec<u64>, height: u64) -> (place: usize)
    requires
        is_strictly_increasing(heights@),
    ensures
        place <= heights@.len(),
        forall|i: int| 0 <= i < place ==> heights@[i] < height,
        forall|i: int| place <= i < heights@.len() ==> heights@[i] >= height,
{
    let mut place: usize = 0;
    while place < heights.len() && heights[place] < height
        invariant
            place <= heights@.len(),
            is_strictly_increasing(heights@),
            forall|i: int| 0 <= i < place ==> heights@[i] < height,
        decreases heights@.len() - place,
    {
        place += 1;
    }
    place
}

/// Brings the listed blocks of a predicate into the order of a scan: the
/// blocks that the store can hold, ascending, each once.
pub fn listed_heights(blocks: &Vec<u64>, tip_low: u64, current_tip: u64) -> (heights: Vec<u64>)
    ensures
        lists_blocks(heights@, blocks@, tip_low, current_tip),
{
    let mut heights: Vec<u64> = Vec::new();
    let mut i: usize = 0;
    while i < blocks.len()
        invariant
            i <= blocks.len(),
            lists_blocks(heights@, blocks@.take(i as int), tip_low, current_tip),
        decreases blocks.len() - i,
    {
        let height = blocks[i];
        let ghost before = heights@;
        let ghost seen = blocks@.take(i as int);
        let ghost next = blocks@.take(i + 1);
        assert(next =~= seen.push(height));
        assert forall|h: u64| next.contains(h) <==> seen.contains(h) || h == height by {
            if seen.contains(h) {
                let k = choose|k: int| 0 <= k < seen.len() && seen[k] == h;
                assert(next[k] == h);
            }
            if h == height {
                assert(next[i as int] == h);
            }
        }
        if tip_low <= height && height <= current_tip {
            let place = place_of(&heights, height);
            if place < heights.len() && heights[place] == height {
                assert(before.contains(height));
            } else {
                heights.insert(place, height);
                let ghost after = heights@;
                assert(after == before.insert(place as int, height));
                assert forall|a: int, b: int| 0 <= a < b < after.len() implies after[a] < after[b] by {
                    if a < place && b > place {
                        assert(after[a] == before[a] && after[b] == before[b - 1]);
                    }
                }
                assert forall|h: u64| after.contains(h) <==> before.contains(h) || h == height by {
                    if before.contains(h) {
                        let k = choose|k: int| 0 <= k < before.len() && before[k] == h;
                        if k < place {
                            assert(after[k] == h);
                        } else {
                            assert(after[k + 1] == h);
                        }
                    }
                    if h == height {
                        assert(after[place as int] == h);
                    }
                    if after.contains(h) {
                        let k = choose|k: int| 0 <= k < after.len() && after[k] == h;
                        if k < place {
                            assert(before[k] == h);
                        } else if k > place {
                            assert(before[k - 1] == h);
                        }
                    }
                }
            }
        }
        i += 1;
    }
    assert(blocks@.take(i as int) =~= blocks@);
    heights
}

} // verus!
