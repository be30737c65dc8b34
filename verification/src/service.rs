//! The orchestrator: what the service does at start and for each event of
//! the observer, as a list of actions for the caller to carry out.

use crate::chainhook::{app_key_prefix, base_key_prefix, bitcoin_key, stacks_key};
use crate::report::{
    update_streaming_status_from_report, updates_for, updates_of, PredicateEvaluationReport,
    StatusUpdate,
};
use crate::status::StatusChange;
use vstd::prelude::*;

verus! {

/// The number of app-chain events after which the archive is looked at
/// again, unless configured otherwise.
pub const DEFAULT_ARCHIVE_REFRESH_INTERVAL: u64 = 32;

/// The chain that a predicate is written for.
#[derive(Clone, Copy, Debug, PartialEq, Eq, Structural)]
pub enum ChainKind {
    Bitcoin,
    Stacks,
}

/// What the orchestrator needs to know of a predicate specification.
#[derive(Clone, Debug, PartialEq, Eq)]
pub struct ChainhookSpecification {
    pub chain: ChainKind,
    pub uuid: String,
}

/// The kinds of update of the app chain.
#[derive(Clone, Copy, Debug, PartialEq, Eq, Structural)]
pub enum StacksChainEvent {
    ChainUpdatedWithBlocks,
    ChainUpdatedWithReorg,
    ChainUpdatedWithMicroblocks,
    ChainUpdatedWithMicroblocksReorg,
}

/// An event of the observer.
#[derive(Clone, Debug, PartialEq, Eq)]
pub enum ObserverEvent {
    PredicateRegistered(ChainhookSpecification),
    PredicateEnabled(ChainhookSpecification),
    PredicateDeregistered(ChainhookSpecification),
    BitcoinChainEvent(PredicateEvaluationReport),
    StacksChainEvent(StacksChainEvent, PredicateEvaluationReport),
    Terminate,
    Other,
}

/// What the service is configured to do.
#[derive(Clone, Copy, Debug, PartialEq, Eq, Structural)]
pub struct Config {
    /// Whether predicates are kept in the status store.
    pub http_api_enabled: bool,
    /// Whether the app chain is first ingested from a remote archive.
    pub rely_on_remote_stacks_tsv: bool,
    /// The number of app-chain events between two looks at the archive.
    pub archive_refresh_interval: u64,
}

/// The orchestrator and what it remembers between events.
#[derive(Clone, Copy, Debug, PartialEq, Eq, Structural)]
pub struct Service {
    pub config: Config,
    /// The app-chain events seen since the archive was last looked at.
    pub stacks_events: u64,
}

/// What the stores answered when the caller reached for them.
#[derive(Clone, Copy, Debug, PartialEq, Eq, Structural)]
pub struct Stores {
    /// Whether the status store could be opened.
    pub predicates_open: bool,
    /// Whether the block index could be opened.
    pub blocks_open: bool,
}

/// One step for the caller to carry out.
#[derive(Clone, Debug, PartialEq, Eq)]
pub enum ServiceAction {
    /// Store the specification of the event under the key.
    PersistSpecification(String),
    /// Store the status `New` under the key.
    SetStatusNew(String),
    /// Merge the end of the scan into the status under the key.
    SetStatusStreaming(String),
    /// Delete what is stored under the key.
    DeletePredicate(String),
    /// Hand the specification of the event to the scan worker of a chain.
    EnqueueScan(ChainKind),
    /// Merge each update into the status of its predicate.
    UpdateStatuses(Vec<StatusUpdate>),
    /// Confirm the confirmed blocks of the event in the block index.
    ConfirmBlocks,
    /// Draft the new blocks of the event in the block index.
    DraftNewBlocks,
    /// Draft the blocks that the event applies in the block index.
    DraftBlocksToApply,
    /// Look at the archive again.
    RefreshArchive,
    /// Leave the event loop.
    Stop,
}

/// One step, as values.
pub enum ActionView {
    PersistSpecification(Seq<char>),
    SetStatusNew(Seq<char>),
    SetStatusStreaming(Seq<char>),
    DeletePredicate(Seq<char>),
    EnqueueScan(ChainKind),
    UpdateStatuses(Seq<(Seq<char>, StatusChange)>),
    ConfirmBlocks,
    DraftNewBlocks,
    DraftBlocksToApply,
    RefreshArchive,
    Stop,
}

impl View for ServiceAction {
    type V = ActionView;

    open spec fn view(&self) -> ActionView {
        match *self {
            ServiceAction::PersistSpecification(key) => ActionView::PersistSpecification(key@),
            ServiceAction::SetStatusNew(key) => ActionView::SetStatusNew(key@),
            ServiceAction::SetStatusStreaming(key) => ActionView::SetStatusStreaming(key@),
            ServiceAction::DeletePredicate(key) => ActionView::DeletePredicate(key@),
            ServiceAction::EnqueueScan(chain) => ActionView::EnqueueScan(chain),
            ServiceAction::UpdateStatuses(updates) => ActionView::UpdateStatuses(updates_of(updates@)),
            ServiceAction::ConfirmBlocks => ActionView::ConfirmBlocks,
            ServiceAction::DraftNewBlocks => ActionView::DraftNewBlocks,
            ServiceAction::DraftBlocksToApply => ActionView::DraftBlocksToApply,
            ServiceAction::RefreshArchive => ActionView::RefreshArchive,
            ServiceAction::Stop => ActionView::Stop,
        }
    }
}

/// The steps of a list, as values.
pub open spec fn actions_of(actions: Seq<ServiceAction>) -> Seq<ActionView> {
    actions.map_values(|action: ServiceAction| action@)
}

/// The key under which a specification is stored.
pub open spec fn key_of(spec: ChainhookSpecification) -> Seq<char> {
    match spec.chain {
        ChainKind::Bitcoin => base_key_prefix() + spec.uuid@,
        ChainKind::Stacks => app_key_prefix() + spec.uuid@,
    }
}

impl ChainhookSpecification {
    /// The key under which the specification is stored.
    pub fn key(&self) -> (key: String)
        ensures
            key@ == key_of(*self),
    {
        match self.chain {
            ChainKind::Bitcoin => bitcoin_key(self.uuid.as_str()),
            ChainKind::Stacks => stacks_key(self.uuid.as_str()),
        }
    }
}

/// The steps that the block index takes for an update of the app chain.
pub open spec fn block_index_steps(kind: StacksChainEvent) -> Seq<ActionView> {
    match kind {
        StacksChainEvent::ChainUpdatedWithBlocks => seq![
            ActionView::ConfirmBlocks,
            ActionView::DraftNewBlocks,
        ],
        StacksChainEvent::ChainUpdatedWithReorg => seq![
            ActionView::ConfirmBlocks,
            ActionView::DraftBlocksToApply,
        ],
        _ => Seq::empty(),
    }
}

/// The step that merges a report into the statuses, where the status store
/// is in use.
pub open spec fn status_steps(config: Config, report: PredicateEvaluationReport) -> Seq<ActionView> {
    if config.http_api_enabled {
        seq![ActionView::UpdateStatuses(updates_for(report))]
    } else {
        Seq::empty()
    }
}

impl Service {
    /// Whether the archive is due after one more app-chain event.
    pub open spec fn archive_is_due(&self) -> bool {
        self.stacks_events + 1 >= self.config.archive_refresh_interval
    }

    /// The steps that an event asks for. A predicate that is registered is
    /// stored as new and handed to the scan worker of its chain; one that is
    /// enabled is stored and set to streaming; one that is deregistered is
    /// deleted. Where the status store is in use and cannot be opened,
    /// nothing is done for these events. A base-chain event merges its report
    /// into the statuses. An app-chain event also moves the block index on
    /// and, when the archive is due, asks for a look at it; where the block
    /// index cannot be opened, nothing is done. The end of the stream stops
    /// the loop.
    pub open spec fn steps_for(&self, event: ObserverEvent, stores: Stores) -> Seq<ActionView> {
        match event {
            ObserverEvent::PredicateRegistered(spec) => {
                if !self.config.http_api_enabled {
                    seq![ActionView::EnqueueScan(spec.chain)]
                } else if stores.predicates_open {
                    seq![
                        ActionView::PersistSpecification(key_of(spec)),
                        ActionView::SetStatusNew(key_of(spec)),
                        ActionView::EnqueueScan(spec.chain),
                    ]
                } else {
                    Seq::empty()
                }
            },
            ObserverEvent::PredicateEnabled(spec) => {
                if self.config.http_api_enabled && stores.predicates_open {
                    seq![
                        ActionView::PersistSpecification(key_of(spec)),
                        ActionView::SetStatusStreaming(key_of(spec)),
                    ]
                } else {
                    Seq::empty()
                }
            },
            ObserverEvent::PredicateDeregistered(spec) => {
                if self.config.http_api_enabled && stores.predicates_open {
                    seq![ActionView::DeletePredicate(key_of(spec))]
                } else {
                    Seq::empty()
                }
            },
            ObserverEvent::BitcoinChainEvent(report) => status_steps(self.config, report),
            ObserverEvent::StacksChainEvent(kind, report) => {
                if stores.blocks_open {
                    block_index_steps(kind) + status_steps(self.config, report) + (if self.archive_is_due() {
                        seq![ActionView::RefreshArchive]
                    } else {
                        Seq::empty()
                    })
                } else {
                    Seq::empty()
                }
            },
            ObserverEvent::Terminate => seq![ActionView::Stop],
            ObserverEvent::Other => Seq::empty(),
        }
    }

    /// The number of app-chain events remembered after an event: one more
    /// for an app-chain event that reached the block index, and none once
    /// the archive is due.
    pub open spec fn events_after(&self, event: ObserverEvent, stores: Stores) -> u64 {
        if event is StacksChainEvent && stores.blocks_open {
            if self.archive_is_due() {
                0
            } else {
                (self.stacks_events + 1) as u64
            }
        } else {
            self.stacks_events
        }
    }

    /// A service that has seen no event.
    pub fn new(config: Config) -> (service: Service)
        ensures
            service.config == config,
            service.stacks_events == 0,
    {
        Service { config, stacks_events: 0 }
    }

    /// Whether the predicates are loaded from the status store at start:
    /// none was given and the store is in use.
    pub fn loads_stored_predicates(&self, predicates_given: usize) -> (loads: bool)
        ensures
            loads == (predicates_given == 0 && self.config.http_api_enabled),
    {
        predicates_given == 0 && self.config.http_api_enabled
    }

    /// Decides the steps for an event and remembers the event.
    pub fn handle_event(&mut self, event: &ObserverEvent, stores: Stores) -> (actions: Vec<
        ServiceAction,
    >)
        ensures
            actions_of(actions@) == old(self).steps_for(*event, stores),
            final(self).config == old(self).config,
            final(self).stacks_events == old(self).events_after(*event, stores),
    {
        let mut actions: Vec<ServiceAction> = Vec::new();
        match event {
            ObserverEvent::PredicateRegistered(spec) => {
                if !self.config.http_api_enabled {
                    actions.push(ServiceAction::EnqueueScan(spec.chain));
                } else if stores.predicates_open {
                    actions.push(ServiceAction::PersistSpecification(spec.key()));
                    actions.push(ServiceAction::SetStatusNew(spec.key()));
                    actions.push(ServiceAction::EnqueueScan(spec.chain));
                }
            },
            ObserverEvent::PredicateEnabled(spec) => {
                if self.config.http_api_enabled && stores.predicates_open {
                    actions.push(ServiceAction::PersistSpecification(spec.key()));
                    actions.push(ServiceAction::SetStatusStreaming(spec.key()));
                }
            },
            ObserverEvent::PredicateDeregistered(spec) => {
                if self.config.http_api_enabled && stores.predicates_open {
                    actions.push(ServiceAction::DeletePredicate(spec.key()));
                }
            },
            ObserverEvent::BitcoinChainEvent(report) => {
                if self.config.http_api_enabled {
                    actions.push(
                        ServiceAction::UpdateStatuses(update_streaming_status_from_report(report)),
                    );
                }
            },
            ObserverEvent::StacksChainEvent(kind, report) => {
                if stores.blocks_open {
                    match kind {
                        StacksChainEvent::ChainUpdatedWithBlocks => {
                            actions.push(ServiceAction::ConfirmBlocks);
                            actions.push(ServiceAction::DraftNewBlocks);
                        },
                        StacksChainEvent::ChainUpdatedWithReorg => {
                            actions.push(ServiceAction::ConfirmBlocks);
                            actions.push(ServiceAction::DraftBlocksToApply);
                        },
                        _ => {},
                    }
                    if self.config.http_api_enabled {
                        actions.push(
                            ServiceAction::UpdateStatuses(update_streaming_status_from_report(report)),
                        );
                    }
                    if self.stacks_events >= self.config.archive_refresh_interval
                        || self.stacks_events + 1 >= self.config.archive_refresh_interval {
                        self.stacks_events = 0;
                        actions.push(ServiceAction::RefreshArchive);
                    } else {
                        self.stacks_events = self.stacks_events + 1;
                    }
                }
            },
            ObserverEvent::Terminate => {
                actions.push(ServiceAction::Stop);
            },
            ObserverEvent::Other => {},
        }
        assert(actions_of(actions@) =~= old(self).steps_for(*event, stores));
        actions
    }
}

} // verus!
