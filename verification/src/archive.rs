//! The bulk archive of the app chain: the names of its files and the rule
//! that tells whether the local copy is the one that the remote side
//! offers.

use crate::hex_text::{ascii_lowercase, to_ascii_lowercase};
use crate::matching::{bytes_start_with, starts_with};
use crate::types::{bytes_view, StacksNetwork};
use vstd::prelude::*;
use vstd::slice::slice_subrange;
use vstd::string::StringExecFns;

verus! {

/// The number of characters of a checksum that are compared.
pub const CHECKSUM_PREFIX_LEN: usize = 32;

/// The name of a network in lowercase, as file names spell it.
pub open spec fn network_name(network: StacksNetwork) -> Seq<char> {
    match network {
        StacksNetwork::Simnet => "simnet"@,
        StacksNetwork::Devnet => "devnet"@,
        StacksNetwork::Testnet => "testnet"@,
        StacksNetwork::Mainnet => "mainnet"@,
    }
}

/// Spells the name of a network in lowercase.
fn spell_network(network: &StacksNetwork) -> (name: String)
    ensures
        name@ == network_name(*network),
{
    match network {
        StacksNetwork::Simnet => String::from_str("simnet"),
        StacksNetwork::Devnet => String::from_str("devnet"),
        StacksNetwork::Testnet => String::from_str("testnet"),
        StacksNetwork::Mainnet => String::from_str("mainnet"),
    }
}

/// The name of the archive file of a network.
pub fn default_tsv_file_path(network: &StacksNetwork) -> (path: String)
    ensures
        path@ == network_name(*network) + "-stacks-events.tsv"@,
{
    let mut path = spell_network(network);
    path.append("-stacks-events.tsv");
    path
}

/// The name of the file that holds the checksum of the archive of a
/// network.
pub fn default_tsv_sha_file_path(network: &StacksNetwork) -> (path: String)
    ensures
        path@ == network_name(*network) + "-stacks-events.sha256"@,
{
    let mut path = spell_network(network);
    path.append("-stacks-events.sha256");
    path
}

/// Whether the local archive is up to date: the first characters of the
/// local checksum open the remote checksum, letter case aside. A local
/// checksum that is too short to compare is not up to date.
pub open spec fn is_up_to_date(local_sha: Seq<u8>, remote_sha: Seq<u8>) -> bool {
    local_sha.len() >= CHECKSUM_PREFIX_LEN && starts_with(
        ascii_lowercase(remote_sha),
        ascii_lowercase(local_sha.take(CHECKSUM_PREFIX_LEN as int)),
    )
}

/// Tells whether the local archive is up to date.
pub fn local_archive_is_latest(local_sha: &[u8], remote_sha: &[u8]) -> (latest: bool)
    ensures
        latest == is_up_to_date(local_sha@, remote_sha@),
{
    if local_sha.len() < CHECKSUM_PREFIX_LEN {
        return false;
    }
    let head = slice_subrange(local_sha, 0, CHECKSUM_PREFIX_LEN);
    assert(head@ =~= local_sha@.take(CHECKSUM_PREFIX_LEN as int));
    let local = to_ascii_lowercase(head);
    let remote = to_ascii_lowercase(remote_sha);
    bytes_start_with(remote.as_slice(), local.as_slice())
}

/// What to do about the archive before blocks are ingested.
#[derive(Clone, Copy, Debug, PartialEq, Eq, Structural)]
pub enum ArchivePlan {
    /// No ingestion is needed: blocks are streamed from the node.
    StreamFromNode,
    /// Ingestion is needed and no remote archive is to be fetched.
    IngestWithoutArchive,
    /// The local archive is up to date and is ingested as it is.
    UseLocalArchive,
    /// The archive is fetched, then ingested.
    DownloadArchive,
}

/// The plan for the archive: nothing where no ingestion is required; no
/// fetch where the remote archive is not relied on; the local archive where
/// both checksums could be read and the local one is up to date; a fetch
/// in every other case.
pub open spec fn archive_plan(
    ingestion_required: bool,
    remote_archive_wanted: bool,
    local_sha: Option<Seq<u8>>,
    remote_sha: Option<Seq<u8>>,
) -> ArchivePlan {
    if !ingestion_required {
        ArchivePlan::StreamFromNode
    } else if !remote_archive_wanted {
        ArchivePlan::IngestWithoutArchive
    } else if local_sha is Some && remote_sha is Some && is_up_to_date(local_sha->0, remote_sha->0) {
        ArchivePlan::UseLocalArchive
    } else {
        ArchivePlan::DownloadArchive
    }
}

impl ArchivePlan {
    /// Whether ingestion of fresh data follows: after a fetch, and where
    /// ingestion goes on without an archive.
    pub open spec fn brings_new_data(self) -> bool {
        self is DownloadArchive || self is IngestWithoutArchive
    }

    /// Tells whether ingestion of fresh data follows.
    pub fn ingestion_follows(&self) -> (follows: bool)
        ensures
            follows == self.brings_new_data(),
    {
        match self {
            ArchivePlan::DownloadArchive | ArchivePlan::IngestWithoutArchive => true,
            _ => false,
        }
    }
}

/// Decides what to do about the archive, given what the configuration asks
/// for and the checksums that could be read.
pub fn download_stacks_dataset_if_required(
    ingestion_required: bool,
    remote_archive_wanted: bool,
    local_sha: &Option<Vec<u8>>,
    remote_sha: &Option<Vec<u8>>,
) -> (plan: ArchivePlan)
    ensures
        plan == archive_plan(
            ingestion_required,
            remote_archive_wanted,
            bytes_view(*local_sha),
            bytes_view(*remote_sha),
        ),
{
    if !ingestion_required {
        return ArchivePlan::StreamFromNode;
    }
    if !remote_archive_wanted {
        return ArchivePlan::IngestWithoutArchive;
    }
    match (local_sha, remote_sha) {
        (Some(local), Some(remote)) => {
            if local_archive_is_latest(local.as_slice(), remote.as_slice()) {
                ArchivePlan::UseLocalArchive
            } else {
                ArchivePlan::DownloadArchive
            }
        },
        _ => ArchivePlan::DownloadArchive,
    }
}

} // verus!
