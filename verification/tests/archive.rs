use chainhook_core::archive::{
    default_tsv_file_path, default_tsv_sha_file_path, download_stacks_dataset_if_required,
    local_archive_is_latest, ArchivePlan,
};
use chainhook_core::types::StacksNetwork;

#[test]
fn archive_files_are_named_after_the_network() {
    assert_eq!(default_tsv_file_path(&StacksNetwork::Mainnet), "mainnet-stacks-events.tsv");
    assert_eq!(default_tsv_file_path(&StacksNetwork::Testnet), "testnet-stacks-events.tsv");
    assert_eq!(default_tsv_file_path(&StacksNetwork::Devnet), "devnet-stacks-events.tsv");
    assert_eq!(default_tsv_file_path(&StacksNetwork::Simnet), "simnet-stacks-events.tsv");
    assert_eq!(default_tsv_sha_file_path(&StacksNetwork::Mainnet), "mainnet-stacks-events.sha256");
    assert_eq!(default_tsv_sha_file_path(&StacksNetwork::Simnet), "simnet-stacks-events.sha256");
}

#[test]
fn checksum_comparison_ignores_letter_case() {
    let local = b"ABCDEF0123456789ABCDEF0123456789".to_vec();
    let remote = b"abcdef0123456789abcdef0123456789abcdef0123456789abcdef0123456789  file.tsv\n".to_vec();
    assert!(local_archive_is_latest(&local, &remote));
    assert!(local_archive_is_latest(&remote, &local));
    let other = b"abcdef0123456789abcdef012345678a".to_vec();
    assert!(!local_archive_is_latest(&local, &other));
}

#[test]
fn checksum_comparison_looks_at_thirty_two_characters() {
    let remote = b"abcdef0123456789abcdef0123456789ffff".to_vec();
    let local = b"abcdef0123456789abcdef0123456789eeee".to_vec();
    assert!(local_archive_is_latest(&local, &remote));
    let short = b"abcdef0123456789abcdef012345678".to_vec();
    assert!(!local_archive_is_latest(&short, &remote));
    assert!(!local_archive_is_latest(&local, &short));
    assert!(!local_archive_is_latest(&[], &[]));
}

#[test]
fn fresh_archive_is_not_downloaded_again() {
    let local = Some(b"ABCDEF0123456789ABCDEF0123456789".to_vec());
    let remote = Some(b"abcdef0123456789abcdef0123456789abcdef".to_vec());
    let plan = download_stacks_dataset_if_required(true, true, &local, &remote);
    assert_eq!(plan, ArchivePlan::UseLocalArchive);
    assert!(!plan.ingestion_follows());
}

#[test]
fn stale_or_unreadable_archive_is_downloaded() {
    let local = Some(b"00000000000000000000000000000000".to_vec());
    let remote = Some(b"abcdef0123456789abcdef0123456789abcdef".to_vec());
    for (l, r) in [(&local, &remote), (&None, &remote), (&local, &None), (&None, &None)] {
        let plan = download_stacks_dataset_if_required(true, true, l, r);
        assert_eq!(plan, ArchivePlan::DownloadArchive);
        assert!(plan.ingestion_follows());
    }
}

#[test]
fn archive_is_left_alone_when_it_is_not_needed() {
    let sha = Some(b"abcdef0123456789abcdef0123456789".to_vec());
    let plan = download_stacks_dataset_if_required(false, true, &sha, &sha);
    assert_eq!(plan, ArchivePlan::StreamFromNode);
    assert!(!plan.ingestion_follows());
    let plan = download_stacks_dataset_if_required(true, false, &sha, &sha);
    assert_eq!(plan, ArchivePlan::IngestWithoutArchive);
    assert!(plan.ingestion_follows());
}
