use karaokify::batcher::{chunk_files_by_size, too_large_message, FileProbe};
use karaokify::upload_batch_limit;
use karaokify::MAX_PAYLOAD_SIZE;

fn probe(path: &str, size: u64) -> FileProbe {
    FileProbe { path: path.to_string(), size: Some(size) }
}

fn unreadable(path: &str) -> FileProbe {
    FileProbe { path: path.to_string(), size: None }
}

#[test]
fn greedy_fill_closes_batch_at_limit() {
    // Sizes [3, 4, 2, 5] under limit 7: 3+4 fills the first batch exactly,
    // 2 would overflow it, so [3,4] closes and [2,5] follows.
    let files = vec![probe("a", 3), probe("b", 4), probe("c", 2), probe("d", 5)];
    let (batches, failed) = chunk_files_by_size(&files, 7);
    assert_eq!(
        batches,
        vec![
            vec!["a".to_string(), "b".to_string()],
            vec!["c".to_string(), "d".to_string()],
        ]
    );
    assert!(failed.is_empty());
}

#[test]
fn oversized_file_never_joins_a_batch() {
    let files = vec![probe("file", 12)];
    let (batches, failed) = chunk_files_by_size(&files, 10);
    assert!(batches.is_empty());
    assert_eq!(
        failed,
        vec![("file".to_string(), "file is too large: 12 > 10".to_string())]
    );
}

#[test]
fn too_large_reason_renders_both_sizes() {
    assert_eq!(too_large_message(12, 10), "file is too large: 12 > 10");
    assert_eq!(
        too_large_message(4000000000, 999),
        "file is too large: 4000000000 > 999"
    );
}

#[test]
fn unreadable_metadata_is_reported_first() {
    let files = vec![probe("big", 9), unreadable("ghost"), probe("ok", 2)];
    let (batches, failed) = chunk_files_by_size(&files, 5);
    assert_eq!(batches, vec![vec!["ok".to_string()]]);
    assert_eq!(
        failed,
        vec![
            ("ghost".to_string(), "failed to get metadata".to_string()),
            ("big".to_string(), "file is too large: 9 > 5".to_string()),
        ]
    );
}

#[test]
fn empty_input_gives_nothing() {
    let (batches, failed) = chunk_files_by_size(&Vec::new(), 10);
    assert!(batches.is_empty());
    assert!(failed.is_empty());
}

#[test]
fn exact_fit_is_accepted() {
    let files = vec![probe("a", 10)];
    let (batches, failed) = chunk_files_by_size(&files, 10);
    assert_eq!(batches, vec![vec!["a".to_string()]]);
    assert!(failed.is_empty());
}

#[test]
fn batching_is_deterministic() {
    let files1 = vec![probe("a", 3), unreadable("u"), probe("b", 9), probe("c", 4)];
    let files2 = vec![probe("a", 3), unreadable("u"), probe("b", 9), probe("c", 4)];
    let first = chunk_files_by_size(&files1, 8);
    let second = chunk_files_by_size(&files2, 8);
    assert_eq!(first, second);
}

#[test]
fn every_batch_stays_under_the_limit() {
    let sizes: Vec<u64> = vec![5, 1, 7, 7, 2, 2, 2, 9, 1, 1, 1, 1, 8];
    let files: Vec<FileProbe> = sizes
        .iter()
        .enumerate()
        .map(|(i, s)| probe(&format!("f{}", i), *s))
        .collect();
    let limit = 8;
    let (batches, _failed) = chunk_files_by_size(&files, limit);
    let by_name: std::collections::HashMap<String, u64> = files
        .iter()
        .map(|f| (f.path.clone(), f.size.unwrap()))
        .collect();
    for batch in &batches {
        assert!(!batch.is_empty());
        let total: u64 = batch.iter().map(|p| by_name[p]).sum();
        assert!(total <= limit);
    }
}

#[test]
fn upload_limit_leaves_headroom() {
    assert_eq!(MAX_PAYLOAD_SIZE, 50_000_000);
    assert_eq!(upload_batch_limit(), 40_000_000);
}
