use runory_agent::artifact::{
    artifact_read, artifact_reference, artifact_search, artifact_tail, should_store_as_artifact,
    truncate_chars, ArtifactStoreError, InMemoryArtifactStore, ToolArtifact,
    ARTIFACT_INLINE_THRESHOLD_BYTES, ARTIFACT_READ_MAX_BYTES, ARTIFACT_SEARCH_MAX_HITS,
};

/// A fresh random identifier.
fn new_id() -> u128 {
    uuid::Uuid::new_v4().as_u128()
}

fn stored(content: &str) -> (InMemoryArtifactStore, u128) {
    let mut store = InMemoryArtifactStore::new();
    let id = new_id();
    store
        .put(ToolArtifact {
            id,
            run_id: new_id(),
            tool_call_id: Some(new_id()),
            tool_name: "service.logs".into(),
            summary: truncate_chars("nginx journal", 300),
            content: content.into(),
            byte_len: content.len(),
            created_at_epoch_ms: 1,
        })
        .expect("put");
    (store, id)
}

fn large_log() -> String {
    let mut body = String::new();
    for i in 0..5000 {
        body.push_str(&format!("line {i} nginx error upstream\n"));
    }
    body
}

#[test]
fn large_output_is_searchable_and_readable_in_bounded_slices() {
    let body = large_log();
    assert!(should_store_as_artifact(&body));
    let (store, id) = stored(&body);

    let hits = artifact_search(&store, id, "UPSTREAM").expect("search");
    assert_eq!(hits.len(), ARTIFACT_SEARCH_MAX_HITS);
    assert_eq!(hits[0].line_number, 1);
    assert_eq!(hits[0].line, "line 0 nginx error upstream");

    let head = artifact_read(&store, id, 0, 200).expect("read");
    assert!(head.starts_with("line 0"));
    assert_eq!(head.len(), 200);

    let tail = artifact_tail(&store, id, 120).expect("tail");
    assert!(tail.contains("4999"));
    assert!(!tail.contains("line 0 nginx"));
    assert_eq!(tail.len(), 120);
}

#[test]
fn small_outputs_stay_inline() {
    assert!(!should_store_as_artifact(&"x".repeat(ARTIFACT_INLINE_THRESHOLD_BYTES)));
    assert!(should_store_as_artifact(&"x".repeat(ARTIFACT_INLINE_THRESHOLD_BYTES + 1)));
}

#[test]
fn full_artifact_content_is_never_the_reference_summary() {
    let content = "x".repeat(8_000);
    let (store, id) = stored(&content);
    let artifact = store.get(id).expect("get").expect("stored");
    let reference = artifact_reference(&artifact);
    assert_eq!(reference.byte_len, 8_000);
    assert_eq!(reference.artifact_id, id);
    assert!(reference.summary.len() < content.len());
}

#[test]
fn search_matches_lines_case_insensitively_and_ignores_blank_queries() {
    let (store, id) = stored("Alpha\r\nbeta ERROR here\n\ngamma error\nlast error");
    let hits = artifact_search(&store, id, "  error ").expect("search");
    let numbers: Vec<usize> = hits.iter().map(|hit| hit.line_number).collect();
    assert_eq!(numbers, vec![2, 4, 5]);
    assert_eq!(hits[0].line, "beta ERROR here");
    assert!(artifact_search(&store, id, "   ").expect("blank").is_empty());
    assert_eq!(
        artifact_search(&store, new_id(), "x").map(|hits| hits.len()),
        Err(ArtifactStoreError::NotFound)
    );
}

#[test]
fn search_hits_truncate_long_lines() {
    let line = format!("{}needle", "a".repeat(500));
    let (store, id) = stored(&line);
    let hits = artifact_search(&store, id, "NEEDLE").expect("search");
    assert_eq!(hits.len(), 1);
    assert_eq!(hits[0].line.chars().count(), 401);
    assert!(hits[0].line.ends_with('…'));
}

#[test]
fn reads_and_tails_keep_whole_characters() {
    let (store, id) = stored("aé€b");
    assert_eq!(artifact_read(&store, id, 0, 2).expect("read"), "a");
    assert_eq!(artifact_read(&store, id, 1, 5).expect("read"), "é€");
    assert_eq!(artifact_read(&store, id, 2, 4).expect("read"), "€");
    assert_eq!(artifact_read(&store, id, 99, 4).expect("read"), "");
    assert_eq!(artifact_read(&store, id, 0, 0).expect("read"), "a");
    assert_eq!(artifact_tail(&store, id, 2).expect("tail"), "b");
    assert_eq!(artifact_tail(&store, id, 3).expect("tail"), "b");
    assert_eq!(artifact_tail(&store, id, 4).expect("tail"), "€b");
    assert_eq!(artifact_tail(&store, id, 100).expect("tail"), "aé€b");
    assert_eq!(
        artifact_read(&store, new_id(), 0, 1),
        Err(ArtifactStoreError::NotFound)
    );
}

#[test]
fn reads_are_capped_at_the_window_limit() {
    let body = large_log();
    let (store, id) = stored(&body);
    let read = artifact_read(&store, id, 10, 1_000_000).expect("read");
    assert_eq!(read.len(), ARTIFACT_READ_MAX_BYTES);
    assert_eq!(read, body[10..10 + ARTIFACT_READ_MAX_BYTES]);
}

#[test]
fn truncation_marks_cut_text() {
    assert_eq!(truncate_chars("hello", 5), "hello");
    assert_eq!(truncate_chars("hello", 3), "hel…");
    assert_eq!(truncate_chars("日本語テキスト", 2), "日本…");
}

#[test]
fn artifact_error_codes_are_stable() {
    assert_eq!(ArtifactStoreError::NotFound.code(), "ARTIFACT_NOT_FOUND");
    assert_eq!(ArtifactStoreError::PersistenceFailed.code(), "ARTIFACT_PERSISTENCE_FAILED");
}

fn artifact(id: u128, run_id: u128, created_at_epoch_ms: u64) -> ToolArtifact {
    ToolArtifact {
        id,
        run_id,
        tool_call_id: None,
        tool_name: "system.disk".into(),
        summary: "disk".into(),
        content: "x".into(),
        byte_len: 1,
        created_at_epoch_ms,
    }
}

#[test]
fn artifacts_of_a_run_are_listed_oldest_first() {
    let run = new_id();
    let other = new_id();
    let mut store = InMemoryArtifactStore::new();
    store.put(artifact(1, run, 30)).expect("put");
    store.put(artifact(2, other, 10)).expect("put");
    store.put(artifact(3, run, 10)).expect("put");
    store.put(artifact(4, run, 30)).expect("put");
    store.put(artifact(5, run, 20)).expect("put");
    let listed: Vec<u128> = store
        .list_for_run(run)
        .expect("list")
        .iter()
        .map(|a| a.id)
        .collect();
    assert_eq!(listed, vec![3, 5, 1, 4]);
    // Replacing an artifact keeps its place among equal times.
    store.put(artifact(1, run, 30)).expect("put");
    let listed: Vec<u128> = store.list_for_run(run).expect("list").iter().map(|a| a.id).collect();
    assert_eq!(listed, vec![3, 5, 1, 4]);
    assert!(store.list_for_run(new_id()).expect("list").is_empty());
}
