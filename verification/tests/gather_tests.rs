use media_sweeper::errors::{FatalError, FetchError};
use media_sweeper::gather::{gather, merge_sources, ItemSources, ManagerInfo, MetadataInfo, Sourced, WatchInfo};
use media_sweeper::media::MediaType;

fn complete_row(key: u64, title: &str, media_type: MediaType, play_count: u64, manager_id: u64) -> ItemSources {
    ItemSources {
        key,
        metadata: Sourced::Found(MetadataInfo { title: String::from(title), media_type }),
        watch: Sourced::Found(WatchInfo { play_count }),
        manager: Sourced::Found(ManagerInfo { manager_id }),
    }
}

fn fetch_error(summary: &str) -> FetchError {
    FetchError::new(String::from(summary), " (no route to the service)")
}

#[test]
fn complete_rows_all_merge() {
    let rows = vec![
        complete_row(1, "Alpha", MediaType::Movie, 3, 11),
        complete_row(2, "Beta", MediaType::Series, 0, 22),
    ];
    let (items, errs) = merge_sources(&rows);
    assert_eq!(items.len(), 2);
    assert!(errs.is_empty());
    assert_eq!(items[0].key, 1);
    assert_eq!(items[0].title, "Alpha");
    assert_eq!(items[0].media_type, MediaType::Movie);
    assert_eq!(items[0].play_count, 3);
    assert_eq!(items[0].manager_id, 11);
    assert_eq!(items[1].key, 2);
    assert_eq!(items[1].title, "Beta");
    assert_eq!(items[1].media_type, MediaType::Series);
}

#[test]
fn missing_enrichment_drops_item_silently() {
    let mut incomplete = complete_row(2, "Beta", MediaType::Series, 1, 22);
    incomplete.watch = Sourced::Absent;
    let rows = vec![
        complete_row(1, "Alpha", MediaType::Movie, 3, 11),
        incomplete,
        complete_row(3, "Gamma", MediaType::Movie, 0, 33),
    ];
    let (items, errs) = merge_sources(&rows);
    // The incomplete item is gone from the results and no error reports it.
    assert_eq!(items.len(), 2);
    assert_eq!(items[0].key, 1);
    assert_eq!(items[1].key, 3);
    assert!(errs.is_empty());
}

#[test]
fn metadata_alone_is_not_enough() {
    let mut row = complete_row(7, "Delta", MediaType::Movie, 0, 77);
    row.watch = Sourced::Absent;
    row.manager = Sourced::Absent;
    let (items, errs) = merge_sources(&vec![row]);
    assert!(items.is_empty());
    assert!(errs.is_empty());
}

#[test]
fn failures_are_collected_in_row_and_source_order() {
    let mut first = complete_row(1, "Alpha", MediaType::Movie, 3, 11);
    first.manager = Sourced::Failed(fetch_error("manager down for Alpha"));
    let mut second = complete_row(2, "Beta", MediaType::Series, 1, 22);
    second.metadata = Sourced::Failed(fetch_error("metadata down for Beta"));
    second.watch = Sourced::Failed(fetch_error("watch history down for Beta"));
    let rows = vec![first, second, complete_row(3, "Gamma", MediaType::Movie, 2, 33)];
    let (items, errs) = merge_sources(&rows);
    assert_eq!(items.len(), 1);
    assert_eq!(items[0].key, 3);
    assert_eq!(errs.len(), 3);
    assert_eq!(errs[0].summary, "manager down for Alpha");
    assert_eq!(errs[1].summary, "metadata down for Beta");
    assert_eq!(errs[2].summary, "watch history down for Beta");
}

#[test]
fn all_sources_failing_still_returns() {
    let mut rows = Vec::new();
    for k in 0..3u64 {
        rows.push(ItemSources {
            key: k,
            metadata: Sourced::Failed(fetch_error("metadata failed")),
            watch: Sourced::Failed(fetch_error("watch failed")),
            manager: Sourced::Failed(fetch_error("manager failed")),
        });
    }
    let (items, errs) = merge_sources(&rows);
    assert!(items.is_empty());
    // One error per failed interaction, none lost, none invented.
    assert_eq!(errs.len(), 9);
}

#[test]
fn failed_row_reports_error_but_no_item() {
    let mut row = complete_row(4, "Epsilon", MediaType::Series, 5, 44);
    row.metadata = Sourced::Failed(fetch_error("metadata failed"));
    row.watch = Sourced::Absent;
    let (items, errs) = merge_sources(&vec![row]);
    assert!(items.is_empty());
    assert_eq!(errs.len(), 1);
    assert_eq!(errs[0].summary, "metadata failed");
}

#[test]
fn gather_passes_merged_result_through() {
    let rows = vec![complete_row(1, "Alpha", MediaType::Movie, 3, 11)];
    let gathered = gather(Ok(rows));
    let (items, errs) = gathered.expect("gathering from healthy sources succeeds");
    assert_eq!(items.len(), 1);
    assert!(errs.is_empty());
}

#[test]
fn gather_fails_fast_on_startup_error() {
    let fatal = FatalError { message: String::from("no base connectivity") };
    let gathered = gather(Err(fatal));
    let err = gathered.expect_err("a startup failure aborts the run");
    assert_eq!(err.message, "no base connectivity");
}

#[test]
fn fetch_error_detail_extends_summary() {
    let e = FetchError::new(String::from("service unreachable"), ": connection refused");
    assert_eq!(e.summary, "service unreachable");
    assert_eq!(e.detail, "service unreachable: connection refused");
    assert!(e.detail.starts_with(&e.summary));
}
