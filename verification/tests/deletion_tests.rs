use media_sweeper::deletion::DeletionBatch;
use media_sweeper::media::{CompleteMediaItem, MediaType};

fn marked_item(marker: u64) -> CompleteMediaItem {
    CompleteMediaItem {
        key: marker,
        title: format!("item {}", marker),
        media_type: MediaType::Movie,
        play_count: marker,
        manager_id: marker,
    }
}

fn marked_items(n: usize) -> Vec<CompleteMediaItem> {
    (0..n as u64).map(marked_item).collect()
}

#[test]
fn every_selection_removes_exactly_the_selected_markers() {
    // For every collection size up to 10 and every non-empty subset of
    // indices: the items handed out are exactly the selected markers,
    // highest index first, and the unselected markers all survive.
    for n in 1..=10usize {
        for mask in 1u32..(1 << n) {
            let chosen: Vec<usize> = (0..n).filter(|i| mask & (1 << i) != 0).collect();
            let mut expected_taken: Vec<u64> =
                chosen.iter().rev().map(|&i| i as u64).collect();
            let mut batch = DeletionBatch::new(marked_items(n), chosen.clone());
            let mut taken: Vec<u64> = Vec::new();
            while let Some(item) = batch.next_target() {
                taken.push(item.key);
            }
            let (remaining, failures) = batch.finish();
            assert_eq!(taken, expected_taken);
            assert!(failures.is_empty());
            let mut left: Vec<u64> = remaining.iter().map(|it| it.key).collect();
            left.sort();
            let survivors: Vec<u64> =
                (0..n as u64).filter(|k| mask & (1 << *k as u32) == 0).collect();
            assert_eq!(left, survivors);
            expected_taken.sort();
            let mut selected: Vec<u64> = chosen.iter().map(|&i| i as u64).collect();
            selected.sort();
            assert_eq!(expected_taken, selected);
        }
    }
}

#[test]
fn one_failure_does_not_stop_the_batch() {
    // Three selected items; the backend refuses exactly one. The other
    // two still leave the collection and exactly one failure is
    // reported, naming the failed item's title.
    let items = marked_items(5);
    let chosen = vec![0, 2, 4];
    let mut batch = DeletionBatch::new(items, chosen);
    let mut processed = 0;
    while let Some(item) = batch.next_target() {
        processed += 1;
        if item.key == 2 {
            batch.record_failure(item.title.clone(), String::from("backend refused"));
        }
    }
    let (remaining, failures) = batch.finish();
    assert_eq!(processed, 3);
    let left: Vec<u64> = remaining.iter().map(|it| it.key).collect();
    let mut left_sorted = left.clone();
    left_sorted.sort();
    assert_eq!(left_sorted, vec![1, 3]);
    assert_eq!(failures.len(), 1);
    assert_eq!(failures[0].title, "item 2");
    assert_eq!(failures[0].detail, "backend refused");
}

#[test]
fn failures_keep_processing_order() {
    // Processing runs from the highest selected index down, and the
    // failures are reported in exactly that order.
    let items = marked_items(4);
    let mut batch = DeletionBatch::new(items, vec![0, 1, 3]);
    while let Some(item) = batch.next_target() {
        if item.key != 1 {
            batch.record_failure(item.title.clone(), String::from("backend refused"));
        }
    }
    let (_, failures) = batch.finish();
    assert_eq!(failures.len(), 2);
    assert_eq!(failures[0].title, "item 3");
    assert_eq!(failures[1].title, "item 0");
}

#[test]
fn exhausted_batch_hands_out_nothing() {
    let mut batch = DeletionBatch::new(marked_items(2), vec![1]);
    assert!(batch.next_target().is_some());
    assert!(batch.next_target().is_none());
    assert!(batch.next_target().is_none());
    let (remaining, failures) = batch.finish();
    assert_eq!(remaining.len(), 1);
    assert_eq!(remaining[0].key, 0);
    assert!(failures.is_empty());
}

#[test]
fn empty_selection_removes_nothing() {
    let mut batch = DeletionBatch::new(marked_items(3), vec![]);
    assert!(batch.next_target().is_none());
    let (remaining, failures) = batch.finish();
    assert_eq!(remaining.len(), 3);
    assert!(failures.is_empty());
}

#[test]
fn duplicate_titles_are_told_apart_by_position() {
    // Two items share a title; selecting one of them must remove that
    // very item, not its namesake.
    let mut items = marked_items(3);
    items[0].title = String::from("Twin");
    items[2].title = String::from("Twin");
    let mut batch = DeletionBatch::new(items, vec![2]);
    let handed = batch.next_target().expect("one item was selected");
    assert_eq!(handed.key, 2);
    assert!(batch.next_target().is_none());
    let (remaining, _) = batch.finish();
    let left: Vec<u64> = remaining.iter().map(|it| it.key).collect();
    assert!(left.contains(&0));
    assert!(left.contains(&1));
}
