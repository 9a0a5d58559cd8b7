use fileshare::downloads::DownloadTracker;

fn snapshot(t: &DownloadTracker) -> Vec<(String, u64, u32)> {
    t.download_snapshot()
        .into_iter()
        .map(|d| (d.item_id, d.speed_bps, d.active_count))
        .collect()
}

#[test]
fn downloads_are_counted_per_item() {
    let mut t = DownloadTracker::new();
    assert_eq!(t.len(), 0);
    t.mark_download_started("a", 100);
    t.mark_download_started("b", 105);
    t.mark_download_started("a", 110);
    assert_eq!(snapshot(&t), vec![("a".to_string(), 0, 2), ("b".to_string(), 0, 1)]);
    t.record_download_bytes("a", 1000);
    t.record_download_bytes("a", 24);
    t.record_download_bytes("zzz", 5);
    assert_eq!(t.tick_inputs(), vec![(1024, 100), (0, 105)]);
    t.update_download_speeds(200, &vec![1024, 0]);
    assert_eq!(snapshot(&t), vec![("a".to_string(), 1024, 2), ("b".to_string(), 0, 1)]);
    assert_eq!(t.tick_inputs(), vec![(0, 200), (0, 200)]);
    t.mark_download_finished("b");
    assert_eq!(snapshot(&t), vec![("a".to_string(), 1024, 2)]);
    t.mark_download_finished("a");
    t.mark_download_finished("a");
    t.mark_download_finished("a");
    assert!(snapshot(&t).is_empty());
}

#[test]
fn a_first_download_measures_afresh() {
    let mut t = DownloadTracker::new();
    t.mark_download_started("a", 1);
    t.record_download_bytes("a", u64::MAX);
    t.record_download_bytes("a", 9);
    assert_eq!(t.tick_inputs(), vec![(u64::MAX, 1)]);
    t.mark_download_finished("a");
    t.mark_download_started("a", 50);
    assert_eq!(t.tick_inputs(), vec![(0, 50)]);
}

#[test]
fn finished_download_undoes_start_on_an_example() {
    let mut t = DownloadTracker::new();
    t.mark_download_started("x", 3);
    t.record_download_bytes("x", 7);
    let before = (snapshot(&t), t.tick_inputs());
    t.mark_download_started("x", 9);
    t.mark_download_finished("x");
    assert_eq!((snapshot(&t), t.tick_inputs()), before);
    t.mark_download_started("y", 9);
    t.mark_download_finished("y");
    assert_eq!((snapshot(&t), t.tick_inputs()), before);
}

#[test]
fn snapshot_lists_running_downloads_on_an_example() {
    let mut t = DownloadTracker::new();
    for id in ["a", "b", "a", "c", "b", "a"] {
        t.mark_download_started(id, 1);
    }
    t.mark_download_finished("c");
    t.mark_download_finished("b");
    let listed = snapshot(&t);
    let mut ids: Vec<&str> = listed.iter().map(|(id, _, _)| id.as_str()).collect();
    assert!(listed.iter().all(|(_, _, count)| *count > 0));
    ids.sort();
    ids.dedup();
    assert_eq!(ids.len(), listed.len());
    assert_eq!(listed, vec![("a".to_string(), 0, 3), ("b".to_string(), 0, 1)]);
}

#[test]
fn activity_counts_running_downloads_on_an_example() {
    let log = [
        (true, "a"), (true, "b"), (true, "a"), (false, "a"), (true, "c"), (false, "b"),
        (true, "b"), (false, "c"), (false, "a"), (false, "b"),
    ];
    let mut t = DownloadTracker::new();
    let mut running = std::collections::HashMap::<&str, u32>::new();
    for (start, id) in log {
        if start {
            t.mark_download_started(id, 0);
            *running.entry(id).or_default() += 1;
        } else {
            t.mark_download_finished(id);
            *running.get_mut(id).unwrap() -= 1;
        }
        for (item, _, count) in snapshot(&t) {
            assert_eq!(running[item.as_str()], count);
        }
        assert_eq!(snapshot(&t).len(), running.values().filter(|c| **c > 0).count());
    }
    assert!(snapshot(&t).is_empty());
}
