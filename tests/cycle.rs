use quest_notifier::lookup::{CyclePhase, NotifyStep, QuestWatch};
use quest_notifier::processor::filter_new_quests;
use quest_notifier::quest::{
    DiscordQuest, QuestApplication, QuestAssets, QuestConfig, QuestMessages, QuestTaskConfig,
    RewardsConfig,
};
use quest_notifier::shutdown::ShutdownSignal;
use quest_notifier::store::{DedupStore, IdSet};

fn quest(id: &str) -> DiscordQuest {
    DiscordQuest {
        id: id.to_string(),
        config: QuestConfig {
            starts_at: "2024-01-01T00:00:00Z".to_string(),
            expires_at: "2024-02-01T00:00:00Z".to_string(),
            features: vec![],
            messages: QuestMessages {
                game_title: format!("Game {id}"),
                game_publisher: "Publisher".to_string(),
            },
            rewards_config: RewardsConfig { rewards: vec![], platforms: vec![] },
            assets: QuestAssets { hero: "hero.png".to_string(), game_tile: "tile.png".to_string() },
            application: QuestApplication {
                id: "1".to_string(),
                name: "App".to_string(),
                link: "https://example.com".to_string(),
            },
            task_config: QuestTaskConfig { config_type: 1, tasks: vec![] },
        },
    }
}

fn quests(ids: &[&str]) -> Vec<DiscordQuest> {
    ids.iter().map(|i| quest(i)).collect()
}

fn ids_of(qs: &[DiscordQuest]) -> Vec<String> {
    qs.iter().map(|q| q.id.clone()).collect()
}

fn known(ids: &[&str]) -> IdSet {
    let mut s = IdSet::new();
    for i in ids {
        s.insert(i.to_string());
    }
    s
}

/// Runs one full tick the way the scheduler does, handing out quests until
/// `stop_after` notifications have completed, then raising shutdown.
fn run_tick(
    watch: &mut QuestWatch,
    fetched: Option<Vec<DiscordQuest>>,
    stop_after: Option<usize>,
    fetch_log: &mut Vec<String>,
    notified: &mut Vec<String>,
) -> CyclePhase {
    fetch_log.push(watch.current_region());
    match fetched {
        None => watch.fetch_failed(),
        Some(batch) => {
            watch.begin_cycle(batch);
            if watch.current_phase() == CyclePhase::Suppressed {
                return watch.finish_cycle().phase;
            }
            let mut signal = ShutdownSignal::new();
            let mut done = 0usize;
            loop {
                if stop_after == Some(done) {
                    signal.raise();
                }
                match watch.next_notification(signal.is_raised()) {
                    NotifyStep::Notify(i) => {
                        notified.push(watch.pending_quest(i).id.clone());
                        done += 1;
                    }
                    NotifyStep::Done | NotifyStep::Aborted => break,
                }
            }
        }
    }
    watch.finish_cycle().phase
}

#[test]
fn filter_keeps_unseen_in_order() {
    let r = filter_new_quests(quests(&["a", "b", "c", "d"]), &known(&["b", "d"]));
    assert_eq!(ids_of(&r), vec!["a", "c"]);
}

#[test]
fn filter_empty_batch_is_empty() {
    let r = filter_new_quests(vec![], &known(&["a"]));
    assert!(r.is_empty());
}

#[test]
fn filter_keeps_both_copies_of_a_repeated_new_id() {
    let r = filter_new_quests(quests(&["x", "y", "x"]), &known(&["y"]));
    assert_eq!(ids_of(&r), vec!["x", "x"]);
}

#[test]
fn filter_twice_gives_the_same_result() {
    let snapshot = known(&["b"]);
    let first = filter_new_quests(quests(&["a", "b", "c"]), &snapshot);
    let second = filter_new_quests(quests(&["a", "b", "c"]), &snapshot);
    assert_eq!(first, second);
    let again = filter_new_quests(first.clone(), &snapshot);
    assert_eq!(again, first);
}

#[test]
fn store_registers_repeated_id_once() {
    let mut store = DedupStore::new();
    store.insert_all(vec!["a".to_string(), "a".to_string(), "b".to_string()]);
    assert_eq!(store.len(), 2);
    store.insert_all(vec!["b".to_string()]);
    assert_eq!(store.len(), 2);
    assert!(store.contains(&"a".to_string()));
    assert!(!store.contains(&"c".to_string()));
    let snap = store.snapshot();
    store.insert_all(vec!["c".to_string()]);
    assert_eq!(snap.len(), 2);
    assert_eq!(store.len(), 3);
}

#[test]
fn initial_run_is_suppressed_then_only_new_is_notified() {
    let mut watch = QuestWatch::new(vec!["en-US".to_string()], false);
    let (mut fetches, mut notified) = (vec![], vec![]);
    let phase = run_tick(&mut watch, Some(quests(&["a", "b"])), None, &mut fetches, &mut notified);
    assert_eq!(phase, CyclePhase::Suppressed);
    assert!(watch.knows(&"a".to_string()) && watch.knows(&"b".to_string()));
    assert_eq!(watch.seen_count(), 2);
    assert!(notified.is_empty());
    let phase =
        run_tick(&mut watch, Some(quests(&["a", "b", "c"])), None, &mut fetches, &mut notified);
    assert_eq!(phase, CyclePhase::Done);
    assert_eq!(notified, vec!["c"]);
}

#[test]
fn initial_run_announces_backlog_when_enabled() {
    let mut watch = QuestWatch::new(vec![], true);
    let (mut fetches, mut notified) = (vec![], vec![]);
    run_tick(&mut watch, Some(quests(&["a", "b"])), None, &mut fetches, &mut notified);
    assert_eq!(notified, vec!["a", "b"]);
}

#[test]
fn shutdown_after_second_notify_skips_the_rest() {
    let mut watch = QuestWatch::new(vec![], true);
    let (mut fetches, mut notified) = (vec![], vec![]);
    watch.begin_cycle(quests(&["q1", "q2", "q3", "q4", "q5"]));
    let mut signal = ShutdownSignal::new();
    let mut steps = vec![];
    loop {
        if notified.len() == 2 {
            signal.raise();
        }
        let step = watch.next_notification(signal.is_raised());
        steps.push(step);
        match step {
            NotifyStep::Notify(i) => notified.push(watch.pending_quest(i).id.clone()),
            _ => break,
        }
    }
    assert_eq!(steps, vec![NotifyStep::Notify(0), NotifyStep::Notify(1), NotifyStep::Aborted]);
    assert_eq!(notified, vec!["q1", "q2"]);
    let report = watch.finish_cycle();
    assert_eq!(report.phase, CyclePhase::Aborted);
    assert_eq!((report.found, report.processed, report.skipped, report.failed), (5, 2, 3, 0));
    assert_eq!(watch.seen_count(), 5);
    for id in ["q1", "q2", "q3", "q4", "q5"] {
        assert!(watch.knows(&id.to_string()));
    }
    // The skipped quests are never offered again.
    run_tick(&mut watch, Some(quests(&["q3", "q4", "q5"])), None, &mut fetches, &mut notified);
    assert_eq!(notified, vec!["q1", "q2"]);
}

#[test]
fn failed_deliveries_are_counted_and_do_not_stop_the_batch() {
    let mut watch = QuestWatch::new(vec![], true);
    watch.begin_cycle(quests(&["a", "b", "c"]));
    let mut handed = vec![];
    loop {
        match watch.next_notification(false) {
            NotifyStep::Notify(i) => {
                handed.push(watch.pending_quest(i).id.clone());
                watch.record_delivery(i != 1);
            }
            _ => break,
        }
    }
    assert_eq!(handed, vec!["a", "b", "c"]);
    let report = watch.finish_cycle();
    assert_eq!(report.phase, CyclePhase::Done);
    assert_eq!((report.found, report.processed, report.skipped, report.failed), (3, 3, 0, 1));
    assert!(watch.knows(&"b".to_string()));
}

#[test]
fn regions_are_polled_round_robin() {
    let regions = vec!["A".to_string(), "B".to_string(), "C".to_string()];
    let mut watch = QuestWatch::new(regions, false);
    let (mut fetches, mut notified) = (vec![], vec![]);
    for _ in 0..4 {
        run_tick(&mut watch, Some(vec![]), None, &mut fetches, &mut notified);
    }
    assert_eq!(fetches, vec!["A", "B", "C", "A"]);
}

#[test]
fn no_regions_polls_the_default_region() {
    let mut watch = QuestWatch::new(vec![], false);
    let (mut fetches, mut notified) = (vec![], vec![]);
    run_tick(&mut watch, Some(vec![]), None, &mut fetches, &mut notified);
    run_tick(&mut watch, None, None, &mut fetches, &mut notified);
    assert_eq!(fetches, vec!["en-US", "en-US"]);
}

#[test]
fn fetch_failure_leaves_store_and_next_region_proceeds() {
    let regions = vec!["A".to_string(), "B".to_string(), "C".to_string()];
    let mut watch = QuestWatch::new(regions, false);
    let (mut fetches, mut notified) = (vec![], vec![]);
    run_tick(&mut watch, Some(quests(&["a"])), None, &mut fetches, &mut notified);
    let before = watch.seen_count();
    let phase = run_tick(&mut watch, None, None, &mut fetches, &mut notified);
    assert_eq!(phase, CyclePhase::FetchFailed);
    assert_eq!(watch.seen_count(), before);
    let phase = run_tick(&mut watch, Some(quests(&["a", "c"])), None, &mut fetches, &mut notified);
    assert_eq!(phase, CyclePhase::Done);
    assert_eq!(fetches, vec!["A", "B", "C"]);
    assert_eq!(notified, vec!["c"]);
}

#[test]
fn id_seen_in_one_region_is_not_notified_in_another() {
    let regions = vec!["A".to_string(), "B".to_string()];
    let mut watch = QuestWatch::new(regions, true);
    let (mut fetches, mut notified) = (vec![], vec![]);
    run_tick(&mut watch, Some(quests(&["a", "b"])), None, &mut fetches, &mut notified);
    run_tick(&mut watch, Some(quests(&["b", "a", "c"])), None, &mut fetches, &mut notified);
    run_tick(&mut watch, Some(quests(&["c", "a"])), None, &mut fetches, &mut notified);
    assert_eq!(notified, vec!["a", "b", "c"]);
}

#[test]
fn store_size_never_drops_over_cycles() {
    let mut watch = QuestWatch::new(vec!["A".to_string(), "B".to_string()], false);
    let (mut fetches, mut notified) = (vec![], vec![]);
    let batches = vec![
        Some(quests(&["a", "b"])),
        None,
        Some(quests(&["b"])),
        Some(quests(&["c", "c"])),
        Some(vec![]),
    ];
    let mut last = watch.seen_count();
    for b in batches {
        run_tick(&mut watch, b, None, &mut fetches, &mut notified);
        assert!(watch.seen_count() >= last);
        last = watch.seen_count();
    }
    assert_eq!(last, 3);
    let snap = watch.snapshot();
    assert_eq!(snap.len(), 3);
}

#[test]
fn shutdown_signal_stays_raised() {
    let mut s = ShutdownSignal::new();
    assert!(!s.is_raised());
    s.raise();
    assert!(s.is_raised());
    s.raise();
    assert!(s.is_raised());
}
