use workopilot::file_watcher::{
    task_id_from_file_name, task_updated_event_name, FileEvent, FileEventKind,
    FileWatcherManager, WatchStep, WATCH_DEBOUNCE_MS, WATCH_POLL_MS, WRITE_TTL,
};

fn json_event(name: &str) -> FileEvent {
    FileEvent { kind: FileEventKind::Any, file_name: Some(name.to_string()) }
}

#[test]
fn marked_write_is_suppressed_once() {
    let mut manager = FileWatcherManager::new();
    manager.mark_internal_write("t1", 1_000);
    let first = manager.on_file_event(&json_event("t1.json"), "/work/app", 1_000 + WRITE_TTL - 1);
    assert!(first.is_none());
    let second = manager.on_file_event(&json_event("t1.json"), "/work/app", 1_000 + WRITE_TTL - 1);
    let payload = second.expect("the second event is reported");
    assert_eq!(payload.task_id, "t1");
    assert_eq!(payload.project_path, "/work/app");
    assert_eq!(payload.source, "ai");
}

#[test]
fn stale_marker_suppresses_nothing() {
    let mut manager = FileWatcherManager::new();
    manager.mark_internal_write("t1", 5);
    let fired = manager.on_file_event(&json_event("t1.json"), "/p", 5 + WRITE_TTL);
    assert!(fired.is_some());
    assert!(!manager.is_internal_write("t1", 5));
}

#[test]
fn marker_is_consumed_by_the_question() {
    let mut manager = FileWatcherManager::new();
    manager.mark_internal_write("t1", 100);
    assert!(manager.is_internal_write("t1", 200));
    assert!(!manager.is_internal_write("t1", 200));
}

#[test]
fn marker_of_another_task_does_not_suppress() {
    let mut manager = FileWatcherManager::new();
    manager.mark_internal_write("t2", 100);
    assert!(manager.on_file_event(&json_event("t1.json"), "/p", 150).is_some());
    assert!(manager.is_internal_write("t2", 150));
}

#[test]
fn later_mark_replaces_earlier() {
    let mut manager = FileWatcherManager::new();
    manager.mark_internal_write("t1", 0);
    manager.mark_internal_write("t1", WRITE_TTL);
    assert!(manager.is_internal_write("t1", WRITE_TTL + 10));
}

#[test]
fn clock_running_backwards_counts_as_no_time() {
    let mut manager = FileWatcherManager::new();
    manager.mark_internal_write("t1", 500);
    assert!(manager.is_internal_write("t1", 100));
}

#[test]
fn only_settled_json_events_count() {
    let mut manager = FileWatcherManager::new();
    let continuous = FileEvent {
        kind: FileEventKind::AnyContinuous,
        file_name: Some("t1.json".to_string()),
    };
    assert!(manager.on_file_event(&continuous, "/p", 0).is_none());
    assert!(manager.on_file_event(&json_event("notes.txt"), "/p", 0).is_none());
    let nameless = FileEvent { kind: FileEventKind::Any, file_name: None };
    assert!(manager.on_file_event(&nameless, "/p", 0).is_none());
}

#[test]
fn ignored_event_leaves_marker_alone() {
    let mut manager = FileWatcherManager::new();
    manager.mark_internal_write("t1", 0);
    assert!(manager.on_file_event(&json_event("t1.txt"), "/p", 1).is_none());
    assert!(manager.is_internal_write("t1", 2));
}

#[test]
fn task_id_is_the_name_without_extension() {
    assert_eq!(task_id_from_file_name("abc.json"), Some("abc".to_string()));
    assert_eq!(task_id_from_file_name("a.json.json"), Some("a.json".to_string()));
    assert_eq!(task_id_from_file_name(".json"), Some(String::new()));
    assert_eq!(task_id_from_file_name("abc.jsonl"), None);
    assert_eq!(task_id_from_file_name("json"), None);
    assert_eq!(task_id_from_file_name("tâche.json"), Some("tâche".to_string()));
}

#[test]
fn start_watching_twice_is_a_no_op() {
    let mut manager = FileWatcherManager::new();
    match manager.start_watching("/work/app") {
        WatchStep::Prepare { tasks_dir } => assert_eq!(tasks_dir, "/work/app/.workopilot/tasks"),
        WatchStep::AlreadyWatching => panic!("nothing is watched yet"),
    }
    manager.watch_started("/work/app".to_string());
    assert!(matches!(manager.start_watching("/work/app"), WatchStep::AlreadyWatching));
    manager.watch_started("/work/app".to_string());
    assert!(manager.stop_watching("/work/app"));
    assert!(!manager.stop_watching("/work/app"));
}

#[test]
fn stop_all_returns_every_watched_path() {
    let mut manager = FileWatcherManager::new();
    manager.watch_started("/a".to_string());
    manager.watch_started("/b".to_string());
    manager.mark_internal_write("t1", 0);
    let mut stopped = manager.stop_all();
    stopped.sort();
    assert_eq!(stopped, vec!["/a".to_string(), "/b".to_string()]);
    assert!(manager.stop_all().is_empty());
    assert!(!manager.stop_watching("/a"));
    assert!(manager.is_internal_write("t1", 1));
}

#[test]
fn watcher_has_its_fixed_names_and_intervals() {
    assert_eq!(task_updated_event_name(), "task-updated");
    assert_eq!(WATCH_DEBOUNCE_MS, 500);
    assert_eq!(WATCH_POLL_MS, 100);
    assert_eq!(WRITE_TTL, 2_000_000_000);
}
