use taiga_plugin_api::error::{CliError, CoreError, TaigaError};
use taiga_plugin_api::filter::{TaskFilter, TaskSort};
use taiga_plugin_api::modes::{FilterMode, SortMode};
use taiga_plugin_api::pomodoro::{BreakConfig, DaemonCommand, DaemonResponse, PomoMode, TimerSettings, TimingSettings};

#[test]
fn task_sort_from_str_ignores_case() {
    assert_eq!(TaskSort::from_str("date"), TaskSort::Date);
    assert_eq!(TaskSort::from_str("NAME"), TaskSort::Name);
    assert_eq!(TaskSort::from_str("Status"), TaskSort::Status);
    assert_eq!(TaskSort::from_str("id"), TaskSort::Id);
    assert_eq!(TaskSort::from_str("whatever"), TaskSort::Id);
    assert_eq!(TaskSort::from_str(""), TaskSort::Id);
    assert_eq!(TaskSort::from_lowercase("Date"), TaskSort::Id);
    assert_eq!(TaskSort::from_lowercase("date"), TaskSort::Date);
}

#[test]
fn filter_builders_set_their_fields() {
    let f = TaskFilter::new();
    assert_eq!(f.checked, None);
    assert_eq!(f.sort, TaskSort::Id);
    assert!(f.tags.is_empty());
    let f = TaskFilter::new()
        .completed()
        .with_schedule()
        .overdue_only()
        .search("buy".to_string())
        .sort_by(TaskSort::Name)
        .reversed()
        .in_category("Work".to_string())
        .with_tag("urgent".to_string())
        .with_tag("finance".to_string());
    assert_eq!(f.checked, Some(true));
    assert_eq!(f.scheduled, Some(true));
    assert!(f.overdue);
    assert_eq!(f.search, Some("buy".to_string()));
    assert_eq!(f.sort, TaskSort::Name);
    assert!(f.reverse);
    assert_eq!(f.category, Some(Some("Work".to_string())));
    assert_eq!(f.tags, vec!["urgent", "finance"]);
    let g = f
        .incomplete()
        .without_schedule()
        .with_overdue(false)
        .with_search(None)
        .with_reverse(false)
        .uncategorized()
        .with_tags(vec!["x".to_string()]);
    assert_eq!(g.checked, Some(false));
    assert_eq!(g.scheduled, Some(false));
    assert!(!g.overdue);
    assert_eq!(g.search, None);
    assert!(!g.reverse);
    assert_eq!(g.category, Some(None));
    assert_eq!(g.tags, vec!["x"]);
    let h = g.with_checked(None).with_scheduled(None).with_category(None);
    assert_eq!((h.checked, h.scheduled, h.category), (None, None, None));
}

#[test]
fn modes_cycle_and_label() {
    let mut m = FilterMode::All;
    let mut labels = Vec::new();
    for _ in 0..5 {
        labels.push(m.as_str().to_string());
        m = m.next();
    }
    assert_eq!(m, FilterMode::All);
    assert_eq!(labels, vec!["All", "Incomplete", "Complete", "Scheduled", "Overdue"]);
    assert_eq!(SortMode::Status.next(), SortMode::Id);
    assert_eq!(SortMode::Id.next(), SortMode::Date);
    assert_eq!(SortMode::Id.as_str(), "ID");
    assert_eq!(SortMode::Name.as_str(), "Name");
}

#[test]
fn error_constructors_keep_messages() {
    match CliError::plugin_with_source("load".to_string(), "bad elf".to_string()) {
        CliError::Plugin { message, source } => {
            assert_eq!(message, "load");
            assert_eq!(source, Some("bad elf".to_string()));
        }
        _ => panic!(),
    }
    assert!(matches!(CliError::config("c".to_string()), CliError::Config { source: None, .. }));
    assert!(matches!(CliError::parse("p".to_string()), CliError::Parse { .. }));
    assert!(matches!(CliError::ipc("i".to_string()), CliError::Ipc { .. }));
    assert!(matches!(CliError::daemon("d".to_string()), CliError::Daemon { .. }));
    assert!(matches!(CliError::storage("s".to_string()), CliError::Storage { .. }));
    assert!(matches!(CliError::io("reading".to_string(), "denied".to_string()), CliError::Io { .. }));
    assert!(matches!(CliError::validation("f".to_string(), "m".to_string()), CliError::Validation { .. }));
    assert!(matches!(CliError::from_core(CoreError::TaskNotFound(3)), CliError::TaskNotFound(3)));
    match CliError::from_core(CoreError::validation("title".to_string(), "empty".to_string())) {
        CliError::Validation { field, message } => {
            assert_eq!(field, "title");
            assert_eq!(message, "empty");
        }
        _ => panic!(),
    }
    assert!(matches!(
        CoreError::parse_with_source("x".to_string(), "y".to_string()),
        CoreError::Parse { source: Some(_), .. }
    ));
    assert!(matches!(CoreError::parse("x".to_string()), CoreError::Parse { source: None, .. }));
}

#[test]
fn pomodoro_defaults() {
    let t = TimerSettings::default();
    assert_eq!(t.long_break_minutes, 15);
    assert_eq!(t.pomodoros_before_long_break, 4);
    assert_eq!(TimingSettings::default().daemon_startup_wait_ms, 500);
    let b = BreakConfig::default();
    assert_eq!(b.duration_secs, 300);
    assert!(b.play_sound && !b.is_long_break);
    let c = DaemonCommand::Start { task_id: 1, focus_len: 25, break_len: 5, cycles: 4, no_gui: true, no_sound: false };
    assert_eq!(c, c);
    assert_ne!(DaemonCommand::Ping, DaemonCommand::Kill);
    assert!(matches!(DaemonResponse::Success("ok".to_string()), DaemonResponse::Success(_)));
    assert_eq!(PomoMode::Focus, PomoMode::Focus);
}

#[test]
fn first_host_errors_keep_messages() {
    match TaigaError::daemon_with_source("down".to_string(), "refused".to_string()) {
        TaigaError::Daemon { message, source } => {
            assert_eq!(message, "down");
            assert_eq!(source, Some("refused".to_string()));
        }
        _ => panic!(),
    }
    assert!(matches!(TaigaError::plugin("p".to_string()), TaigaError::Plugin { source: None, .. }));
    assert!(matches!(TaigaError::io("w".to_string(), "full".to_string()), TaigaError::Io { .. }));
}
