use bedrockd::archive::{
    archive_file_name, archive_id, archive_member_path, archives_to_prune, is_gz_file,
    is_ldb_file, is_world_file, list_archives, new_archive_file_name, prunes, world_db_dir,
    DirEntryInfo, FileMetadata, FileTime,
};
use bedrockd::backup_cycle::{Action, BackupCycle, CycleEvent, CycleState};
use bedrockd::backup_manager::BackupManager;
use bedrockd::cli::{run_mode, Cli, RunMode};
use bedrockd::config::{
    backup_dir, backup_subfolder, config_file_action, enabled_schedules, Backup, BackupFrequency,
    BackupSchedule, Config, ConfigFileAction, Grpc, Server,
};
use bedrockd::players::{parse_xuid, PlayerEvent, PlayersOnline};
use bedrockd::rcon::{
    backup_metadata, frequency_from_schedule_type, list_backups_response, size_as_i64,
    status_text, RconError,
};
use bedrockd::archive::ArchiveInfo;
use bedrockd::save_query::{build_query_pattern, parse_decimal, QueryLine, SaveQueryParser};
use bedrockd::schedule::{is_schedule_ok, wait_seconds, wait_seconds_now, ClockReading};
use bedrockd::server_manager::{ticker_period_secs, BackupTimer, ServerManager, Ticker, WatchAction, WatchEvent, WatchState};
use bedrockd::stdio::{line_or_end, send_failure_message, stdout_response, ServerStdioRequest};
use bedrockd::tui::{home_layout_constraints, AppState, HomeView, LayoutConstraint, RootView, Screens, TermEvent};

const QUERY_ANSWER: &str = "Bedrock level/db/CURRENT:16, Bedrock level/db/MANIFEST-000002:107, Bedrock level/level.dat:2529";

fn entry(name: &str, secs: i64, nanos: u32, len: u64) -> DirEntryInfo {
    DirEntryInfo {
        name: name.to_string(),
        metadata: Some(FileMetadata { modified: Some(FileTime { secs, nanos }), len }),
    }
}

#[test]
fn xuid_is_read_after_its_marker() {
    assert_eq!(
        parse_xuid("Player connected: Steve, xuid: 2535416409090012"),
        Some("2535416409090012".to_string())
    );
    assert_eq!(parse_xuid("xuid: 42abc xuid: 7"), Some("42".to_string()));
    assert_eq!(parse_xuid("xuid: none"), Some(String::new()));
    assert_eq!(parse_xuid("Player connected: Steve"), None);
}

#[test]
fn players_join_and_leave() {
    let mut online = PlayersOnline::new();
    assert!(online.is_empty());
    match online.observe_line("[INFO] Player connected: Steve, xuid: 111") {
        Some(PlayerEvent::Joined(id)) => assert_eq!(id, "111"),
        _ => panic!("expected a join"),
    }
    online.observe_line("[INFO] Player connected: Alex, xuid: 222");
    online.observe_line("[INFO] Player connected: Steve, xuid: 111");
    assert_eq!(online.count(), 2);
    assert!(online.contains("111"));
    match online.observe_line("[INFO] Player disconnected: Steve, xuid: 111, pfid: x") {
        Some(PlayerEvent::Left(id)) => assert_eq!(id, "111"),
        _ => panic!("expected a leave"),
    }
    assert!(!online.contains("111"));
    assert_eq!(online.count(), 1);
    assert!(online.observe_line("[INFO] Running AutoCompaction...").is_none());
    assert!(online.observe_line("Player connected: no id here").is_none());
    assert_eq!(online.count(), 1);
    online.observe_line("Player disconnected: Alex, xuid: 222");
    assert!(online.is_empty());
}

#[test]
fn archive_names_round_trip() {
    assert_eq!(archive_file_name("abc"), "archive-abc.tar.gz");
    assert_eq!(archive_id("archive-abc.tar.gz"), Some("abc".to_string()));
    assert_eq!(archive_id("archive-.tar.gz"), Some(String::new()));
    assert_eq!(archive_id("archive-tar.gz"), None);
    assert_eq!(archive_id("backup-abc.tar.gz"), None);
    assert_eq!(archive_id("archive-abc.tar"), None);
    let name = new_archive_file_name();
    assert_eq!(name.len(), 8 + 36 + 7);
    let id = archive_id(&name).unwrap();
    assert_eq!(archive_file_name(&id), name);
    let chars: Vec<char> = id.chars().collect();
    assert_eq!(chars[8], '-');
    assert_eq!(chars[14], '4');
    assert!(is_gz_file(&name));
    assert_ne!(new_archive_file_name(), name);
}

#[test]
fn file_extensions() {
    assert!(is_gz_file("a.gz"));
    assert!(is_gz_file("..gz"));
    assert!(!is_gz_file(".gz"));
    assert!(!is_gz_file("a.tgz"));
    assert!(is_ldb_file("000005.ldb"));
    assert!(!is_ldb_file(".ldb"));
    assert!(!is_ldb_file("CURRENT"));
}

#[test]
fn listing_is_oldest_first_and_stable() {
    let entries = vec![
        entry("archive-c.tar.gz", 30, 0, 3),
        entry("notes.txt", 1, 0, 9),
        entry("archive-a.tar.gz", 10, 5, 1),
        DirEntryInfo { name: "archive-x.tar.gz".to_string(), metadata: None },
        DirEntryInfo {
            name: "archive-y.tar.gz".to_string(),
            metadata: Some(FileMetadata { modified: None, len: 4 }),
        },
        entry("other.gz", 0, 0, 7),
        entry("archive-b.tar.gz", 10, 5, 2),
        entry("archive-d.tar.gz", 10, 4, 4),
    ];
    let listed = list_archives(entries);
    let ids: Vec<&str> = listed.iter().map(|a| a.id.as_str()).collect();
    assert_eq!(ids, vec!["d", "a", "b", "c"]);
    assert_eq!(listed[0].size, 4);
    assert_eq!(listed[3].modified, FileTime { secs: 30, nanos: 0 });
}

#[test]
fn pruning_removes_the_oldest() {
    let entries = || {
        vec![
            entry("archive-3.tar.gz", 30, 0, 1),
            entry("archive-1.tar.gz", 10, 0, 1),
            entry("keep.txt", 0, 0, 1),
            entry("old.gz", 5, 0, 1),
            entry("archive-2.tar.gz", 20, 0, 1),
        ]
    };
    assert_eq!(archives_to_prune(entries(), 2), vec!["old.gz".to_string(), "archive-1.tar.gz".to_string()]);
    assert_eq!(archives_to_prune(entries(), 4), Vec::<String>::new());
    assert_eq!(archives_to_prune(entries(), 0), Vec::<String>::new());
    assert_eq!(archives_to_prune(entries(), 1).len(), 3);
    assert!(!prunes(0));
    assert!(prunes(15));
}

#[test]
fn world_paths() {
    assert_eq!(world_db_dir("Bedrock level"), "./worlds/Bedrock level/db");
    assert!(is_world_file("./worlds/Bedrock level/db/CURRENT"));
    assert!(!is_world_file("worlds/x"));
    assert_eq!(archive_member_path("./worlds/Bedrock level/level.dat"), "./Bedrock level/level.dat");
}

#[test]
fn configuration_defaults() {
    let c = Config::default();
    assert!(c.grpc.enabled && c.grpc.reflection);
    assert_eq!(c.grpc.port, 10000);
    assert_eq!(c.server.binary, "bedrock_server");
    assert_eq!(c.server.path, "/opt/minecraft");
    assert_eq!(c.backup.path, "/opt/minecraft/backup");
    assert_eq!(c.backup.level_name, "Bedrock level");
    assert_eq!(
        c.backup.schedule,
        vec![BackupSchedule { frequency: BackupFrequency::Minute, value: 5, limit: 15, enabled: true }]
    );
    let g = Grpc::default();
    assert_eq!(g.port, 10000);
    let s = Server::default();
    assert_eq!(s.binary, "bedrock_server");
    let b = Backup::default();
    assert_eq!(b.schedule.len(), 1);
}

#[test]
fn backup_directories() {
    assert_eq!(backup_subfolder(BackupFrequency::Minute), "minute");
    assert_eq!(backup_subfolder(BackupFrequency::Hourly), "hourly");
    assert_eq!(backup_subfolder(BackupFrequency::Daily), "daily");
    assert_eq!(backup_subfolder(BackupFrequency::Weekly), "weekly");
    assert_eq!(backup_dir("/opt/minecraft/backup", BackupFrequency::Daily), "/opt/minecraft/backup/daily");
}

#[test]
fn only_enabled_schedules_start() {
    let a = BackupSchedule { frequency: BackupFrequency::Minute, value: 5, limit: 1, enabled: true };
    let b = BackupSchedule { frequency: BackupFrequency::Daily, value: 130, limit: 2, enabled: false };
    let c = BackupSchedule { frequency: BackupFrequency::Weekly, value: 3, limit: 3, enabled: true };
    assert_eq!(enabled_schedules(&vec![a, b, c]), vec![a, c]);
}

#[test]
fn config_file_contents() {
    assert_eq!(config_file_action(""), ConfigFileAction::WriteDefault);
    assert_eq!(config_file_action("[grpc]"), ConfigFileAction::Parse);
}

#[test]
fn waiting_times() {
    let clock = ClockReading { second_of_day: 3600, weekday: 2 };
    let minute = BackupSchedule { frequency: BackupFrequency::Minute, value: 5, limit: 0, enabled: true };
    let hourly = BackupSchedule { frequency: BackupFrequency::Hourly, value: 2, limit: 0, enabled: true };
    let daily = BackupSchedule { frequency: BackupFrequency::Daily, value: 130, limit: 0, enabled: true };
    let early = BackupSchedule { frequency: BackupFrequency::Daily, value: 30, limit: 0, enabled: true };
    let now = BackupSchedule { frequency: BackupFrequency::Daily, value: 100, limit: 0, enabled: true };
    let friday = BackupSchedule { frequency: BackupFrequency::Weekly, value: 4, limit: 0, enabled: true };
    let wednesday = BackupSchedule { frequency: BackupFrequency::Weekly, value: 2, limit: 0, enabled: true };
    let monday = BackupSchedule { frequency: BackupFrequency::Weekly, value: 0, limit: 0, enabled: true };
    assert_eq!(wait_seconds(&minute, clock), 300);
    assert_eq!(wait_seconds(&hourly, clock), 7200);
    assert_eq!(wait_seconds(&daily, clock), 1800);
    assert_eq!(wait_seconds(&early, clock), 86400 - 1800);
    assert_eq!(wait_seconds(&now, clock), 0);
    assert_eq!(wait_seconds(&friday, clock), 2 * 86400);
    assert_eq!(wait_seconds(&wednesday, clock), 7 * 86400);
    assert_eq!(wait_seconds(&monday, clock), 5 * 86400);
    assert!(wait_seconds_now(&daily) < 86400);
    assert_eq!(wait_seconds_now(&minute), 300);
    let bad = BackupSchedule { frequency: BackupFrequency::Daily, value: 2460, limit: 0, enabled: true };
    assert!(!is_schedule_ok(&bad));
    assert!(is_schedule_ok(&daily));
}

#[test]
fn query_pattern_escapes_the_level_name() {
    assert_eq!(
        build_query_pattern("Bedrock level", false),
        r#"(?P<path>Bedrock level/[^\s:,]+):(?P<size>\d+)\s*,?\s*"#
    );
    assert_eq!(
        build_query_pattern("a.b", true),
        r#"(?m)(?P<path>a\.b/[^\s:,]+):(?P<size>\d+)\s*,?\s*"#
    );
}

#[test]
fn decimal_numerals() {
    assert_eq!(parse_decimal("2529"), Some(2529));
    assert_eq!(parse_decimal("0"), Some(0));
    assert_eq!(parse_decimal(""), None);
    assert_eq!(parse_decimal("12a"), None);
    assert_eq!(parse_decimal("99999999999999999999999"), None);
    assert_eq!(parse_decimal(&usize::MAX.to_string()), Some(usize::MAX));
}

#[test]
fn query_answers_are_classified() {
    let parser = SaveQueryParser::new("Bedrock level", false).unwrap();
    match parser.classify(QUERY_ANSWER) {
        QueryLine::Files(files) => {
            assert_eq!(files.len(), 3);
            assert_eq!(files[0].path, "./worlds/Bedrock level/db/CURRENT");
            assert_eq!(files[0].size, 16);
            assert_eq!(files[1].path, "./worlds/Bedrock level/db/MANIFEST-000002");
            assert_eq!(files[1].size, 107);
            assert_eq!(files[2].path, "./worlds/Bedrock level/level.dat");
            assert_eq!(files[2].size, 2529);
        }
        _ => panic!("expected the file list"),
    }
    assert!(matches!(
        parser.classify("A previous save has not been completed."),
        QueryLine::NotCompleted
    ));
    assert!(matches!(parser.classify("Data saved. Files are now ready to be copied."), QueryLine::Other));
    assert!(matches!(
        parser.classify("Bedrock level/db/CURRENT:99999999999999999999999"),
        QueryLine::BadSize
    ));
    let other = SaveQueryParser::new("My.World", false).unwrap();
    assert!(matches!(other.classify("MyxWorld/db/CURRENT:16"), QueryLine::Other));
    assert!(matches!(other.classify("My.World/db/CURRENT:16"), QueryLine::Files(_)));
}

fn schedule() -> BackupSchedule {
    BackupSchedule { frequency: BackupFrequency::Hourly, value: 1, limit: 4, enabled: true }
}

fn cycle() -> BackupCycle {
    BackupCycle::new(schedule(), "/backups".to_string(), SaveQueryParser::new("Bedrock level", false).unwrap())
}

#[test]
fn a_backup_cycle_holds_archives_and_resumes() {
    let mut c = cycle();
    let s = c.step(CycleEvent::Started);
    assert!(s.commands.is_empty() && matches!(s.action, Action::WaitSchedule));
    let s = c.step(CycleEvent::WaitElapsed { players_online: true });
    assert_eq!(
        s.commands,
        vec!["say §g§l[bedrockd]§r Starting server backup...".to_string(), "save hold".to_string()]
    );
    assert!(matches!(s.action, Action::Delay(3)));
    let s = c.step(CycleEvent::PollDue);
    assert_eq!(s.commands, vec!["save query".to_string()]);
    assert!(matches!(s.action, Action::ReadLine));
    let s = c.step(CycleEvent::Line("A previous save has not been completed.".to_string()));
    assert!(matches!(s.action, Action::Delay(3)));
    assert_eq!(c.state(), CycleState::Polling);
    c.step(CycleEvent::PollDue);
    let s = c.step(CycleEvent::Line("Data saved. Files are now ready to be copied.".to_string()));
    assert!(matches!(s.action, Action::ReadLine));
    let s = c.step(CycleEvent::StreamError);
    assert!(matches!(s.action, Action::ReadLine));
    let s = c.step(CycleEvent::Line(QUERY_ANSWER.to_string()));
    match s.action {
        Action::Archive { files, dir, limit } => {
            assert_eq!(files.len(), 3);
            assert_eq!(dir, "/backups/hourly");
            assert_eq!(limit, 4);
        }
        _ => panic!("expected an archive"),
    }
    let s = c.step(CycleEvent::ArchiveFinished { ok: true });
    assert_eq!(
        s.commands,
        vec!["save resume".to_string(), "say §g§l[bedrockd]§r Server backup complete!".to_string()]
    );
    assert_eq!(c.state(), CycleState::Waiting);
}

#[test]
fn a_failed_archive_still_resumes() {
    let mut c = cycle();
    c.step(CycleEvent::Started);
    c.step(CycleEvent::WaitElapsed { players_online: true });
    c.step(CycleEvent::PollDue);
    c.step(CycleEvent::Line(QUERY_ANSWER.to_string()));
    let s = c.step(CycleEvent::ArchiveFinished { ok: false });
    assert_eq!(
        s.commands,
        vec!["save resume".to_string(), "say §c§l[bedrockd]§r Server backup failed!".to_string()]
    );
}

#[test]
fn no_players_no_backup() {
    let mut c = cycle();
    c.step(CycleEvent::Started);
    let s = c.step(CycleEvent::WaitElapsed { players_online: false });
    assert!(s.commands.is_empty());
    assert!(matches!(s.action, Action::WaitSchedule));
    assert_eq!(c.state(), CycleState::Waiting);
    let s = c.step(CycleEvent::PollDue);
    assert!(matches!(s.action, Action::Continue));
}

#[test]
fn a_closed_console_ends_the_cycle() {
    let mut c = cycle();
    c.step(CycleEvent::Started);
    c.step(CycleEvent::WaitElapsed { players_online: true });
    c.step(CycleEvent::PollDue);
    let s = c.step(CycleEvent::ChannelClosed);
    assert!(matches!(s.action, Action::Stop));
    assert_eq!(c.state(), CycleState::Stopped);
}

#[test]
fn the_manager_starts_enabled_schedules() {
    let mut backup = Backup::default();
    backup.schedule.push(BackupSchedule { frequency: BackupFrequency::Daily, value: 200, limit: 3, enabled: false });
    backup.schedule.push(BackupSchedule { frequency: BackupFrequency::Weekly, value: 6, limit: 3, enabled: true });
    let mut m = BackupManager::new(backup).unwrap();
    assert_eq!(m.archive_dir(BackupFrequency::Weekly), "/opt/minecraft/backup/weekly");
    let tasks = m.create_scheduled_tasks();
    assert_eq!(tasks.len(), 2);
    assert_eq!(tasks[0].schedule().frequency, BackupFrequency::Minute);
    assert_eq!(tasks[1].schedule().frequency, BackupFrequency::Weekly);
    assert_eq!(m.create_scheduled_tasks().len(), 0);
}

#[test]
fn console_messages() {
    assert_eq!(ServerStdioRequest::from("save hold").command, "save hold");
    let r = stdout_response("hello\n".to_string());
    assert!(!r.is_error);
    assert_eq!(r.output, "hello\n");
    assert_eq!(send_failure_message("stop"), "Unable to send command: stop");
    assert_eq!(line_or_end(0, String::new()), None);
    assert_eq!(line_or_end(3, "ab\n".to_string()), Some("ab\n".to_string()));
}

#[test]
fn management_answers() {
    assert_eq!(status_text(), "Ok");
    assert_eq!(frequency_from_schedule_type(1).ok(), Some(BackupFrequency::Minute));
    assert_eq!(frequency_from_schedule_type(4).ok(), Some(BackupFrequency::Weekly));
    match frequency_from_schedule_type(0) {
        Err(RconError::InvalidArgument(m)) => assert_eq!(m, "schedule_type must be specified"),
        _ => panic!("expected an invalid argument"),
    }
    assert!(frequency_from_schedule_type(9).is_err());
    assert_eq!(size_as_i64(5), 5);
    assert_eq!(size_as_i64(u64::MAX), -1);
    assert_eq!(size_as_i64(1u64 << 63), i64::MIN);
    let a = ArchiveInfo { id: "x".to_string(), modified: FileTime { secs: 0, nanos: 0 }, size: 12 };
    let m = backup_metadata(a).unwrap();
    assert_eq!(m.id, "x");
    assert_eq!(m.timestamp, "1970-01-01T00:00:00+00:00");
    assert_eq!(m.size, 12);
    let far = ArchiveInfo { id: "y".to_string(), modified: FileTime { secs: i64::MAX, nanos: 0 }, size: 1 };
    assert!(backup_metadata(far).is_none());
    let list = list_backups_response(vec![
        ArchiveInfo { id: "a".to_string(), modified: FileTime { secs: 86400, nanos: 500_000_000 }, size: 1 },
    ])
    .unwrap();
    assert_eq!(list[0].timestamp, "1970-01-02T00:00:00.500+00:00");
}

#[test]
fn the_front_end_quits_on_a_key() {
    let mut state = AppState::default();
    assert_eq!(state.current_screen, Screens::HOME);
    RootView::update(&mut state, TermEvent::Resize);
    assert!(!state.should_quit);
    RootView::update(&mut state, TermEvent::Key);
    assert!(state.should_quit);
    HomeView::update(&mut state, TermEvent::Mouse);
    assert!(state.should_quit);
    assert_eq!(HomeView::tab_titles(), vec!["Home".to_string(), "Backups".to_string(), "Server I/O".to_string()]);
    assert_eq!(
        home_layout_constraints(),
        vec![LayoutConstraint::Ratio(1, 8), LayoutConstraint::Fill(1), LayoutConstraint::Ratio(1, 8)]
    );
}

#[test]
fn command_line_modes() {
    assert_eq!(run_mode(Cli { daemon: true, config: true }), RunMode::WriteConfig);
    assert_eq!(run_mode(Cli { daemon: true, config: false }), RunMode::Daemonize);
    assert_eq!(run_mode(Cli { daemon: false, config: false }), RunMode::Foreground);
}

#[test]
fn the_first_watcher_archives_and_resumes() {
    let m = ServerManager::new(Backup::default());
    let mut w = m.backup_watcher().unwrap();
    assert!(matches!(w.step(WatchEvent::Line("hello".to_string())), WatchAction::ReadLine));
    assert!(matches!(w.step(WatchEvent::Lagged(3)), WatchAction::ReadLine));
    match w.step(WatchEvent::Line(QUERY_ANSWER.to_string())) {
        WatchAction::Archive(files) => assert_eq!(files.len(), 3),
        _ => panic!("expected an archive"),
    }
    assert!(matches!(w.step(WatchEvent::Line("x".to_string())), WatchAction::AwaitArchive));
    assert!(matches!(w.step(WatchEvent::ArchiveWritten), WatchAction::SendResume));
    assert!(matches!(w.step(WatchEvent::Closed), WatchAction::Stop));
    let _ = WatchState::Stopped;
}

#[test]
fn the_backup_timer_holds_then_queries() {
    assert_eq!(ticker_period_secs(Ticker::Backup), 300);
    assert_eq!(ticker_period_secs(Ticker::Command), 5);
    let mut t = BackupTimer::new();
    let s = t.next();
    assert_eq!(s.ticker, Ticker::Command);
    assert_eq!(s.command, None);
    let s = t.next();
    assert_eq!(s.ticker, Ticker::Backup);
    assert_eq!(s.command, None);
    for _ in 0..3 {
        let s = t.next();
        assert_eq!(s.ticker, Ticker::Backup);
        assert_eq!(s.command, Some("save hold".to_string()));
        let s = t.next();
        assert_eq!(s.ticker, Ticker::Command);
        assert_eq!(s.command, Some("save query".to_string()));
    }
}

#[test]
fn an_unreadable_file_list_is_refused() {
    let bad = "Bedrock level/db/CURRENT:99999999999999999999999".to_string();
    let mut c = cycle();
    c.step(CycleEvent::Started);
    c.step(CycleEvent::WaitElapsed { players_online: true });
    c.step(CycleEvent::PollDue);
    assert!(!c.line_is_readable(&bad));
    assert!(c.line_is_readable(QUERY_ANSWER));
    assert!(c.step_checked(CycleEvent::Line(bad.clone())).is_none());
    assert_eq!(c.state(), CycleState::Reading);
    assert!(matches!(
        c.step_checked(CycleEvent::Line(QUERY_ANSWER.to_string())).map(|s| s.action),
        Some(Action::Archive { .. })
    ));

    let mut w = ServerManager::new(Backup::default()).backup_watcher().unwrap();
    assert!(!w.line_is_readable(&bad));
    assert!(w.step_checked(WatchEvent::Line(bad)).is_none());
    assert!(matches!(w.step_checked(WatchEvent::Closed), Some(WatchAction::Stop)));
}

#[test]
fn waits_by_minutes_and_hours_need_no_clock() {
    let hourly = BackupSchedule { frequency: BackupFrequency::Hourly, value: 3, limit: 0, enabled: true };
    assert_eq!(wait_seconds_now(&hourly), 10800);
    let weekly = BackupSchedule { frequency: BackupFrequency::Weekly, value: 1, limit: 0, enabled: true };
    let w = wait_seconds_now(&weekly);
    assert!(w >= 86400 && w <= 7 * 86400 && w % 86400 == 0);
}

#[test]
fn the_newest_archive_is_listed_last() {
    let name = new_archive_file_name();
    let id = archive_id(&name).unwrap();
    let entries = vec![
        entry(&name, 100, 1, 10),
        entry("archive-old.tar.gz", 100, 0, 1),
        entry("archive-older.tar.gz", 50, 999, 1),
    ];
    let listed = list_archives(entries);
    assert_eq!(listed.last().unwrap().id, id);
}

#[test]
fn players_online_follow_the_last_line_about_them() {
    let mut online = PlayersOnline::new();
    for line in [
        "Player connected: A, xuid: 1",
        "Player connected: B, xuid: 2",
        "Player disconnected: A, xuid: 1",
        "Player connected: C, xuid: 3",
        "Player disconnected: C, xuid: 3",
        "Player connected: C, xuid: 3",
        "Player disconnected: D, xuid: 4",
    ] {
        online.observe_line(line);
    }
    assert!(!online.contains("1"));
    assert!(online.contains("2"));
    assert!(online.contains("3"));
    assert!(!online.contains("4"));
    assert_eq!(online.count(), 2);
}
