use easy_proton::classify::{is_game_process, is_system_process, should_terminate};
use easy_proton::process::{close_candidates, is_termination_candidate, summarize_kills, CloseSummary, KillOutcome};
use easy_proton::sys::ProcEntry;

fn entry(pid: u32, name: &str) -> ProcEntry {
    ProcEntry {
        pid,
        name: name.to_string(),
    }
}

#[test]
fn steamwebhelper_is_not_game_like() {
    assert!(!is_game_process("steamwebhelper"));
}

#[test]
fn halflife_game_is_game_like() {
    assert!(is_game_process("halflife2_game"));
    assert!(is_termination_candidate(&entry(100, "HalfLife2_game"), 1));
}

#[test]
fn wineserver_excluded_winex64_included() {
    assert!(!is_game_process("wineserver"));
    assert!(is_game_process("winex64"));
}

#[test]
fn game_like_patterns() {
    assert!(is_game_process("game.exe"));
    assert!(is_game_process("wine64-preloader"));
    assert!(is_game_process("proton"));
    assert!(is_game_process("steamgame"));
    assert!(is_game_process("dota2"));
    assert!(is_game_process("csgo_linux"));
    assert!(is_game_process("tf2"));
    assert!(is_game_process("hl2_linux"));
    assert!(is_game_process("launcher64"));
    assert!(is_game_process("app32"));
    assert!(!is_game_process("64"));
    assert!(!is_game_process("32"));
    assert!(!is_game_process("bash"));
    assert!(!is_game_process("firefox"));
}

#[test]
fn system_process_exclusion() {
    assert!(is_system_process("systemd-journald"));
    assert!(is_system_process("dbus-daemon"));
    assert!(is_system_process("pulseaudio"));
    assert!(is_system_process("xorg"));
    assert!(is_system_process("gnome-shell"));
    assert!(is_system_process("kdeconnectd"));
    assert!(is_system_process("easy-proton"));
    assert!(is_system_process("tauri-runner"));
    assert!(is_system_process("thread-pool"));
    assert!(is_system_process("kworker"));
    assert!(!is_system_process("bash"));
    assert!(!is_system_process("steamwebhelper"));
}

#[test]
fn excluded_names_are_never_candidates() {
    // contains "game" but also the application's own name
    assert!(!should_terminate("easy-proton-game"));
    // gnome process whose name ends with 64
    assert!(!should_terminate("gnome-shell64"));
    // plain game-like survivors
    assert!(should_terminate("mygame.exe"));
    assert!(should_terminate("winex64"));
}

#[test]
fn own_process_is_never_a_candidate() {
    let me: u32 = 4321;
    assert!(!is_termination_candidate(&entry(me, "game.exe"), me));
    assert!(is_termination_candidate(&entry(me + 1, "game.exe"), me));
    let table = vec![entry(me, "game.exe"), entry(7, "wine64"), entry(9, "bash")];
    let cands = close_candidates(&table, me);
    assert_eq!(cands.len(), 1);
    assert_eq!(cands[0].pid, 7);
    assert_eq!(cands[0].name, "wine64");
}

#[test]
fn lowercasing_drives_classification() {
    // matches only after real lowercase folding of the OS-reported name
    assert!(is_termination_candidate(&entry(5, "My_GAME.EXE"), 1));
    assert!(!is_termination_candidate(&entry(5, "WINESERVER"), 1));
}

#[test]
fn sweep_with_no_game_processes_closes_nothing() {
    let table = vec![
        entry(2, "bash"),
        entry(3, "systemd-journald"),
        entry(4, "firefox"),
        entry(5, "steamwebhelper"),
    ];
    let cands = close_candidates(&table, 1);
    assert!(cands.is_empty());
    let no_outcomes: Vec<KillOutcome> = vec![];
    let summary = summarize_kills(&no_outcomes);
    assert_eq!(summary.closed, 0);
    assert_eq!(
        summary.into_user_message(),
        "No game processes found to close"
    );
}

#[test]
fn close_summary_reports_count() {
    let summary = CloseSummary { closed: 3 };
    assert_eq!(summary.into_user_message(), "Closed 3 game process(es)");
    let many = CloseSummary { closed: 12045 };
    assert_eq!(many.into_user_message(), "Closed 12045 game process(es)");
}

#[test]
fn candidates_keep_snapshot_order_and_names() {
    let table = vec![
        entry(11, "wine64"),
        entry(12, "bash"),
        entry(13, "dota2"),
        entry(14, "kworker"),
        entry(15, "game.exe"),
    ];
    let cands = close_candidates(&table, 1);
    let pids: Vec<u32> = cands.iter().map(|e| e.pid).collect();
    let names: Vec<&str> = cands.iter().map(|e| e.name.as_str()).collect();
    assert_eq!(pids, vec![11, 13, 15]);
    assert_eq!(names, vec!["wine64", "dota2", "game.exe"]);
}

#[test]
fn summary_counts_only_successful_kills() {
    let outcomes = vec![
        KillOutcome {
            pid: 1,
            name: "game.exe".to_string(),
            killed: true,
        },
        KillOutcome {
            pid: 2,
            name: "wine64".to_string(),
            killed: false,
        },
        KillOutcome {
            pid: 3,
            name: "dota2".to_string(),
            killed: true,
        },
    ];
    let summary = summarize_kills(&outcomes);
    assert_eq!(summary.closed, 2);
    assert_eq!(summary.into_user_message(), "Closed 2 game process(es)");
}
