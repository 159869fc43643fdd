use easy_proton::config::{GameLaunchConfig, GamescopeConfig};
use easy_proton::error::{AppError, ConfigField, ValidationError};
use easy_proton::launcher::{LaunchSummary, ProtonLauncher};

fn gs_enabled() -> GamescopeConfig {
    GamescopeConfig {
        enabled: true,
        width: Some(1280),
        height: Some(720),
        use_fsr: false,
        fsr_mode: None,
        fsr_sharpness: None,
        fullscreen: false,
        borderless: false,
        vsync: false,
        fps_limit: None,
    }
}

fn config(gamescope: Option<GamescopeConfig>) -> GameLaunchConfig {
    GameLaunchConfig {
        proton: "/p/proton".to_string(),
        prefix: "/pfx".to_string(),
        game: "/g/game.exe".to_string(),
        gamescope,
    }
}

#[test]
fn plan_rejects_invalid_config_before_anything_else() {
    let mut c = config(Some(gs_enabled()));
    c.proton = "".to_string();
    let err = ProtonLauncher::plan(&c, true).unwrap_err();
    assert!(matches!(
        err,
        AppError::Validation(ValidationError::EmptyField(ConfigField::CompatLayer))
    ));
}

#[test]
fn plan_uses_compositor_only_when_present_enabled_and_available() {
    let wrapped = ProtonLauncher::plan(&config(Some(gs_enabled())), true).unwrap();
    assert_eq!(wrapped.program, "gamescope");

    let unavailable = ProtonLauncher::plan(&config(Some(gs_enabled())), false).unwrap();
    assert_eq!(unavailable.program, "/p/proton");

    let mut disabled = gs_enabled();
    disabled.enabled = false;
    let plain = ProtonLauncher::plan(&config(Some(disabled)), true).unwrap();
    assert_eq!(plain.program, "/p/proton");

    let none = ProtonLauncher::plan(&config(None), true).unwrap();
    assert_eq!(none.program, "/p/proton");
}

#[test]
fn launch_outcome_wraps_the_pid() {
    let summary = ProtonLauncher::launch_outcome(Ok(7312)).unwrap();
    assert_eq!(summary.pid, 7312);
    assert_eq!(summary.into_user_message(), "Game started (PID: 7312)");
}

#[test]
fn launch_outcome_surfaces_os_error_text() {
    let err = ProtonLauncher::launch_outcome(Err("No such file or directory".to_string()))
        .unwrap_err();
    assert!(matches!(err, AppError::Spawn(_)));
    assert_eq!(
        err.user_message(),
        "Failed to launch game: No such file or directory"
    );
}

#[test]
fn launch_message_renders_any_pid() {
    let summary = LaunchSummary { pid: u32::MAX };
    assert_eq!(
        summary.into_user_message(),
        "Game started (PID: 4294967295)"
    );
    let zero = LaunchSummary { pid: 0 };
    assert_eq!(zero.into_user_message(), "Game started (PID: 0)");
}

#[test]
fn process_error_message_is_prefixed() {
    let err = AppError::Process("kill failed".to_string());
    assert_eq!(err.user_message(), "Process operation failed: kill failed");
}
