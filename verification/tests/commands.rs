use easy_proton::command::{build_gamescope_command, build_plain_command};
use easy_proton::config::{GameLaunchConfig, GamescopeConfig};

fn base_config() -> GameLaunchConfig {
    GameLaunchConfig {
        proton: "/opt/proton/proton".to_string(),
        prefix: "/home/u/pfx".to_string(),
        game: "/games/halflife/hl.exe".to_string(),
        gamescope: None,
    }
}

fn gs(width: Option<u32>, height: Option<u32>) -> GamescopeConfig {
    GamescopeConfig {
        enabled: true,
        width,
        height,
        use_fsr: false,
        fsr_mode: None,
        fsr_sharpness: None,
        fullscreen: false,
        borderless: false,
        vsync: false,
        fps_limit: None,
    }
}

fn expected_env() -> Vec<(String, String)> {
    [
        ("STEAM_COMPAT_DATA_PATH", "/home/u/pfx"),
        ("STEAM_COMPAT_CLIENT_INSTALL_PATH", "~/.steam/root"),
        ("WINEPREFIX", "/home/u/pfx"),
        ("LC_ALL", "zh_CN.UTF-8"),
        ("GTK_IM_MODULE", "fcitx"),
        ("QT_IM_MODULE", "fcitx"),
        ("XMODIFIERS", "@im=fcitx"),
        ("SDL_IM_MODULE", "fcitx"),
        ("GLFW_IM_MODULE", "ibus"),
        ("WAYLAND_DISPLAY", "wayland-0"),
        ("XDG_SESSION_TYPE", "wayland"),
        ("DBUS_SESSION_BUS_ADDRESS", "unix:path=/run/user/1000/bus"),
    ]
    .iter()
    .map(|(k, v)| (k.to_string(), v.to_string()))
    .collect()
}

#[test]
fn plain_command_shape() {
    let cmd = build_plain_command(&base_config());
    assert_eq!(cmd.program, "/opt/proton/proton");
    assert_eq!(cmd.working_dir, "/games/halflife");
    assert_eq!(
        cmd.args,
        vec!["run".to_string(), "/games/halflife/hl.exe".to_string()]
    );
    assert_eq!(cmd.env, expected_env());
}

#[test]
fn plain_command_is_deterministic() {
    let a = build_plain_command(&base_config());
    let b = build_plain_command(&base_config());
    assert_eq!(a.program, b.program);
    assert_eq!(a.working_dir, b.working_dir);
    assert_eq!(a.args, b.args);
    assert_eq!(a.env, b.env);
}

#[test]
fn gamescope_command_fixed_order() {
    let mut g = gs(Some(1920), Some(1080));
    g.fullscreen = true;
    g.use_fsr = true;
    g.fsr_mode = Some("fsr2".to_string());
    let cmd = build_gamescope_command(&base_config(), &g);
    assert_eq!(cmd.program, "gamescope");
    assert_eq!(cmd.working_dir, "/games/halflife");
    assert_eq!(
        cmd.args,
        vec![
            "-W".to_string(),
            "1920".to_string(),
            "-H".to_string(),
            "1080".to_string(),
            "-f".to_string(),
            "--fsr2".to_string(),
            "--".to_string(),
            "/opt/proton/proton".to_string(),
            "run".to_string(),
            "/games/halflife/hl.exe".to_string(),
        ]
    );
    assert_eq!(cmd.env, expected_env());
}

#[test]
fn gamescope_width_alone_has_no_effect() {
    let cmd = build_gamescope_command(&base_config(), &gs(Some(1920), None));
    assert!(!cmd.args.contains(&"-W".to_string()));
    assert!(!cmd.args.contains(&"-H".to_string()));
    let cmd2 = build_gamescope_command(&base_config(), &gs(None, Some(1080)));
    assert!(!cmd2.args.contains(&"-W".to_string()));
    assert!(!cmd2.args.contains(&"-H".to_string()));
    let bare = build_gamescope_command(&base_config(), &gs(None, None));
    assert_eq!(cmd.args, bare.args);
    assert_eq!(cmd2.args, bare.args);
}

#[test]
fn gamescope_all_toggles_and_limits() {
    let mut g = gs(Some(2560), Some(1440));
    g.fullscreen = true;
    g.borderless = true;
    g.vsync = true;
    g.fps_limit = Some(144);
    g.use_fsr = true;
    g.fsr_mode = Some("fsr4".to_string());
    g.fsr_sharpness = Some(7);
    let cmd = build_gamescope_command(&base_config(), &g);
    assert_eq!(
        cmd.args,
        vec![
            "-W".to_string(),
            "2560".to_string(),
            "-H".to_string(),
            "1440".to_string(),
            "-f".to_string(),
            "-b".to_string(),
            "-o".to_string(),
            "-r".to_string(),
            "144".to_string(),
            "--fsr4".to_string(),
            "--sharpness".to_string(),
            "7".to_string(),
            "--".to_string(),
            "/opt/proton/proton".to_string(),
            "run".to_string(),
            "/games/halflife/hl.exe".to_string(),
        ]
    );
}

#[test]
fn gamescope_unrecognized_mode_falls_back_to_first() {
    let mut g = gs(None, None);
    g.use_fsr = true;
    g.fsr_mode = Some("fsr9".to_string());
    let cmd = build_gamescope_command(&base_config(), &g);
    assert_eq!(cmd.args[0], "--fsr");
    let mut g2 = gs(None, None);
    g2.use_fsr = true;
    g2.fsr_mode = None;
    let cmd2 = build_gamescope_command(&base_config(), &g2);
    assert_eq!(cmd2.args[0], "--fsr");
    let mut g3 = gs(None, None);
    g3.use_fsr = true;
    g3.fsr_mode = Some("fsr3".to_string());
    let cmd3 = build_gamescope_command(&base_config(), &g3);
    assert_eq!(cmd3.args[0], "--fsr3");
}

#[test]
fn root_level_game_runs_from_root() {
    let mut c = base_config();
    c.game = "/game.exe".to_string();
    let cmd = build_plain_command(&c);
    assert_eq!(cmd.working_dir, "/");
    assert_eq!(cmd.args[1], "/game.exe");
}
