use easy_proton::config::{AppConfig, GameLaunchConfig};
use easy_proton::error::{AppError, ConfigField, ValidationError};

fn launch_config(proton: &str, prefix: &str, game: &str) -> GameLaunchConfig {
    GameLaunchConfig {
        proton: proton.to_string(),
        prefix: prefix.to_string(),
        game: game.to_string(),
        gamescope: None,
    }
}

#[test]
fn validate_accepts_complete_config() {
    let c = launch_config("/opt/proton/proton", "/home/u/pfx", "/games/g/game.exe");
    assert_eq!(c.validate(), Ok(()));
}

#[test]
fn validate_rejects_empty_proton_first() {
    let c = launch_config("", "", "");
    assert_eq!(
        c.validate(),
        Err(ValidationError::EmptyField(ConfigField::CompatLayer))
    );
}

#[test]
fn validate_rejects_whitespace_proton() {
    let c = launch_config("   \t\n", "/pfx", "/g/game.exe");
    assert_eq!(
        c.validate(),
        Err(ValidationError::EmptyField(ConfigField::CompatLayer))
    );
}

#[test]
fn validate_rejects_empty_prefix_second() {
    let c = launch_config("/p/proton", " ", "/g/game.exe");
    assert_eq!(
        c.validate(),
        Err(ValidationError::EmptyField(ConfigField::Prefix))
    );
}

#[test]
fn validate_rejects_empty_game_third() {
    let c = launch_config("/p/proton", "/pfx", "\u{00A0}");
    assert_eq!(
        c.validate(),
        Err(ValidationError::EmptyField(ConfigField::Executable))
    );
}

#[test]
fn validate_rejects_bare_filename() {
    let c = launch_config("/p/proton", "/pfx", "game.exe");
    assert_eq!(c.validate(), Err(ValidationError::UnresolvableDirectory));
}

#[test]
fn validate_rejects_bare_root_path() {
    let c = launch_config("/p/proton", "/pfx", "/");
    assert_eq!(c.validate(), Err(ValidationError::UnresolvableDirectory));
}

#[test]
fn validate_accepts_root_level_executable() {
    let c = launch_config("/p/proton", "/pfx", "/game.exe");
    assert_eq!(c.validate(), Ok(()));
}

#[test]
fn is_complete_spots_blank_fields() {
    let full = AppConfig {
        proton: "/p".to_string(),
        prefix: "/x".to_string(),
        game: "/g".to_string(),
    };
    assert!(full.is_complete());
    let missing = AppConfig {
        proton: "/p".to_string(),
        prefix: "  ".to_string(),
        game: "/g".to_string(),
    };
    assert!(!missing.is_complete());
    let empty = AppConfig::default();
    assert!(!empty.is_complete());
}

#[test]
fn into_launch_config_validates() {
    let good = AppConfig {
        proton: "/p/proton".to_string(),
        prefix: "/pfx".to_string(),
        game: "/g/game.exe".to_string(),
    };
    let launch = good.into_launch_config().unwrap();
    assert_eq!(launch.proton, "/p/proton");
    assert_eq!(launch.game, "/g/game.exe");
    assert!(launch.gamescope.is_none());

    let bad = AppConfig {
        proton: "/p/proton".to_string(),
        prefix: "/pfx".to_string(),
        game: "game.exe".to_string(),
    };
    let err = bad.into_launch_config().unwrap_err();
    assert!(matches!(
        err,
        AppError::Validation(ValidationError::UnresolvableDirectory)
    ));
}

#[test]
fn validation_messages_name_the_field() {
    assert_eq!(
        ValidationError::EmptyField(ConfigField::CompatLayer).user_message(),
        "Compatibility layer path must not be empty"
    );
    assert_eq!(
        ValidationError::UnresolvableDirectory.user_message(),
        "Cannot resolve the game's directory"
    );
}
