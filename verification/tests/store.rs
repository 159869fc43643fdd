use easy_proton::codec::{decode_record, encode_record};
use easy_proton::config::AppConfig;
use easy_proton::config_store::ConfigStore;
use easy_proton::error::AppError;
use easy_proton::state::AppState;

fn store() -> ConfigStore {
    ConfigStore::initialize("/home/u/.config/easy-proton").unwrap()
}

fn config(proton: &str, prefix: &str, game: &str) -> AppConfig {
    AppConfig {
        proton: proton.to_string(),
        prefix: prefix.to_string(),
        game: game.to_string(),
    }
}

#[test]
fn encode_is_plain_json() {
    let text = encode_record("/p/proton", "/pfx", "/g/game.exe");
    assert_eq!(
        text,
        "{\"proton\":\"/p/proton\",\"prefix\":\"/pfx\",\"game\":\"/g/game.exe\"}"
    );
}

#[test]
fn encode_escapes_specials() {
    let text = encode_record("a\"b", "c\\d", "e\nf");
    assert_eq!(
        text,
        "{\"proton\":\"a\\\"b\",\"prefix\":\"c\\\\d\",\"game\":\"e\\u000af\"}"
    );
}

#[test]
fn encoded_record_parses_as_json() {
    let text = encode_record("a\"b\\c", "tab\there", "/g/游戏.exe");
    let v: serde_json::Value = serde_json::from_str(&text).unwrap();
    assert_eq!(v["proton"], "a\"b\\c");
    assert_eq!(v["prefix"], "tab\there");
    assert_eq!(v["game"], "/g/游戏.exe");
}

#[test]
fn decode_inverts_encode() {
    let cases = [
        ("/p/proton", "/pfx", "/g/game.exe"),
        ("", "", ""),
        ("a\"b", "c\\d", "e\u{0}f"),
        ("newline\nreturn\rtab\t", "quote\"back\\", "ctl\u{1f}\u{1}"),
        ("юникод", "游戏", "emoji🎮path"),
    ];
    for (p, q, g) in cases {
        let text = encode_record(p, q, g);
        let (dp, dq, dg) = decode_record(&text).unwrap();
        assert_eq!(dp, p);
        assert_eq!(dq, q);
        assert_eq!(dg, g);
    }
}

#[test]
fn decode_rejects_corrupt_records() {
    let corrupt = [
        "",
        "{}",
        "not json at all",
        "{\"proton\":\"a\",\"prefix\":\"b\"}",
        "{\"proton\":\"a\",\"prefix\":\"b\",\"game\":\"c\"",
        "{\"proton\":\"a\",\"prefix\":\"b\",\"game\":\"c\"}x",
        "{\"proton\":\"a\",\"prefix\":\"b\",\"game\":\"\\q\"}",
        "{\"proton\":\"a\",\"prefix\":\"b\",\"game\":\"\\u00zz\"}",
        "{\"proton\":\"a\",\"prefix\":\"b\",\"game\":\"\\u0041\"}",
        "{\"game\":\"c\",\"proton\":\"a\",\"prefix\":\"b\"}",
    ];
    for text in corrupt {
        assert!(decode_record(text).is_none(), "accepted: {text}");
    }
}

#[test]
fn load_absent_record_is_no_error() {
    let s = store();
    let loaded = s.load(None).unwrap();
    assert!(loaded.is_none());
}

#[test]
fn load_or_default_yields_empty_record() {
    let s = store();
    let c = s.load_or_default(None).unwrap();
    assert_eq!(c.proton, "");
    assert_eq!(c.prefix, "");
    assert_eq!(c.game, "");
}

#[test]
fn save_then_load_round_trips() {
    let s = store();
    let saved = config("/p/pro ton", "/pfx\"x", "/g/game.exe");
    let text = s.save(&saved);
    let loaded = s.load_or_default(Some(&text)).unwrap();
    assert_eq!(loaded.proton, saved.proton);
    assert_eq!(loaded.prefix, saved.prefix);
    assert_eq!(loaded.game, saved.game);
}

#[test]
fn corrupt_record_surfaces_as_error() {
    let s = store();
    let err = s.load(Some("{\"proton\":17}")).unwrap_err();
    assert!(matches!(err, AppError::Serialization(_)));
    let err2 = s.load_or_default(Some("")).unwrap_err();
    assert!(matches!(err2, AppError::Serialization(_)));
}

#[test]
fn store_path_is_under_config_dir() {
    let s = store();
    assert_eq!(s.path(), "/home/u/.config/easy-proton/config.json");
}

#[test]
fn initialize_refuses_blank_directory() {
    let err = ConfigStore::initialize("  ").unwrap_err();
    assert!(matches!(err, AppError::ConfigPath(_)));
    assert_eq!(
        err.user_message(),
        "Config path unavailable: no configuration directory available"
    );
}

#[test]
fn app_state_carries_the_store() {
    let st = AppState::try_new("/etc/easy-proton").unwrap();
    assert_eq!(st.config_store().path(), "/etc/easy-proton/config.json");
    assert!(AppState::try_new("\t").is_err());
}
