use quickwhisper::config::{
    canonical_key, config_dir_from_found, config_path_in, data_dir_from_found, dirs_from_found, history_db_path_in, models_dir_in, program_dirs, Config,
    ConfigError, ConfigKey, HotkeyMode, UserDirs,
};

#[test]
fn defaults_match_the_documented_configuration() {
    let c = Config::default();
    assert_eq!(c.hotkey.key, "F12");
    assert_eq!(c.hotkey.mode, HotkeyMode::PushToTalk);
    assert_eq!(c.audio.device, "default");
    assert_eq!(c.audio.max_recording_secs, 120);
    assert_eq!(c.whisper.model, "small");
    assert_eq!(c.whisper.language, "pt");
}

#[test]
fn keys_accept_dotted_paths_and_shorthands() {
    let pairs = [
        ("hotkey.key", "key", ConfigKey::HotkeyKey),
        ("hotkey.mode", "mode", ConfigKey::HotkeyMode),
        ("audio.device", "device", ConfigKey::AudioDevice),
        ("audio.max_recording_secs", "max_recording_secs", ConfigKey::AudioMaxRecordingSecs),
        ("whisper.model", "model", ConfigKey::WhisperModel),
        ("whisper.language", "language", ConfigKey::WhisperLanguage),
    ];
    for (full, short, k) in pairs {
        assert_eq!(canonical_key(full).unwrap(), k);
        assert_eq!(canonical_key(short).unwrap(), k);
    }
    assert_eq!(canonical_key("lang").unwrap(), ConfigKey::WhisperLanguage);
}

#[test]
fn unknown_key_is_refused_by_name() {
    match canonical_key("volume") {
        Err(ConfigError::UnknownKey { key }) => assert_eq!(key, "volume"),
        other => panic!("unexpected {other:?}"),
    }
    let c = Config::default();
    assert!(matches!(c.get_by_key("hotkey"), Err(ConfigError::UnknownKey { .. })));
}

#[test]
fn get_by_key_shows_each_field() {
    let c = Config::default();
    assert_eq!(c.get_by_key("key").unwrap(), "F12");
    assert_eq!(c.get_by_key("mode").unwrap(), "push-to-talk");
    assert_eq!(c.get_by_key("device").unwrap(), "default");
    assert_eq!(c.get_by_key("max_recording_secs").unwrap(), "120");
    assert_eq!(c.get_by_key("model").unwrap(), "small");
    assert_eq!(c.get_by_key("lang").unwrap(), "pt");
}

#[test]
fn set_language_auto_then_read_back() {
    let mut c = Config::default();
    c.set_by_key("language", "auto", false).unwrap();
    assert_eq!(c.get_by_key("whisper.language").unwrap(), "auto");
}

#[test]
fn set_language_accepts_known_code_and_refuses_unknown() {
    let mut c = Config::default();
    c.set_by_key("lang", "en", true).unwrap();
    assert_eq!(c.whisper.language, "en");
    match c.set_by_key("lang", "klingon", false) {
        Err(ConfigError::InvalidLanguage { value }) => assert_eq!(value, "klingon"),
        other => panic!("unexpected {other:?}"),
    }
    assert_eq!(c.whisper.language, "en");
}

#[test]
fn set_mode_accepts_the_two_modes_only() {
    let mut c = Config::default();
    c.set_by_key("mode", "toggle", false).unwrap();
    assert_eq!(c.hotkey.mode, HotkeyMode::Toggle);
    assert_eq!(c.get_by_key("hotkey.mode").unwrap(), "toggle");
    c.set_by_key("hotkey.mode", "push-to-talk", false).unwrap();
    assert_eq!(c.hotkey.mode, HotkeyMode::PushToTalk);
    assert!(matches!(
        c.set_by_key("mode", "Toggle", false),
        Err(ConfigError::InvalidMode { .. })
    ));
    assert_eq!(c.hotkey.mode, HotkeyMode::PushToTalk);
}

#[test]
fn set_max_recording_secs_reads_a_number() {
    let mut c = Config::default();
    c.set_by_key("max_recording_secs", "300", false).unwrap();
    assert_eq!(c.audio.max_recording_secs, 300);
    c.set_by_key("max_recording_secs", "+042", false).unwrap();
    assert_eq!(c.get_by_key("max_recording_secs").unwrap(), "42");
    for bad in ["", "+", "-1", "1.5", "abc", "18446744073709551616"] {
        assert!(matches!(
            c.set_by_key("max_recording_secs", bad, false),
            Err(ConfigError::InvalidSeconds { .. })
        ));
    }
    assert_eq!(c.audio.max_recording_secs, 42);
    c.set_by_key("max_recording_secs", "18446744073709551615", false).unwrap();
    assert_eq!(c.audio.max_recording_secs, u64::MAX);
}

#[test]
fn set_hotkey_validates_the_key_name() {
    let mut c = Config::default();
    c.set_by_key("key", "f9", false).unwrap();
    assert_eq!(c.hotkey.key, "f9");
    match c.set_by_key("hotkey.key", "NOSUCHKEY", false) {
        Err(ConfigError::InvalidHotkey { value }) => assert_eq!(value, "NOSUCHKEY"),
        other => panic!("unexpected {other:?}"),
    }
    assert_eq!(c.hotkey.key, "f9");
}

#[test]
fn set_free_text_fields() {
    let mut c = Config::default();
    c.set_by_key("device", "USB Mic", false).unwrap();
    c.set_by_key("model", "large-v3", false).unwrap();
    assert_eq!(c.get_by_key("audio.device").unwrap(), "USB Mic");
    assert_eq!(c.get_by_key("whisper.model").unwrap(), "large-v3");
    // other fields untouched
    assert_eq!(c.get_by_key("key").unwrap(), "F12");
}

#[test]
fn set_unknown_key_changes_nothing() {
    let mut c = Config::default();
    assert!(matches!(c.set_by_key("colour", "red", true), Err(ConfigError::UnknownKey { .. })));
    assert_eq!(c.whisper.language, "pt");
    assert_eq!(c.whisper.model, "small");
}

#[test]
fn user_paths_end_in_the_program_files() {
    if let Ok(p) = quickwhisper::config::config_path() {
        assert!(p.ends_with("/config.toml"), "{p}");
        assert!(p.contains("quickwhisper"), "{p}");
    }
    if let Ok(p) = quickwhisper::config::models_dir() {
        assert!(p.ends_with("quickwhisper/models"), "{p}");
    }
    if let Ok(p) = quickwhisper::config::history_db_path() {
        assert!(p.ends_with("quickwhisper/history.db"), "{p}");
    }
}

#[test]
fn files_lie_in_the_right_directory() {
    let dirs = UserDirs {
        config_dir: "/home/ana/.config/quickwhisper".to_string(),
        data_dir: "/home/ana/.local/share/quickwhisper".to_string(),
    };
    assert_eq!(config_path_in(&dirs.config_dir), "/home/ana/.config/quickwhisper/config.toml");
    assert_eq!(models_dir_in(&dirs.data_dir), "/home/ana/.local/share/quickwhisper/models");
    assert_eq!(history_db_path_in(&dirs.data_dir), "/home/ana/.local/share/quickwhisper/history.db");
}

#[test]
fn program_dirs_follow_the_xdg_layout() {
    if let Ok(d) = program_dirs() {
        assert!(d.config_dir.ends_with("/quickwhisper"), "{}", d.config_dir);
        assert!(d.data_dir.ends_with("/quickwhisper"), "{}", d.data_dir);
        assert_eq!(quickwhisper::config::config_path().unwrap(), config_path_in(&d.config_dir));
        assert_eq!(quickwhisper::config::models_dir().unwrap(), models_dir_in(&d.data_dir));
    }
}

#[test]
fn config_errors_have_messages() {
    let e = ConfigError::UnknownKey { key: "volume".into() };
    assert_eq!(
        e.message(),
        "chave desconhecida 'volume'. Válidas: key, mode, device, max_recording_secs, model, language"
    );
    let e = ConfigError::InvalidMode { value: "x".into() };
    assert_eq!(e.message(), "modo inválido 'x' (use push-to-talk ou toggle)");
    let e = ConfigError::InvalidHotkey { value: "F99".into() };
    assert_eq!(e.message(), "tecla desconhecida: 'F99' (tente por ex. F12, F9, PAUSE)");
    let e = ConfigError::InvalidLanguage { value: "zz".into() };
    assert_eq!(e.message(), "idioma inválido 'zz' (use um código como pt/en/es, ou auto)");
    assert_eq!(
        ConfigError::InvalidSeconds { value: "a".into() }.message(),
        "max_recording_secs deve ser um número de segundos"
    );
}

#[test]
fn directory_lookup_outcomes_map_to_results() {
    let c = || Some("/h/.config/quickwhisper".to_string());
    let d = || Some("/h/.local/share/quickwhisper".to_string());
    assert!(matches!(dirs_from_found(None), Err(ConfigError::NoHomeDirectory)));
    let u = dirs_from_found(Some((c(), d()))).unwrap();
    assert_eq!(u.config_dir, "/h/.config/quickwhisper");
    assert_eq!(u.data_dir, "/h/.local/share/quickwhisper");
    assert!(matches!(dirs_from_found(Some((None, d()))), Err(ConfigError::NonUtf8Path)));
    assert!(matches!(dirs_from_found(Some((c(), None))), Err(ConfigError::NonUtf8Path)));
    // each path needs only its own directory to be UTF-8
    assert_eq!(config_dir_from_found(Some((c(), None))).unwrap(), "/h/.config/quickwhisper");
    assert!(matches!(config_dir_from_found(Some((None, d()))), Err(ConfigError::NonUtf8Path)));
    assert!(matches!(config_dir_from_found(None), Err(ConfigError::NoHomeDirectory)));
    assert_eq!(data_dir_from_found(Some((None, d()))).unwrap(), "/h/.local/share/quickwhisper");
    assert!(matches!(data_dir_from_found(Some((c(), None))), Err(ConfigError::NonUtf8Path)));
    assert!(matches!(data_dir_from_found(None), Err(ConfigError::NoHomeDirectory)));
}
