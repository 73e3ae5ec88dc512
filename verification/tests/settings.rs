use frikadellen_baf::config::{
    Answer, Config, ConfigDir, ConfigError, ConfigFile, ConfigLoader, ExeDir, Prompt, SavePhase,
};
use frikadellen_baf::sessions::{CoflSession, Sessions, UtcTime, LAST_SECOND};

fn config() -> Config {
    Config {
        ingame_name: None,
        enable_ah_flips: false,
        enable_bazaar_flips: false,
        webhook_url: None,
        web_gui_port: 8080,
        websocket_url: "wss://example".to_string(),
        confirm_skip: false,
        auto_cookie: 0,
        use_cofl_chat: true,
        sessions: Sessions::new(),
    }
}

#[test]
fn config_is_kept_beside_the_executable() {
    assert_eq!(ConfigLoader::new(&ExeDir::Found).dir, ConfigDir::Executable);
    assert_eq!(ConfigLoader::new(&ExeDir::NoParent).dir, ConfigDir::Current);
    assert_eq!(ConfigLoader::new(&ExeDir::Unknown("x".to_string())).dir, ConfigDir::Current);
    assert_eq!(ConfigLoader::new(&ExeDir::Found).file(), "config.toml");
    assert_eq!(ConfigLoader::get_config_path(&ExeDir::Found), (ConfigDir::Executable, None));
    assert_eq!(
        ConfigLoader::get_config_path(&ExeDir::NoParent).1,
        Some("Warning: Could not get parent directory of executable, using current directory".to_string())
    );
    assert_eq!(
        ConfigLoader::get_config_path(&ExeDir::Unknown("no such file".to_string())).1,
        Some("Warning: Could not get executable path (no such file), using current directory".to_string())
    );
}

#[test]
fn config_is_loaded() {
    let loader = ConfigLoader::new(&ExeDir::Found);
    let fresh = loader.load(ConfigFile::Missing, config()).ok().unwrap();
    assert!(fresh.to_be_saved && fresh.config.web_gui_port == 8080);
    let mut other = config();
    other.web_gui_port = 1;
    let found = loader.load(ConfigFile::Holds(other), config()).ok().unwrap();
    assert!(!found.to_be_saved && found.config.web_gui_port == 1);
    let unreadable = loader.load(ConfigFile::Unreadable, config()).err();
    assert_eq!(unreadable.map(|e| e.message()), Some("Failed to read config file"));
    let malformed = loader.load(ConfigFile::Malformed, config()).err();
    assert_eq!(malformed, Some(ConfigError::Parse));
    assert_eq!(ConfigError::Parse.message(), "Failed to parse config file");
}

#[test]
fn config_is_saved_phase_by_phase() {
    let loader = ConfigLoader::new(&ExeDir::Found);
    assert_eq!(loader.begin_save(true), SavePhase::CreateDirectory);
    assert_eq!(loader.begin_save(false), SavePhase::Serialize);
    assert_eq!(loader.save(SavePhase::CreateDirectory, true), Ok(SavePhase::Serialize));
    assert_eq!(loader.save(SavePhase::Serialize, true), Ok(SavePhase::Write));
    assert_eq!(loader.save(SavePhase::Write, true), Ok(SavePhase::Saved));
    let error = |phase| loader.save(phase, false).unwrap_err().message();
    assert_eq!(error(SavePhase::CreateDirectory), "Failed to create config directory");
    assert_eq!(error(SavePhase::Serialize), "Failed to serialize config");
    assert_eq!(error(SavePhase::Write), "Failed to write config file");
}

#[test]
fn property_is_updated() {
    let loader = ConfigLoader::new(&ExeDir::Found);
    let set_port = |mut c: Config| {
        c.web_gui_port = 99;
        c
    };
    let (first, updated) = loader.update_property(ConfigFile::Missing, config(), set_port).ok().unwrap();
    assert_eq!(first.map(|c| c.web_gui_port), Some(8080));
    assert_eq!(updated.web_gui_port, 99);
    assert_eq!(updated.websocket_url, "wss://example");
    let (first, updated) =
        loader.update_property(ConfigFile::Holds(config()), config(), set_port).ok().unwrap();
    assert!(first.is_none() && updated.web_gui_port == 99);
    assert_eq!(
        loader.update_property(ConfigFile::Malformed, config(), set_port).err(),
        Some(ConfigError::Parse)
    );
}

#[test]
fn user_is_asked_once() {
    let mut c = config();
    assert!(c.asks(Prompt::Name) && c.asks(Prompt::Flips) && c.asks(Prompt::Webhook));
    c.answer(Answer::Name("Bob".to_string()));
    c.answer(Answer::Flips { auction_house: true, bazaar: false });
    c.answer(Answer::Webhook(None));
    assert!(!c.asks(Prompt::Name) && !c.asks(Prompt::Flips) && !c.asks(Prompt::Webhook));
    assert_eq!(c.ingame_name, Some("Bob".to_string()));
    assert!(c.enable_ah_flips && !c.enable_bazaar_flips);
    assert_eq!(c.webhook_url, Some(String::new()));
    assert_eq!(c.active_webhook_url(), None);
    c.answer(Answer::Webhook(Some("https://hook".to_string())));
    assert_eq!(c.active_webhook_url(), Some("https://hook"));
    assert_eq!(config().active_webhook_url(), None);
    c.answer(Answer::Flips { auction_house: false, bazaar: false });
    assert!(c.asks(Prompt::Flips));
}

fn at(secs: i64, nanos: u32) -> UtcTime {
    UtcTime { secs, nanos }
}

#[test]
fn session_lasts_180_days() {
    let mut sessions = Sessions::new();
    let choice = sessions.pick("Bob", at(1_700_000_000, 5), "id1".to_string()).unwrap();
    assert_eq!((choice.id.as_str(), choice.is_new), ("id1", true));
    let kept = sessions.get("Bob").unwrap();
    assert_eq!(kept.expires, at(1_700_000_000 + 15_552_000, 5));
    let again = sessions.pick("Bob", kept.expires, "id2".to_string()).unwrap();
    assert_eq!((again.id.as_str(), again.is_new), ("id1", false));
    let later = sessions.pick("Bob", at(kept.expires.secs, 6), "id3".to_string()).unwrap();
    assert_eq!((later.id.as_str(), later.is_new), ("id3", true));
    assert_eq!(sessions.entries.len(), 1);
}

#[test]
fn sessions_are_kept_by_player() {
    let mut sessions = Sessions::new();
    sessions.insert("Bob", CoflSession { id: "b".to_string(), expires: at(10, 0) });
    sessions.insert("Eve", CoflSession { id: "e".to_string(), expires: at(20, 0) });
    sessions.insert("Bob", CoflSession { id: "b2".to_string(), expires: at(30, 0) });
    assert_eq!(sessions.get("Bob").unwrap().id, "b2");
    assert_eq!(sessions.get("Eve").unwrap().id, "e");
    assert!(sessions.get("bob").is_none());
    assert_eq!(sessions.copy().get("Bob"), sessions.get("Bob"));
    assert!(at(1, 5).is_before(at(1, 6)) && at(1, 6).is_before(at(2, 0)));
    assert!(!at(1, 5).is_before(at(1, 5)));
}

#[test]
fn calendar_ends() {
    let mut sessions = Sessions::new();
    assert!(sessions.pick("Bob", at(LAST_SECOND - 15_552_000, 0), "x".to_string()).is_some());
    assert_eq!(sessions.get("Bob").unwrap().expires, at(LAST_SECOND, 0));
    let mut other = Sessions::new();
    assert!(other.pick("Bob", at(LAST_SECOND - 15_551_999, 0), "x".to_string()).is_none());
    assert!(other.get("Bob").is_none());
}

#[test]
fn current_session_has_a_random_id() {
    let mut sessions = Sessions::new();
    let choice = sessions.current("Bob").unwrap();
    assert!(choice.is_new);
    let id: Vec<char> = choice.id.chars().collect();
    assert_eq!(id.len(), 36);
    assert_eq!(id[14], '4');
    assert!("89ab".contains(id[19]));
    for (i, c) in id.iter().enumerate() {
        if [8, 13, 18, 23].contains(&i) {
            assert_eq!(*c, '-');
        } else {
            assert!(c.is_ascii_digit() || ('a'..='f').contains(c));
        }
    }
    let again = sessions.current("Bob").unwrap();
    assert!(!again.is_new && again.id == choice.id);
    assert_ne!(sessions.current("Eve").unwrap().id, choice.id);
    assert!(sessions.get("Bob").unwrap().expires.secs > 1_700_000_000);
}

#[test]
fn current_session_follows_the_kept_one() {
    let mut sessions = Sessions::new();
    let end = at(LAST_SECOND, 999_999_999);
    sessions.insert("Bob", CoflSession { id: "kept".to_string(), expires: end });
    sessions.insert("Eve", CoflSession { id: "old".to_string(), expires: at(0, 0) });
    let kept = sessions.current("Bob").unwrap();
    assert_eq!((kept.id.as_str(), kept.is_new), ("kept", false));
    let replaced = sessions.current("Eve").unwrap();
    assert!(replaced.is_new && replaced.id != "old");
    assert_eq!(sessions.get("Eve").unwrap().id, replaced.id);
    assert_eq!(sessions.get("Bob").unwrap().expires, end);
}
