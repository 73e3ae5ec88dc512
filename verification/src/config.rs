//! The configuration: where it is kept, how it is loaded and saved, and what the user is asked for.

use vstd::prelude::*;

use crate::scoreboard::opt_text;
use crate::sessions::{Sessions, SessionView};
use crate::types::copy_opt;

verus! {

/// The configuration.
pub struct Config {
    pub ingame_name: Option<String>,
    pub enable_ah_flips: bool,
    pub enable_bazaar_flips: bool,
    /// The address for notifications, empty where there are to be none.
    pub webhook_url: Option<String>,
    pub web_gui_port: u16,
    pub websocket_url: String,
    pub confirm_skip: bool,
    /// How many hours the booster cookie may have left before another is bought.
    pub auto_cookie: u64,
    pub use_cofl_chat: bool,
    /// The sessions with the flip service, by player.
    pub sessions: Sessions,
}

/// The configuration, as the contracts speak of it.
#[verifier::ext_equal]
pub struct ConfigView {
    pub ingame_name: Option<Seq<char>>,
    pub enable_ah_flips: bool,
    pub enable_bazaar_flips: bool,
    pub webhook_url: Option<Seq<char>>,
    pub web_gui_port: u16,
    pub websocket_url: Seq<char>,
    pub confirm_skip: bool,
    pub auto_cookie: u64,
    pub use_cofl_chat: bool,
    pub sessions: Map<Seq<char>, SessionView>,
}

impl View for Config {
    type V = ConfigView;

    open spec fn view(&self) -> ConfigView {
        ConfigView {
            ingame_name: opt_text(self.ingame_name),
            enable_ah_flips: self.enable_ah_flips,
            enable_bazaar_flips: self.enable_bazaar_flips,
            webhook_url: opt_text(self.webhook_url),
            web_gui_port: self.web_gui_port,
            websocket_url: self.websocket_url@,
            confirm_skip: self.confirm_skip,
            auto_cookie: self.auto_cookie,
            use_cofl_chat: self.use_cofl_chat,
            sessions: self.sessions@,
        }
    }
}

impl ConfigView {
    /// The address for notifications, if there are to be any.
    pub open spec fn notification_url(self) -> Option<Seq<char>> {
        match self.webhook_url {
            Some(url) => if url.len() > 0 {
                Some(url)
            } else {
                None
            },
            None => None,
        }
    }
}

impl Config {
    /// A copy that says the same.
    pub fn copy(&self) -> (r: Config)
        ensures
            r@ == self@,
    {
        Config {
            ingame_name: copy_opt(&self.ingame_name),
            enable_ah_flips: self.enable_ah_flips,
            enable_bazaar_flips: self.enable_bazaar_flips,
            webhook_url: copy_opt(&self.webhook_url),
            web_gui_port: self.web_gui_port,
            websocket_url: self.websocket_url.clone(),
            confirm_skip: self.confirm_skip,
            auto_cookie: self.auto_cookie,
            use_cofl_chat: self.use_cofl_chat,
            sessions: self.sessions.copy(),
        }
    }

    /// The address for notifications, if there are to be any: an empty one means none.
    pub fn active_webhook_url(&self) -> (r: Option<&str>)
        ensures
            match r {
                Some(url) => self@.notification_url() == Some(url@),
                None => self@.notification_url() is None,
            },
    {
        match &self.webhook_url {
            Some(url) => if url.as_str().is_empty() {
                None
            } else {
                Some(url.as_str())
            },
            None => None,
        }
    }
}

// ---- What the user is asked for ----

/// Something that the user is asked for at the start, in this order.
#[derive(Clone, Copy, Debug, PartialEq, Eq, Structural)]
pub enum Prompt {
    Name,
    /// Which flips to enable.
    Flips,
    /// Whether and where to send notifications.
    Webhook,
}

/// What the user answers.
pub enum Answer {
    Name(String),
    Flips { auction_house: bool, bazaar: bool },
    /// The address for notifications, or none if there are to be none.
    Webhook(Option<String>),
}

/// What the user answers, as the contracts speak of it.
#[verifier::ext_equal]
pub enum AnswerView {
    Name(Seq<char>),
    Flips(bool, bool),
    Webhook(Option<Seq<char>>),
}

impl View for Answer {
    type V = AnswerView;

    open spec fn view(&self) -> AnswerView {
        match self {
            Answer::Name(name) => AnswerView::Name(name@),
            Answer::Flips { auction_house, bazaar } => AnswerView::Flips(*auction_house, *bazaar),
            Answer::Webhook(url) => AnswerView::Webhook(opt_text(*url)),
        }
    }
}

impl ConfigView {
    /// The user is asked: for a name that is not set, for the flips where neither kind is enabled,
    /// and for the notifications where nothing has been said of them.
    pub open spec fn needs(self, prompt: Prompt) -> bool {
        match prompt {
            Prompt::Name => self.ingame_name is None,
            Prompt::Flips => !self.enable_ah_flips && !self.enable_bazaar_flips,
            Prompt::Webhook => self.webhook_url is None,
        }
    }

    /// The configuration with what the user answered. That there are to be no notifications is
    /// kept as an empty address, so that the user is not asked again.
    pub open spec fn answered(self, answer: AnswerView) -> ConfigView {
        match answer {
            AnswerView::Name(name) => ConfigView { ingame_name: Some(name), ..self },
            AnswerView::Flips(auction_house, bazaar) => ConfigView {
                enable_ah_flips: auction_house,
                enable_bazaar_flips: bazaar,
                ..self
            },
            AnswerView::Webhook(url) => ConfigView {
                webhook_url: Some(
                    match url {
                        Some(url) => url,
                        None => Seq::empty(),
                    },
                ),
                ..self
            },
        }
    }
}

impl Config {
    /// Whether the user is asked.
    pub fn asks(&self, prompt: Prompt) -> (r: bool)
        ensures
            r == self@.needs(prompt),
    {
        match prompt {
            Prompt::Name => self.ingame_name.is_none(),
            Prompt::Flips => !self.enable_ah_flips && !self.enable_bazaar_flips,
            Prompt::Webhook => self.webhook_url.is_none(),
        }
    }

    /// Keep what the user answered.
    pub fn answer(&mut self, answer: Answer)
        ensures
            final(self)@ == old(self)@.answered(answer@),
    {
        match answer {
            Answer::Name(name) => {
                self.ingame_name = Some(name);
            },
            Answer::Flips { auction_house, bazaar } => {
                self.enable_ah_flips = auction_house;
                self.enable_bazaar_flips = bazaar;
            },
            Answer::Webhook(url) => {
                self.webhook_url = match url {
                    Some(url) => Some(url),
                    None => Some(String::new()),
                };
            },
        }
    }
}

/// A user who has given a name, or has said whether there are to be notifications, is not asked
/// again; and whoever declines notifications gets none.
pub proof fn law_answers_are_kept(config: ConfigView, name: Seq<char>, url: Option<Seq<char>>)
    ensures
        !config.answered(AnswerView::Name(name)).needs(Prompt::Name),
        !config.answered(AnswerView::Webhook(url)).needs(Prompt::Webhook),
        config.answered(AnswerView::Webhook(None)).notification_url() is None,
        url matches Some(u) && u.len() > 0 ==> config.answered(
            AnswerView::Webhook(url),
        ).notification_url() == url,
{
}

// ---- Loading and saving ----

/// What is known of the directory of the executable.
pub enum ExeDir {
    /// The executable stands in a directory.
    Found,
    /// The executable has no directory.
    NoParent,
    /// Where the executable stands cannot be told, for this reason.
    Unknown(String),
}

/// Where the configuration is kept.
#[derive(Clone, Copy, Debug, PartialEq, Eq, Structural)]
pub enum ConfigDir {
    Executable,
    Current,
}

/// Loads and saves the configuration. It is kept beside the executable, so that several instances
/// can run with different configurations, or in the current directory where that is not known.
pub struct ConfigLoader {
    pub dir: ConfigDir,
}

/// Why the configuration could not be loaded or saved.
#[derive(Clone, Copy, Debug, PartialEq, Eq, Structural)]
pub enum ConfigError {
    Read,
    Parse,
    CreateDirectory,
    Serialize,
    Write,
}

impl ConfigError {
    /// The error in words.
    pub open spec fn words(self) -> Seq<char> {
        match self {
            ConfigError::Read => "Failed to read config file"@,
            ConfigError::Parse => "Failed to parse config file"@,
            ConfigError::CreateDirectory => "Failed to create config directory"@,
            ConfigError::Serialize => "Failed to serialize config"@,
            ConfigError::Write => "Failed to write config file"@,
        }
    }

    /// The error in words.
    pub fn message(self) -> (r: &'static str)
        ensures
            r@ == self.words(),
    {
        match self {
            ConfigError::Read => "Failed to read config file",
            ConfigError::Parse => "Failed to parse config file",
            ConfigError::CreateDirectory => "Failed to create config directory",
            ConfigError::Serialize => "Failed to serialize config",
            ConfigError::Write => "Failed to write config file",
        }
    }
}

/// What was found in the place of the configuration file.
pub enum ConfigFile {
    Missing,
    Unreadable,
    Malformed,
    Holds(Config),
}

/// What was found, as the contracts speak of it.
#[verifier::ext_equal]
pub enum ConfigFileView {
    Missing,
    Unreadable,
    Malformed,
    Holds(ConfigView),
}

impl View for ConfigFile {
    type V = ConfigFileView;

    open spec fn view(&self) -> ConfigFileView {
        match self {
            ConfigFile::Missing => ConfigFileView::Missing,
            ConfigFile::Unreadable => ConfigFileView::Unreadable,
            ConfigFile::Malformed => ConfigFileView::Malformed,
            ConfigFile::Holds(config) => ConfigFileView::Holds(config@),
        }
    }
}

/// A configuration that was loaded, and whether it has to be saved because there was none.
pub struct Loaded {
    pub config: Config,
    pub to_be_saved: bool,
}

/// How far a save has come. The directory is created only where the path has one.
#[derive(Clone, Copy, Debug, PartialEq, Eq, Structural)]
pub enum SavePhase {
    CreateDirectory,
    Serialize,
    Write,
    Saved,
}

/// The warning that goes with where the configuration is kept, if one does.
pub open spec fn dir_warning(found: ExeDir) -> Option<Seq<char>> {
    match found {
        ExeDir::Found => None,
        ExeDir::NoParent => Some(
            "Warning: Could not get parent directory of executable, using current directory"@,
        ),
        ExeDir::Unknown(reason) => Some(
            "Warning: Could not get executable path ("@ + reason@ + "), using current directory"@,
        ),
    }
}

/// Where the configuration is kept.
pub open spec fn config_dir(found: ExeDir) -> ConfigDir {
    if found is Found {
        ConfigDir::Executable
    } else {
        ConfigDir::Current
    }
}

/// The phase with which a save begins.
pub open spec fn first_phase(has_parent: bool) -> SavePhase {
    if has_parent {
        SavePhase::CreateDirectory
    } else {
        SavePhase::Serialize
    }
}

/// The name of the configuration file.
pub open spec fn file_name() -> Seq<char> {
    "config.toml"@
}

/// The configuration that is loaded, whether it has to be saved, or why there is none.
pub open spec fn load_result(found: ConfigFileView, default: ConfigView) -> Result<
    (ConfigView, bool),
    ConfigError,
> {
    match found {
        ConfigFileView::Missing => Ok((default, true)),
        ConfigFileView::Unreadable => Err(ConfigError::Read),
        ConfigFileView::Malformed => Err(ConfigError::Parse),
        ConfigFileView::Holds(config) => Ok((config, false)),
    }
}

/// The error of a phase of a save.
pub open spec fn save_error(phase: SavePhase) -> ConfigError {
    match phase {
        SavePhase::CreateDirectory => ConfigError::CreateDirectory,
        SavePhase::Serialize => ConfigError::Serialize,
        _ => ConfigError::Write,
    }
}

/// The phase that follows a phase of a save.
pub open spec fn save_next(phase: SavePhase) -> SavePhase {
    match phase {
        SavePhase::CreateDirectory => SavePhase::Serialize,
        SavePhase::Serialize => SavePhase::Write,
        _ => SavePhase::Saved,
    }
}

impl ConfigLoader {
    /// A loader for the configuration beside the executable, or in the current directory where
    /// that place is not known.
    pub fn new(found: &ExeDir) -> (r: ConfigLoader)
        ensures
            r.dir == config_dir(*found),
    {
        ConfigLoader { dir: ConfigLoader::get_config_path(found).0 }
    }

    /// Where the configuration is kept, and the warning that goes with it.
    pub fn get_config_path(found: &ExeDir) -> (r: (ConfigDir, Option<String>))
        ensures
            r.0 == config_dir(*found),
            opt_text(r.1) == dir_warning(*found),
    {
        match found {
            ExeDir::Found => (ConfigDir::Executable, None),
            ExeDir::NoParent => (
                ConfigDir::Current,
                Some(
                    "Warning: Could not get parent directory of executable, using current directory".to_owned(),
                ),
            ),
            ExeDir::Unknown(reason) => {
                let mut warning = "Warning: Could not get executable path (".to_owned();
                warning.append(reason.as_str());
                warning.append("), using current directory");
                (ConfigDir::Current, Some(warning))
            },
        }
    }

    /// The name of the configuration file.
    pub fn file(&self) -> (r: &'static str)
        ensures
            r@ == file_name(),
    {
        "config.toml"
    }

    /// The configuration, given what was found in its place: the default one, to be saved, where
    /// there is no file yet.
    pub fn load(&self, found: ConfigFile, default: Config) -> (r: Result<Loaded, ConfigError>)
        ensures
            match r {
                Ok(loaded) => load_result(found@, default@) == Ok::<(ConfigView, bool), ConfigError>(
                    (loaded.config@, loaded.to_be_saved),
                ),
                Err(e) => load_result(found@, default@) == Err::<(ConfigView, bool), ConfigError>(
                    e,
                ),
            },
    {
        match found {
            ConfigFile::Missing => Ok(Loaded { config: default, to_be_saved: true }),
            ConfigFile::Unreadable => Err(ConfigError::Read),
            ConfigFile::Malformed => Err(ConfigError::Parse),
            ConfigFile::Holds(config) => Ok(Loaded { config, to_be_saved: false }),
        }
    }

    /// The phase with which a save begins: a path without a directory needs none.
    pub fn begin_save(&self, has_parent: bool) -> (r: SavePhase)
        ensures
            r == first_phase(has_parent),
    {
        if has_parent {
            SavePhase::CreateDirectory
        } else {
            SavePhase::Serialize
        }
    }

    /// The phase that follows a phase of a save that has succeeded, or the error of one that has
    /// not.
    pub fn save(&self, phase: SavePhase, succeeded: bool) -> (r: Result<SavePhase, ConfigError>)
        ensures
            r == (if succeeded {
                Ok::<SavePhase, ConfigError>(save_next(phase))
            } else {
                Err::<SavePhase, ConfigError>(save_error(phase))
            }),
    {
        match (phase, succeeded) {
            (SavePhase::CreateDirectory, true) => Ok(SavePhase::Serialize),
            (SavePhase::Serialize, true) => Ok(SavePhase::Write),
            (_, true) => Ok(SavePhase::Saved),
            (SavePhase::CreateDirectory, false) => Err(ConfigError::CreateDirectory),
            (SavePhase::Serialize, false) => Err(ConfigError::Serialize),
            (_, false) => Err(ConfigError::Write),
        }
    }

    /// The configurations to be saved to update it: the default one first, where there was none,
    /// and then the updated one. Nothing is updated where nothing could be loaded.
    pub fn update_property<F: FnOnce(Config) -> Config>(
        &self,
        found: ConfigFile,
        default: Config,
        updater: F,
    ) -> (r: Result<(Option<Config>, Config), ConfigError>)
        requires
            forall|config: Config| #[trigger] call_requires(updater, (config,)),
        ensures
            match load_result(found@, default@) {
                Ok((config, created)) => r matches Ok((first, updated)) && (first is Some
                    <==> created) && (first matches Some(saved) ==> saved@ == config) && (exists|
                    loaded: Config|
                    #![auto]
                    loaded@ == config && call_ensures(updater, (loaded,), updated)),
                Err(e) => r == Err::<(Option<Config>, Config), ConfigError>(e),
            },
    {
        match self.load(found, default) {
            Ok(loaded) => {
                let first = if loaded.to_be_saved {
                    Some(loaded.config.copy())
                } else {
                    None
                };
                let config = loaded.config;
                let updated = updater(config);
                Ok((first, updated))
            },
            Err(e) => Err(e),
        }
    }
}

/// Saving succeeds exactly when each of its phases does, and reports the first that fails.
pub proof fn law_save_reports_the_first_failure()
    ensures
        save_next(save_next(save_next(SavePhase::CreateDirectory))) is Saved,
        save_next(save_next(SavePhase::Serialize)) is Saved,
        save_error(SavePhase::CreateDirectory) is CreateDirectory,
        save_error(save_next(SavePhase::CreateDirectory)) is Serialize,
        save_error(save_next(SavePhase::Serialize)) is Write,
{
}

/// A configuration is loaded as it stands in its file, and only where there is no file is the
/// default one loaded, and then saved. A file that cannot be read, or that says nothing sensible, is
/// an error, and no configuration comes of it.
pub proof fn law_configuration_is_loaded_as_it_stands(config: ConfigView, default: ConfigView)
    ensures
        load_result(ConfigFileView::Holds(config), default) == Ok::<(ConfigView, bool), ConfigError>(
            (config, false),
        ),
        load_result(ConfigFileView::Missing, default) == Ok::<(ConfigView, bool), ConfigError>(
            (default, true),
        ),
        load_result(ConfigFileView::Unreadable, default) == Err::<(ConfigView, bool), ConfigError>(
            ConfigError::Read,
        ),
        load_result(ConfigFileView::Malformed, default) == Err::<(ConfigView, bool), ConfigError>(
            ConfigError::Parse,
        ),
{
}

/// An answer is kept as it was given and changes nothing else; the user is asked only for what is
/// not known, and for the flips until at least one kind is enabled.
pub proof fn law_only_what_is_not_known_is_asked(
    config: ConfigView,
    name: Seq<char>,
    auction_house: bool,
    bazaar: bool,
    url: Option<Seq<char>>,
)
    ensures
        config.needs(Prompt::Name) <==> config.ingame_name is None,
        config.needs(Prompt::Flips) <==> !(config.enable_ah_flips || config.enable_bazaar_flips),
        config.needs(Prompt::Webhook) <==> config.webhook_url is None,
        config.answered(AnswerView::Name(name)) == (ConfigView {
            ingame_name: Some(name),
            ..config
        }),
        ({
            let after = config.answered(AnswerView::Flips(auction_house, bazaar));
            &&& after.enable_ah_flips == auction_house
            &&& after.enable_bazaar_flips == bazaar
            &&& after == (ConfigView {
                enable_ah_flips: after.enable_ah_flips,
                enable_bazaar_flips: after.enable_bazaar_flips,
                ..config
            })
        }),
        ({
            let after = config.answered(AnswerView::Webhook(url));
            after == (ConfigView { webhook_url: after.webhook_url, ..config })
        }),
        config.notification_url() matches Some(address) ==> config.webhook_url == Some(address)
            && address.len() > 0,
{
}

/// The configuration is kept beside the executable wherever that place is known, without a warning,
/// and otherwise in the current directory, with one. A directory is created only where the path has
/// one, and always before anything is written; nothing is skipped.
pub proof fn law_configuration_has_its_place(found: ExeDir, has_parent: bool)
    ensures
        config_dir(found) is Executable <==> found is Found,
        dir_warning(found) is None <==> found is Found,
        has_parent ==> first_phase(has_parent) is CreateDirectory && save_next(
            first_phase(has_parent),
        ) is Serialize,
        !has_parent ==> first_phase(has_parent) is Serialize,
        save_next(SavePhase::Serialize) is Write,
        save_next(SavePhase::Write) is Saved,
        save_error(SavePhase::Write) is Write,
        ConfigError::Read.words() == "Failed to read config file"@,
        ConfigError::Parse.words() == "Failed to parse config file"@,
        ConfigError::CreateDirectory.words() == "Failed to create config directory"@,
        ConfigError::Serialize.words() == "Failed to serialize config"@,
        ConfigError::Write.words() == "Failed to write config file"@,
        file_name() == "config.toml"@,
{
}

} // verus!
