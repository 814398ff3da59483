//! The user configuration: its fields and defaults, the keys the command
//! line reads and writes them by, and where the program keeps its files.
//!
//! Reading and writing `config.toml` is the program's job; here are the
//! values and the rules for changing them.

use vstd::prelude::*;

use crate::hotkey::{key_code_of, parse_key, unknown_key_message, HotkeyError};
use crate::text::{
    decimal, join_path, join_spec, lemma_parse_decimal_roundtrip, parse_u64, parse_u64_spec, str_eq,
    u64_to_decimal,
};

verus! {

/// How the hotkey drives recording.
#[derive(Debug, Clone, Copy, PartialEq, Eq, Structural)]
pub enum HotkeyMode {
    /// Hold to record, release to transcribe.
    PushToTalk,
    /// Press once to start, press again to stop.
    Toggle,
}

#[derive(Debug, Clone)]
pub struct HotkeyConfig {
    /// Key name as understood by evdev, with or without the KEY_ prefix (e.g. "F12").
    pub key: String,
    pub mode: HotkeyMode,
}

#[derive(Debug, Clone)]
pub struct AudioConfig {
    /// "default" or an exact input device name.
    pub device: String,
    /// Safety cap for stuck keys / forgotten recordings.
    pub max_recording_secs: u64,
}

#[derive(Debug, Clone)]
pub struct WhisperConfig {
    /// ggml model name: tiny, base, small, medium, large-v3...
    pub model: String,
    /// "auto" for detection, or a fixed code like "pt"/"en".
    pub language: String,
}

#[derive(Debug, Clone)]
pub struct Config {
    pub hotkey: HotkeyConfig,
    pub audio: AudioConfig,
    pub whisper: WhisperConfig,
}

/// A configuration as plain values.
pub struct ConfigView {
    pub key: Seq<char>,
    pub mode: HotkeyMode,
    pub device: Seq<char>,
    pub max_recording_secs: u64,
    pub model: Seq<char>,
    pub language: Seq<char>,
}

impl View for Config {
    type V = ConfigView;

    open spec fn view(&self) -> ConfigView {
        ConfigView {
            key: self.hotkey.key@,
            mode: self.hotkey.mode,
            device: self.audio.device@,
            max_recording_secs: self.audio.max_recording_secs,
            model: self.whisper.model@,
            language: self.whisper.language@,
        }
    }
}

impl Default for HotkeyConfig {
    fn default() -> (r: Self)
        ensures
            r.key@ == "F12"@,
            r.mode == HotkeyMode::PushToTalk,
    {
        HotkeyConfig { key: String::from_str("F12"), mode: HotkeyMode::PushToTalk }
    }
}

impl Default for AudioConfig {
    fn default() -> (r: Self)
        ensures
            r.device@ == "default"@,
            r.max_recording_secs == 120,
    {
        AudioConfig { device: String::from_str("default"), max_recording_secs: 120 }
    }
}

impl Default for WhisperConfig {
    fn default() -> (r: Self)
        ensures
            r.model@ == "small"@,
            r.language@ == "pt"@,
    {
        WhisperConfig { model: String::from_str("small"), language: String::from_str("pt") }
    }
}

/// The configuration written on first run.
pub open spec fn default_config() -> ConfigView {
    ConfigView {
        key: "F12"@,
        mode: HotkeyMode::PushToTalk,
        device: "default"@,
        max_recording_secs: 120,
        model: "small"@,
        language: "pt"@,
    }
}

impl Default for Config {
    fn default() -> (r: Self)
        ensures
            r@ == default_config(),
    {
        Config {
            hotkey: HotkeyConfig::default(),
            audio: AudioConfig::default(),
            whisper: WhisperConfig::default(),
        }
    }
}

/// The configuration fields that the command line can read and change.
#[derive(Debug, Clone, Copy, PartialEq, Eq, Structural)]
pub enum ConfigKey {
    HotkeyKey,
    HotkeyMode,
    AudioDevice,
    AudioMaxRecordingSecs,
    WhisperModel,
    WhisperLanguage,
}

/// Why a configuration request was refused.
#[derive(Debug, Clone)]
pub enum ConfigError {
    /// The key names no configuration field.
    UnknownKey { key: String },
    /// The hotkey name is not a key evdev knows.
    InvalidHotkey { value: String },
    /// The mode is neither `push-to-talk` nor `toggle`.
    InvalidMode { value: String },
    /// The maximum recording time is not a number of seconds.
    InvalidSeconds { value: String },
    /// The language is neither `auto` nor a code whisper knows.
    InvalidLanguage { value: String },
    /// The user's directories could not be resolved (no home directory).
    NoHomeDirectory,
    /// The user's directories are not valid UTF-8.
    NonUtf8Path,
}

/// The message shown for a configuration error.
pub open spec fn config_error_message(e: ConfigError) -> Seq<char> {
    match e {
        ConfigError::UnknownKey { key } => "chave desconhecida '"@ + key@
            + "'. Válidas: key, mode, device, max_recording_secs, model, language"@,
        ConfigError::InvalidHotkey { value } => unknown_key_message(value@),
        ConfigError::InvalidMode { value } => "modo inválido '"@ + value@
            + "' (use push-to-talk ou toggle)"@,
        ConfigError::InvalidSeconds { .. } => "max_recording_secs deve ser um número de segundos"@,
        ConfigError::InvalidLanguage { value } => "idioma inválido '"@ + value@
            + "' (use um código como pt/en/es, ou auto)"@,
        ConfigError::NoHomeDirectory => "não foi possível resolver os diretórios do usuário (HOME ausente?)"@,
        ConfigError::NonUtf8Path => "os diretórios do usuário não são UTF-8 válido"@,
    }
}

fn quoted(before: &str, value: &String, after: &str) -> (r: String)
    ensures
        r@ == before@ + value@ + after@,
{
    let mut r = String::from_str(before);
    r.append(value.as_str());
    r.append(after);
    r
}

impl ConfigError {
    /// The message shown to the user.
    pub fn message(&self) -> (r: String)
        ensures
            r@ == config_error_message(*self),
    {
        match self {
            ConfigError::UnknownKey { key } => quoted(
                "chave desconhecida '",
                key,
                "'. Válidas: key, mode, device, max_recording_secs, model, language",
            ),
            ConfigError::InvalidHotkey { value } => {
                HotkeyError::UnknownKey { name: value.clone() }.message()
            },
            ConfigError::InvalidMode { value } => quoted(
                "modo inválido '",
                value,
                "' (use push-to-talk ou toggle)",
            ),
            ConfigError::InvalidSeconds { .. } => String::from_str(
                "max_recording_secs deve ser um número de segundos",
            ),
            ConfigError::InvalidLanguage { value } => quoted(
                "idioma inválido '",
                value,
                "' (use um código como pt/en/es, ou auto)",
            ),
            ConfigError::NoHomeDirectory => String::from_str(
                "não foi possível resolver os diretórios do usuário (HOME ausente?)",
            ),
            ConfigError::NonUtf8Path => String::from_str(
                "os diretórios do usuário não são UTF-8 válido",
            ),
        }
    }
}

/// The field a command-line key names: the full dotted path or its
/// shorthand (`lang` too for the language).
pub open spec fn canonical_key_spec(k: Seq<char>) -> Option<ConfigKey> {
    if k == "hotkey.key"@ || k == "key"@ {
        Some(ConfigKey::HotkeyKey)
    } else if k == "hotkey.mode"@ || k == "mode"@ {
        Some(ConfigKey::HotkeyMode)
    } else if k == "audio.device"@ || k == "device"@ {
        Some(ConfigKey::AudioDevice)
    } else if k == "audio.max_recording_secs"@ || k == "max_recording_secs"@ {
        Some(ConfigKey::AudioMaxRecordingSecs)
    } else if k == "whisper.model"@ || k == "model"@ {
        Some(ConfigKey::WhisperModel)
    } else if k == "whisper.language"@ || k == "language"@ || k == "lang"@ {
        Some(ConfigKey::WhisperLanguage)
    } else {
        None
    }
}

/// Resolves a command-line key (dotted path or shorthand) to its field.
pub fn canonical_key(key: &str) -> (r: Result<ConfigKey, ConfigError>)
    ensures
        canonical_key_spec(key@) is Some <==> r is Ok,
        r matches Ok(k) ==> canonical_key_spec(key@) == Some(k),
        r matches Err(e) ==> e matches ConfigError::UnknownKey { key: k } && k@ == key@,
{
    if str_eq(key, "hotkey.key") || str_eq(key, "key") {
        Ok(ConfigKey::HotkeyKey)
    } else if str_eq(key, "hotkey.mode") || str_eq(key, "mode") {
        Ok(ConfigKey::HotkeyMode)
    } else if str_eq(key, "audio.device") || str_eq(key, "device") {
        Ok(ConfigKey::AudioDevice)
    } else if str_eq(key, "audio.max_recording_secs") || str_eq(key, "max_recording_secs") {
        Ok(ConfigKey::AudioMaxRecordingSecs)
    } else if str_eq(key, "whisper.model") || str_eq(key, "model") {
        Ok(ConfigKey::WhisperModel)
    } else if str_eq(key, "whisper.language") || str_eq(key, "language") || str_eq(key, "lang") {
        Ok(ConfigKey::WhisperLanguage)
    } else {
        Err(ConfigError::UnknownKey { key: String::from_str(key) })
    }
}

/// How a hotkey mode is written in the configuration.
pub open spec fn mode_text(m: HotkeyMode) -> Seq<char> {
    match m {
        HotkeyMode::PushToTalk => "push-to-talk"@,
        HotkeyMode::Toggle => "toggle"@,
    }
}

/// The text `get_by_key` shows for a field.
pub open spec fn value_text(c: ConfigView, k: ConfigKey) -> Seq<char> {
    match k {
        ConfigKey::HotkeyKey => c.key,
        ConfigKey::HotkeyMode => mode_text(c.mode),
        ConfigKey::AudioDevice => c.device,
        ConfigKey::AudioMaxRecordingSecs => decimal(c.max_recording_secs as nat),
        ConfigKey::WhisperModel => c.model,
        ConfigKey::WhisperLanguage => c.language,
    }
}

/// The hotkey mode a text names, if any.
pub open spec fn mode_from_text(v: Seq<char>) -> Option<HotkeyMode> {
    if v == "push-to-talk"@ {
        Some(HotkeyMode::PushToTalk)
    } else if v == "toggle"@ {
        Some(HotkeyMode::Toggle)
    } else {
        None
    }
}

/// The configuration after setting field `k` to `v`, or `None` where the
/// value is refused. `language_known` says whether whisper knows `v` as a
/// language code.
pub open spec fn set_spec(c: ConfigView, k: ConfigKey, v: Seq<char>, language_known: bool) -> Option<
    ConfigView,
> {
    match k {
        ConfigKey::HotkeyKey => if key_code_of(v) is Some {
            Some(ConfigView { key: v, ..c })
        } else {
            None
        },
        ConfigKey::HotkeyMode => match mode_from_text(v) {
            Some(m) => Some(ConfigView { mode: m, ..c }),
            None => None,
        },
        ConfigKey::AudioDevice => Some(ConfigView { device: v, ..c }),
        ConfigKey::AudioMaxRecordingSecs => match parse_u64_spec(v) {
            Some(n) => Some(ConfigView { max_recording_secs: n, ..c }),
            None => None,
        },
        ConfigKey::WhisperModel => Some(ConfigView { model: v, ..c }),
        ConfigKey::WhisperLanguage => if v == "auto"@ || language_known {
            Some(ConfigView { language: v, ..c })
        } else {
            None
        },
    }
}

/// The error with which setting field `k` to `v` is refused.
pub open spec fn set_error_matches(e: ConfigError, k: ConfigKey, v: Seq<char>) -> bool {
    match k {
        ConfigKey::HotkeyKey => e matches ConfigError::InvalidHotkey { value } && value@ == v,
        ConfigKey::HotkeyMode => e matches ConfigError::InvalidMode { value } && value@ == v,
        ConfigKey::AudioMaxRecordingSecs => e matches ConfigError::InvalidSeconds { value }
            && value@ == v,
        ConfigKey::WhisperLanguage => e matches ConfigError::InvalidLanguage { value } && value@
            == v,
        _ => false,
    }
}

impl Config {
    /// Resolves a command-line key (dotted path or shorthand) and returns
    /// its value as text.
    pub fn get_by_key(&self, key: &str) -> (r: Result<String, ConfigError>)
        ensures
            match canonical_key_spec(key@) {
                Some(k) => r matches Ok(v) && v@ == value_text(self@, k),
                None => r matches Err(ConfigError::UnknownKey { key: k }) && k@ == key@,
            },
    {
        let k = canonical_key(key)?;
        let v = match k {
            ConfigKey::HotkeyKey => self.hotkey.key.clone(),
            ConfigKey::HotkeyMode => match self.hotkey.mode {
                HotkeyMode::PushToTalk => String::from_str("push-to-talk"),
                HotkeyMode::Toggle => String::from_str("toggle"),
            },
            ConfigKey::AudioDevice => self.audio.device.clone(),
            ConfigKey::AudioMaxRecordingSecs => u64_to_decimal(self.audio.max_recording_secs),
            ConfigKey::WhisperModel => self.whisper.model.clone(),
            ConfigKey::WhisperLanguage => self.whisper.language.clone(),
        };
        Ok(v)
    }

    /// Sets a field from command-line text, validating the value for that
    /// field: the hotkey must be a key evdev knows, the mode `push-to-talk`
    /// or `toggle`, the maximum recording time a number of seconds, and the
    /// language `auto` or a code whisper knows. `language_known` is whether
    /// whisper knows `value` as a language code (`whisper_rs::get_lang_id`);
    /// it is consulted for the language only. A refused request leaves the
    /// configuration as it was.
    pub fn set_by_key(&mut self, key: &str, value: &str, language_known: bool) -> (r: Result<
        (),
        ConfigError,
    >)
        ensures
            match canonical_key_spec(key@) {
                None => r matches Err(ConfigError::UnknownKey { key: k }) && k@ == key@,
                Some(k) => match set_spec(old(self)@, k, value@, language_known) {
                    Some(c) => r is Ok && final(self)@ == c,
                    None => r matches Err(e) && set_error_matches(e, k, value@),
                },
            },
            r is Err ==> final(self)@ == old(self)@,
    {
        let k = canonical_key(key)?;
        match k {
            ConfigKey::HotkeyKey => {
                match parse_key(value) {
                    Ok(_) => {
                        self.hotkey.key = String::from_str(value);
                    },
                    Err(_) => {
                        return Err(ConfigError::InvalidHotkey { value: String::from_str(value) });
                    },
                }
            },
            ConfigKey::HotkeyMode => {
                if str_eq(value, "push-to-talk") {
                    self.hotkey.mode = HotkeyMode::PushToTalk;
                } else if str_eq(value, "toggle") {
                    self.hotkey.mode = HotkeyMode::Toggle;
                } else {
                    return Err(ConfigError::InvalidMode { value: String::from_str(value) });
                }
            },
            ConfigKey::AudioDevice => {
                self.audio.device = String::from_str(value);
            },
            ConfigKey::AudioMaxRecordingSecs => {
                match parse_u64(value) {
                    Some(n) => {
                        self.audio.max_recording_secs = n;
                    },
                    None => {
                        return Err(ConfigError::InvalidSeconds { value: String::from_str(value) });
                    },
                }
            },
            ConfigKey::WhisperModel => {
                self.whisper.model = String::from_str(value);
            },
            ConfigKey::WhisperLanguage => {
                if str_eq(value, "auto") || language_known {
                    self.whisper.language = String::from_str(value);
                } else {
                    return Err(ConfigError::InvalidLanguage { value: String::from_str(value) });
                }
            },
        }
        Ok(())
    }
}


// ---------------------------------------------------------------------------
// Laws of reading and changing the configuration
// ---------------------------------------------------------------------------

/// What `get_by_key` shows of a field right after `set_by_key` accepted
/// `v` for it: `v` itself, except that a number of seconds is shown in its
/// shortest decimal form (`+042` reads back as `42`).
pub proof fn lemma_get_after_set(c: ConfigView, k: ConfigKey, v: Seq<char>, language_known: bool)
    requires
        set_spec(c, k, v, language_known) is Some,
    ensures
        ({
            let c2 = set_spec(c, k, v, language_known).unwrap();
            value_text(c2, k) == (if k == ConfigKey::AudioMaxRecordingSecs {
                decimal(parse_u64_spec(v).unwrap() as nat)
            } else {
                v
            })
        }),
{
    if k == ConfigKey::HotkeyMode {
        reveal_strlit("push-to-talk");
        reveal_strlit("toggle");
    }
}

/// Which values each field accepts: a language exactly when it is `auto`
/// or a code whisper knows; a mode exactly when it is `push-to-talk` or
/// `toggle`; a number of seconds exactly when it reads as a `u64`; a hotkey
/// exactly when evdev knows the key; a device or a model always. An
/// accepted value is what the field then holds.
pub proof fn lemma_which_values_are_accepted(c: ConfigView, v: Seq<char>, language_known: bool)
    ensures
        set_spec(c, ConfigKey::WhisperLanguage, v, language_known) is Some <==> (v == "auto"@
            || language_known),
        set_spec(c, ConfigKey::WhisperLanguage, v, language_known) matches Some(c2) ==> c2.language
            == v,
        set_spec(c, ConfigKey::HotkeyMode, v, language_known) is Some <==> (v == "push-to-talk"@
            || v == "toggle"@),
        set_spec(c, ConfigKey::AudioMaxRecordingSecs, v, language_known) is Some <==> parse_u64_spec(
            v,
        ) is Some,
        set_spec(c, ConfigKey::HotkeyKey, v, language_known) is Some <==> key_code_of(v) is Some,
        set_spec(c, ConfigKey::AudioDevice, v, language_known) == Some(ConfigView { device: v, ..c }),
        set_spec(c, ConfigKey::WhisperModel, v, language_known) == Some(ConfigView { model: v, ..c }),
{
}

/// Setting one field leaves every other field as it was.
pub proof fn lemma_set_changes_one_field(
    c: ConfigView,
    k: ConfigKey,
    v: Seq<char>,
    language_known: bool,
    other: ConfigKey,
)
    requires
        set_spec(c, k, v, language_known) is Some,
        other != k,
    ensures
        value_text(set_spec(c, k, v, language_known).unwrap(), other) == value_text(c, other),
{
}

/// Setting a field to the value `get_by_key` shows for it, where that is
/// accepted, changes nothing.
pub proof fn lemma_set_shown_value_changes_nothing(
    c: ConfigView,
    k: ConfigKey,
    language_known: bool,
)
    requires
        set_spec(c, k, value_text(c, k), language_known) is Some,
    ensures
        set_spec(c, k, value_text(c, k), language_known).unwrap() == c,
{
    if k == ConfigKey::HotkeyMode {
        reveal_strlit("push-to-talk");
        reveal_strlit("toggle");
    }
    if k == ConfigKey::AudioMaxRecordingSecs {
        lemma_parse_decimal_roundtrip(c.max_recording_secs);
    }
}

// ---------------------------------------------------------------------------
// Where the program keeps its files
// ---------------------------------------------------------------------------

/// The user's directories for a program, as text.
#[derive(Debug, Clone)]
pub struct UserDirs {
    /// Where the program's configuration lives.
    pub config_dir: String,
    /// Where the program's data (models, history) lives.
    pub data_dir: String,
}

/// The directory name `directories` makes of an application name: the
/// name's white-space separated words, lowercased and put together. A
/// function of the name alone.
pub uninterp spec fn project_fragment(application: Seq<char>) -> Seq<char>;

/// Whether a name is made of lowercase ASCII letters only: `directories`
/// keeps such a name as it is.
pub open spec fn is_lowercase_word(name: Seq<char>) -> bool {
    forall|i: int| 0 <= i < name.len() ==> 'a' <= #[trigger] name[i] && name[i] <= 'z'
}

/// Whether a path is absolute (on Unix: it begins with `/`).
pub open spec fn is_absolute(p: Seq<char>) -> bool {
    p.len() > 0 && p[0] == '/'
}

/// Where configuration directories are made: `$XDG_CONFIG_HOME` when it is
/// an absolute path, else `.config` in the home directory.
pub open spec fn is_config_home(b: Seq<char>) -> bool {
    is_absolute(b) || exists|home: Seq<char>| b == join_spec(home, ".config"@)
}

/// Where data directories are made: `$XDG_DATA_HOME` when it is an absolute
/// path, else `.local/share` in the home directory.
pub open spec fn is_data_home(b: Seq<char>) -> bool {
    is_absolute(b) || exists|home: Seq<char>| b == join_spec(home, ".local/share"@)
}

/// Whether `dir` is a configuration directory for the project fragment
/// `fragment`: the fragment joined onto a configuration home.
pub open spec fn is_config_dir_of(dir: Seq<char>, fragment: Seq<char>) -> bool {
    exists|b: Seq<char>| is_config_home(b) && dir == join_spec(b, fragment)
}

/// Whether `dir` is a data directory for the project fragment `fragment`:
/// the fragment joined onto a data home.
pub open spec fn is_data_dir_of(dir: Seq<char>, fragment: Seq<char>) -> bool {
    exists|b: Seq<char>| is_data_home(b) && dir == join_spec(b, fragment)
}

/// `directories::ProjectDirs::from(qualifier, organization, application)`,
/// with its configuration and data directories taken as text (`None` for
/// one that is not UTF-8). `None` where no home directory can be found. The
/// project fragment of a name of lowercase ASCII letters is the name itself
/// (one word, already lowercase).
/// Which home and which XDG variables are set rests on the environment; what
/// holds of every outcome is the layout `directories` builds on Linux: the
/// project fragment joined onto `$XDG_CONFIG_HOME` (when absolute) or
/// `$HOME/.config`, and onto `$XDG_DATA_HOME` (when absolute) or
/// `$HOME/.local/share`.
#[verifier::external_body]
fn project_dirs_from(qualifier: &str, organization: &str, application: &str) -> (r: Option<
    (Option<String>, Option<String>),
>)
    ensures
        r matches Some((c, d)) ==> (c matches Some(s) ==> is_config_dir_of(
            s@,
            project_fragment(application@),
        )) && (d matches Some(s) ==> is_data_dir_of(s@, project_fragment(application@))),
        r is Some ==> (is_lowercase_word(application@) ==> project_fragment(application@)
            == application@),
{
    match directories::ProjectDirs::from(qualifier, organization, application) {
        Some(p) => Some((
            p.config_dir().to_str().map(str::to_owned),
            p.data_dir().to_str().map(str::to_owned),
        )),
        None => None,
    }
}

/// The directory name the program's directories end in: `quickwhisper`.
pub open spec fn program_fragment() -> Seq<char> {
    "quickwhisper"@
}

/// Whether `d` holds the program's configuration and data directories.
pub open spec fn are_program_dirs(d: UserDirs) -> bool {
    is_config_dir_of(d.config_dir@, program_fragment()) && is_data_dir_of(d.data_dir@, program_fragment())
}

/// What the directory lookup for the program found: `None` without a home
/// directory, else the configuration and the data directory as text (`None`
/// for one that is not UTF-8).
pub type FoundDirs = Option<(Option<String>, Option<String>)>;

/// Whether what the lookup found has the program's layout.
pub open spec fn found_has_program_layout(found: FoundDirs) -> bool {
    found matches Some((c, d)) ==> (c matches Some(s) ==> is_config_dir_of(s@, program_fragment()))
        && (d matches Some(s) ==> is_data_dir_of(s@, program_fragment()))
}

/// Looks up the program's directories: `directories` asked for the
/// application `quickwhisper`.
fn lookup_program_dirs() -> (found: FoundDirs)
    ensures
        found_has_program_layout(found),
{
    let found = project_dirs_from("", "", "quickwhisper");
    proof {
        reveal_strlit("quickwhisper");
        if found is Some {
            assert(is_lowercase_word("quickwhisper"@));
            assert(project_fragment("quickwhisper"@) == program_fragment());
        }
    }
    found
}

/// Both directories from what the lookup found: `NoHomeDirectory` without a
/// home directory, `NonUtf8Path` when either directory is not UTF-8, else
/// the two directories.
pub fn dirs_from_found(found: FoundDirs) -> (r: Result<UserDirs, ConfigError>)
    ensures
        match found {
            None => r matches Err(ConfigError::NoHomeDirectory),
            Some((Some(c), Some(d))) => r matches Ok(u) && u.config_dir@ == c@ && u.data_dir@ == d@,
            Some(_) => r matches Err(ConfigError::NonUtf8Path),
        },
{
    match found {
        None => Err(ConfigError::NoHomeDirectory),
        Some((Some(config_dir), Some(data_dir))) => Ok(UserDirs { config_dir, data_dir }),
        Some(_) => Err(ConfigError::NonUtf8Path),
    }
}

/// The configuration directory from what the lookup found:
/// `NoHomeDirectory` without a home directory, `NonUtf8Path` when that
/// directory is not UTF-8, else the directory (the data directory plays no
/// part).
pub fn config_dir_from_found(found: FoundDirs) -> (r: Result<String, ConfigError>)
    ensures
        match found {
            None => r matches Err(ConfigError::NoHomeDirectory),
            Some((Some(c), _)) => r matches Ok(u) && u@ == c@,
            Some((None, _)) => r matches Err(ConfigError::NonUtf8Path),
        },
{
    match found {
        None => Err(ConfigError::NoHomeDirectory),
        Some((Some(config_dir), _)) => Ok(config_dir),
        Some((None, _)) => Err(ConfigError::NonUtf8Path),
    }
}

/// The data directory from what the lookup found: `NoHomeDirectory` without
/// a home directory, `NonUtf8Path` when that directory is not UTF-8, else
/// the directory (the configuration directory plays no part).
pub fn data_dir_from_found(found: FoundDirs) -> (r: Result<String, ConfigError>)
    ensures
        match found {
            None => r matches Err(ConfigError::NoHomeDirectory),
            Some((_, Some(d))) => r matches Ok(u) && u@ == d@,
            Some((_, None)) => r matches Err(ConfigError::NonUtf8Path),
        },
{
    match found {
        None => Err(ConfigError::NoHomeDirectory),
        Some((_, Some(data_dir))) => Ok(data_dir),
        Some((_, None)) => Err(ConfigError::NonUtf8Path),
    }
}

/// The program's configuration and data directories: those `directories`
/// gives for the application `quickwhisper`. Fails with `NoHomeDirectory`
/// where no home directory can be found and with `NonUtf8Path` where a
/// directory is not UTF-8 (see `dirs_from_found`).
pub fn program_dirs() -> (r: Result<UserDirs, ConfigError>)
    ensures
        r matches Ok(d) ==> are_program_dirs(d),
        r matches Err(e) ==> e is NoHomeDirectory || e is NonUtf8Path,
{
    dirs_from_found(lookup_program_dirs())
}

/// The configuration file in the given directories.
pub open spec fn config_path_spec(config_dir: Seq<char>) -> Seq<char> {
    join_spec(config_dir, "config.toml"@)
}

/// The models directory in the given data directory.
pub open spec fn models_dir_spec(data_dir: Seq<char>) -> Seq<char> {
    join_spec(data_dir, "models"@)
}

/// The history database in the given data directory.
pub open spec fn history_db_path_spec(data_dir: Seq<char>) -> Seq<char> {
    join_spec(data_dir, "history.db"@)
}

/// `config.toml` in the configuration directory `config_dir`.
pub fn config_path_in(config_dir: &str) -> (r: String)
    ensures
        r@ == config_path_spec(config_dir@),
{
    join_path(config_dir, "config.toml")
}

/// `models` in the data directory `data_dir`.
pub fn models_dir_in(data_dir: &str) -> (r: String)
    ensures
        r@ == models_dir_spec(data_dir@),
{
    join_path(data_dir, "models")
}

/// `history.db` in the data directory `data_dir`.
pub fn history_db_path_in(data_dir: &str) -> (r: String)
    ensures
        r@ == history_db_path_spec(data_dir@),
{
    join_path(data_dir, "history.db")
}

/// Whether `p` is the program's configuration file.
pub open spec fn is_program_config_path(p: Seq<char>) -> bool {
    exists|c: Seq<char>| is_config_dir_of(c, program_fragment()) && p == config_path_spec(c)
}

/// Whether `p` is the program's models directory.
pub open spec fn is_program_models_dir(p: Seq<char>) -> bool {
    exists|d: Seq<char>| is_data_dir_of(d, program_fragment()) && p == models_dir_spec(d)
}

/// Whether `p` is the program's history database.
pub open spec fn is_program_history_db(p: Seq<char>) -> bool {
    exists|d: Seq<char>| is_data_dir_of(d, program_fragment()) && p == history_db_path_spec(d)
}

/// The configuration file: `config.toml` in the user's configuration
/// directory for the program (see `config_dir_from_found` for when it
/// fails; the data directory plays no part).
pub fn config_path() -> (r: Result<String, ConfigError>)
    ensures
        r matches Ok(p) ==> is_program_config_path(p@),
        r matches Err(e) ==> e is NoHomeDirectory || e is NonUtf8Path,
{
    let dir = config_dir_from_found(lookup_program_dirs())?;
    let p = config_path_in(dir.as_str());
    assert(is_config_dir_of(dir@, program_fragment()) && p@ == config_path_spec(dir@));
    Ok(p)
}

/// Where downloaded whisper models are kept: `models` in the user's data
/// directory for the program (see `data_dir_from_found` for when it fails).
pub fn models_dir() -> (r: Result<String, ConfigError>)
    ensures
        r matches Ok(p) ==> is_program_models_dir(p@),
        r matches Err(e) ==> e is NoHomeDirectory || e is NonUtf8Path,
{
    let dir = data_dir_from_found(lookup_program_dirs())?;
    let p = models_dir_in(dir.as_str());
    assert(is_data_dir_of(dir@, program_fragment()) && p@ == models_dir_spec(dir@));
    Ok(p)
}

/// The transcription history database: `history.db` in the user's data
/// directory for the program (see `data_dir_from_found` for when it fails).
pub fn history_db_path() -> (r: Result<String, ConfigError>)
    ensures
        r matches Ok(p) ==> is_program_history_db(p@),
        r matches Err(e) ==> e is NoHomeDirectory || e is NonUtf8Path,
{
    let dir = data_dir_from_found(lookup_program_dirs())?;
    let p = history_db_path_in(dir.as_str());
    assert(is_data_dir_of(dir@, program_fragment()) && p@ == history_db_path_spec(dir@));
    Ok(p)
}

} // verus!
