//! The launcher's configuration: the install path and language, read from the
//! `[game]` section of an INI document.

use vstd::prelude::*;

verus! {

/// A parsed INI document of rust-ini, opaque here.
#[verifier::external_type_specification]
#[verifier::external_body]
pub struct ExIni(ini::Ini);

/// rust-ini's parse error, opaque here.
#[verifier::external_type_specification]
#[verifier::external_body]
pub struct ExParseError(ini::ParseError);

/// What a parsed INI document holds: its named sections, and the value of
/// each (section, key).
pub type IniModel = (Set<Seq<char>>, Map<(Seq<char>, Seq<char>), Seq<char>>);

/// What parsing an INI document yields, or `None` where the text is not a
/// valid document.
pub uninterp spec fn ini_parse(text: Seq<char>) -> Option<IniModel>;

/// The value that a parsed document gives for each (section, key).
pub uninterp spec fn ini_entries(conf: ini::Ini) -> Map<(Seq<char>, Seq<char>), Seq<char>>;

/// The named sections of a parsed document.
pub uninterp spec fn ini_sections(conf: ini::Ini) -> Set<Seq<char>>;

/// Relies on `ini::Ini::load_from_str`: the parse depends on the text alone.
#[verifier::external_body]
fn parse_ini(text: &str) -> (r: Result<ini::Ini, ini::ParseError>)
    ensures
        r is Ok <==> ini_parse(text@) is Some,
        r matches Ok(conf) ==> ini_parse(text@) matches Some(m) && ini_sections(conf) == m.0
            && ini_entries(conf) == m.1,
{
    ini::Ini::load_from_str(text)
}

/// Relies on `ini::Ini::section`: whether the document has the named section.
#[verifier::external_body]
fn ini_has_section(conf: &ini::Ini, section: &str) -> (r: bool)
    ensures
        r == ini_sections(*conf).contains(section@),
{
    conf.section(Some(section)).is_some()
}

/// Relies on `ini::Ini::get_from`: the value of `key` in the named section.
#[verifier::external_body]
fn ini_get(conf: &ini::Ini, section: &str, key: &str) -> (r: Option<String>)
    ensures
        r matches Some(v) ==> ini_entries(*conf).contains_key((section@, key@))
            && ini_entries(*conf)[(section@, key@)] == v@,
        r is None ==> !ini_entries(*conf).contains_key((section@, key@)),
{
    match conf.get_from(Some(section), key) {
        Some(v) => Some(v.to_string()),
        None => None,
    }
}

/// The install path and language of the game.
#[derive(Debug)]
pub struct GameConfig {
    pub path: String,
    pub lang: String,
}

/// Why the configuration could not be read.
#[derive(PartialEq, Eq, Structural, Clone, Copy, Debug)]
pub enum ConfigError {
    /// No configuration file was found.
    NotFound,
    /// The text is not a valid INI document.
    Malformed,
    /// There is no `[game]` section.
    MissingSection,
    /// The `[game]` section has no `path` key.
    MissingPath,
    /// The `[game]` section has no `lang` key.
    MissingLang,
}

/// The sentence that describes a configuration error.
pub open spec fn config_error_text(e: ConfigError) -> Seq<char> {
    match e {
        ConfigError::NotFound => "Config file (tera_config.ini) not found"@,
        ConfigError::Malformed => "Failed to load config"@,
        ConfigError::MissingSection => "Section [game] not found in config"@,
        ConfigError::MissingPath => "Key 'path' not found in [game] section"@,
        ConfigError::MissingLang => "Key 'lang' not found in [game] section"@,
    }
}

impl ConfigError {
    /// A sentence describing the error.
    pub fn message(&self) -> (r: String)
        ensures
            r@ == config_error_text(*self),
    {
        match self {
            ConfigError::NotFound => String::from_str("Config file (tera_config.ini) not found"),
            ConfigError::Malformed => String::from_str("Failed to load config"),
            ConfigError::MissingSection => String::from_str("Section [game] not found in config"),
            ConfigError::MissingPath => String::from_str("Key 'path' not found in [game] section"),
            ConfigError::MissingLang => String::from_str("Key 'lang' not found in [game] section"),
        }
    }
}

/// The section that holds the game's settings.
pub open spec fn game_section() -> Seq<char> {
    "game"@
}

/// The key of the install path.
pub open spec fn path_key() -> (Seq<char>, Seq<char>) {
    (game_section(), "path"@)
}

/// The key of the language.
pub open spec fn lang_key() -> (Seq<char>, Seq<char>) {
    (game_section(), "lang"@)
}

/// The error that reading a configuration text gives, if any.
pub open spec fn load_config_error(text: Seq<char>) -> Option<ConfigError> {
    match ini_parse(text) {
        None => Some(ConfigError::Malformed),
        Some(m) => if !m.0.contains(game_section()) {
            Some(ConfigError::MissingSection)
        } else if !m.1.contains_key(path_key()) {
            Some(ConfigError::MissingPath)
        } else if !m.1.contains_key(lang_key()) {
            Some(ConfigError::MissingLang)
        } else {
            None
        },
    }
}

/// Reads the install path and language from the text of the configuration file.
pub fn load_config(text: &str) -> (r: Result<GameConfig, ConfigError>)
    ensures
        r matches Err(e) ==> load_config_error(text@) == Some(e),
        r is Ok <==> load_config_error(text@) is None,
        r matches Ok(c) ==> ini_parse(text@) matches Some(m) && c.path@ == m.1[path_key()]
            && c.lang@ == m.1[lang_key()],
{
    let conf = match parse_ini(text) {
        Ok(c) => c,
        Err(_) => return Err(ConfigError::Malformed),
    };
    if !ini_has_section(&conf, "game") {
        return Err(ConfigError::MissingSection);
    }
    let path = match ini_get(&conf, "game", "path") {
        Some(p) => p,
        None => return Err(ConfigError::MissingPath),
    };
    let lang = match ini_get(&conf, "game", "lang") {
        Some(l) => l,
        None => return Err(ConfigError::MissingLang),
    };
    Ok(GameConfig { path, lang })
}

/// The install path named by the configuration text.
pub fn get_game_path(config_text: &str) -> (r: Result<String, ConfigError>)
    ensures
        r matches Ok(p) ==> ini_parse(config_text@) matches Some(m) && p@ == m.1[path_key()],
        r matches Err(e) ==> load_config_error(config_text@) == Some(e),
        r is Ok <==> load_config_error(config_text@) is None,
{
    match load_config(config_text) {
        Ok(c) => Ok(c.path),
        Err(e) => Err(e),
    }
}

/// The language named by the configuration text.
pub fn get_language_from_config(config_text: &str) -> (r: Result<String, ConfigError>)
    ensures
        r matches Ok(l) ==> ini_parse(config_text@) matches Some(m) && l@ == m.1[lang_key()],
        r matches Err(e) ==> load_config_error(config_text@) == Some(e),
        r is Ok <==> load_config_error(config_text@) is None,
{
    match load_config(config_text) {
        Ok(c) => Ok(c.lang),
        Err(e) => Err(e),
    }
}

} // verus!
