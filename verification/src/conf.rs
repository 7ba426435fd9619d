//! Configuration values: what the game asks of its window and renderer.

use vstd::prelude::*;
use crate::error::{GameError, GameResult};

verus! {

/// `toml::Value`, one value of a TOML document. Its contents are hidden from
/// the verifier; the library only hands it on to whoever decodes it.
#[verifier::external_type_specification]
#[verifier::external_body]
pub struct ExTomlValue(toml::Value);

/// The table that `toml` parses `text` to, or nothing if it is no valid TOML.
pub uninterp spec fn parsed_toml(text: Seq<char>) -> Option<toml::Table>;

/// The value that `table` holds under `key`, if it holds one.
pub uninterp spec fn table_entry(table: toml::Table, key: Seq<char>) -> Option<toml::Value>;

/// Calls `toml::Parser::parse` on a parser made for `text`: the table of the
/// document if parsing succeeds, nothing on any parse error.
#[verifier::external_body]
fn parse_toml(text: &str) -> (r: Option<toml::Table>)
    ensures
        r == parsed_toml(text@),
{
    toml::Parser::new(text).parse()
}

/// Calls `BTreeMap::get` on the table and clones what it finds.
#[verifier::external_body]
fn table_get(table: &toml::Table, key: &str) -> (r: Option<toml::Value>)
    ensures
        r == table_entry(*table, key@),
{
    table.get(key).cloned()
}

/// The description of the error for a text that is no valid TOML.
pub open spec fn unparsable_text() -> Seq<char> {
    "Could not parse config file?"@
}

/// The description of the error for a document without a `[conf]` section.
pub open spec fn no_section_text() -> Seq<char> {
    "Section [conf] not in config file"@
}

/// Whether `r` is the configuration error with the given description.
pub open spec fn is_config_error<T>(r: GameResult<T>, text: Seq<char>) -> bool {
    match r {
        Err(GameError::ConfigError(msg)) => msg@ == text,
        _ => false,
    }
}

/// What `Conf::section_of` makes of a parsed document: the value under
/// `conf`, or the error that says what is missing.
pub open spec fn is_section(
    r: GameResult<toml::Value>,
    parsed: Option<toml::Table>,
) -> bool {
    match parsed {
        None => is_config_error(r, unparsable_text()),
        Some(table) => match table_entry(table, "conf"@) {
            None => is_config_error(r, no_section_text()),
            Some(value) => r == Ok::<toml::Value, GameError>(value),
        },
    }
}

/// The configuration of a game.
#[derive(Debug, Clone)]
pub struct Conf {
    /// The name of the save directory.
    pub id: String,
    /// The framework version that the game was written for.
    pub version: String,
    /// The window title.
    pub window_title: String,
    /// A file path to the window's icon.
    pub window_icon: String,
    /// The window's default height.
    pub window_height: u32,
    /// The window's default width.
    pub window_width: u32,
}

impl Conf {
    /// A configuration with the given game id and default values for the rest:
    /// version `0.0.0`, an 800 by 600 window, a stock title and no icon.
    pub fn new(id: &str) -> (conf: Conf)
        ensures
            conf.id@ == id@,
            conf.version@ == "0.0.0"@,
            conf.window_title@ == "An easy, good game"@,
            conf.window_icon@ == ""@,
            conf.window_height == 600,
            conf.window_width == 800,
    {
        Conf {
            id: id.to_owned(),
            version: "0.0.0".to_owned(),
            window_title: "An easy, good game".to_owned(),
            window_icon: "".to_owned(),
            window_height: 600,
            window_width: 800,
        }
    }

    /// Parses the text of a configuration file and returns its `[conf]`
    /// section, which holds the fields of a `Conf`. A text that is no valid
    /// TOML and a document without that section are configuration errors.
    pub fn section(text: &str) -> (r: GameResult<toml::Value>)
        ensures
            is_section(r, parsed_toml(text@)),
    {
        let parsed = parse_toml(text);
        Conf::section_of(parsed)
    }

    /// Returns the `[conf]` section of a parsed configuration file; `parsed`
    /// is nothing if the file could not be parsed.
    pub fn section_of(parsed: Option<toml::Table>) -> (r: GameResult<toml::Value>)
        ensures
            is_section(r, parsed),
    {
        match parsed {
            None => Err(GameError::ConfigError("Could not parse config file?".to_owned())),
            Some(table) => match table_get(&table, "conf") {
                None => Err(GameError::ConfigError("Section [conf] not in config file".to_owned())),
                Some(config) => Ok(config),
            },
        }
    }
}

/// Whether and how the window covers the screen.
#[derive(Clone, Copy, Debug, PartialEq, Eq, Structural, Hash)]
pub enum FullscreenType {
    /// An ordinary window.
    Off,
    /// Real fullscreen with a mode change.
    True,
    /// A borderless window the size of the desktop.
    Desktop,
}

/// The size and decoration of the window.
#[derive(Clone, Copy, Debug, PartialEq, Eq, Structural, Hash)]
pub struct WindowMode {
    /// Window width in pixels.
    pub width: u32,
    /// Window height in pixels.
    pub height: u32,
    /// Whether the window has no border.
    pub borderless: bool,
    /// The fullscreen state.
    pub fullscreen_type: FullscreenType,
    /// Whether buffer swaps wait for the display.
    pub vsync: bool,
    /// Minimum width, or 0 for none.
    pub min_width: u32,
    /// Maximum width, or 0 for none.
    pub max_width: u32,
    /// Minimum height, or 0 for none.
    pub min_height: u32,
    /// Maximum height, or 0 for none.
    pub max_height: u32,
}

/// The number of samples per pixel.
#[derive(Clone, Copy, Debug, PartialEq, Eq, Structural, Hash)]
pub enum NumSamples {
    /// No multisampling.
    One,
    /// Two samples.
    Two,
    /// Four samples.
    Four,
    /// Eight samples.
    Eight,
    /// Sixteen samples.
    Sixteen,
}

impl NumSamples {
    /// The number of samples.
    pub open spec fn count(self) -> u8 {
        match self {
            NumSamples::One => 1,
            NumSamples::Two => 2,
            NumSamples::Four => 4,
            NumSamples::Eight => 8,
            NumSamples::Sixteen => 16,
        }
    }

    /// The number of samples.
    pub fn to_u8(self) -> (n: u8)
        ensures
            n == self.count(),
    {
        match self {
            NumSamples::One => 1,
            NumSamples::Two => 2,
            NumSamples::Four => 4,
            NumSamples::Eight => 8,
            NumSamples::Sixteen => 16,
        }
    }
}

/// What cannot change once the window exists.
#[derive(Clone, Copy, Debug, PartialEq, Eq, Structural, Hash)]
pub struct WindowSetup {
    /// Whether the user may resize the window.
    pub resizable: bool,
    /// Whether a high-density surface is requested.
    pub allow_highdpi: bool,
    /// The number of samples per pixel of the window's surface.
    pub samples: NumSamples,
}

/// The rendering interface that the game asks for.
#[derive(Clone, Copy, Debug, PartialEq, Eq, Structural, Hash)]
pub enum Backend {
    /// OpenGL with the given version.
    OpenGL { major: u8, minor: u8 },
}

} // verus!
