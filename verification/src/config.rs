//! The tracer's configuration: the allocator family to trace, and the symbol
//! that stands behind each logical target.
//!
//! ```text
//! allocator = "malloc"      # or "noop"
//!
//! [targets]
//! malloc = "malloc"         # "" switches the target off
//! free   = "free"
//! ```

use crate::document::{
    document_items, error_text, parse_document, table_get, table_items, table_keys, value_as_str,
    value_as_table, Item,
};
use crate::log::{LogLine, LogLineView};
use vstd::hash_map::StringHashMap;
use vstd::prelude::*;
use vstd::string::*;

verus! {

/// Where the configuration is read from when the environment names no file.
pub const CONFIG: &'static str = "allog.toml";

/// The allocator families that a configuration can name.
#[derive(Clone, Copy, Debug, PartialEq, Eq, Structural)]
pub enum ConfigAllocator {
    /// The `malloc` family: `malloc`, `calloc`, `memalign`, `realloc`, `free`.
    Malloc,
    /// No hooks at all.
    Noop,
}

/// The family that a configuration names with `name`, if it names one.
pub open spec fn allocator_of(name: Seq<char>) -> Option<ConfigAllocator> {
    if name == "malloc"@ {
        Some(ConfigAllocator::Malloc)
    } else if name == "noop"@ {
        Some(ConfigAllocator::Noop)
    } else {
        None
    }
}

impl ConfigAllocator {
    /// The family that a configuration names with `name`: the names are lower
    /// case, and any other name is none.
    pub fn from_name(name: &str) -> (allocator: Option<ConfigAllocator>)
        ensures
            allocator == allocator_of(name@),
    {
        let name = name.to_owned();
        if name == String::from_str("malloc") {
            Some(ConfigAllocator::Malloc)
        } else if name == String::from_str("noop") {
            Some(ConfigAllocator::Noop)
        } else {
            None
        }
    }
}

/// A configuration.
pub struct Config {
    pub allocator: ConfigAllocator,
    pub targets: StringHashMap<String>,
}

/// A configuration as plain values.
pub struct ConfigView {
    pub allocator: ConfigAllocator,
    pub targets: Map<Seq<char>, Seq<char>>,
}

impl ConfigView {
    /// The symbol behind a logical target: the configured one, and the logical
    /// name itself where none is configured.
    pub open spec fn target(self, target: Seq<char>) -> Seq<char> {
        if self.targets.contains_key(target) {
            self.targets[target]
        } else {
            target
        }
    }

    /// Whether a target is switched off: its symbol is the empty string.
    pub open spec fn disabled(self, target: Seq<char>) -> bool {
        self.target(target).len() == 0
    }
}

/// A target without entry stands for the symbol of its own name, and a
/// target whose entry is the empty string is switched off.
pub proof fn lemma_target_fallback(config: ConfigView, target: Seq<char>)
    ensures
        !config.targets.contains_key(target) ==> config.target(target) == target,
        config.targets.contains_key(target) ==> config.target(target) == config.targets[target],
        config.targets.contains_key(target) && config.targets[target].len() == 0
            ==> config.disabled(target),
{
}

impl View for Config {
    type V = ConfigView;

    open spec fn view(&self) -> ConfigView {
        ConfigView {
            allocator: self.allocator,
            targets: self.targets@.map_values(|symbol: String| symbol@),
        }
    }
}

/// Why a text is no configuration.
#[derive(Debug, PartialEq, Eq)]
pub enum ConfigError {
    /// The text is not TOML; the parser's description comes with it.
    Syntax(String),
    /// The document has no `allocator`.
    MissingAllocator,
    /// `allocator` is not a string, or names no family.
    InvalidAllocator,
    /// The document has no `targets`.
    MissingTargets,
    /// `targets` is not a table, or one of its values is not a string.
    InvalidTargets,
}

/// The kinds of [`ConfigError`].
pub enum Fault {
    Syntax,
    MissingAllocator,
    InvalidAllocator,
    MissingTargets,
    InvalidTargets,
}

impl View for ConfigError {
    type V = Fault;

    open spec fn view(&self) -> Fault {
        match self {
            ConfigError::Syntax(_) => Fault::Syntax,
            ConfigError::MissingAllocator => Fault::MissingAllocator,
            ConfigError::InvalidAllocator => Fault::InvalidAllocator,
            ConfigError::MissingTargets => Fault::MissingTargets,
            ConfigError::InvalidTargets => Fault::InvalidTargets,
        }
    }
}

impl Fault {
    /// The words for a fault of the document's content.
    pub open spec fn text(self) -> Seq<char>
        recommends
            !(self is Syntax),
    {
        match self {
            Fault::Syntax => Seq::empty(),
            Fault::MissingAllocator => "missing field `allocator`"@,
            Fault::InvalidAllocator => "`allocator` must be \"malloc\" or \"noop\""@,
            Fault::MissingTargets => "missing field `targets`"@,
            Fault::InvalidTargets => "`targets` must be a table of strings"@,
        }
    }
}

impl ConfigError {
    /// The error in words: the parser's for a syntax error, fixed ones for
    /// the others.
    pub fn message(&self) -> (text: String)
        ensures
            !(self@ is Syntax) ==> text@ == self@.text(),
            self matches ConfigError::Syntax(words) ==> text@ == words@,
    {
        match self {
            ConfigError::Syntax(words) => words.clone(),
            ConfigError::MissingAllocator => String::from_str("missing field `allocator`"),
            ConfigError::InvalidAllocator => String::from_str(
                "`allocator` must be \"malloc\" or \"noop\"",
            ),
            ConfigError::MissingTargets => String::from_str("missing field `targets`"),
            ConfigError::InvalidTargets => String::from_str("`targets` must be a table of strings"),
        }
    }
}

/// The target map that a `targets` table stands for: a symbol for each key,
/// provided that every value is a string.
pub open spec fn targets_of(items: Map<Seq<char>, Item>) -> Option<Map<Seq<char>, Seq<char>>> {
    if forall|key: Seq<char>| items.contains_key(key) ==> #[trigger] items[key] is Text {
        Some(Map::new(|key: Seq<char>| items.contains_key(key), |key: Seq<char>| items[key]->Text_0))
    } else {
        None
    }
}

/// The configuration that a document stands for, or what is wrong with it.
/// Keys other than `allocator` and `targets` are ignored.
pub open spec fn config_of(items: Map<Seq<char>, Item>) -> Result<ConfigView, Fault> {
    if !items.contains_key("allocator"@) {
        Err(Fault::MissingAllocator)
    } else if !(items["allocator"@] matches Item::Text(name) && allocator_of(name) is Some) {
        Err(Fault::InvalidAllocator)
    } else if !items.contains_key("targets"@) {
        Err(Fault::MissingTargets)
    } else if !(items["targets"@] matches Item::Table(targets) && targets_of(targets) is Some) {
        Err(Fault::InvalidTargets)
    } else {
        Ok(
            ConfigView {
                allocator: allocator_of(items["allocator"@]->Text_0)->Some_0,
                targets: targets_of(items["targets"@]->Table_0)->Some_0,
            },
        )
    }
}

/// The configuration that a text stands for, or what is wrong with it.
pub open spec fn config_of_text(text: Seq<char>) -> Result<ConfigView, Fault> {
    match document_items(text) {
        Some(items) => config_of(items),
        None => Err(Fault::Syntax),
    }
}

/// An outcome of reading a configuration, as plain values.
pub open spec fn outcome_view(outcome: Result<Config, ConfigError>) -> Result<ConfigView, Fault> {
    match outcome {
        Ok(config) => Ok(config@),
        Err(error) => Err(error@),
    }
}

impl Config {
    /// The symbol behind a logical target: the configured one, and the logical
    /// name itself where none is configured.
    pub fn get_target<'a>(&'a self, target: &'a str) -> (symbol: &'a str)
        ensures
            symbol@ == self@.target(target@),
    {
        match self.targets.get(target) {
            Some(symbol) => symbol.as_str(),
            None => target,
        }
    }

    /// Whether a target is switched off.
    pub fn is_disabled(&self, target: &str) -> (disabled: bool)
        ensures
            disabled == self@.disabled(target@),
    {
        self.get_target(target).is_empty()
    }

    /// The configuration that a parsed document holds.
    #[verifier::loop_isolation(false)]
    pub fn from_table(table: &toml::Table) -> (outcome: Result<Config, ConfigError>)
        ensures
            outcome_view(outcome) == config_of(table_items(*table)),
    {
        let allocator = match table_get(table, "allocator") {
            None => { return Err(ConfigError::MissingAllocator); },
            Some(value) => match value_as_str(value) {
                None => { return Err(ConfigError::InvalidAllocator); },
                Some(name) => match ConfigAllocator::from_name(name) {
                    None => { return Err(ConfigError::InvalidAllocator); },
                    Some(allocator) => allocator,
                },
            },
        };
        let symbols = match table_get(table, "targets") {
            None => { return Err(ConfigError::MissingTargets); },
            Some(value) => match value_as_table(value) {
                None => { return Err(ConfigError::InvalidTargets); },
                Some(symbols) => symbols,
            },
        };
        let ghost items = table_items(*symbols);
        let keys = table_keys(symbols);
        let mut targets: StringHashMap<String> = StringHashMap::new();
        let mut i: usize = 0;
        while i < keys.len()
            invariant
                i <= keys.len(),
                forall|j: int| 0 <= j < i ==> items[#[trigger] keys.deep_view()[j]] is Text,
                forall|key: Seq<char>|
                    targets@.contains_key(key) <==> exists|j: int|
                        0 <= j < i && #[trigger] keys.deep_view()[j] == key,
                forall|key: Seq<char>| #[trigger]
                    targets@.contains_key(key) ==> items[key] == Item::Text(targets@[key]@),
            decreases keys.len() - i,
        {
            let key = &keys[i];
            assert(keys.deep_view()[i as int] == key@);
            assert(keys.deep_view().to_set().contains(key@));
            match table_get(symbols, key.as_str()) {
                None => { return Err(ConfigError::InvalidTargets); },
                Some(value) => match value_as_str(value) {
                    None => {
                        assert(items.contains_key(key@) && !(items[key@] is Text));
                        return Err(ConfigError::InvalidTargets);
                    },
                    Some(symbol) => {
                        targets.insert(key.clone(), symbol.to_owned());
                    },
                },
            }
            i += 1;
        }
        let config = Config { allocator, targets };
        proof {
            assert forall|key: Seq<char>| items.contains_key(key) implies #[trigger] items[key]
                is Text by {
                assert(keys.deep_view().to_set().contains(key));
                let j = choose|j: int| 0 <= j < keys.deep_view().len() && keys.deep_view()[j] == key;
                assert(items[keys.deep_view()[j]] is Text);
            }
            assert(config@.targets =~= targets_of(items)->Some_0);
        }
        Ok(config)
    }
}

/// Reads a configuration from the text of a configuration file.
pub fn parse_config(text: &str) -> (outcome: Result<Config, ConfigError>)
    ensures
        outcome_view(outcome) == config_of_text(text@),
{
    match parse_document(text) {
        Ok(table) => Config::from_table(&table),
        Err(error) => Err(ConfigError::Syntax(error_text(&error))),
    }
}

/// How the error for a configuration file named `name` begins.
pub open spec fn loading_failure(name: Seq<char>) -> Seq<char> {
    "Error loading "@ + name
}

/// The error for a configuration file that could not be read.
pub open spec fn read_failure(name: Seq<char>, reason: Seq<char>) -> Seq<char> {
    loading_failure(name) + ": file read error: "@ + reason
}

/// The error for a configuration file that holds no configuration.
pub open spec fn toml_failure(name: Seq<char>, reason: Seq<char>) -> Seq<char> {
    loading_failure(name) + ": toml error: "@ + reason
}

/// What is logged when the configuration was read.
pub open spec fn read_notice(name: Seq<char>) -> LogLineView {
    LogLineView::Info("Read config: "@ + name)
}

/// The notice that the configuration was read from the file named `name`.
pub fn config_notice(name: &str) -> (notice: LogLine)
    ensures
        notice@ == read_notice(name@),
{
    let mut text = String::from_str("Read config: ");
    text.append(name);
    LogLine::Info(text)
}

/// Reads the configuration from what reading the file named `name` gave:
/// `file` is the file's text, or the reason why it could not be read. Either
/// failure comes back as the error to log.
pub fn read_config(name: &str, file: Result<String, String>) -> (outcome: Result<Config, String>)
    ensures
        match file {
            Err(reason) => outcome matches Err(error) && error@ == read_failure(name@, reason@),
            Ok(text) => match config_of_text(text@) {
                Ok(config) => outcome matches Ok(read) && read@ == config,
                Err(Fault::Syntax) => outcome matches Err(error) && exists|words: Seq<char>|
                    error@ == #[trigger] toml_failure(name@, words),
                Err(fault) => outcome matches Err(error) && error@ == toml_failure(
                    name@,
                    fault.text(),
                ),
            },
        },
{
    match file {
        Err(reason) => {
            let mut error = String::from_str("Error loading ");
            error.append(name);
            error.append(": file read error: ");
            error.append(reason.as_str());
            Err(error)
        },
        Ok(text) => match parse_config(text.as_str()) {
            Ok(config) => Ok(config),
            Err(fault) => {
                let words = fault.message();
                let mut error = String::from_str("Error loading ");
                error.append(name);
                error.append(": toml error: ");
                error.append(words.as_str());
                assert(error@ == toml_failure(name@, words@));
                Err(error)
            },
        },
    }
}

} // verus!
