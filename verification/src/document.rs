//! Configuration documents: the TOML parser behind contracts.
//!
//! The parser and the tables it builds belong to the `toml` crate. Verus sees
//! neither; what a configuration reads of them is named here, and each
//! function of the crate that is called gets a wrapper whose contract is
//! believed, not proved.

use vstd::prelude::*;

verus! {

/// What a configuration reads of a TOML value: a string, a table of values by
/// key, or something else.
pub enum Item {
    Text(Seq<char>),
    Table(Map<Seq<char>, Item>),
    Other,
}

/// `toml::Value`, a value of a document.
#[verifier::external_type_specification]
#[verifier::external_body]
pub struct ExValue(toml::Value);

/// `toml::map::Map`, the map behind `toml::Table`.
#[verifier::external_type_specification]
#[verifier::external_body]
#[verifier::reject_recursive_types(K)]
#[verifier::reject_recursive_types(V)]
pub struct ExMap<K, V>(toml::map::Map<K, V>);

/// `toml::de::Error`, what the parser says of a text that is no document.
#[verifier::external_type_specification]
#[verifier::external_body]
pub struct ExError(toml::de::Error);

/// What a value holds.
pub uninterp spec fn value_item(value: toml::Value) -> Item;

/// What a table holds: its values by key.
pub uninterp spec fn table_items(table: toml::Table) -> Map<Seq<char>, Item>;

/// What the parser makes of a text: the top-level table of the document, or
/// nothing where the text is not TOML.
pub uninterp spec fn document_items(text: Seq<char>) -> Option<Map<Seq<char>, Item>>;

/// Parses a document with `str::parse::<toml::Table>`, which is
/// `toml::from_str`. Claimed: the outcome depends on the text alone, and a
/// table that comes back holds what `document_items` names.
#[verifier::external_body]
pub(crate) fn parse_document(text: &str) -> (parsed: Result<toml::Table, toml::de::Error>)
    ensures
        match parsed {
            Ok(table) => document_items(text@) == Some(table_items(table)),
            Err(_) => document_items(text@) is None,
        },
{
    text.parse::<toml::Table>()
}

/// The parser's description of an error, by `ToString::to_string` on
/// `toml::de::Error`. Nothing is claimed of the text.
#[verifier::external_body]
pub(crate) fn error_text(error: &toml::de::Error) -> String {
    error.to_string()
}

/// Looks a key up with `toml::map::Map::get`. Claimed: the value under the key
/// comes back, and `None` exactly where the table has no such key.
#[verifier::external_body]
pub(crate) fn table_get<'a>(table: &'a toml::Table, key: &str) -> (value: Option<&'a toml::Value>)
    ensures
        match value {
            Some(value) => table_items(*table).contains_key(key@) && table_items(*table)[key@]
                == value_item(*value),
            None => !table_items(*table).contains_key(key@),
        },
{
    table.get(key)
}

/// Lists the keys of a table with `toml::map::Map::keys`. Claimed: every key
/// of the table is listed and nothing else is.
#[verifier::external_body]
pub(crate) fn table_keys(table: &toml::Table) -> (keys: Vec<String>)
    ensures
        keys.deep_view().to_set() == table_items(*table).dom(),
{
    table.keys().cloned().collect()
}

/// Reads a value as a string with `toml::Value::as_str`. Claimed: the string
/// comes back where the value is one, and `None` where it is not.
#[verifier::external_body]
pub(crate) fn value_as_str<'a>(value: &'a toml::Value) -> (text: Option<&'a str>)
    ensures
        match text {
            Some(text) => value_item(*value) == Item::Text(text@),
            None => !(value_item(*value) is Text),
        },
{
    value.as_str()
}

/// Reads a value as a table with `toml::Value::as_table`. Claimed: the table
/// comes back where the value is one, and `None` where it is not.
#[verifier::external_body]
pub(crate) fn value_as_table<'a>(value: &'a toml::Value) -> (table: Option<&'a toml::Table>)
    ensures
        match table {
            Some(table) => value_item(*value) == Item::Table(table_items(*table)),
            None => !(value_item(*value) is Table),
        },
{
    value.as_table()
}

} // verus!
