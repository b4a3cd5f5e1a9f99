use vstd::prelude::*;
use vstd::string::StringExecFns;

use crate::errors::PluginError;
use crate::errors::PluginResult;

verus! {

/// The closed set of categories a unit can declare in its identity. A
/// manifest category string outside the recognized set maps to the `Other`
/// catch-all rather than erroring.
#[derive(Debug, Clone, Copy, PartialEq, Eq, Structural)]
pub enum PluginCategory {
    Productivity,
    Core,
    Integration,
    Communication,
    Wellness,
    Display,
    Other,
}

/// The immutable identity of a unit, supplied at construction time, either
/// literally or parsed from a declarative manifest; never mutated after
/// construction.
#[derive(Debug, Clone, PartialEq, Eq)]
pub struct PluginInfo {
    pub id: String,
    pub name: String,
    pub version: String,
    pub description: String,
    pub author: String,
    pub category: PluginCategory,
}

/// The category a manifest category string denotes; anything unrecognized is
/// `Other`.
pub open spec fn spec_category_from(s: Seq<char>) -> PluginCategory {
    if s == "productivity"@ {
        PluginCategory::Productivity
    } else if s == "development"@ {
        PluginCategory::Core
    } else if s == "enterprise"@ {
        PluginCategory::Integration
    } else if s == "communication"@ {
        PluginCategory::Communication
    } else if s == "wellness"@ {
        PluginCategory::Wellness
    } else if s == "display"@ {
        PluginCategory::Display
    } else {
        PluginCategory::Other
    }
}

/// A manifest field when present, the given fallback when missing.
pub open spec fn spec_field_or(field: Option<String>, fallback: Seq<char>) -> Seq<char> {
    match field {
        Option::Some(s) => s@,
        Option::None => fallback,
    }
}

/// How an identity record is built from the optional manifest fields: every
/// missing field falls back to its default, and the category string is
/// resolved to the closed category set.
pub open spec fn spec_info_matches_fields(
    info: PluginInfo,
    name: Option<String>,
    version: Option<String>,
    description: Option<String>,
    author: Option<String>,
    category: Option<String>,
) -> bool {
    &&& info.id@ == spec_field_or(name, "unknown"@)
    &&& info.name@ == spec_field_or(name, "Unknown Plugin"@)
    &&& info.version@ == spec_field_or(version, "0.1.0"@)
    &&& info.description@ == spec_field_or(description, ""@)
    &&& info.author@ == spec_field_or(author, ""@)
    &&& info.category == spec_category_from(spec_field_or(category, "other"@))
}

/// Relies on str's PartialEq: two string slices are equal exactly when their
/// character sequences are equal.
#[verifier::external_body]
fn str_eq(a: &str, b: &str) -> (r: bool)
    ensures
        r == (a@ == b@),
{
    a == b
}

/// The category a manifest category string denotes, as executable code.
pub fn category_from_str(s: &str) -> (category: PluginCategory)
    ensures
        category == spec_category_from(s@),
{
    if str_eq(s, "productivity") {
        PluginCategory::Productivity
    } else if str_eq(s, "development") {
        PluginCategory::Core
    } else if str_eq(s, "enterprise") {
        PluginCategory::Integration
    } else if str_eq(s, "communication") {
        PluginCategory::Communication
    } else if str_eq(s, "wellness") {
        PluginCategory::Wellness
    } else if str_eq(s, "display") {
        PluginCategory::Display
    } else {
        PluginCategory::Other
    }
}

/// Builds a unit identity from the optional fields of a manifest's
/// `[plugin]` table: the name stands in for both the id and the display
/// name, missing fields fall back to their defaults, and an unrecognized
/// category becomes `Other`, never an error.
pub fn plugin_info_from_fields(
    name: Option<String>,
    version: Option<String>,
    description: Option<String>,
    author: Option<String>,
    category: Option<String>,
) -> (info: PluginInfo)
    ensures
        spec_info_matches_fields(info, name, version, description, author, category),
{
    let id = match &name {
        Option::Some(s) => s.clone(),
        Option::None => "unknown".to_owned(),
    };
    let display_name = match name {
        Option::Some(s) => s,
        Option::None => "Unknown Plugin".to_owned(),
    };
    let version = match version {
        Option::Some(s) => s,
        Option::None => "0.1.0".to_owned(),
    };
    let description = match description {
        Option::Some(s) => s,
        Option::None => "".to_owned(),
    };
    let author = match author {
        Option::Some(s) => s,
        Option::None => "".to_owned(),
    };
    let category = match category {
        Option::Some(s) => category_from_str(s.as_str()),
        Option::None => category_from_str("other"),
    };
    PluginInfo { id, name: display_name, version, description, author, category }
}

/// Whether a string is a well-formed TOML document, as the `toml` crate's
/// parser decides it; the parse depends on the characters alone.
pub uninterp spec fn toml_parses(content: Seq<char>) -> bool;

/// Whether a well-formed TOML document holds a `plugin` entry at its top
/// level; a function of the characters alone. Unconstrained on text that
/// does not parse.
pub uninterp spec fn toml_plugin_present(content: Seq<char>) -> bool;

/// The characters of the `[plugin]` table's entry under `key`, when the
/// document parses, holds the table, and the entry is a TOML string; `None`
/// otherwise. A function of the characters alone.
pub uninterp spec fn toml_plugin_field(content: Seq<char>, key: Seq<char>) -> Option<Seq<char>>;

/// A manifest field's characters when present, the given fallback when
/// missing.
pub open spec fn spec_view_or(field: Option<Seq<char>>, fallback: Seq<char>) -> Seq<char> {
    match field {
        Option::Some(s) => s,
        Option::None => fallback,
    }
}

/// Relies on toml::from_str: a string deserializes into a `toml::Value`
/// exactly when it is a well-formed TOML document. The document is
/// discarded here; a failure is reduced to its diagnostic message.
#[verifier::external_body]
fn validate_toml(content: &str) -> (r: Result<(), String>)
    ensures
        r is Ok <==> toml_parses(content@),
{
    match toml::from_str::<toml::Value>(content) {
        Ok(_) => Ok(()),
        Err(e) => Err(e.to_string()),
    }
}

/// Relies on toml::from_str and toml::Value::get: whether the text is a
/// well-formed TOML document holding a top-level `plugin` entry.
#[verifier::external_body]
fn plugin_table_present(content: &str) -> (r: bool)
    ensures
        r == (toml_parses(content@) && toml_plugin_present(content@)),
{
    match toml::from_str::<toml::Value>(content) {
        Ok(document) => document.get("plugin").is_some(),
        Err(_) => false,
    }
}

/// Relies on toml::from_str, toml::Value::get and toml::Value::as_str: the
/// string entry under `key` of the document's `[plugin]` table, `None` when
/// the text does not parse, the table or the entry is absent, or the entry
/// is not a TOML string.
#[verifier::external_body]
fn plugin_field(content: &str, key: &str) -> (r: Option<String>)
    ensures
        r is Some <==> toml_plugin_field(content@, key@) is Some,
        r is Some ==> Some(r->0@) == toml_plugin_field(content@, key@),
{
    match toml::from_str::<toml::Value>(content) {
        Ok(document) => match document.get("plugin") {
            Some(table) => match table.get(key) {
                Some(entry) => entry.as_str().map(|s| s.to_string()),
                None => None,
            },
            None => None,
        },
        Err(_) => None,
    }
}

/// Builds a unit identity from the text of a declarative manifest holding a
/// `[plugin]` table with optional `name`, `version`, `description`,
/// `author` and `category` entries. The result is `Ok` exactly when the
/// text is well-formed TOML with a `[plugin]` table — within the table
/// every field is optional and never causes an error — and each field of
/// the identity is the manifest's entry or its default, with the name
/// standing in for the id as well.
pub fn create_plugin_info_from_manifest(content: &str) -> (r: PluginResult<PluginInfo>)
    ensures
        r is Ok <==> toml_parses(content@) && toml_plugin_present(content@),
        r is Err ==> r->Err_0 is InitError,
        r is Ok ==> r->Ok_0.id@ == spec_view_or(toml_plugin_field(content@, "name"@), "unknown"@),
        r is Ok ==> r->Ok_0.name@ == spec_view_or(
            toml_plugin_field(content@, "name"@),
            "Unknown Plugin"@,
        ),
        r is Ok ==> r->Ok_0.version@ == spec_view_or(
            toml_plugin_field(content@, "version"@),
            "0.1.0"@,
        ),
        r is Ok ==> r->Ok_0.description@ == spec_view_or(
            toml_plugin_field(content@, "description"@),
            ""@,
        ),
        r is Ok ==> r->Ok_0.author@ == spec_view_or(toml_plugin_field(content@, "author"@), ""@),
        r is Ok ==> r->Ok_0.category == spec_category_from(
            spec_view_or(toml_plugin_field(content@, "category"@), "other"@),
        ),
{
    match validate_toml(content) {
        Ok(()) => {},
        Err(message) => {
            let mut text = "Failed to parse manifest: ".to_owned();
            text.append(message.as_str());
            return Err(PluginError::InitError(text));
        },
    }
    if !plugin_table_present(content) {
        return Err(PluginError::InitError("No [plugin] section in manifest".to_owned()));
    }
    let name = plugin_field(content, "name");
    let version = plugin_field(content, "version");
    let description = plugin_field(content, "description");
    let author = plugin_field(content, "author");
    let category = plugin_field(content, "category");
    let info = plugin_info_from_fields(name, version, description, author, category);
    Ok(info)
}

} // verus!
