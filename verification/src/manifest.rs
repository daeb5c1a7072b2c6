//! The build manifest of a plugin repository: what it has to hold for the
//! repository to be accepted, and how it is read out of a TOML document.
//!
//! The TOML grammar is the `toml` crate's. This module names what that crate
//! hands back and decides over it.

use vstd::prelude::*;

verus! {

/// `toml::Table` (`toml::map::Map<String, toml::Value>`), a table of a TOML
/// document. Opaque here: what one holds is `table_items`.
#[verifier::external_type_specification]
#[verifier::external_body]
#[verifier::reject_recursive_types(K)]
#[verifier::reject_recursive_types(V)]
pub struct ExTomlMap<K, V>(toml::map::Map<K, V>);

/// `toml::Value`, one value of a TOML document. Opaque here: what one holds
/// is `value_item`.
#[verifier::external_type_specification]
#[verifier::external_body]
pub struct ExTomlValue(toml::Value);

/// `toml::de::Error`, the reason why a text is no TOML document.
#[verifier::external_type_specification]
#[verifier::external_body]
pub struct ExTomlError(toml::de::Error);

/// What a TOML value is, as far as a manifest is concerned.
pub enum TomlItem {
    /// A string.
    Text(Seq<char>),
    /// An array, in order.
    Array(Seq<TomlItem>),
    /// A table, inline or not.
    Table(Map<Seq<char>, TomlItem>),
    /// An integer, float, boolean or datetime.
    Other,
}

/// The top-level table that `toml::from_str` reads out of `text`, or `None`
/// where it rejects the text.
pub uninterp spec fn toml_document(text: Seq<char>) -> Option<Map<Seq<char>, TomlItem>>;

/// The entries of a table.
pub uninterp spec fn table_items(table: toml::Table) -> Map<Seq<char>, TomlItem>;

/// What a value holds.
pub uninterp spec fn value_item(value: toml::Value) -> TomlItem;

/// `toml::from_str`, asked for a `toml::Table`. The table it returns holds
/// the document named by `toml_document`; it fails exactly where that is
/// `None`.
#[verifier::external_body]
fn parse_document(text: &str) -> (parsed: Result<toml::Table, toml::de::Error>)
    ensures
        match parsed {
            Ok(table) => toml_document(text@) == Some(table_items(table)),
            Err(_) => toml_document(text@) is None,
        },
{
    toml::from_str::<toml::Table>(text)
}

/// `toml::map::Map::get`: the value stored under `key`, if there is one.
#[verifier::external_body]
fn table_get<'a>(table: &'a toml::Table, key: &str) -> (found: Option<&'a toml::Value>)
    ensures
        match found {
            Some(value) => table_items(*table).contains_key(key@) && table_items(*table)[key@]
                == value_item(*value),
            None => !table_items(*table).contains_key(key@),
        },
{
    table.get(key)
}

/// `toml::Value::as_str`: the text of a string value, `None` for any other.
#[verifier::external_body]
fn value_as_str<'a>(value: &'a toml::Value) -> (text: Option<&'a str>)
    ensures
        match text {
            Some(s) => value_item(*value) == TomlItem::Text(s@),
            None => !(value_item(*value) is Text),
        },
{
    value.as_str()
}

/// `toml::Value::as_table`: the table of a table value, `None` for any other.
#[verifier::external_body]
fn value_as_table<'a>(value: &'a toml::Value) -> (table: Option<&'a toml::Table>)
    ensures
        match table {
            Some(t) => value_item(*value) == TomlItem::Table(table_items(*t)),
            None => !(value_item(*value) is Table),
        },
{
    value.as_table()
}

/// `toml::Value::as_array`: the elements of an array value, `None` for any
/// other.
#[verifier::external_body]
fn value_as_array<'a>(value: &'a toml::Value) -> (elements: Option<&'a Vec<toml::Value>>)
    ensures
        match elements {
            Some(v) => value_item(*value) == TomlItem::Array(v@.map_values(|e| value_item(e))),
            None => !(value_item(*value) is Array),
        },
{
    value.as_array()
}

/// What a plugin builds into.
#[derive(Clone, Copy, Debug, PartialEq, Eq, Structural)]
pub enum TargetKind {
    /// A shared object that a host can load.
    DynamicLibrary,
    /// Anything else.
    Other,
}

/// What validation keeps of a manifest.
#[derive(Clone, Debug, PartialEq, Eq)]
pub struct Manifest {
    pub package_name: String,
    pub version: String,
    pub edition: String,
    pub target_kind: TargetKind,
}

/// A manifest as plain values.
pub struct ManifestView {
    pub package_name: Seq<char>,
    pub version: Seq<char>,
    pub edition: Seq<char>,
    pub target_kind: TargetKind,
}

impl View for Manifest {
    type V = ManifestView;

    open spec fn view(&self) -> ManifestView {
        ManifestView {
            package_name: self.package_name@,
            version: self.version@,
            edition: self.edition@,
            target_kind: self.target_kind,
        }
    }
}

/// Why a text is not a manifest.
#[derive(Clone, Copy, Debug, PartialEq, Eq, Structural)]
pub enum ManifestError {
    /// The text is not a TOML document.
    InvalidSyntax,
    /// The document has no `package` table.
    MissingPackage,
    /// The `package` table lacks `name`, `version` or `edition` as a string.
    MissingField,
}

/// The string stored under `key`, if `key` is there and holds a string.
pub open spec fn text_at(table: Map<Seq<char>, TomlItem>, key: Seq<char>) -> Option<Seq<char>> {
    if table.contains_key(key) {
        match table[key] {
            TomlItem::Text(s) => Some(s),
            _ => None,
        }
    } else {
        None
    }
}

/// The table stored under `key`, if `key` is there and holds a table.
pub open spec fn table_at(table: Map<Seq<char>, TomlItem>, key: Seq<char>) -> Option<
    Map<Seq<char>, TomlItem>,
> {
    if table.contains_key(key) {
        match table[key] {
            TomlItem::Table(t) => Some(t),
            _ => None,
        }
    } else {
        None
    }
}

/// Whether a crate type asks for a shared object.
pub open spec fn is_dynamic_kind(kind: TomlItem) -> bool {
    kind == TomlItem::Text("cdylib"@) || kind == TomlItem::Text("dylib"@)
}

/// Whether one of the listed crate types asks for a shared object.
pub open spec fn lists_dynamic_kind(kinds: Seq<TomlItem>) -> bool {
    exists|i: int| 0 <= i < kinds.len() && is_dynamic_kind(#[trigger] kinds[i])
}

/// A document is for a dynamic library when its `lib` table lists `cdylib`
/// or `dylib` under `crate-type`.
pub open spec fn target_kind_of(document: Map<Seq<char>, TomlItem>) -> TargetKind {
    match table_at(document, "lib"@) {
        Some(lib) => if lib.contains_key("crate-type"@) {
            match lib["crate-type"@] {
                TomlItem::Array(kinds) => if lists_dynamic_kind(kinds) {
                    TargetKind::DynamicLibrary
                } else {
                    TargetKind::Other
                },
                _ => TargetKind::Other,
            }
        } else {
            TargetKind::Other
        },
        None => TargetKind::Other,
    }
}

/// The manifest that a document holds: it needs a `package` table with
/// `name`, `version` and `edition` as strings. Whatever else the document
/// holds does not count against it.
pub open spec fn manifest_of(document: Map<Seq<char>, TomlItem>) -> Result<
    ManifestView,
    ManifestError,
> {
    match table_at(document, "package"@) {
        None => Err(ManifestError::MissingPackage),
        Some(package) => match (
            text_at(package, "name"@),
            text_at(package, "version"@),
            text_at(package, "edition"@),
        ) {
            (Some(name), Some(version), Some(edition)) => Ok(
                ManifestView {
                    package_name: name,
                    version,
                    edition,
                    target_kind: target_kind_of(document),
                },
            ),
            _ => Err(ManifestError::MissingField),
        },
    }
}

/// The manifest that a text holds.
pub open spec fn manifest_of_text(text: Seq<char>) -> Result<ManifestView, ManifestError> {
    match toml_document(text) {
        None => Err(ManifestError::InvalidSyntax),
        Some(document) => manifest_of(document),
    }
}

/// A result with its manifest as plain values.
pub open spec fn manifest_result_view(result: Result<Manifest, ManifestError>) -> Result<
    ManifestView,
    ManifestError,
> {
    match result {
        Ok(manifest) => Ok(manifest@),
        Err(e) => Err(e),
    }
}

fn read_text(table: &toml::Table, key: &str) -> (text: Option<String>)
    ensures
        text.is_some() == text_at(table_items(*table), key@).is_some(),
        text matches Some(s) ==> text_at(table_items(*table), key@) == Some(s@),
{
    match table_get(table, key) {
        None => None,
        Some(value) => match value_as_str(value) {
            None => None,
            Some(s) => Some(String::from_str(s)),
        },
    }
}

fn read_table<'a>(table: &'a toml::Table, key: &str) -> (inner: Option<&'a toml::Table>)
    ensures
        inner.is_some() == table_at(table_items(*table), key@).is_some(),
        inner matches Some(t) ==> table_at(table_items(*table), key@) == Some(table_items(*t)),
{
    match table_get(table, key) {
        None => None,
        Some(value) => value_as_table(value),
    }
}

fn names_dynamic_kind(value: &toml::Value) -> (dynamic: bool)
    ensures
        dynamic == is_dynamic_kind(value_item(*value)),
{
    match value_as_str(value) {
        None => false,
        Some(s) => {
            let kind = String::from_str(s);
            kind == String::from_str("cdylib") || kind == String::from_str("dylib")
        },
    }
}

fn any_dynamic_kind(kinds: &Vec<toml::Value>) -> (dynamic: bool)
    ensures
        dynamic == lists_dynamic_kind(kinds@.map_values(|e| value_item(e))),
{
    let ghost items = kinds@.map_values(|e| value_item(e));
    let mut i: usize = 0;
    while i < kinds.len()
        invariant
            i <= kinds.len(),
            items == kinds@.map_values(|e| value_item(e)),
            forall|j: int| 0 <= j < i ==> !is_dynamic_kind(#[trigger] items[j]),
        decreases kinds.len() - i,
    {
        if names_dynamic_kind(&kinds[i]) {
            assert(is_dynamic_kind(items[i as int]));
            return true;
        }
        i += 1;
    }
    false
}

/// What the document builds into.
pub fn target_kind(document: &toml::Table) -> (kind: TargetKind)
    ensures
        kind == target_kind_of(table_items(*document)),
{
    match read_table(document, "lib") {
        None => TargetKind::Other,
        Some(lib) => match table_get(lib, "crate-type") {
            None => TargetKind::Other,
            Some(value) => match value_as_array(value) {
                None => TargetKind::Other,
                Some(kinds) => if any_dynamic_kind(kinds) {
                    TargetKind::DynamicLibrary
                } else {
                    TargetKind::Other
                },
            },
        },
    }
}

/// Reads the manifest out of a parsed document.
pub fn manifest_from_table(document: &toml::Table) -> (manifest: Result<Manifest, ManifestError>)
    ensures
        manifest_result_view(manifest) == manifest_of(table_items(*document)),
{
    let package = match read_table(document, "package") {
        None => { return Err(ManifestError::MissingPackage); },
        Some(package) => package,
    };
    let name = read_text(package, "name");
    let version = read_text(package, "version");
    let edition = read_text(package, "edition");
    match (name, version, edition) {
        (Some(package_name), Some(version), Some(edition)) => Ok(
            Manifest { package_name, version, edition, target_kind: target_kind(document) },
        ),
        _ => Err(ManifestError::MissingField),
    }
}

/// Reads the manifest out of the text of a manifest file.
pub fn parse_manifest(text: &str) -> (manifest: Result<Manifest, ManifestError>)
    ensures
        manifest_result_view(manifest) == manifest_of_text(text@),
{
    match parse_document(text) {
        Err(_) => Err(ManifestError::InvalidSyntax),
        Ok(document) => manifest_from_table(&document),
    }
}

} // verus!
