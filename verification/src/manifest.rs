//! The canonical decoded project descriptor and the multi-format loader.
//!
//! All four input encodings — TOML, YAML, JSON text and the scripting
//! path — normalize into one `Manifest`. For the three text formats the
//! decoder expects a record with `name` (string), `version` (string in the
//! semantic-version grammar), `authors` (list of bare strings or records),
//! and `templates` (mapping with opaque values); unknown top-level keys
//! are ignored (documented choice, matching the lenient decode of the
//! structured formats). The untagged author strategy tries the bare-string
//! shape first and the structured record second.

use vstd::prelude::*;

use crate::author::Author;
use crate::author::AuthorData;
use crate::document::Doc;
use crate::document::doc_lookup;
use crate::document::doc_of;
use crate::document::json_doc;
use crate::document::parse_json;
use crate::document::parse_toml;
use crate::document::parse_yaml;
use crate::document::toml_doc;
use crate::document::value_field;
use crate::document::value_items;
use crate::document::value_record_keys;
use crate::document::value_text;
use crate::document::yaml_doc;
use crate::error::DecodeError;
use crate::error::TextFormat;
use crate::script::ScriptModule;
use crate::script::ScriptOutcome;
use crate::version::Version;
use crate::version::semver_triple;

verus! {

/// Mathematical shape of a manifest; the view of `Manifest`.
#[verifier::ext_equal]
pub struct ManifestData {
    pub name: Seq<char>,
    pub version: Version,
    pub authors: Seq<AuthorData>,
    pub templates: Seq<Seq<char>>,
}

/// The canonical decoded project descriptor.
///
/// `authors` keeps the insertion order of the source document (the first
/// author is "primary" by convention, not enforced); `name` is non-empty
/// by convention, not enforced. `templates` holds the declared template
/// names in the order the decoded mapping hands them out; the template
/// descriptor type itself is a deliberate placeholder, so only the names
/// are kept.
#[derive(Debug, Clone)]
pub struct Manifest {
    pub name: String,
    pub version: Version,
    pub authors: Vec<Author>,
    pub templates: Vec<String>,
}

impl View for Manifest {
    type V = ManifestData;

    open spec fn view(&self) -> ManifestData {
        ManifestData {
            name: self.name@,
            version: self.version,
            authors: self.authors@.map_values(|a: Author| a@),
            templates: self.templates@.map_values(|s: String| s@),
        }
    }
}

/// An optional field: `None` when the key is bound to a non-text value
/// (a structural violation), `Some(None)` when the key is absent, and
/// `Some(Some(t))` when the key is bound to the text `t`.
pub open spec fn field_opt_text(entries: Seq<(Seq<char>, Doc)>, key: Seq<char>) -> Option<
    Option<Seq<char>>,
> {
    match doc_lookup(entries, key) {
        None => Some(None),
        Some(Doc::Text(t)) => Some(Some(t)),
        Some(_) => None,
    }
}

/// The author a document value decodes to: a bare text is a bare name;
/// a record must carry a text `name` and may carry text `email`,
/// `homepage` and `github` fields; anything else is a violation.
pub open spec fn author_of_doc(d: Doc) -> Option<AuthorData> {
    match d {
        Doc::Text(t) => Some(AuthorData::Name(t)),
        Doc::Record(entries) => match (
            doc_lookup(entries, "name"@),
            field_opt_text(entries, "email"@),
            field_opt_text(entries, "homepage"@),
            field_opt_text(entries, "github"@),
        ) {
            (Some(Doc::Text(n)), Some(e), Some(h), Some(g)) => Some(
                AuthorData::Record { name: n, email: e, homepage: h, github: g },
            ),
            _ => None,
        },
        _ => None,
    }
}

/// Every element of the list decodes to an author.
pub open spec fn authors_decode(items: Seq<Doc>) -> bool {
    forall|i: int| 0 <= i < items.len() ==> author_of_doc(#[trigger] items[i]) is Some
}

/// The decoded authors, in list order.
pub open spec fn decoded_authors(items: Seq<Doc>) -> Seq<AuthorData> {
    Seq::new(items.len(), |i: int| author_of_doc(items[i]).unwrap())
}

/// The keys of a record, in entry order.
pub open spec fn record_keys(entries: Seq<(Seq<char>, Doc)>) -> Seq<Seq<char>> {
    entries.map_values(|e: (Seq<char>, Doc)| e.0)
}

/// The manifest a document tree decodes to, or `None` on any missing
/// required field, type mismatch, or malformed version string.
pub open spec fn manifest_of_doc(d: Doc) -> Option<ManifestData> {
    match d {
        Doc::Record(entries) => match (
            doc_lookup(entries, "name"@),
            doc_lookup(entries, "version"@),
            doc_lookup(entries, "authors"@),
            doc_lookup(entries, "templates"@),
        ) {
            (
                Some(Doc::Text(n)),
                Some(Doc::Text(vt)),
                Some(Doc::List(items)),
                Some(Doc::Record(tpl)),
            ) => match semver_triple(vt) {
                Some(t) => if authors_decode(items) {
                    Some(
                        ManifestData {
                            name: n,
                            version: Version { major: t.0, minor: t.1, patch: t.2 },
                            authors: decoded_authors(items),
                            templates: record_keys(tpl),
                        },
                    )
                } else {
                    None
                },
                None => None,
            },
            _ => None,
        },
        _ => None,
    }
}

/// The manifest that decoding a TOML text yields, if any.
pub open spec fn toml_manifest(text: Seq<char>) -> Option<ManifestData> {
    match toml_doc(text) {
        Some(d) => manifest_of_doc(d),
        None => None,
    }
}

/// The manifest that decoding a YAML text yields, if any.
pub open spec fn yaml_manifest(text: Seq<char>) -> Option<ManifestData> {
    match yaml_doc(text) {
        Some(d) => manifest_of_doc(d),
        None => None,
    }
}

/// The manifest that decoding a JSON text yields, if any.
pub open spec fn json_manifest(text: Seq<char>) -> Option<ManifestData> {
    match json_doc(text) {
        Some(d) => manifest_of_doc(d),
        None => None,
    }
}

/// View of an optional owned string.
pub open spec fn opt_text_view(o: Option<String>) -> Option<Seq<char>> {
    match o {
        Some(s) => Some(s@),
        None => None,
    }
}

/// A structural-violation error for the given format.
fn malformed(format: TextFormat, detail: &str) -> (r: DecodeError)
    ensures
        r matches DecodeError::Malformed { format: f, .. } && f == format,
{
    DecodeError::Malformed { format, detail: detail.to_owned() }
}

/// Reads one optional text field of an author record.
fn optional_text_field(v: &serde_json::Value, key: &str, format: TextFormat) -> (r: Result<
    Option<String>,
    DecodeError,
>)
    requires
        doc_of(*v) is Record,
    ensures
        match field_opt_text(doc_of(*v)->Record_0, key@) {
            Some(o) => r matches Ok(ro) && opt_text_view(ro) == o,
            None => r matches Err(DecodeError::Malformed { format: f, .. }) && f == format,
        },
{
    match value_field(v, key) {
        None => Ok(None),
        Some(f) => match value_text(f) {
            Some(s) => Ok(Some(s.to_owned())),
            None => Err(malformed(format, "an author contact field is not a string")),
        },
    }
}

/// Decodes one element of the authors list: the bare-string shape is
/// tried first, then the structured record.
fn author_from_value(v: &serde_json::Value, format: TextFormat) -> (r: Result<Author, DecodeError>)
    ensures
        match author_of_doc(doc_of(*v)) {
            Some(ad) => r matches Ok(a) && a@ == ad,
            None => r matches Err(DecodeError::Malformed { format: f, .. }) && f == format,
        },
{
    if let Some(s) = value_text(v) {
        return Ok(Author::from_name(s.to_owned()));
    }
    let name = match value_field(v, "name") {
        Some(f) => match value_text(f) {
            Some(s) => s.to_owned(),
            None => return Err(malformed(format, "an author record's name is not a string")),
        },
        None => return Err(
            malformed(format, "an author entry is neither a string nor a record with a name"),
        ),
    };
    let email = match optional_text_field(v, "email", format) {
        Ok(o) => o,
        Err(e) => return Err(e),
    };
    let homepage = match optional_text_field(v, "homepage", format) {
        Ok(o) => o,
        Err(e) => return Err(e),
    };
    let github = match optional_text_field(v, "github", format) {
        Ok(o) => o,
        Err(e) => return Err(e),
    };
    let a = Author::Record { name, email, homepage, github };
    proof {
        assert(a@ =~= author_of_doc(doc_of(*v)).unwrap());
    }
    Ok(a)
}

/// Decodes a parsed document value into a manifest.
#[verifier::loop_isolation(false)]
fn manifest_from_value(v: &serde_json::Value, format: TextFormat) -> (r: Result<
    Manifest,
    DecodeError,
>)
    ensures
        match manifest_of_doc(doc_of(*v)) {
            Some(md) => r matches Ok(m) && m@ == md,
            None => r matches Err(DecodeError::Malformed { format: f, .. }) && f == format,
        },
{
    let name: String = match value_field(v, "name") {
        Some(f) => match value_text(f) {
            Some(s) => s.to_owned(),
            None => return Err(malformed(format, "the name field is not a string")),
        },
        None => return Err(malformed(format, "the document is not a record with a name field")),
    };
    let version: Version = match value_field(v, "version") {
        Some(f) => match value_text(f) {
            Some(s) => match Version::parse(s) {
                Ok(ver) => ver,
                Err(_) => return Err(
                    malformed(
                        format,
                        "the version field does not match the semantic-version grammar",
                    ),
                ),
            },
            None => return Err(malformed(format, "the version field is not a string")),
        },
        None => return Err(malformed(format, "the version field is missing")),
    };
    let authors_field = match value_field(v, "authors") {
        Some(f) => f,
        None => return Err(malformed(format, "the authors field is missing")),
    };
    let items = match value_items(authors_field) {
        Some(xs) => xs,
        None => return Err(malformed(format, "the authors field is not a list")),
    };
    let ghost docs = doc_of(*authors_field)->List_0;
    let mut authors: Vec<Author> = Vec::new();
    let item_count = items.len();
    for i in 0..item_count
        invariant
            authors@.len() == i,
            forall|j: int| 0 <= j < i ==> author_of_doc(docs[j]) is Some,
            forall|j: int| 0 <= j < i ==> (#[trigger] authors@[j])@ == author_of_doc(
                docs[j],
            ).unwrap(),
    {
        let a = match author_from_value(&items[i], format) {
            Ok(a) => a,
            Err(e) => {
                proof {
                    assert(author_of_doc(docs[i as int]) is None);
                    assert(!authors_decode(docs));
                }
                return Err(e);
            },
        };
        authors.push(a);
    }
    let templates_field = match value_field(v, "templates") {
        Some(f) => f,
        None => return Err(malformed(format, "the templates field is missing")),
    };
    let templates: Vec<String> = match value_record_keys(templates_field) {
        Some(ks) => ks,
        None => return Err(malformed(format, "the templates field is not a mapping")),
    };
    let m = Manifest { name, version, authors, templates };
    proof {
        assert(authors_decode(docs));
        assert(m@.authors =~= decoded_authors(docs));
        assert(m@.templates =~= record_keys(doc_of(*templates_field)->Record_0));
        assert(m@ =~= manifest_of_doc(doc_of(*v)).unwrap());
    }
    Ok(m)
}

impl Manifest {
    /// Decodes a manifest from TOML text. Succeeds exactly when the text
    /// is a well-formed TOML document whose tree decodes to a manifest;
    /// every failure is a `Malformed` error tagged with the TOML format.
    pub fn from_toml(text: &str) -> (r: Result<Manifest, DecodeError>)
        ensures
            match toml_manifest(text@) {
                Some(md) => r matches Ok(m) && m@ == md,
                None => r matches Err(DecodeError::Malformed { format, .. }) && format
                    == TextFormat::Toml,
            },
    {
        match parse_toml(text) {
            Some(v) => manifest_from_value(&v, TextFormat::Toml),
            None => Err(malformed(TextFormat::Toml, "the text is not a well-formed TOML document")),
        }
    }

    /// Decodes a manifest from YAML text. Succeeds exactly when the text
    /// is a well-formed YAML document whose tree decodes to a manifest;
    /// every failure is a `Malformed` error tagged with the YAML format.
    pub fn from_yaml(text: &str) -> (r: Result<Manifest, DecodeError>)
        ensures
            match yaml_manifest(text@) {
                Some(md) => r matches Ok(m) && m@ == md,
                None => r matches Err(DecodeError::Malformed { format, .. }) && format
                    == TextFormat::Yaml,
            },
    {
        match parse_yaml(text) {
            Some(v) => manifest_from_value(&v, TextFormat::Yaml),
            None => Err(malformed(TextFormat::Yaml, "the text is not a well-formed YAML document")),
        }
    }

    /// Decodes a manifest from JSON text. Succeeds exactly when the text
    /// is a well-formed JSON document whose tree decodes to a manifest;
    /// every failure is a `Malformed` error tagged with the JSON format.
    pub fn from_json(text: &str) -> (r: Result<Manifest, DecodeError>)
        ensures
            match json_manifest(text@) {
                Some(md) => r matches Ok(m) && m@ == md,
                None => r matches Err(DecodeError::Malformed { format, .. }) && format
                    == TextFormat::Json,
            },
    {
        match parse_json(text) {
            Some(v) => manifest_from_value(&v, TextFormat::Json),
            None => Err(malformed(TextFormat::Json, "the text is not a well-formed JSON document")),
        }
    }

    /// Interprets what the scripting engine reported back from one run of
    /// the `manifest` entrypoint. Compilation diagnostics surface as
    /// `CompileFailed`; a runtime fault, a conversion failure, and the
    /// program's explicit failure message all surface as `ScriptFailed`
    /// carrying the message verbatim; a returned manifest is the result.
    pub fn from_script(outcome: ScriptOutcome) -> (r: Result<Manifest, DecodeError>)
        ensures
            match outcome {
                ScriptOutcome::CompileFailed { diagnostics } => r matches Err(
                    DecodeError::CompileFailed { diagnostics: d },
                ) && d == diagnostics,
                ScriptOutcome::CallFailed { message } => r matches Err(
                    DecodeError::ScriptFailed { message: m },
                ) && m == message,
                ScriptOutcome::Failed { message } => r matches Err(
                    DecodeError::ScriptFailed { message: m },
                ) && m == message,
                ScriptOutcome::ShapeMismatch { message } => r matches Err(
                    DecodeError::ScriptFailed { message: m },
                ) && m == message,
                ScriptOutcome::Returned { manifest } => r matches Ok(m) && m == manifest,
            },
    {
        match outcome {
            ScriptOutcome::CompileFailed { diagnostics } => Err(
                DecodeError::CompileFailed { diagnostics },
            ),
            ScriptOutcome::CallFailed { message } => Err(DecodeError::ScriptFailed { message }),
            ScriptOutcome::Failed { message } => Err(DecodeError::ScriptFailed { message }),
            ScriptOutcome::ShapeMismatch { message } => Err(DecodeError::ScriptFailed { message }),
            ScriptOutcome::Returned { manifest } => Ok(manifest),
        }
    }

    /// Adds the manifest bridge bindings to a scripting-boundary module:
    /// the `Manifest` record constructor.
    pub fn register(module: &mut ScriptModule)
        ensures
            final(module)@.item == old(module)@.item,
            final(module)@.types == old(module)@.types.push("Manifest"@),
            final(module)@.functions == old(module)@.functions,
            final(module)@.field_getters == old(module)@.field_getters,
            final(module)@.field_setters == old(module)@.field_setters,
    {
        module.add_type("Manifest".to_owned());
    }
}

/// Re-decoding the same text yields equal manifests: each decoder's result
/// is a function of the text alone, so two manifests decoded from one text
/// agree field by field.
pub proof fn lemma_redecoding_agrees(text: Seq<char>, m1: Manifest, m2: Manifest)
    ensures
        (Some(m1@) == toml_manifest(text) && Some(m2@) == toml_manifest(text)) ==> m1@ == m2@,
        (Some(m1@) == yaml_manifest(text) && Some(m2@) == yaml_manifest(text)) ==> m1@ == m2@,
        (Some(m1@) == json_manifest(text) && Some(m2@) == json_manifest(text)) ==> m1@ == m2@,
{
}

/// Cross-format agreement: all three text decoders interpret one and the
/// same document shape, so texts that parse to equal document trees decode
/// to equal manifests — equal in name, version, authors and templates.
pub proof fn lemma_cross_format_agreement(
    toml_text: Seq<char>,
    yaml_text: Seq<char>,
    json_text: Seq<char>,
)
    ensures
        toml_doc(toml_text) == yaml_doc(yaml_text) ==> toml_manifest(toml_text) == yaml_manifest(
            yaml_text,
        ),
        toml_doc(toml_text) == json_doc(json_text) ==> toml_manifest(toml_text) == json_manifest(
            json_text,
        ),
        yaml_doc(yaml_text) == json_doc(json_text) ==> yaml_manifest(yaml_text) == json_manifest(
            json_text,
        ),
{
}

} // verus!
