//! Simplified semantic version: exactly three non-negative integer
//! components. Pre-release and build suffixes are accepted by `parse` and
//! then discarded; equality is by the three integers only.

use vstd::prelude::*;

use crate::script::ScriptModule;

verus! {

/// A semantic version reduced to its `major.minor.patch` identity.
#[derive(Debug, Clone, Copy, PartialEq, Eq, Structural)]
pub struct Version {
    pub major: u64,
    pub minor: u64,
    pub patch: u64,
}

/// Failure of `Version::parse`: the text does not match the
/// semantic-version grammar.
#[derive(Debug, Clone, Copy, PartialEq, Eq, Structural)]
pub enum ParseError {
    Malformed,
}

/// The `(major, minor, patch)` components that semantic-version parsing
/// yields for the given text, or `None` when the text does not match the
/// grammar. The full grammar is left unstated; the result depends on the
/// text alone.
pub uninterp spec fn semver_triple(s: Seq<char>) -> Option<(u64, u64, u64)>;

/// Relies on `semver::Version::parse`: deciding whether the text matches
/// the `MAJOR.MINOR.PATCH[-pre][+build]` grammar and extracting the three
/// numeric components. The result is a function of the text alone.
#[verifier::external_body]
fn parse_semver_triple(text: &str) -> (r: Option<(u64, u64, u64)>)
    ensures
        r == semver_triple(text@),
{
    match semver::Version::parse(text) {
        Ok(v) => Some((v.major, v.minor, v.patch)),
        Err(_) => None,
    }
}

impl Version {
    /// Canonical construction from the three components; always succeeds.
    pub fn new(major: u64, minor: u64, patch: u64) -> (r: Version)
        ensures
            r.major == major,
            r.minor == minor,
            r.patch == patch,
    {
        Version { major, minor, patch }
    }

    /// Parses a semantic-version string into the simplified `Version`.
    ///
    /// Succeeds exactly on texts matching the semantic-version grammar;
    /// any pre-release or build suffix is accepted and then discarded.
    pub fn parse(text: &str) -> (r: Result<Version, ParseError>)
        ensures
            match semver_triple(text@) {
                Some(t) => r matches Ok(v) && v.major == t.0 && v.minor == t.1 && v.patch == t.2,
                None => r matches Err(ParseError::Malformed),
            },
    {
        match parse_semver_triple(text) {
            Some(t) => Ok(Version { major: t.0, minor: t.1, patch: t.2 }),
            None => Err(ParseError::Malformed),
        }
    }

    pub fn set_major(&mut self, major: u64)
        ensures
            final(self).major == major,
            final(self).minor == old(self).minor,
            final(self).patch == old(self).patch,
    {
        self.major = major;
    }

    pub fn set_minor(&mut self, minor: u64)
        ensures
            final(self).minor == minor,
            final(self).major == old(self).major,
            final(self).patch == old(self).patch,
    {
        self.minor = minor;
    }

    pub fn set_patch(&mut self, patch: u64)
        ensures
            final(self).patch == patch,
            final(self).major == old(self).major,
            final(self).minor == old(self).minor,
    {
        self.patch = patch;
    }

    pub fn get_major(&self) -> (r: u64)
        ensures
            r == self.major,
    {
        self.major
    }

    pub fn get_minor(&self) -> (r: u64)
        ensures
            r == self.minor,
    {
        self.minor
    }

    pub fn get_patch(&self) -> (r: u64)
        ensures
            r == self.patch,
    {
        self.patch
    }

    /// Adds the version bridge bindings to a scripting-boundary module:
    /// the `Version` type, its constructor and parser, and read/write
    /// protocols for the three components.
    pub fn register(module: &mut ScriptModule)
        ensures
            final(module)@.item == old(module)@.item,
            final(module)@.types == old(module)@.types.push("Version"@),
            final(module)@.functions == old(module)@.functions + seq!["new"@, "parse_simple"@],
            final(module)@.field_getters == old(module)@.field_getters + seq![
                "major"@,
                "minor"@,
                "patch"@,
            ],
            final(module)@.field_setters == old(module)@.field_setters + seq![
                "major"@,
                "minor"@,
                "patch"@,
            ],
    {
        module.add_type("Version".to_owned());
        module.add_function("new".to_owned());
        module.add_function("parse_simple".to_owned());
        module.add_field_getter("major".to_owned());
        module.add_field_getter("minor".to_owned());
        module.add_field_getter("patch".to_owned());
        module.add_field_setter("major".to_owned());
        module.add_field_setter("minor".to_owned());
        module.add_field_setter("patch".to_owned());
    }
}

} // verus!
