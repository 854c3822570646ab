//! The template-reference resolver: turns a user-supplied reference (a
//! relative path, an absolute path, or a full URL) into an unambiguous
//! absolute location while preserving the original text for display.

use vstd::prelude::*;

verus! {

/// Mathematical shape of one attempt at parsing a text as an absolute URL:
/// either the serialization of the parsed URL, or the specific failure
/// "relative reference without a base", or any other failure with its
/// reason.
pub enum UrlParse {
    Absolute(Seq<char>),
    NoBase,
    Invalid(Seq<char>),
}

/// What absolute-URL parsing yields for the given text. The full URL
/// grammar is left unstated; the result depends on the text alone.
pub uninterp spec fn url_parse(s: Seq<char>) -> UrlParse;

/// The serialization of resolving `rel` against the working directory
/// `cwd` taken as a `file` scheme base with a trailing separator, or
/// `None` when that resolution fails. The resolution rules are left
/// unstated; the result depends on the two texts alone.
pub uninterp spec fn file_join(cwd: Seq<char>, rel: Seq<char>) -> Option<Seq<char>>;

/// Exec mirror of `UrlParse`.
enum Parsed {
    Absolute(String),
    NoBase,
    Invalid(String),
}

/// Relies on `url::Url::parse`: it yields the parsed absolute URL or
/// fails, with `RelativeUrlWithoutBase` as the one recoverable failure;
/// the result is a function of the text alone.
#[verifier::external_body]
fn parse_absolute(input: &str) -> (r: Parsed)
    ensures
        match url_parse(input@) {
            UrlParse::Absolute(t) => r matches Parsed::Absolute(u) && u@ == t,
            UrlParse::NoBase => r is NoBase,
            UrlParse::Invalid(m) => r matches Parsed::Invalid(d) && d@ == m,
        },
{
    match url::Url::parse(input) {
        Ok(u) => Parsed::Absolute(u.as_str().to_owned()),
        Err(url::ParseError::RelativeUrlWithoutBase) => Parsed::NoBase,
        Err(e) => Parsed::Invalid(e.to_string()),
    }
}

/// Relies on `url::Url::parse` and `url::Url::join`: the working directory
/// becomes a `file://<cwd>/` base, the input is resolved against it by the
/// standard URL reference-resolution rules, and the result is a function
/// of the two texts alone.
#[verifier::external_body]
fn join_from_directory(cwd: &str, input: &str) -> (r: Option<String>)
    ensures
        match file_join(cwd@, input@) {
            Some(t) => r matches Some(u) && u@ == t,
            None => r is None,
        },
{
    let base = match url::Url::parse(&format!("file://{}/", cwd)) {
        Ok(b) => b,
        Err(_) => return None,
    };
    match base.join(input) {
        Ok(u) => Some(u.as_str().to_owned()),
        Err(_) => None,
    }
}

/// Failure of reference resolution: the reference is not an absolute URL
/// and not a relative reference either.
#[derive(Debug, Clone)]
pub enum ResolveError {
    Invalid { reason: String },
}

/// A resolved template reference: the exact text the user supplied, never
/// altered, together with the fully-qualified, schemed, absolute URL it
/// resolves to.
#[derive(Debug, Clone)]
pub struct RawUrl {
    pub raw: String,
    pub final_url: String,
}

impl RawUrl {
    /// Resolves a user-supplied template reference against the given
    /// working directory.
    ///
    /// The input is first parsed as an absolute URL of any scheme; only
    /// the specific failure "relative reference without a base" is
    /// recovered, by resolving the input against the working directory as
    /// a `file` base; any other failure propagates with its reason. The
    /// `raw` field of every successful resolution is the input verbatim,
    /// byte for byte.
    pub fn resolve(input: &str, cwd: &str) -> (r: Result<RawUrl, ResolveError>)
        ensures
            r matches Ok(u) ==> u.raw@ == input@,
            match url_parse(input@) {
                UrlParse::Absolute(t) => r matches Ok(u) && u.final_url@ == t,
                UrlParse::NoBase => match file_join(cwd@, input@) {
                    Some(t) => r matches Ok(u) && u.final_url@ == t,
                    None => r is Err,
                },
                UrlParse::Invalid(m) => r matches Err(ResolveError::Invalid { reason }) && reason@
                    == m,
            },
    {
        match parse_absolute(input) {
            Parsed::Absolute(final_url) => Ok(RawUrl { raw: input.to_owned(), final_url }),
            Parsed::NoBase => match join_from_directory(cwd, input) {
                Some(final_url) => Ok(RawUrl { raw: input.to_owned(), final_url }),
                None => Err(
                    ResolveError::Invalid {
                        reason: "the reference does not resolve against the working directory"
                            .to_owned(),
                    },
                ),
            },
            Parsed::Invalid(reason) => Err(ResolveError::Invalid { reason }),
        }
    }
}

} // verus!
