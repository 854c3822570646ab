//! A project contributor: either a bare display name or a structured
//! record with optional contact fields.
//!
//! Equality policy (documented choice): two authors are equal exactly when
//! all four observable accessors agree, so a bare `Name("X")` equals a
//! record `{name: "X", email: None, homepage: None, github: None}`.

use vstd::prelude::*;

use crate::script::ScriptModule;

verus! {

/// Mathematical shape of an author; the view of `Author`.
#[verifier::ext_equal]
pub enum AuthorData {
    Name(Seq<char>),
    Record {
        name: Seq<char>,
        email: Option<Seq<char>>,
        homepage: Option<Seq<char>>,
        github: Option<Seq<char>>,
    },
}

impl AuthorData {
    /// The display name, uniform over both shapes.
    pub open spec fn display_name(self) -> Seq<char> {
        match self {
            AuthorData::Name(n) => n,
            AuthorData::Record { name, .. } => name,
        }
    }

    /// The contact email; absent on the bare shape.
    pub open spec fn email_field(self) -> Option<Seq<char>> {
        match self {
            AuthorData::Name(_) => None,
            AuthorData::Record { email, .. } => email,
        }
    }

    /// The homepage; absent on the bare shape.
    pub open spec fn homepage_field(self) -> Option<Seq<char>> {
        match self {
            AuthorData::Name(_) => None,
            AuthorData::Record { homepage, .. } => homepage,
        }
    }

    /// The source-hosting account; absent on the bare shape.
    pub open spec fn github_field(self) -> Option<Seq<char>> {
        match self {
            AuthorData::Name(_) => None,
            AuthorData::Record { github, .. } => github,
        }
    }
}

/// The equality policy: authors are compared by their four accessors, so
/// the bare shape and an otherwise-empty record of the same name coincide.
pub open spec fn author_like(a: AuthorData, b: AuthorData) -> bool {
    &&& a.display_name() == b.display_name()
    &&& a.email_field() == b.email_field()
    &&& a.homepage_field() == b.homepage_field()
    &&& a.github_field() == b.github_field()
}

/// The equality policy is an equivalence relation, as a hand-written
/// `==` must be: reflexive, symmetric, and transitive.
pub proof fn lemma_author_like_is_an_equivalence(a: AuthorData, b: AuthorData, c: AuthorData)
    ensures
        author_like(a, a),
        author_like(a, b) ==> author_like(b, a),
        author_like(a, b) && author_like(b, c) ==> author_like(a, c),
{
}

/// A bare name equals the structured record with the same name and no
/// contact fields: the two representations are observably identical.
pub proof fn lemma_bare_name_is_plain_record(n: Seq<char>)
    ensures
        author_like(
            AuthorData::Name(n),
            AuthorData::Record { name: n, email: None, homepage: None, github: None },
        ),
{
}

/// A project contributor.
#[derive(Debug, Clone)]
pub enum Author {
    /// A bare display name with no contact metadata.
    Name(String),
    /// A structured record; every contact field is optional.
    Record {
        name: String,
        email: Option<String>,
        homepage: Option<String>,
        github: Option<String>,
    },
}

impl View for Author {
    type V = AuthorData;

    open spec fn view(&self) -> AuthorData {
        match self {
            Author::Name(n) => AuthorData::Name(n@),
            Author::Record { name, email, homepage, github } => AuthorData::Record {
                name: name@,
                email: match email {
                    Some(e) => Some(e@),
                    None => None,
                },
                homepage: match homepage {
                    Some(h) => Some(h@),
                    None => None,
                },
                github: match github {
                    Some(g) => Some(g@),
                    None => None,
                },
            },
        }
    }
}

/// View of an optional borrowed string.
pub open spec fn opt_str_view(o: Option<&String>) -> Option<Seq<char>> {
    match o {
        Some(s) => Some(s@),
        None => None,
    }
}

/// Compares two optional strings by contents.
fn opt_string_eq(a: Option<&String>, b: Option<&String>) -> (r: bool)
    ensures
        r == (opt_str_view(a) == opt_str_view(b)),
{
    match (a, b) {
        (None, None) => true,
        (Some(x), Some(y)) => *x == *y,
        _ => false,
    }
}

impl Author {
    /// Constructs the bare shape from a display name.
    pub fn from_name(name: String) -> (r: Author)
        ensures
            r@ == AuthorData::Name(name@),
    {
        Author::Name(name)
    }

    /// Returns a new author with the email populated, leaving every other
    /// observable field as it was; the receiver is consumed unchanged.
    pub fn with_email(self, email: String) -> (r: Author)
        ensures
            r@ == (AuthorData::Record {
                name: self@.display_name(),
                email: Some(email@),
                homepage: self@.homepage_field(),
                github: self@.github_field(),
            }),
    {
        match self {
            Author::Name(name) => Author::Record {
                name,
                email: Some(email),
                homepage: None,
                github: None,
            },
            Author::Record { name, email: _, homepage, github } => Author::Record {
                name,
                email: Some(email),
                homepage,
                github,
            },
        }
    }

    /// Returns a new author with the homepage populated, leaving every
    /// other observable field as it was.
    pub fn with_homepage(self, homepage: String) -> (r: Author)
        ensures
            r@ == (AuthorData::Record {
                name: self@.display_name(),
                email: self@.email_field(),
                homepage: Some(homepage@),
                github: self@.github_field(),
            }),
    {
        match self {
            Author::Name(name) => Author::Record {
                name,
                email: None,
                homepage: Some(homepage),
                github: None,
            },
            Author::Record { name, email, homepage: _, github } => Author::Record {
                name,
                email,
                homepage: Some(homepage),
                github,
            },
        }
    }

    /// Returns a new author with the source-hosting account populated,
    /// leaving every other observable field as it was.
    pub fn with_github(self, github: String) -> (r: Author)
        ensures
            r@ == (AuthorData::Record {
                name: self@.display_name(),
                email: self@.email_field(),
                homepage: self@.homepage_field(),
                github: Some(github@),
            }),
    {
        match self {
            Author::Name(name) => Author::Record {
                name,
                email: None,
                homepage: None,
                github: Some(github),
            },
            Author::Record { name, email, homepage, github: _ } => Author::Record {
                name,
                email,
                homepage,
                github: Some(github),
            },
        }
    }

    /// The display name, uniform over both shapes.
    pub fn get_name(&self) -> (r: &String)
        ensures
            r@ == self@.display_name(),
    {
        match self {
            Author::Name(name) => name,
            Author::Record { name, .. } => name,
        }
    }

    /// The contact email; absent on the bare shape.
    pub fn get_email(&self) -> (r: Option<&String>)
        ensures
            opt_str_view(r) == self@.email_field(),
    {
        match self {
            Author::Name(_) => None,
            Author::Record { email, .. } => email.as_ref(),
        }
    }

    /// The homepage; absent on the bare shape.
    pub fn get_homepage(&self) -> (r: Option<&String>)
        ensures
            opt_str_view(r) == self@.homepage_field(),
    {
        match self {
            Author::Name(_) => None,
            Author::Record { homepage, .. } => homepage.as_ref(),
        }
    }

    /// The source-hosting account; absent on the bare shape.
    pub fn get_github(&self) -> (r: Option<&String>)
        ensures
            opt_str_view(r) == self@.github_field(),
    {
        match self {
            Author::Name(_) => None,
            Author::Record { github, .. } => github.as_ref(),
        }
    }

    /// Adds the author bridge bindings to a scripting-boundary module:
    /// the `Author` type and its constructor and builder functions.
    pub fn register(module: &mut ScriptModule)
        ensures
            final(module)@.item == old(module)@.item,
            final(module)@.types == old(module)@.types.push("Author"@),
            final(module)@.functions == old(module)@.functions + seq![
                "from_name"@,
                "with_email"@,
                "with_homepage"@,
                "with_github"@,
            ],
            final(module)@.field_getters == old(module)@.field_getters,
            final(module)@.field_setters == old(module)@.field_setters,
    {
        module.add_type("Author".to_owned());
        module.add_function("from_name".to_owned());
        module.add_function("with_email".to_owned());
        module.add_function("with_homepage".to_owned());
        module.add_function("with_github".to_owned());
    }
}

impl PartialEq for Author {
    fn eq(&self, other: &Author) -> (r: bool) {
        let names_agree: bool = *self.get_name() == *other.get_name();
        names_agree && opt_string_eq(self.get_email(), other.get_email()) && opt_string_eq(
            self.get_homepage(),
            other.get_homepage(),
        ) && opt_string_eq(self.get_github(), other.get_github())
    }
}

impl vstd::std_specs::cmp::PartialEqSpecImpl for Author {
    open spec fn obeys_eq_spec() -> bool {
        true
    }

    open spec fn eq_spec(&self, other: &Author) -> bool {
        author_like(self@, other@)
    }
}

} // verus!
