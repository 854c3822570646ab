//! The scripting boundary: the host-side contract for loading a manifest
//! from an embedded program.
//!
//! The engine itself is an external collaborator reached from outside this
//! library; it is handed an explicit configuration value (a set of binding
//! descriptors, no process-wide registry) and reports back one
//! [`ScriptOutcome`]. The chosen return-value convention is the explicit
//! success/failure wrapper: the entrypoint returns either a manifest or a
//! failure message, so script-level validation failures stay
//! distinguishable from conversion bugs.

use vstd::prelude::*;

use crate::manifest::Manifest;

pub mod author;
pub mod manifest;
pub mod version;

verus! {

/// Mathematical shape of a binding descriptor; the view of `ScriptModule`.
#[verifier::ext_equal]
pub struct ScriptModuleData {
    pub item: Seq<char>,
    pub types: Seq<Seq<char>>,
    pub functions: Seq<Seq<char>>,
    pub field_getters: Seq<Seq<char>>,
    pub field_setters: Seq<Seq<char>>,
}

/// One module of bridge bindings to install into the scripting engine
/// before the program runs: the item path scripts import it under, the
/// bridge types, the free or associated functions, and the field
/// protocols.
#[derive(Debug, Clone)]
pub struct ScriptModule {
    pub item: String,
    pub types: Vec<String>,
    pub functions: Vec<String>,
    pub field_getters: Vec<String>,
    pub field_setters: Vec<String>,
}

/// Views a list of names by contents.
pub open spec fn names_view(names: Seq<String>) -> Seq<Seq<char>> {
    names.map_values(|s: String| s@)
}

impl View for ScriptModule {
    type V = ScriptModuleData;

    open spec fn view(&self) -> ScriptModuleData {
        ScriptModuleData {
            item: self.item@,
            types: names_view(self.types@),
            functions: names_view(self.functions@),
            field_getters: names_view(self.field_getters@),
            field_setters: names_view(self.field_setters@),
        }
    }
}

impl ScriptModule {
    /// An empty module under the given item path.
    pub fn new(item: String) -> (r: ScriptModule)
        ensures
            r@.item == item@,
            r@.types == Seq::<Seq<char>>::empty(),
            r@.functions == Seq::<Seq<char>>::empty(),
            r@.field_getters == Seq::<Seq<char>>::empty(),
            r@.field_setters == Seq::<Seq<char>>::empty(),
    {
        let r = ScriptModule {
            item,
            types: Vec::new(),
            functions: Vec::new(),
            field_getters: Vec::new(),
            field_setters: Vec::new(),
        };
        proof {
            assert(r@.types =~= Seq::<Seq<char>>::empty());
            assert(r@.functions =~= Seq::<Seq<char>>::empty());
            assert(r@.field_getters =~= Seq::<Seq<char>>::empty());
            assert(r@.field_setters =~= Seq::<Seq<char>>::empty());
        }
        r
    }

    /// Registers a bridge type.
    pub fn add_type(&mut self, name: String)
        ensures
            final(self)@.item == old(self)@.item,
            final(self)@.types == old(self)@.types.push(name@),
            final(self)@.functions == old(self)@.functions,
            final(self)@.field_getters == old(self)@.field_getters,
            final(self)@.field_setters == old(self)@.field_setters,
    {
        self.types.push(name);
    }

    /// Registers a bridge function.
    pub fn add_function(&mut self, name: String)
        ensures
            final(self)@.item == old(self)@.item,
            final(self)@.types == old(self)@.types,
            final(self)@.functions == old(self)@.functions.push(name@),
            final(self)@.field_getters == old(self)@.field_getters,
            final(self)@.field_setters == old(self)@.field_setters,
    {
        self.functions.push(name);
    }

    /// Registers a field read protocol.
    pub fn add_field_getter(&mut self, name: String)
        ensures
            final(self)@.item == old(self)@.item,
            final(self)@.types == old(self)@.types,
            final(self)@.functions == old(self)@.functions,
            final(self)@.field_getters == old(self)@.field_getters.push(name@),
            final(self)@.field_setters == old(self)@.field_setters,
    {
        self.field_getters.push(name);
    }

    /// Registers a field write protocol.
    pub fn add_field_setter(&mut self, name: String)
        ensures
            final(self)@.item == old(self)@.item,
            final(self)@.types == old(self)@.types,
            final(self)@.functions == old(self)@.functions,
            final(self)@.field_getters == old(self)@.field_getters,
            final(self)@.field_setters == old(self)@.field_setters.push(name@),
    {
        self.field_setters.push(name);
    }
}

/// The full configuration handed to the scripting engine before a program
/// runs: the author, version, and manifest bindings.
pub fn prepare_context() -> (r: Vec<ScriptModule>)
    ensures
        r@.len() == 3,
        r@[0]@ == author::author_module_data(),
        r@[1]@ == version::version_module_data(),
        r@[2]@ == manifest::manifest_module_data(),
{
    let mut context: Vec<ScriptModule> = Vec::new();
    context.push(author::module());
    context.push(version::module());
    context.push(manifest::module());
    context
}

/// The single required entrypoint of a manifest-producing program: the
/// host invokes the zero-argument function of this name and interprets
/// its return value.
pub fn entrypoint() -> (r: &'static str)
    ensures
        r@ == "manifest"@,
{
    "manifest"
}

/// Everything the external engine can report back from one attempt at
/// loading a manifest: compilation diagnostics, a runtime fault, the
/// explicit failure half of the return convention, a value of the wrong
/// shape, or the returned manifest itself.
#[derive(Debug, Clone)]
pub enum ScriptOutcome {
    /// The program failed to compile; the diagnostics come rendered by the
    /// engine and are carried verbatim.
    CompileFailed { diagnostics: String },
    /// Invoking the `manifest` entrypoint faulted at runtime.
    CallFailed { message: String },
    /// The entrypoint returned the failure half of the success/failure
    /// wrapper: an explicit message produced by the program.
    Failed { message: String },
    /// The returned value could not be converted into the bridge shapes.
    ShapeMismatch { message: String },
    /// The entrypoint returned the success half carrying a manifest.
    Returned { manifest: Manifest },
}

} // verus!
