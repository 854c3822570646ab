//! Binding descriptor for the author bridge type.

use vstd::prelude::*;

use crate::author::Author;
use crate::script::ScriptModule;
use crate::script::ScriptModuleData;

verus! {

/// The bindings that scripts see under `unvoid::author`.
pub open spec fn author_module_data() -> ScriptModuleData {
    ScriptModuleData {
        item: "unvoid::author"@,
        types: seq!["Author"@],
        functions: seq!["from_name"@, "with_email"@, "with_homepage"@, "with_github"@],
        field_getters: Seq::empty(),
        field_setters: Seq::empty(),
    }
}

/// The author bindings as one module: the `Author` type with its
/// constructor and builder functions.
pub fn module() -> (r: ScriptModule)
    ensures
        r@ == author_module_data(),
{
    let mut m = ScriptModule::new("unvoid::author".to_owned());
    Author::register(&mut m);
    proof {
        assert(m@ =~= author_module_data());
    }
    m
}

} // verus!
