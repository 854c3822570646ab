//! Binding descriptor for the version bridge type.

use vstd::prelude::*;

use crate::script::ScriptModule;
use crate::script::ScriptModuleData;
use crate::version::Version;

verus! {

/// The bindings that scripts see under `unvoid::version`.
pub open spec fn version_module_data() -> ScriptModuleData {
    ScriptModuleData {
        item: "unvoid::version"@,
        types: seq!["Version"@],
        functions: seq!["new"@, "parse_simple"@],
        field_getters: seq!["major"@, "minor"@, "patch"@],
        field_setters: seq!["major"@, "minor"@, "patch"@],
    }
}

/// The version bindings as one module: the `Version` type, its
/// constructor and parser, and its field protocols.
pub fn module() -> (r: ScriptModule)
    ensures
        r@ == version_module_data(),
{
    let mut m = ScriptModule::new("unvoid::version".to_owned());
    Version::register(&mut m);
    proof {
        assert(m@ =~= version_module_data());
    }
    m
}

} // verus!
