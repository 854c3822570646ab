//! Binding descriptor for the manifest bridge type.

use vstd::prelude::*;

use crate::manifest::Manifest;
use crate::script::ScriptModule;
use crate::script::ScriptModuleData;

verus! {

/// The bindings that scripts see under `unvoid::manifest`.
pub open spec fn manifest_module_data() -> ScriptModuleData {
    ScriptModuleData {
        item: "unvoid::manifest"@,
        types: seq!["Manifest"@],
        functions: Seq::empty(),
        field_getters: Seq::empty(),
        field_setters: Seq::empty(),
    }
}

/// The manifest bindings as one module: the `Manifest` record constructor.
pub fn module() -> (r: ScriptModule)
    ensures
        r@ == manifest_module_data(),
{
    let mut m = ScriptModule::new("unvoid::manifest".to_owned());
    Manifest::register(&mut m);
    proof {
        assert(m@ =~= manifest_module_data());
    }
    m
}

} // verus!
