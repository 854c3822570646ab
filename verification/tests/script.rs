use unvoid::author::Author;
use unvoid::error::DecodeError;
use unvoid::manifest::Manifest;
use unvoid::script::{self, prepare_context, ScriptModule, ScriptOutcome};
use unvoid::version::Version;

#[test]
fn prepare_context_lists_the_author_version_and_manifest_bindings() {
    let context = prepare_context();

    assert_eq!(context.len(), 3);

    assert_eq!(context[0].item, "unvoid::author");
    assert_eq!(context[0].types, vec!["Author"]);
    assert_eq!(
        context[0].functions,
        vec!["from_name", "with_email", "with_homepage", "with_github"]
    );
    assert!(context[0].field_getters.is_empty());
    assert!(context[0].field_setters.is_empty());

    assert_eq!(context[1].item, "unvoid::version");
    assert_eq!(context[1].types, vec!["Version"]);
    assert_eq!(context[1].functions, vec!["new", "parse_simple"]);
    assert_eq!(context[1].field_getters, vec!["major", "minor", "patch"]);
    assert_eq!(context[1].field_setters, vec!["major", "minor", "patch"]);

    assert_eq!(context[2].item, "unvoid::manifest");
    assert_eq!(context[2].types, vec!["Manifest"]);
    assert!(context[2].functions.is_empty());
}

#[test]
fn the_entrypoint_is_named_manifest() {
    assert_eq!(script::entrypoint(), "manifest");
}

#[test]
fn manifest_module_registers_the_record_constructor() {
    let module = script::manifest::module();

    assert_eq!(module.item, "unvoid::manifest");
    assert_eq!(module.types, vec!["Manifest"]);
    assert!(module.functions.is_empty());
}

#[test]
fn registration_appends_to_an_existing_module() {
    let mut module = ScriptModule::new("unvoid".to_string());
    Author::register(&mut module);
    Version::register(&mut module);
    Manifest::register(&mut module);

    assert_eq!(module.item, "unvoid");
    assert_eq!(module.types, vec!["Author", "Version", "Manifest"]);
    assert_eq!(
        module.functions,
        vec!["from_name", "with_email", "with_homepage", "with_github", "new", "parse_simple"]
    );
    assert_eq!(module.field_getters, vec!["major", "minor", "patch"]);
    assert_eq!(module.field_setters, vec!["major", "minor", "patch"]);
}

#[test]
fn explicit_script_failure_surfaces_its_exact_message() {
    let outcome = ScriptOutcome::Failed {
        message: "the data directory is missing".to_string(),
    };

    match Manifest::from_script(outcome) {
        Err(DecodeError::ScriptFailed { message }) => {
            assert_eq!(message, "the data directory is missing");
        }
        other => panic!("expected a ScriptFailed error, got {:?}", other),
    }
}

#[test]
fn compile_diagnostics_surface_verbatim() {
    let outcome = ScriptOutcome::CompileFailed {
        diagnostics: "error: unknown identifier `manifst`".to_string(),
    };

    match Manifest::from_script(outcome) {
        Err(DecodeError::CompileFailed { diagnostics }) => {
            assert_eq!(diagnostics, "error: unknown identifier `manifst`");
        }
        other => panic!("expected a CompileFailed error, got {:?}", other),
    }
}

#[test]
fn runtime_faults_and_shape_mismatches_surface_as_script_failures() {
    let fault = ScriptOutcome::CallFailed {
        message: "missing entrypoint `manifest`".to_string(),
    };
    match Manifest::from_script(fault) {
        Err(DecodeError::ScriptFailed { message }) => {
            assert_eq!(message, "missing entrypoint `manifest`");
        }
        other => panic!("expected a ScriptFailed error, got {:?}", other),
    }

    let mismatch = ScriptOutcome::ShapeMismatch {
        message: "expected a manifest, found an integer".to_string(),
    };
    match Manifest::from_script(mismatch) {
        Err(DecodeError::ScriptFailed { message }) => {
            assert_eq!(message, "expected a manifest, found an integer");
        }
        other => panic!("expected a ScriptFailed error, got {:?}", other),
    }
}

#[test]
fn returned_manifest_is_the_result() {
    let outcome = ScriptOutcome::Returned {
        manifest: Manifest {
            name: "test-manifest".to_string(),
            version: Version::new(1, 2, 3),
            authors: vec![Author::from_name("Alice".to_string())],
            templates: vec![],
        },
    };

    let manifest = Manifest::from_script(outcome).unwrap();

    assert_eq!(manifest.name, "test-manifest");
    assert_eq!(manifest.version, Version::new(1, 2, 3));
    assert_eq!(manifest.authors, vec![Author::from_name("Alice".to_string())]);
}
