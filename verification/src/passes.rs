//! The five checks together.

use vstd::prelude::*;
use crate::ast::Module;
use crate::calls::{calls_diagnostics, VerifyCalls};
use crate::declarations::{
    invalid_nifs, on_load_diagnostics, orphaned_type_specs, VerifyNifs, VerifyOnLoadFunctions,
    VerifyTypeSpecs,
};
use crate::diagnostics::{DiagnosticView, Reporter};
use crate::exports::{invalid_exports, VerifyExports};
use crate::metadata::ApplicationMetadata;

verus! {

/// Everything the five checks report of a module, check by check: exports,
/// the `on_load` hook, nif declarations, type specs, calls.
pub open spec fn all_diagnostics(module: Module, app: ApplicationMetadata) -> Seq<DiagnosticView> {
    invalid_exports(module) + on_load_diagnostics(module) + invalid_nifs(module)
        + orphaned_type_specs(module) + calls_diagnostics(module, app)
}

/// Runs the five checks on a module, one after the other, and hands the
/// reporter back with what they reported added to what it held.
pub fn verify_module(reporter: Reporter, app: &ApplicationMetadata, module: &Module) -> (after:
    Reporter)
    requires
        app.is_normalized(),
    ensures
        after@ == reporter@ + all_diagnostics(*module, *app),
{
    let mut exports = VerifyExports::new(reporter);
    exports.run(module);
    let mut on_load = VerifyOnLoadFunctions::new(exports.into_reporter());
    on_load.run(module);
    let mut nifs = VerifyNifs::new(on_load.into_reporter());
    nifs.run(module);
    let mut type_specs = VerifyTypeSpecs::new(nifs.into_reporter());
    type_specs.run(module);
    let mut calls = VerifyCalls::new(type_specs.into_reporter(), app);
    calls.run(module);
    let after = calls.into_reporter();
    assert(after@ =~= reporter@ + all_diagnostics(*module, *app));
    after
}

/// Running the checks a second time on the same module reports the same
/// diagnostics again: a reporter that held `before` holds, after two runs,
/// `before` and then twice what one run reports. No check remembers a run,
/// and none changes the module.
pub proof fn lemma_second_run_reports_the_same(
    module: Module,
    app: ApplicationMetadata,
    before: Seq<DiagnosticView>,
)
    ensures
        ({
            let once = before + all_diagnostics(module, app);
            let twice = once + all_diagnostics(module, app);
            &&& once.subrange(before.len() as int, once.len() as int) == all_diagnostics(
                module,
                app,
            )
            &&& twice.subrange(once.len() as int, twice.len() as int) == all_diagnostics(
                module,
                app,
            )
        }),
{
    let once = before + all_diagnostics(module, app);
    let twice = once + all_diagnostics(module, app);
    assert(once.subrange(before.len() as int, once.len() as int) =~= all_diagnostics(module, app));
    assert(twice.subrange(once.len() as int, twice.len() as int) =~= all_diagnostics(module, app));
}

} // verus!
