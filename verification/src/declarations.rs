//! The checks on declarations other than exports: the `on_load` hook, nif
//! declarations and type specs must each name a function that the module
//! defines.

use vstd::prelude::*;
use vstd::string::*;
use crate::ast::{defined_names, position, Module, SpannedName, TypeSpec};
use crate::diagnostics::{error1, warning1, DiagnosticView, Reporter};

verus! {

/// What the `on_load` hook reports: an error at its declaration where it
/// names, by its full name as declared, no defined function.
pub open spec fn on_load_diagnostics(module: Module) -> Seq<DiagnosticView> {
    match module.on_load {
        Some(hook) => if position(defined_names(module.functions@), hook.name@) is Some {
            Seq::empty()
        } else {
            seq![
                error1(
                    "invalid on_load function"@,
                    hook.span,
                    "this function is not defined in this module"@,
                ),
            ]
        },
        None => Seq::empty(),
    }
}

/// What one nif declaration reports: an error at the declaration where it
/// names no defined function; an error at the function's definition where
/// the function is not marked as a nif, which it is only if the declaration
/// stood directly before it.
pub open spec fn nif_diagnostics(module: Module, nif: SpannedName) -> Seq<DiagnosticView> {
    match position(defined_names(module.functions@), nif.name@) {
        None => seq![
            error1(
                "invalid nif declaration"@,
                nif.span,
                "the referenced function is not defined in this module"@,
            ),
        ],
        Some(i) => if module.functions@[i].is_nif {
            Seq::empty()
        } else {
            seq![
                error1(
                    "misplaced nif declaration"@,
                    module.functions@[i].span,
                    "expected -nif declaration to precede the function it references"@,
                ),
            ]
        },
    }
}

/// What the first `n` nif declarations of the module report, in order.
pub open spec fn nifs_diagnostics(module: Module, n: nat) -> Seq<DiagnosticView>
    decreases n,
{
    if n == 0 || n > module.nifs@.len() {
        Seq::empty()
    } else {
        nifs_diagnostics(module, (n - 1) as nat) + nif_diagnostics(module, module.nifs@[n - 1])
    }
}

/// Everything the nif check reports of a module.
pub open spec fn invalid_nifs(module: Module) -> Seq<DiagnosticView> {
    nifs_diagnostics(module, module.nifs@.len())
}

/// What one type spec reports: a warning at the spec where the module
/// defines no function under the local form of the spec's name.
pub open spec fn type_spec_diagnostics(module: Module, spec: TypeSpec) -> Seq<DiagnosticView> {
    if position(defined_names(module.functions@), spec.name@.to_local()) is Some {
        Seq::empty()
    } else {
        seq![
            warning1(
                "type spec for undefined function"@,
                spec.span,
                "this type spec has no corresponding function definition"@,
            ),
        ]
    }
}

/// What the first `n` type specs of the module report, in order.
pub open spec fn type_specs_diagnostics(module: Module, n: nat) -> Seq<DiagnosticView>
    decreases n,
{
    if n == 0 || n > module.specs@.len() {
        Seq::empty()
    } else {
        type_specs_diagnostics(module, (n - 1) as nat) + type_spec_diagnostics(
            module,
            module.specs@[n - 1],
        )
    }
}

/// Everything the type spec check reports of a module.
pub open spec fn orphaned_type_specs(module: Module) -> Seq<DiagnosticView> {
    type_specs_diagnostics(module, module.specs@.len())
}

/// Checks that the `on_load` hook, where the module declares one, names a
/// function that the module defines.
pub struct VerifyOnLoadFunctions {
    reporter: Reporter,
}

impl VerifyOnLoadFunctions {
    /// What the reporter of this pass holds.
    pub closed spec fn reported(&self) -> Seq<DiagnosticView> {
        self.reporter@
    }

    pub fn new(reporter: Reporter) -> (pass: Self)
        ensures
            pass.reported() == reporter@,
    {
        VerifyOnLoadFunctions { reporter }
    }

    /// Reports, after what the reporter already holds, an error if the hook
    /// names no defined function.
    pub fn run(&mut self, module: &Module)
        ensures
            final(self).reported() == old(self).reported() + on_load_diagnostics(*module),
    {
        if let Some(hook) = &module.on_load {
            if !module.defines(&hook.name) {
                self.reporter.show_error1(
                    "invalid on_load function",
                    hook.span,
                    String::from_str("this function is not defined in this module"),
                );
            }
        }
        assert(self.reporter@ =~= old(self).reporter@ + on_load_diagnostics(*module));
    }

    /// The reporter, with all that the pass reported.
    pub fn into_reporter(self) -> (reporter: Reporter)
        ensures
            reporter@ == self.reported(),
    {
        self.reporter
    }
}

/// Checks that every nif declaration names a function that the module
/// defines and that is marked as a nif.
pub struct VerifyNifs {
    reporter: Reporter,
}

impl VerifyNifs {
    /// What the reporter of this pass holds.
    pub closed spec fn reported(&self) -> Seq<DiagnosticView> {
        self.reporter@
    }

    pub fn new(reporter: Reporter) -> (pass: Self)
        ensures
            pass.reported() == reporter@,
    {
        VerifyNifs { reporter }
    }

    /// Reports, after what the reporter already holds, what each nif
    /// declaration gives rise to, in the declarations' order.
    pub fn run(&mut self, module: &Module)
        ensures
            final(self).reported() == old(self).reported() + invalid_nifs(*module),
    {
        let mut i: usize = 0;
        assert(self.reporter@ =~= old(self).reporter@ + nifs_diagnostics(*module, 0));
        while i < module.nifs.len()
            invariant
                i <= module.nifs.len(),
                self.reporter@ == old(self).reporter@ + nifs_diagnostics(*module, i as nat),
            decreases module.nifs.len() - i,
        {
            let nif = &module.nifs[i];
            match module.find_definition(&nif.name) {
                None => {
                    self.reporter.show_error1(
                        "invalid nif declaration",
                        nif.span,
                        String::from_str("the referenced function is not defined in this module"),
                    );
                },
                Some(f) => {
                    let function = &module.functions[f];
                    if !function.is_nif {
                        self.reporter.show_error1(
                            "misplaced nif declaration",
                            function.span,
                            String::from_str(
                                "expected -nif declaration to precede the function it references",
                            ),
                        );
                    }
                },
            }
            i += 1;
            assert(self.reporter@ =~= old(self).reporter@ + nifs_diagnostics(*module, i as nat));
        }
    }

    /// The reporter, with all that the pass reported.
    pub fn into_reporter(self) -> (reporter: Reporter)
        ensures
            reporter@ == self.reported(),
    {
        self.reporter
    }
}

/// Checks that every type spec belongs to a function that the module
/// defines. An orphaned spec is worth a warning, not an error.
pub struct VerifyTypeSpecs {
    reporter: Reporter,
}

impl VerifyTypeSpecs {
    /// What the reporter of this pass holds.
    pub closed spec fn reported(&self) -> Seq<DiagnosticView> {
        self.reporter@
    }

    pub fn new(reporter: Reporter) -> (pass: Self)
        ensures
            pass.reported() == reporter@,
    {
        VerifyTypeSpecs { reporter }
    }

    /// Reports, after what the reporter already holds, a warning for each
    /// type spec without a function, in the specs' order.
    pub fn run(&mut self, module: &Module)
        ensures
            final(self).reported() == old(self).reported() + orphaned_type_specs(*module),
    {
        let mut i: usize = 0;
        assert(self.reporter@ =~= old(self).reporter@ + type_specs_diagnostics(*module, 0));
        while i < module.specs.len()
            invariant
                i <= module.specs.len(),
                self.reporter@ == old(self).reporter@ + type_specs_diagnostics(*module, i as nat),
            decreases module.specs.len() - i,
        {
            let spec = &module.specs[i];
            if !module.defines_local(&spec.name.function, spec.name.arity) {
                self.reporter.show_warning1(
                    "type spec for undefined function",
                    spec.span,
                    String::from_str("this type spec has no corresponding function definition"),
                );
            }
            i += 1;
            assert(self.reporter@ =~= old(self).reporter@ + type_specs_diagnostics(
                *module,
                i as nat,
            ));
        }
    }

    /// The reporter, with all that the pass reported.
    pub fn into_reporter(self) -> (reporter: Reporter)
        ensures
            reporter@ == self.reported(),
    {
        self.reporter
    }
}

} // verus!
