//! What is known about the other modules of an application: which of them,
//! and which of their functions, are deprecated.

use vstd::prelude::*;
use vstd::string::*;
use crate::diagnostics::SourceSpan;
use crate::names::{FunctionName, FunctionNameView};

verus! {

/// A deprecation fact. `span` is where the deprecation was declared and
/// `flag` says, in words that complete "will be deprecated ...", when it
/// takes effect.
///
/// `FunctionAnyArity` is the form in which a declaration is first read.
/// Metadata is normalized before any check runs, which turns each such fact
/// into `Function` facts, so the checks never meet one.
#[derive(Debug, PartialEq, Eq)]
pub enum Deprecation {
    /// Every function of the module is deprecated.
    Module { span: SourceSpan, flag: String },
    /// One function of the module is deprecated.
    Function { span: SourceSpan, function: FunctionName, flag: String },
    /// The functions called `name` are deprecated, whatever their arity.
    FunctionAnyArity { span: SourceSpan, name: String, flag: String },
}

impl Deprecation {
    /// Whether the fact says that a call of `name`, a function of the
    /// module the fact is filed under, is a call of something deprecated.
    pub open spec fn applies_to(self, name: FunctionNameView) -> bool {
        match self {
            Deprecation::Module { .. } => true,
            Deprecation::Function { function, .. } => function@.to_local() == name.to_local(),
            Deprecation::FunctionAnyArity { name: any, .. } => any@ == name.function,
        }
    }

    /// Where the deprecation was declared.
    pub open spec fn declared_at(self) -> SourceSpan {
        match self {
            Deprecation::Module { span, .. } => span,
            Deprecation::Function { span, .. } => span,
            Deprecation::FunctionAnyArity { span, .. } => span,
        }
    }

    /// The words that say when the deprecation takes effect.
    pub open spec fn flag_text(self) -> Seq<char> {
        match self {
            Deprecation::Module { flag, .. } => flag@,
            Deprecation::Function { flag, .. } => flag@,
            Deprecation::FunctionAnyArity { flag, .. } => flag@,
        }
    }

    /// Where the deprecation was declared.
    pub fn span(&self) -> (span: SourceSpan)
        ensures
            span == self.declared_at(),
    {
        match self {
            Deprecation::Module { span, .. } => *span,
            Deprecation::Function { span, .. } => *span,
            Deprecation::FunctionAnyArity { span, .. } => *span,
        }
    }

    /// The words that say when the deprecation takes effect.
    pub fn flag(&self) -> (flag: &String)
        ensures
            flag@ == self.flag_text(),
    {
        match self {
            Deprecation::Module { flag, .. } => flag,
            Deprecation::Function { flag, .. } => flag,
            Deprecation::FunctionAnyArity { flag, .. } => flag,
        }
    }

    fn applies(&self, function: &String, arity: usize) -> (applies: bool)
        ensures
            forall|module: Option<Seq<char>>|
                applies == #[trigger] self.applies_to(
                    FunctionNameView { module, function: function@, arity: arity as nat },
                ),
    {
        match self {
            Deprecation::Module { .. } => true,
            Deprecation::Function { function: f, .. } => f.function == *function && f.arity
                == arity,
            Deprecation::FunctionAnyArity { name, .. } => *name == *function,
        }
    }
}

/// The deprecation facts of one module, in the order in which they apply:
/// a query is answered by the first fact that fits it.
#[derive(Debug, PartialEq, Eq)]
pub struct ModuleMetadata {
    pub name: String,
    pub deprecations: Vec<Deprecation>,
}

/// The deprecation facts of an application, module by module. Of two
/// entries for one module only the first is ever read.
#[derive(Debug, PartialEq, Eq)]
pub struct ApplicationMetadata {
    pub modules: Vec<ModuleMetadata>,
}

/// The position of the first entry, from `from` on, for the module `name`.
pub open spec fn find_module(modules: Seq<ModuleMetadata>, name: Seq<char>, from: int) -> Option<int>
    decreases modules.len() - from,
{
    if from < 0 || from >= modules.len() {
        None
    } else if modules[from].name@ == name {
        Some(from)
    } else {
        find_module(modules, name, from + 1)
    }
}

/// The first fact, from `from` on, that applies to `name`.
pub open spec fn first_applicable(facts: Seq<Deprecation>, name: FunctionNameView, from: int) -> Option<Deprecation>
    decreases facts.len() - from,
{
    if from < 0 || from >= facts.len() {
        None
    } else if facts[from].applies_to(name) {
        Some(facts[from])
    } else {
        first_applicable(facts, name, from + 1)
    }
}

/// The first fact, from `from` on, that deprecates a whole module.
pub open spec fn first_module_level(facts: Seq<Deprecation>, from: int) -> Option<Deprecation>
    decreases facts.len() - from,
{
    if from < 0 || from >= facts.len() {
        None
    } else if facts[from] is Module {
        Some(facts[from])
    } else {
        first_module_level(facts, from + 1)
    }
}

/// Whether none of `facts` is of the form that normalization removes.
pub open spec fn facts_normalized(facts: Seq<Deprecation>) -> bool {
    forall|i: int| 0 <= i < facts.len() ==> !(#[trigger] facts[i] is FunctionAnyArity)
}

/// What `first_applicable` finds is one of the facts and applies to the
/// name; it finds nothing only where no fact from `from` on applies.
pub proof fn lemma_first_applicable(facts: Seq<Deprecation>, name: FunctionNameView, from: int)
    requires
        0 <= from,
    ensures
        match first_applicable(facts, name, from) {
            Some(d) => d.applies_to(name) && exists|i: int|
                from <= i < facts.len() && #[trigger] facts[i] == d,
            None => forall|i: int| from <= i < facts.len() ==> !(#[trigger] facts[i]).applies_to(name),
        },
    decreases facts.len() - from,
{
    if from < facts.len() && !facts[from].applies_to(name) {
        lemma_first_applicable(facts, name, from + 1);
    }
}

/// What `first_module_level` finds is one of the facts and deprecates a
/// whole module.
pub proof fn lemma_first_module_level(facts: Seq<Deprecation>, from: int)
    requires
        0 <= from,
    ensures
        match first_module_level(facts, from) {
            Some(d) => d is Module && exists|i: int|
                from <= i < facts.len() && #[trigger] facts[i] == d,
            None => forall|i: int| from <= i < facts.len() ==> !(#[trigger] facts[i] is Module),
        },
    decreases facts.len() - from,
{
    if from < facts.len() && !(facts[from] is Module) {
        lemma_first_module_level(facts, from + 1);
    }
}

impl ApplicationMetadata {
    /// Metadata that holds no fact.
    pub fn new() -> (app: Self)
        ensures
            app.modules@.len() == 0,
            app.is_normalized(),
    {
        ApplicationMetadata { modules: Vec::new() }
    }

    /// Whether the metadata was normalized: no fact is left in the form
    /// `FunctionAnyArity`.
    pub open spec fn is_normalized(&self) -> bool {
        forall|m: int|
            0 <= m < self.modules@.len() ==> facts_normalized(
                (#[trigger] self.modules@[m]).deprecations@,
            )
    }

    /// The fact that answers for a call of `name`: none where the name has
    /// no module or the module has no entry, else the first fact of the
    /// module's entry that applies to the name.
    pub open spec fn function_deprecation(&self, name: FunctionNameView) -> Option<Deprecation> {
        match name.module {
            None => None,
            Some(module) => match find_module(self.modules@, module, 0) {
                None => None,
                Some(m) => first_applicable(self.modules@[m].deprecations@, name, 0),
            },
        }
    }

    /// The fact that answers for a use of the module `module`: the first
    /// fact of its entry that deprecates the whole module.
    pub open spec fn module_deprecation(&self, module: Seq<char>) -> Option<Deprecation> {
        match find_module(self.modules@, module, 0) {
            None => None,
            Some(m) => first_module_level(self.modules@[m].deprecations@, 0),
        }
    }

    /// In normalized metadata no query is answered by a fact of the form
    /// that normalization removes.
    pub proof fn lemma_normalized_answers(&self, name: FunctionNameView)
        requires
            self.is_normalized(),
        ensures
            !(self.function_deprecation(name) matches Some(d) && d is FunctionAnyArity),
    {
        if let Some(module) = name.module {
            lemma_find_module(self.modules@, module, 0);
            if let Some(m) = find_module(self.modules@, module, 0) {
                lemma_first_applicable(self.modules@[m].deprecations@, name, 0);
            }
        }
    }

    /// A query for a module is answered by a fact on the whole module or
    /// not at all.
    pub proof fn lemma_module_answers(&self, module: Seq<char>)
        ensures
            self.module_deprecation(module) matches Some(d) ==> d is Module,
    {
        if let Some(m) = find_module(self.modules@, module, 0) {
            lemma_first_module_level(self.modules@[m].deprecations@, 0);
        }
    }

    /// Tests whether the metadata was normalized.
    pub fn check_normalized(&self) -> (normalized: bool)
        ensures
            normalized == self.is_normalized(),
    {
        let mut m: usize = 0;
        while m < self.modules.len()
            invariant
                m <= self.modules.len(),
                forall|k: int|
                    0 <= k < m ==> facts_normalized((#[trigger] self.modules@[k]).deprecations@),
            decreases self.modules.len() - m,
        {
            let facts = &self.modules[m].deprecations;
            let mut i: usize = 0;
            while i < facts.len()
                invariant
                    i <= facts.len(),
                    m < self.modules.len(),
                    *facts == self.modules@[m as int].deprecations,
                    forall|k: int| 0 <= k < i ==> !(#[trigger] facts@[k] is FunctionAnyArity),
                decreases facts.len() - i,
            {
                if let Deprecation::FunctionAnyArity { .. } = &facts[i] {
                    assert(!facts_normalized(self.modules@[m as int].deprecations@));
                    return false;
                }
                i += 1;
            }
            m += 1;
        }
        true
    }

    fn find(&self, module: &String) -> (found: Option<usize>)
        ensures
            found matches Some(m) ==> m < self.modules@.len() && find_module(
                self.modules@,
                module@,
                0,
            ) == Some(m as int),
            found is None ==> find_module(self.modules@, module@, 0) is None,
    {
        let mut m: usize = 0;
        while m < self.modules.len()
            invariant
                m <= self.modules.len(),
                find_module(self.modules@, module@, 0) == find_module(self.modules@, module@, m as int),
            decreases self.modules.len() - m,
        {
            if self.modules[m].name == *module {
                return Some(m);
            }
            m += 1;
        }
        None
    }

    /// The fact that answers for a call of `module:function/arity`.
    pub fn function_deprecation_of(&self, module: &String, function: &String, arity: usize) -> (fact:
        Option<&Deprecation>)
        ensures
            match self.function_deprecation(
                FunctionNameView::qualified(module@, function@, arity as nat),
            ) {
                Some(d) => fact matches Some(f) && *f == d,
                None => fact is None,
            },
    {
        let ghost name = FunctionNameView::qualified(module@, function@, arity as nat);
        match self.find(module) {
            None => None,
            Some(m) => {
                let facts = &self.modules[m].deprecations;
                let mut i: usize = 0;
                while i < facts.len()
                    invariant
                        i <= facts.len(),
                        m < self.modules@.len(),
                        *facts == self.modules@[m as int].deprecations,
                        find_module(self.modules@, module@, 0) == Some(m as int),
                        name == FunctionNameView::qualified(module@, function@, arity as nat),
                        first_applicable(facts@, name, 0) == first_applicable(facts@, name, i as int),
                    decreases facts.len() - i,
                {
                    if facts[i].applies(function, arity) {
                        return Some(&facts[i]);
                    }
                    i += 1;
                }
                None
            },
        }
    }

    /// The fact that answers for a call of `name`.
    pub fn get_function_deprecation(&self, name: &FunctionName) -> (fact: Option<&Deprecation>)
        ensures
            match self.function_deprecation(name@) {
                Some(d) => fact matches Some(f) && *f == d,
                None => fact is None,
            },
    {
        match &name.module {
            None => None,
            Some(module) => self.function_deprecation_of(module, &name.function, name.arity),
        }
    }

    /// The fact that answers for a use of the module `module`.
    pub fn get_module_deprecation(&self, module: &String) -> (fact: Option<&Deprecation>)
        ensures
            match self.module_deprecation(module@) {
                Some(d) => fact matches Some(f) && *f == d,
                None => fact is None,
            },
    {
        match self.find(module) {
            None => None,
            Some(m) => {
                let facts = &self.modules[m].deprecations;
                let mut i: usize = 0;
                while i < facts.len()
                    invariant
                        i <= facts.len(),
                        m < self.modules@.len(),
                        *facts == self.modules@[m as int].deprecations,
                        find_module(self.modules@, module@, 0) == Some(m as int),
                        first_module_level(facts@, 0) == first_module_level(facts@, i as int),
                    decreases facts.len() - i,
                {
                    if let Deprecation::Module { .. } = &facts[i] {
                        return Some(&facts[i]);
                    }
                    i += 1;
                }
                None
            },
        }
    }
}

/// What `find_module` finds is an entry for the module.
pub proof fn lemma_find_module(modules: Seq<ModuleMetadata>, name: Seq<char>, from: int)
    requires
        0 <= from,
    ensures
        find_module(modules, name, from) matches Some(m) ==> from <= m < modules.len()
            && modules[m].name@ == name,
    decreases modules.len() - from,
{
    if from < modules.len() && modules[from].name@ != name {
        lemma_find_module(modules, name, from + 1);
    }
}

} // verus!
