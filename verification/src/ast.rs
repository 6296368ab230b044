//! The parts of a module's syntax tree that the checks read.

use vstd::prelude::*;
use vstd::string::*;
use crate::diagnostics::SourceSpan;
use crate::names::{Arity, FunctionName, FunctionNameView, Ident, Name};

verus! {

/// A function name as it is written at some place in the source.
#[derive(Debug, PartialEq, Eq)]
pub struct SpannedName {
    pub span: SourceSpan,
    pub name: FunctionName,
}

/// `module:function`, where either side may be any expression.
#[derive(Debug, PartialEq, Eq)]
pub struct Remote {
    pub span: SourceSpan,
    pub module: Box<Expr>,
    pub function: Box<Expr>,
}

/// A reference whose function atom is known while its module is not.
#[derive(Debug, PartialEq, Eq)]
pub struct PartiallyResolvedFunctionName {
    pub span: SourceSpan,
    pub function: String,
    pub arity: usize,
}

/// A reference of which neither the module nor the function need be an atom.
/// The module is absent where the source names none.
#[derive(Debug, PartialEq, Eq)]
pub struct UnresolvedFunctionName {
    pub span: SourceSpan,
    pub module: Option<Name>,
    pub function: Name,
    pub arity: Arity,
}

/// A reference to a function, by how much of it was known when the tree
/// was built.
#[derive(Debug, PartialEq, Eq)]
pub enum FunctionVar {
    Resolved(SpannedName),
    PartiallyResolved(PartiallyResolvedFunctionName),
    Unresolved(UnresolvedFunctionName),
}

/// A call: the callee and its arguments.
#[derive(Debug, PartialEq, Eq)]
pub struct Apply {
    pub span: SourceSpan,
    pub callee: Box<Expr>,
    pub args: Vec<Expr>,
}

/// An expression. The checks tell apart only the forms that can stand for
/// the target of a call; every other form is `Other`, which holds its direct
/// sub-expressions in the order in which they are visited.
#[derive(Debug, PartialEq, Eq)]
pub enum Expr {
    Atom(Ident),
    Var(Ident),
    Remote(Remote),
    FunctionVar(FunctionVar),
    Apply(Apply),
    Other(Vec<Expr>),
}

/// A function that the module defines. `is_nif` says that a nif declaration
/// stood directly before it; `body` holds the expressions of its clauses in
/// the order in which they are visited.
#[derive(Debug, PartialEq, Eq)]
pub struct FunctionDefinition {
    pub span: SourceSpan,
    pub name: FunctionName,
    pub is_nif: bool,
    pub body: Vec<Expr>,
}

/// A name that can be called without a module, and the function of another
/// module that it stands for.
#[derive(Debug, PartialEq, Eq)]
pub struct Import {
    pub name: FunctionName,
    pub origin: FunctionName,
}

/// A type annotation for the function `name`.
#[derive(Debug, PartialEq, Eq)]
pub struct TypeSpec {
    pub span: SourceSpan,
    pub name: FunctionName,
}

/// A module. `functions`, `imports` and `specs` are tables keyed by name,
/// held in the order in which they are walked. In a well-formed module no
/// name occurs twice in a table. A name is looked up from the front, so
/// where a table does hold two entries under one name, only the first is
/// ever found.
#[derive(Debug, PartialEq, Eq)]
pub struct Module {
    pub name: Ident,
    pub exports: Vec<SpannedName>,
    pub functions: Vec<FunctionDefinition>,
    pub imports: Vec<Import>,
    pub specs: Vec<TypeSpec>,
    pub nifs: Vec<SpannedName>,
    pub on_load: Option<SpannedName>,
}

/// A position that a search hands back, as a mathematical integer.
pub open spec fn index_view(found: Option<usize>) -> Option<int> {
    match found {
        Some(i) => Some(i as int),
        None => None,
    }
}

/// The position of the first of `names`, from position `from` on, that is
/// `name`.
pub open spec fn find_name(names: Seq<FunctionNameView>, name: FunctionNameView, from: int) -> Option<int>
    decreases names.len() - from,
{
    if from < 0 || from >= names.len() {
        None
    } else if names[from] == name {
        Some(from)
    } else {
        find_name(names, name, from + 1)
    }
}

/// The position of the first of `names` that is `name`.
pub open spec fn position(names: Seq<FunctionNameView>, name: FunctionNameView) -> Option<int> {
    find_name(names, name, 0)
}

/// The names of the functions defined, in the table's order.
pub open spec fn defined_names(functions: Seq<FunctionDefinition>) -> Seq<FunctionNameView> {
    functions.map_values(|f: FunctionDefinition| f.name@)
}

/// The names that imports make callable, in the table's order.
pub open spec fn imported_names(imports: Seq<Import>) -> Seq<FunctionNameView> {
    imports.map_values(|i: Import| i.name@)
}

/// `find_name` finds a position at or after `from` that holds the name,
/// with no such position before it, or none where no such position exists.
pub proof fn lemma_find_name(names: Seq<FunctionNameView>, name: FunctionNameView, from: int)
    requires
        0 <= from,
    ensures
        match find_name(names, name, from) {
            Some(i) => from <= i < names.len() && names[i] == name && forall|j: int|
                from <= j < i ==> #[trigger] names[j] != name,
            None => forall|j: int| from <= j < names.len() ==> #[trigger] names[j] != name,
        },
    decreases names.len() - from,
{
    if from < names.len() && names[from] != name {
        lemma_find_name(names, name, from + 1);
    }
}

/// Whether no name occurs twice among `names`.
pub open spec fn distinct(names: Seq<FunctionNameView>) -> bool {
    forall|i: int, j: int| 0 <= i < j < names.len() ==> names[i] != names[j]
}

/// The names that type specs are for, in the table's order.
pub open spec fn spec_names(specs: Seq<TypeSpec>) -> Seq<FunctionNameView> {
    specs.map_values(|s: TypeSpec| s.name@)
}

/// Among distinct names each is found where it stands, so a lookup does not
/// depend on the order of the table.
pub proof fn lemma_position_of_distinct(names: Seq<FunctionNameView>, i: int)
    requires
        distinct(names),
        0 <= i < names.len(),
    ensures
        position(names, names[i]) == Some(i),
{
    lemma_find_name(names, names[i], 0);
}

fn all_distinct(names: &Vec<&FunctionName>) -> (ok: bool)
    ensures
        ok == distinct(names@.map_values(|n: &FunctionName| n@)),
{
    let ghost views = names@.map_values(|n: &FunctionName| n@);
    let mut j: usize = 0;
    while j < names.len()
        invariant
            j <= names.len(),
            views == names@.map_values(|n: &FunctionName| n@),
            forall|a: int, b: int| 0 <= a < b < j ==> views[a] != views[b],
        decreases names.len() - j,
    {
        let mut i: usize = 0;
        while i < j
            invariant
                i <= j < names.len(),
                views == names@.map_values(|n: &FunctionName| n@),
                forall|a: int| 0 <= a < i ==> views[a] != views[j as int],
            decreases j - i,
        {
            if names[i].same_as(names[j]) {
                assert(views[i as int] == views[j as int]);
                return false;
            }
            i += 1;
        }
        j += 1;
    }
    true
}

impl Module {
    /// Whether the tables of the module are tables: no function is defined
    /// twice, no name imported twice, and no function has two type specs.
    pub open spec fn well_formed(&self) -> bool {
        &&& distinct(defined_names(self.functions@))
        &&& distinct(imported_names(self.imports@))
        &&& distinct(spec_names(self.specs@))
    }

    /// Tests whether the tables of the module are tables.
    pub fn check_well_formed(&self) -> (ok: bool)
        ensures
            ok == self.well_formed(),
    {
        let mut defined: Vec<&FunctionName> = Vec::new();
        let mut i: usize = 0;
        while i < self.functions.len()
            invariant
                i <= self.functions.len(),
                defined@.len() == i,
                forall|k: int| 0 <= k < i ==> *(#[trigger] defined@[k]) == self.functions@[k].name,
            decreases self.functions.len() - i,
        {
            defined.push(&self.functions[i].name);
            i += 1;
        }
        assert(defined@.map_values(|n: &FunctionName| n@) =~= defined_names(self.functions@));
        let mut imported: Vec<&FunctionName> = Vec::new();
        let mut i: usize = 0;
        while i < self.imports.len()
            invariant
                i <= self.imports.len(),
                imported@.len() == i,
                forall|k: int| 0 <= k < i ==> *(#[trigger] imported@[k]) == self.imports@[k].name,
            decreases self.imports.len() - i,
        {
            imported.push(&self.imports[i].name);
            i += 1;
        }
        assert(imported@.map_values(|n: &FunctionName| n@) =~= imported_names(self.imports@));
        let mut specified: Vec<&FunctionName> = Vec::new();
        let mut i: usize = 0;
        while i < self.specs.len()
            invariant
                i <= self.specs.len(),
                specified@.len() == i,
                forall|k: int| 0 <= k < i ==> *(#[trigger] specified@[k]) == self.specs@[k].name,
            decreases self.specs.len() - i,
        {
            specified.push(&self.specs[i].name);
            i += 1;
        }
        assert(specified@.map_values(|n: &FunctionName| n@) =~= spec_names(self.specs@));
        all_distinct(&defined) && all_distinct(&imported) && all_distinct(&specified)
    }

    /// Where the module defines the function made of the given parts.
    pub fn find_function(
        &self,
        module: Option<&String>,
        function: &String,
        arity: usize,
    ) -> (found: Option<usize>)
        ensures
            found matches Some(i) ==> i < self.functions@.len(),
            position(
                defined_names(self.functions@),
                FunctionNameView {
                    module: match module {
                        Some(m) => Some(m@),
                        None => None,
                    },
                    function: function@,
                    arity: arity as nat,
                },
            ) == index_view(found),
    {
        let ghost names = defined_names(self.functions@);
        let ghost name = FunctionNameView {
            module: match module {
                Some(m) => Some(m@),
                None => None,
            },
            function: function@,
            arity: arity as nat,
        };
        let mut i: usize = 0;
        while i < self.functions.len()
            invariant
                i <= self.functions.len(),
                names == defined_names(self.functions@),
                name == (FunctionNameView {
                    module: match module {
                        Some(m) => Some(m@),
                        None => None,
                    },
                    function: function@,
                    arity: arity as nat,
                }),
                position(names, name) == find_name(names, name, i as int),
            decreases self.functions.len() - i,
        {
            if self.functions[i].name.is(module, function, arity) {
                return Some(i);
            }
            i += 1;
        }
        None
    }

    /// Where the module defines the function `name`.
    pub fn find_definition(&self, name: &FunctionName) -> (found: Option<usize>)
        ensures
            found matches Some(i) ==> i < self.functions@.len(),
            position(defined_names(self.functions@), name@) == index_view(found),
    {
        self.find_function(name.module.as_ref(), &name.function, name.arity)
    }

    /// Whether the module defines the function `name`.
    pub fn defines(&self, name: &FunctionName) -> (defined: bool)
        ensures
            defined == position(defined_names(self.functions@), name@).is_some(),
    {
        self.find_definition(name).is_some()
    }

    /// Whether the module defines the local function `function/arity`.
    pub fn defines_local(&self, function: &String, arity: usize) -> (defined: bool)
        ensures
            defined == position(
                defined_names(self.functions@),
                FunctionNameView::local(function@, arity as nat),
            ).is_some(),
    {
        self.find_function(None, function, arity).is_some()
    }

    /// Where the module imports the local name `function/arity`.
    pub fn find_import(&self, function: &String, arity: usize) -> (found: Option<usize>)
        ensures
            found matches Some(i) ==> i < self.imports@.len(),
            position(
                imported_names(self.imports@),
                FunctionNameView::local(function@, arity as nat),
            ) == index_view(found),
    {
        let ghost names = imported_names(self.imports@);
        let ghost name = FunctionNameView::local(function@, arity as nat);
        let mut i: usize = 0;
        while i < self.imports.len()
            invariant
                i <= self.imports.len(),
                names == imported_names(self.imports@),
                name == FunctionNameView::local(function@, arity as nat),
                position(names, name) == find_name(names, name, i as int),
            decreases self.imports.len() - i,
        {
            if self.imports[i].name.is(None, function, arity) {
                return Some(i);
            }
            i += 1;
        }
        None
    }
}

} // verus!
