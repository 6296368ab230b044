//! Names of callable targets.

use vstd::prelude::*;
use vstd::string::*;
use crate::diagnostics::SourceSpan;
use crate::text::{decimal, decimal_string};

verus! {

/// An atom or a variable as it stands in the source, with its location.
#[derive(Debug, PartialEq, Eq)]
pub struct Ident {
    pub span: SourceSpan,
    pub name: String,
}

impl Ident {
    pub fn new(span: SourceSpan, name: String) -> (ident: Self)
        ensures
            ident.span == span,
            ident.name@ == name@,
    {
        Ident { span, name }
    }
}

impl Clone for Ident {
    fn clone(&self) -> (copy: Self)
        ensures
            copy == *self,
    {
        Ident { span: self.span, name: self.name.clone() }
    }
}

/// The name of a function: the module that owns it, if it is qualified,
/// the function's atom and the number of its arguments.
#[derive(Debug, PartialEq, Eq)]
pub struct FunctionName {
    pub module: Option<String>,
    pub function: String,
    pub arity: usize,
}

/// What a `FunctionName` says. Two names are the same name if and only if
/// these are equal.
pub struct FunctionNameView {
    pub module: Option<Seq<char>>,
    pub function: Seq<char>,
    pub arity: nat,
}

/// The text of an optional module atom.
pub open spec fn module_view(module: Option<String>) -> Option<Seq<char>> {
    match module {
        Some(m) => Some(m@),
        None => None,
    }
}

impl FunctionNameView {
    /// The name `function/arity` with no owning module.
    pub open spec fn local(function: Seq<char>, arity: nat) -> FunctionNameView {
        FunctionNameView { module: None, function, arity }
    }

    /// The name `module:function/arity`.
    pub open spec fn qualified(
        module: Seq<char>,
        function: Seq<char>,
        arity: nat,
    ) -> FunctionNameView {
        FunctionNameView { module: Some(module), function, arity }
    }

    /// This name without its module.
    pub open spec fn to_local(self) -> FunctionNameView {
        FunctionNameView { module: None, function: self.function, arity: self.arity }
    }

    /// The name as diagnostics show it: `function/arity`, after `module:`
    /// where the name is qualified.
    pub open spec fn text(self) -> Seq<char> {
        match self.module {
            Some(m) => m + ":"@ + self.function + "/"@ + decimal(self.arity),
            None => self.function + "/"@ + decimal(self.arity),
        }
    }
}

impl View for FunctionName {
    type V = FunctionNameView;

    open spec fn view(&self) -> FunctionNameView {
        FunctionNameView {
            module: module_view(self.module),
            function: self.function@,
            arity: self.arity as nat,
        }
    }
}

impl Clone for FunctionName {
    fn clone(&self) -> (copy: Self)
        ensures
            copy == *self,
    {
        let module = match &self.module {
            Some(m) => Some(m.clone()),
            None => None,
        };
        FunctionName { module, function: self.function.clone(), arity: self.arity }
    }
}

impl FunctionName {
    /// The qualified name `module:function/arity`.
    pub fn new(module: String, function: String, arity: usize) -> (name: Self)
        ensures
            name@ == FunctionNameView::qualified(module@, function@, arity as nat),
    {
        FunctionName { module: Some(module), function, arity }
    }

    /// The local name `function/arity`.
    pub fn new_local(function: String, arity: usize) -> (name: Self)
        ensures
            name@ == FunctionNameView::local(function@, arity as nat),
    {
        FunctionName { module: None, function, arity }
    }

    /// Whether the name has no owning module.
    pub fn is_local(&self) -> (local: bool)
        ensures
            local == (self@.module is None),
    {
        self.module.is_none()
    }

    /// The local form of this name: the same function and arity, no module.
    pub fn to_local(&self) -> (name: Self)
        ensures
            name@ == self@.to_local(),
    {
        FunctionName { module: None, function: self.function.clone(), arity: self.arity }
    }

    /// Whether this is the name made of the given parts.
    pub fn is(&self, module: Option<&String>, function: &String, arity: usize) -> (same: bool)
        ensures
            same == (self@ == FunctionNameView {
                module: match module {
                    Some(m) => Some(m@),
                    None => None,
                },
                function: function@,
                arity: arity as nat,
            }),
    {
        let same_module = match (&self.module, module) {
            (Some(a), Some(b)) => *a == *b,
            (None, None) => true,
            _ => false,
        };
        same_module && self.function == *function && self.arity == arity
    }

    /// Whether both are the same name.
    pub fn same_as(&self, other: &FunctionName) -> (same: bool)
        ensures
            same == (self@ == other@),
    {
        self.is(other.module.as_ref(), &other.function, other.arity)
    }

    /// Whether the name is owned by the module `module`.
    pub fn in_module(&self, module: &String) -> (owned: bool)
        ensures
            owned == (self@.module == Some(module@)),
    {
        match &self.module {
            Some(m) => *m == *module,
            None => false,
        }
    }

    /// The name as diagnostics show it.
    pub fn to_string(&self) -> (text: String)
        ensures
            text@ == self@.text(),
    {
        let arity = decimal_string(self.arity);
        let mut text = match &self.module {
            Some(m) => {
                let mut t = m.clone();
                t.append(":");
                t.append(self.function.as_str());
                t
            },
            None => self.function.clone(),
        };
        text.append("/");
        text.append(arity.as_str());
        text
    }
}

/// How many arguments a reference expects: a known number, or one that
/// only the run decides.
#[derive(Clone, Copy, Debug, PartialEq, Eq, Structural)]
pub enum Arity {
    Int(usize),
    Any,
}

/// The module or function position of a reference that was not resolved:
/// an atom, or a variable bound at run time.
#[derive(Debug, PartialEq, Eq)]
pub enum Name {
    Atom(Ident),
    Var(Ident),
}

impl Clone for Name {
    fn clone(&self) -> (copy: Self)
        ensures
            copy == *self,
    {
        match self {
            Name::Atom(id) => Name::Atom(id.clone()),
            Name::Var(id) => Name::Var(id.clone()),
        }
    }
}

/// The text of `function/arity`, as a partially resolved reference shows itself.
pub open spec fn local_text(function: Seq<char>, arity: nat) -> Seq<char> {
    FunctionNameView::local(function, arity).text()
}

/// Writes `function/arity`.
pub fn local_string(function: &String, arity: usize) -> (text: String)
    ensures
        text@ == local_text(function@, arity as nat),
{
    let digits = decimal_string(arity);
    let mut text = function.clone();
    text.append("/");
    text.append(digits.as_str());
    text
}

} // verus!
