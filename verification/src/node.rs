//! Documentation nodes and the one-line signature of each kind of node.

use crate::text::{decimal_text, indent_text};
use crate::ts_type::{params_text, type_text, ParamDef, TsTypeDef};
use vstd::prelude::*;

verus! {

/// The kind of a documentation node.
#[derive(Clone, Copy, Debug, PartialEq, Eq, Structural)]
pub enum DocNodeKind {
    Function,
    Variable,
    Class,
    Enum,
    Interface,
    TypeAlias,
    Namespace,
}

/// How a variable was declared.
#[derive(Clone, Copy, Debug, PartialEq, Eq, Structural)]
pub enum VarDeclKind {
    Var,
    Let,
    Const,
}

/// Where a node was declared. Lines and columns count from one.
#[derive(Debug)]
pub struct Location {
    pub filename: String,
    pub line: u64,
    pub col: u64,
}

/// What is known of a function. A function can be rendered only when its
/// return type is known.
#[derive(Debug)]
pub struct FunctionDef {
    pub params: Vec<ParamDef>,
    pub return_type: Option<TsTypeDef>,
}

/// What is known of a variable.
#[derive(Debug)]
pub struct VariableDef {
    pub kind: VarDeclKind,
    pub ts_type: Option<TsTypeDef>,
}

/// What a namespace declares, in the order of the declarations.
#[derive(Debug)]
pub struct NamespaceDef {
    pub elements: Vec<DocNode>,
}

/// What a node is, with the data of that kind of node and of no other.
#[derive(Debug)]
pub enum DocNodeDef {
    Function(FunctionDef),
    Variable(VariableDef),
    Class,
    Enum,
    Interface,
    TypeAlias,
    Namespace(NamespaceDef),
}

/// One declaration: at the top level or inside a namespace.
#[derive(Debug)]
pub struct DocNode {
    pub name: String,
    pub location: Location,
    pub js_doc: Option<String>,
    pub def: DocNodeDef,
}

impl DocNodeDef {
    /// The kind of node that this data belongs to.
    pub open spec fn kind(self) -> DocNodeKind {
        match self {
            DocNodeDef::Function(_) => DocNodeKind::Function,
            DocNodeDef::Variable(_) => DocNodeKind::Variable,
            DocNodeDef::Class => DocNodeKind::Class,
            DocNodeDef::Enum => DocNodeKind::Enum,
            DocNodeDef::Interface => DocNodeKind::Interface,
            DocNodeDef::TypeAlias => DocNodeKind::TypeAlias,
            DocNodeDef::Namespace(_) => DocNodeKind::Namespace,
        }
    }
}

impl DocNode {
    /// The kind of the node.
    pub open spec fn spec_kind(&self) -> DocNodeKind {
        self.def.kind()
    }

    /// The kind of the node.
    #[verifier::when_used_as_spec(spec_kind)]
    pub fn kind(&self) -> (kind: DocNodeKind)
        ensures
            kind == self.spec_kind(),
    {
        match &self.def {
            DocNodeDef::Function(_) => DocNodeKind::Function,
            DocNodeDef::Variable(_) => DocNodeKind::Variable,
            DocNodeDef::Class => DocNodeKind::Class,
            DocNodeDef::Enum => DocNodeKind::Enum,
            DocNodeDef::Interface => DocNodeKind::Interface,
            DocNodeDef::TypeAlias => DocNodeKind::TypeAlias,
            DocNodeDef::Namespace(_) => DocNodeKind::Namespace,
        }
    }

    /// Whether the node has a signature: a function has one only with its
    /// return type, every other node always.
    pub open spec fn has_signature(self) -> bool {
        self.def matches DocNodeDef::Function(function_def) ==> function_def.return_type is Some
    }

    /// Whether the node can be printed with all that it contains: it has a
    /// signature, and so has every node inside it where it is a namespace.
    pub open spec fn printable(self) -> bool
        decreases self,
    {
        &&& self.has_signature()
        &&& self.def matches DocNodeDef::Namespace(namespace_def) ==> all_printable(
            namespace_def.elements@,
        )
    }

    /// Whether the node has a signature.
    pub fn is_signature_known(&self) -> (known: bool)
        ensures
            known == self.has_signature(),
    {
        match &self.def {
            DocNodeDef::Function(function_def) => function_def.return_type.is_some(),
            _ => true,
        }
    }

    /// Whether the node can be printed with all that it contains.
    pub fn is_printable(&self) -> (printable: bool)
        ensures
            printable == self.printable(),
        decreases self,
    {
        match &self.def {
            DocNodeDef::Function(function_def) => function_def.return_type.is_some(),
            DocNodeDef::Namespace(namespace_def) => are_printable(&namespace_def.elements),
            _ => true,
        }
    }
}

/// Whether every node of a collection can be printed.
pub open spec fn all_printable(nodes: Seq<DocNode>) -> bool
    decreases nodes,
{
    forall|i: int| 0 <= i < nodes.len() ==> (#[trigger] nodes[i]).printable()
}

/// Whether every node of a collection can be printed.
pub fn are_printable(nodes: &Vec<DocNode>) -> (printable: bool)
    ensures
        printable == all_printable(nodes@),
    decreases nodes,
{
    let mut i: usize = 0;
    while i < nodes.len()
        invariant
            i <= nodes.len(),
            forall|k: int| 0 <= k < i ==> (#[trigger] nodes@[k]).printable(),
        decreases nodes.len() - i,
    {
        if !nodes[i].is_printable() {
            return false;
        }
        i += 1;
    }
    true
}

/// The position of a kind in the printed order: functions first, then
/// variables, classes, enums, interfaces, type aliases and namespaces.
pub open spec fn kind_rank(kind: DocNodeKind) -> int {
    match kind {
        DocNodeKind::Function => 0,
        DocNodeKind::Variable => 1,
        DocNodeKind::Class => 2,
        DocNodeKind::Enum => 3,
        DocNodeKind::Interface => 4,
        DocNodeKind::TypeAlias => 5,
        DocNodeKind::Namespace => 6,
    }
}

/// The keyword of a variable declaration.
pub open spec fn var_keyword(kind: VarDeclKind) -> Seq<char> {
    match kind {
        VarDeclKind::Const => "const"@,
        VarDeclKind::Let => "let"@,
        VarDeclKind::Var => "var"@,
    }
}

/// The signature of a function: `function NAME(PARAMS): RETURN_TYPE`.
pub open spec fn function_signature(name: Seq<char>, function_def: FunctionDef) -> Seq<char> {
    "function "@ + name + "("@ + params_text(function_def.params@) + "): "@ + type_text(
        function_def.return_type->0,
    )
}

/// The signature of a variable: `KIND NAME`, followed by `: TYPE` where the
/// variable has a type.
pub open spec fn variable_signature(name: Seq<char>, variable_def: VariableDef) -> Seq<char> {
    var_keyword(variable_def.kind) + " "@ + name + (match variable_def.ts_type {
        Some(ts_type) => ": "@ + type_text(ts_type),
        None => Seq::empty(),
    })
}

/// The signature of a node: one line without indentation and without the
/// newline that ends it. Only functions and variables show more than a
/// keyword and the name.
pub open spec fn signature_text(node: DocNode) -> Seq<char> {
    match node.def {
        DocNodeDef::Function(function_def) => function_signature(node.name@, function_def),
        DocNodeDef::Variable(variable_def) => variable_signature(node.name@, variable_def),
        DocNodeDef::Class => "class "@ + node.name@,
        DocNodeDef::Enum => "enum "@ + node.name@,
        DocNodeDef::Interface => "interface "@ + node.name@,
        DocNodeDef::TypeAlias => "type "@ + node.name@,
        DocNodeDef::Namespace(_) => "namespace "@ + node.name@,
    }
}

/// The signature of a node as a line at `depth`, without the newline that
/// ends it.
pub open spec fn signature_line(node: DocNode, depth: int) -> Seq<char> {
    indent_text(depth) + signature_text(node)
}

/// A location as text: `FILENAME:LINE:COLUMN`.
pub open spec fn location_text(location: Location) -> Seq<char> {
    location.filename@ + ":"@ + decimal_text(location.line as nat) + ":"@ + decimal_text(
        location.col as nat,
    )
}

} // verus!
