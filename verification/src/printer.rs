//! The printer: renders type expressions, parameter lists, signatures,
//! comments and whole trees of documentation nodes.

use crate::jsdoc::render_comment;
use crate::node::{
    all_printable, function_signature, kind_rank, signature_line, signature_text,
    variable_signature, DocNode, DocNodeDef, DocNodeKind, VarDeclKind,
};
use crate::order::{index_values, key_views, print_order, sorted_indices, SortKey};
use crate::text::{
    chars_of, concat, indent_text, indentation, join, lemma_indent_step, push_decimal,
    push_signed_decimal,
};
use crate::tree::{detail_text, jsdoc_text, node_key, node_keys, node_texts, tree_text};
use crate::ts_type::{
    param_texts, params_text, type_args_text, type_text, type_texts, LiteralDef, ParamDef,
    TsTypeDef,
};
use vstd::prelude::*;
use vstd::string::*;

verus! {

/// Renders documentation for a terminal. It holds no state: what it renders
/// depends on its arguments alone.
#[derive(Debug)]
pub struct TerminalPrinter {}

impl TerminalPrinter {
    pub fn new() -> (printer: TerminalPrinter)
        ensures
            printer == (TerminalPrinter {  }),
    {
        TerminalPrinter {  }
    }

    /// The text of a collection of nodes, each node with its signature and
    /// the first paragraph of its comment, sorted by kind and name, and the
    /// nodes inside a namespace one level deeper behind it.
    pub fn print(&self, doc_nodes: Vec<DocNode>) -> (out: String)
        requires
            all_printable(doc_nodes@),
        ensures
            out@ == tree_text(doc_nodes@, 0),
    {
        self.print_(&doc_nodes, 0)
    }

    /// The text of one node in detail: the line of its location, a blank
    /// line, its signature, and every paragraph of its comment. The node is
    /// shown alone: what a namespace holds is left out.
    pub fn print_details(&self, node: DocNode) -> (out: String)
        requires
            node.has_signature(),
        ensures
            out@ == detail_text(node),
    {
        let mut out = node.location.filename.clone();
        out.append(":");
        push_decimal(&mut out, node.location.line);
        out.append(":");
        push_decimal(&mut out, node.location.col);
        out.push('\n');
        out.push('\n');
        let signature = match node.kind() {
            DocNodeKind::Function => self.print_function_signature(&node, 0),
            DocNodeKind::Variable => self.print_variable_signature(&node, 0),
            DocNodeKind::Class => self.print_class_signature(&node, 0),
            DocNodeKind::Enum => self.print_enum_signature(&node, 0),
            DocNodeKind::Interface => self.print_interface_signature(&node, 0),
            DocNodeKind::TypeAlias => self.print_type_alias_signature(&node, 0),
            DocNodeKind::Namespace => self.print_namespace_signature(&node, 0),
        };
        assert(signature@ == signature_line(node, 0));
        out.append(signature.as_str());
        out.push('\n');
        match &node.js_doc {
            Some(js_doc) => {
                let comment = self.print_jsdoc(js_doc.as_str(), false, 0);
                out.append(comment.as_str());
            },
            None => {},
        }
        out
    }

    /// The position of a kind in the printed order: functions first, then
    /// variables, classes, enums, interfaces, type aliases and namespaces.
    pub fn kind_order(&self, kind: &DocNodeKind) -> (order: i64)
        ensures
            order == kind_rank(*kind),
    {
        match kind {
            DocNodeKind::Function => 0,
            DocNodeKind::Variable => 1,
            DocNodeKind::Class => 2,
            DocNodeKind::Enum => 3,
            DocNodeKind::Interface => 4,
            DocNodeKind::TypeAlias => 5,
            DocNodeKind::Namespace => 6,
        }
    }

    /// The text of a collection of nodes at `indent`: the nodes in the order
    /// of printing, each with its signature line, the first paragraph of its
    /// comment and a blank line, and behind a namespace the nodes inside it,
    /// one level deeper, and one more blank line. The collection is left as
    /// it was given.
    pub fn print_(&self, doc_nodes: &Vec<DocNode>, indent: i64) -> (out: String)
        requires
            all_printable(doc_nodes@),
        ensures
            out@ == tree_text(doc_nodes@, indent as int),
    {
        if indent < 0 {
            proof {
                reveal_strlit("");
                assert(""@ =~= indent_text(indent as int));
            }
            self.print_at(doc_nodes, indent, "", Ghost(indent as int))
        } else {
            let prefix = self.print_indent(indent);
            self.print_at(doc_nodes, 0, prefix.as_str(), Ghost(indent as int))
        }
    }

    /// The keys by which the nodes are ordered.
    fn sort_keys(&self, doc_nodes: &Vec<DocNode>) -> (keys: Vec<SortKey>)
        ensures
            keys@.len() == doc_nodes@.len(),
            key_views(keys@) == node_keys(doc_nodes@),
    {
        let mut keys: Vec<SortKey> = Vec::new();
        let mut i: usize = 0;
        while i < doc_nodes.len()
            invariant
                i <= doc_nodes.len(),
                keys@.len() == i,
                forall|k: int| 0 <= k < i ==> (#[trigger] keys@[k])@ == node_key(doc_nodes@[k]),
            decreases doc_nodes.len() - i,
        {
            let node = &doc_nodes[i];
            let kind = node.kind();
            keys.push(SortKey { rank: self.kind_order(&kind), name: chars_of(node.name.as_str()) });
            i += 1;
        }
        assert(key_views(keys@) =~= node_keys(doc_nodes@));
        keys
    }

    /// The text of a collection of nodes at `depth`, whose lines start with
    /// `prefix`, the indentation of that depth. As long as the depth is
    /// below zero, where nothing is indented, `below` holds it; from depth
    /// zero on `below` is zero and the prefix grows with the depth.
    fn print_at(
        &self,
        doc_nodes: &Vec<DocNode>,
        below: i64,
        prefix: &str,
        Ghost(depth): Ghost<int>,
    ) -> (out: String)
        requires
            all_printable(doc_nodes@),
            below <= 0,
            below < 0 ==> depth == below,
            below == 0 ==> depth >= 0,
            prefix@ == indent_text(depth),
        ensures
            out@ == tree_text(doc_nodes@, depth),
        decreases doc_nodes,
    {
        // The indentation of the next depth, for comments and for the nodes
        // inside a namespace.
        let mut inner = String::from_str(prefix);
        let mut inner_below: i64 = 0;
        if below < 0 {
            inner_below = below + 1;
            assert(inner@ =~= indent_text(depth + 1));
        } else {
            inner.append("  ");
            proof {
                reveal_strlit("  ");
                lemma_indent_step(depth);
                assert(inner@ =~= indent_text(depth) + seq![' ', ' ']);
            }
        }
        let keys = self.sort_keys(doc_nodes);
        let order = sorted_indices(&keys);
        let ghost sorted = print_order(node_keys(doc_nodes@));
        let ghost texts = node_texts(doc_nodes@, sorted, depth);
        let mut out = String::new();
        let mut k: usize = 0;
        while k < order.len()
            invariant
                k <= order@.len(),
                order@.len() == doc_nodes@.len(),
                index_values(order@) == sorted,
                forall|j: int| 0 <= j < order@.len() ==> #[trigger] order@[j] < doc_nodes@.len(),
                texts == node_texts(doc_nodes@, sorted, depth),
                out@ == concat(texts.take(k as int)),
                all_printable(doc_nodes@),
                prefix@ == indent_text(depth),
                inner@ == indent_text(depth + 1),
                inner_below <= 0,
                inner_below < 0 ==> depth + 1 == inner_below,
                inner_below == 0 ==> depth + 1 >= 0,
            decreases order@.len() - k,
        {
            let ghost before = out@;
            let node = &doc_nodes[order[k]];
            assert(sorted[k as int] == order@[k as int]);
            assert(node.printable());
            out.append(prefix);
            let signature = self.signature(node);
            out.append(signature.as_str());
            out.push('\n');
            match &node.js_doc {
                Some(js_doc) => {
                    let comment = render_comment(js_doc.as_str(), true, inner.as_str());
                    out.append(comment.as_str());
                },
                None => {},
            }
            out.push('\n');
            proof {
                assert(out@ == before + (signature_line(*node, depth) + seq!['\n'] + (
                match node.js_doc {
                    Some(js_doc) => jsdoc_text(js_doc@, true, depth),
                    None => Seq::empty(),
                }) + seq!['\n']));
            }
            match &node.def {
                DocNodeDef::Namespace(namespace_def) => {
                    let nested = self.print_at(
                        &namespace_def.elements,
                        inner_below,
                        inner.as_str(),
                        Ghost(depth + 1),
                    );
                    out.append(nested.as_str());
                    out.push('\n');
                },
                _ => {},
            }
            proof {
                assert(texts.take(k + 1).drop_last() == texts.take(k as int));
            }
            k += 1;
        }
        assert(texts.take(order@.len() as int) == texts);
        out
    }

    /// The text of a parameter list: each parameter's name, followed by `: `
    /// and its type where it has one; `, ` between two parameters.
    pub fn render_params(&self, params: &Vec<ParamDef>) -> (rendered: String)
        ensures
            rendered@ == params_text(params@),
        decreases params, 1int,
    {
        let mut rendered = String::new();
        let mut i: usize = 0;
        while i < params.len()
            invariant
                i <= params.len(),
                rendered@ == join(param_texts(params@).take(i as int), ", "@),
            decreases params.len() - i,
        {
            if i > 0 {
                rendered.append(", ");
            }
            let param = &params[i];
            rendered.append(param.name.as_str());
            match &param.ts_type {
                Some(ts_type) => {
                    rendered.append(": ");
                    let ts_type_text = self.render_ts_type(ts_type);
                    rendered.append(ts_type_text.as_str());
                },
                None => {},
            }
            proof {
                let texts = param_texts(params@);
                assert(texts.take(i + 1).drop_last() == texts.take(i as int));
            }
            i += 1;
        }
        assert(param_texts(params@).take(params.len() as int) == param_texts(params@));
        rendered
    }

    /// The texts of `types`, with `separator` between each two neighbours.
    fn render_joined(&self, types: &Vec<TsTypeDef>, separator: &str) -> (output: String)
        ensures
            output@ == join(type_texts(types@), separator@),
        decreases types, 1int,
    {
        let mut output = String::new();
        let mut i: usize = 0;
        while i < types.len()
            invariant
                i <= types.len(),
                output@ == join(type_texts(types@).take(i as int), separator@),
            decreases types.len() - i,
        {
            if i > 0 {
                output.append(separator);
            }
            let piece = self.render_ts_type(&types[i]);
            output.append(piece.as_str());
            proof {
                let texts = type_texts(types@);
                assert(texts.take(i + 1).drop_last() == texts.take(i as int));
            }
            i += 1;
        }
        assert(type_texts(types@).take(types.len() as int) == type_texts(types@));
        output
    }

    /// The canonical text of a type expression. It depends on the expression
    /// alone.
    pub fn render_ts_type(&self, ts_type: &TsTypeDef) -> (rendered: String)
        ensures
            rendered@ == type_text(*ts_type),
        decreases ts_type, 0int,
    {
        match ts_type {
            TsTypeDef::Array(element) => {
                let mut output = self.render_ts_type(element);
                output.append("[]");
                output
            },
            TsTypeDef::Conditional { check_type, extends_type, true_type, false_type } => {
                let mut output = self.render_ts_type(check_type);
                output.append(" extends ");
                let extends_text = self.render_ts_type(extends_type);
                output.append(extends_text.as_str());
                output.append(" ? ");
                let true_text = self.render_ts_type(true_type);
                output.append(true_text.as_str());
                output.append(" : ");
                let false_text = self.render_ts_type(false_type);
                output.append(false_text.as_str());
                output
            },
            TsTypeDef::FnOrConstructor { constructor, params, ts_type: return_type } => {
                let mut output = String::new();
                if *constructor {
                    output.append("new ");
                }
                output.append("(");
                let params_rendered = self.render_params(params);
                output.append(params_rendered.as_str());
                output.append(") => ");
                let return_text = self.render_ts_type(return_type);
                output.append(return_text.as_str());
                output
            },
            TsTypeDef::IndexedAccess { obj_type, index_type } => {
                let mut output = self.render_ts_type(obj_type);
                output.append("[");
                let index_text = self.render_ts_type(index_type);
                output.append(index_text.as_str());
                output.append("]");
                output
            },
            TsTypeDef::Intersection(types) => self.render_joined(types, " & "),
            TsTypeDef::Keyword(keyword) => keyword.clone(),
            TsTypeDef::Literal(literal) => {
                match literal {
                    LiteralDef::Boolean(value) => {
                        if *value {
                            String::from_str("true")
                        } else {
                            String::from_str("false")
                        }
                    },
                    LiteralDef::String(value) => value.clone(),
                    LiteralDef::Number(value) => {
                        let mut output = String::new();
                        push_signed_decimal(&mut output, *value);
                        output
                    },
                }
            },
            TsTypeDef::Optional(_) => String::from_str("_optional_"),
            TsTypeDef::Parenthesized(inner) => {
                let mut output = String::from_str("(");
                let inner_text = self.render_ts_type(inner);
                output.append(inner_text.as_str());
                output.append(")");
                output
            },
            TsTypeDef::Rest(inner) => {
                let mut output = String::from_str("...");
                let inner_text = self.render_ts_type(inner);
                output.append(inner_text.as_str());
                output
            },
            TsTypeDef::This => String::from_str("this"),
            TsTypeDef::Tuple(types) => self.render_joined(types, ", "),
            TsTypeDef::TypeLiteral(repr) => repr.clone(),
            TsTypeDef::TypeOperator { operator, ts_type: operand } => {
                let mut output = operator.clone();
                output.append(" ");
                let operand_text = self.render_ts_type(operand);
                output.append(operand_text.as_str());
                output
            },
            TsTypeDef::TypeQuery(name) => {
                let mut output = String::from_str("typeof ");
                output.append(name.as_str());
                output
            },
            TsTypeDef::TypeRef { name, type_params } => {
                let mut output = name.clone();
                match type_params {
                    Some(types) => {
                        if types.len() > 0 {
                            output.append("<");
                            let arguments = self.render_joined(types, ", ");
                            output.append(arguments.as_str());
                            output.append(">");
                        }
                        assert(output@ == name@ + type_args_text(types@));
                    },
                    None => {},
                }
                output
            },
            TsTypeDef::Union(types) => self.render_joined(types, " | "),
        }
    }

    /// The text that indents a line at `indent`: two spaces for each level.
    pub fn print_indent(&self, indent: i64) -> (out: String)
        ensures
            out@ == indent_text(indent as int),
    {
        indentation(indent)
    }

    /// The text of a comment that documents a signature at `indent`: its
    /// first paragraph where `truncated` is set, else all its paragraphs,
    /// each on a line of its own, one level deeper than the signature.
    pub fn print_jsdoc(&self, jsdoc: &str, truncated: bool, indent: i64) -> (out: String)
        ensures
            out@ == jsdoc_text(jsdoc@, truncated, indent as int),
    {
        let mut prefix = String::new();
        if indent >= 0 {
            prefix = self.print_indent(indent);
            prefix.append("  ");
            proof {
                reveal_strlit("  ");
            }
        }
        assert(prefix@ =~= indent_text(indent + 1));
        render_comment(jsdoc, truncated, prefix.as_str())
    }

    /// The line `function NAME(PARAMS): RETURN_TYPE` at `indent`, without the
    /// newline that ends it.
    pub fn print_function_signature(&self, node: &DocNode, indent: i64) -> (out: String)
        requires
            node.def is Function,
            node.has_signature(),
        ensures
            out@ == indent_text(indent as int) + function_signature(
                node.name@,
                node.def->Function_0,
            ),
    {
        let mut out = self.print_indent(indent);
        let text = self.function_text(node);
        out.append(text.as_str());
        out
    }

    /// The line `class NAME` at `indent`, without the newline that ends it.
    pub fn print_class_signature(&self, node: &DocNode, indent: i64) -> (out: String)
        ensures
            out@ == indent_text(indent as int) + "class "@ + node.name@,
    {
        let mut out = self.print_indent(indent);
        out.append("class ");
        out.append(node.name.as_str());
        out
    }

    /// The line `KIND NAME`, followed by `: TYPE` where the variable has a
    /// type, at `indent`, without the newline that ends it. The kind is one
    /// of `const`, `let` and `var`.
    pub fn print_variable_signature(&self, node: &DocNode, indent: i64) -> (out: String)
        requires
            node.def is Variable,
        ensures
            out@ == indent_text(indent as int) + variable_signature(
                node.name@,
                node.def->Variable_0,
            ),
    {
        let mut out = self.print_indent(indent);
        let text = self.variable_text(node);
        out.append(text.as_str());
        out
    }

    /// The line `enum NAME` at `indent`, without the newline that ends it.
    pub fn print_enum_signature(&self, node: &DocNode, indent: i64) -> (out: String)
        ensures
            out@ == indent_text(indent as int) + "enum "@ + node.name@,
    {
        let mut out = self.print_indent(indent);
        out.append("enum ");
        out.append(node.name.as_str());
        out
    }

    /// The line `interface NAME` at `indent`, without the newline that ends
    /// it.
    pub fn print_interface_signature(&self, node: &DocNode, indent: i64) -> (out: String)
        ensures
            out@ == indent_text(indent as int) + "interface "@ + node.name@,
    {
        let mut out = self.print_indent(indent);
        out.append("interface ");
        out.append(node.name.as_str());
        out
    }

    /// The line `type NAME` at `indent`, without the newline that ends it.
    pub fn print_type_alias_signature(&self, node: &DocNode, indent: i64) -> (out: String)
        ensures
            out@ == indent_text(indent as int) + "type "@ + node.name@,
    {
        let mut out = self.print_indent(indent);
        out.append("type ");
        out.append(node.name.as_str());
        out
    }

    /// The line `namespace NAME` at `indent`, without the newline that ends
    /// it.
    pub fn print_namespace_signature(&self, node: &DocNode, indent: i64) -> (out: String)
        ensures
            out@ == indent_text(indent as int) + "namespace "@ + node.name@,
    {
        let mut out = self.print_indent(indent);
        out.append("namespace ");
        out.append(node.name.as_str());
        out
    }

    /// The signature of a node, without indentation.
    fn signature(&self, node: &DocNode) -> (out: String)
        requires
            node.has_signature(),
        ensures
            out@ == signature_text(*node),
    {
        match node.kind() {
            DocNodeKind::Function => self.function_text(node),
            DocNodeKind::Variable => self.variable_text(node),
            DocNodeKind::Class => self.named_text("class ", node),
            DocNodeKind::Enum => self.named_text("enum ", node),
            DocNodeKind::Interface => self.named_text("interface ", node),
            DocNodeKind::TypeAlias => self.named_text("type ", node),
            DocNodeKind::Namespace => self.named_text("namespace ", node),
        }
    }

    /// The signature of a function, without indentation.
    fn function_text(&self, node: &DocNode) -> (out: String)
        requires
            node.def is Function,
            node.has_signature(),
        ensures
            out@ == signature_text(*node),
    {
        let mut out = String::from_str("function ");
        out.append(node.name.as_str());
        out.append("(");
        match &node.def {
            DocNodeDef::Function(function_def) => {
                let params = self.render_params(&function_def.params);
                out.append(params.as_str());
                out.append("): ");
                match &function_def.return_type {
                    Some(return_type) => {
                        let return_text = self.render_ts_type(return_type);
                        out.append(return_text.as_str());
                    },
                    None => {},
                }
            },
            _ => {},
        }
        out
    }

    /// The signature of a variable, without indentation.
    fn variable_text(&self, node: &DocNode) -> (out: String)
        requires
            node.def is Variable,
        ensures
            out@ == signature_text(*node),
    {
        let mut out = String::new();
        match &node.def {
            DocNodeDef::Variable(variable_def) => {
                match variable_def.kind {
                    VarDeclKind::Const => out.append("const"),
                    VarDeclKind::Let => out.append("let"),
                    VarDeclKind::Var => out.append("var"),
                }
                out.append(" ");
                out.append(node.name.as_str());
                match &variable_def.ts_type {
                    Some(ts_type) => {
                        out.append(": ");
                        let ts_type_text = self.render_ts_type(ts_type);
                        out.append(ts_type_text.as_str());
                    },
                    None => {},
                }
            },
            _ => {},
        }
        out
    }

    /// A keyword with the space behind it, and the name of the node.
    fn named_text(&self, keyword: &str, node: &DocNode) -> (out: String)
        ensures
            out@ == keyword@ + node.name@,
    {
        let mut out = String::from_str(keyword);
        out.append(node.name.as_str());
        out
    }
}

} // verus!
