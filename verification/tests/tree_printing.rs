use doc_printer::node::{
    are_printable, DocNode, DocNodeDef, DocNodeKind, FunctionDef, Location, NamespaceDef,
    VarDeclKind, VariableDef,
};
use doc_printer::printer::TerminalPrinter;
use doc_printer::ts_type::{ParamDef, TsTypeDef};

fn keyword(name: &str) -> TsTypeDef {
    TsTypeDef::Keyword(name.to_string())
}

fn node(name: &str, def: DocNodeDef) -> DocNode {
    DocNode {
        name: name.to_string(),
        location: Location { filename: "mod.ts".to_string(), line: 1, col: 1 },
        js_doc: None,
        def,
    }
}

fn documented(name: &str, def: DocNodeDef, js_doc: &str) -> DocNode {
    let mut documented = node(name, def);
    documented.js_doc = Some(js_doc.to_string());
    documented
}

fn function(name: &str, params: Vec<ParamDef>, return_type: TsTypeDef) -> DocNode {
    node(name, DocNodeDef::Function(FunctionDef { params, return_type: Some(return_type) }))
}

fn variable(name: &str, kind: VarDeclKind, ts_type: Option<TsTypeDef>) -> DocNode {
    node(name, DocNodeDef::Variable(VariableDef { kind, ts_type }))
}

fn namespace(name: &str, elements: Vec<DocNode>) -> DocNode {
    node(name, DocNodeDef::Namespace(NamespaceDef { elements }))
}

fn add_function() -> DocNode {
    function(
        "add",
        vec![
            ParamDef { name: "a".to_string(), ts_type: Some(keyword("number")) },
            ParamDef { name: "b".to_string(), ts_type: Some(keyword("number")) },
        ],
        keyword("number"),
    )
}

#[test]
fn function_signature_of_add() {
    let printer = TerminalPrinter::new();
    assert_eq!(
        printer.print_function_signature(&add_function(), 0),
        "function add(a: number, b: number): number"
    );
    assert_eq!(
        printer.print_function_signature(&add_function(), 2),
        "    function add(a: number, b: number): number"
    );
}

#[test]
fn function_signature_without_params() {
    let printer = TerminalPrinter::new();
    assert_eq!(
        printer.print_function_signature(&function("f", vec![], keyword("void")), 0),
        "function f(): void"
    );
}

#[test]
fn variable_signature_const_without_type() {
    let printer = TerminalPrinter::new();
    assert_eq!(
        printer.print_variable_signature(&variable("x", VarDeclKind::Const, None), 0),
        "const x"
    );
}

#[test]
fn variable_signature_shows_kind_and_type() {
    let printer = TerminalPrinter::new();
    assert_eq!(
        printer.print_variable_signature(
            &variable("x", VarDeclKind::Let, Some(keyword("string"))),
            0
        ),
        "let x: string"
    );
    assert_eq!(
        printer.print_variable_signature(&variable("y", VarDeclKind::Var, None), 1),
        "  var y"
    );
    assert_eq!(
        printer.print_variable_signature(
            &variable("z", VarDeclKind::Const, Some(TsTypeDef::Array(Box::new(keyword("number"))))),
            0
        ),
        "const z: number[]"
    );
}

#[test]
fn other_signatures_show_keyword_and_name() {
    let printer = TerminalPrinter::new();
    assert_eq!(printer.print_class_signature(&node("C", DocNodeDef::Class), 0), "class C");
    assert_eq!(printer.print_enum_signature(&node("E", DocNodeDef::Enum), 0), "enum E");
    assert_eq!(
        printer.print_interface_signature(&node("I", DocNodeDef::Interface), 0),
        "interface I"
    );
    assert_eq!(printer.print_type_alias_signature(&node("T", DocNodeDef::TypeAlias), 0), "type T");
    assert_eq!(
        printer.print_namespace_signature(&namespace("N", vec![]), 0),
        "namespace N"
    );
    assert_eq!(printer.print_class_signature(&node("C", DocNodeDef::Class), 3), "      class C");
}

#[test]
fn kind_order_ranks_the_kinds() {
    let printer = TerminalPrinter::new();
    assert_eq!(printer.kind_order(&DocNodeKind::Function), 0);
    assert_eq!(printer.kind_order(&DocNodeKind::Variable), 1);
    assert_eq!(printer.kind_order(&DocNodeKind::Class), 2);
    assert_eq!(printer.kind_order(&DocNodeKind::Enum), 3);
    assert_eq!(printer.kind_order(&DocNodeKind::Interface), 4);
    assert_eq!(printer.kind_order(&DocNodeKind::TypeAlias), 5);
    assert_eq!(printer.kind_order(&DocNodeKind::Namespace), 6);
}

#[test]
fn kind_of_a_node_follows_its_data() {
    assert_eq!(add_function().kind(), DocNodeKind::Function);
    assert_eq!(variable("x", VarDeclKind::Var, None).kind(), DocNodeKind::Variable);
    assert_eq!(node("C", DocNodeDef::Class).kind(), DocNodeKind::Class);
    assert_eq!(node("E", DocNodeDef::Enum).kind(), DocNodeKind::Enum);
    assert_eq!(node("I", DocNodeDef::Interface).kind(), DocNodeKind::Interface);
    assert_eq!(node("T", DocNodeDef::TypeAlias).kind(), DocNodeKind::TypeAlias);
    assert_eq!(namespace("N", vec![]).kind(), DocNodeKind::Namespace);
}

#[test]
fn empty_collection_prints_nothing() {
    assert_eq!(TerminalPrinter::new().print(vec![]), "");
}

#[test]
fn single_node_is_signature_and_blank_line() {
    assert_eq!(TerminalPrinter::new().print(vec![node("A", DocNodeDef::Class)]), "class A\n\n");
}

#[test]
fn comment_in_tree_is_truncated_and_one_level_deeper() {
    let nodes = vec![documented("A", DocNodeDef::Class, "Para one.\n\nPara two.")];
    assert_eq!(TerminalPrinter::new().print(nodes), "class A\n  Para one.\n\n");
}

#[test]
fn names_b_and_a_print_a_first() {
    let nodes = vec![node("b", DocNodeDef::Class), node("a", DocNodeDef::Class)];
    assert_eq!(TerminalPrinter::new().print(nodes), "class a\n\nclass b\n\n");
}

#[test]
fn nodes_are_sorted_by_kind_then_name() {
    let nodes = vec![
        namespace("a", vec![]),
        node("b", DocNodeDef::TypeAlias),
        node("c", DocNodeDef::Interface),
        node("d", DocNodeDef::Enum),
        node("f", DocNodeDef::Class),
        node("e", DocNodeDef::Class),
        variable("h", VarDeclKind::Let, None),
        variable("g", VarDeclKind::Const, None),
        function("j", vec![], keyword("void")),
        function("i", vec![], keyword("void")),
    ];
    let expected = "function i(): void\n\n\
                    function j(): void\n\n\
                    const g\n\n\
                    let h\n\n\
                    class e\n\n\
                    class f\n\n\
                    enum d\n\n\
                    interface c\n\n\
                    type b\n\n\
                    namespace a\n\n\n";
    assert_eq!(TerminalPrinter::new().print(nodes), expected);
}

#[test]
fn names_are_ordered_by_code_point() {
    let nodes = vec![
        node("abc", DocNodeDef::Class),
        node("\u{e9}", DocNodeDef::Class),
        node("z", DocNodeDef::Class),
        node("ab", DocNodeDef::Class),
        node("B", DocNodeDef::Class),
        node("", DocNodeDef::Class),
        node("a", DocNodeDef::Class),
        node("\u{1f600}", DocNodeDef::Class),
        node("\u{ffff}", DocNodeDef::Class),
    ];
    let expected = "class \n\nclass B\n\nclass a\n\nclass ab\n\nclass abc\n\nclass z\n\n\
                    class \u{e9}\n\nclass \u{ffff}\n\nclass \u{1f600}\n\n";
    assert_eq!(TerminalPrinter::new().print(nodes), expected);
}

#[test]
fn order_agrees_with_std_sorting() {
    let names = vec!["delta", "alpha", "", "Alpha", "alp", "alpha ", "beta", "\u{3b1}", "a\u{308}"];
    let mut nodes = Vec::new();
    for name in &names {
        nodes.push(node(name, DocNodeDef::Enum));
    }
    let mut sorted = names.clone();
    sorted.sort();
    let mut expected = String::new();
    for name in sorted {
        expected.push_str(&format!("enum {}\n\n", name));
    }
    assert_eq!(TerminalPrinter::new().print(nodes), expected);
}

#[test]
fn nodes_of_equal_kind_and_name_keep_their_order() {
    let nodes = vec![
        variable("x", VarDeclKind::Let, None),
        variable("a", VarDeclKind::Var, None),
        variable("x", VarDeclKind::Const, None),
        variable("x", VarDeclKind::Var, Some(keyword("number"))),
    ];
    assert_eq!(
        TerminalPrinter::new().print(nodes),
        "var a\n\nlet x\n\nconst x\n\nvar x: number\n\n"
    );
}

#[test]
fn namespace_without_children() {
    assert_eq!(TerminalPrinter::new().print(vec![namespace("N", vec![])]), "namespace N\n\n\n");
}

#[test]
fn namespace_with_one_child() {
    let nodes = vec![namespace("N", vec![node("A", DocNodeDef::Class)])];
    assert_eq!(TerminalPrinter::new().print(nodes), "namespace N\n\n  class A\n\n\n");
}

#[test]
fn namespace_with_two_children() {
    let nodes =
        vec![namespace("N", vec![node("b", DocNodeDef::Class), node("a", DocNodeDef::Class)])];
    assert_eq!(
        TerminalPrinter::new().print(nodes),
        "namespace N\n\n  class a\n\n  class b\n\n\n"
    );
}

#[test]
fn namespace_with_comment_and_nested_namespace() {
    let inner = namespace(
        "Inner",
        vec![documented("deep", DocNodeDef::Function(FunctionDef {
            params: vec![],
            return_type: Some(keyword("void")),
        }), "Deep one.\nStill the same paragraph.\n\nNot shown.")],
    );
    let outer = documented(
        "Outer",
        DocNodeDef::Namespace(NamespaceDef { elements: vec![inner, node("C", DocNodeDef::Class)] }),
        "Outer doc.",
    );
    let nodes = vec![outer, node("Z", DocNodeDef::Class)];
    let expected = "class Z\n\
                    \n\
                    namespace Outer\n\
                    \x20 Outer doc.\n\
                    \n\
                    \x20 class C\n\
                    \n\
                    \x20 namespace Inner\n\
                    \n\
                    \x20   function deep(): void\n\
                    \x20     Deep one. Still the same paragraph.\n\
                    \n\
                    \n\
                    \n";
    assert_eq!(TerminalPrinter::new().print(nodes), expected);
}

#[test]
fn printing_at_a_depth_indents_every_line() {
    let nodes = vec![documented("A", DocNodeDef::Class, "Doc."), namespace("N", vec![node(
        "B",
        DocNodeDef::Enum,
    )])];
    assert_eq!(
        TerminalPrinter::new().print_(&nodes, 2),
        "    class A\n      Doc.\n\n    namespace N\n\n      enum B\n\n\n"
    );
}

#[test]
fn printing_below_depth_zero_starts_to_indent_at_depth_one() {
    let nodes = vec![documented(
        "N0",
        DocNodeDef::Namespace(NamespaceDef {
            elements: vec![documented(
                "N1",
                DocNodeDef::Namespace(NamespaceDef {
                    elements: vec![documented(
                        "N2",
                        DocNodeDef::Namespace(NamespaceDef {
                            elements: vec![documented("C", DocNodeDef::Class, "c")],
                        }),
                        "n2",
                    )],
                }),
                "n1",
            )],
        }),
        "n0",
    )];
    let expected = "namespace N0\nn0\n\n\
                    namespace N1\nn1\n\n\
                    namespace N2\n  n2\n\n\
                    \x20 class C\n    c\n\n\
                    \n\n\n";
    assert_eq!(TerminalPrinter::new().print_(&nodes, -2), expected);
}

#[test]
fn printing_leaves_the_collection_as_it_was() {
    let nodes = vec![node("b", DocNodeDef::Class), node("a", DocNodeDef::Class)];
    let printer = TerminalPrinter::new();
    let first = printer.print_(&nodes, 0);
    assert_eq!(nodes[0].name, "b");
    assert_eq!(nodes[1].name, "a");
    assert_eq!(printer.print_(&nodes, 0), first);
}

#[test]
fn details_show_location_signature_and_whole_comment() {
    let mut add = add_function();
    add.location = Location { filename: "src/math.ts".to_string(), line: 10, col: 5 };
    add.js_doc = Some("Adds two numbers.\nBoth are needed.\n\nReturns the sum.".to_string());
    assert_eq!(
        TerminalPrinter::new().print_details(add),
        "src/math.ts:10:5\n\n\
         function add(a: number, b: number): number\n\
         \x20 Adds two numbers. Both are needed.\n\
         \x20 Returns the sum.\n"
    );
}

#[test]
fn details_without_comment() {
    let mut variable = variable("x", VarDeclKind::Const, None);
    variable.location = Location { filename: "a.ts".to_string(), line: 1, col: 1 };
    assert_eq!(TerminalPrinter::new().print_details(variable), "a.ts:1:1\n\nconst x\n");
}

#[test]
fn details_of_each_kind() {
    let printer = TerminalPrinter::new();
    assert_eq!(printer.print_details(node("C", DocNodeDef::Class)), "mod.ts:1:1\n\nclass C\n");
    assert_eq!(printer.print_details(node("E", DocNodeDef::Enum)), "mod.ts:1:1\n\nenum E\n");
    assert_eq!(
        printer.print_details(node("I", DocNodeDef::Interface)),
        "mod.ts:1:1\n\ninterface I\n"
    );
    assert_eq!(printer.print_details(node("T", DocNodeDef::TypeAlias)), "mod.ts:1:1\n\ntype T\n");
}

#[test]
fn details_do_not_show_what_a_namespace_holds() {
    let mut space = namespace("N", vec![node("A", DocNodeDef::Class)]);
    space.location = Location { filename: "n.ts".to_string(), line: 0, col: u64::MAX };
    space.js_doc = Some("Things.".to_string());
    assert_eq!(
        TerminalPrinter::new().print_details(space),
        "n.ts:0:18446744073709551615\n\nnamespace N\n  Things.\n"
    );
}

#[test]
fn function_without_return_type_is_not_printable() {
    let bare = node("f", DocNodeDef::Function(FunctionDef { params: vec![], return_type: None }));
    assert!(!bare.is_signature_known());
    assert!(!bare.is_printable());
    assert!(add_function().is_signature_known());
    assert!(add_function().is_printable());
    assert!(node("C", DocNodeDef::Class).is_printable());
}

#[test]
fn namespace_is_printable_only_with_all_it_holds() {
    let bare = node("f", DocNodeDef::Function(FunctionDef { params: vec![], return_type: None }));
    let holding = namespace("N", vec![node("C", DocNodeDef::Class), namespace("M", vec![bare])]);
    assert!(holding.is_signature_known());
    assert!(!holding.is_printable());
    assert!(!are_printable(&vec![node("C", DocNodeDef::Class), holding]));
    assert!(are_printable(&vec![namespace("N", vec![add_function()])]));
    assert!(are_printable(&vec![]));
}
