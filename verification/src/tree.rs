//! The text of a whole collection of nodes, and of one node in detail.

use crate::jsdoc::comment_text;
use crate::node::{kind_rank, location_text, signature_line, DocNode, DocNodeDef};
use crate::order::{
    is_print_order, key_before, lemma_name_order_total, lemma_print_order_sorted,
    lemma_print_order_unique, name_before, print_order,
};
use crate::text::{concat, indent_text};
use vstd::prelude::*;

verus! {

/// What a node is ordered by: the rank of its kind and its name.
pub open spec fn node_key(node: DocNode) -> (int, Seq<char>) {
    (kind_rank(node.def.kind()), node.name@)
}

/// The keys of the nodes of a collection, in the collection's order.
pub open spec fn node_keys(nodes: Seq<DocNode>) -> Seq<(int, Seq<char>)> {
    Seq::new(nodes.len(), |i: int| node_key(nodes[i]))
}

/// The text of a comment that documents a signature at `depth`: its lines
/// stand one level deeper than the signature.
pub open spec fn jsdoc_text(text: Seq<char>, truncated: bool, depth: int) -> Seq<char> {
    comment_text(text, truncated, indent_text(depth + 1))
}

/// The text of one node in a tree: its signature line, the first paragraph
/// of its comment where it has one, and a blank line; for a namespace, then
/// the nodes inside it one level deeper, and one more blank line.
pub open spec fn node_text(node: DocNode, depth: int) -> Seq<char>
    decreases node, 0int,
{
    signature_line(node, depth) + seq!['\n'] + (match node.js_doc {
        Some(js_doc) => jsdoc_text(js_doc@, true, depth),
        None => Seq::empty(),
    }) + seq!['\n'] + (match node.def {
        DocNodeDef::Namespace(namespace_def) => tree_text(namespace_def.elements@, depth + 1)
            + seq!['\n'],
        _ => Seq::empty(),
    })
}

/// The texts of the nodes that `order` names, in that order.
pub open spec fn node_texts(nodes: Seq<DocNode>, order: Seq<int>, depth: int) -> Seq<Seq<char>>
    decreases nodes, 0int,
{
    Seq::new(
        order.len(),
        |k: int|
            if 0 <= k < order.len() && 0 <= order[k] < nodes.len() {
                node_text(nodes[order[k]], depth)
            } else {
                Seq::empty()
            },
    )
}

/// The text of a collection of nodes at `depth`: the text of each node, in
/// the order of printing.
pub open spec fn tree_text(nodes: Seq<DocNode>, depth: int) -> Seq<char>
    decreases nodes, 1int,
{
    concat(node_texts(nodes, print_order(node_keys(nodes)), depth))
}

/// The text of one node in detail: the line of its location, a blank line,
/// its signature at depth zero, and every paragraph of its comment one level
/// deeper. What a namespace holds is not shown.
pub open spec fn detail_text(node: DocNode) -> Seq<char> {
    location_text(node.location) + seq!['\n'] + seq!['\n'] + signature_line(node, 0) + seq![
        '\n',
    ] + (match node.js_doc {
        Some(js_doc) => jsdoc_text(js_doc@, false, 0),
        None => Seq::empty(),
    })
}

/// The nodes of a collection are printed each once, by kind, nodes of one
/// kind by name, and nodes of one kind and name in the order in which they
/// were given.
pub proof fn lemma_tree_order(nodes: Seq<DocNode>, k: int, l: int)
    requires
        0 <= k < l < nodes.len(),
    ensures
        is_print_order(node_keys(nodes), print_order(node_keys(nodes))),
        ({
            let order = print_order(node_keys(nodes));
            let earlier = nodes[order[k]];
            let later = nodes[order[l]];
            &&& kind_rank(earlier.def.kind()) <= kind_rank(later.def.kind())
            &&& earlier.def.kind() == later.def.kind() ==> !name_before(later.name@, earlier.name@)
            &&& earlier.def.kind() == later.def.kind() && earlier.name@ == later.name@ ==> order[k]
                < order[l]
        }),
{
    let keys = node_keys(nodes);
    lemma_print_order_unique(keys, print_order(keys));
    lemma_print_order_sorted(keys, k, l);
}

/// An empty collection prints as nothing.
pub proof fn lemma_tree_text_empty(depth: int)
    ensures
        tree_text(Seq::<DocNode>::empty(), depth) == Seq::<char>::empty(),
{
    let nodes = Seq::<DocNode>::empty();
    lemma_print_order_unique(node_keys(nodes), Seq::<int>::empty());
}

/// A collection of one node prints as that node.
pub proof fn lemma_tree_text_single(node: DocNode, depth: int)
    ensures
        tree_text(seq![node], depth) == node_text(node, depth),
{
    let nodes = seq![node];
    let order = seq![0int];
    assert(order.contains(0)) by {
        assert(order[0] == 0);
    }
    lemma_print_order_unique(node_keys(nodes), order);
    let texts = node_texts(nodes, order, depth);
    assert(texts == seq![node_text(node, depth)]);
    assert(concat(texts.drop_last()) == Seq::<char>::empty());
}

/// Two nodes are printed in the order of their keys, whichever of them is
/// given first; two nodes with the same key, in the order in which they were
/// given.
pub proof fn lemma_tree_text_pair(first: DocNode, second: DocNode, depth: int)
    ensures
        key_before(node_key(second), node_key(first)) ==> tree_text(seq![first, second], depth)
            == node_text(second, depth) + node_text(first, depth),
        !key_before(node_key(second), node_key(first)) ==> tree_text(seq![first, second], depth)
            == node_text(first, depth) + node_text(second, depth),
{
    let nodes = seq![first, second];
    let keys = node_keys(nodes);
    let order = if key_before(node_key(second), node_key(first)) {
        seq![1int, 0int]
    } else {
        seq![0int, 1int]
    };
    lemma_name_order_total(first.name@, second.name@);
    assert(order.contains(0) && order.contains(1)) by {
        assert(order[0] == 0 || order[1] == 0);
        assert(order[0] == 1 || order[1] == 1);
    }
    assert(is_print_order(keys, order));
    lemma_print_order_unique(keys, order);
    let texts = node_texts(nodes, order, depth);
    let head = texts.drop_last();
    assert(concat(head.drop_last()) == Seq::<char>::empty());
    assert(concat(head) == Seq::<char>::empty() + texts[0]);
    assert(concat(texts) == concat(head) + texts[1]);
}

/// A namespace prints its signature line, its truncated comment where it has
/// one, a blank line, the nodes inside it one level deeper, and one blank
/// line behind them; any other node ends with the first blank line.
pub proof fn lemma_namespace_text(node: DocNode, depth: int)
    ensures
        node.def matches DocNodeDef::Namespace(namespace_def) ==> node_text(node, depth)
            == signature_line(node, depth) + seq!['\n'] + (match node.js_doc {
            Some(js_doc) => jsdoc_text(js_doc@, true, depth),
            None => Seq::empty(),
        }) + seq!['\n'] + tree_text(namespace_def.elements@, depth + 1) + seq!['\n'],
        !(node.def is Namespace) ==> node_text(node, depth) == signature_line(node, depth) + seq![
            '\n',
        ] + (match node.js_doc {
            Some(js_doc) => jsdoc_text(js_doc@, true, depth),
            None => Seq::empty(),
        }) + seq!['\n'],
{
}

} // verus!
