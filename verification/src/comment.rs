//! The comment-tree data model and the directive-marker predicate.
//!
//! A documentation comment is an ordered, finite tree of nodes.  Each node
//! carries a kind classification, a tag name (meaningful for HTML start-tag
//! elements), an ordered attribute list and an ordered list of children.
//! The upstream parser that produces such trees is outside this crate; here
//! the tree is plain data that the scanner reads.

use vstd::prelude::*;

verus! {

broadcast use vstd::std_specs::vec::group_vec_axioms;

/// Classification of a comment node.  The scanner only needs to tell HTML
/// start-tag elements apart from every other kind of content.
#[derive(Clone, Copy, Debug, PartialEq, Eq, Structural)]
pub enum CommentKind {
    /// An HTML start-tag element, e.g. `<div ...>`.
    HtmlStartTag,
    /// Any other node: text, paragraphs, end tags, inline commands, ...
    Other,
}

/// One name/value attribute pair of an HTML start-tag element.  An attribute
/// written without a value carries the empty string.
#[derive(Debug)]
pub struct Attr {
    pub name: String,
    pub value: String,
}

/// A node of a documentation comment tree, together with its subtree.
#[derive(Debug)]
pub struct CommentNode {
    /// Kind classification of this node.
    pub kind: CommentKind,
    /// Tag name; meaningful only when `kind` is `HtmlStartTag`.
    pub tag_name: String,
    /// Ordered attribute list; meaningful only when `kind` is `HtmlStartTag`.
    pub attrs: Vec<Attr>,
    /// Ordered children, in document order.
    pub children: Vec<CommentNode>,
}

/// A node is a directive marker iff it is an HTML start-tag element named
/// `div`, has more than one attribute, and its first attribute is the
/// reserved sentinel `rustbindgen`.  A `<div rustbindgen>` with the sentinel
/// alone does not qualify.
pub open spec fn is_marker(n: CommentNode) -> bool {
    &&& n.kind is HtmlStartTag
    &&& n.tag_name@ == "div"@
    &&& n.attrs@.len() > 1
    &&& n.attrs@[0].name@ == "rustbindgen"@
}

/// Whether some node of the tree rooted at `n` is a directive marker.
pub open spec fn contains_marker(n: CommentNode) -> bool
    decreases n,
{
    is_marker(n) || exists|i: int|
        0 <= i < n.children@.len() && contains_marker(#[trigger] n.children@[i])
}

/// A tree in which no node, at any depth, is an HTML start-tag element
/// named `div` holds no directive marker, so scanning it yields absence.
pub proof fn lemma_no_div_yields_absence(n: CommentNode)
    requires
        forall|m: CommentNode| #[trigger] occurs_in(m, n) ==> !(m.kind is HtmlStartTag
            && m.tag_name@ == "div"@),
    ensures
        !contains_marker(n),
{
    lemma_marker_at_any_depth(n);
}

/// A marker anywhere below a child is found from the root: containment
/// propagates upward one level, hence from arbitrary nesting depth.
pub proof fn lemma_marker_found_from_child(n: CommentNode, i: int)
    requires
        0 <= i < n.children@.len(),
        contains_marker(n.children@[i]),
    ensures
        contains_marker(n),
{
}

/// Whether node `m` occurs somewhere in the tree rooted at `n`, at any
/// nesting depth, the root included.
pub open spec fn occurs_in(m: CommentNode, n: CommentNode) -> bool
    decreases n,
{
    m == n || exists|i: int|
        0 <= i < n.children@.len() && occurs_in(m, #[trigger] n.children@[i])
}

/// The traversal is not limited to the root or its direct children: a tree
/// holds a directive marker exactly when a marker node occurs in it at any
/// nesting depth.
pub proof fn lemma_marker_at_any_depth(n: CommentNode)
    ensures
        contains_marker(n) <==> exists|m: CommentNode| #[trigger] occurs_in(m, n) && is_marker(m),
    decreases n,
{
    if contains_marker(n) {
        if is_marker(n) {
            assert(occurs_in(n, n) && is_marker(n));
        } else {
            let i = choose|i: int|
                0 <= i < n.children@.len() && contains_marker(#[trigger] n.children@[i]);
            lemma_marker_at_any_depth(n.children@[i]);
            let m = choose|m: CommentNode| #[trigger] occurs_in(m, n.children@[i]) && is_marker(m);
            assert(occurs_in(m, n) && is_marker(m));
        }
    }
    if exists|m: CommentNode| #[trigger] occurs_in(m, n) && is_marker(m) {
        let m = choose|m: CommentNode| #[trigger] occurs_in(m, n) && is_marker(m);
        if m != n {
            let i = choose|i: int|
                0 <= i < n.children@.len() && occurs_in(m, #[trigger] n.children@[i]);
            lemma_marker_at_any_depth(n.children@[i]);
            assert(contains_marker(n.children@[i]));
            lemma_marker_found_from_child(n, i);
        }
    }
}

} // verus!
