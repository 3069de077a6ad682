//! The annotation record, the accessor policy and the directive scanner.

use crate::comment::Attr;
use crate::comment::CommentKind;
use crate::comment::CommentNode;
use crate::comment::contains_marker;
use crate::comment::is_marker;
use vstd::prelude::*;

verus! {

broadcast use vstd::std_specs::vec::group_vec_axioms;

/// The kind of accessor generated for a field.
#[derive(Clone, Copy, Debug, PartialEq, Eq, Structural)]
pub enum FieldAccessorKind {
    /// No accessor is emitted.
    NoAccessor,
    /// A safe accessor.
    Regular,
    /// An accessor that bypasses safety checks.
    Unsafe,
    /// A read-only accessor only.
    Immutable,
}

/// The accessor policy denoted by the value of an `accessor` directive:
/// `"false"`, `"unsafe"` and `"immutable"` name a policy, anything else
/// falls back to a regular accessor.  The mapping is total.
pub open spec fn accessor_of(v: Seq<char>) -> FieldAccessorKind {
    if v == "false"@ {
        FieldAccessorKind::NoAccessor
    } else if v == "unsafe"@ {
        FieldAccessorKind::Unsafe
    } else if v == "immutable"@ {
        FieldAccessorKind::Immutable
    } else {
        FieldAccessorKind::Regular
    }
}

/// Parses the value of an `accessor` directive into the policy it denotes.
pub fn parse_accessor(s: &str) -> (r: FieldAccessorKind)
    ensures
        r == accessor_of(s@),
{
    let v = s.to_owned();
    if v == "false".to_owned() {
        FieldAccessorKind::NoAccessor
    } else if v == "unsafe".to_owned() {
        FieldAccessorKind::Unsafe
    } else if v == "immutable".to_owned() {
        FieldAccessorKind::Immutable
    } else {
        FieldAccessorKind::Regular
    }
}

/// Annotations for an item or a field, aggregated from the directive
/// markers of one comment tree.
#[derive(Debug)]
pub struct Annotations {
    /// Whether the item is marked as opaque.  Only applies to types.
    opaque: bool,
    /// Whether the item should be hidden from the output.  Only applies to
    /// types.
    hide: bool,
    /// Whether the type should be replaced by another.  The name must be
    /// the canonical name that that type would get.
    use_instead_of: Option<String>,
    /// Manually disable deriving copy/clone on the type.  Only applies to
    /// struct or union types.
    disallow_copy: bool,
    /// Whether fields should be marked as private or not.  Set on a struct
    /// it applies to all its fields; it can also be set on one field.
    private_fields: Option<bool>,
    /// The kind of accessor a field will have.  Set on a struct, all the
    /// fields inside share it by default.
    accessor_kind: Option<FieldAccessorKind>,
}

/// The mathematical value of an [`Annotations`] record.
pub ghost struct AnnotationsView {
    pub opaque: bool,
    pub hide: bool,
    pub use_instead_of: Option<Seq<char>>,
    pub disallow_copy: bool,
    pub private_fields: Option<bool>,
    pub accessor_kind: Option<FieldAccessorKind>,
}

impl AnnotationsView {
    /// The record before any directive has been applied: every flag is
    /// clear and every optional field is unset.
    pub open spec fn init() -> AnnotationsView {
        AnnotationsView {
            opaque: false,
            hide: false,
            use_instead_of: None,
            disallow_copy: false,
            private_fields: None,
            accessor_kind: None,
        }
    }
}

impl View for Annotations {
    type V = AnnotationsView;

    closed spec fn view(&self) -> AnnotationsView {
        AnnotationsView {
            opaque: self.opaque,
            hide: self.hide,
            use_instead_of: match self.use_instead_of {
                Some(s) => Some(s@),
                None => None,
            },
            disallow_copy: self.disallow_copy,
            private_fields: self.private_fields,
            accessor_kind: self.accessor_kind,
        }
    }
}

/// The effect of one attribute of a directive marker on the record, by the
/// attribute's name: the three flag directives set their flag, the three
/// scalar directives overwrite their field with the attribute's value, and
/// any other name (the sentinel included) is ignored.
pub open spec fn apply_directive(a: AnnotationsView, name: Seq<char>, value: Seq<char>) -> AnnotationsView {
    if name == "opaque"@ {
        AnnotationsView { opaque: true, ..a }
    } else if name == "hide"@ {
        AnnotationsView { hide: true, ..a }
    } else if name == "nocopy"@ {
        AnnotationsView { disallow_copy: true, ..a }
    } else if name == "replaces"@ {
        AnnotationsView { use_instead_of: Some(value), ..a }
    } else if name == "private"@ {
        AnnotationsView { private_fields: Some(value != "false"@), ..a }
    } else if name == "accessor"@ {
        AnnotationsView { accessor_kind: Some(accessor_of(value)), ..a }
    } else {
        a
    }
}

/// The record after the first `i` attributes of `attrs` have been applied
/// to `a`, in order.
pub open spec fn apply_attrs_to(a: AnnotationsView, attrs: Seq<Attr>, i: int) -> AnnotationsView
    decreases i,
{
    if i <= 0 || i > attrs.len() {
        a
    } else {
        apply_directive(apply_attrs_to(a, attrs, i - 1), attrs[i - 1].name@, attrs[i - 1].value@)
    }
}

/// The record after every attribute of a marker's attribute list has been
/// applied to `a`, in document order.
pub open spec fn scan_attrs(a: AnnotationsView, attrs: Seq<Attr>) -> AnnotationsView {
    apply_attrs_to(a, attrs, attrs.len() as int)
}

/// The record after the subtrees of the first `i` children of `n` have
/// been scanned, in document order, starting from `a`.
pub open spec fn scan_children_to(a: AnnotationsView, n: CommentNode, i: int) -> AnnotationsView
    decreases n, i,
{
    if i <= 0 || i > n.children@.len() {
        a
    } else {
        scan_node(scan_children_to(a, n, i - 1), n.children@[i - 1])
    }
}

/// The record after the whole tree rooted at `n` has been scanned starting
/// from `a`: a pre-order walk that applies the attribute list of every
/// marker it meets, the node itself first, then its children in document
/// order.
pub open spec fn scan_node(a: AnnotationsView, n: CommentNode) -> AnnotationsView
    decreases n, n.children@.len() + 1,
{
    let a1 = if is_marker(n) {
        scan_attrs(a, n.attrs@)
    } else {
        a
    };
    scan_children_to(a1, n, n.children@.len() as int)
}

proof fn lemma_attrs_flags_monotonic(a: AnnotationsView, attrs: Seq<Attr>, i: int)
    ensures
        a.opaque ==> apply_attrs_to(a, attrs, i).opaque,
        a.hide ==> apply_attrs_to(a, attrs, i).hide,
        a.disallow_copy ==> apply_attrs_to(a, attrs, i).disallow_copy,
    decreases i,
{
    if 0 < i <= attrs.len() {
        lemma_attrs_flags_monotonic(a, attrs, i - 1);
    }
}

/// The boolean directives are OR-accumulated: a flag already set in the
/// accumulator stays set through the scan of any further tree, so once any
/// marker has set `opaque`, `hide` or `nocopy`, no later marker clears it.
pub proof fn lemma_scan_flags_monotonic(a: AnnotationsView, n: CommentNode)
    ensures
        a.opaque ==> scan_node(a, n).opaque,
        a.hide ==> scan_node(a, n).hide,
        a.disallow_copy ==> scan_node(a, n).disallow_copy,
    decreases n, n.children@.len() + 1,
{
    if is_marker(n) {
        lemma_attrs_flags_monotonic(a, n.attrs@, n.attrs@.len() as int);
    }
    let a1 = if is_marker(n) {
        scan_attrs(a, n.attrs@)
    } else {
        a
    };
    lemma_children_flags_monotonic(a1, n, n.children@.len() as int);
}

proof fn lemma_children_flags_monotonic(a: AnnotationsView, n: CommentNode, i: int)
    ensures
        a.opaque ==> scan_children_to(a, n, i).opaque,
        a.hide ==> scan_children_to(a, n, i).hide,
        a.disallow_copy ==> scan_children_to(a, n, i).disallow_copy,
    decreases n, i,
{
    if 0 < i <= n.children@.len() {
        lemma_children_flags_monotonic(a, n, i - 1);
        lemma_scan_flags_monotonic(scan_children_to(a, n, i - 1), n.children@[i - 1]);
    }
}

/// A tree without any directive marker leaves the accumulator untouched:
/// scanning it is the identity, so absence of markers and a record of
/// defaults can never be confused.
pub proof fn lemma_no_marker_scan_identity(a: AnnotationsView, n: CommentNode)
    requires
        !contains_marker(n),
    ensures
        scan_node(a, n) == a,
    decreases n, n.children@.len() + 1,
{
    lemma_no_marker_children_identity(a, n, n.children@.len() as int);
}

proof fn lemma_no_marker_children_identity(a: AnnotationsView, n: CommentNode, i: int)
    requires
        forall|k: int|
            0 <= k < n.children@.len() ==> !contains_marker(#[trigger] n.children@[k]),
    ensures
        scan_children_to(a, n, i) == a,
    decreases n, i,
{
    if 0 < i <= n.children@.len() {
        lemma_no_marker_children_identity(a, n, i - 1);
        lemma_no_marker_scan_identity(a, n.children@[i - 1]);
    }
}

impl Default for Annotations {
    /// The record with no directive applied.
    fn default() -> (r: Self)
        ensures
            r@ == AnnotationsView::init(),
    {
        Annotations {
            opaque: false,
            hide: false,
            use_instead_of: None,
            disallow_copy: false,
            private_fields: None,
            accessor_kind: None,
        }
    }
}

impl Annotations {
    /// Scans the comment tree attached to a construct and returns its
    /// aggregated annotations, or `None` when no directive marker occurs
    /// anywhere in the tree.  A record is returned if and only if at least
    /// one marker matched, so an all-default record can only come from a
    /// marker whose directives were all unrecognised, never from a tree
    /// without markers.
    pub fn new(root: &CommentNode) -> (r: Option<Annotations>)
        ensures
            match r {
                Some(a) => contains_marker(*root) && a@ == scan_node(
                    AnnotationsView::init(),
                    *root,
                ),
                None => !contains_marker(*root),
            },
    {
        let mut anno = Annotations::default();
        let mut matched_one = false;
        anno.parse(root, &mut matched_one);
        if matched_one {
            Some(anno)
        } else {
            None
        }
    }

    pub fn hidden(&self) -> (r: bool)
        ensures
            r == self@.hide,
    {
        self.hide
    }

    pub fn opaque(&self) -> (r: bool)
        ensures
            r == self@.opaque,
    {
        self.opaque
    }

    /// For a given type, indicates the type it should replace: the code
    /// generated from this construct is emitted under that other type's
    /// canonical name, in its place.
    pub fn use_instead_of(&self) -> (r: Option<&str>)
        ensures
            match r {
                Some(s) => self@.use_instead_of == Some(s@),
                None => self@.use_instead_of is None,
            },
    {
        match &self.use_instead_of {
            Some(s) => Some(s.as_str()),
            None => None,
        }
    }

    pub fn disallow_copy(&self) -> (r: bool)
        ensures
            r == self@.disallow_copy,
    {
        self.disallow_copy
    }

    pub fn private_fields(&self) -> (r: Option<bool>)
        ensures
            r == self@.private_fields,
    {
        self.private_fields
    }

    pub fn accessor_kind(&self) -> (r: Option<FieldAccessorKind>)
        ensures
            r == self@.accessor_kind,
    {
        self.accessor_kind
    }

    /// Walks the tree rooted at `n` in pre-order, applies the attribute
    /// list of every directive marker to this record in document order,
    /// and raises `matched` when any marker is met.
    #[verifier::loop_isolation(false)]
    fn parse(&mut self, n: &CommentNode, matched: &mut bool)
        ensures
            final(self)@ == scan_node(old(self)@, *n),
            *final(matched) == (*old(matched) || contains_marker(*n)),
        decreases *n,
    {
        let div = "div".to_owned();
        let sentinel = "rustbindgen".to_owned();
        if n.kind == CommentKind::HtmlStartTag && n.tag_name == div && n.attrs.len() > 1
            && n.attrs[0].name == sentinel {
            *matched = true;
            let opaque_name = "opaque".to_owned();
            let hide_name = "hide".to_owned();
            let nocopy_name = "nocopy".to_owned();
            let replaces_name = "replaces".to_owned();
            let private_name = "private".to_owned();
            let accessor_name = "accessor".to_owned();
            let false_value = "false".to_owned();
            let mut i: usize = 0;
            while i < n.attrs.len()
                invariant
                    i <= n.attrs.len(),
                    self@ == apply_attrs_to(old(self)@, n.attrs@, i as int),
                decreases n.attrs@.len() - i,
            {
                let a = &n.attrs[i];
                if a.name == opaque_name {
                    self.opaque = true;
                } else if a.name == hide_name {
                    self.hide = true;
                } else if a.name == nocopy_name {
                    self.disallow_copy = true;
                } else if a.name == replaces_name {
                    self.use_instead_of = Some(a.value.clone());
                } else if a.name == private_name {
                    self.private_fields = Some(!(a.value == false_value));
                } else if a.name == accessor_name {
                    self.accessor_kind = Some(parse_accessor(a.value.as_str()));
                }
                i = i + 1;
            }
        }
        let ghost a1 = self@;
        let ghost m1 = *matched;
        let mut j: usize = 0;
        while j < n.children.len()
            invariant
                j <= n.children.len(),
                self@ == scan_children_to(a1, *n, j as int),
                *matched == (m1 || exists|k: int|
                    0 <= k < j && contains_marker(#[trigger] n.children@[k])),
            decreases n.children@.len() - j,
        {
            self.parse(&n.children[j], matched);
            proof {
                if contains_marker(n.children@[j as int]) {
                    assert(exists|k: int|
                        0 <= k < j + 1 && contains_marker(#[trigger] n.children@[k]));
                }
            }
            j = j + 1;
        }
    }
}

} // verus!
