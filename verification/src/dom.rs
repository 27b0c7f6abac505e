//! A parsed HTML page and the read-only queries the rest of the library makes
//! on it. Nodes are named by their index in the page, in document order.

use crate::text::{contains_text, has_substring, option_text, same_text, texts, trim_text, trimmed};
use select::document::Document;
use select::predicate::Name;
use vstd::prelude::*;

verus! {

/// The document type of the `select` crate, carried as an opaque value.
#[verifier::external_type_specification]
#[verifier::external_body]
pub struct ExDocument(Document);

/// The longest text, in characters, that is parsed into a page. A character
/// takes at most four bytes, so no text of the tree passes 2^31 bytes: the
/// size up to which the buffers of the parser's strings can grow.
pub const MAX_PAGE_LENGTH: usize = 0x2000_0000;

/// The document that the HTML parser makes of the text `html`.
pub uninterp spec fn parsed_html(html: Seq<char>) -> Document;

/// Whether `doc` is what the HTML parser makes of some text that it takes: a
/// tree whose nodes are linked as the parser links them.
pub open spec fn built_by_parser(doc: Document) -> bool {
    exists|html: Seq<char>| html.len() <= MAX_PAGE_LENGTH && doc == #[trigger] parsed_html(html)
}

/// The elements of `doc` named `tag`, in document order.
pub uninterp spec fn all_named(doc: Document, tag: Seq<char>) -> Seq<usize>;

/// The descendants of `node` that are elements named `tag`, in document order.
pub uninterp spec fn descendants_named(doc: Document, node: usize, tag: Seq<char>) -> Seq<usize>;

/// The value of attribute `name` on `node`, if `node` is an element that carries it.
pub uninterp spec fn node_attr(doc: Document, node: usize, name: Seq<char>) -> Option<Seq<char>>;

/// The text of `node` and of all below it; `None` where `doc` has no such node.
pub uninterp spec fn node_text(doc: Document, node: usize) -> Option<Seq<char>>;

/// The parent of `node`, if it has one.
pub uninterp spec fn node_parent(doc: Document, node: usize) -> Option<usize>;

/// The children of `node`, in document order.
pub uninterp spec fn node_children(doc: Document, node: usize) -> Seq<usize>;

/// The text of `node`; empty where `doc` has no such node.
pub open spec fn text_in(doc: Document, node: usize) -> Seq<char> {
    match node_text(doc, node) {
        Some(t) => t,
        None => Seq::empty(),
    }
}

/// The node reached from `node` by going up `hops` parents, if there are that many.
pub open spec fn ancestor(doc: Document, node: usize, hops: nat) -> Option<usize>
    decreases hops,
{
    if hops == 0 {
        Some(node)
    } else {
        match node_parent(doc, node) {
            Some(p) => ancestor(doc, p, (hops - 1) as nat),
            None => None,
        }
    }
}

/// The test that attribute `name` of a node is present and equals `value`.
pub open spec fn attr_is(doc: Document, name: Seq<char>, value: Seq<char>) -> spec_fn(usize) -> bool {
    |node: usize| node_attr(doc, node, name) == Some(value)
}

/// The test that attribute `name` of a node holds `part`; an absent attribute
/// counts as empty.
pub open spec fn attr_contains(doc: Document, name: Seq<char>, part: Seq<char>) -> spec_fn(
    usize,
) -> bool {
    |node: usize|
        has_substring(
            match node_attr(doc, node, name) {
                Some(v) => v,
                None => Seq::empty(),
            },
            part,
        )
}

/// The test that the text of a node is `label`.
pub open spec fn text_is(doc: Document, label: Seq<char>) -> spec_fn(usize) -> bool {
    |node: usize| text_in(doc, node) == label
}

/// The attribute `name` of a node.
pub open spec fn attr_named(doc: Document, name: Seq<char>) -> spec_fn(usize) -> Option<Seq<char>> {
    |node: usize| node_attr(doc, node, name)
}

/// The trimmed text of a node.
pub open spec fn trimmed_text(doc: Document) -> spec_fn(usize) -> Seq<char> {
    |node: usize| trimmed(text_in(doc, node))
}

/// Those of `nodes` whose attribute `name` equals `value`.
pub open spec fn with_attr(doc: Document, nodes: Seq<usize>, name: Seq<char>, value: Seq<char>) -> Seq<
    usize,
> {
    nodes.filter(attr_is(doc, name, value))
}

/// Those of `nodes` whose attribute `name` holds `part`.
pub open spec fn with_attr_containing(
    doc: Document,
    nodes: Seq<usize>,
    name: Seq<char>,
    part: Seq<char>,
) -> Seq<usize> {
    nodes.filter(attr_contains(doc, name, part))
}

/// Those of `nodes` whose text is `label`.
pub open spec fn with_text(doc: Document, nodes: Seq<usize>, label: Seq<char>) -> Seq<usize> {
    nodes.filter(text_is(doc, label))
}

/// The values of attribute `name` on those of `nodes` that carry it.
pub open spec fn attr_values(doc: Document, nodes: Seq<usize>, name: Seq<char>) -> Seq<Seq<char>> {
    nodes.filter_map(attr_named(doc, name))
}

/// The trimmed text of each of `nodes`.
pub open spec fn trimmed_texts(doc: Document, nodes: Seq<usize>) -> Seq<Seq<char>> {
    nodes.map_values(trimmed_text(doc))
}

/// One parsed HTML page.
pub struct Page {
    doc: Document,
}

impl View for Page {
    type V = Document;

    closed spec fn view(&self) -> Document {
        self.doc
    }
}

impl Page {
    #[verifier::type_invariant]
    spec fn parsed(self) -> bool {
        built_by_parser(self.doc)
    }

    /// Parses `html` into a page; `None` for a text of more than
    /// `MAX_PAGE_LENGTH` characters, which is not parsed.
    pub fn parse(html: &str) -> (res: Option<Page>)
        ensures
            match res {
                Some(page) => html@.len() <= MAX_PAGE_LENGTH && page@ == parsed_html(html@),
                None => html@.len() > MAX_PAGE_LENGTH,
            },
    {
        if html.unicode_len() > MAX_PAGE_LENGTH {
            return None;
        }
        let doc = parse_document(html);
        Some(Page { doc })
    }

    /// The elements of the page named `tag`.
    pub fn elements_named(&self, tag: &str) -> (res: Vec<usize>)
        ensures
            res@ == all_named(self@, tag@),
    {
        proof {
            use_type_invariant(self);
        }
        find_all_named(&self.doc, tag)
    }

    /// The elements below `node` named `tag`.
    pub fn descendants_named(&self, node: usize, tag: &str) -> (res: Vec<usize>)
        ensures
            res@ == descendants_named(self@, node, tag@),
    {
        proof {
            use_type_invariant(self);
        }
        find_named(&self.doc, node, tag)
    }

    /// The value of attribute `name` on `node`.
    pub fn attr(&self, node: usize, name: &str) -> (res: Option<String>)
        ensures
            option_text(res) == node_attr(self@, node, name@),
    {
        proof {
            use_type_invariant(self);
        }
        attr_of(&self.doc, node, name)
    }

    /// The text of `node` and of all below it; empty for an index outside the page.
    pub fn text(&self, node: usize) -> (res: String)
        ensures
            res@ == text_in(self@, node),
    {
        proof {
            use_type_invariant(self);
        }
        match text_of(&self.doc, node) {
            Some(t) => t,
            None => String::new(),
        }
    }

    /// The parent of `node`, or `None` for a top-level node or an index outside the page.
    pub fn parent(&self, node: usize) -> (res: Option<usize>)
        ensures
            res == node_parent(self@, node),
    {
        proof {
            use_type_invariant(self);
        }
        parent_of(&self.doc, node)
    }

    /// The children of `node`.
    pub fn children(&self, node: usize) -> (res: Vec<usize>)
        ensures
            res@ == node_children(self@, node),
    {
        proof {
            use_type_invariant(self);
        }
        children_of(&self.doc, node)
    }

    /// The node `hops` parents above `node`, or `None` where the page has
    /// fewer levels above it.
    pub fn ancestor(&self, node: usize, hops: usize) -> (res: Option<usize>)
        ensures
            res == ancestor(self@, node, hops as nat),
    {
        let mut current = node;
        let mut left = hops;
        while left > 0
            invariant
                ancestor(self@, current, left as nat) == ancestor(self@, node, hops as nat),
            decreases left,
        {
            match self.parent(current) {
                Some(p) => {
                    current = p;
                    left -= 1;
                },
                None => {
                    return None;
                },
            }
        }
        Some(current)
    }

    /// Those of `nodes` whose attribute `name` equals `value`, in order.
    pub fn with_attr(&self, nodes: &Vec<usize>, name: &str, value: &str) -> (res: Vec<usize>)
        ensures
            res@ == with_attr(self@, nodes@, name@, value@),
    {
        let mut out: Vec<usize> = Vec::new();
        let mut i: usize = 0;
        while i < nodes.len()
            invariant
                i <= nodes.len(),
                out@ == with_attr(self@, nodes@.take(i as int), name@, value@),
            decreases nodes.len() - i,
        {
            let node = nodes[i];
            let hit = match self.attr(node, name) {
                Some(v) => same_text(v.as_str(), value),
                None => false,
            };
            proof {
                assert(nodes@.take(i + 1) =~= nodes@.take(i as int).push(node));
                nodes@.take(i as int).lemma_filter_push(node, attr_is(self@, name@, value@));
            }
            if hit {
                out.push(node);
            }
            i += 1;
        }
        proof {
            assert(nodes@.take(i as int) =~= nodes@);
        }
        out
    }

    /// Those of `nodes` whose attribute `name` holds `part`, in order. A node
    /// without the attribute is taken to have an empty one.
    pub fn with_attr_containing(&self, nodes: &Vec<usize>, name: &str, part: &str) -> (res: Vec<
        usize,
    >)
        ensures
            res@ == with_attr_containing(self@, nodes@, name@, part@),
    {
        let mut out: Vec<usize> = Vec::new();
        let mut i: usize = 0;
        while i < nodes.len()
            invariant
                i <= nodes.len(),
                out@ == with_attr_containing(self@, nodes@.take(i as int), name@, part@),
            decreases nodes.len() - i,
        {
            let node = nodes[i];
            let hit = match self.attr(node, name) {
                Some(v) => contains_text(v.as_str(), part),
                None => contains_text("", part),
            };
            proof {
                reveal_strlit("");
                assert(""@ =~= Seq::<char>::empty());
                assert(nodes@.take(i + 1) =~= nodes@.take(i as int).push(node));
                nodes@.take(i as int).lemma_filter_push(node, attr_contains(self@, name@, part@));
            }
            if hit {
                out.push(node);
            }
            i += 1;
        }
        proof {
            assert(nodes@.take(i as int) =~= nodes@);
        }
        out
    }

    /// Those of `nodes` whose text is `label`, in order.
    pub fn with_text(&self, nodes: &Vec<usize>, label: &str) -> (res: Vec<usize>)
        ensures
            res@ == with_text(self@, nodes@, label@),
    {
        let mut out: Vec<usize> = Vec::new();
        let mut i: usize = 0;
        while i < nodes.len()
            invariant
                i <= nodes.len(),
                out@ == with_text(self@, nodes@.take(i as int), label@),
            decreases nodes.len() - i,
        {
            let node = nodes[i];
            let text = self.text(node);
            let hit = same_text(text.as_str(), label);
            proof {
                assert(nodes@.take(i + 1) =~= nodes@.take(i as int).push(node));
                nodes@.take(i as int).lemma_filter_push(node, text_is(self@, label@));
            }
            if hit {
                out.push(node);
            }
            i += 1;
        }
        proof {
            assert(nodes@.take(i as int) =~= nodes@);
        }
        out
    }

    /// The values of attribute `name` on those of `nodes` that carry it, in order.
    pub fn attr_values(&self, nodes: &Vec<usize>, name: &str) -> (res: Vec<String>)
        ensures
            texts(res@) == attr_values(self@, nodes@, name@),
    {
        let mut out: Vec<String> = Vec::new();
        let mut i: usize = 0;
        while i < nodes.len()
            invariant
                i <= nodes.len(),
                texts(out@) == attr_values(self@, nodes@.take(i as int), name@),
            decreases nodes.len() - i,
        {
            let node = nodes[i];
            proof {
                nodes@.lemma_filter_map_take_succ(attr_named(self@, name@), i as int);
            }
            let ghost before = out@;
            match self.attr(node, name) {
                Some(v) => {
                    out.push(v);
                    assert(texts(out@) =~= texts(before) + seq![v@]);
                },
                None => {
                    assert(texts(before) + Seq::<Seq<char>>::empty() =~= texts(before));
                },
            }
            i += 1;
        }
        proof {
            assert(nodes@.take(i as int) =~= nodes@);
        }
        out
    }

    /// The trimmed text of each of `nodes`, in order.
    pub fn trimmed_texts(&self, nodes: &Vec<usize>) -> (res: Vec<String>)
        ensures
            texts(res@) == trimmed_texts(self@, nodes@),
    {
        let mut out: Vec<String> = Vec::new();
        let mut i: usize = 0;
        while i < nodes.len()
            invariant
                i <= nodes.len(),
                texts(out@) == trimmed_texts(self@, nodes@.take(i as int)),
            decreases nodes.len() - i,
        {
            let text = self.text(nodes[i]);
            let ghost before = out@;
            out.push(trim_text(text.as_str()));
            proof {
                assert(texts(out@) =~= texts(before).push(trimmed(text@)));
                assert(trimmed_texts(self@, nodes@.take(i + 1)) =~= trimmed_texts(
                    self@,
                    nodes@.take(i as int),
                ).push(trimmed(text@)));
            }
            i += 1;
        }
        proof {
            assert(nodes@.take(i as int) =~= nodes@);
        }
        out
    }
}

/// `Document::from` on a string slice: the HTML parser of `select`, whose
/// result is named `parsed_html` of the text. The parser keeps its strings in
/// buffers with 32-bit lengths and panics where one would pass that, so the
/// text is bounded. The wrappers below ask for a document made here: on the
/// trees that the parser builds, the node queries of `select` neither panic
/// nor loop.
#[verifier::external_body]
fn parse_document(html: &str) -> (doc: Document)
    requires
        html@.len() <= MAX_PAGE_LENGTH,
    ensures
        doc == parsed_html(html@),
{
    Document::from(html)
}

/// `Document::find` with the predicate `Name`: the indices of the elements
/// named `tag`, named `all_named`.
#[verifier::external_body]
fn find_all_named(doc: &Document, tag: &str) -> (res: Vec<usize>)
    requires
        built_by_parser(*doc),
    ensures
        res@ == all_named(*doc, tag@),
{
    doc.find(Name(tag)).map(|n| n.index()).collect()
}

/// `Node::find` with the predicate `Name`, on the node at index `node`: the
/// indices of what it yields, named `descendants_named`; nothing where the
/// document has no such node.
#[verifier::external_body]
fn find_named(doc: &Document, node: usize, tag: &str) -> (res: Vec<usize>)
    requires
        built_by_parser(*doc),
    ensures
        res@ == descendants_named(*doc, node, tag@),
{
    doc.nth(node).into_iter().flat_map(|n| n.find(Name(tag))).map(|d| d.index()).collect()
}

/// `Node::attr` on the node at index `node`, named `node_attr`.
#[verifier::external_body]
fn attr_of(doc: &Document, node: usize, name: &str) -> (res: Option<String>)
    requires
        built_by_parser(*doc),
    ensures
        option_text(res) == node_attr(*doc, node, name@),
{
    doc.nth(node).and_then(|n| n.attr(name)).map(|v| v.to_owned())
}

/// `Node::text` on the node at index `node`, named `node_text`; `None` where
/// the document has no such node.
#[verifier::external_body]
fn text_of(doc: &Document, node: usize) -> (res: Option<String>)
    requires
        built_by_parser(*doc),
    ensures
        option_text(res) == node_text(*doc, node),
{
    doc.nth(node).map(|n| n.text())
}

/// `Node::parent` on the node at index `node`, named `node_parent`.
#[verifier::external_body]
fn parent_of(doc: &Document, node: usize) -> (res: Option<usize>)
    requires
        built_by_parser(*doc),
    ensures
        res == node_parent(*doc, node),
{
    doc.nth(node).and_then(|n| n.parent()).map(|p| p.index())
}

/// `Node::children` on the node at index `node`: the indices of what it
/// yields, named `node_children`.
#[verifier::external_body]
fn children_of(doc: &Document, node: usize) -> (res: Vec<usize>)
    requires
        built_by_parser(*doc),
    ensures
        res@ == node_children(*doc, node),
{
    doc.nth(node).into_iter().flat_map(|n| n.children()).map(|c| c.index()).collect()
}

} // verus!
