//! Queries on a parsed page. The `select` crate parses the page and answers the queries;
//! what it answers is given a name here, as a function of the markup and of what is asked.
//! Nothing is proved of these answers: the contracts of the functions that call into
//! `select` state what that crate is taken to do.
//!
//! A node of a page is known by its index in the page's list of nodes.
//!
//! The parser takes stack in proportion to the nesting of the page, so the two calls that
//! walk the page level by level are run on a stack of their own, which the `stacker` crate
//! sets up, and markup with more tags than that stack is made for is not parsed.

use select::document::Document;
use select::predicate::{Attr, Class, Name};
use vstd::prelude::*;
use vstd::utf8::encode_utf8;

verus! {

#[verifier::external_type_specification]
#[verifier::external_body]
pub struct ExDocument(select::document::Document);

/// The tree that `Document::from` parses out of the markup `html`.
pub uninterp spec fn parsed_tree(html: Seq<char>) -> Document;

/// The nodes that `Document::find` yields for the predicate `Class(class)` on the page
/// parsed from `html`: every element of the page whose `class` attribute lists `class`, by
/// rising index.
pub uninterp spec fn nodes_of_class(html: Seq<char>, class: Seq<char>) -> Seq<usize>;

/// The nodes that `Node::find` yields for `Class(class)` below node `node` of the page
/// parsed from `html`: the descendants of that node whose `class` attribute lists `class`,
/// in the order in which the page is walked. Empty where the page has no node `node`.
pub uninterp spec fn inner_of_class(html: Seq<char>, node: usize, class: Seq<char>) -> Seq<usize>;

/// The nodes that `Node::find` yields for `Name(tag)` below node `node` of the page parsed
/// from `html`: the descendant elements named `tag`, in the order in which the page is
/// walked. Empty where the page has no node `node`.
pub uninterp spec fn inner_of_name(html: Seq<char>, node: usize, tag: Seq<char>) -> Seq<usize>;

/// The nodes that `Node::find` yields for `Attr(key, value)` below node `node` of the page
/// parsed from `html`: the descendant elements whose attribute `key` is `value`, in the
/// order in which the page is walked. Empty where the page has no node `node`.
pub uninterp spec fn inner_of_attr(
    html: Seq<char>,
    node: usize,
    key: Seq<char>,
    value: Seq<char>,
) -> Seq<usize>;

/// What `Node::attr` returns for node `node` of the page parsed from `html`: the value of
/// its attribute `key`. Absent where the node is no element or has no such attribute, and
/// where the page has no node `node`.
pub uninterp spec fn attr_of(html: Seq<char>, node: usize, key: Seq<char>) -> Option<Seq<char>>;

/// What `Node::text` returns for node `node` of the page parsed from `html`: the text of
/// the node and of all its descendants, run together. Empty where the page has no node
/// `node`.
pub uninterp spec fn text_of_node(html: Seq<char>, node: usize) -> Seq<char>;

/// The most bytes of markup that are handed to the parser: half a gigabyte.
pub const MAX_MARKUP_BYTES: usize = 0x2000_0000;

/// The most `<` that markup handed to the parser holds.
pub const MAX_MARKUP_TAGS: usize = 0x8000;

/// Bytes of stack that are set aside for every `<` of the markup.
pub const STACK_PER_TAG: usize = 0x4000;

/// Bytes of stack that are set aside whatever the markup holds.
pub const STACK_AT_LEAST: usize = 0x10_0000;

/// How many `<` the markup `html` holds.
pub open spec fn tag_marks(html: Seq<char>) -> nat
    decreases html.len(),
{
    if html.len() == 0 {
        0
    } else if html.last() == '<' {
        tag_marks(html.drop_last()) + 1
    } else {
        tag_marks(html.drop_last())
    }
}

/// The bytes of stack on which markup with `marks` times `<` is parsed and read.
pub open spec fn stack_for(marks: nat) -> nat {
    (STACK_AT_LEAST + STACK_PER_TAG * marks) as nat
}

/// Whether the markup `html` is small enough to be parsed: written in UTF-8 it takes at
/// most `MAX_MARKUP_BYTES` bytes, and it holds at most `MAX_MARKUP_TAGS` times `<`.
pub open spec fn parsable(html: Seq<char>) -> bool {
    encode_utf8(html).len() <= MAX_MARKUP_BYTES && tag_marks(html) <= MAX_MARKUP_TAGS
}

/// A part of a text holds no more `<` than the whole.
pub proof fn lemma_tag_marks_grow(html: Seq<char>, k: int)
    requires
        0 <= k <= html.len(),
    ensures
        tag_marks(html.take(k)) <= tag_marks(html),
    decreases html.len() - k,
{
    if k < html.len() {
        lemma_tag_marks_grow(html, k + 1);
        assert(html.take(k + 1).drop_last() == html.take(k));
    } else {
        assert(html.take(k) == html);
    }
}

/// Counts the `<` of the markup `html`, and gives up past `MAX_MARKUP_TAGS`.
pub fn count_tag_marks(html: &str) -> (count: Option<usize>)
    ensures
        count is Some <==> tag_marks(html@) <= MAX_MARKUP_TAGS,
        count is Some ==> count->0 == tag_marks(html@),
{
    let mut n: usize = 0;
    assert(html@.take(0).len() == 0);
    for c in it: html.chars()
        invariant
            it.seq() == html@,
            n == tag_marks(html@.take(it.index() as int)),
            n <= MAX_MARKUP_TAGS,
    {
        proof {
            assert(html@.take(it.index() + 1).drop_last() == html@.take(it.index() as int));
        }
        if c == '<' {
            if n == MAX_MARKUP_TAGS {
                proof {
                    lemma_tag_marks_grow(html@, it.index() + 1);
                }
                return None;
            }
            n += 1;
        }
    }
    assert(html@.take(html@.len() as int) == html@);
    Some(n)
}

/// Tells whether the markup `html` is small enough to be parsed.
pub fn is_parsable(html: &str) -> (yes: bool)
    ensures
        yes == parsable(html@),
{
    html.as_bytes().len() <= MAX_MARKUP_BYTES && count_tag_marks(html).is_some()
}

/// A parsed page, kept together with the markup that it was parsed from and with the size
/// of the stack on which it is read.
pub struct Page<'a> {
    source: &'a str,
    tree: Document,
    stack: usize,
}

impl<'a> View for Page<'a> {
    type V = Seq<char>;

    /// The markup of the page.
    closed spec fn view(&self) -> Seq<char> {
        self.source@
    }
}

impl<'a> Page<'a> {
    /// The markup is small enough to be parsed, the tree is the one that it parses to, and
    /// the stack is as large as the markup asks for.
    pub closed spec fn wf(&self) -> bool {
        &&& parsable(self.source@)
        &&& self.tree == parsed_tree(self.source@)
        &&& self.stack >= stack_for(tag_marks(self.source@))
    }

    /// Parses the markup `html`.
    pub(crate) fn parse(html: &'a str) -> (page: Page<'a>)
        requires
            parsable(html@),
        ensures
            page.wf(),
            page@ == html@,
    {
        let marks: usize = match count_tag_marks(html) {
            Some(n) => n,
            None => 0,
        };
        assert(STACK_PER_TAG * marks <= STACK_PER_TAG * MAX_MARKUP_TAGS) by (nonlinear_arith)
            requires
                marks <= MAX_MARKUP_TAGS,
        ;
        let stack: usize = STACK_AT_LEAST + STACK_PER_TAG * marks;
        Page { source: html, tree: tree_of(html, stack), stack }
    }
}

/// Parses markup with `Document::from`, run by `stacker::grow` on a stack of its own of
/// `stack` bytes. The tree depends on the markup alone.
///
/// Why the markup is bounded: `Document::from` copies the markup into a tendril, and the
/// parser behind it gathers the text of the page in further tendrils. A tendril panics
/// where it is made from more than `u32::MAX` bytes, and where it grows to more than 2^31
/// bytes, since its buffer sizes are powers of two that fit in 32 bits. The parser writes
/// at most three bytes for one byte of markup, where it puts U+FFFD in the place of a zero
/// byte. Markup of at most `MAX_MARKUP_BYTES` bytes stays below both limits.
///
/// Why the stack is asked for: once the page is parsed, `Document::from` copies it node by
/// node and calls itself for every level of nesting, and nothing in the markup but the
/// number of its tags bounds the nesting. Every element of the page but the three at its
/// root is made for a tag, which starts with `<`; a tag opens three levels at most, as a
/// table cell does that stands in no row, and a fourth where an element of a tag before it
/// is opened again. A level takes a frame of a kibibyte or so; `STACK_PER_TAG` leaves four
/// kibibytes for each of the four levels, and `STACK_AT_LEAST` covers the root and the
/// parser itself.
///
/// What is left open: `stacker::grow` asks the system for the stack and panics where the
/// system does not grant it, and on a platform where it cannot switch stacks it runs the
/// call on the stack that is there.
#[verifier::external_body]
fn tree_of(html: &str, stack: usize) -> (tree: Document)
    requires
        parsable(html@),
        stack >= stack_for(tag_marks(html@)),
    ensures
        tree == parsed_tree(html@),
{
    stacker::grow(stack, || Document::from(html))
}

/// Runs `Document::find` with `Class(class)` on the tree of `page` and gives the index of
/// each node found, in the order found.
#[verifier::external_body]
pub(crate) fn find_class(page: &Page, class: &str) -> (hits: Vec<usize>)
    requires
        page.wf(),
    ensures
        hits@ == nodes_of_class(page@, class@),
{
    page.tree.find(Class(class)).map(|hit| hit.index()).collect()
}

/// Runs `Node::find` with `Class(class)` on node `node` of the tree of `page` and gives the
/// index of each node found, in the order found; nothing where `Document::nth` finds no
/// node `node`.
#[verifier::external_body]
pub(crate) fn find_class_in(page: &Page, node: usize, class: &str) -> (hits: Vec<usize>)
    requires
        page.wf(),
    ensures
        hits@ == inner_of_class(page@, node, class@),
{
    match page.tree.nth(node) {
        Some(root) => root.find(Class(class)).map(|hit| hit.index()).collect(),
        None => Vec::new(),
    }
}

/// Runs `Node::find` with `Name(tag)` on node `node` of the tree of `page` and gives the
/// index of each node found, in the order found; nothing where `Document::nth` finds no
/// node `node`.
#[verifier::external_body]
pub(crate) fn find_name_in(page: &Page, node: usize, tag: &str) -> (hits: Vec<usize>)
    requires
        page.wf(),
    ensures
        hits@ == inner_of_name(page@, node, tag@),
{
    match page.tree.nth(node) {
        Some(root) => root.find(Name(tag)).map(|hit| hit.index()).collect(),
        None => Vec::new(),
    }
}

/// Runs `Node::find` with `Attr(key, value)` on node `node` of the tree of `page` and
/// gives the index of each node found, in the order found; nothing where `Document::nth`
/// finds no node `node`.
#[verifier::external_body]
pub(crate) fn find_attr_in(page: &Page, node: usize, key: &str, value: &str) -> (hits: Vec<usize>)
    requires
        page.wf(),
    ensures
        hits@ == inner_of_attr(page@, node, key@, value@),
{
    match page.tree.nth(node) {
        Some(root) => root.find(Attr(key, value)).map(|hit| hit.index()).collect(),
        None => Vec::new(),
    }
}

/// Calls `Node::attr` on node `node` of the tree of `page`; nothing where `Document::nth`
/// finds no node `node`.
#[verifier::external_body]
pub(crate) fn attr(page: &Page, node: usize, key: &str) -> (value: Option<String>)
    requires
        page.wf(),
    ensures
        value.deep_view() == attr_of(page@, node, key@),
{
    match page.tree.nth(node) {
        Some(element) => element.attr(key).map(|text| text.to_string()),
        None => None,
    }
}

/// Calls `Node::text` on node `node` of the tree of `page`; the empty text where
/// `Document::nth` finds no node `node`. `Node::text` calls itself for every level of
/// nesting below the node, so `stacker::grow` runs it on a stack of its own, of the size
/// that the page was parsed on.
#[verifier::external_body]
pub(crate) fn text(page: &Page, node: usize) -> (content: String)
    requires
        page.wf(),
    ensures
        content@ == text_of_node(page@, node),
{
    match page.tree.nth(node) {
        Some(element) => stacker::grow(page.stack, || element.text()),
        None => String::new(),
    }
}

} // verus!
