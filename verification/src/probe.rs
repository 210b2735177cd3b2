//! Probes into a parsed page: each looks for one thing below a node and reports it as
//! present or absent. The rules of the listings are built from these.
//!
//! In the specifications `html` is the markup of the page, and `node` the index of a node
//! of the page parsed from it.

use crate::markup::{
    attr, attr_of, find_class_in, find_name_in, inner_of_class, inner_of_name, text, text_of_node,
    Page,
};
use vstd::prelude::*;

verus! {

/// The first node found, where any was.
pub open spec fn first_of(hits: Seq<usize>) -> Option<usize> {
    if hits.len() > 0 {
        Some(hits[0])
    } else {
        None
    }
}

/// The text of the first descendant of `node` whose class list holds `class`.
pub open spec fn class_text_of(html: Seq<char>, node: usize, class: Seq<char>) -> Option<
    Seq<char>,
> {
    match first_of(inner_of_class(html, node, class)) {
        Some(hit) => Some(text_of_node(html, hit)),
        None => None,
    }
}

/// The text of the first descendant of `node` that is an element named `tag`.
pub open spec fn name_text_of(html: Seq<char>, node: usize, tag: Seq<char>) -> Option<Seq<char>> {
    match first_of(inner_of_name(html, node, tag)) {
        Some(hit) => Some(text_of_node(html, hit)),
        None => None,
    }
}

/// The `href` attribute of the first link below `node`.
pub open spec fn link_target_of(html: Seq<char>, node: usize) -> Option<Seq<char>> {
    match first_of(inner_of_name(html, node, "a"@)) {
        Some(link) => attr_of(html, link, "href"@),
        None => None,
    }
}

/// The `href` attribute of the first link below the first descendant of `node` whose
/// class list holds `class`.
pub open spec fn class_link_of(html: Seq<char>, node: usize, class: Seq<char>) -> Option<
    Seq<char>,
> {
    match first_of(inner_of_class(html, node, class)) {
        Some(hit) => link_target_of(html, hit),
        None => None,
    }
}

/// The attribute `key` of the first descendant of `node` that is an element named `tag`.
pub open spec fn name_attr_of(
    html: Seq<char>,
    node: usize,
    tag: Seq<char>,
    key: Seq<char>,
) -> Option<Seq<char>> {
    match first_of(inner_of_name(html, node, tag)) {
        Some(hit) => attr_of(html, hit, key),
        None => None,
    }
}

/// The attribute `key` of the first descendant of `node` whose class list holds `class`.
pub open spec fn class_attr_of(
    html: Seq<char>,
    node: usize,
    class: Seq<char>,
    key: Seq<char>,
) -> Option<Seq<char>> {
    match first_of(inner_of_class(html, node, class)) {
        Some(hit) => attr_of(html, hit, key),
        None => None,
    }
}

/// Picks the first node found, where any was.
pub fn first_hit(hits: &Vec<usize>) -> (hit: Option<usize>)
    ensures
        hit == first_of(hits@),
{
    if hits.len() > 0 {
        Some(hits[0])
    } else {
        None
    }
}

/// Reads the text of the first descendant of `node` whose class list holds `class`.
pub(crate) fn class_text(page: &Page, node: usize, class: &str) -> (found: Option<String>)
    requires
        page.wf(),
    ensures
        found.deep_view() == class_text_of(page@, node, class@),
{
    let hits = find_class_in(page, node, class);
    match first_hit(&hits) {
        Some(hit) => Some(text(page, hit)),
        None => None,
    }
}

/// Reads the text of the first descendant of `node` that is an element named `tag`.
pub(crate) fn name_text(page: &Page, node: usize, tag: &str) -> (found: Option<String>)
    requires
        page.wf(),
    ensures
        found.deep_view() == name_text_of(page@, node, tag@),
{
    let hits = find_name_in(page, node, tag);
    match first_hit(&hits) {
        Some(hit) => Some(text(page, hit)),
        None => None,
    }
}

/// Reads the `href` attribute of the first link below `node`.
pub(crate) fn link_target(page: &Page, node: usize) -> (found: Option<String>)
    requires
        page.wf(),
    ensures
        found.deep_view() == link_target_of(page@, node),
{
    let links = find_name_in(page, node, "a");
    match first_hit(&links) {
        Some(link) => attr(page, link, "href"),
        None => None,
    }
}

/// Reads the `href` attribute of the first link below the first descendant of `node`
/// whose class list holds `class`.
pub(crate) fn class_link(page: &Page, node: usize, class: &str) -> (found: Option<String>)
    requires
        page.wf(),
    ensures
        found.deep_view() == class_link_of(page@, node, class@),
{
    let hits = find_class_in(page, node, class);
    match first_hit(&hits) {
        Some(hit) => link_target(page, hit),
        None => None,
    }
}

/// Reads the attribute `key` of the first descendant of `node` that is an element named
/// `tag`.
pub(crate) fn name_attr(page: &Page, node: usize, tag: &str, key: &str) -> (found: Option<
    String,
>)
    requires
        page.wf(),
    ensures
        found.deep_view() == name_attr_of(page@, node, tag@, key@),
{
    let hits = find_name_in(page, node, tag);
    match first_hit(&hits) {
        Some(hit) => attr(page, hit, key),
        None => None,
    }
}

/// Reads the attribute `key` of the first descendant of `node` whose class list holds
/// `class`.
pub(crate) fn class_attr(page: &Page, node: usize, class: &str, key: &str) -> (found: Option<
    String,
>)
    requires
        page.wf(),
    ensures
        found.deep_view() == class_attr_of(page@, node, class@, key@),
{
    let hits = find_class_in(page, node, class);
    match first_hit(&hits) {
        Some(hit) => attr(page, hit, key),
        None => None,
    }
}

} // verus!
