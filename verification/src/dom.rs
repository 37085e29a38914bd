//! The parsed page: documents, elements and selectors of `scraper`, what an
//! element holds as plain values, and the calls into `scraper` that the
//! extraction is written with. The text of an element and its child elements
//! are read from its children here, and proved.

use crate::text::push_str;
use scraper::{ElementRef, Html, Selector};
use vstd::prelude::*;

verus! {

/// `scraper::Html`: a parsed page. Nothing of what it holds is seen but
/// through the calls below.
#[verifier::external_type_specification]
#[verifier::external_body]
pub struct ExHtml(scraper::Html);

/// `scraper::ElementRef`: an element of a parsed page, by reference.
#[verifier::external_type_specification]
#[verifier::external_body]
pub struct ExElementRef<'a>(scraper::ElementRef<'a>);

/// `scraper::Selector`: a group of CSS selectors that was read from a text.
#[verifier::external_type_specification]
#[verifier::external_body]
pub struct ExSelector(scraper::Selector);

/// A node of a page: a text, an element, or something that the extraction
/// does not read (a comment, a doctype, a processing instruction, what a
/// template holds).
pub enum Markup {
    Text(Seq<char>),
    Element(ElementModel),
    Other,
}

/// What an element holds: its tag, its attributes by name, and its children
/// in the order of the page.
pub struct ElementModel {
    pub name: Seq<char>,
    pub attrs: Map<Seq<char>, Seq<char>>,
    pub children: Seq<Markup>,
}

/// What an element of a parsed page holds.
pub uninterp spec fn element_model(el: ElementRef) -> ElementModel;

/// What `ElementRef::html` returns for an element: the element written as
/// HTML again.
pub uninterp spec fn html_of(el: ElementRef) -> Seq<char>;

/// The selector that `Selector::parse` reads from a text, if it reads one.
pub uninterp spec fn selector_of(text: Seq<char>) -> Option<Selector>;

/// The elements that `ElementRef::select` yields for an element and a
/// selector, in the order in which it yields them.
pub uninterp spec fn selected(el: ElementRef, selector: Selector) -> Seq<ElementRef>;

/// The elements that `Html::select` yields for a page and a selector, in the
/// order in which it yields them.
pub uninterp spec fn selected_in(page: &Html, selector: Selector) -> Seq<ElementRef>;

/// The children that `NodeRef::children` yields for an element, in the
/// order in which it yields them, each as a text, an element or neither.
pub uninterp spec fn child_nodes(el: ElementRef) -> Seq<Child>;

/// The elements among the children `nodes[from..]`, in their order.
pub open spec fn elements_of(nodes: Seq<Child>, from: int) -> Seq<ElementRef>
    decreases nodes.len() - from,
{
    if 0 <= from < nodes.len() {
        match nodes[from] {
            Child::Element(e) => seq![e] + elements_of(nodes, from + 1),
            _ => elements_of(nodes, from + 1),
        }
    } else {
        Seq::empty()
    }
}

/// The children of an element that are elements themselves, in the order of
/// the page.
pub open spec fn element_children(el: ElementRef) -> Seq<ElementRef> {
    elements_of(child_nodes(el), 0)
}

/// The class of an element, if it has one.
pub open spec fn class_of(e: ElementModel) -> Option<Seq<char>> {
    if e.attrs.contains_key("class"@) {
        Some(e.attrs["class"@])
    } else {
        None
    }
}

/// The elements among the nodes `nodes[from..]`, in their order.
pub open spec fn elements_among(nodes: Seq<Markup>, from: int) -> Seq<ElementModel>
    decreases nodes.len() - from,
{
    if 0 <= from < nodes.len() {
        match nodes[from] {
            Markup::Element(e) => seq![e] + elements_among(nodes, from + 1),
            _ => elements_among(nodes, from + 1),
        }
    } else {
        Seq::empty()
    }
}

/// What the elements of a list hold.
pub open spec fn models(els: Seq<ElementRef>) -> Seq<ElementModel> {
    Seq::new(els.len(), |i: int| element_model(els[i]))
}

/// The text of the nodes `nodes[from..]`: the texts among them and below
/// them, in the order of the page.
pub open spec fn text_of_nodes(nodes: Seq<Markup>, from: int) -> Seq<char>
    decreases nodes, nodes.len() - from,
{
    if 0 <= from < nodes.len() {
        text_of_node(nodes[from]) + text_of_nodes(nodes, from + 1)
    } else {
        Seq::empty()
    }
}

/// The text of a node: a text itself, the text of an element's children,
/// nothing for any other node.
pub open spec fn text_of_node(node: Markup) -> Seq<char>
    decreases node, 0int,
{
    match node {
        Markup::Text(t) => t,
        Markup::Element(e) => text_of_nodes(e.children, 0),
        Markup::Other => Seq::empty(),
    }
}

/// The text of an element: all the texts below it, in the order of the page.
pub open spec fn text_of(e: ElementModel) -> Seq<char> {
    text_of_nodes(e.children, 0)
}

/// A child of an element.
pub enum Child<'a> {
    Text(String),
    Element(ElementRef<'a>),
    Other,
}

impl<'a> Child<'a> {
    /// What the child holds.
    pub open spec fn markup(self) -> Markup {
        match self {
            Child::Text(t) => Markup::Text(t@),
            Child::Element(e) => Markup::Element(element_model(e)),
            Child::Other => Markup::Other,
        }
    }
}

/// `Selector::parse` reads a group of CSS selectors from a text, or fails.
#[verifier::external_body]
pub(crate) fn parse_selector(text: &str) -> (res: Option<Selector>)
    ensures
        res == selector_of(text@),
{
    match Selector::parse(text) {
        Ok(selector) => Some(selector),
        Err(_) => None,
    }
}

/// `ElementRef::select` yields the elements below `el` that match the
/// selector.
#[verifier::external_body]
pub(crate) fn select<'a>(el: ElementRef<'a>, selector: &Selector) -> (res: Vec<ElementRef<'a>>)
    ensures
        res@ == selected(el, *selector),
{
    el.select(selector).collect()
}

/// `Html::select` yields the elements of the page that match the selector.
#[verifier::external_body]
pub(crate) fn select_in<'a>(page: &'a Html, selector: &Selector) -> (res: Vec<ElementRef<'a>>)
    ensures
        res@ == selected_in(page, *selector),
{
    page.select(selector).collect()
}

/// `NodeRef::children` yields the children of the element in the order of
/// the page; each is handed out as the text that it is, as the element that
/// it is, or as neither.
#[verifier::external_body]
pub(crate) fn children<'a>(el: ElementRef<'a>) -> (res: Vec<Child<'a>>)
    ensures
        res@ == child_nodes(el),
        res@.len() == element_model(el).children.len(),
        forall|i: int|
            0 <= i < res@.len() ==> (#[trigger] res@[i]).markup() == element_model(
                el,
            ).children[i],
{
    el.children().map(
        |node|
            match node.value() {
                scraper::Node::Text(text) => Child::Text(text.to_string()),
                scraper::Node::Element(_) => match ElementRef::wrap(node) {
                    Some(element) => Child::Element(element),
                    None => Child::Other,
                },
                _ => Child::Other,
            },
    ).collect()
}

/// `Element::name` is the tag of the element.
#[verifier::external_body]
pub(crate) fn tag<'a>(el: ElementRef<'a>) -> (res: String)
    ensures
        res@ == element_model(el).name,
{
    el.value().name().to_string()
}

/// `Element::attr` is the value of the attribute of that name, if the
/// element has one.
#[verifier::external_body]
pub(crate) fn attr<'a>(el: ElementRef<'a>, name: &str) -> (res: Option<String>)
    ensures
        res is Some <==> element_model(el).attrs.contains_key(name@),
        res matches Some(v) ==> v@ == element_model(el).attrs[name@],
{
    match el.value().attr(name) {
        Some(value) => Some(value.to_string()),
        None => None,
    }
}

/// `ElementRef::html` writes the element as HTML.
#[verifier::external_body]
pub(crate) fn html<'a>(el: ElementRef<'a>) -> (res: String)
    ensures
        res@ == html_of(el),
{
    el.html()
}

/// An element that is a child of another is smaller than it.
pub(crate) proof fn lemma_child_is_smaller(e: ElementModel, i: int)
    requires
        0 <= i < e.children.len(),
        e.children[i] is Element,
    ensures
        decreases_to!(e => e.children[i]->Element_0),
{
    assert(decreases_to!(e => e.children));
    assert(decreases_to!(e.children => e.children[i]));
    assert(decreases_to!(e.children[i] => e.children[i]->Element_0));
}

/// The children of an element that are elements themselves. What they hold
/// are the elements among the children that the element holds.
pub(crate) fn child_elements<'a>(el: ElementRef<'a>) -> (res: Vec<ElementRef<'a>>)
    ensures
        res@ == element_children(el),
        models(res@) == elements_among(element_model(el).children, 0),
{
    let kids = children(el);
    let ghost nodes = element_model(el).children;
    let mut found: Vec<ElementRef<'a>> = Vec::new();
    let mut i: usize = 0;
    assert(found@ + elements_of(kids@, 0) =~= elements_of(kids@, 0));
    assert(models(found@) + elements_among(nodes, 0) =~= elements_among(nodes, 0));
    while i < kids.len()
        invariant
            i <= kids.len(),
            kids@.len() == nodes.len(),
            forall|k: int| 0 <= k < kids@.len() ==> (#[trigger] kids@[k]).markup() == nodes[k],
            found@ + elements_of(kids@, i as int) == elements_of(kids@, 0),
            models(found@) + elements_among(nodes, i as int) == elements_among(nodes, 0),
        decreases kids.len() - i,
    {
        let ghost before = found@;
        assert(kids@[i as int].markup() == nodes[i as int]);
        match &kids[i] {
            Child::Element(e) => {
                found.push(*e);
                assert(found@ + elements_of(kids@, i + 1) =~= before + (seq![*e] + elements_of(
                    kids@,
                    i + 1,
                )));
                assert(models(found@) =~= models(before).push(element_model(*e)));
                assert(models(found@) + elements_among(nodes, i + 1) =~= models(before) + (seq![
                    element_model(*e),
                ] + elements_among(nodes, i + 1)));
            },
            _ => {},
        }
        i += 1;
    }
    assert(found@ + Seq::<ElementRef>::empty() =~= found@);
    assert(models(found@) + Seq::<ElementModel>::empty() =~= models(found@));
    found
}

/// The text of an element: the texts among its children, and below those of
/// its children that are elements, in the order of the page.
pub(crate) fn text<'a>(el: ElementRef<'a>) -> (res: String)
    ensures
        res@ == text_of(element_model(el)),
    decreases element_model(el),
{
    let kids = children(el);
    let ghost nodes = element_model(el).children;
    let mut out = String::new();
    let mut i: usize = 0;
    assert(out@ + text_of_nodes(nodes, 0) =~= text_of_nodes(nodes, 0));
    while i < kids.len()
        invariant
            i <= kids.len(),
            nodes == element_model(el).children,
            kids@.len() == nodes.len(),
            forall|k: int| 0 <= k < kids@.len() ==> (#[trigger] kids@[k]).markup() == nodes[k],
            out@ + text_of_nodes(nodes, i as int) == text_of_nodes(nodes, 0),
        decreases kids.len() - i,
    {
        let ghost before = out@;
        let ghost rest = text_of_nodes(nodes, i + 1);
        assert(kids@[i as int].markup() == nodes[i as int]);
        assert(text_of_nodes(nodes, i as int) == text_of_node(nodes[i as int]) + rest);
        match &kids[i] {
            Child::Text(t) => {
                push_str(&mut out, t.as_str());
                assert(out@ + rest =~= before + (t@ + rest));
            },
            Child::Element(e) => {
                proof {
                    lemma_child_is_smaller(element_model(el), i as int);
                }
                let below = text(*e);
                push_str(&mut out, below.as_str());
                assert(out@ + rest =~= before + (below@ + rest));
            },
            Child::Other => {
                assert(before + rest =~= before + (Seq::<char>::empty() + rest));
            },
        }
        i += 1;
    }
    assert(out@ + Seq::<char>::empty() =~= out@);
    out
}

} // verus!
