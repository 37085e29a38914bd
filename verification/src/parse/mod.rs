//! The pages of a crate's documentation, read into their models.

use crate::dom::element_model;
use crate::helper::{maybe, walk};
use crate::parse::style::{style_of_nodes, Piece, Style};
use crate::text::push_str;
use scraper::{ElementRef, Html};
use vstd::prelude::*;

pub mod all_page;
pub mod crate_page;
pub mod item;
pub mod page_laws;
pub mod sections;
pub mod style;
pub mod style_laws;

verus! {

/// What reading a page gives: a value, or the reason why the page is not
/// what was looked for.
pub type ParseResult<T> = Result<T, ParseError>;

/// Why a page could not be read.
#[derive(Debug, Clone, PartialEq, Eq)]
pub enum ParseError {
    /// The selector found no element in what the second text names.
    ElementNotFound(&'static str, &'static str),
    /// An element was found, but what it holds is not what the page's kind
    /// asks for: the first text says what, the second shows it.
    InvalidElement(&'static str, String),
}

/// What an error holds, as plain text.
pub enum ErrorModel {
    ElementNotFound(Seq<char>, Seq<char>),
    InvalidElement(Seq<char>, Seq<char>),
}

impl View for ParseError {
    type V = ErrorModel;

    open spec fn view(&self) -> ErrorModel {
        match self {
            ParseError::ElementNotFound(selector, parent) => ErrorModel::ElementNotFound(
                selector@,
                parent@,
            ),
            ParseError::InvalidElement(what, found) => ErrorModel::InvalidElement(what@, found@),
        }
    }
}

impl ParseError {
    /// What the error says, in words.
    pub open spec fn words(self) -> Seq<char> {
        match self@ {
            ErrorModel::ElementNotFound(selector, parent) => "failed to find "@ + selector
                + " in "@ + parent,
            ErrorModel::InvalidElement(what, found) => "found invalid "@ + what + ": "@ + found,
        }
    }

    /// The error in words: what was looked for and where, or what was found
    /// and why it will not do.
    pub fn message(&self) -> (out: String)
        ensures
            out@ == self.words(),
    {
        let mut out = String::new();
        match self {
            ParseError::ElementNotFound(selector, parent) => {
                push_str(&mut out, "failed to find ");
                push_str(&mut out, selector);
                push_str(&mut out, " in ");
                push_str(&mut out, parent);
                assert(out@ =~= self.words());
            },
            ParseError::InvalidElement(what, found) => {
                push_str(&mut out, "found invalid ");
                push_str(&mut out, what);
                push_str(&mut out, ": ");
                push_str(&mut out, found.as_str());
                assert(out@ =~= self.words());
            },
        }
        out
    }
}

/// A page of a crate's documentation, read as the kind of page that it is.
#[derive(Debug, Clone, PartialEq, Eq, Hash)]
pub enum Parsed {
    AllPage(all_page::Sections),
    CratePage(crate_page::Crate),
    CrateItem(item::CrateItem),
}

/// What a page holds, as plain values.
pub enum ParsedModel {
    AllPage(Seq<Seq<all_page::ItemModel>>),
    CratePage(crate_page::CrateModel),
    CrateItem(item::CrateItemModel),
}

impl View for Parsed {
    type V = ParsedModel;

    open spec fn view(&self) -> ParsedModel {
        match self {
            Parsed::AllPage(found) => ParsedModel::AllPage(sections::sections_view(found@)),
            Parsed::CratePage(page) => ParsedModel::CratePage(page@),
            Parsed::CrateItem(item) => ParsedModel::CrateItem(item@),
        }
    }
}

/// What a page is read as: the page of all items, if it can be read as
/// that; else the index page of a crate, if it can be read as that; else the
/// page of an item. Where it can be read as none of them, the error is that
/// of reading it as the page of an item.
pub open spec fn any_page(page: &Html) -> Result<ParsedModel, ErrorModel> {
    match all_page::all_page(page) {
        Ok(sections) => Ok(ParsedModel::AllPage(sections)),
        Err(_) => match crate_page::crate_page(page) {
            Ok(index) => Ok(ParsedModel::CratePage(index)),
            Err(_) => match item::item_page(page) {
                Ok(found) => Ok(ParsedModel::CrateItem(found)),
                Err(e) => Err(e),
            },
        },
    }
}

/// Reads a page as the kind of page that it is.
pub fn parse(page: &Html) -> (res: ParseResult<Parsed>)
    ensures
        read_as(res, any_page(page)),
{
    match all_page::parse(page) {
        Ok(sections) => Ok(Parsed::AllPage(sections)),
        Err(_) => match crate_page::parse(page) {
            Ok(index) => Ok(Parsed::CratePage(index)),
            Err(_) => match item::parse(page) {
                Ok(found) => Ok(Parsed::CrateItem(found)),
                Err(e) => Err(e),
            },
        },
    }
}

/// Whether a result is the one that the model gives: the value that it
/// gives holds what the model's value holds, or the error is the model's.
pub open spec fn read_as<T: View>(
    res: Result<T, ParseError>,
    model: Result<T::V, ErrorModel>,
) -> bool {
    match res {
        Ok(v) => model == Ok::<T::V, ErrorModel>(v@),
        Err(e) => model == Err::<T::V, ErrorModel>(e@),
    }
}

/// What was read before, followed by what is read after it; the error of
/// what is read after it, if that is one.
pub open spec fn after<T>(done: Seq<T>, rest: Result<Seq<T>, ErrorModel>) -> Result<
    Seq<T>,
    ErrorModel,
> {
    match rest {
        Ok(r) => Ok(done + r),
        Err(e) => Err(e),
    }
}

/// What the values of a list hold.
pub open spec fn views<T: View>(v: Seq<T>) -> Seq<T::V> {
    Seq::new(v.len(), |i: int| v[i]@)
}

/// What an optional style holds.
pub open spec fn held(style: Option<Style>) -> Option<Seq<Piece>> {
    match style {
        Some(s) => Some(s@),
        None => None,
    }
}

/// The selectors that lead to the description at the top of a page.
pub open spec fn top_doc_chain() -> Seq<Seq<char>> {
    seq!["details[class=\"toggle top-doc\"]"@, "div[class=\"docblock\"]"@]
}

/// The style of what the element that `chain` leads to holds, if the chain
/// leads to one.
pub open spec fn style_at(root: ElementRef, chain: Seq<Seq<char>>) -> Option<Seq<Piece>> {
    match walk(root, Seq::empty(), chain, 0) {
        Ok(found) => Some(style_of_nodes(element_model(found).children, 0)),
        Err(_) => None,
    }
}

/// The description at the top of a page, if the page has one.
pub open spec fn top_doc(content: ElementRef) -> Option<Seq<Piece>> {
    style_at(content, top_doc_chain())
}

/// Reads the description at the top of a page. A page without one is no
/// error.
pub fn read_top_doc(content: ElementRef<'_>) -> (res: Option<Style>)
    ensures
        held(res) == top_doc(content),
{
    let chain = vec!["details[class=\"toggle top-doc\"]", "div[class=\"docblock\"]"];
    assert(crate::helper::chain_texts(chain@) =~= top_doc_chain());
    match maybe(content, chain) {
        Some(found) => Style::parse(found),
        None => None,
    }
}

} // verus!
