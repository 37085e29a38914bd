//! The page of a constant.

use crate::dom::{element_model, text, text_of};
use crate::helper::{chain_texts, hierarchy, hierarchy_in, walk, walk_in};
use crate::parse::style::{style_of_nodes, Piece, Style};
use crate::parse::{held, read_as, read_top_doc, top_doc, ErrorModel, ParseResult};
use scraper::Html;
use vstd::prelude::*;

verus! {

/// A constant, as its page describes it.
#[derive(Debug, Clone, PartialEq, Eq, Hash)]
pub struct Constant {
    pub name: String,
    pub definition: Style,
    pub description: Option<Style>,
}

/// What the page of a constant holds, as plain values.
pub struct ConstantModel {
    pub name: Seq<char>,
    pub definition: Seq<Piece>,
    pub description: Option<Seq<Piece>>,
}

impl View for Constant {
    type V = ConstantModel;

    open spec fn view(&self) -> ConstantModel {
        ConstantModel {
            name: self.name@,
            definition: self.definition@,
            description: held(self.description),
        }
    }
}

/// The selectors that lead from the body to the content of the page.
pub open spec fn content_chain() -> Seq<Seq<char>> {
    seq!["main"@, "div[class=\"width-limiter\"]"@, "section[id=\"main-content\"]"@]
}

/// The selectors that lead from the content to the name of the constant.
pub open spec fn name_chain() -> Seq<Seq<char>> {
    seq!["h1"@, "a[href=\"#\"]"@]
}

/// The selectors that lead from the content to the declaration of the
/// constant.
pub open spec fn declaration_chain() -> Seq<Seq<char>> {
    seq!["pre[class=\"rust item-decl\"]"@, "code"@]
}

/// The constant that a page is read as.
pub open spec fn constant_page(page: &Html) -> Result<ConstantModel, ErrorModel> {
    match walk_in(page, "page"@, "body"@, Seq::empty()) {
        Err(e) => Err(e),
        Ok(body) => match walk(body, "body"@, content_chain(), 0) {
            Err(e) => Err(e),
            Ok(main) => match walk(main, "main"@, name_chain(), 0) {
                Err(e) => Err(e),
                Ok(name) => match walk(main, "main"@, declaration_chain(), 0) {
                    Err(e) => Err(e),
                    Ok(code) => Ok(
                        ConstantModel {
                            name: text_of(element_model(name)),
                            definition: style_of_nodes(element_model(code).children, 0),
                            description: top_doc(main),
                        },
                    ),
                },
            },
        },
    }
}

/// Reads the page of a constant.
pub fn parse(page: &Html) -> (res: ParseResult<Constant>)
    ensures
        read_as(res, constant_page(page)),
{
    let none: Vec<&'static str> = Vec::new();
    assert(chain_texts(none@) =~= Seq::<Seq<char>>::empty());
    let body = match hierarchy_in(page, "page", "body", none) {
        Ok(body) => body,
        Err(e) => {
            return Err(e);
        },
    };
    let chain = vec!["main", "div[class=\"width-limiter\"]", "section[id=\"main-content\"]"];
    assert(chain_texts(chain@) =~= content_chain());
    let main = match hierarchy(body, "body", chain) {
        Ok(main) => main,
        Err(e) => {
            return Err(e);
        },
    };
    let chain = vec!["h1", "a[href=\"#\"]"];
    assert(chain_texts(chain@) =~= name_chain());
    let name = match hierarchy(main, "main", chain) {
        Ok(name) => name,
        Err(e) => {
            return Err(e);
        },
    };
    let description = read_top_doc(main);
    let chain = vec!["pre[class=\"rust item-decl\"]", "code"];
    assert(chain_texts(chain@) =~= declaration_chain());
    let code = match hierarchy(main, "main", chain) {
        Ok(code) => code,
        Err(e) => {
            return Err(e);
        },
    };
    let definition = Style::parse(code).unwrap();
    Ok(Constant { name: text(name), definition, description })
}

} // verus!
