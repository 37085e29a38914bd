//! The page of a keyword.

use crate::dom::{element_model, text, text_of};
use crate::helper::{chain_texts, hierarchy, hierarchy_in, walk, walk_in};
use crate::parse::style::{Piece, Style};
use crate::parse::{held, read_as, read_top_doc, top_doc, ErrorModel, ParseResult};
use scraper::Html;
use vstd::prelude::*;

verus! {

/// A keyword of the language, as its page describes it.
#[derive(Debug, Clone, PartialEq, Eq, Hash)]
pub struct Keyword {
    pub name: String,
    pub description: Option<Style>,
}

/// What the page of a keyword holds, as plain values.
pub struct KeywordModel {
    pub name: Seq<char>,
    pub description: Option<Seq<Piece>>,
}

impl View for Keyword {
    type V = KeywordModel;

    open spec fn view(&self) -> KeywordModel {
        KeywordModel { name: self.name@, description: held(self.description) }
    }
}

/// The selectors that lead from the body to the content of the page.
pub open spec fn content_chain() -> Seq<Seq<char>> {
    seq!["main"@, "div[class=\"width-limiter\"]"@, "section[id=\"main-content\"]"@]
}

/// The selectors that lead from the content to the name of the keyword.
pub open spec fn name_chain() -> Seq<Seq<char>> {
    seq!["div[class=\"main-heading\"]"@, "h1"@, "a[class=\"keyword\"]"@]
}

/// The keyword that a page is read as.
pub open spec fn keyword_page(page: &Html) -> Result<KeywordModel, ErrorModel> {
    match walk_in(page, "page"@, "body"@, content_chain()) {
        Err(e) => Err(e),
        Ok(content) => match walk(content, "content"@, name_chain(), 0) {
            Err(e) => Err(e),
            Ok(name) => Ok(
                KeywordModel {
                    name: text_of(element_model(name)),
                    description: top_doc(content),
                },
            ),
        },
    }
}

/// Reads the page of a keyword.
pub fn parse(page: &Html) -> (res: ParseResult<Keyword>)
    ensures
        read_as(res, keyword_page(page)),
{
    let chain = vec!["main", "div[class=\"width-limiter\"]", "section[id=\"main-content\"]"];
    assert(chain_texts(chain@) =~= content_chain());
    let content = match hierarchy_in(page, "page", "body", chain) {
        Ok(content) => content,
        Err(e) => {
            return Err(e);
        },
    };
    let chain = vec!["div[class=\"main-heading\"]", "h1", "a[class=\"keyword\"]"];
    assert(chain_texts(chain@) =~= name_chain());
    let name = match hierarchy(content, "content", chain) {
        Ok(name) => name,
        Err(e) => {
            return Err(e);
        },
    };
    let description = read_top_doc(content);
    Ok(Keyword { name: text(name), description })
}

} // verus!
