//! The page that lists all the items of a crate, by kind.

use crate::dom::{attr, element_model, html, html_of, text, text_of};
use crate::helper::{all_matches, chain_texts, hierarchy, hierarchy_in, select_all, walk, walk_in};
use crate::link::{path_link, Link, LinkModel};
use crate::parse::sections::{
    header_texts,
    lists_view,
    no_sections,
    pair,
    paired,
    read_headers,
    sections_view,
};
use crate::parse::{after, read_as, views, ErrorModel, ParseError, ParseResult};
use crate::text::{chars_of, string_of};
use scraper::{ElementRef, Html};
use vstd::prelude::*;

verus! {

/// The items of a crate by kind: the list at the ordinal of a kind holds the
/// items of that kind.
pub type Sections = Vec<Vec<ModuleItem>>;

/// An item of a crate, as the page of all items lists it.
#[derive(Debug, Clone, PartialEq, Eq, Hash)]
pub struct ModuleItem {
    pub href: Link,
    pub rust_path: String,
}

/// What an item of the list holds, as plain values.
pub struct ItemModel {
    pub href: LinkModel,
    pub rust_path: Seq<char>,
}

impl View for ModuleItem {
    type V = ItemModel;

    open spec fn view(&self) -> ItemModel {
        ItemModel { href: self.href@, rust_path: self.rust_path@ }
    }
}

/// The selectors that lead from the root element to the content of the
/// page.
pub open spec fn content_chain() -> Seq<Seq<char>> {
    seq![
        "body[class=\"rustdoc mod\"]"@,
        "main"@,
        "section[id=\"main-content\"], section[class=\"content\"]"@,
    ]
}

/// The item that a link with the given `href` and text stands for: the
/// text is the path of the item, the `href` leads to its page.
pub open spec fn linked_item(href: Seq<char>, shown: Seq<char>) -> Result<ItemModel, ErrorModel> {
    match path_link(href) {
        None => Err(ErrorModel::InvalidElement("link"@, href)),
        Some(link) => Ok(ItemModel { href: link, rust_path: shown }),
    }
}

/// The item that an entry of a list stands for. An entry without a link,
/// and a link without an `href`, stands for none.
pub open spec fn entry(li: ElementRef) -> Result<ItemModel, ErrorModel> {
    match walk(li, "li"@, seq!["a"@], 0) {
        Err(e) => Err(e),
        Ok(a) => {
            let attrs = element_model(a).attrs;
            if !attrs.contains_key("href"@) {
                Err(ErrorModel::InvalidElement("link"@, html_of(a)))
            } else {
                linked_item(attrs["href"@], text_of(element_model(a)))
            }
        },
    }
}

/// The items that the entries `lis[from..]` stand for, in their order; the
/// error of the first entry that stands for none.
pub open spec fn entries(lis: Seq<ElementRef>, from: int) -> Result<Seq<ItemModel>, ErrorModel>
    decreases lis.len() - from,
{
    if 0 <= from < lis.len() {
        match entry(lis[from]) {
            Err(e) => Err(e),
            Ok(item) => after(seq![item], entries(lis, from + 1)),
        }
    } else {
        Ok(Seq::empty())
    }
}

/// What the lists of a page give: for each list the items that its entries
/// stand for, or the error of the first entry that stands for none.
pub open spec fn list_items(lists: Seq<ElementRef>) -> Seq<Result<Seq<ItemModel>, ErrorModel>> {
    Seq::new(lists.len(), |i: int| entries(all_matches(lists[i], "li"@), 0))
}

/// The sections that a page is read as, if it is the page of all items.
pub open spec fn all_page(page: &Html) -> Result<Seq<Seq<ItemModel>>, ErrorModel> {
    match walk_in(page, "page"@, "html"@, content_chain()) {
        Err(e) => Err(e),
        Ok(content) => paired(
            header_texts(all_matches(content, "h3"@)),
            list_items(all_matches(content, "ul[class=\"all-items\"]"@)),
            0,
            no_sections(),
        ),
    }
}

/// The item that a link with the given `href` and text stands for.
pub fn item_of(href: &str, shown: String) -> (res: ParseResult<ModuleItem>)
    ensures
        read_as(res, linked_item(href@, shown@)),
{
    match Link::file(href) {
        Some(link) => Ok(ModuleItem { href: link, rust_path: shown }),
        None => {
            let v = chars_of(href);
            let found = string_of(&v, 0, v.len());
            assert(v@.subrange(0, v.len() as int) =~= v@);
            Err(ParseError::InvalidElement("link", found))
        },
    }
}

/// Reads the item that an entry of a list stands for.
fn read_entry(li: ElementRef<'_>) -> (res: ParseResult<ModuleItem>)
    ensures
        read_as(res, entry(li)),
{
    let chain = vec!["a"];
    assert(chain_texts(chain@) =~= seq!["a"@]);
    let a = match hierarchy(li, "li", chain) {
        Ok(a) => a,
        Err(e) => {
            return Err(e);
        },
    };
    match attr(a, "href") {
        Some(href) => item_of(href.as_str(), text(a)),
        None => Err(ParseError::InvalidElement("link", html(a))),
    }
}

/// Reads the items that the entries of a list stand for.
fn read_entries(lis: &Vec<ElementRef<'_>>) -> (res: ParseResult<Vec<ModuleItem>>)
    ensures
        match res {
            Ok(items) => entries(lis@, 0) == Ok::<Seq<ItemModel>, ErrorModel>(views(items@)),
            Err(e) => entries(lis@, 0) == Err::<Seq<ItemModel>, ErrorModel>(e@),
        },
{
    let ghost all = entries(lis@, 0);
    let mut items: Vec<ModuleItem> = Vec::new();
    let mut i: usize = 0;
    assert(after(views(items@), all) == all) by {
        match all {
            Ok(r) => {
                assert(views(items@) + r =~= r);
            },
            Err(_) => {},
        }
    }
    while i < lis.len()
        invariant
            i <= lis.len(),
            all == entries(lis@, 0),
            all == after(views(items@), entries(lis@, i as int)),
        decreases lis.len() - i,
    {
        let ghost done = views(items@);
        let ghost later = entries(lis@, i + 1);
        match read_entry(lis[i]) {
            Ok(item) => {
                let ghost one = item@;
                items.push(item);
                proof {
                    assert(views(items@) =~= done.push(one));
                    match later {
                        Ok(r) => {
                            assert(done.push(one) + r =~= done + (seq![one] + r));
                        },
                        Err(_) => {},
                    }
                }
            },
            Err(e) => {
                return Err(e);
            },
        }
        i += 1;
    }
    assert(views(items@) + Seq::<ItemModel>::empty() =~= views(items@));
    Ok(items)
}

/// Reads what the lists of a page give.
fn read_lists(lists: &Vec<ElementRef<'_>>) -> (res: Vec<ParseResult<Vec<ModuleItem>>>)
    ensures
        lists_view(res@) == list_items(lists@),
{
    let mut read: Vec<ParseResult<Vec<ModuleItem>>> = Vec::new();
    let mut i: usize = 0;
    while i < lists.len()
        invariant
            i <= lists.len(),
            read@.len() == i,
            forall|k: int| 0 <= k < i ==> #[trigger] lists_view(read@)[k] == list_items(lists@)[k],
        decreases lists.len() - i,
    {
        let lis = select_all(lists[i], "li");
        let found = read_entries(&lis);
        let ghost before = read@;
        read.push(found);
        assert forall|k: int| 0 <= k < i + 1 implies #[trigger] lists_view(read@)[k] == list_items(
            lists@,
        )[k] by {
            if k < i {
                assert(read@[k] == before[k]);
                assert(lists_view(before)[k] == list_items(lists@)[k]);
            }
        }
        i += 1;
    }
    assert(lists_view(read@) =~= list_items(lists@));
    read
}

/// Parses an `all.html` page into its constituent sections,
/// each with its own list of items.
pub fn parse(page: &Html) -> (res: ParseResult<Sections>)
    ensures
        match res {
            Ok(sections) => sections@.len() == 13 && all_page(page) == Ok::<
                Seq<Seq<ItemModel>>,
                ErrorModel,
            >(sections_view(sections@)),
            Err(e) => all_page(page) == Err::<Seq<Seq<ItemModel>>, ErrorModel>(e@),
        },
{
    let chain = vec![
        "body[class=\"rustdoc mod\"]",
        "main",
        "section[id=\"main-content\"], section[class=\"content\"]",
    ];
    assert(chain_texts(chain@) =~= content_chain());
    let content = match hierarchy_in(page, "page", "html", chain) {
        Ok(content) => content,
        Err(e) => {
            return Err(e);
        },
    };
    let headers = select_all(content, "h3");
    let lists = select_all(content, "ul[class=\"all-items\"]");
    let shown = read_headers(&headers);
    let read = read_lists(&lists);
    pair(&shown, read)
}

} // verus!
