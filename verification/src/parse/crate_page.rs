//! The index page of a crate: its name and version, the description at its
//! top, and the items of its root module by kind.

use crate::dom::{attr, element_model, html, html_of, text, text_of};
use crate::helper::{
    all_matches,
    chain_texts,
    hierarchy,
    hierarchy_in,
    maybe,
    select_all,
    walk,
    walk_in,
};
use crate::item::ModuleItemKind;
use crate::link::{path_link, Link, LinkModel};
use crate::parse::sections::{
    header_texts,
    lists_view,
    no_sections,
    pair,
    paired,
    read_headers,
    sections_view,
};
use crate::parse::style::{Piece, Style};
use crate::parse::{
    after,
    held,
    read_as,
    read_top_doc,
    style_at,
    top_doc,
    views,
    ErrorModel,
    ParseError,
    ParseResult,
};
use crate::text::{begins_with, chars_of, find, find_from, is_space, string_of};
use scraper::{ElementRef, Html};
use vstd::prelude::*;

verus! {

/// The items of a module by kind: the list at the ordinal of a kind holds
/// the items of that kind.
pub type Sections = Vec<Vec<ModuleItem>>;

/// An item of a module, as the module's page lists it.
#[derive(Debug, Clone, PartialEq, Eq, Hash)]
pub struct ModuleItem {
    pub href: Link,
    pub rust_path: String,
    pub kind: ModuleItemKind,
    pub description: Option<Style>,
}

/// What an item of a module holds, as plain values.
pub struct ItemModel {
    pub href: LinkModel,
    pub rust_path: Seq<char>,
    pub kind: ModuleItemKind,
    pub description: Option<Seq<Piece>>,
}

impl View for ModuleItem {
    type V = ItemModel;

    open spec fn view(&self) -> ItemModel {
        ItemModel {
            href: self.href@,
            rust_path: self.rust_path@,
            kind: self.kind,
            description: held(self.description),
        }
    }
}

/// The index page of a crate.
#[derive(Debug, Clone, PartialEq, Eq, Hash)]
pub struct Crate {
    pub name: String,
    pub version: String,
    pub description: Option<Style>,
    pub sections: Sections,
}

/// What the index page of a crate holds, as plain values.
pub struct CrateModel {
    pub name: Seq<char>,
    pub version: Seq<char>,
    pub description: Option<Seq<Piece>>,
    pub sections: Seq<Seq<ItemModel>>,
}

impl View for Crate {
    type V = CrateModel;

    open spec fn view(&self) -> CrateModel {
        CrateModel {
            name: self.name@,
            version: self.version@,
            description: held(self.description),
            sections: sections_view(self.sections@),
        }
    }
}

/// The place of the first whitespace in `s` at or after `from`; the length
/// of `s` where there is none.
pub open spec fn first_space(s: Seq<char>, from: int) -> int
    decreases s.len() - from,
{
    if from >= s.len() {
        s.len() as int
    } else if is_space(s[from]) {
        from
    } else {
        first_space(s, from + 1)
    }
}

/// The version that the text of the sidebar's version entry gives: what
/// stands between `Version ` and the next whitespace. The error names what
/// is missing.
pub open spec fn version_in(shown: Seq<char>) -> Result<Seq<char>, Seq<char>> {
    if !"Version "@.is_prefix_of(shown) {
        Err("version div"@)
    } else {
        let rest = shown.skip("Version "@.len() as int);
        let end = first_space(rest, 0);
        if end >= rest.len() {
            Err("version"@)
        } else {
            Ok(rest.take(end))
        }
    }
}

/// The selectors that lead from the body to the version in the sidebar.
pub open spec fn version_chain() -> Seq<Seq<char>> {
    seq![
        "div[class=\"sidebar-elems\"]"@,
        "ul[class=\"block\"]"@,
        "li[class=\"version\"]"@,
    ]
}

/// The selectors that lead from the body to the content of the page.
pub open spec fn content_chain() -> Seq<Seq<char>> {
    seq!["main"@, "div[class=\"width-limiter\"]"@, "section[id=\"main-content\"]"@]
}

/// The selectors that lead from the content to the name of the crate.
pub open spec fn name_chain() -> Seq<Seq<char>> {
    seq!["div[class=\"main-heading\"]"@, "h1"@, "a[class=\"mod\"]"@]
}

/// The selectors that lead from an entry of a list to its link.
pub open spec fn entry_link_chain() -> Seq<Seq<char>> {
    seq!["div[class=\"item-name\"]"@, "a"@]
}

/// The selector that leads from an entry of a list to its description.
pub open spec fn entry_doc_chain() -> Seq<Seq<char>> {
    seq!["div[class=\"desc docblock-short\"]"@]
}

/// The item that a link with the given `href` and title stands for. The
/// title holds the kind of the item and, after the first space, its path;
/// the `href` leads to its page.
pub open spec fn titled_item(
    href: Seq<char>,
    title: Seq<char>,
    description: Option<Seq<Piece>>,
) -> Result<ItemModel, ErrorModel> {
    let space = find_from(title, ' ', 0);
    if space >= title.len() {
        Err(ErrorModel::InvalidElement("link title"@, title))
    } else {
        match ModuleItemKind::classify(title.take(space)) {
            None => Err(ErrorModel::InvalidElement("item type"@, title.take(space))),
            Some(kind) => match path_link(href) {
                None => Err(ErrorModel::InvalidElement("link"@, href)),
                Some(link) => Ok(
                    ItemModel { href: link, rust_path: title.skip(space + 1), kind, description },
                ),
            },
        }
    }
}

/// The item that the link `p` of the entry `li` stands for. A link without
/// an `href` or without a title stands for none.
pub open spec fn link_item(li: ElementRef, p: ElementRef) -> Result<ItemModel, ErrorModel> {
    let attrs = element_model(p).attrs;
    if !attrs.contains_key("href"@) || !attrs.contains_key("title"@) {
        Err(ErrorModel::InvalidElement("link"@, html_of(p)))
    } else {
        titled_item(attrs["href"@], attrs["title"@], style_at(li, entry_doc_chain()))
    }
}

/// The item that an entry of a list stands for.
pub open spec fn entry(li: ElementRef) -> Result<ItemModel, ErrorModel> {
    match walk(li, "li"@, entry_link_chain(), 0) {
        Err(e) => Err(e),
        Ok(p) => link_item(li, p),
    }
}

/// The items that the entries `lis[from..]` stand for, in their order; the
/// error of the first entry that stands for none.
pub open spec fn entries(lis: Seq<ElementRef>, from: int) -> Result<Seq<ItemModel>, ErrorModel>
    decreases lis.len() - from,
{
    if 0 <= from < lis.len() {
        match entry(lis[from]) {
            Err(e) => Err(e),
            Ok(item) => after(seq![item], entries(lis, from + 1)),
        }
    } else {
        Ok(Seq::empty())
    }
}

/// What the lists of a page give: for each list the items that its entries
/// stand for, or the error of the first entry that stands for none.
pub open spec fn list_items(lists: Seq<ElementRef>) -> Seq<Result<Seq<ItemModel>, ErrorModel>> {
    Seq::new(lists.len(), |i: int| entries(all_matches(lists[i], "li"@), 0))
}

/// The index page that the content of a page gives, once its version is
/// known.
pub open spec fn page_of(content: ElementRef, version: Seq<char>) -> Result<
    CrateModel,
    ErrorModel,
> {
    match walk(content, "content"@, name_chain(), 0) {
        Err(e) => Err(e),
        Ok(heading) => match paired(
            header_texts(all_matches(content, "h2[class=\"small-section-header\"]"@)),
            list_items(all_matches(content, "ul[class=\"item-table\"]"@)),
            0,
            no_sections(),
        ) {
            Err(e) => Err(e),
            Ok(sections) => Ok(
                CrateModel {
                    name: text_of(element_model(heading)),
                    version,
                    description: top_doc(content),
                    sections,
                },
            ),
        },
    }
}

/// The index page that the body of a page gives.
pub open spec fn body_page(body: ElementRef) -> Result<CrateModel, ErrorModel> {
    match walk(body, "body"@, seq!["nav[class=\"sidebar\"]"@], 0) {
        Err(e) => Err(e),
        Ok(sidebar) => match walk(sidebar, "sidebar"@, version_chain(), 0) {
            Err(e) => Err(e),
            Ok(entry) => match version_in(text_of(element_model(entry))) {
                Err(what) => Err(ErrorModel::InvalidElement(what, html_of(entry))),
                Ok(version) => match walk(body, "body"@, content_chain(), 0) {
                    Err(e) => Err(e),
                    Ok(content) => page_of(content, version),
                },
            },
        },
    }
}

/// The index page of a crate that a page is read as.
pub open spec fn crate_page(page: &Html) -> Result<CrateModel, ErrorModel> {
    match walk_in(page, "page"@, "body[class=\"rustdoc mod crate\"]"@, Seq::empty()) {
        Err(e) => Err(e),
        Ok(body) => body_page(body),
    }
}

/// The first whitespace in `v` at or after `from`, or the length of `v`.
fn find_space(v: &Vec<char>, from: usize) -> (at: usize)
    requires
        from <= v.len(),
    ensures
        from <= at <= v.len(),
        at - from == first_space(v@.skip(from as int), 0),
{
    let ghost rest = v@.skip(from as int);
    let mut i: usize = from;
    while i < v.len() && !v[i].is_whitespace()
        invariant
            from <= i <= v.len(),
            rest == v@.skip(from as int),
            first_space(rest, 0) == first_space(rest, i - from),
        decreases v.len() - i,
    {
        assert(rest[i - from] == v@[i as int]);
        i += 1;
    }
    proof {
        if i < v.len() {
            assert(rest[i - from] == v@[i as int]);
        }
    }
    i
}

/// The version that the text of the sidebar's version entry gives, or what
/// is missing from it.
pub fn version_of(shown: &str) -> (res: Result<String, &'static str>)
    ensures
        match res {
            Ok(version) => version_in(shown@) == Ok::<Seq<char>, Seq<char>>(version@),
            Err(what) => version_in(shown@) == Err::<Seq<char>, Seq<char>>(what@),
        },
{
    let v = chars_of(shown);
    if !begins_with(&v, "Version ") {
        return Err("version div");
    }
    let start = chars_of("Version ").len();
    let end = find_space(&v, start);
    if end >= v.len() {
        return Err("version");
    }
    let version = string_of(&v, start, end);
    assert(v@.subrange(start as int, end as int) =~= v@.skip(start as int).take(end - start));
    Ok(version)
}

/// The item that a link with the given `href` and title stands for.
pub fn item_of(href: &str, title: &str, description: Option<Style>) -> (res: ParseResult<
    ModuleItem,
>)
    ensures
        read_as(res, titled_item(href@, title@, held(description))),
{
    let t = chars_of(title);
    let space = find(&t, ' ', 0, t.len());
    assert(t@.take(t.len() as int) =~= t@);
    if space >= t.len() {
        return Err(ParseError::InvalidElement("link title", string_of(&t, 0, t.len())));
    }
    let token = string_of(&t, 0, space);
    let kind = match ModuleItemKind::parse(token.as_str()) {
        Some(kind) => kind,
        None => {
            return Err(ParseError::InvalidElement("item type", token));
        },
    };
    let link = match Link::file(href) {
        Some(link) => link,
        None => {
            return Err(ParseError::InvalidElement("link", string_of_str(href)));
        },
    };
    let rust_path = string_of(&t, space + 1, t.len());
    assert(t@.subrange(space + 1, t.len() as int) =~= t@.skip(space + 1));
    Ok(ModuleItem { href: link, rust_path, kind, description })
}

/// A string with the text of `s`.
fn string_of_str(s: &str) -> (res: String)
    ensures
        res@ == s@,
{
    let v = chars_of(s);
    let res = string_of(&v, 0, v.len());
    assert(v@.subrange(0, v.len() as int) =~= v@);
    res
}

/// Reads the style of what the element that `chain` leads to holds.
fn read_style_at(root: ElementRef<'_>, chain: Vec<&'static str>) -> (res: Option<Style>)
    ensures
        held(res) == style_at(root, chain_texts(chain@)),
{
    match maybe(root, chain) {
        Some(found) => Style::parse(found),
        None => None,
    }
}

/// Reads the item that an entry of a list stands for.
fn read_entry(li: ElementRef<'_>) -> (res: ParseResult<ModuleItem>)
    ensures
        read_as(res, entry(li)),
{
    let chain = vec!["div[class=\"item-name\"]", "a"];
    assert(chain_texts(chain@) =~= entry_link_chain());
    let p = match hierarchy(li, "li", chain) {
        Ok(p) => p,
        Err(e) => {
            return Err(e);
        },
    };
    let href = match attr(p, "href") {
        Some(href) => href,
        None => {
            return Err(ParseError::InvalidElement("link", html(p)));
        },
    };
    let title = match attr(p, "title") {
        Some(title) => title,
        None => {
            return Err(ParseError::InvalidElement("link", html(p)));
        },
    };
    let chain = vec!["div[class=\"desc docblock-short\"]"];
    assert(chain_texts(chain@) =~= entry_doc_chain());
    let description = read_style_at(li, chain);
    item_of(href.as_str(), title.as_str(), description)
}

/// Reads the items that the entries of a list stand for.
fn read_entries(lis: &Vec<ElementRef<'_>>) -> (res: ParseResult<Vec<ModuleItem>>)
    ensures
        match res {
            Ok(items) => entries(lis@, 0) == Ok::<Seq<ItemModel>, ErrorModel>(views(items@)),
            Err(e) => entries(lis@, 0) == Err::<Seq<ItemModel>, ErrorModel>(e@),
        },
{
    let ghost all = entries(lis@, 0);
    let mut items: Vec<ModuleItem> = Vec::new();
    let mut i: usize = 0;
    assert(after(views(items@), all) == all) by {
        match all {
            Ok(r) => {
                assert(views(items@) + r =~= r);
            },
            Err(_) => {},
        }
    }
    while i < lis.len()
        invariant
            i <= lis.len(),
            all == entries(lis@, 0),
            all == after(views(items@), entries(lis@, i as int)),
        decreases lis.len() - i,
    {
        let ghost done = views(items@);
        let ghost later = entries(lis@, i + 1);
        match read_entry(lis[i]) {
            Ok(item) => {
                let ghost one = item@;
                items.push(item);
                proof {
                    assert(views(items@) =~= done.push(one));
                    match later {
                        Ok(r) => {
                            assert(done.push(one) + r =~= done + (seq![one] + r));
                        },
                        Err(_) => {},
                    }
                }
            },
            Err(e) => {
                return Err(e);
            },
        }
        i += 1;
    }
    assert(views(items@) + Seq::<ItemModel>::empty() =~= views(items@));
    Ok(items)
}

/// Reads what the lists of a page give.
fn read_lists(lists: &Vec<ElementRef<'_>>) -> (res: Vec<ParseResult<Vec<ModuleItem>>>)
    ensures
        lists_view(res@) == list_items(lists@),
{
    let mut read: Vec<ParseResult<Vec<ModuleItem>>> = Vec::new();
    let mut i: usize = 0;
    while i < lists.len()
        invariant
            i <= lists.len(),
            read@.len() == i,
            forall|k: int| 0 <= k < i ==> #[trigger] lists_view(read@)[k] == list_items(lists@)[k],
        decreases lists.len() - i,
    {
        let lis = select_all(lists[i], "li");
        let found = read_entries(&lis);
        let ghost before = read@;
        read.push(found);
        assert forall|k: int| 0 <= k < i + 1 implies #[trigger] lists_view(read@)[k] == list_items(
            lists@,
        )[k] by {
            if k < i {
                assert(read@[k] == before[k]);
                assert(lists_view(before)[k] == list_items(lists@)[k]);
            }
        }
        i += 1;
    }
    assert(lists_view(read@) =~= list_items(lists@));
    read
}

/// Reads the index page of a crate.
pub fn parse(page: &Html) -> (res: ParseResult<Crate>)
    ensures
        read_as(res, crate_page(page)),
        res matches Ok(index) ==> index.sections@.len() == 13,
{
    let none: Vec<&'static str> = Vec::new();
    assert(chain_texts(none@) =~= Seq::<Seq<char>>::empty());
    let body = match hierarchy_in(page, "page", "body[class=\"rustdoc mod crate\"]", none) {
        Ok(body) => body,
        Err(e) => {
            return Err(e);
        },
    };
    let chain = vec!["nav[class=\"sidebar\"]"];
    assert(chain_texts(chain@) =~= seq!["nav[class=\"sidebar\"]"@]);
    let sidebar = match hierarchy(body, "body", chain) {
        Ok(sidebar) => sidebar,
        Err(e) => {
            return Err(e);
        },
    };
    let chain = vec![
        "div[class=\"sidebar-elems\"]",
        "ul[class=\"block\"]",
        "li[class=\"version\"]",
    ];
    assert(chain_texts(chain@) =~= version_chain());
    let entry = match hierarchy(sidebar, "sidebar", chain) {
        Ok(entry) => entry,
        Err(e) => {
            return Err(e);
        },
    };
    let shown = text(entry);
    let version = match version_of(shown.as_str()) {
        Ok(version) => version,
        Err(what) => {
            return Err(ParseError::InvalidElement(what, html(entry)));
        },
    };
    let chain = vec!["main", "div[class=\"width-limiter\"]", "section[id=\"main-content\"]"];
    assert(chain_texts(chain@) =~= content_chain());
    let content = match hierarchy(body, "body", chain) {
        Ok(content) => content,
        Err(e) => {
            return Err(e);
        },
    };
    let chain = vec!["div[class=\"main-heading\"]", "h1", "a[class=\"mod\"]"];
    assert(chain_texts(chain@) =~= name_chain());
    let heading = match hierarchy(content, "content", chain) {
        Ok(heading) => heading,
        Err(e) => {
            return Err(e);
        },
    };
    let name = text(heading);
    let description = read_top_doc(content);
    let headers = select_all(content, "h2[class=\"small-section-header\"]");
    let lists = select_all(content, "ul[class=\"item-table\"]");
    let shown = read_headers(&headers);
    let read = read_lists(&lists);
    let sections = match pair(&shown, read) {
        Ok(sections) => sections,
        Err(e) => {
            return Err(e);
        },
    };
    Ok(Crate { name, version, description, sections })
}

} // verus!
