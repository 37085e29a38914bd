//! The walk from an element down a chain of selectors.

use crate::dom::{parse_selector, select, select_in, selected, selected_in, selector_of};
use crate::parse::{ErrorModel, ParseError};
use scraper::{ElementRef, Html};
use vstd::prelude::*;

verus! {

/// The texts of a chain of selectors.
pub open spec fn chain_texts(chain: Seq<&'static str>) -> Seq<Seq<char>> {
    Seq::new(chain.len(), |i: int| chain[i]@)
}

/// The first element below `el` that the selector matches. A text that is
/// no selector matches nothing.
pub open spec fn first_match(el: ElementRef, selector: Seq<char>) -> Option<ElementRef> {
    match selector_of(selector) {
        Some(s) => if selected(el, s).len() > 0 {
            Some(selected(el, s)[0])
        } else {
            None
        },
        None => None,
    }
}

/// The first element of the page that the selector matches.
pub open spec fn first_match_in(page: &Html, selector: Seq<char>) -> Option<ElementRef> {
    match selector_of(selector) {
        Some(s) => if selected_in(page, s).len() > 0 {
            Some(selected_in(page, s)[0])
        } else {
            None
        },
        None => None,
    }
}

/// All the elements below `el` that the selector matches, in the order in
/// which the page is searched. A text that is no selector matches nothing.
pub open spec fn all_matches(el: ElementRef, selector: Seq<char>) -> Seq<ElementRef> {
    match selector_of(selector) {
        Some(s) => selected(el, s),
        None => Seq::empty(),
    }
}

/// Where the walk from `el` down `chain[from..]` ends: each selector is
/// matched below the element that the one before it found, and the first
/// match is taken. A selector that matches nothing ends the walk with an
/// error that names it and, as the place where it was looked for, the
/// selector before it; for the first selector that place is `place`.
pub open spec fn walk(
    el: ElementRef,
    place: Seq<char>,
    chain: Seq<Seq<char>>,
    from: int,
) -> Result<ElementRef, ErrorModel>
    decreases chain.len() - from,
{
    if 0 <= from < chain.len() {
        match first_match(el, chain[from]) {
            Some(found) => walk(found, chain[from], chain, from + 1),
            None => Err(ErrorModel::ElementNotFound(chain[from], place)),
        }
    } else {
        Ok(el)
    }
}

/// Where the walk from a page ends: `first` is matched in the whole page,
/// the chain below what it found.
pub open spec fn walk_in(
    page: &Html,
    place: Seq<char>,
    first: Seq<char>,
    chain: Seq<Seq<char>>,
) -> Result<ElementRef, ErrorModel> {
    match first_match_in(page, first) {
        Some(found) => walk(found, first, chain, 0),
        None => Err(ErrorModel::ElementNotFound(first, place)),
    }
}

/// Whether a result is the one that the model gives.
pub open spec fn found_as<'a>(
    res: Result<ElementRef<'a>, ParseError>,
    model: Result<ElementRef<'a>, ErrorModel>,
) -> bool {
    match res {
        Ok(el) => model == Ok::<ElementRef, ErrorModel>(el),
        Err(e) => model == Err::<ElementRef, ErrorModel>(e@),
    }
}

/// The first element below `el` that `selector` matches.
pub fn select_first<'a>(el: ElementRef<'a>, selector: &str) -> (res: Option<ElementRef<'a>>)
    ensures
        res == first_match(el, selector@),
{
    match parse_selector(selector) {
        Some(s) => {
            let found = select(el, &s);
            if found.len() > 0 {
                Some(found[0])
            } else {
                None
            }
        },
        None => None,
    }
}

/// All the elements below `el` that `selector` matches.
pub fn select_all<'a>(el: ElementRef<'a>, selector: &str) -> (res: Vec<ElementRef<'a>>)
    ensures
        res@ == all_matches(el, selector@),
{
    match parse_selector(selector) {
        Some(s) => select(el, &s),
        None => Vec::new(),
    }
}

/// The first element of the page that `selector` matches.
pub fn select_first_in<'a>(page: &'a Html, selector: &str) -> (res: Option<ElementRef<'a>>)
    ensures
        res == first_match_in(page, selector@),
{
    match parse_selector(selector) {
        Some(s) => {
            let found = select_in(page, &s);
            if found.len() > 0 {
                Some(found[0])
            } else {
                None
            }
        },
        None => None,
    }
}

/// Walks from `root` down the chain of selectors and returns the element
/// that the last one finds. `place` names the root in the error of the first
/// selector.
pub fn hierarchy<'a>(
    root: ElementRef<'a>,
    place: &'static str,
    chain: Vec<&'static str>,
) -> (res: Result<ElementRef<'a>, ParseError>)
    ensures
        found_as(res, walk(root, place@, chain_texts(chain@), 0)),
{
    let ghost texts = chain_texts(chain@);
    let mut el = root;
    let mut prev = place;
    let mut i: usize = 0;
    while i < chain.len()
        invariant
            i <= chain.len(),
            texts == chain_texts(chain@),
            walk(root, place@, texts, 0) == walk(el, prev@, texts, i as int),
        decreases chain.len() - i,
    {
        let selector = chain[i];
        assert(texts[i as int] == selector@);
        match select_first(el, selector) {
            Some(found) => {
                el = found;
                prev = selector;
            },
            None => {
                return Err(ParseError::ElementNotFound(selector, prev));
            },
        }
        i += 1;
    }
    Ok(el)
}

/// Walks from the page down the selectors `first` and then `chain`.
pub fn hierarchy_in<'a>(
    page: &'a Html,
    place: &'static str,
    first: &'static str,
    chain: Vec<&'static str>,
) -> (res: Result<ElementRef<'a>, ParseError>)
    ensures
        found_as(res, walk_in(page, place@, first@, chain_texts(chain@))),
{
    match select_first_in(page, first) {
        Some(found) => hierarchy(found, first, chain),
        None => Err(ParseError::ElementNotFound(first, place)),
    }
}

/// The element that the walk finds, if it finds one.
pub fn maybe<'a>(root: ElementRef<'a>, chain: Vec<&'static str>) -> (res: Option<ElementRef<'a>>)
    ensures
        res == match walk(root, Seq::empty(), chain_texts(chain@), 0) {
            Ok(el) => Some(el),
            Err(_) => None,
        },
{
    match hierarchy(root, "", chain) {
        Ok(el) => Some(el),
        Err(_) => None,
    }
}

/// The element that the first `n` selectors of the chain lead to from
/// `root`; none where one of them matches nothing.
pub open spec fn reached(root: ElementRef, chain: Seq<Seq<char>>, n: int) -> Option<ElementRef>
    decreases n,
{
    if n <= 0 {
        Some(root)
    } else {
        match reached(root, chain, n - 1) {
            Some(el) => first_match(el, chain[n - 1]),
            None => None,
        }
    }
}

/// The place that the error of the selector at `i` names: the selector
/// before it, or the place of the root for the first.
pub open spec fn place_of(place: Seq<char>, chain: Seq<Seq<char>>, i: int) -> Seq<char> {
    if i <= 0 {
        place
    } else {
        chain[i - 1]
    }
}

/// What `lemma_walk_names_broken_link` says of a walk, for the rest of a
/// walk that has come as far as the link at `from`.
proof fn lemma_walk_from(root: ElementRef, place: Seq<char>, chain: Seq<Seq<char>>, from: int)
    requires
        0 <= from <= chain.len(),
        reached(root, chain, from) is Some,
    ensures
        match walk(reached(root, chain, from)->0, place_of(place, chain, from), chain, from) {
            Ok(found) => reached(root, chain, chain.len() as int) == Some(found),
            Err(e) => exists|i: int|
                from <= i < chain.len() && reached(root, chain, i) is Some && first_match(
                    reached(root, chain, i)->0,
                    chain[i],
                ) is None && e == ErrorModel::ElementNotFound(
                    chain[i],
                    place_of(place, chain, i),
                ),
        },
    decreases chain.len() - from,
{
    if from < chain.len() {
        let el = reached(root, chain, from)->0;
        match first_match(el, chain[from]) {
            Some(found) => {
                assert(reached(root, chain, from + 1) == Some(found));
                lemma_walk_from(root, place, chain, from + 1);
            },
            None => {},
        }
    }
}

/// Where a walk fails, the selectors before some link of the chain each
/// found an element, that link matched nothing below the element that the
/// one before it found, and the error names that link and the one before it;
/// for the first link it names the place of the root. Where the walk
/// succeeds, every link found an element, and the walk gives the last one.
pub proof fn lemma_walk_names_broken_link(root: ElementRef, place: Seq<char>, chain: Seq<Seq<char>>)
    ensures
        match walk(root, place, chain, 0) {
            Ok(found) => reached(root, chain, chain.len() as int) == Some(found),
            Err(e) => exists|i: int|
                0 <= i < chain.len() && reached(root, chain, i) is Some && first_match(
                    reached(root, chain, i)->0,
                    chain[i],
                ) is None && e == ErrorModel::ElementNotFound(
                    chain[i],
                    place_of(place, chain, i),
                ),
        },
{
    lemma_walk_from(root, place, chain, 0);
}

} // verus!
