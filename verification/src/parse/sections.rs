//! The sections of a page: the headers of a page name kinds of item, and
//! the list that follows each header holds the items of that kind.

use crate::dom::{element_model, text, text_of};
use crate::item::ModuleItemKind;
use crate::link::texts;
use crate::parse::{views, ErrorModel, ParseError, ParseResult};
use scraper::ElementRef;
use vstd::prelude::*;

verus! {

/// The texts of the headers of a page.
pub open spec fn header_texts(headers: Seq<ElementRef>) -> Seq<Seq<char>> {
    Seq::new(headers.len(), |i: int| text_of(element_model(headers[i])))
}

/// The error of a page whose headers and lists of items do not pair off.
pub open spec fn mismatch() -> ErrorModel {
    ErrorModel::InvalidElement("HTML"@, "sections and headers are mismatched"@)
}

/// The sections of a page before any header is read: an empty list for each
/// kind of item.
pub open spec fn no_sections<M>() -> Seq<Seq<M>> {
    Seq::new(13, |i: int| Seq::empty())
}

/// The sections that the headers `headers[from..]` and the lists at their
/// places give, on top of the sections `acc` that the headers before them
/// gave. The header at `i` names a kind, and the list at `i` holds the items
/// of that kind; they become the section at the ordinal of the kind. A
/// header that names no kind, a header without a list, a list that could
/// not be read and a list without a header each refuse the page.
pub open spec fn paired<M>(
    headers: Seq<Seq<char>>,
    lists: Seq<Result<Seq<M>, ErrorModel>>,
    from: int,
    acc: Seq<Seq<M>>,
) -> Result<Seq<Seq<M>>, ErrorModel>
    decreases headers.len() - from,
{
    if 0 <= from < headers.len() {
        match ModuleItemKind::classify(headers[from]) {
            None => Err(ErrorModel::InvalidElement("header"@, headers[from])),
            Some(kind) => if from >= lists.len() {
                Err(mismatch())
            } else {
                match lists[from] {
                    Err(e) => Err(e),
                    Ok(items) => paired(
                        headers,
                        lists,
                        from + 1,
                        acc.update(kind.ordinal() as int, items),
                    ),
                }
            },
        }
    } else if lists.len() > headers.len() {
        Err(mismatch())
    } else {
        Ok(acc)
    }
}

/// What the lists of a page hold: the items of each list that was read, the
/// error of each that was not.
pub open spec fn lists_view<T: View>(v: Seq<ParseResult<Vec<T>>>) -> Seq<
    Result<Seq<T::V>, ErrorModel>,
> {
    Seq::new(
        v.len(),
        |i: int|
            match v[i] {
                Ok(items) => Ok(views(items@)),
                Err(e) => Err(e@),
            },
    )
}

/// What the sections of a page hold.
pub open spec fn sections_view<T: View>(v: Seq<Vec<T>>) -> Seq<Seq<T::V>> {
    Seq::new(v.len(), |i: int| views(v[i]@))
}

/// The error of a page whose headers and lists of items do not pair off.
fn mismatched() -> (e: ParseError)
    ensures
        e@ == mismatch(),
{
    ParseError::InvalidElement("HTML", String::from_str("sections and headers are mismatched"))
}

/// The kind that the header at `i` names, or the error of a header that
/// names none.
fn header_kind(headers: &Vec<String>, i: usize) -> (res: Result<ModuleItemKind, ParseError>)
    requires
        i < headers.len(),
    ensures
        match res {
            Ok(kind) => ModuleItemKind::classify(headers@[i as int]@) == Some(kind),
            Err(e) => ModuleItemKind::classify(headers@[i as int]@) is None && e@
                == ErrorModel::InvalidElement("header"@, headers@[i as int]@),
        },
{
    match ModuleItemKind::parse(headers[i].as_str()) {
        Some(kind) => Ok(kind),
        None => Err(ParseError::InvalidElement("header", headers[i].clone())),
    }
}

/// Pairs the headers of a page with its lists of items: the list at the
/// place of a header becomes the section of the kind that the header names.
/// There are as many sections as kinds of item.
pub fn pair<T: View>(headers: &Vec<String>, lists: Vec<ParseResult<Vec<T>>>) -> (res: ParseResult<
    Vec<Vec<T>>,
>)
    ensures
        match res {
            Ok(sections) => sections@.len() == 13 && paired(
                texts(headers@),
                lists_view(lists@),
                0,
                no_sections(),
            ) == Ok::<Seq<Seq<T::V>>, ErrorModel>(sections_view(sections@)),
            Err(e) => paired(texts(headers@), lists_view(lists@), 0, no_sections()) == Err::<
                Seq<Seq<T::V>>,
                ErrorModel,
            >(e@),
        },
{
    let ghost hs = texts(headers@);
    let ghost ls = lists_view(lists@);
    let ghost all = paired(hs, ls, 0, no_sections::<T::V>());
    let mut sections: Vec<Vec<T>> = Vec::new();
    let mut k: usize = 0;
    while k < ModuleItemKind::len()
        invariant
            k <= 13,
            sections@.len() == k,
            forall|j: int| 0 <= j < k ==> (#[trigger] sections@[j])@.len() == 0,
        decreases 13 - k,
    {
        sections.push(Vec::new());
        k += 1;
    }
    let ghost none = no_sections::<T::V>();
    assert forall|j: int| 0 <= j < 13 implies sections_view(sections@)[j] == none[j] by {
        assert(views(sections@[j]@) =~= Seq::<T::V>::empty());
    }
    assert(sections_view(sections@) =~= no_sections::<T::V>());
    let mut i: usize = 0;
    for list in it: lists
        invariant
            it.seq() == lists@,
            i == it.index(),
            i <= headers.len(),
            hs == texts(headers@),
            ls == lists_view(lists@),
            sections@.len() == 13,
            all == paired(hs, ls, 0, no_sections::<T::V>()),
            all == paired(hs, ls, i as int, sections_view(sections@)),
    {
        assert(ls[i as int] == match list {
            Ok(items) => Ok::<Seq<T::V>, ErrorModel>(views(items@)),
            Err(e) => Err::<Seq<T::V>, ErrorModel>(e@),
        });
        assert(ls.len() == lists@.len() && hs.len() == headers@.len());
        if i >= headers.len() {
            return Err(mismatched());
        }
        assert(hs[i as int] == headers@[i as int]@);
        let kind = match header_kind(headers, i) {
            Ok(kind) => kind,
            Err(e) => {
                return Err(e);
            },
        };
        match list {
            Ok(items) => {
                let ghost before = sections_view(sections@);
                let ghost held = views(items@);
                sections.set(kind.index(), items);
                assert(sections_view(sections@) =~= before.update(kind.ordinal() as int, held));
            },
            Err(e) => {
                return Err(e);
            },
        }
        i += 1;
    }
    if i < headers.len() {
        assert(hs[i as int] == headers@[i as int]@);
        return match header_kind(headers, i) {
            Ok(_) => Err(mismatched()),
            Err(e) => Err(e),
        };
    }
    Ok(sections)
}

/// Reads the texts of the headers of a page.
pub(crate) fn read_headers(headers: &Vec<ElementRef<'_>>) -> (res: Vec<String>)
    ensures
        texts(res@) == header_texts(headers@),
{
    let mut shown: Vec<String> = Vec::new();
    let mut i: usize = 0;
    while i < headers.len()
        invariant
            i <= headers.len(),
            shown@.len() == i,
            forall|k: int|
                0 <= k < i ==> (#[trigger] shown@[k])@ == text_of(element_model(headers@[k])),
        decreases headers.len() - i,
    {
        shown.push(text(headers[i]));
        i += 1;
    }
    assert(texts(shown@) =~= header_texts(headers@));
    shown
}

} // verus!
