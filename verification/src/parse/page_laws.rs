//! What holds of every page that is read: the items of a section come in
//! the order of the page, headers and lists pair off or the page is
//! refused, and the same page is read as the same model.

use crate::item::ModuleItemKind;
use crate::parse::crate_page::{entries, entry, ItemModel};
use crate::parse::item::impls::{flushed, gathered, MemberModel, PendingModel};
use crate::parse::sections::{mismatch, paired};
use crate::parse::{any_page, read_as, ErrorModel, ParseResult, Parsed};
use scraper::{ElementRef, Html};
use vstd::prelude::*;

verus! {

/// The items of a list come in the order of its entries: where the entries
/// `lis[from..]` stand for items, there are as many items as entries, and
/// each item is the one that the entry at its place stands for.
pub proof fn lemma_entries_in_order(lis: Seq<ElementRef>, from: int)
    requires
        0 <= from <= lis.len(),
    ensures
        entries(lis, from) matches Ok(items) ==> items.len() == lis.len() - from && forall|k: int|
            0 <= k < items.len() ==> entry(lis[from + k]) == Ok::<ItemModel, ErrorModel>(
                #[trigger] items[k],
            ),
    decreases lis.len() - from,
{
    if from < lis.len() {
        lemma_entries_in_order(lis, from + 1);
        match entries(lis, from) {
            Ok(items) => {
                let first = entry(lis[from])->Ok_0;
                let rest = entries(lis, from + 1)->Ok_0;
                assert(items == seq![first] + rest);
                assert forall|k: int| 0 <= k < items.len() implies entry(lis[from + k]) == Ok::<
                    ItemModel,
                    ErrorModel,
                >(#[trigger] items[k]) by {
                    if k > 0 {
                        assert(items[k] == rest[k - 1]);
                    }
                }
            },
            Err(_) => {},
        }
    }
}

/// The items of a list of the page of all items come in the order of its
/// entries: where the entries `lis[from..]` stand for items, there are as
/// many items as entries, and each item is the one that the entry at its
/// place stands for.
pub proof fn lemma_listed_entries_in_order(lis: Seq<ElementRef>, from: int)
    requires
        0 <= from <= lis.len(),
    ensures
        crate::parse::all_page::entries(lis, from) matches Ok(items) ==> items.len() == lis.len()
            - from && forall|k: int|
            0 <= k < items.len() ==> crate::parse::all_page::entry(lis[from + k]) == Ok::<
                crate::parse::all_page::ItemModel,
                ErrorModel,
            >(#[trigger] items[k]),
    decreases lis.len() - from,
{
    if from < lis.len() {
        lemma_listed_entries_in_order(lis, from + 1);
        match crate::parse::all_page::entries(lis, from) {
            Ok(items) => {
                let first = crate::parse::all_page::entry(lis[from])->Ok_0;
                let rest = crate::parse::all_page::entries(lis, from + 1)->Ok_0;
                assert(items == seq![first] + rest);
                assert forall|k: int| 0 <= k < items.len() implies crate::parse::all_page::entry(
                    lis[from + k],
                ) == Ok::<crate::parse::all_page::ItemModel, ErrorModel>(#[trigger] items[k]) by {
                    if k > 0 {
                        assert(items[k] == rest[k - 1]);
                    }
                }
            },
            Err(_) => {},
        }
    }
}

/// Whether the text of a header names a kind of item.
pub open spec fn names_kind(header: Seq<char>) -> bool {
    ModuleItemKind::classify(header) is Some
}

/// A page with more headers than lists, or more lists than headers, is
/// refused. Where every header names a kind and every list was read, it is
/// refused as a mismatch of sections and headers.
pub proof fn lemma_unpaired_is_refused<M>(
    headers: Seq<Seq<char>>,
    lists: Seq<Result<Seq<M>, ErrorModel>>,
    from: int,
    acc: Seq<Seq<M>>,
)
    requires
        0 <= from <= headers.len(),
        from <= lists.len(),
        headers.len() != lists.len(),
    ensures
        paired(headers, lists, from, acc) is Err,
        (forall|i: int| from <= i < headers.len() ==> names_kind(#[trigger] headers[i]))
            && (forall|i: int| from <= i < lists.len() ==> (#[trigger] lists[i]) is Ok) ==> paired(
            headers,
            lists,
            from,
            acc,
        ) == Err::<Seq<Seq<M>>, ErrorModel>(mismatch()),
    decreases headers.len() - from,
{
    if from < headers.len() {
        match ModuleItemKind::classify(headers[from]) {
            None => {},
            Some(kind) => {
                if from < lists.len() {
                    match lists[from] {
                        Err(_) => {},
                        Ok(items) => {
                            lemma_unpaired_is_refused(
                                headers,
                                lists,
                                from + 1,
                                acc.update(kind.ordinal() as int, items),
                            );
                        },
                    }
                }
            },
        }
    }
}

/// Where there are as many headers as lists, every header names a kind and
/// every list was read, the page has its sections: the list at the place of
/// the last header of a kind is the section of that kind, and a kind that
/// no header names has the section that it had before.
pub proof fn lemma_paired_sections<M>(
    headers: Seq<Seq<char>>,
    lists: Seq<Result<Seq<M>, ErrorModel>>,
    from: int,
    acc: Seq<Seq<M>>,
)
    requires
        0 <= from <= headers.len(),
        headers.len() == lists.len(),
        acc.len() == 13,
        forall|i: int| from <= i < headers.len() ==> names_kind(#[trigger] headers[i]),
        forall|i: int| from <= i < lists.len() ==> (#[trigger] lists[i]) is Ok,
    ensures
        paired(headers, lists, from, acc) matches Ok(sections) && sections.len() == 13 && forall|
            k: ModuleItemKind,
        |
            #![trigger sections[k.ordinal() as int]]
            sections[k.ordinal() as int] == last_list(
                headers,
                lists,
                from,
                k,
                acc[k.ordinal() as int],
            ),
    decreases headers.len() - from,
{
    if from < headers.len() {
        let kind = ModuleItemKind::classify(headers[from])->0;
        let items = lists[from]->Ok_0;
        let next = acc.update(kind.ordinal() as int, items);
        lemma_paired_sections(headers, lists, from + 1, next);
        let sections = paired(headers, lists, from, acc)->Ok_0;
        assert forall|k: ModuleItemKind|
            #![trigger sections[k.ordinal() as int]]
            sections[k.ordinal() as int] == last_list(
                headers,
                lists,
                from,
                k,
                acc[k.ordinal() as int],
            ) by {
            if k != kind {
                assert(k.ordinal() != kind.ordinal());
            }
        }
    }
}

/// The list of the last of the headers `headers[from..]` that names the
/// kind `k`; `before` where none of them names it.
pub open spec fn last_list<M>(
    headers: Seq<Seq<char>>,
    lists: Seq<Result<Seq<M>, ErrorModel>>,
    from: int,
    k: ModuleItemKind,
    before: Seq<M>,
) -> Seq<M>
    decreases headers.len() - from,
{
    if 0 <= from < headers.len() {
        if ModuleItemKind::classify(headers[from]) == Some(k) && from < lists.len()
            && lists[from] is Ok {
            last_list(headers, lists, from + 1, k, lists[from]->Ok_0)
        } else {
            last_list(headers, lists, from + 1, k, before)
        }
    } else {
        before
    }
}

/// The members that the steps `steps[from..]` start: for each step that
/// starts a member with a name, that member, in the order of the steps.
pub open spec fn started(steps: Seq<Result<Option<PendingModel>, ErrorModel>>, from: int) -> Seq<
    MemberModel,
>
    decreases steps.len() - from,
{
    if 0 <= from < steps.len() {
        match steps[from] {
            Ok(Some(pending)) => flushed(pending) + started(steps, from + 1),
            _ => started(steps, from + 1),
        }
    } else {
        Seq::empty()
    }
}

/// Where no step fails, the members of a block are the member that was
/// being read, if it has a name, and then the members that the steps start,
/// each once and in the order of the steps: none is lost at a marker or at
/// the end, and none is handed on twice.
pub proof fn lemma_gathered_members(
    steps: Seq<Result<Option<PendingModel>, ErrorModel>>,
    from: int,
    pending: PendingModel,
)
    requires
        0 <= from <= steps.len(),
        forall|i: int| from <= i < steps.len() ==> (#[trigger] steps[i]) is Ok,
    ensures
        gathered(steps, from, pending) == Ok::<Seq<MemberModel>, ErrorModel>(
            flushed(pending) + started(steps, from),
        ),
    decreases steps.len() - from,
{
    if from < steps.len() {
        match steps[from] {
            Ok(Some(next)) => {
                lemma_gathered_members(steps, from + 1, next);
                assert(flushed(pending) + (flushed(next) + started(steps, from + 1)) =~= flushed(
                    pending,
                ) + started(steps, from));
            },
            _ => {
                lemma_gathered_members(steps, from + 1, pending);
            },
        }
    } else {
        assert(flushed(pending) + started(steps, from) =~= flushed(pending));
    }
}

/// Where a step fails and none before it does, the block is refused with
/// the error of that step.
pub proof fn lemma_gathered_error(
    steps: Seq<Result<Option<PendingModel>, ErrorModel>>,
    from: int,
    at: int,
    pending: PendingModel,
)
    requires
        0 <= from <= at < steps.len(),
        steps[at] is Err,
        forall|i: int| from <= i < at ==> (#[trigger] steps[i]) is Ok,
    ensures
        gathered(steps, from, pending) == Err::<Seq<MemberModel>, ErrorModel>(steps[at]->Err_0),
    decreases at - from,
{
    if from < at {
        match steps[from] {
            Ok(Some(next)) => {
                lemma_gathered_error(steps, from + 1, at, next);
            },
            _ => {
                lemma_gathered_error(steps, from + 1, at, pending);
            },
        }
    }
}

/// Reading the same page twice gives the same: two results that are both
/// what the page is read as hold the same model, or the same error.
pub proof fn lemma_reading_again(
    page: &Html,
    first: ParseResult<Parsed>,
    second: ParseResult<Parsed>,
)
    requires
        read_as(first, any_page(page)),
        read_as(second, any_page(page)),
    ensures
        match (first, second) {
            (Ok(a), Ok(b)) => a@ == b@,
            (Err(a), Err(b)) => a@ == b@,
            _ => false,
        },
{
}

} // verus!
