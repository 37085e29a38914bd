//! The implementation blocks of an item's page and the members that they
//! list.

use crate::dom::{
    attr,
    child_elements,
    class_of,
    element_children,
    element_model,
    tag,
    text,
    text_of,
    ElementModel,
};
use crate::helper::{all_matches, chain_texts, hierarchy, select_all, walk};
use crate::item::AssociatedItemKind;
use crate::parse::style::{pieces, style_of_nodes, Piece, Style};
use crate::parse::{after, held, views, ErrorModel, ParseError, ParseResult};
use crate::text::same_text;
use scraper::ElementRef;
use vstd::prelude::*;

verus! {

/// An implementation block: its signature and the members that it lists.
#[derive(Debug, Clone, PartialEq, Eq, Hash)]
pub struct Impl {
    pub signature: Style,
    pub members: Vec<Member>,
}

/// A member of an implementation block.
#[derive(Debug, Clone, PartialEq, Eq, Hash)]
pub struct Member {
    pub kind: AssociatedItemKind,
    pub name: String,
    pub description: Option<Style>,
    pub definition: Option<Style>,
}

/// What a member holds, as plain values.
pub struct MemberModel {
    pub kind: AssociatedItemKind,
    pub name: Seq<char>,
    pub description: Option<Seq<Piece>>,
    pub definition: Option<Seq<Piece>>,
}

/// What an implementation block holds, as plain values.
pub struct ImplModel {
    pub signature: Seq<Piece>,
    pub members: Seq<MemberModel>,
}

impl View for Member {
    type V = MemberModel;

    open spec fn view(&self) -> MemberModel {
        MemberModel {
            kind: self.kind,
            name: self.name@,
            description: held(self.description),
            definition: held(self.definition),
        }
    }
}

impl View for Impl {
    type V = ImplModel;

    open spec fn view(&self) -> ImplModel {
        ImplModel { signature: self.signature@, members: views(self.members@) }
    }
}

/// The member that is being read: its name, signature and description
/// stand in several children of the block, so it is kept here until the next
/// member starts.
pub struct Pending {
    pub name: Option<String>,
    pub kind: Option<AssociatedItemKind>,
    pub description: Option<Style>,
    pub definition: Option<Style>,
}

/// What the member that is being read holds, as plain values.
pub struct PendingModel {
    pub name: Option<Seq<char>>,
    pub kind: Option<AssociatedItemKind>,
    pub description: Option<Seq<Piece>>,
    pub definition: Option<Seq<Piece>>,
}

impl View for Pending {
    type V = PendingModel;

    open spec fn view(&self) -> PendingModel {
        PendingModel {
            name: match self.name {
                Some(n) => Some(n@),
                None => None,
            },
            kind: self.kind,
            description: held(self.description),
            definition: held(self.definition),
        }
    }
}

/// The state in which no member is being read.
pub open spec fn nothing_pending() -> PendingModel {
    PendingModel { name: None, kind: None, description: None, definition: None }
}

/// The member that is handed on when the next one starts or the block ends:
/// the one that was being read, if it has a name. Without a kind of its own
/// it is a method.
pub open spec fn flushed(pending: PendingModel) -> Seq<MemberModel> {
    match pending.name {
        Some(name) => seq![
            MemberModel {
                kind: match pending.kind {
                    Some(kind) => kind,
                    None => AssociatedItemKind::Method,
                },
                name,
                description: pending.description,
                definition: pending.definition,
            },
        ],
        None => Seq::empty(),
    }
}

/// The signature of a member without the two pieces that it begins with;
/// none where it has no more than one piece.
pub open spec fn arguments(header: Seq<Piece>) -> Option<Seq<Piece>> {
    if header.len() > 1 {
        Some(header.skip(2))
    } else {
        None
    }
}

/// The kind that the class of an element names, if it has a class that
/// names one.
pub open spec fn class_kind(e: ElementModel) -> Option<AssociatedItemKind> {
    if e.attrs.contains_key("class"@) {
        AssociatedItemKind::classify(e.attrs["class"@])
    } else {
        None
    }
}

/// The kind that the identifier of an element names, if it has an
/// identifier that names one.
pub open spec fn id_kind(e: ElementModel) -> Option<AssociatedItemKind> {
    if e.attrs.contains_key("id"@) {
        AssociatedItemKind::classify(e.attrs["id"@])
    } else {
        None
    }
}

/// The selectors that lead from the summary of an implementation to the
/// name of what it implements.
pub open spec fn summary_chain() -> Seq<Seq<char>> {
    seq!["section[class=\"impl\"]"@, "h3[class=\"code-header\"]"@, "a"@]
}

/// The selectors that lead from a member with a description to its header.
pub open spec fn toggle_chain() -> Seq<Seq<char>> {
    seq!["summary"@, "h4[class=\"code-header\"]"@]
}

/// The selectors that lead from an implementation to its signature.
pub open spec fn signature_chain() -> Seq<Seq<char>> {
    seq!["summary"@, "section[class=\"impl\"]"@, "h3"@]
}

/// The member that starts at a `summary` element.
pub open spec fn summary_member(child: ElementRef) -> Result<PendingModel, ErrorModel> {
    match walk(child, "child"@, summary_chain(), 0) {
        Err(e) => Err(e),
        Ok(name) => Ok(
            PendingModel {
                name: Some(text_of(element_model(name))),
                kind: None,
                description: None,
                definition: None,
            },
        ),
    }
}

/// The member that starts at a `details` element: a member with a
/// description.
pub open spec fn toggle_member(child: ElementRef) -> Result<PendingModel, ErrorModel> {
    match walk(child, "child"@, toggle_chain(), 0) {
        Err(e) => Err(e),
        Ok(def) => match walk(def, "def"@, seq!["a"@], 0) {
            Err(e) => Err(e),
            Ok(name) => match walk(child, "child"@, seq!["div[class=\"docblock\"]"@], 0) {
                Err(e) => Err(e),
                Ok(desc) => Ok(
                    PendingModel {
                        name: Some(text_of(element_model(name))),
                        kind: class_kind(element_model(name)),
                        description: Some(style_of_nodes(element_model(desc).children, 0)),
                        definition: arguments(style_of_nodes(element_model(def).children, 0)),
                    },
                ),
            },
        },
    }
}

/// The member that starts at a `section` element: a member without a
/// description.
pub open spec fn section_member(child: ElementRef) -> Result<PendingModel, ErrorModel> {
    match walk(child, "child"@, seq!["h4[class=\"code-header\"]"@], 0) {
        Err(e) => Err(e),
        Ok(def) => match walk(def, "def"@, seq!["a"@], 0) {
            Err(e) => Err(e),
            Ok(name) => Ok(
                PendingModel {
                    name: Some(text_of(element_model(name))),
                    kind: None,
                    description: None,
                    definition: arguments(style_of_nodes(element_model(def).children, 0)),
                },
            ),
        },
    }
}

/// What starts a member in a block of members.
#[derive(Debug, Clone, Copy, PartialEq, Eq, Structural)]
pub enum Marker {
    /// A `summary` element: the summary of an implementation.
    Summary,
    /// A `details` element of class `toggle method-toggle` or `toggle`: a
    /// member with a description.
    Toggle,
    /// A `section` element of class `method`: a member without a
    /// description.
    Section,
}

/// The marker that an element with the given tag and class is, if it is
/// one.
pub open spec fn marker_of(name: Seq<char>, class: Option<Seq<char>>) -> Option<Marker> {
    if name == "summary"@ {
        Some(Marker::Summary)
    } else if name == "details"@ && (class == Some("toggle method-toggle"@) || class == Some(
        "toggle"@,
    )) {
        Some(Marker::Toggle)
    } else if name == "section"@ && class == Some("method"@) {
        Some(Marker::Section)
    } else {
        None
    }
}

/// What a child of a block of members starts: a member, if the child is a
/// marker of one; nothing, if it is not.
pub open spec fn marker(child: ElementRef) -> Result<Option<PendingModel>, ErrorModel> {
    let e = element_model(child);
    let started = match marker_of(e.name, class_of(e)) {
        Some(Marker::Summary) => Some(summary_member(child)),
        Some(Marker::Toggle) => Some(toggle_member(child)),
        Some(Marker::Section) => Some(section_member(child)),
        None => None,
    };
    match started {
        Some(Ok(pending)) => Ok(Some(pending)),
        Some(Err(e)) => Err(e),
        None => Ok(None),
    }
}

/// What the children of a block of members start, child by child.
pub open spec fn markers(children: Seq<ElementRef>) -> Seq<
    Result<Option<PendingModel>, ErrorModel>,
> {
    Seq::new(children.len(), |i: int| marker(children[i]))
}

/// The members that the steps `steps[from..]` give, where `pending` is
/// being read when the step at `from` is reached. A step that starts a
/// member hands the pending one on and makes the new one pending; a step
/// that starts nothing changes nothing; the end hands the last one on. A
/// step that failed is the error of the whole.
pub open spec fn gathered(
    steps: Seq<Result<Option<PendingModel>, ErrorModel>>,
    from: int,
    pending: PendingModel,
) -> Result<Seq<MemberModel>, ErrorModel>
    decreases steps.len() - from,
{
    if 0 <= from < steps.len() {
        match steps[from] {
            Err(e) => Err(e),
            Ok(None) => gathered(steps, from + 1, pending),
            Ok(Some(next)) => after(flushed(pending), gathered(steps, from + 1, next)),
        }
    } else {
        Ok(flushed(pending))
    }
}

/// The members that the children of a block give.
pub open spec fn members(children: Seq<ElementRef>) -> Result<Seq<MemberModel>, ErrorModel> {
    gathered(markers(children), 0, nothing_pending())
}

/// The implementation block that an element is read as.
pub open spec fn impl_of(im: ElementRef) -> Result<ImplModel, ErrorModel> {
    match walk(im, "im"@, signature_chain(), 0) {
        Err(e) => Err(e),
        Ok(signature) => match walk(im, "im"@, seq!["div[class=\"impl-items\"]"@], 0) {
            Err(e) => Err(e),
            Ok(items) => match members(element_children(items)) {
                Err(e) => Err(e),
                Ok(members) => Ok(
                    ImplModel {
                        signature: style_of_nodes(element_model(signature).children, 0),
                        members,
                    },
                ),
            },
        },
    }
}

/// The implementation blocks that the elements `ims[from..]` are read as.
pub open spec fn impls_in(ims: Seq<ElementRef>, from: int) -> Result<Seq<ImplModel>, ErrorModel>
    decreases ims.len() - from,
{
    if 0 <= from < ims.len() {
        match impl_of(ims[from]) {
            Err(e) => Err(e),
            Ok(im) => after(seq![im], impls_in(ims, from + 1)),
        }
    } else {
        Ok(Seq::empty())
    }
}

/// The implementation blocks of a section of methods.
pub open spec fn methods(section: ElementRef) -> Result<Seq<ImplModel>, ErrorModel> {
    impls_in(all_matches(section, "details[class=\"toggle implementors-toggle\"]"@), 0)
}

/// The implementation blocks of a section of the given kind. Of the kinds
/// that hold implementations, only the methods are read; the others
/// give no blocks. A section of any other kind is none that holds
/// implementations.
pub open spec fn section_impls(section: ElementRef, kind: AssociatedItemKind) -> Option<
    Result<Seq<ImplModel>, ErrorModel>,
> {
    match kind {
        AssociatedItemKind::Method => Some(methods(section)),
        AssociatedItemKind::AutoImplementation
        | AssociatedItemKind::Implementor
        | AssociatedItemKind::TraitImplementation
        | AssociatedItemKind::BlanketImplementation
        | AssociatedItemKind::RequiredMethod
        | AssociatedItemKind::RequiredAssocType
        | AssociatedItemKind::RequiredAssocConst
        | AssociatedItemKind::DerefMethod
        | AssociatedItemKind::ProvidedMethod
        | AssociatedItemKind::Variant => Some(Ok(Seq::empty())),
        _ => None,
    }
}

/// The implementation blocks that a `div` of the page gives: those of the
/// section that its identifier names, none where it names no section.
pub open spec fn div_impls(div: ElementRef) -> Result<Seq<ImplModel>, ErrorModel> {
    match id_kind(element_model(div)) {
        Some(kind) => match section_impls(div, kind) {
            Some(found) => found,
            None => Ok(Seq::empty()),
        },
        None => Ok(Seq::empty()),
    }
}

/// The implementation blocks that the elements `divs[from..]` give, one
/// after the other.
pub open spec fn sections_impls(divs: Seq<ElementRef>, from: int) -> Result<
    Seq<ImplModel>,
    ErrorModel,
>
    decreases divs.len() - from,
{
    if 0 <= from < divs.len() {
        match div_impls(divs[from]) {
            Err(e) => Err(e),
            Ok(found) => after(found, sections_impls(divs, from + 1)),
        }
    } else {
        Ok(Seq::empty())
    }
}

/// All the implementation blocks of a page.
pub open spec fn all_impls(content: ElementRef) -> Result<Seq<ImplModel>, ErrorModel> {
    sections_impls(all_matches(content, "div"@), 0)
}

/// The signature of a member without the two pieces that it begins with,
/// the keywords and the name; none where it has no more than one piece.
pub fn arguments_of(header: Style) -> (res: Option<Style>)
    ensures
        held(res) == arguments(header@),
{
    let ghost all = header@;
    let Style(mut pieces) = header;
    if pieces.len() > 1 {
        pieces.remove(0);
        pieces.remove(0);
        let rest = Style(pieces);
        assert(rest@ =~= all.skip(2));
        Some(rest)
    } else {
        None
    }
}

/// Reads the signature of a member without its first two pieces.
fn read_arguments(def: ElementRef<'_>) -> (res: Option<Style>)
    ensures
        held(res) == arguments(style_of_nodes(element_model(def).children, 0)),
{
    arguments_of(Style::parse(def).unwrap())
}

/// Reads the kind that the class of an element names.
fn read_class_kind(el: ElementRef<'_>) -> (res: Option<AssociatedItemKind>)
    ensures
        res == class_kind(element_model(el)),
{
    match attr(el, "class") {
        Some(class) => AssociatedItemKind::parse(class.as_str()),
        None => None,
    }
}

/// Reads the kind that the identifier of an element names.
fn read_id_kind(el: ElementRef<'_>) -> (res: Option<AssociatedItemKind>)
    ensures
        res == id_kind(element_model(el)),
{
    match attr(el, "id") {
        Some(id) => AssociatedItemKind::parse(id.as_str()),
        None => None,
    }
}

/// Whether the result of reading a member is the one that the model gives.
pub open spec fn started_as(res: Result<Pending, ParseError>, model: Result<
    PendingModel,
    ErrorModel,
>) -> bool {
    match res {
        Ok(p) => model == Ok::<PendingModel, ErrorModel>(p@),
        Err(e) => model == Err::<PendingModel, ErrorModel>(e@),
    }
}

/// Reads the member that starts at a `summary` element.
fn read_summary_member(child: ElementRef<'_>) -> (res: Result<Pending, ParseError>)
    ensures
        started_as(res, summary_member(child)),
{
    let chain = vec!["section[class=\"impl\"]", "h3[class=\"code-header\"]", "a"];
    assert(chain_texts(chain@) =~= summary_chain());
    match hierarchy(child, "child", chain) {
        Ok(name) => Ok(
            Pending { name: Some(text(name)), kind: None, description: None, definition: None },
        ),
        Err(e) => Err(e),
    }
}

/// Reads the member that starts at a `details` element.
fn read_toggle_member(child: ElementRef<'_>) -> (res: Result<Pending, ParseError>)
    ensures
        started_as(res, toggle_member(child)),
{
    let chain = vec!["summary", "h4[class=\"code-header\"]"];
    assert(chain_texts(chain@) =~= toggle_chain());
    let def = match hierarchy(child, "child", chain) {
        Ok(def) => def,
        Err(e) => {
            return Err(e);
        },
    };
    let chain = vec!["a"];
    assert(chain_texts(chain@) =~= seq!["a"@]);
    let name = match hierarchy(def, "def", chain) {
        Ok(name) => name,
        Err(e) => {
            return Err(e);
        },
    };
    let definition = read_arguments(def);
    let kind = read_class_kind(name);
    let chain = vec!["div[class=\"docblock\"]"];
    assert(chain_texts(chain@) =~= seq!["div[class=\"docblock\"]"@]);
    let desc = match hierarchy(child, "child", chain) {
        Ok(desc) => desc,
        Err(e) => {
            return Err(e);
        },
    };
    let description = Style::parse(desc);
    Ok(Pending { name: Some(text(name)), kind, description, definition })
}

/// Reads the member that starts at a `section` element.
fn read_section_member(child: ElementRef<'_>) -> (res: Result<Pending, ParseError>)
    ensures
        started_as(res, section_member(child)),
{
    let chain = vec!["h4[class=\"code-header\"]"];
    assert(chain_texts(chain@) =~= seq!["h4[class=\"code-header\"]"@]);
    let def = match hierarchy(child, "child", chain) {
        Ok(def) => def,
        Err(e) => {
            return Err(e);
        },
    };
    let chain = vec!["a"];
    assert(chain_texts(chain@) =~= seq!["a"@]);
    let name = match hierarchy(def, "def", chain) {
        Ok(name) => name,
        Err(e) => {
            return Err(e);
        },
    };
    let definition = read_arguments(def);
    Ok(Pending { name: Some(text(name)), kind: None, description: None, definition })
}

/// The marker that an element with the given tag and class is, if it is
/// one.
pub fn marker_kind(name: &str, class: Option<&str>) -> (res: Option<Marker>)
    ensures
        res == marker_of(
            name@,
            match class {
                Some(c) => Some(c@),
                None => None,
            },
        ),
{
    if same_text(name, "summary") {
        Some(Marker::Summary)
    } else if same_text(name, "details") && match class {
        Some(c) => same_text(c, "toggle method-toggle") || same_text(c, "toggle"),
        None => false,
    } {
        Some(Marker::Toggle)
    } else if same_text(name, "section") && match class {
        Some(c) => same_text(c, "method"),
        None => false,
    } {
        Some(Marker::Section)
    } else {
        None
    }
}

/// Reads what a child of a block of members starts.
fn read_marker(child: ElementRef<'_>) -> (res: ParseResult<Option<Pending>>)
    ensures
        step_view(res) == marker(child),
{
    let name = tag(child);
    let class = attr(child, "class");
    let kind = match &class {
        Some(c) => marker_kind(name.as_str(), Some(c.as_str())),
        None => marker_kind(name.as_str(), None),
    };
    let started = match kind {
        Some(Marker::Summary) => read_summary_member(child),
        Some(Marker::Toggle) => read_toggle_member(child),
        Some(Marker::Section) => read_section_member(child),
        None => {
            return Ok(None);
        },
    };
    match started {
        Ok(pending) => Ok(Some(pending)),
        Err(e) => Err(e),
    }
}

/// What a step holds.
pub open spec fn step_view(step: ParseResult<Option<Pending>>) -> Result<
    Option<PendingModel>,
    ErrorModel,
> {
    match step {
        Ok(Some(p)) => Ok(Some(p@)),
        Ok(None) => Ok(None),
        Err(e) => Err(e@),
    }
}

/// What the steps of a list hold.
pub open spec fn steps_view(steps: Seq<ParseResult<Option<Pending>>>) -> Seq<
    Result<Option<PendingModel>, ErrorModel>,
> {
    Seq::new(steps.len(), |i: int| step_view(steps[i]))
}

impl Pending {
    /// The state in which no member is being read.
    pub fn new() -> (pending: Pending)
        ensures
            pending@ == nothing_pending(),
    {
        Pending { name: None, kind: None, description: None, definition: None }
    }

    /// Hands the member that was being read on to the list of members, if
    /// it has a name. Without a kind of its own it is a method.
    pub fn flush(self, members: &mut Vec<Member>)
        ensures
            views(final(members)@) == views(old(members)@) + flushed(self@),
    {
        let Pending { name, kind, description, definition } = self;
        match name {
            Some(name) => {
                let kind = match kind {
                    Some(kind) => kind,
                    None => AssociatedItemKind::Method,
                };
                let member = Member { kind, name, description, definition };
                let ghost held = member@;
                members.push(member);
                assert(views(members@) =~= views(old(members)@) + seq![held]);
            },
            None => {
                assert(views(members@) =~= views(old(members)@) + Seq::<MemberModel>::empty());
            },
        }
    }
}

/// Gathers the members of a block from what its children start, child by
/// child: each member is handed on when the next one starts, and the last
/// one at the end.
pub fn gather(steps: Vec<ParseResult<Option<Pending>>>) -> (res: ParseResult<Vec<Member>>)
    ensures
        match res {
            Ok(found) => gathered(steps_view(steps@), 0, nothing_pending()) == Ok::<
                Seq<MemberModel>,
                ErrorModel,
            >(views(found@)),
            Err(e) => gathered(steps_view(steps@), 0, nothing_pending()) == Err::<
                Seq<MemberModel>,
                ErrorModel,
            >(e@),
        },
{
    let ghost ss = steps_view(steps@);
    let ghost all = gathered(ss, 0, nothing_pending());
    let mut found: Vec<Member> = Vec::new();
    let mut pending = Pending::new();
    assert(after(views(found@), all) == all) by {
        match all {
            Ok(r) => {
                assert(views(found@) + r =~= r);
            },
            Err(_) => {},
        }
    }
    for step in it: steps
        invariant
            it.seq() == steps@,
            ss == steps_view(steps@),
            all == gathered(ss, 0, nothing_pending()),
            all == after(views(found@), gathered(ss, it.index() as int, pending@)),
    {
        let ghost i = it.index() as int;
        let ghost done = views(found@);
        let ghost was = pending@;
        assert(ss[i] == step_view(step));
        match step {
            Ok(Some(next)) => {
                let ghost later = gathered(ss, i + 1, next@);
                pending.flush(&mut found);
                pending = next;
                proof {
                    match later {
                        Ok(r) => {
                            assert((done + flushed(was)) + r =~= done + (flushed(was) + r));
                        },
                        Err(_) => {},
                    }
                }
            },
            Ok(None) => {},
            Err(e) => {
                return Err(e);
            },
        }
    }
    pending.flush(&mut found);
    Ok(found)
}

/// Reads the members that the children of a block give.
fn read_members(items: ElementRef<'_>) -> (res: ParseResult<Vec<Member>>)
    ensures
        match res {
            Ok(found) => members(element_children(items)) == Ok::<Seq<MemberModel>, ErrorModel>(
                views(found@),
            ),
            Err(e) => members(element_children(items)) == Err::<Seq<MemberModel>, ErrorModel>(e@),
        },
{
    let children = child_elements(items);
    let mut steps: Vec<ParseResult<Option<Pending>>> = Vec::new();
    let mut i: usize = 0;
    while i < children.len()
        invariant
            i <= children.len(),
            steps@.len() == i,
            forall|k: int| 0 <= k < i ==> step_view(#[trigger] steps@[k]) == marker(children@[k]),
        decreases children.len() - i,
    {
        steps.push(read_marker(children[i]));
        i += 1;
    }
    assert(steps_view(steps@) =~= markers(children@));
    gather(steps)
}

/// Reads the implementation block that an element is.
fn read_impl(im: ElementRef<'_>) -> (res: Result<Impl, ParseError>)
    ensures
        crate::parse::read_as(res, impl_of(im)),
{
    let chain = vec!["summary", "section[class=\"impl\"]", "h3"];
    assert(chain_texts(chain@) =~= signature_chain());
    let signature = match hierarchy(im, "im", chain) {
        Ok(signature) => signature,
        Err(e) => {
            return Err(e);
        },
    };
    let signature = Style::parse(signature).unwrap();
    let chain = vec!["div[class=\"impl-items\"]"];
    assert(chain_texts(chain@) =~= seq!["div[class=\"impl-items\"]"@]);
    let items = match hierarchy(im, "im", chain) {
        Ok(items) => items,
        Err(e) => {
            return Err(e);
        },
    };
    match read_members(items) {
        Ok(members) => Ok(Impl { signature, members }),
        Err(e) => Err(e),
    }
}

/// Whether a list of implementation blocks is the one that the model gives.
pub open spec fn impls_as(res: Result<Vec<Impl>, ParseError>, model: Result<
    Seq<ImplModel>,
    ErrorModel,
>) -> bool {
    match res {
        Ok(found) => model == Ok::<Seq<ImplModel>, ErrorModel>(views(found@)),
        Err(e) => model == Err::<Seq<ImplModel>, ErrorModel>(e@),
    }
}

/// Reads the implementation blocks of a section of methods.
fn parse_methods(im: ElementRef<'_>) -> (res: ParseResult<Vec<Impl>>)
    ensures
        impls_as(res, methods(im)),
{
    let ims = select_all(im, "details[class=\"toggle implementors-toggle\"]");
    let ghost all = impls_in(ims@, 0);
    let mut impls: Vec<Impl> = Vec::new();
    let mut i: usize = 0;
    assert(after(views(impls@), all) == all) by {
        match all {
            Ok(r) => {
                assert(views(impls@) + r =~= r);
            },
            Err(_) => {},
        }
    }
    while i < ims.len()
        invariant
            i <= ims.len(),
            all == impls_in(ims@, 0),
            all == methods(im),
            all == after(views(impls@), impls_in(ims@, i as int)),
        decreases ims.len() - i,
    {
        let ghost done = views(impls@);
        let ghost later = impls_in(ims@, i + 1);
        match read_impl(ims[i]) {
            Ok(found) => {
                let ghost one = found@;
                impls.push(found);
                proof {
                    assert(views(impls@) =~= done.push(one));
                    match later {
                        Ok(r) => {
                            assert(done.push(one) + r =~= done + (seq![one] + r));
                        },
                        Err(_) => {},
                    }
                }
            },
            Err(e) => {
                return Err(e);
            },
        }
        i += 1;
    }
    assert(views(impls@) + Seq::<ImplModel>::empty() =~= views(impls@));
    Ok(impls)
}

/// Reads the implementation blocks of a section of the given kind; none for
/// a kind of section that holds no implementations.
pub fn parse_one(im: ElementRef<'_>, kind: AssociatedItemKind) -> (res: Option<
    ParseResult<Vec<Impl>>,
>)
    ensures
        res is Some <==> section_impls(im, kind) is Some,
        res matches Some(found) ==> impls_as(found, section_impls(im, kind)->0),
{
    match kind {
        AssociatedItemKind::Method => Some(parse_methods(im)),
        AssociatedItemKind::AutoImplementation
        | AssociatedItemKind::Implementor
        | AssociatedItemKind::TraitImplementation
        | AssociatedItemKind::BlanketImplementation
        | AssociatedItemKind::RequiredMethod
        | AssociatedItemKind::RequiredAssocType
        | AssociatedItemKind::RequiredAssocConst
        | AssociatedItemKind::DerefMethod
        | AssociatedItemKind::ProvidedMethod
        | AssociatedItemKind::Variant => {
            let none: Vec<Impl> = Vec::new();
            assert(views(none@) =~= Seq::<ImplModel>::empty());
            Some(Ok(none))
        },
        _ => None,
    }
}

/// Reads all the implementation blocks of a page: those of each `div` whose
/// identifier names a kind of section, in the order of the page.
pub fn parse_all(content: ElementRef<'_>) -> (res: ParseResult<Vec<Impl>>)
    ensures
        impls_as(res, all_impls(content)),
{
    let divs = select_all(content, "div");
    let ghost all = sections_impls(divs@, 0);
    let mut impls: Vec<Impl> = Vec::new();
    let mut i: usize = 0;
    assert(after(views(impls@), all) == all) by {
        match all {
            Ok(r) => {
                assert(views(impls@) + r =~= r);
            },
            Err(_) => {},
        }
    }
    while i < divs.len()
        invariant
            i <= divs.len(),
            all == sections_impls(divs@, 0),
            all == all_impls(content),
            all == after(views(impls@), sections_impls(divs@, i as int)),
        decreases divs.len() - i,
    {
        let ghost done = views(impls@);
        let ghost later = sections_impls(divs@, i + 1);
        let found = match read_id_kind(divs[i]) {
            Some(kind) => parse_one(divs[i], kind),
            None => None,
        };
        match found {
            Some(Ok(mut found)) => {
                let ghost more = views(found@);
                impls.append(&mut found);
                proof {
                    assert(views(impls@) =~= done + more);
                    match later {
                        Ok(r) => {
                            assert((done + more) + r =~= done + (more + r));
                        },
                        Err(_) => {},
                    }
                }
            },
            Some(Err(e)) => {
                return Err(e);
            },
            None => {
                proof {
                    let none = Seq::<ImplModel>::empty();
                    match later {
                        Ok(r) => {
                            assert(done + r =~= done + (none + r));
                        },
                        Err(_) => {},
                    }
                }
            },
        }
        i += 1;
    }
    assert(views(impls@) + Seq::<ImplModel>::empty() =~= views(impls@));
    Ok(impls)
}

/// A copy of an optional style.
fn copy_style(style: &Option<Style>) -> (copy: Option<Style>)
    ensures
        held(copy) == held(*style),
{
    match style {
        Some(s) => Some(s.clone()),
        None => None,
    }
}

/// A copy of a member.
fn copy_member(member: &Member) -> (copy: Member)
    ensures
        copy@ == member@,
{
    Member {
        kind: member.kind,
        name: member.name.clone(),
        description: copy_style(&member.description),
        definition: copy_style(&member.definition),
    }
}

/// A copy of a list of implementation blocks.
pub fn copy_impls(impls: &Vec<Impl>) -> (copy: Vec<Impl>)
    ensures
        views(copy@) == views(impls@),
{
    let mut copy: Vec<Impl> = Vec::new();
    let mut i: usize = 0;
    while i < impls.len()
        invariant
            i <= impls.len(),
            copy@.len() == i,
            forall|k: int| 0 <= k < i ==> (#[trigger] copy@[k])@ == impls@[k]@,
        decreases impls.len() - i,
    {
        let im = &impls[i];
        let mut members: Vec<Member> = Vec::new();
        let mut j: usize = 0;
        while j < im.members.len()
            invariant
                j <= im.members.len(),
                members@.len() == j,
                forall|k: int| 0 <= k < j ==> (#[trigger] members@[k])@ == im.members@[k]@,
            decreases im.members.len() - j,
        {
            members.push(copy_member(&im.members[j]));
            j += 1;
        }
        assert(views(members@) =~= views(im.members@));
        copy.push(Impl { signature: im.signature.clone(), members });
        i += 1;
    }
    assert(views(copy@) =~= views(impls@));
    copy
}

} // verus!
