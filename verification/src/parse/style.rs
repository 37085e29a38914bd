//! Styled text: the tree of emphasis, headings, code, links and lists that
//! an element of a page is read as, and the plain text that such a tree
//! flattens to.

use crate::dom::{
    attr,
    children,
    element_model,
    lemma_child_is_smaller,
    tag,
    text,
    text_of,
    Child,
    ElementModel,
    Markup,
};
use crate::link::{any_link, Link, LinkModel};
use crate::text::{chars_of, decimal, push_decimal, push_str, same_text};
use scraper::ElementRef;
use vstd::prelude::*;

verus! {

/// A `Vec` of [`StyleModifier`] representing styled text.
#[derive(Debug, PartialEq, Eq, Hash)]
pub struct Style(pub Vec<StyleModifier>);

/// One piece of styled text. The pieces that wrap a style nest to any depth.
#[derive(Debug, PartialEq, Eq, Hash)]
pub enum StyleModifier {
    Normal(String),
    Heading(Style, u8),
    Code(String),
    Pre(String),
    Bold(Style),
    Italic(Style),
    Link(Style, Link),
    List(Vec<Style>, bool),
    ListItem(Style),
    Other(Style),
}

/// What a piece of styled text holds, as plain values.
pub enum Piece {
    Normal(Seq<char>),
    Heading(Seq<Piece>, u8),
    Code(Seq<char>),
    Pre(Seq<char>),
    Bold(Seq<Piece>),
    Italic(Seq<Piece>),
    Link(Seq<Piece>, LinkModel),
    List(Seq<Seq<Piece>>, bool),
    ListItem(Seq<Piece>),
    Other(Seq<Piece>),
}

/// What the pieces of a list of modifiers hold.
pub open spec fn pieces(v: Seq<StyleModifier>) -> Seq<Piece>
    decreases v,
{
    Seq::new(
        v.len(),
        |i: int|
            if 0 <= i < v.len() {
                v[i].view()
            } else {
                Piece::Other(Seq::empty())
            },
    )
}

/// What the styles of a list hold.
pub open spec fn styles(v: Seq<Style>) -> Seq<Seq<Piece>>
    decreases v,
{
    Seq::new(
        v.len(),
        |i: int|
            if 0 <= i < v.len() {
                v[i].view()
            } else {
                Seq::empty()
            },
    )
}

impl View for Style {
    type V = Seq<Piece>;

    open spec fn view(&self) -> Seq<Piece>
        decreases self,
    {
        pieces(self.0@)
    }
}

impl View for StyleModifier {
    type V = Piece;

    open spec fn view(&self) -> Piece
        decreases self,
    {
        match self {
            StyleModifier::Normal(s) => Piece::Normal(s@),
            StyleModifier::Heading(s, level) => Piece::Heading(s.view(), *level),
            StyleModifier::Code(s) => Piece::Code(s@),
            StyleModifier::Pre(s) => Piece::Pre(s@),
            StyleModifier::Bold(s) => Piece::Bold(s.view()),
            StyleModifier::Italic(s) => Piece::Italic(s.view()),
            StyleModifier::Link(s, link) => Piece::Link(s.view(), link@),
            StyleModifier::List(items, ordered) => Piece::List(styles(items@), *ordered),
            StyleModifier::ListItem(s) => Piece::ListItem(s.view()),
            StyleModifier::Other(s) => Piece::Other(s.view()),
        }
    }
}

/// Whether a piece of style is well formed: a heading has a level from 1 to
/// 6, a link is one that reading a text can give, and the pieces that a
/// piece wraps are well formed themselves.
pub open spec fn well_formed_piece(piece: Piece) -> bool
    decreases piece,
{
    match piece {
        Piece::Normal(_) => true,
        Piece::Code(_) => true,
        Piece::Pre(_) => true,
        Piece::Heading(s, level) => 1 <= level <= 6 && (forall|i: int|
            0 <= i < s.len() ==> well_formed_piece(#[trigger] s[i])),
        Piece::Bold(s) => forall|i: int| 0 <= i < s.len() ==> well_formed_piece(#[trigger] s[i]),
        Piece::Italic(s) => forall|i: int| 0 <= i < s.len() ==> well_formed_piece(#[trigger] s[i]),
        Piece::ListItem(s) => forall|i: int|
            0 <= i < s.len() ==> well_formed_piece(#[trigger] s[i]),
        Piece::Other(s) => forall|i: int| 0 <= i < s.len() ==> well_formed_piece(#[trigger] s[i]),
        Piece::Link(s, link) => crate::link::well_formed(link) && (forall|i: int|
            0 <= i < s.len() ==> well_formed_piece(#[trigger] s[i])),
        Piece::List(items, _) => forall|i: int, j: int|
            0 <= i < items.len() && 0 <= j < items[i].len() ==> well_formed_piece(
                #[trigger] items[i][j],
            ),
    }
}

/// Whether every piece of a style is well formed.
pub open spec fn well_formed(style: Seq<Piece>) -> bool {
    forall|i: int| 0 <= i < style.len() ==> well_formed_piece(#[trigger] style[i])
}

/// The single line feed that rustdoc leaves between the items of a list.
pub open spec fn line_feed() -> Seq<char> {
    seq!['\n']
}

/// The link that the `href` of an element leads to, if it has one that can
/// be read.
pub open spec fn href_of(e: ElementModel) -> Option<LinkModel> {
    if e.attrs.contains_key("href"@) {
        any_link(e.attrs["href"@])
    } else {
        None
    }
}

/// What the tag of an element stands for.
#[derive(Debug, Clone, Copy, PartialEq, Eq, Structural)]
pub enum Tag {
    Bold,
    Italic,
    Code,
    Pre,
    /// A heading of the given level, from 1 to 6.
    Heading(u8),
    Anchor,
    ListItem,
    /// A list; ordered, if it numbers its items.
    List(bool),
    /// Any tag that stands for nothing of these.
    Other,
}

/// What a tag stands for, by its name.
pub open spec fn tag_of(name: Seq<char>) -> Tag {
    if name == "bold"@ || name == "b"@ || name == "strong"@ {
        Tag::Bold
    } else if name == "italic"@ || name == "i"@ || name == "emphasis"@ || name == "em"@ {
        Tag::Italic
    } else if name == "code"@ {
        Tag::Code
    } else if name == "pre"@ {
        Tag::Pre
    } else if name == "h1"@ {
        Tag::Heading(1)
    } else if name == "h2"@ {
        Tag::Heading(2)
    } else if name == "h3"@ {
        Tag::Heading(3)
    } else if name == "h4"@ {
        Tag::Heading(4)
    } else if name == "h5"@ {
        Tag::Heading(5)
    } else if name == "h6"@ {
        Tag::Heading(6)
    } else if name == "a"@ {
        Tag::Anchor
    } else if name == "li"@ {
        Tag::ListItem
    } else if name == "ul"@ {
        Tag::List(false)
    } else if name == "ol"@ {
        Tag::List(true)
    } else {
        Tag::Other
    }
}

/// The piece that an anchor is read as: none, if the text that it shows is
/// `Run`; a link, if it leads somewhere; else a piece that keeps what the
/// anchor holds.
pub open spec fn anchor_piece(
    shown: Seq<char>,
    link: Option<LinkModel>,
    inner: Seq<Piece>,
) -> Option<Piece> {
    if shown == "Run"@ {
        None
    } else {
        match link {
            Some(link) => Some(Piece::Link(inner, link)),
            None => Some(Piece::Other(inner)),
        }
    }
}

/// Whether a child of a list is an item of it: one that holds a single line
/// feed and nothing else is not.
pub open spec fn is_item(held: Seq<Piece>) -> bool {
    held != seq![Piece::Normal(line_feed())]
}

/// The style of the nodes `nodes[from..]`: the pieces that each of them
/// gives, in the order of the page.
pub open spec fn style_of_nodes(nodes: Seq<Markup>, from: int) -> Seq<Piece>
    decreases nodes, nodes.len() - from,
{
    if 0 <= from < nodes.len() {
        pieces_of_node(nodes[from]) + style_of_nodes(nodes, from + 1)
    } else {
        Seq::empty()
    }
}

/// The pieces that a node gives: a text gives itself, an element the piece
/// that its tag stands for, if it stands for one; any other node nothing.
pub open spec fn pieces_of_node(node: Markup) -> Seq<Piece>
    decreases node, 1int,
{
    match node {
        Markup::Text(t) => seq![Piece::Normal(t)],
        Markup::Element(e) => match piece_of(e) {
            Some(p) => seq![p],
            None => Seq::empty(),
        },
        Markup::Other => Seq::empty(),
    }
}

/// The piece that an element is read as, by its tag. A tag that is not known
/// gives `Other`, which keeps what the element holds. An anchor whose text
/// is `Run` is left out; an anchor whose `href` is no link gives `Other`.
pub open spec fn piece_of(e: ElementModel) -> Option<Piece>
    decreases e, 0int,
{
    let inner = style_of_nodes(e.children, 0);
    match tag_of(e.name) {
        Tag::Bold => Some(Piece::Bold(inner)),
        Tag::Italic => Some(Piece::Italic(inner)),
        Tag::Code => Some(Piece::Code(text_of(e))),
        Tag::Pre => Some(Piece::Pre(text_of(e))),
        Tag::Heading(level) => Some(Piece::Heading(inner, level)),
        Tag::Anchor => anchor_piece(text_of(e), href_of(e), inner),
        Tag::ListItem => Some(Piece::ListItem(inner)),
        Tag::List(ordered) => Some(Piece::List(items_of(e.children, 0), ordered)),
        Tag::Other => Some(Piece::Other(inner)),
    }
}

/// The items of a list, read from the children `nodes[from..]` of its
/// element: an element gives the style of what it holds, a text gives
/// itself. A child that holds a single line feed and nothing else is left
/// out.
pub open spec fn items_of(nodes: Seq<Markup>, from: int) -> Seq<Seq<Piece>>
    decreases nodes, nodes.len() - from,
{
    if 0 <= from < nodes.len() {
        item_of(nodes[from]) + items_of(nodes, from + 1)
    } else {
        Seq::empty()
    }
}

/// The item that a child of a list gives, if it gives one.
pub open spec fn item_of(node: Markup) -> Seq<Seq<Piece>>
    decreases node, 1int,
{
    match node {
        Markup::Text(t) => if t == line_feed() {
            Seq::empty()
        } else {
            seq![seq![Piece::Normal(t)]]
        },
        Markup::Element(e) => {
            let inner = style_of_nodes(e.children, 0);
            if is_item(inner) {
                seq![inner]
            } else {
                Seq::empty()
            }
        },
        Markup::Other => Seq::empty(),
    }
}

/// The lines of `s[from..]`, where `cur` holds the characters of a line
/// that began before `from`. A line ends at a line feed; a carriage return
/// just before the line feed is not part of the line. What follows the last
/// line feed is a line if it is not empty.
pub open spec fn lines_after(s: Seq<char>, from: int, cur: Seq<char>) -> Seq<Seq<char>>
    decreases s.len() - from,
{
    if from >= s.len() {
        if cur.len() > 0 {
            seq![cur]
        } else {
            Seq::empty()
        }
    } else if s[from] == '\n' {
        seq![without_return(cur)] + lines_after(s, from + 1, Seq::empty())
    } else {
        lines_after(s, from + 1, cur.push(s[from]))
    }
}

/// A line without the carriage return at its end, if it has one.
pub open spec fn without_return(line: Seq<char>) -> Seq<char> {
    if line.len() > 0 && line.last() == '\r' {
        line.drop_last()
    } else {
        line
    }
}

/// The lines `lines[from..]`, each after a tab and before a line feed.
pub open spec fn indented(lines: Seq<Seq<char>>, from: int) -> Seq<char>
    decreases lines.len() - from,
{
    if 0 <= from < lines.len() {
        seq!['\t'] + lines[from] + seq!['\n'] + indented(lines, from + 1)
    } else {
        Seq::empty()
    }
}

/// The plain text of the pieces `style[from..]`.
pub open spec fn plain(style: Seq<Piece>, from: int) -> Seq<char>
    decreases style, style.len() - from,
{
    if 0 <= from < style.len() {
        plain_piece(style[from]) + plain(style, from + 1)
    } else {
        Seq::empty()
    }
}

/// The plain text of a piece. Text and code stand as they are. A piece that
/// wraps a style gives the plain text of that style. Preformatted text gives
/// its lines, each after a tab and before a line feed. A list gives its
/// items, each on a line of its own after its number (`1. `) if the list is
/// ordered and after a dash (` - `) if it is not.
pub open spec fn plain_piece(piece: Piece) -> Seq<char>
    decreases piece, 0int,
{
    match piece {
        Piece::Normal(t) => t,
        Piece::Code(t) => t,
        Piece::Heading(s, _) => plain(s, 0),
        Piece::Bold(s) => plain(s, 0),
        Piece::Italic(s) => plain(s, 0),
        Piece::ListItem(s) => plain(s, 0),
        Piece::Other(s) => plain(s, 0),
        Piece::Link(s, _) => plain(s, 0),
        Piece::Pre(t) => indented(lines_after(t, 0, Seq::empty()), 0),
        Piece::List(items, ordered) => plain_items(items, ordered, 0),
    }
}

/// The plain text of the items `items[from..]` of a list.
pub open spec fn plain_items(items: Seq<Seq<Piece>>, ordered: bool, from: int) -> Seq<char>
    decreases items, items.len() - from,
{
    if 0 <= from < items.len() {
        bullet(ordered, from) + plain(items[from], 0) + seq!['\n'] + plain_items(
            items,
            ordered,
            from + 1,
        )
    } else {
        Seq::empty()
    }
}

/// What stands before the item at `index` of a list: in an ordered list the
/// number of the item, counted from 1, a dot and a space; in any other list
/// a dash between two spaces.
pub open spec fn bullet(ordered: bool, index: int) -> Seq<char> {
    if ordered {
        decimal((index + 1) as nat) + seq!['.', ' ']
    } else {
        seq![' ', '-', ' ']
    }
}

/// Whether a text is a single line feed.
fn is_line_feed(t: &str) -> (b: bool)
    ensures
        b == (t@ == line_feed()),
{
    proof {
        reveal_strlit("\n");
        assert("\n"@ =~= line_feed());
    }
    same_text(t, "\n")
}

/// Whether a child of a list that holds `style` is an item of it.
pub fn keeps_item(style: &Style) -> (b: bool)
    ensures
        b == is_item(style@),
{
    let ghost blank = seq![Piece::Normal(line_feed())];
    assert(blank.len() == 1 && blank[0] == Piece::Normal(line_feed()));
    if style.0.len() != 1 {
        return true;
    }
    match &style.0[0] {
        StyleModifier::Normal(t) => {
            let b = is_line_feed(t.as_str());
            assert(style@[0] == Piece::Normal(t@));
            if b {
                assert(style@ =~= blank);
            }
            !b
        },
        _ => {
            assert(style@[0] == style.0@[0]@);
            true
        },
    }
}

/// What the tag of the given name stands for.
pub fn tag_kind(name: &str) -> (tag: Tag)
    ensures
        tag == tag_of(name@),
{
    if same_text(name, "bold") || same_text(name, "b") || same_text(name, "strong") {
        Tag::Bold
    } else if same_text(name, "italic") || same_text(name, "i") || same_text(name, "emphasis")
        || same_text(name, "em") {
        Tag::Italic
    } else if same_text(name, "code") {
        Tag::Code
    } else if same_text(name, "pre") {
        Tag::Pre
    } else if same_text(name, "h1") {
        Tag::Heading(1)
    } else if same_text(name, "h2") {
        Tag::Heading(2)
    } else if same_text(name, "h3") {
        Tag::Heading(3)
    } else if same_text(name, "h4") {
        Tag::Heading(4)
    } else if same_text(name, "h5") {
        Tag::Heading(5)
    } else if same_text(name, "h6") {
        Tag::Heading(6)
    } else if same_text(name, "a") {
        Tag::Anchor
    } else if same_text(name, "li") {
        Tag::ListItem
    } else if same_text(name, "ul") {
        Tag::List(false)
    } else if same_text(name, "ol") {
        Tag::List(true)
    } else {
        Tag::Other
    }
}

/// The piece that an anchor is read as, from the text that it shows, its
/// `href` and the style of what it holds.
pub fn anchor(shown: &str, href: Option<&str>, inner: Style) -> (res: Option<StyleModifier>)
    ensures
        res is Some <==> shown@ != "Run"@,
        match res {
            Some(m) => anchor_piece(
                shown@,
                match href {
                    Some(h) => any_link(h@),
                    None => None,
                },
                inner@,
            ) == Some(m@),
            None => true,
        },
{
    if same_text(shown, "Run") {
        return None;
    }
    let link = match href {
        Some(href) => Link::parse(href),
        None => None,
    };
    match link {
        Some(link) => Some(StyleModifier::Link(inner, link)),
        None => Some(StyleModifier::Other(inner)),
    }
}

impl Style {
    /// Returns an empty style.
    pub fn new() -> (style: Style)
        ensures
            style@ == Seq::<Piece>::empty(),
    {
        let style = Style(Vec::new());
        assert(style@ =~= Seq::<Piece>::empty());
        style
    }

    /// Parse an HTML element into style: the style of what the element
    /// holds.
    ///
    /// ***NOTE:*** Removes all extraneous details.
    pub fn parse(s: ElementRef<'_>) -> (res: Option<Style>)
        ensures
            res is Some,
            res->0@ == style_of_nodes(element_model(s).children, 0),
            well_formed(res->0@),
        decreases element_model(s), 0int,
    {
        proof {
            crate::parse::style_laws::lemma_built_style_is_well_formed(element_model(s));
        }
        let kids = children(s);
        let ghost nodes = element_model(s).children;
        let mut style: Vec<StyleModifier> = Vec::new();
        let mut i: usize = 0;
        assert(pieces(style@) + style_of_nodes(nodes, 0) =~= style_of_nodes(nodes, 0));
        while i < kids.len()
            invariant
                i <= kids.len(),
                nodes == element_model(s).children,
                kids@.len() == nodes.len(),
                forall|k: int| 0 <= k < kids@.len() ==> (#[trigger] kids@[k]).markup() == nodes[k],
                pieces(style@) + style_of_nodes(nodes, i as int) == style_of_nodes(nodes, 0),
            decreases kids.len() - i,
        {
            let ghost before = pieces(style@);
            let ghost rest = style_of_nodes(nodes, i + 1);
            assert(kids@[i as int].markup() == nodes[i as int]);
            assert(style_of_nodes(nodes, i as int) == pieces_of_node(nodes[i as int]) + rest);
            match &kids[i] {
                Child::Element(e) => {
                    assert(nodes[i as int] == Markup::Element(element_model(*e)));
                    proof {
                        lemma_child_is_smaller(element_model(s), i as int);
                    }
                    match StyleModifier::parse(*e) {
                        Some(m) => {
                            style.push(m);
                            assert(pieces(style@) =~= before.push(m@));
                            assert(before.push(m@) + rest =~= before + (seq![m@] + rest));
                        },
                        None => {
                            assert(before + rest =~= before + (Seq::<Piece>::empty() + rest));
                        },
                    }
                },
                Child::Text(t) => {
                    let m = StyleModifier::Normal(t.clone());
                    style.push(m);
                    assert(pieces(style@) =~= before.push(Piece::Normal(t@)));
                    assert(before.push(Piece::Normal(t@)) + rest =~= before + (seq![
                        Piece::Normal(t@),
                    ] + rest));
                },
                Child::Other => {
                    assert(before + rest =~= before + (Seq::<Piece>::empty() + rest));
                },
            }
            i += 1;
        }
        let style = Style(style);
        assert(style@ =~= pieces(style.0@));
        assert(pieces(style.0@) + Seq::<Piece>::empty() =~= pieces(style.0@));
        Some(style)
    }
}

impl StyleModifier {
    /// The items of the list that the element `s` is.
    fn parse_items(s: ElementRef<'_>) -> (items: Vec<Style>)
        ensures
            styles(items@) == items_of(element_model(s).children, 0),
        decreases element_model(s), 0int,
    {
        let kids = children(s);
        let ghost nodes = element_model(s).children;
        let mut items: Vec<Style> = Vec::new();
        let mut i: usize = 0;
        assert(styles(items@) + items_of(nodes, 0) =~= items_of(nodes, 0));
        while i < kids.len()
            invariant
                i <= kids.len(),
                nodes == element_model(s).children,
                kids@.len() == nodes.len(),
                forall|k: int| 0 <= k < kids@.len() ==> (#[trigger] kids@[k]).markup() == nodes[k],
                styles(items@) + items_of(nodes, i as int) == items_of(nodes, 0),
            decreases kids.len() - i,
        {
            let ghost before = styles(items@);
            let ghost rest = items_of(nodes, i + 1);
            let ghost none = Seq::<Seq<Piece>>::empty();
            assert(kids@[i as int].markup() == nodes[i as int]);
            assert(items_of(nodes, i as int) == item_of(nodes[i as int]) + rest);
            match &kids[i] {
                Child::Element(e) => {
                    assert(nodes[i as int] == Markup::Element(element_model(*e)));
                    proof {
                        lemma_child_is_smaller(element_model(s), i as int);
                    }
                    let item = Style::parse(*e).unwrap();
                    if keeps_item(&item) {
                        let ghost held = item@;
                        items.push(item);
                        assert(styles(items@) =~= before.push(held));
                        assert(before.push(held) + rest =~= before + (seq![held] + rest));
                    } else {
                        assert(before + rest =~= before + (none + rest));
                    }
                },
                Child::Text(t) => {
                    if is_line_feed(t.as_str()) {
                        assert(before + rest =~= before + (none + rest));
                    } else {
                        let mut one: Vec<StyleModifier> = Vec::new();
                        one.push(StyleModifier::Normal(t.clone()));
                        let item = Style(one);
                        let ghost held = item@;
                        assert(held =~= seq![Piece::Normal(t@)]);
                        items.push(item);
                        assert(styles(items@) =~= before.push(held));
                        assert(before.push(held) + rest =~= before + (seq![held] + rest));
                    }
                },
                Child::Other => {
                    assert(before + rest =~= before + (none + rest));
                },
            }
            i += 1;
        }
        assert(styles(items@) + Seq::<Seq<Piece>>::empty() =~= styles(items@));
        items
    }

    /// Parse an HTML element into the piece of style that its tag stands
    /// for. An anchor whose text is `Run` gives none.
    pub fn parse(s: ElementRef<'_>) -> (res: Option<StyleModifier>)
        ensures
            res is Some <==> piece_of(element_model(s)) is Some,
            res matches Some(m) ==> piece_of(element_model(s)) == Some(m@) && well_formed_piece(
                m@,
            ),
        decreases element_model(s), 1int,
    {
        proof {
            crate::parse::style_laws::lemma_built_style_is_well_formed(element_model(s));
        }
        let name = tag(s);
        match tag_kind(name.as_str()) {
            Tag::Bold => Some(StyleModifier::Bold(Style::parse(s).unwrap())),
            Tag::Italic => Some(StyleModifier::Italic(Style::parse(s).unwrap())),
            Tag::Code => Some(StyleModifier::Code(text(s))),
            Tag::Pre => Some(StyleModifier::Pre(text(s))),
            Tag::Heading(level) => Some(StyleModifier::Heading(Style::parse(s).unwrap(), level)),
            Tag::Anchor => {
                let shown = text(s);
                let inner = Style::parse(s).unwrap();
                match attr(s, "href") {
                    Some(href) => anchor(shown.as_str(), Some(href.as_str()), inner),
                    None => anchor(shown.as_str(), None, inner),
                }
            },
            Tag::ListItem => Some(StyleModifier::ListItem(Style::parse(s).unwrap())),
            Tag::List(ordered) => {
                let items = Self::parse_items(s);
                let ghost held = styles(items@);
                let list = StyleModifier::List(items, ordered);
                assert(list@ == Piece::List(held, ordered));
                Some(list)
            },
            Tag::Other => Some(StyleModifier::Other(Style::parse(s).unwrap())),
        }
    }
}

/// The lines after the first are indented as they are on their own.
proof fn lemma_indented_shift(first: Seq<char>, rest: Seq<Seq<char>>, from: int)
    requires
        0 <= from,
    ensures
        indented(seq![first] + rest, from + 1) == indented(rest, from),
    decreases rest.len() - from,
{
    let all = seq![first] + rest;
    if from < rest.len() {
        assert(all[from + 1] == rest[from]);
        lemma_indented_shift(first, rest, from + 1);
    }
}

/// A first line is indented before the lines that follow it.
pub(crate) proof fn lemma_indented_first(first: Seq<char>, rest: Seq<Seq<char>>)
    ensures
        indented(seq![first] + rest, 0) == seq!['\t'] + first + seq!['\n'] + indented(rest, 0),
{
    let all = seq![first] + rest;
    assert(all[0] == first);
    lemma_indented_shift(first, rest, 0);
}

/// The lines of a text, each after a tab and before a line feed.
fn indent(t: &str) -> (out: String)
    ensures
        out@ == indented(lines_after(t@, 0, Seq::empty()), 0),
{
    let v = chars_of(t);
    let mut out = String::new();
    let mut cur: Vec<char> = Vec::new();
    let mut i: usize = 0;
    assert(out@ + indented(lines_after(v@, 0, cur@), 0) =~= indented(lines_after(v@, 0, cur@), 0));
    while i < v.len()
        invariant
            i <= v.len(),
            v@ == t@,
            out@ + indented(lines_after(v@, i as int, cur@), 0) == indented(
                lines_after(v@, 0, Seq::empty()),
                0,
            ),
        decreases v.len() - i,
    {
        let c = v[i];
        if c == '\n' {
            let ghost before = out@;
            let ghost rest = lines_after(v@, i + 1, Seq::empty());
            let n = cur.len();
            let end = if n > 0 && cur[n - 1] == '\r' {
                n - 1
            } else {
                n
            };
            assert(cur@.subrange(0, end as int) =~= without_return(cur@));
            out.push('\t');
            let mut k: usize = 0;
            while k < end
                invariant
                    k <= end <= cur.len(),
                    out@ == before.push('\t') + cur@.subrange(0, k as int),
                decreases end - k,
            {
                out.push(cur[k]);
                assert(cur@.subrange(0, k as int).push(cur@[k as int]) =~= cur@.subrange(
                    0,
                    k + 1,
                ));
                assert(out@ =~= before.push('\t') + cur@.subrange(0, k + 1));
                k += 1;
            }
            out.push('\n');
            proof {
                lemma_indented_first(without_return(cur@), rest);
                assert(out@ + indented(rest, 0) =~= before + (seq!['\t'] + without_return(cur@)
                    + seq!['\n'] + indented(rest, 0)));
            }
            cur = Vec::new();
        } else {
            cur.push(c);
        }
        i += 1;
    }
    if cur.len() > 0 {
        let ghost before = out@;
        out.push('\t');
        let mut k: usize = 0;
        while k < cur.len()
            invariant
                k <= cur.len(),
                out@ == before.push('\t') + cur@.subrange(0, k as int),
            decreases cur.len() - k,
        {
            out.push(cur[k]);
            assert(cur@.subrange(0, k as int).push(cur@[k as int]) =~= cur@.subrange(0, k + 1));
            assert(out@ =~= before.push('\t') + cur@.subrange(0, k + 1));
            k += 1;
        }
        out.push('\n');
        proof {
            let none = Seq::<Seq<char>>::empty();
            lemma_indented_first(cur@, none);
            assert(seq![cur@] + none =~= seq![cur@]);
            assert(cur@.subrange(0, cur@.len() as int) =~= cur@);
            assert(out@ =~= before + (seq!['\t'] + cur@ + seq!['\n'] + indented(none, 0)));
        }
    } else {
        assert(out@ + Seq::<char>::empty() =~= out@);
    }
    out
}

/// Appends to `out` what stands before the item at `index` of a list.
fn push_bullet(out: &mut String, ordered: bool, index: usize)
    requires
        index < usize::MAX,
    ensures
        final(out)@ == old(out)@ + bullet(ordered, index as int),
{
    if ordered {
        push_decimal(out, index + 1);
        out.push('.');
        out.push(' ');
        assert(out@ =~= old(out)@ + bullet(ordered, index as int));
    } else {
        out.push(' ');
        out.push('-');
        out.push(' ');
        assert(out@ =~= old(out)@ + bullet(ordered, index as int));
    }
}

impl Style {
    /// Return the plain text without formatting.
    pub fn normal(&self) -> (out: String)
        ensures
            out@ == plain(self@, 0),
        decreases self, 0int,
    {
        let mut out = String::new();
        let mut i: usize = 0;
        assert(out@ + plain(self@, 0) =~= plain(self@, 0));
        while i < self.0.len()
            invariant
                i <= self.0.len(),
                out@ + plain(self@, i as int) == plain(self@, 0),
            decreases self.0.len() - i,
        {
            let ghost before = out@;
            assert(self@[i as int] == self.0@[i as int]@);
            proof {
                assert(decreases_to!(self => self.0));
                assert(decreases_to!(self.0 => self.0@));
                assert(decreases_to!(self.0@ => self.0@[i as int]));
            }
            let piece = self.0[i].normal();
            push_str(&mut out, piece.as_str());
            assert(out@ + plain(self@, i + 1) =~= before + (plain_piece(self@[i as int]) + plain(
                self@,
                i + 1,
            )));
            i += 1;
        }
        assert(out@ + Seq::<char>::empty() =~= out@);
        out
    }
}

impl StyleModifier {
    /// Return the plain text without formatting.
    pub fn normal(&self) -> (out: String)
        ensures
            out@ == plain_piece(self@),
        decreases self, 1int,
    {
        match self {
            StyleModifier::Normal(s) => s.clone(),
            StyleModifier::Code(s) => s.clone(),
            StyleModifier::Heading(s, _) => s.normal(),
            StyleModifier::Bold(s) => s.normal(),
            StyleModifier::Italic(s) => s.normal(),
            StyleModifier::ListItem(s) => s.normal(),
            StyleModifier::Other(s) => s.normal(),
            StyleModifier::Link(s, _) => s.normal(),
            StyleModifier::Pre(s) => indent(s.as_str()),
            StyleModifier::List(items, ordered) => {
                let ghost held = styles(items@);
                let mut out = String::new();
                let mut i: usize = 0;
                assert(out@ + plain_items(held, *ordered, 0) =~= plain_items(held, *ordered, 0));
                while i < items.len()
                    invariant
                        i <= items.len(),
                        held == styles(items@),
                        self == StyleModifier::List(*items, *ordered),
                        out@ + plain_items(held, *ordered, i as int) == plain_items(
                            held,
                            *ordered,
                            0,
                        ),
                    decreases items.len() - i,
                {
                    let ghost before = out@;
                    assert(held[i as int] == items@[i as int]@);
                    proof {
                        assert(self->List_0 == *items);
                        assert(decreases_to!(self => self->List_0));
                        assert(decreases_to!(self->List_0 => self->List_0@));
                        assert(decreases_to!(self->List_0@ => self->List_0@[i as int]));
                    }
                    push_bullet(&mut out, *ordered, i);
                    let item = items[i].normal();
                    push_str(&mut out, item.as_str());
                    out.push('\n');
                    assert(out@ + plain_items(held, *ordered, i + 1) =~= before + (bullet(
                        *ordered,
                        i as int,
                    ) + plain(held[i as int], 0) + seq!['\n'] + plain_items(
                        held,
                        *ordered,
                        i + 1,
                    )));
                    i += 1;
                }
                assert(out@ + Seq::<char>::empty() =~= out@);
                out
            },
        }
    }
}

impl Clone for Style {
    /// A copy that holds what the style holds.
    fn clone(&self) -> (copy: Self)
        ensures
            copy@ == self@,
        decreases self, 0int,
    {
        let mut v: Vec<StyleModifier> = Vec::new();
        let mut i: usize = 0;
        while i < self.0.len()
            invariant
                i <= self.0.len(),
                v@.len() == i,
                forall|k: int| 0 <= k < i ==> (#[trigger] v@[k])@ == self.0@[k]@,
            decreases self.0.len() - i,
        {
            proof {
                assert(decreases_to!(self => self.0));
                assert(decreases_to!(self.0 => self.0@));
                assert(decreases_to!(self.0@ => self.0@[i as int]));
            }
            v.push(self.0[i].clone());
            i += 1;
        }
        let copy = Style(v);
        assert(copy@ =~= self@);
        copy
    }
}

impl Clone for StyleModifier {
    /// A copy that holds what the piece holds.
    fn clone(&self) -> (copy: Self)
        ensures
            copy@ == self@,
        decreases self, 1int,
    {
        match self {
            StyleModifier::Normal(s) => StyleModifier::Normal(s.clone()),
            StyleModifier::Code(s) => StyleModifier::Code(s.clone()),
            StyleModifier::Pre(s) => StyleModifier::Pre(s.clone()),
            StyleModifier::Heading(s, level) => StyleModifier::Heading(s.clone(), *level),
            StyleModifier::Bold(s) => StyleModifier::Bold(s.clone()),
            StyleModifier::Italic(s) => StyleModifier::Italic(s.clone()),
            StyleModifier::ListItem(s) => StyleModifier::ListItem(s.clone()),
            StyleModifier::Other(s) => StyleModifier::Other(s.clone()),
            StyleModifier::Link(s, link) => StyleModifier::Link(s.clone(), link.clone()),
            StyleModifier::List(items, ordered) => {
                let mut v: Vec<Style> = Vec::new();
                let mut i: usize = 0;
                while i < items.len()
                    invariant
                        i <= items.len(),
                        v@.len() == i,
                        self == StyleModifier::List(*items, *ordered),
                        forall|k: int| 0 <= k < i ==> (#[trigger] v@[k])@ == items@[k]@,
                    decreases items.len() - i,
                {
                    proof {
                        assert(self->List_0 == *items);
                        assert(decreases_to!(self => self->List_0));
                        assert(decreases_to!(self->List_0 => self->List_0@));
                        assert(decreases_to!(self->List_0@ => self->List_0@[i as int]));
                    }
                    v.push(items[i].clone());
                    i += 1;
                }
                assert(styles(v@) =~= styles(items@));
                StyleModifier::List(v, *ordered)
            },
        }
    }
}

} // verus!
