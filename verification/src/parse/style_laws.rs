//! The plain text of a style that was built from an element holds the text
//! of the element and nothing else of it.

use crate::dom::{text_of, text_of_node, text_of_nodes, ElementModel, Markup};
use crate::parse::style::{
    bullet,
    indented,
    item_of,
    items_of,
    lemma_indented_first,
    lines_after,
    piece_of,
    pieces_of_node,
    plain,
    plain_items,
    plain_piece,
    style_of_nodes,
    well_formed,
    well_formed_piece,
    without_return,
    Piece,
};
use crate::text::{decimal, digit};
use vstd::prelude::*;

verus! {

/// Whether a character is one of the marks that the plain text is laid out
/// with: the tab and the line feed of preformatted lines and of list items,
/// and the space, dash, dot and digits that stand before a list item.
pub open spec fn is_mark(c: char) -> bool {
    c == '\t' || c == '\n' || c == ' ' || c == '-' || c == '.' || ('0' <= c <= '9')
}

/// Whether every character of `out` is a mark or a character of `source`.
pub open spec fn drawn_from(out: Seq<char>, source: Seq<char>) -> bool {
    forall|i: int| 0 <= i < out.len() ==> is_mark(#[trigger] out[i]) || source.contains(out[i])
}

/// A text after a text is drawn from the sources of both, one after the
/// other.
proof fn lemma_drawn_concat(a: Seq<char>, b: Seq<char>, s: Seq<char>, t: Seq<char>)
    requires
        drawn_from(a, s),
        drawn_from(b, t),
    ensures
        drawn_from(a + b, s + t),
{
    assert forall|i: int| 0 <= i < (a + b).len() implies is_mark(#[trigger] (a + b)[i]) || (s
        + t).contains((a + b)[i]) by {
        let c = (a + b)[i];
        if i < a.len() {
            assert(c == a[i]);
            if !is_mark(c) {
                let k = choose|k: int| 0 <= k < s.len() && s[k] == c;
                assert((s + t)[k] == c);
            }
        } else {
            assert(c == b[i - a.len()]);
            if !is_mark(c) {
                let k = choose|k: int| 0 <= k < t.len() && t[k] == c;
                assert((s + t)[s.len() + k] == c);
            }
        }
    }
}

/// A text after a text is drawn from the source of both.
proof fn lemma_drawn_same(a: Seq<char>, b: Seq<char>, s: Seq<char>)
    requires
        drawn_from(a, s),
        drawn_from(b, s),
    ensures
        drawn_from(a + b, s),
{
    assert forall|i: int| 0 <= i < (a + b).len() implies is_mark(#[trigger] (a + b)[i])
        || s.contains((a + b)[i]) by {
        if i < a.len() {
            assert((a + b)[i] == a[i]);
        } else {
            assert((a + b)[i] == b[i - a.len()]);
        }
    }
}

/// What is drawn from a text is drawn from any text that holds it.
proof fn lemma_drawn_wider(a: Seq<char>, before: Seq<char>, s: Seq<char>, after: Seq<char>)
    requires
        drawn_from(a, s),
    ensures
        drawn_from(a, before + s + after),
{
    let wide = before + s + after;
    assert forall|i: int| 0 <= i < a.len() implies is_mark(#[trigger] a[i]) || wide.contains(
        a[i],
    ) by {
        let c = a[i];
        if !is_mark(c) {
            let k = choose|k: int| 0 <= k < s.len() && s[k] == c;
            assert(wide[before.len() + k] == c);
        }
    }
}

/// A text is drawn from itself.
proof fn lemma_drawn_itself(a: Seq<char>)
    ensures
        drawn_from(a, a),
{
}

/// The plain text of pieces after pieces is the plain text of the ones
/// after that of the others.
proof fn lemma_plain_concat(a: Seq<Piece>, b: Seq<Piece>, from: int)
    requires
        0 <= from,
    ensures
        from <= a.len() ==> plain(a + b, from) == plain(a, from) + plain(b, 0),
        from >= a.len() ==> plain(a + b, from) == plain(b, from - a.len()),
    decreases (a + b).len() - from,
{
    let all = a + b;
    if from < all.len() {
        lemma_plain_concat(a, b, from + 1);
        if from < a.len() {
            assert(all[from] == a[from]);
            assert(plain_piece(a[from]) + (plain(a, from + 1) + plain(b, 0)) =~= (plain_piece(
                a[from],
            ) + plain(a, from + 1)) + plain(b, 0));
            if from + 1 == a.len() {
                assert(plain(a, from + 1) + plain(b, 0) =~= plain(b, 0));
            }
        } else {
            assert(all[from] == b[from - a.len()]);
        }
    } else {
        if from <= a.len() {
            assert(plain(a, from) + plain(b, 0) =~= Seq::<char>::empty());
        }
    }
}

/// A number in decimal is written in digits.
proof fn lemma_decimal_marks(n: nat)
    ensures
        forall|i: int| 0 <= i < decimal(n).len() ==> is_mark(#[trigger] decimal(n)[i]),
    decreases n,
{
    let d = decimal(n);
    if n >= 10 {
        let high = decimal(n / 10);
        lemma_decimal_marks(n / 10);
        assert(is_mark(digit(n % 10)));
        assert forall|i: int| 0 <= i < d.len() implies is_mark(#[trigger] d[i]) by {
            if i < high.len() {
                assert(d[i] == high[i]);
            }
        }
    } else {
        assert(is_mark(digit(n)));
        assert forall|i: int| 0 <= i < d.len() implies is_mark(#[trigger] d[i]) by {
            assert(d[i] == digit(n));
        }
    }
}

/// What stands before an item of a list is written in marks.
proof fn lemma_bullet_marks(ordered: bool, index: int, source: Seq<char>)
    requires
        0 <= index,
    ensures
        drawn_from(bullet(ordered, index), source),
{
    lemma_decimal_marks((index + 1) as nat);
    let b = bullet(ordered, index);
    if ordered {
        let d = decimal((index + 1) as nat);
        assert forall|i: int| 0 <= i < b.len() implies is_mark(#[trigger] b[i]) by {
            if i < d.len() {
                assert(b[i] == d[i]);
            }
        }
    }
}

/// The lines of a text hold characters of the text, or of the line that was
/// being read.
proof fn lemma_lines_drawn(t: Seq<char>, from: int, cur: Seq<char>)
    requires
        0 <= from,
        drawn_from(cur, t),
    ensures
        drawn_from(indented(lines_after(t, from, cur), 0), t),
    decreases t.len() - from,
{
    let none = Seq::<Seq<char>>::empty();
    let tab = seq!['\t'];
    let feed = seq!['\n'];
    assert(drawn_from(tab, t));
    assert(drawn_from(feed, t));
    assert(drawn_from(indented(none, 0), t));
    if from >= t.len() {
        if cur.len() > 0 {
            lemma_indented_first(cur, none);
            assert(seq![cur] + none =~= seq![cur]);
            lemma_drawn_same(tab, cur, t);
            lemma_drawn_same(tab + cur, feed, t);
            lemma_drawn_same(tab + cur + feed, indented(none, 0), t);
        }
    } else if t[from] == '\n' {
        let line = without_return(cur);
        let rest = lines_after(t, from + 1, Seq::empty());
        lemma_lines_drawn(t, from + 1, Seq::empty());
        lemma_indented_first(line, rest);
        assert(drawn_from(line, t)) by {
            assert forall|i: int| 0 <= i < line.len() implies is_mark(#[trigger] line[i])
                || t.contains(line[i]) by {
                assert(line[i] == cur[i]);
            }
        }
        lemma_drawn_same(tab, line, t);
        lemma_drawn_same(tab + line, feed, t);
        lemma_drawn_same(tab + line + feed, indented(rest, 0), t);
    } else {
        let next = cur.push(t[from]);
        assert(drawn_from(next, t)) by {
            assert forall|i: int| 0 <= i < next.len() implies is_mark(#[trigger] next[i])
                || t.contains(next[i]) by {
                if i < cur.len() {
                    assert(next[i] == cur[i]);
                } else {
                    assert(t[from] == next[i]);
                }
            }
        }
        lemma_lines_drawn(t, from + 1, next);
    }
}

/// The plain text of a list whose items are drawn from a text is drawn from
/// it.
proof fn lemma_plain_items(items: Seq<Seq<Piece>>, ordered: bool, from: int, source: Seq<char>)
    requires
        0 <= from,
        forall|j: int| 0 <= j < items.len() ==> drawn_from(plain(#[trigger] items[j], 0), source),
    ensures
        drawn_from(plain_items(items, ordered, from), source),
    decreases items.len() - from,
{
    if from < items.len() {
        lemma_plain_items(items, ordered, from + 1, source);
        lemma_bullet_marks(ordered, from, source);
        let feed = seq!['\n'];
        assert(drawn_from(feed, source));
        let b = bullet(ordered, from);
        let p = plain(items[from], 0);
        lemma_drawn_same(b, p, source);
        lemma_drawn_same(b + p, feed, source);
        lemma_drawn_same(b + p + feed, plain_items(items, ordered, from + 1), source);
    }
}

/// The plain text of the style of nodes is drawn from the text of the nodes.
proof fn lemma_nodes_plain(nodes: Seq<Markup>, from: int)
    requires
        0 <= from,
    ensures
        drawn_from(plain(style_of_nodes(nodes, from), 0), text_of_nodes(nodes, from)),
    decreases nodes, nodes.len() - from, 0int,
{
    if from < nodes.len() {
        let first = pieces_of_node(nodes[from]);
        let rest = style_of_nodes(nodes, from + 1);
        lemma_node_plain(nodes, from);
        lemma_nodes_plain(nodes, from + 1);
        lemma_plain_concat(first, rest, 0);
        lemma_plain_concat(first, rest, first.len() as int);
        lemma_drawn_concat(
            plain(first, 0),
            plain(rest, 0),
            text_of_node(nodes[from]),
            text_of_nodes(nodes, from + 1),
        );
    }
}

/// The plain text of the pieces of a node is drawn from the text of the
/// node.
proof fn lemma_node_plain(nodes: Seq<Markup>, at: int)
    requires
        0 <= at < nodes.len(),
    ensures
        drawn_from(plain(pieces_of_node(nodes[at]), 0), text_of_node(nodes[at])),
    decreases nodes, 0int, 1int,
{
    let node = nodes[at];
    let found = pieces_of_node(node);
    match node {
        Markup::Text(t) => {
            assert(plain(found, 0) =~= t) by {
                assert(plain(found, 1) =~= Seq::<char>::empty());
                assert(plain(found, 0) == plain_piece(found[0]) + plain(found, 1));
            }
        },
        Markup::Element(e) => {
            if piece_of(e) is Some {
                assert(decreases_to!(nodes => nodes[at]));
                assert(decreases_to!(nodes[at] => e));
                lemma_piece_plain(e);
                assert(plain(found, 0) =~= plain_piece(piece_of(e)->0)) by {
                    assert(plain(found, 1) =~= Seq::<char>::empty());
                    assert(plain(found, 0) == plain_piece(found[0]) + plain(found, 1));
                }
            }
        },
        Markup::Other => {},
    }
}

/// The plain text of the piece of an element is drawn from the text of the
/// element.
proof fn lemma_piece_plain(e: ElementModel)
    requires
        piece_of(e) is Some,
    ensures
        drawn_from(plain_piece(piece_of(e)->0), text_of(e)),
    decreases e, 0int, 2int,
{
    let piece = piece_of(e)->0;
    assert(decreases_to!(e => e.children));
    match piece {
        Piece::Code(t) => {
            assert(t == text_of(e));
        },
        Piece::Pre(t) => {
            assert(t == text_of(e));
            lemma_lines_drawn(t, 0, Seq::empty());
        },
        Piece::List(items, ordered) => {
            assert(items == items_of(e.children, 0));
            lemma_items_plain(e.children, 0);
            lemma_plain_items(items, ordered, 0, text_of(e));
        },
        Piece::Normal(t) => {},
        Piece::Heading(s, _) => {
            lemma_nodes_plain(e.children, 0);
        },
        Piece::Bold(s) => {
            lemma_nodes_plain(e.children, 0);
        },
        Piece::Italic(s) => {
            lemma_nodes_plain(e.children, 0);
        },
        Piece::Link(s, _) => {
            lemma_nodes_plain(e.children, 0);
        },
        Piece::ListItem(s) => {
            lemma_nodes_plain(e.children, 0);
        },
        Piece::Other(s) => {
            lemma_nodes_plain(e.children, 0);
        },
    }
}

/// The plain text of each item of a list is drawn from the text of the
/// list's children.
proof fn lemma_items_plain(nodes: Seq<Markup>, from: int)
    requires
        0 <= from,
    ensures
        forall|j: int|
            0 <= j < items_of(nodes, from).len() ==> drawn_from(
                plain(#[trigger] items_of(nodes, from)[j], 0),
                text_of_nodes(nodes, from),
            ),
    decreases nodes, nodes.len() - from, 0int,
{
    if from < nodes.len() {
        let node = nodes[from];
        let first = item_of(node);
        let rest = items_of(nodes, from + 1);
        let here = text_of_node(node);
        let later = text_of_nodes(nodes, from + 1);
        let none = Seq::<char>::empty();
        lemma_items_plain(nodes, from + 1);
        assert forall|j: int| 0 <= j < (first + rest).len() implies drawn_from(
            plain(#[trigger] (first + rest)[j], 0),
            here + later,
        ) by {
            if j < first.len() {
                let item = first[0];
                assert((first + rest)[j] == item);
                match node {
                    Markup::Text(t) => {
                        assert(plain(item, 0) =~= t) by {
                            assert(plain(item, 1) =~= Seq::<char>::empty());
                            assert(plain(item, 0) == plain_piece(item[0]) + plain(item, 1));
                        }
                        lemma_drawn_itself(t);
                    },
                    Markup::Element(c) => {
                        assert(decreases_to!(nodes => nodes[from]));
                        assert(decreases_to!(nodes[from] => c));
                        assert(decreases_to!(c => c.children));
                        lemma_nodes_plain(c.children, 0);
                    },
                    Markup::Other => {},
                }
                lemma_drawn_wider(plain(item, 0), none, here, later);
                assert(none + here + later =~= here + later);
            } else {
                let item = rest[j - first.len()];
                assert((first + rest)[j] == item);
                lemma_drawn_wider(plain(item, 0), here, later, none);
                assert(here + later + none =~= here + later);
            }
        }
    }
}

/// Every character of the plain text of the style that an element is read
/// as is a character of the element's text, or one of the marks that lists
/// and preformatted lines are laid out with: nothing of the tags and the
/// attributes of the page comes through.
pub proof fn lemma_plain_text_is_text(e: ElementModel)
    ensures
        drawn_from(plain(style_of_nodes(e.children, 0), 0), text_of(e)),
{
    lemma_nodes_plain(e.children, 0);
}

/// The style of nodes is well formed.
proof fn lemma_nodes_well_formed(nodes: Seq<Markup>, from: int)
    requires
        0 <= from,
    ensures
        well_formed(style_of_nodes(nodes, from)),
    decreases nodes, nodes.len() - from, 0int,
{
    if from < nodes.len() {
        let first = pieces_of_node(nodes[from]);
        let rest = style_of_nodes(nodes, from + 1);
        lemma_nodes_well_formed(nodes, from + 1);
        match nodes[from] {
            Markup::Element(e) => {
                assert(decreases_to!(nodes => nodes[from]));
                assert(decreases_to!(nodes[from] => e));
                lemma_piece_well_formed(e);
            },
            _ => {},
        }
        assert forall|i: int| 0 <= i < (first + rest).len() implies well_formed_piece(
            #[trigger] (first + rest)[i],
        ) by {
            if i < first.len() {
                assert((first + rest)[i] == first[i]);
            } else {
                assert((first + rest)[i] == rest[i - first.len()]);
            }
        }
    }
}

/// The piece of an element is well formed.
proof fn lemma_piece_well_formed(e: ElementModel)
    ensures
        piece_of(e) matches Some(piece) ==> well_formed_piece(piece),
    decreases e, 0int, 2int,
{
    assert(decreases_to!(e => e.children));
    lemma_nodes_well_formed(e.children, 0);
    let inner = style_of_nodes(e.children, 0);
    match piece_of(e) {
        Some(Piece::List(items, _)) => {
            lemma_items_well_formed(e.children, 0);
            assert forall|i: int, j: int|
                0 <= i < items.len() && 0 <= j < items[i].len() implies well_formed_piece(
                #[trigger] items[i][j],
            ) by {
                assert(items == items_of(e.children, 0));
                assert(well_formed(items_of(e.children, 0)[i]));
            }
        },
        Some(Piece::Link(s, link)) => {
            crate::link_laws::lemma_read_link_is_well_formed(e.attrs["href"@]);
            assert(s == inner);
        },
        Some(Piece::Heading(s, level)) => {
            assert(s == inner);
        },
        Some(Piece::Bold(s)) => {
            assert(s == inner);
        },
        Some(Piece::Italic(s)) => {
            assert(s == inner);
        },
        Some(Piece::ListItem(s)) => {
            assert(s == inner);
        },
        Some(Piece::Other(s)) => {
            assert(s == inner);
        },
        _ => {},
    }
}

/// The items of a list are well formed.
proof fn lemma_items_well_formed(nodes: Seq<Markup>, from: int)
    requires
        0 <= from,
    ensures
        forall|i: int|
            0 <= i < items_of(nodes, from).len() ==> well_formed(
                #[trigger] items_of(nodes, from)[i],
            ),
    decreases nodes, nodes.len() - from, 0int,
{
    if from < nodes.len() {
        let first = item_of(nodes[from]);
        let rest = items_of(nodes, from + 1);
        lemma_items_well_formed(nodes, from + 1);
        match nodes[from] {
            Markup::Element(c) => {
                assert(decreases_to!(nodes => nodes[from]));
                assert(decreases_to!(nodes[from] => c));
                assert(decreases_to!(c => c.children));
                lemma_nodes_well_formed(c.children, 0);
            },
            _ => {},
        }
        assert forall|i: int| 0 <= i < (first + rest).len() implies well_formed(
            #[trigger] (first + rest)[i],
        ) by {
            if i < first.len() {
                assert((first + rest)[i] == first[i]);
            } else {
                assert((first + rest)[i] == rest[i - first.len()]);
            }
        }
    }
}

/// The style that an element is read as is well formed: its headings have
/// levels from 1 to 6, and its links are links that reading a text can
/// give.
pub proof fn lemma_built_style_is_well_formed(e: ElementModel)
    ensures
        well_formed(style_of_nodes(e.children, 0)),
        piece_of(e) matches Some(piece) ==> well_formed_piece(piece),
{
    lemma_nodes_well_formed(e.children, 0);
    lemma_piece_well_formed(e);
}

} // verus!
