//! Reading a link back from the text that it was written as.

use crate::item::ModuleItemKind;
use crate::item_laws::{
    lemma_html_names_no_kind,
    lemma_module_keyword_letters,
    lemma_module_keyword_round_trip,
};
use crate::link::{
    any_link,
    anchor_link,
    components,
    file_link,
    file_name,
    free_of,
    is_segment,
    joined,
    kept,
    parent_marker,
    path_link,
    root_marker,
    rustdoc_form,
    segments,
    segments_after,
    url_link,
    well_formed,
    LinkModel,
};
use crate::text::{find_from, lemma_find_from, lemma_find_from_unique};
use vstd::prelude::*;

verus! {

/// Whether the text that a link is written as is read back as that link.
/// A link to a file needs a parent, since its text has a slash before the
/// file's name; the first parent must not begin with `#`, the mark of an
/// anchor; and where the link has no kind, the name must be `html`, since
/// the text then has one dot and what follows it is read as the name.
pub open spec fn reads_back(l: LinkModel) -> bool {
    match l {
        LinkModel::File { parents, kind, name } => {
            &&& parents.len() > 0
            &&& parents[0][0] != '#'
            &&& (kind is None ==> name == "html"@)
        },
        _ => true,
    }
}

/// While a segment is being read and no slash follows, the rest of the
/// path is the rest of that segment.
proof fn lemma_segments_run(s: Seq<char>, from: int, to: int, cur: Seq<char>)
    requires
        0 <= from <= to <= s.len(),
        forall|i: int| from <= i < to ==> #[trigger] s[i] != '/',
    ensures
        segments_after(s, from, cur) == segments_after(s, to, cur + s.subrange(from, to)),
    decreases to - from,
{
    if from < to {
        lemma_segments_run(s, from + 1, to, cur.push(s[from]));
        assert(cur.push(s[from]) + s.subrange(from + 1, to) =~= cur + s.subrange(from, to));
    } else {
        assert(cur + s.subrange(from, to) =~= cur);
    }
}

/// The segments of a path from `k` on are the segments of what is left
/// when its first `k` characters are taken away.
proof fn lemma_segments_skip(s: Seq<char>, k: int, from: int, cur: Seq<char>)
    requires
        0 <= k,
        0 <= from,
        k + from <= s.len(),
    ensures
        segments_after(s, k + from, cur) == segments_after(s.skip(k), from, cur),
    decreases s.len() - k - from,
{
    if k + from < s.len() {
        assert(s.skip(k)[from] == s[k + from]);
        if s[k + from] == '/' {
            lemma_segments_skip(s, k, from + 1, Seq::empty());
        } else {
            lemma_segments_skip(s, k, from + 1, cur.push(s[k + from]));
        }
    }
}

/// The segments of a text without a slash: the text itself, if it is one.
proof fn lemma_segments_single(a: Seq<char>)
    requires
        free_of(a, '/'),
    ensures
        segments(a) == kept(a),
{
    lemma_segments_run(a, 0, a.len() as int, Seq::empty());
    assert(Seq::<char>::empty() + a.subrange(0, a.len() as int) =~= a);
}

/// The segments of a text up to its first slash and of what follows it.
proof fn lemma_segments_cons(a: Seq<char>, b: Seq<char>)
    requires
        free_of(a, '/'),
    ensures
        segments(a + seq!['/'] + b) == kept(a) + segments(b),
{
    let s = a + seq!['/'] + b;
    let n = a.len() as int;
    assert forall|i: int| 0 <= i < n implies #[trigger] s[i] != '/' by {
        assert(s[i] == a[i]);
    }
    lemma_segments_run(s, 0, n, Seq::empty());
    assert(Seq::<char>::empty() + s.subrange(0, n) =~= a);
    assert(s[n] == '/');
    lemma_segments_skip(s, n + 1, 0, Seq::empty());
    assert(s.skip(n + 1) =~= b);
}

/// A segment is kept as it is.
proof fn lemma_kept_segment(p: Seq<char>)
    requires
        is_segment(p),
    ensures
        kept(p) == seq![p],
{
}

/// The segments of segments that were joined by slashes, with the name of a
/// file after one more slash.
proof fn lemma_segments_joined(parents: Seq<Seq<char>>, from: int, file: Seq<char>)
    requires
        0 <= from < parents.len(),
        forall|i: int| from <= i < parents.len() ==> is_segment(#[trigger] parents[i]),
        is_segment(file),
    ensures
        segments(joined(parents, from) + seq!['/'] + file) == parents.skip(from) + seq![file],
    decreases parents.len() - from,
{
    let p = parents[from];
    lemma_kept_segment(p);
    lemma_kept_segment(file);
    if from == parents.len() - 1 {
        lemma_segments_cons(p, file);
        lemma_segments_single(file);
        assert(parents.skip(from) + seq![file] =~= seq![p] + seq![file]);
    } else {
        let rest = joined(parents, from + 1) + seq!['/'] + file;
        lemma_segments_joined(parents, from + 1, file);
        lemma_segments_cons(p, rest);
        assert(joined(parents, from) + seq!['/'] + file =~= p + seq!['/'] + rest);
        assert(parents.skip(from) + seq![file] =~= seq![p] + (parents.skip(from + 1) + seq![
            file,
        ]));
    }
}

/// The components of the text of a link to a file: the parents, then the
/// name of the file.
proof fn lemma_components_joined(parents: Seq<Seq<char>>, file: Seq<char>)
    requires
        parents.len() > 0,
        forall|i: int|
            0 <= i < parents.len() ==> is_segment(#[trigger] parents[i]) || (i == 0 && parents[i]
                == root_marker()),
        is_segment(file),
    ensures
        components(joined(parents, 0) + seq!['/'] + file) == parents + seq![file],
{
    let s = joined(parents, 0) + seq!['/'] + file;
    if is_segment(parents[0]) {
        lemma_segments_joined(parents, 0, file);
        assert(parents.skip(0) =~= parents);
        assert(s[0] == parents[0][0]);
    } else {
        let root = root_marker();
        assert(parents[0] == root);
        assert(root.len() == 1 && root[0] == '/');
        let empty = Seq::<char>::empty();
        lemma_kept_segment(file);
        if parents.len() == 1 {
            assert(s =~= empty + seq!['/'] + (empty + seq!['/'] + file));
            lemma_segments_cons(empty, empty + seq!['/'] + file);
            lemma_segments_cons(empty, file);
            lemma_segments_single(file);
            assert(seq![root] + (kept(empty) + (kept(empty) + seq![file])) =~= parents + seq![
                file,
            ]);
        } else {
            let rest = joined(parents, 1) + seq!['/'] + file;
            assert(s =~= empty + seq!['/'] + (empty + seq!['/'] + rest));
            lemma_segments_cons(empty, empty + seq!['/'] + rest);
            lemma_segments_cons(empty, rest);
            lemma_segments_joined(parents, 1, file);
            assert(seq![root] + (kept(empty) + (kept(empty) + (parents.skip(1) + seq![file])))
                =~= parents + seq![file]);
        }
        assert(s[0] == '/');
    }
}

/// The name of the file of a link is a segment, no marker, and is read back
/// as the link's kind and name.
proof fn lemma_file_name(parents: Seq<Seq<char>>, kind: Option<ModuleItemKind>, name: Seq<char>)
    requires
        free_of(name, '.'),
        free_of(name, '/'),
        kind is None ==> name == "html"@,
    ensures
        is_segment(file_name(kind, name)),
        file_name(kind, name) != root_marker(),
        file_name(kind, name) != parent_marker(),
        file_name(kind, name)[0] != '/',
        file_link(parents, file_name(kind, name)) == Some(
            LinkModel::File { parents, kind, name },
        ),
{
    reveal_strlit(".html");
    reveal_strlit("html");
    let f = file_name(kind, name);
    let tail = ".html"@;
    assert(tail[0] == '.' && tail[1] == 'h' && tail[2] == 't' && tail[3] == 'm' && tail[4] == 'l');
    assert(root_marker().len() == 1);
    assert(parent_marker().len() == 2);
    assert(seq!['.'].len() == 1);
    match kind {
        Some(k) => {
            let kw = k.keyword();
            lemma_module_keyword_letters(k);
            lemma_module_keyword_round_trip(k);
            let dot = kw.len() as int;
            let end = dot + 1 + name.len();
            assert(f.len() == end + 5);
            assert forall|i: int| 0 <= i < f.len() implies #[trigger] f[i] != '/' by {
                if i < dot {
                    assert(f[i] == kw[i]);
                } else if i == dot {
                } else if i < end {
                    assert(f[i] == name[i - dot - 1]);
                } else {
                    assert(f[i] == tail[i - end]);
                }
            }
            assert forall|i: int| 0 <= i < dot implies #[trigger] f[i] != '.' by {
                assert(f[i] == kw[i]);
            }
            assert(f[dot] == '.');
            lemma_find_from_unique(f, '.', 0, dot);
            assert forall|i: int| dot + 1 <= i < end implies #[trigger] f[i] != '.' by {
                assert(f[i] == name[i - dot - 1]);
            }
            assert(f[end] == tail[0]);
            lemma_find_from_unique(f, '.', dot + 1, end);
            assert(f.take(dot) =~= kw);
            assert(f.subrange(dot + 1, end) =~= name);
            assert(f[0] == kw[0]);
        },
        None => {
            lemma_html_names_no_kind();
            let h = "html"@;
            assert(h[0] == 'h' && h[1] == 't' && h[2] == 'm' && h[3] == 'l');
            assert(f.len() == 9);
            assert forall|i: int| 0 <= i < f.len() implies #[trigger] f[i] != '/' by {
                if i < 4 {
                    assert(f[i] == h[i]);
                } else {
                    assert(f[i] == tail[i - 4]);
                }
            }
            assert forall|i: int| 0 <= i < 4 implies #[trigger] f[i] != '.' by {
                assert(f[i] == h[i]);
            }
            assert(f[4] == tail[0]);
            lemma_find_from_unique(f, '.', 0, 4);
            assert forall|i: int| 5 <= i < 9 implies #[trigger] f[i] != '.' by {
                assert(f[i] == tail[i - 4]);
            }
            lemma_find_from_unique(f, '.', 5, 9);
            assert(f.take(4) =~= h);
            assert(f.subrange(5, 9) =~= h);
            assert(f[0] == h[0]);
        },
    }
}

/// The text of a link to a file does not begin with `https://`: a slash
/// follows each parent, and neither a segment nor the name of the file
/// begins with a second one.
proof fn lemma_file_is_no_url(parents: Seq<Seq<char>>, file: Seq<char>)
    requires
        parents.len() > 0,
        forall|i: int|
            0 <= i < parents.len() ==> is_segment(#[trigger] parents[i]) || (i == 0 && parents[i]
                == root_marker()),
        file.len() > 0,
        file[0] != '/',
    ensures
        url_link(joined(parents, 0) + seq!['/'] + file) is None,
{
    reveal_strlit("https://");
    let s = joined(parents, 0) + seq!['/'] + file;
    let pre = "https://"@;
    if pre.is_prefix_of(s) {
        assert(pre[0] == 'h' && pre[1] == 't' && pre[2] == 't' && pre[3] == 'p' && pre[4] == 's'
            && pre[5] == ':' && pre[6] == '/' && pre[7] == '/');
        assert(s.subrange(0, 8) == pre);
        assert forall|i: int| 0 <= i < 8 implies s[i] == pre[i] by {
            assert(s.subrange(0, 8)[i] == s[i]);
        }
        let p = parents[0];
        let n = p.len() as int;
        assert(root_marker().len() == 1 && root_marker()[0] == '/');
        assert(s[0] == p[0]);
        assert(is_segment(p));
        if parents.len() == 1 {
            assert(s =~= p + seq!['/'] + file);
        } else {
            assert(s =~= p + seq!['/'] + (joined(parents, 1) + seq!['/'] + file));
            assert(is_segment(parents[1]));
            assert(joined(parents, 1)[0] == parents[1][0]);
        }
        assert(s[n] == '/');
        assert(s[n + 1] != '/');
        if n < 6 {
            assert(s[n] == pre[n]);
        } else if n > 6 {
            assert(s[6] == p[6]);
        }
    }
}

/// A link that reading a text can give, and whose own text has all that the
/// reading needs, is read back from its text: reading what `to_rustdoc`
/// writes gives the link again.
pub proof fn lemma_link_round_trip(l: LinkModel)
    requires
        well_formed(l),
        reads_back(l),
    ensures
        any_link(rustdoc_form(l)) == Some(l),
{
    let s = rustdoc_form(l);
    match l {
        LinkModel::File { parents, kind, name } => {
            let f = file_name(kind, name);
            lemma_file_name(parents, kind, name);
            lemma_components_joined(parents, f);
            lemma_file_is_no_url(parents, f);
            assert(root_marker().len() == 1 && root_marker()[0] == '/');
            assert(s[0] == parents[0][0]);
            assert(anchor_link(s) is None);
            let parts = parents + seq![f];
            assert(parts.last() == f);
            assert(parts.drop_last() =~= parents);
        },
        LinkModel::Anchor(a) => {
            assert(s.skip(1) =~= a);
        },
        LinkModel::Url(u) => {
            reveal_strlit("https://");
            let pre = "https://"@;
            assert(pre[0] == 'h');
            assert(s[0] == pre[0]);
            assert(s.subrange(0, pre.len() as int) =~= pre);
            assert(s.skip(pre.len() as int) =~= u);
        },
    }
}

/// The links that are read back from their text are no others than those
/// that `reads_back` admits: the text of a link to a file without a parent
/// begins with a slash and is read with the root as a parent; a first
/// parent that begins with `#` makes the text that of an anchor; and the
/// name of a link without a kind is read as `html`.
pub proof fn lemma_link_round_trip_needs(l: LinkModel)
    requires
        well_formed(l),
        any_link(rustdoc_form(l)) == Some(l),
    ensures
        reads_back(l),
{
    let s = rustdoc_form(l);
    match l {
        LinkModel::File { parents, kind, name } => {
            assert(root_marker().len() == 1 && root_marker()[0] == '/');
            if parents.len() == 0 {
                assert(joined(parents, 0) =~= Seq::<char>::empty());
                assert(s[0] == '/');
                let parts = components(s);
                assert(parts == seq![root_marker()] + segments(s));
                assert(parts.drop_last().len() == 0);
                assert(parts.last() == parts[0]);
                assert(parts[0] == root_marker());
            } else {
                if parents[0][0] == '#' {
                    assert(s[0] == parents[0][0]) by {
                        if parents.len() > 1 {
                            assert(s[0] == joined(parents, 0)[0]);
                            assert(joined(parents, 0)[0] == parents[0][0]);
                        }
                    }
                }
                if kind is None && name != "html"@ {
                    reveal_strlit(".html");
                    reveal_strlit("html");
                    let tail = ".html"@;
                    let f = file_name(kind, name);
                    assert(tail[0] == '.' && tail[1] == 'h' && tail[2] == 't' && tail[3] == 'm'
                        && tail[4] == 'l');
                    assert(seq!['.'].len() == 1);
                    assert(parent_marker().len() == 2);
                    let n = name.len() as int;
                    assert forall|i: int| 0 <= i < f.len() implies #[trigger] f[i] != '/' by {
                        if i < n {
                            assert(f[i] == name[i]);
                        } else {
                            assert(f[i] == tail[i - n]);
                        }
                    }
                    assert(is_segment(f)) by {
                        assert(f.len() == n + 5);
                    }
                    lemma_components_joined(parents, f);
                    let parts = parents + seq![f];
                    assert(parts.last() == f);
                    assert(f[0] != '/') by {
                        if n > 0 {
                            assert(f[0] == name[0]);
                        } else {
                            assert(f[0] == tail[0]);
                        }
                    }
                    lemma_file_is_no_url(parents, f);
                    assert(f != root_marker() && f != parent_marker());
                    assert forall|i: int| 0 <= i < n implies #[trigger] f[i] != '.' by {
                        assert(f[i] == name[i]);
                    }
                    assert(f[n] == tail[0]);
                    lemma_find_from_unique(f, '.', 0, n);
                    assert forall|i: int| n + 1 <= i < n + 5 implies #[trigger] f[i] != '.' by {
                        assert(f[i] == tail[i - n]);
                    }
                    lemma_find_from_unique(f, '.', n + 1, n + 5);
                    let read = f.subrange(n + 1, n + 5);
                    assert(read =~= "html"@) by {
                        let h = "html"@;
                        assert(h[0] == 'h' && h[1] == 't' && h[2] == 'm' && h[3] == 'l');
                        assert forall|i: int| 0 <= i < 4 implies read[i] == h[i] by {
                            assert(read[i] == tail[i + 1]);
                        }
                    }
                    if anchor_link(s) is None {
                        assert(path_link(s) == file_link(parents, f));
                    }
                }
            }
        },
        _ => {},
    }
}

/// What is kept of a text without a slash is a segment.
proof fn lemma_kept_is_segment(cur: Seq<char>)
    requires
        free_of(cur, '/'),
    ensures
        forall|i: int| 0 <= i < kept(cur).len() ==> is_segment(#[trigger] kept(cur)[i]),
{
}

/// The segments of a path are segments.
proof fn lemma_segments_are_segments(s: Seq<char>, from: int, cur: Seq<char>)
    requires
        0 <= from,
        free_of(cur, '/'),
    ensures
        forall|i: int|
            0 <= i < segments_after(s, from, cur).len() ==> is_segment(
                #[trigger] segments_after(s, from, cur)[i],
            ),
    decreases s.len() - from,
{
    let all = segments_after(s, from, cur);
    let first = kept(cur);
    lemma_kept_is_segment(cur);
    if from >= s.len() {
        assert(all == first);
    } else if s[from] == '/' {
        let rest = segments_after(s, from + 1, Seq::empty());
        lemma_segments_are_segments(s, from + 1, Seq::empty());
        assert(all == first + rest);
        assert forall|i: int| 0 <= i < all.len() implies is_segment(#[trigger] all[i]) by {
            if i < first.len() {
                assert(all[i] == first[i]);
            } else {
                assert(all[i] == rest[i - first.len()]);
            }
        }
    } else {
        let next = cur.push(s[from]);
        assert forall|i: int| 0 <= i < next.len() implies #[trigger] next[i] != '/' by {
            if i < cur.len() {
                assert(next[i] == cur[i]);
            }
        }
        lemma_segments_are_segments(s, from + 1, next);
        assert(all == segments_after(s, from + 1, next));
    }
}

/// A link that is read from a text is well formed.
pub proof fn lemma_read_link_is_well_formed(s: Seq<char>)
    ensures
        any_link(s) matches Some(l) ==> well_formed(l),
{
    lemma_read_path_is_well_formed(s);
}

/// A link that is read from a path is well formed.
pub proof fn lemma_read_path_is_well_formed(s: Seq<char>)
    ensures
        path_link(s) matches Some(l) ==> well_formed(l),
{
    if path_link(s) is Some {
        let parts = components(s);
        let file = parts.last();
        let parents = parts.drop_last();
        lemma_segments_are_segments(s, 0, Seq::empty());
        assert forall|i: int| 0 <= i < parts.len() implies is_segment(#[trigger] parts[i]) || (i
            == 0 && parts[i] == root_marker()) by {
            if s.len() > 0 && s[0] == '/' {
                if i > 0 {
                    assert(parts[i] == segments(s)[i - 1]);
                }
            }
        }
        assert(is_segment(file)) by {
            assert(is_segment(parts[parts.len() - 1]) || parts.len() == 1);
        }
        assert forall|i: int| 0 <= i < parents.len() implies is_segment(#[trigger] parents[i])
            || (i == 0 && parents[i] == root_marker()) by {
            assert(parents[i] == parts[i]);
        }
        let dot = find_from(file, '.', 0);
        lemma_find_from(file, '.', 0);
        let end = find_from(file, '.', dot + 1);
        lemma_find_from(file, '.', dot + 1);
        let name = file.subrange(dot + 1, end);
        assert forall|i: int| 0 <= i < name.len() implies #[trigger] name[i] != '.' && name[i]
            != '/' by {
            assert(name[i] == file[dot + 1 + i]);
        }
    }
}

} // verus!
