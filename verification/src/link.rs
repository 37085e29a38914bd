//! Links between the pages of a crate's documentation: to a file, to an
//! anchor within the page, or to a web address; how each is read from the
//! text of an `href` and written back.

use crate::item::ModuleItemKind;
use crate::link_laws::{lemma_read_link_is_well_formed, lemma_read_path_is_well_formed};
use crate::text::{begins_with, chars_of, find, find_from, push_str, string_of};
use vstd::prelude::*;

verus! {

/// A link to or within a doc page, or to a web page.
#[derive(Debug, PartialEq, Eq, Hash)]
pub enum Link {
    File { parents: Vec<String>, kind: Option<ModuleItemKind>, name: String },
    Anchor(String),
    Url(String),
}

/// What a link holds, as plain text.
pub enum LinkModel {
    File { parents: Seq<Seq<char>>, kind: Option<ModuleItemKind>, name: Seq<char> },
    Anchor(Seq<char>),
    Url(Seq<char>),
}

/// The texts of a list of strings.
pub open spec fn texts(v: Seq<String>) -> Seq<Seq<char>> {
    Seq::new(v.len(), |i: int| v[i]@)
}

impl View for Link {
    type V = LinkModel;

    open spec fn view(&self) -> LinkModel {
        match self {
            Link::File { parents, kind, name } => LinkModel::File {
                parents: texts(parents@),
                kind: *kind,
                name: name@,
            },
            Link::Anchor(a) => LinkModel::Anchor(a@),
            Link::Url(u) => LinkModel::Url(u@),
        }
    }
}

/// The marker of the root directory among the segments of a path.
pub open spec fn root_marker() -> Seq<char> {
    seq!['/']
}

/// The marker of the parent directory among the segments of a path.
pub open spec fn parent_marker() -> Seq<char> {
    seq!['.', '.']
}

/// Whether no character of `s` is `c`.
pub open spec fn free_of(s: Seq<char>, c: char) -> bool {
    forall|i: int| 0 <= i < s.len() ==> #[trigger] s[i] != c
}

/// Whether a text can be a segment of a path: it is not empty, holds no
/// slash and is not the single dot.
pub open spec fn is_segment(p: Seq<char>) -> bool {
    p.len() > 0 && free_of(p, '/') && p != seq!['.']
}

/// Whether a link is one that reading a text can give: the parents of a file
/// are segments, but that the first may be the root marker, and the name
/// holds neither a dot nor a slash.
pub open spec fn well_formed(l: LinkModel) -> bool {
    match l {
        LinkModel::File { parents, kind, name } => {
            &&& forall|i: int|
                0 <= i < parents.len() ==> is_segment(#[trigger] parents[i]) || (i == 0
                    && parents[i] == root_marker())
            &&& free_of(name, '.')
            &&& free_of(name, '/')
        },
        _ => true,
    }
}

/// The segment that has been read, as a list of at most one segment: an
/// empty one and the single dot of the current directory are no segments.
pub open spec fn kept(cur: Seq<char>) -> Seq<Seq<char>> {
    if cur.len() == 0 || cur == seq!['.'] {
        Seq::empty()
    } else {
        seq![cur]
    }
}

/// The segments of `s[from..]`, where `cur` holds the characters of a
/// segment that began before `from`.
pub open spec fn segments_after(s: Seq<char>, from: int, cur: Seq<char>) -> Seq<Seq<char>>
    decreases s.len() - from,
{
    if from >= s.len() {
        kept(cur)
    } else if s[from] == '/' {
        kept(cur) + segments_after(s, from + 1, Seq::empty())
    } else {
        segments_after(s, from + 1, cur.push(s[from]))
    }
}

/// The segments of a path: what stands between its slashes, without the
/// empty segments and the single dots.
pub open spec fn segments(s: Seq<char>) -> Seq<Seq<char>> {
    segments_after(s, 0, Seq::empty())
}

/// The components of a path: the root marker where the path begins with a
/// slash, then its segments, the parent marker `..` among them.
pub open spec fn components(s: Seq<char>) -> Seq<Seq<char>> {
    if s.len() > 0 && s[0] == '/' {
        seq![root_marker()] + segments(s)
    } else {
        segments(s)
    }
}

/// The link that the name of a file stands for: the name is split at its
/// first dot into the token of a kind and a name, which ends at the next
/// dot. Without a dot it stands for none.
pub open spec fn file_link(parents: Seq<Seq<char>>, file: Seq<char>) -> Option<LinkModel> {
    let dot = find_from(file, '.', 0);
    if dot >= file.len() {
        None
    } else {
        Some(
            LinkModel::File {
                parents,
                kind: ModuleItemKind::classify(file.take(dot)),
                name: file.subrange(dot + 1, find_from(file, '.', dot + 1)),
            },
        )
    }
}

/// The link that a path stands for: its last component names the file, the
/// components before it are the parents. A path without components, or
/// whose last component is the root or the parent marker, stands for none.
pub open spec fn path_link(s: Seq<char>) -> Option<LinkModel> {
    let parts = components(s);
    if parts.len() == 0 || parts.last() == root_marker() || parts.last() == parent_marker() {
        None
    } else {
        file_link(parts.drop_last(), parts.last())
    }
}

/// The link that a text after `#` stands for.
pub open spec fn anchor_link(s: Seq<char>) -> Option<LinkModel> {
    if s.len() > 0 && s[0] == '#' {
        Some(LinkModel::Anchor(s.skip(1)))
    } else {
        None
    }
}

/// The link that a text after `https://` stands for.
pub open spec fn url_link(s: Seq<char>) -> Option<LinkModel> {
    if "https://"@.is_prefix_of(s) {
        Some(LinkModel::Url(s.skip("https://"@.len() as int)))
    } else {
        None
    }
}

/// The link that a text stands for: an anchor, else a web address, else a
/// path.
pub open spec fn any_link(s: Seq<char>) -> Option<LinkModel> {
    if anchor_link(s) is Some {
        anchor_link(s)
    } else if url_link(s) is Some {
        url_link(s)
    } else {
        path_link(s)
    }
}

/// The texts of `parts[from..]` with a slash between each two.
pub open spec fn joined(parts: Seq<Seq<char>>, from: int) -> Seq<char>
    decreases parts.len() - from,
{
    if from >= parts.len() {
        Seq::empty()
    } else if from == parts.len() - 1 {
        parts[from]
    } else {
        parts[from] + seq!['/'] + joined(parts, from + 1)
    }
}

/// The name of the file that a link to a file leads to.
pub open spec fn file_name(kind: Option<ModuleItemKind>, name: Seq<char>) -> Seq<char> {
    match kind {
        Some(k) => k.keyword() + seq!['.'] + name + ".html"@,
        None => name + ".html"@,
    }
}

/// The text of a link as rustdoc writes it in an `href`.
pub open spec fn rustdoc_form(l: LinkModel) -> Seq<char> {
    match l {
        LinkModel::File { parents, kind, name } => joined(parents, 0) + seq!['/'] + file_name(
            kind,
            name,
        ),
        LinkModel::Anchor(a) => seq!['#'] + a,
        LinkModel::Url(u) => "https://"@ + u,
    }
}

/// Splits a path into its components.
fn split_path(v: &Vec<char>) -> (out: Vec<Vec<char>>)
    ensures
        out@.len() == components(v@).len(),
        forall|i: int| 0 <= i < out@.len() ==> (#[trigger] out@[i])@ == components(v@)[i],
{
    let mut out: Vec<Vec<char>> = Vec::new();
    let ghost mut done: Seq<Seq<char>> = Seq::empty();
    if v.len() > 0 && v[0] == '/' {
        let mut root: Vec<char> = Vec::new();
        root.push('/');
        assert(root@ =~= root_marker());
        out.push(root);
        proof {
            done = seq![root_marker()];
        }
    } else {
        assert(components(v@) =~= done + segments(v@));
    }
    let mut cur: Vec<char> = Vec::new();
    let mut i: usize = 0;
    while i < v.len()
        invariant
            i <= v.len(),
            out@.len() == done.len(),
            forall|k: int| 0 <= k < out@.len() ==> (#[trigger] out@[k])@ == done[k],
            components(v@) == done + segments_after(v@, i as int, cur@),
        decreases v.len() - i,
    {
        let c = v[i];
        let ghost rest = segments_after(v@, i + 1, Seq::empty());
        if c == '/' {
            if cur.len() == 0 || (cur.len() == 1 && cur[0] == '.') {
                assert(kept(cur@) =~= Seq::<Seq<char>>::empty()) by {
                    if cur.len() == 1 {
                        assert(cur@ =~= seq!['.']);
                    }
                }
                assert(done + rest =~= done + (kept(cur@) + rest));
            } else {
                proof {
                    assert(kept(cur@) == seq![cur@]) by {
                        if cur@ == seq!['.'] {
                            assert(seq!['.'].len() == 1);
                            assert(seq!['.'][0] == '.');
                        }
                    }
                    assert(done.push(cur@) + rest =~= done + (kept(cur@) + rest));
                    done = done.push(cur@);
                }
                out.push(cur);
            }
            cur = Vec::new();
        } else {
            cur.push(c);
        }
        i += 1;
    }
    if cur.len() == 0 || (cur.len() == 1 && cur[0] == '.') {
        assert(kept(cur@) =~= Seq::<Seq<char>>::empty()) by {
            if cur.len() == 1 {
                assert(cur@ =~= seq!['.']);
            }
        }
        assert(done =~= done + kept(cur@));
    } else {
        proof {
            assert(kept(cur@) == seq![cur@]) by {
                if cur@ == seq!['.'] {
                    assert(seq!['.'].len() == 1);
                    assert(seq!['.'][0] == '.');
                }
            }
            assert(done.push(cur@) =~= done + kept(cur@));
            done = done.push(cur@);
        }
        out.push(cur);
    }
    out
}

/// Whether a component is the root marker or the parent marker.
fn is_marker(part: &Vec<char>) -> (b: bool)
    ensures
        b == (part@ == root_marker() || part@ == parent_marker()),
{
    if part.len() == 1 && part[0] == '/' {
        assert(part@ =~= root_marker());
        true
    } else if part.len() == 2 && part[0] == '.' && part[1] == '.' {
        assert(part@ =~= parent_marker());
        true
    } else {
        assert(part@ != root_marker()) by {
            if part@ == root_marker() {
                assert(root_marker().len() == 1);
                assert(root_marker()[0] == '/');
            }
        }
        assert(part@ != parent_marker()) by {
            if part@ == parent_marker() {
                assert(parent_marker().len() == 2);
                assert(parent_marker()[0] == '.');
                assert(parent_marker()[1] == '.');
            }
        }
        false
    }
}

impl Clone for Link {
    /// A copy that holds what the link holds.
    fn clone(&self) -> (copy: Self)
        ensures
            copy@ == self@,
    {
        match self {
            Link::File { parents, kind, name } => {
                let mut v: Vec<String> = Vec::new();
                let mut i: usize = 0;
                while i < parents.len()
                    invariant
                        i <= parents.len(),
                        v@.len() == i,
                        forall|k: int| 0 <= k < i ==> (#[trigger] v@[k])@ == parents@[k]@,
                    decreases parents.len() - i,
                {
                    v.push(parents[i].clone());
                    i += 1;
                }
                assert(texts(v@) =~= texts(parents@));
                Link::File { parents: v, kind: *kind, name: name.clone() }
            },
            Link::Anchor(a) => Link::Anchor(a.clone()),
            Link::Url(u) => Link::Url(u.clone()),
        }
    }
}

impl Link {
    /// Parse a link that could be path-style, anchor-style, or url-style.
    pub fn parse(link: &str) -> (res: Option<Self>)
        ensures
            res is Some <==> any_link(link@) is Some,
            res matches Some(l) ==> any_link(link@) == Some(l@) && well_formed(l@),
    {
        proof {
            lemma_read_link_is_well_formed(link@);
        }
        match Self::anchor(link) {
            Some(anchor) => Some(anchor),
            None => match Self::url(link) {
                Some(url) => Some(url),
                None => Self::file(link),
            },
        }
    }

    /// Parse a path-style link (e.g. `path/struct.Path.html`).
    pub fn file(file: &str) -> (res: Option<Self>)
        ensures
            res is Some <==> path_link(file@) is Some,
            res matches Some(l) ==> path_link(file@) == Some(l@) && well_formed(l@),
    {
        proof {
            lemma_read_path_is_well_formed(file@);
        }
        let chars = chars_of(file);
        let mut parts = split_path(&chars);
        let ghost all = components(chars@);
        if parts.len() == 0 {
            return None;
        }
        let last = parts.pop().unwrap();
        assert(last@ == all.last());
        if is_marker(&last) {
            return None;
        }
        let dot = find(&last, '.', 0, last.len());
        assert(last@.take(last.len() as int) =~= last@);
        if dot >= last.len() {
            return None;
        }
        let end = find(&last, '.', dot + 1, last.len());
        let token = string_of(&last, 0, dot);
        let kind = ModuleItemKind::parse(token.as_str());
        let name = string_of(&last, dot + 1, end);
        let mut parents: Vec<String> = Vec::new();
        let mut i: usize = 0;
        while i < parts.len()
            invariant
                i <= parts.len(),
                parents@.len() == i,
                parts@.len() == all.len() - 1,
                forall|k: int| 0 <= k < parts@.len() ==> (#[trigger] parts@[k])@ == all[k],
                forall|k: int| 0 <= k < i ==> (#[trigger] parents@[k])@ == all[k],
            decreases parts.len() - i,
        {
            let p = string_of(&parts[i], 0, parts[i].len());
            let ghost part = parts@[i as int]@;
            assert(part.subrange(0, part.len() as int) =~= part);
            parents.push(p);
            i += 1;
        }
        assert(texts(parents@) =~= all.drop_last());
        Some(Link::File { parents, kind, name })
    }

    /// Parse an anchor-style link (e.g. `#implementations`).
    pub fn anchor(anchor: &str) -> (res: Option<Self>)
        ensures
            res is Some <==> anchor_link(anchor@) is Some,
            res matches Some(l) ==> anchor_link(anchor@) == Some(l@),
    {
        let chars = chars_of(anchor);
        if chars.len() > 0 && chars[0] == '#' {
            Some(Link::Anchor(string_of(&chars, 1, chars.len())))
        } else {
            None
        }
    }

    /// Parse a URL-style link (e.g. `https://rust-lang.org`).
    pub fn url(url: &str) -> (res: Option<Self>)
        ensures
            res is Some <==> url_link(url@) is Some,
            res matches Some(l) ==> url_link(url@) == Some(l@),
    {
        let chars = chars_of(url);
        if begins_with(&chars, "https://") {
            let n = chars_of("https://").len();
            Some(Link::Url(string_of(&chars, n, chars.len())))
        } else {
            None
        }
    }

    /// Convert a link back into rustdoc (HTML) form.
    pub fn to_rustdoc(&self) -> (out: String)
        ensures
            out@ == rustdoc_form(self@),
    {
        match self {
            Link::File { parents, kind, name } => {
                let mut out = String::new();
                let ghost ps = texts(parents@);
                let mut i: usize = 0;
                while i < parents.len()
                    invariant
                        i <= parents.len(),
                        ps == texts(parents@),
                        out@ + joined(ps, i as int) == joined(ps, 0),
                        0 < i < parents.len() ==> out@.len() > 0,
                    decreases parents.len() - i,
                {
                    let ghost before = out@;
                    push_str(&mut out, parents[i].as_str());
                    if i + 1 < parents.len() {
                        out.push('/');
                        assert(out@ + joined(ps, i + 1) =~= before + (ps[i as int] + seq!['/']
                            + joined(ps, i + 1)));
                    } else {
                        assert(out@ + joined(ps, i + 1) =~= before + ps[i as int]);
                    }
                    i += 1;
                }
                assert(out@ =~= joined(ps, 0));
                out.push('/');
                match kind {
                    Some(k) => {
                        push_str(&mut out, k.to_keyword());
                        out.push('.');
                    },
                    None => {},
                }
                push_str(&mut out, name.as_str());
                push_str(&mut out, ".html");
                assert(out@ =~= rustdoc_form(self@));
                out
            },
            Link::Anchor(anchor) => {
                let mut out = String::new();
                out.push('#');
                push_str(&mut out, anchor.as_str());
                assert(out@ =~= rustdoc_form(self@));
                out
            },
            Link::Url(url) => {
                let mut out = String::new();
                push_str(&mut out, "https://");
                push_str(&mut out, url.as_str());
                assert(out@ =~= rustdoc_form(self@));
                out
            },
        }
    }
}

} // verus!
