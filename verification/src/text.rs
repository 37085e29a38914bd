//! Text as sequences of characters: the conversions between strings and
//! character vectors, and the small searches and comparisons that the
//! parsers of this crate are written with.

use vstd::prelude::*;

verus! {

/// What `str::to_lowercase` makes of a text.
pub uninterp spec fn lowercase(s: Seq<char>) -> Seq<char>;

/// The lowercase form of an ASCII letter; any other character is unchanged.
pub open spec fn ascii_lower(c: char) -> char {
    if 'A' <= c <= 'Z' {
        ((c as u8) + 32) as char
    } else {
        c
    }
}

/// A text with each of its characters taken to `ascii_lower`.
pub open spec fn ascii_lowercase(s: Seq<char>) -> Seq<char> {
    Seq::new(s.len(), |i: int| ascii_lower(s[i]))
}

/// The lowercase form of a text. Where every character is ASCII, it is the
/// text with `A` to `Z` replaced by `a` to `z`.
pub open spec fn lower(s: Seq<char>) -> Seq<char> {
    if vstd::utf8::is_ascii_chars(s) {
        ascii_lowercase(s)
    } else {
        lowercase(s)
    }
}

/// Whether a character is whitespace: whether it has the property
/// White_Space of Unicode. These are the characters from tab to carriage
/// return, the space, the next line, the spaces without a break, the Ogham
/// space mark, the spaces of fixed width, the line and the paragraph
/// separator, the medium mathematical space and the ideographic space.
pub open spec fn is_space(c: char) -> bool {
    ('\u{9}' <= c <= '\u{d}') || c == '\u{20}' || c == '\u{85}' || c == '\u{a0}' || c
        == '\u{1680}' || ('\u{2000}' <= c <= '\u{200a}') || c == '\u{2028}' || c == '\u{2029}'
        || c == '\u{202f}' || c == '\u{205f}' || c == '\u{3000}'
}

/// `String::push` appends one character to the string.
pub assume_specification[ String::push ](s: &mut String, c: char)
    ensures
        final(s)@ == old(s)@.push(c),
;

/// `char::is_whitespace` tells whether the character has the Unicode
/// property White_Space, whose characters `is_space` lists.
pub assume_specification[ char::is_whitespace ](c: char) -> (b: bool)
    ensures
        b == is_space(c),
;

/// `str::to_lowercase` gives the Unicode lowercase form of the text. In a
/// text of ASCII characters alone that changes the letters `A` to `Z` to `a`
/// to `z` and nothing else.
#[verifier::external_body]
pub(crate) fn to_lowercase(s: &str) -> (res: String)
    ensures
        res@ == lowercase(s@),
        res@ == lower(s@),
{
    s.to_lowercase()
}

/// The characters of a string, in order.
pub(crate) fn chars_of(s: &str) -> (v: Vec<char>)
    ensures
        v@ == s@,
{
    let mut v: Vec<char> = Vec::new();
    for c in it: s.chars()
        invariant
            it.seq() == s@,
            v@ == it.seq().take(it.index() as int),
    {
        v.push(c);
    }
    v
}

/// The string made of the characters `v[from..to]`.
pub(crate) fn string_of(v: &Vec<char>, from: usize, to: usize) -> (s: String)
    requires
        from <= to <= v.len(),
    ensures
        s@ == v@.subrange(from as int, to as int),
{
    let mut s = String::new();
    let mut i: usize = from;
    while i < to
        invariant
            from <= i <= to <= v.len(),
            s@ == v@.subrange(from as int, i as int),
        decreases to - i,
    {
        s.push(v[i]);
        i += 1;
    }
    s
}

/// Appends the characters of `tail` to `out`.
pub(crate) fn push_str(out: &mut String, tail: &str)
    ensures
        final(out)@ == old(out)@ + tail@,
{
    for c in it: tail.chars()
        invariant
            it.seq() == tail@,
            out@ == old(out)@ + it.seq().take(it.index() as int),
    {
        out.push(c);
    }
}

/// Whether the characters `v[from..to]` spell `word`.
pub(crate) fn spells(v: &Vec<char>, from: usize, to: usize, word: &str) -> (b: bool)
    requires
        from <= to <= v.len(),
    ensures
        b == (v@.subrange(from as int, to as int) == word@),
{
    let w = chars_of(word);
    if w.len() != to - from {
        return false;
    }
    let mut i: usize = 0;
    while i < w.len()
        invariant
            from <= to <= v.len(),
            w.len() == to - from,
            w@ == word@,
            i <= w.len(),
            forall|k: int| 0 <= k < i ==> v@[from + k] == w@[k],
        decreases w.len() - i,
    {
        if v[from + i] != w[i] {
            assert(v@.subrange(from as int, to as int)[i as int] != w@[i as int]);
            return false;
        }
        i += 1;
    }
    assert(v@.subrange(from as int, to as int) =~= w@);
    true
}

/// Whether the text `v` begins with `word`.
pub(crate) fn begins_with(v: &Vec<char>, word: &str) -> (b: bool)
    ensures
        b == word@.is_prefix_of(v@),
{
    let w = chars_of(word);
    if w.len() > v.len() {
        return false;
    }
    let mut i: usize = 0;
    while i < w.len()
        invariant
            w.len() <= v.len(),
            w@ == word@,
            i <= w.len(),
            forall|k: int| 0 <= k < i ==> v@[k] == w@[k],
        decreases w.len() - i,
    {
        if v[i] != w[i] {
            assert(v@.subrange(0, w.len() as int)[i as int] != w@[i as int]);
            return false;
        }
        i += 1;
    }
    assert(w@ =~= v@.subrange(0, w.len() as int));
    true
}

/// Whether two strings hold the same text.
pub(crate) fn same_text(a: &str, b: &str) -> (same: bool)
    ensures
        same == (a@ == b@),
{
    let v = chars_of(a);
    let same = spells(&v, 0, v.len(), b);
    assert(v@.subrange(0, v@.len() as int) =~= v@);
    same
}

/// The digit that stands for a number below ten.
pub open spec fn digit(n: nat) -> char {
    if n == 0 {
        '0'
    } else if n == 1 {
        '1'
    } else if n == 2 {
        '2'
    } else if n == 3 {
        '3'
    } else if n == 4 {
        '4'
    } else if n == 5 {
        '5'
    } else if n == 6 {
        '6'
    } else if n == 7 {
        '7'
    } else if n == 8 {
        '8'
    } else {
        '9'
    }
}

/// A number written in decimal digits, without leading zeros.
pub open spec fn decimal(n: nat) -> Seq<char>
    decreases n,
{
    if n < 10 {
        seq![digit(n)]
    } else {
        decimal(n / 10).push(digit(n % 10))
    }
}

/// The digit that stands for `n`.
fn digit_of(n: usize) -> (c: char)
    requires
        n < 10,
    ensures
        c == digit(n as nat),
{
    if n == 0 {
        '0'
    } else if n == 1 {
        '1'
    } else if n == 2 {
        '2'
    } else if n == 3 {
        '3'
    } else if n == 4 {
        '4'
    } else if n == 5 {
        '5'
    } else if n == 6 {
        '6'
    } else if n == 7 {
        '7'
    } else if n == 8 {
        '8'
    } else {
        '9'
    }
}

/// Appends `n` in decimal digits to `out`.
pub(crate) fn push_decimal(out: &mut String, n: usize)
    ensures
        final(out)@ == old(out)@ + decimal(n as nat),
    decreases n,
{
    if n < 10 {
        out.push(digit_of(n));
        assert(old(out)@.push(digit(n as nat)) =~= old(out)@ + decimal(n as nat));
    } else {
        push_decimal(out, n / 10);
        out.push(digit_of(n % 10));
        assert((old(out)@ + decimal((n / 10) as nat)).push(digit((n % 10) as nat)) =~= old(out)@
            + decimal(n as nat));
    }
}

/// The place of the first `c` in `s` at or after `from`; the length of `s`
/// where there is none.
pub open spec fn find_from(s: Seq<char>, c: char, from: int) -> int
    decreases s.len() - from,
{
    if from >= s.len() {
        s.len() as int
    } else if s[from] == c {
        from
    } else {
        find_from(s, c, from + 1)
    }
}

/// What `find_from` finds lies between `from` and the end, holds `c` unless
/// it is the end, and no `c` stands before it.
pub(crate) proof fn lemma_find_from(s: Seq<char>, c: char, from: int)
    requires
        0 <= from <= s.len(),
    ensures
        from <= find_from(s, c, from) <= s.len(),
        find_from(s, c, from) < s.len() ==> s[find_from(s, c, from)] == c,
        forall|k: int| from <= k < find_from(s, c, from) ==> s[k] != c,
    decreases s.len() - from,
{
    if from < s.len() && s[from] != c {
        lemma_find_from(s, c, from + 1);
    }
}

/// `find_from` is the only place at or after `from` that holds `c` (or is
/// the end) with no `c` between `from` and it.
pub(crate) proof fn lemma_find_from_unique(s: Seq<char>, c: char, from: int, at: int)
    requires
        0 <= from <= at <= s.len(),
        at < s.len() ==> s[at] == c,
        forall|k: int| from <= k < at ==> s[k] != c,
    ensures
        find_from(s, c, from) == at,
    decreases at - from,
{
    if from < at {
        lemma_find_from_unique(s, c, from + 1, at);
    }
}

/// The first `c` in `v[from..to]`, or `to`.
pub(crate) fn find(v: &Vec<char>, c: char, from: usize, to: usize) -> (at: usize)
    requires
        from <= to <= v.len(),
    ensures
        at == find_from(v@.take(to as int), c, from as int),
        from <= at <= to,
{
    let mut i: usize = from;
    while i < to && v[i] != c
        invariant
            from <= i <= to <= v.len(),
            forall|k: int| from <= k < i ==> v@[k] != c,
        decreases to - i,
    {
        i += 1;
    }
    proof {
        lemma_find_from_unique(v@.take(to as int), c, from as int, i as int);
    }
    i
}

/// The word that is being read, as a list of at most one word: nothing
/// while no character of it has been read.
pub open spec fn pending(cur: Seq<char>) -> Seq<Seq<char>> {
    if cur.len() > 0 {
        seq![cur]
    } else {
        Seq::empty()
    }
}

/// The words of `s[from..]`, where `cur` holds the characters of a word that
/// began before `from`.
pub open spec fn words_after(s: Seq<char>, from: int, cur: Seq<char>) -> Seq<Seq<char>>
    decreases s.len() - from,
{
    if from >= s.len() {
        pending(cur)
    } else if is_space(s[from]) {
        pending(cur) + words_after(s, from + 1, Seq::empty())
    } else {
        words_after(s, from + 1, cur.push(s[from]))
    }
}

/// The words of a text: its maximal runs of characters that are not
/// whitespace, in order.
pub open spec fn words(s: Seq<char>) -> Seq<Seq<char>> {
    words_after(s, 0, Seq::empty())
}

/// Splits a text into its words.
pub(crate) fn split_words(v: &Vec<char>) -> (out: Vec<Vec<char>>)
    ensures
        out@.len() == words(v@).len(),
        forall|i: int| 0 <= i < out@.len() ==> (#[trigger] out@[i])@ == words(v@)[i],
{
    let mut out: Vec<Vec<char>> = Vec::new();
    let mut cur: Vec<char> = Vec::new();
    let ghost mut done: Seq<Seq<char>> = Seq::empty();
    let mut i: usize = 0;
    while i < v.len()
        invariant
            i <= v.len(),
            out@.len() == done.len(),
            forall|k: int| 0 <= k < out@.len() ==> (#[trigger] out@[k])@ == done[k],
            words(v@) == done + words_after(v@, i as int, cur@),
        decreases v.len() - i,
    {
        let c = v[i];
        let ghost rest = words_after(v@, i + 1, Seq::empty());
        if c.is_whitespace() {
            if cur.len() > 0 {
                proof {
                    assert(done.push(cur@) + rest =~= done + (pending(cur@) + rest));
                    done = done.push(cur@);
                }
                out.push(cur);
                cur = Vec::new();
            } else {
                assert(cur@ =~= Seq::<char>::empty());
                assert(done + rest =~= done + (pending(cur@) + rest));
            }
        } else {
            cur.push(c);
        }
        i += 1;
    }
    if cur.len() > 0 {
        proof {
            assert(done.push(cur@) =~= done + pending(cur@));
            done = done.push(cur@);
        }
        out.push(cur);
    } else {
        assert(done =~= done + pending(cur@));
    }
    out
}

/// While a word is being read and no whitespace follows, the rest of the
/// text is the rest of that word.
proof fn lemma_words_after_run(s: Seq<char>, from: int, to: int, cur: Seq<char>)
    requires
        0 <= from <= to <= s.len(),
        forall|i: int| from <= i < to ==> !is_space(#[trigger] s[i]),
    ensures
        words_after(s, from, cur) == words_after(s, to, cur + s.subrange(from, to)),
    decreases to - from,
{
    if from < to {
        lemma_words_after_run(s, from + 1, to, cur.push(s[from]));
        assert(cur.push(s[from]) + s.subrange(from + 1, to) =~= cur + s.subrange(from, to));
    } else {
        assert(cur + s.subrange(from, to) =~= cur);
    }
}

/// The words of a text from `k` on are the words of what is left when its
/// first `k` characters are taken away.
proof fn lemma_words_after_skip(s: Seq<char>, k: int, from: int, cur: Seq<char>)
    requires
        0 <= k,
        0 <= from,
        k + from <= s.len(),
    ensures
        words_after(s, k + from, cur) == words_after(s.skip(k), from, cur),
    decreases s.len() - k - from,
{
    if k + from < s.len() {
        assert(s.skip(k)[from] == s[k + from]);
        if is_space(s[k + from]) {
            lemma_words_after_skip(s, k, from + 1, Seq::empty());
        } else {
            lemma_words_after_skip(s, k, from + 1, cur.push(s[k + from]));
        }
    }
}

/// A text that holds no whitespace and is not empty is its own single word.
pub(crate) proof fn lemma_single_word(s: Seq<char>)
    requires
        s.len() > 0,
        forall|i: int| 0 <= i < s.len() ==> !is_space(#[trigger] s[i]),
    ensures
        words(s) == seq![s],
{
    lemma_words_after_run(s, 0, s.len() as int, Seq::empty());
    assert(Seq::<char>::empty() + s.subrange(0, s.len() as int) =~= s);
}

/// Where the first `n` characters of a text hold no whitespace and the next
/// one is whitespace, they are its first word, and its other words are those
/// of what follows that whitespace.
pub(crate) proof fn lemma_first_word(s: Seq<char>, n: int)
    requires
        0 < n < s.len(),
        forall|i: int| 0 <= i < n ==> !is_space(#[trigger] s[i]),
        is_space(s[n]),
    ensures
        words(s) == seq![s.take(n)] + words(s.skip(n + 1)),
{
    lemma_words_after_run(s, 0, n, Seq::empty());
    assert(Seq::<char>::empty() + s.subrange(0, n) =~= s.take(n));
    lemma_words_after_skip(s, n + 1, 0, Seq::empty());
}

} // verus!
