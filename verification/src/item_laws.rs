//! What the classifier makes of the names that the kinds themselves give.

use crate::item::{singular, AssociatedItemKind, ModuleItemKind};
use crate::text::{ascii_lowercase, lemma_first_word, lemma_single_word, lower, words};
use vstd::prelude::*;

verus! {

/// Whether a character is an ASCII letter or a hyphen.
pub open spec fn is_letter(c: char) -> bool {
    ('a' <= c <= 'z') || ('A' <= c <= 'Z') || c == '-'
}

/// The lowercase form of a word of ASCII letters and hyphens is a single
/// word again: that of `ascii_lowercase`.
proof fn lemma_lower_word(s: Seq<char>)
    requires
        s.len() > 0,
        forall|i: int| 0 <= i < s.len() ==> is_letter(#[trigger] s[i]),
    ensures
        words(lower(s)) == seq![ascii_lowercase(s)],
{
    assert(vstd::utf8::is_ascii_chars(s));
    lemma_single_word(ascii_lowercase(s));
}

/// In a text of ASCII characters that begins with `n` letters or hyphens and
/// goes on with a space, the first word of the lowercase form is the
/// lowercase form of those `n`; the other words are those of what follows
/// the space.
proof fn lemma_lower_first_word(s: Seq<char>, n: int)
    requires
        0 < n < s.len(),
        vstd::utf8::is_ascii_chars(s),
        forall|i: int| 0 <= i < n ==> is_letter(#[trigger] s[i]),
        s[n] == ' ',
    ensures
        words(lower(s)) == seq![ascii_lowercase(s.take(n))] + words(lower(s.skip(n + 1))),
{
    assert(vstd::utf8::is_ascii_chars(s.skip(n + 1)));
    let l = ascii_lowercase(s);
    lemma_first_word(l, n);
    assert(l.take(n) =~= ascii_lowercase(s.take(n)));
    assert(l.skip(n + 1) =~= ascii_lowercase(s.skip(n + 1)));
}

/// The words of a name of one word, and of its plural: `lc` is the name in
/// lowercase.
proof fn lemma_one_word(h: Seq<char>, lc: Seq<char>)
    requires
        h.len() > 0,
        forall|i: int| 0 <= i < h.len() ==> is_letter(#[trigger] h[i]),
        ascii_lowercase(h) == lc,
        lc.last() != 's',
    ensures
        words(lower(h)) == seq![lc],
        words(lower(h.push('s'))) == seq![lc.push('s')],
        singular(lc) == lc,
        singular(lc.push('s')) == lc,
{
    lemma_lower_word(h);
    lemma_lower_word(h.push('s'));
    assert(ascii_lowercase(h.push('s')) =~= lc.push('s'));
    assert(lc.push('s').drop_last() =~= lc);
}

/// The first word of a heading of several words, and of its plural: `lc` is
/// the first word in lowercase.
proof fn lemma_leading_word(h: Seq<char>, n: int, lc: Seq<char>)
    requires
        0 < n < h.len(),
        forall|i: int| 0 <= i < h.len() ==> is_letter(#[trigger] h[i]) || h[i] == ' ',
        forall|i: int| 0 <= i < n ==> h[i] != ' ',
        h[n] == ' ',
        ascii_lowercase(h.take(n)) == lc,
    ensures
        words(lower(h)).len() > 0,
        words(lower(h))[0] == lc,
        words(lower(h.push('s'))).len() > 0,
        words(lower(h.push('s')))[0] == lc,
{
    let p = h.push('s');
    assert(vstd::utf8::is_ascii_chars(h));
    assert(vstd::utf8::is_ascii_chars(p));
    lemma_lower_first_word(h, n);
    lemma_lower_first_word(p, n);
    assert(p.take(n) =~= h.take(n));
}

/// The words of a heading of two words with a space between them, and of
/// its plural: `lc1` and `lc2` are the two words in lowercase.
proof fn lemma_two_words(h: Seq<char>, n: int, lc1: Seq<char>, lc2: Seq<char>)
    requires
        0 < n < h.len() - 1,
        forall|i: int| 0 <= i < h.len() && i != n ==> is_letter(#[trigger] h[i]),
        h[n] == ' ',
        ascii_lowercase(h.take(n)) == lc1,
        ascii_lowercase(h.skip(n + 1)) == lc2,
        lc2.last() != 's',
    ensures
        words(lower(h)) == seq![lc1, lc2],
        words(lower(h.push('s'))) == seq![lc1, lc2.push('s')],
        singular(lc2) == lc2,
        singular(lc2.push('s')) == lc2,
{
    let p = h.push('s');
    assert(vstd::utf8::is_ascii_chars(h));
    assert(vstd::utf8::is_ascii_chars(p));
    lemma_lower_first_word(h, n);
    lemma_lower_first_word(p, n);
    assert(p.take(n) =~= h.take(n));
    assert(p.skip(n + 1) =~= h.skip(n + 1).push('s'));
    lemma_one_word(h.skip(n + 1), lc2);
    assert(seq![lc1] + seq![lc2] =~= seq![lc1, lc2]);
    assert(seq![lc1] + seq![lc2.push('s')] =~= seq![lc1, lc2.push('s')]);
}

/// What the words that the names of the kinds of module item are made of
/// stand for in the vocabulary; `html` stands for nothing.
proof fn lemma_module_words()
    ensures
        ModuleItemKind::of_word("mod"@) == Some(ModuleItemKind::Module),
        ModuleItemKind::of_word("keyword"@) == Some(ModuleItemKind::Keyword),
        ModuleItemKind::of_word("struct"@) == Some(ModuleItemKind::Struct),
        ModuleItemKind::of_word("enum"@) == Some(ModuleItemKind::Enum),
        ModuleItemKind::of_word("union"@) == Some(ModuleItemKind::Union),
        ModuleItemKind::of_word("primitive"@) == Some(ModuleItemKind::PrimitiveType),
        ModuleItemKind::of_word("trait"@) == Some(ModuleItemKind::Trait),
        ModuleItemKind::of_word("macro"@) == Some(ModuleItemKind::Macro),
        ModuleItemKind::of_word("attr"@) == Some(ModuleItemKind::AttributeMacro),
        ModuleItemKind::of_word("derive"@) == Some(ModuleItemKind::DeriveMacro),
        ModuleItemKind::of_word("fn"@) == Some(ModuleItemKind::Function),
        ModuleItemKind::of_word("type"@) == Some(ModuleItemKind::TypeDefinition),
        ModuleItemKind::of_word("constant"@) == Some(ModuleItemKind::Constant),
        ModuleItemKind::of_word("module"@) == Some(ModuleItemKind::Module),
        ModuleItemKind::of_word("attribute"@) == Some(ModuleItemKind::AttributeMacro),
        ModuleItemKind::of_word("function"@) == Some(ModuleItemKind::Function),
        ModuleItemKind::of_word("html"@) is None,
{
    reveal_strlit("module");
    reveal_strlit("mod");
    reveal_strlit("keyword");
    reveal_strlit("struct");
    reveal_strlit("enum");
    reveal_strlit("union");
    reveal_strlit("primitive");
    reveal_strlit("trait");
    reveal_strlit("macro");
    reveal_strlit("attribute");
    reveal_strlit("attr");
    reveal_strlit("derive");
    reveal_strlit("function");
    reveal_strlit("fn");
    reveal_strlit("type");
    reveal_strlit("constant");
    reveal_strlit("html");
    assert("module"@.len() == 6);
    assert("mod"@.len() == 3);
    assert("keyword"@.len() == 7);
    assert("struct"@.len() == 6);
    assert("enum"@.len() == 4);
    assert("union"@.len() == 5);
    assert("primitive"@.len() == 9);
    assert("trait"@.len() == 5);
    assert("macro"@.len() == 5);
    assert("attribute"@.len() == 9);
    assert("attr"@.len() == 4);
    assert("derive"@.len() == 6);
    assert("function"@.len() == 8);
    assert("fn"@.len() == 2);
    assert("type"@.len() == 4);
    assert("constant"@.len() == 8);
    assert("html"@.len() == 4);
    assert("struct"@[0] == 's' && "module"@[0] == 'm' && "derive"@[0] == 'd');
    assert("enum"@[0] == 'e' && "attr"@[0] == 'a' && "type"@[0] == 't');
    assert("union"@[0] == 'u' && "trait"@[0] == 't' && "macro"@[0] == 'm');
    assert("primitive"@[0] == 'p' && "attribute"@[0] == 'a');
    assert("trait"@[0] == 't' && "union"@[0] == 'u' && "macro"@[0] == 'm');
    assert("macro"@[0] == 'm' && "union"@[0] == 'u' && "trait"@[0] == 't');
    assert("attr"@[0] == 'a' && "enum"@[0] == 'e' && "type"@[0] == 't');
    assert("derive"@[0] == 'd' && "module"@[0] == 'm' && "struct"@[0] == 's');
    assert("type"@[0] == 't' && "enum"@[0] == 'e' && "attr"@[0] == 'a');
    assert("constant"@[0] == 'c' && "function"@[0] == 'f');
    assert("module"@[0] == 'm' && "struct"@[0] == 's' && "derive"@[0] == 'd');
    assert("attribute"@[0] == 'a' && "primitive"@[0] == 'p');
    assert("function"@[0] == 'f' && "constant"@[0] == 'c');
    assert("html"@[0] == 'h' && "enum"@[0] == 'e' && "attr"@[0] == 'a' && "type"@[0] == 't');
}

/// What the keywords of the kinds of member stand for in the vocabulary.
proof fn lemma_member_keywords()
    ensures
        AssociatedItemKind::of_word("const"@) == Some(AssociatedItemKind::Constant),
        AssociatedItemKind::of_word("field"@) == Some(AssociatedItemKind::Field),
        AssociatedItemKind::of_word("item-decl"@) == Some(AssociatedItemKind::Declaration),
        AssociatedItemKind::of_word("provided-assoc-const"@) == Some(
            AssociatedItemKind::ProvidedAssocConst,
        ),
        AssociatedItemKind::of_word("variant"@) == Some(AssociatedItemKind::Variant),
        AssociatedItemKind::of_word("implementation"@) == Some(AssociatedItemKind::Method),
        AssociatedItemKind::of_word("synthetic-implementation"@) == Some(
            AssociatedItemKind::AutoImplementation,
        ),
        AssociatedItemKind::of_word("required-method"@) == Some(AssociatedItemKind::RequiredMethod),
        AssociatedItemKind::of_word("required-associated-type"@) == Some(
            AssociatedItemKind::RequiredAssocType,
        ),
        AssociatedItemKind::of_word("required-associated-const"@) == Some(
            AssociatedItemKind::RequiredAssocConst,
        ),
        AssociatedItemKind::of_word("provided-method"@) == Some(AssociatedItemKind::ProvidedMethod),
        AssociatedItemKind::of_word("implementor"@) == Some(AssociatedItemKind::Implementor),
        AssociatedItemKind::of_word("trait-implementation"@) == Some(
            AssociatedItemKind::TraitImplementation,
        ),
        AssociatedItemKind::of_word("blanket-implementation"@) == Some(
            AssociatedItemKind::BlanketImplementation,
        ),
        AssociatedItemKind::of_word("associatedconstant"@) == Some(
            AssociatedItemKind::AssocConstant,
        ),
        AssociatedItemKind::of_word("deref-method"@) == Some(AssociatedItemKind::DerefMethod),
{
    reveal_strlit("const");
    reveal_strlit("constant");
    reveal_strlit("field");
    reveal_strlit("structfield");
    reveal_strlit("declaration");
    reveal_strlit("item-decl");
    reveal_strlit("decl");
    reveal_strlit("provided-associated-constant");
    reveal_strlit("provided-associated-const");
    reveal_strlit("provided-assoc-const");
    reveal_strlit("variant");
    reveal_strlit("method");
    reveal_strlit("implementation");
    reveal_strlit("implementations-list");
    reveal_strlit("auto");
    reveal_strlit("synthetic-implementation");
    reveal_strlit("synthetic-implementations-list");
    reveal_strlit("required-method");
    reveal_strlit("required-methods-list");
    reveal_strlit("required");
    reveal_strlit("required-associated-type");
    reveal_strlit("required-associated-types-list");
    reveal_strlit("required-associated-constant");
    reveal_strlit("required-associated-const");
    reveal_strlit("required-associated-consts-list");
    reveal_strlit("provided-method");
    reveal_strlit("provided-methods-list");
    reveal_strlit("provided");
    reveal_strlit("implementor");
    reveal_strlit("implementors-list");
    reveal_strlit("trait-implementation");
    reveal_strlit("trait-implementations-list");
    reveal_strlit("trait");
    reveal_strlit("blanket-implementation");
    reveal_strlit("blanket-implementations-list");
    reveal_strlit("blanket");
    reveal_strlit("associatedconstant");
    reveal_strlit("associated");
    reveal_strlit("deref-method");
    reveal_strlit("deref-methods-");
    assert("const"@.len() == 5);
    assert("constant"@.len() == 8);
    assert("field"@.len() == 5);
    assert("structfield"@.len() == 11);
    assert("declaration"@.len() == 11);
    assert("item-decl"@.len() == 9);
    assert("decl"@.len() == 4);
    assert("provided-associated-constant"@.len() == 28);
    assert("provided-associated-const"@.len() == 25);
    assert("provided-assoc-const"@.len() == 20);
    assert("variant"@.len() == 7);
    assert("method"@.len() == 6);
    assert("implementation"@.len() == 14);
    assert("implementations-list"@.len() == 20);
    assert("auto"@.len() == 4);
    assert("synthetic-implementation"@.len() == 24);
    assert("synthetic-implementations-list"@.len() == 30);
    assert("required-method"@.len() == 15);
    assert("required-methods-list"@.len() == 21);
    assert("required"@.len() == 8);
    assert("required-associated-type"@.len() == 24);
    assert("required-associated-types-list"@.len() == 30);
    assert("required-associated-constant"@.len() == 28);
    assert("required-associated-const"@.len() == 25);
    assert("required-associated-consts-list"@.len() == 31);
    assert("provided-method"@.len() == 15);
    assert("provided-methods-list"@.len() == 21);
    assert("provided"@.len() == 8);
    assert("implementor"@.len() == 11);
    assert("implementors-list"@.len() == 17);
    assert("trait-implementation"@.len() == 20);
    assert("trait-implementations-list"@.len() == 26);
    assert("trait"@.len() == 5);
    assert("blanket-implementation"@.len() == 22);
    assert("blanket-implementations-list"@.len() == 28);
    assert("blanket"@.len() == 7);
    assert("associatedconstant"@.len() == 18);
    assert("associated"@.len() == 10);
    assert("deref-method"@.len() == 12);
    assert("deref-methods-"@.len() == 14);
    assert("const"@[0] == 'c' && "field"@[0] == 'f' && "trait"@[0] == 't');
    assert("field"@[0] == 'f' && "const"@[0] == 'c' && "trait"@[0] == 't');
    assert("provided-assoc-const"@[0] == 'p' && "implementations-list"@[0] == 'i'
        && "trait-implementation"@[0] == 't' && "deref-methods-"@[0] == 'd'
        && "provided-assoc-const"@.subrange(0, 14)[0] == "provided-assoc-const"@[0]);
    assert("variant"@[0] == 'v' && "blanket"@[0] == 'b');
    assert("implementation"@[0] == 'i' && "deref-methods-"@[0] == 'd'
        && "implementation"@.subrange(0, 14)[0] == "implementation"@[0]);
    assert("synthetic-implementation"@[0] == 's' && "required-associated-type"@[0] == 'r'
        && "deref-methods-"@[0] == 'd'
        && "synthetic-implementation"@.subrange(0, 14)[0] == "synthetic-implementation"@[0]);
    assert("required-method"@[0] == 'r' && "provided-method"@[0] == 'p'
        && "deref-methods-"@[0] == 'd'
        && "required-method"@.subrange(0, 14)[0] == "required-method"@[0]);
    assert("required-associated-type"@[0] == 'r' && "synthetic-implementation"@[0] == 's'
        && "deref-methods-"@[0] == 'd'
        && "required-associated-type"@.subrange(0, 14)[0] == "required-associated-type"@[0]);
    assert("required-associated-const"@[0] == 'r' && "provided-associated-const"@[0] == 'p'
        && "deref-methods-"@[0] == 'd'
        && "required-associated-const"@.subrange(0, 14)[0] == "required-associated-const"@[0]);
    assert("provided-method"@[0] == 'p' && "required-method"@[0] == 'r'
        && "deref-methods-"@[0] == 'd'
        && "provided-method"@.subrange(0, 14)[0] == "provided-method"@[0]);
    assert("implementor"@[0] == 'i' && "structfield"@[0] == 's' && "declaration"@[0] == 'd');
    assert("trait-implementation"@[0] == 't' && "provided-assoc-const"@[0] == 'p'
        && "implementations-list"@[0] == 'i' && "deref-methods-"@[0] == 'd'
        && "trait-implementation"@.subrange(0, 14)[0] == "trait-implementation"@[0]);
    assert("blanket-implementation"@[0] == 'b' && "deref-methods-"@[0] == 'd'
        && "blanket-implementation"@.subrange(0, 14)[0] == "blanket-implementation"@[0]);
    assert("associatedconstant"@[0] == 'a' && "deref-methods-"@[0] == 'd'
        && "associatedconstant"@.subrange(0, 14)[0] == "associatedconstant"@[0]);
}

/// What the words that the headings of the kinds of member are made of
/// stand for in the vocabulary.
proof fn lemma_member_words()
    ensures
        AssociatedItemKind::of_word("constant"@) == Some(AssociatedItemKind::Constant),
        AssociatedItemKind::of_word("item"@) is None,
        AssociatedItemKind::of_word("provided"@) == Some(AssociatedItemKind::ProvidedMethod),
        AssociatedItemKind::of_word("method"@) == Some(AssociatedItemKind::Method),
        AssociatedItemKind::of_word("auto"@) == Some(AssociatedItemKind::AutoImplementation),
        AssociatedItemKind::of_word("required"@) == Some(AssociatedItemKind::RequiredMethod),
        AssociatedItemKind::of_word("trait"@) == Some(AssociatedItemKind::TraitImplementation),
        AssociatedItemKind::of_word("blanket"@) == Some(AssociatedItemKind::BlanketImplementation),
        AssociatedItemKind::of_word("associated"@) == Some(AssociatedItemKind::AssocConstant),
        AssociatedItemKind::of_word("declaration"@) == Some(AssociatedItemKind::Declaration),
{
    reveal_strlit("const");
    reveal_strlit("constant");
    reveal_strlit("field");
    reveal_strlit("structfield");
    reveal_strlit("declaration");
    reveal_strlit("item-decl");
    reveal_strlit("decl");
    reveal_strlit("provided-associated-constant");
    reveal_strlit("provided-associated-const");
    reveal_strlit("provided-assoc-const");
    reveal_strlit("variant");
    reveal_strlit("method");
    reveal_strlit("implementation");
    reveal_strlit("implementations-list");
    reveal_strlit("auto");
    reveal_strlit("synthetic-implementation");
    reveal_strlit("synthetic-implementations-list");
    reveal_strlit("required-method");
    reveal_strlit("required-methods-list");
    reveal_strlit("required");
    reveal_strlit("required-associated-type");
    reveal_strlit("required-associated-types-list");
    reveal_strlit("required-associated-constant");
    reveal_strlit("required-associated-const");
    reveal_strlit("required-associated-consts-list");
    reveal_strlit("provided-method");
    reveal_strlit("provided-methods-list");
    reveal_strlit("provided");
    reveal_strlit("implementor");
    reveal_strlit("implementors-list");
    reveal_strlit("trait-implementation");
    reveal_strlit("trait-implementations-list");
    reveal_strlit("trait");
    reveal_strlit("blanket-implementation");
    reveal_strlit("blanket-implementations-list");
    reveal_strlit("blanket");
    reveal_strlit("associatedconstant");
    reveal_strlit("associated");
    reveal_strlit("deref-method");
    reveal_strlit("deref-methods-");
    reveal_strlit("item");
    assert("const"@.len() == 5);
    assert("constant"@.len() == 8);
    assert("field"@.len() == 5);
    assert("structfield"@.len() == 11);
    assert("declaration"@.len() == 11);
    assert("item-decl"@.len() == 9);
    assert("decl"@.len() == 4);
    assert("provided-associated-constant"@.len() == 28);
    assert("provided-associated-const"@.len() == 25);
    assert("provided-assoc-const"@.len() == 20);
    assert("variant"@.len() == 7);
    assert("method"@.len() == 6);
    assert("implementation"@.len() == 14);
    assert("implementations-list"@.len() == 20);
    assert("auto"@.len() == 4);
    assert("synthetic-implementation"@.len() == 24);
    assert("synthetic-implementations-list"@.len() == 30);
    assert("required-method"@.len() == 15);
    assert("required-methods-list"@.len() == 21);
    assert("required"@.len() == 8);
    assert("required-associated-type"@.len() == 24);
    assert("required-associated-types-list"@.len() == 30);
    assert("required-associated-constant"@.len() == 28);
    assert("required-associated-const"@.len() == 25);
    assert("required-associated-consts-list"@.len() == 31);
    assert("provided-method"@.len() == 15);
    assert("provided-methods-list"@.len() == 21);
    assert("provided"@.len() == 8);
    assert("implementor"@.len() == 11);
    assert("implementors-list"@.len() == 17);
    assert("trait-implementation"@.len() == 20);
    assert("trait-implementations-list"@.len() == 26);
    assert("trait"@.len() == 5);
    assert("blanket-implementation"@.len() == 22);
    assert("blanket-implementations-list"@.len() == 28);
    assert("blanket"@.len() == 7);
    assert("associatedconstant"@.len() == 18);
    assert("associated"@.len() == 10);
    assert("deref-method"@.len() == 12);
    assert("deref-methods-"@.len() == 14);
    assert("item"@.len() == 4);
    assert("constant"@[0] == 'c' && "required"@[0] == 'r' && "provided"@[0] == 'p');
    assert("item"@[0] == 'i' && "decl"@[0] == 'd' && "auto"@[0] == 'a');
    assert("provided"@[0] == 'p' && "constant"@[0] == 'c' && "required"@[0] == 'r');
    assert("auto"@[0] == 'a' && "decl"@[0] == 'd');
    assert("required"@[0] == 'r' && "constant"@[0] == 'c' && "provided"@[0] == 'p');
    assert("trait"@[0] == 't' && "const"@[0] == 'c' && "field"@[0] == 'f');
    assert("blanket"@[0] == 'b' && "variant"@[0] == 'v');
    assert("declaration"@[0] == 'd' && "structfield"@[0] == 's' && "implementor"@[0] == 'i');
}

/// The keyword of a kind of module item is a word of lowercase letters.
pub proof fn lemma_module_keyword_letters(k: ModuleItemKind)
    ensures
        k.keyword().len() > 0,
        forall|i: int| 0 <= i < k.keyword().len() ==> 'a' <= #[trigger] k.keyword()[i] <= 'z',
{
    reveal_strlit("mod");
    reveal_strlit("keyword");
    reveal_strlit("struct");
    reveal_strlit("enum");
    reveal_strlit("union");
    reveal_strlit("primitive");
    reveal_strlit("trait");
    reveal_strlit("macro");
    reveal_strlit("attr");
    reveal_strlit("derive");
    reveal_strlit("fn");
    reveal_strlit("type");
    reveal_strlit("constant");
}

/// The classifier finds no kind of module item in `html`.
pub proof fn lemma_html_names_no_kind()
    ensures
        ModuleItemKind::classify("html"@) is None,
{
    reveal_strlit("html");
    reveal_with_fuel(ModuleItemKind::first_known, 2);
    lemma_module_words();
    let w = "html"@;
    assert(ascii_lowercase(w) =~= w);
    lemma_one_word(w, w);
}

/// The classifier finds each kind of module item in the kind's keyword, and
/// in the plural of it.
pub proof fn lemma_module_keyword_round_trip(k: ModuleItemKind)
    ensures
        ModuleItemKind::classify(k.keyword()) == Some(k),
        ModuleItemKind::classify(k.keyword().push('s')) == Some(k),
{
    reveal_strlit("mod");
    reveal_strlit("keyword");
    reveal_strlit("struct");
    reveal_strlit("enum");
    reveal_strlit("union");
    reveal_strlit("primitive");
    reveal_strlit("trait");
    reveal_strlit("macro");
    reveal_strlit("attr");
    reveal_strlit("derive");
    reveal_strlit("fn");
    reveal_strlit("type");
    reveal_strlit("constant");
    lemma_module_words();
    let w = k.keyword();
    assert(ascii_lowercase(w) =~= w);
    lemma_one_word(w, w);
    assert(ModuleItemKind::of_word(w) == Some(k));
}

/// The classifier finds each kind of module item in the heading that the
/// kind goes by, and in the plural of it.
pub proof fn lemma_module_human_round_trip(k: ModuleItemKind)
    ensures
        ModuleItemKind::classify(k.human()) == Some(k),
        ModuleItemKind::classify(k.human().push('s')) == Some(k),
{
    lemma_module_words();
    let h = k.human();
    match k {
        ModuleItemKind::Module => {
            reveal_strlit("Module");
            reveal_strlit("module");
            assert(ascii_lowercase(h) =~= "module"@);
            lemma_one_word(h, "module"@);
        },
        ModuleItemKind::Keyword => {
            reveal_strlit("Keyword");
            reveal_strlit("keyword");
            assert(ascii_lowercase(h) =~= "keyword"@);
            lemma_one_word(h, "keyword"@);
        },
        ModuleItemKind::Struct => {
            reveal_strlit("Struct");
            reveal_strlit("struct");
            assert(ascii_lowercase(h) =~= "struct"@);
            lemma_one_word(h, "struct"@);
        },
        ModuleItemKind::Enum => {
            reveal_strlit("Enum");
            reveal_strlit("enum");
            assert(ascii_lowercase(h) =~= "enum"@);
            lemma_one_word(h, "enum"@);
        },
        ModuleItemKind::Union => {
            reveal_strlit("Union");
            reveal_strlit("union");
            assert(ascii_lowercase(h) =~= "union"@);
            lemma_one_word(h, "union"@);
        },
        ModuleItemKind::PrimitiveType => {
            reveal_strlit("Primitive Type");
            reveal_strlit("primitive");
            assert(ascii_lowercase(h.take(9)) =~= "primitive"@);
            lemma_leading_word(h, 9, "primitive"@);
            assert(singular("primitive"@) == "primitive"@);
        },
        ModuleItemKind::Trait => {
            reveal_strlit("Trait");
            reveal_strlit("trait");
            assert(ascii_lowercase(h) =~= "trait"@);
            lemma_one_word(h, "trait"@);
        },
        ModuleItemKind::Macro => {
            reveal_strlit("Macro");
            reveal_strlit("macro");
            assert(ascii_lowercase(h) =~= "macro"@);
            lemma_one_word(h, "macro"@);
        },
        ModuleItemKind::AttributeMacro => {
            reveal_strlit("Attribute Macro");
            reveal_strlit("attribute");
            assert(ascii_lowercase(h.take(9)) =~= "attribute"@);
            lemma_leading_word(h, 9, "attribute"@);
            assert(singular("attribute"@) == "attribute"@);
        },
        ModuleItemKind::DeriveMacro => {
            reveal_strlit("Derive Macro");
            reveal_strlit("derive");
            assert(ascii_lowercase(h.take(6)) =~= "derive"@);
            lemma_leading_word(h, 6, "derive"@);
            assert(singular("derive"@) == "derive"@);
        },
        ModuleItemKind::Function => {
            reveal_strlit("Function");
            reveal_strlit("function");
            assert(ascii_lowercase(h) =~= "function"@);
            lemma_one_word(h, "function"@);
        },
        ModuleItemKind::TypeDefinition => {
            reveal_strlit("Type Definition");
            reveal_strlit("type");
            assert(ascii_lowercase(h.take(4)) =~= "type"@);
            lemma_leading_word(h, 4, "type"@);
            assert(singular("type"@) == "type"@);
        },
        ModuleItemKind::Constant => {
            reveal_strlit("Constant");
            reveal_strlit("constant");
            assert(ascii_lowercase(h) =~= "constant"@);
            lemma_one_word(h, "constant"@);
        },
    }
}

/// The classifier finds each kind of member in the kind's keyword, and in
/// the plural of it.
pub proof fn lemma_member_keyword_round_trip(k: AssociatedItemKind)
    ensures
        AssociatedItemKind::classify(k.keyword()) == Some(k),
        AssociatedItemKind::classify(k.keyword().push('s')) == Some(k),
{
    reveal_strlit("const");
    reveal_strlit("field");
    reveal_strlit("item-decl");
    reveal_strlit("provided-assoc-const");
    reveal_strlit("variant");
    reveal_strlit("implementation");
    reveal_strlit("synthetic-implementation");
    reveal_strlit("required-method");
    reveal_strlit("required-associated-type");
    reveal_strlit("required-associated-const");
    reveal_strlit("provided-method");
    reveal_strlit("implementor");
    reveal_strlit("trait-implementation");
    reveal_strlit("blanket-implementation");
    reveal_strlit("associatedconstant");
    reveal_strlit("deref-method");
    lemma_member_keywords();
    let w = k.keyword();
    assert(ascii_lowercase(w) =~= w);
    lemma_one_word(w, w);
    assert(AssociatedItemKind::of_word(w) == Some(k));
}

/// Whether the heading of a kind of member has a word that the vocabulary
/// can give to that kind alone. Four headings have none: the word `method`
/// of `Methods from` is that of `Method`, and the headings that begin with
/// `Required` or `Provided` share that word, which stands for the methods.
pub open spec fn heading_names_member(k: AssociatedItemKind) -> bool {
    k != AssociatedItemKind::ProvidedAssocConst && k != AssociatedItemKind::RequiredAssocType && k
        != AssociatedItemKind::RequiredAssocConst && k != AssociatedItemKind::DerefMethod
}

/// The kind of member that the classifier finds in the heading that a kind
/// goes by: the kind itself, but for the four headings whose first known
/// word is that of another kind.
pub open spec fn member_heading_kind(k: AssociatedItemKind) -> AssociatedItemKind {
    match k {
        AssociatedItemKind::ProvidedAssocConst => AssociatedItemKind::ProvidedMethod,
        AssociatedItemKind::RequiredAssocType => AssociatedItemKind::RequiredMethod,
        AssociatedItemKind::RequiredAssocConst => AssociatedItemKind::RequiredMethod,
        AssociatedItemKind::DerefMethod => AssociatedItemKind::Method,
        _ => k,
    }
}

/// The classifier finds in the heading of each kind of member, and in the
/// plural of it, the kind of the first word of the heading that is in the
/// vocabulary.
pub proof fn lemma_member_heading_names(k: AssociatedItemKind)
    ensures
        AssociatedItemKind::classify(k.human()) == Some(member_heading_kind(k)),
        AssociatedItemKind::classify(k.human().push('s')) == Some(member_heading_kind(k)),
{
    lemma_member_keywords();
    lemma_member_words();
    let h = k.human();
    match k {
        AssociatedItemKind::Constant => {
            reveal_strlit("Constant");
            reveal_strlit("constant");
            assert(ascii_lowercase(h) =~= "constant"@);
            lemma_one_word(h, "constant"@);
        },
        AssociatedItemKind::Field => {
            reveal_strlit("Field");
            reveal_strlit("field");
            assert(ascii_lowercase(h) =~= "field"@);
            lemma_one_word(h, "field"@);
        },
        AssociatedItemKind::Declaration => {
            reveal_strlit("Item Declaration");
            reveal_strlit("item");
            reveal_strlit("declaration");
            reveal_with_fuel(AssociatedItemKind::first_known, 3);
            assert(ascii_lowercase(h.take(4)) =~= "item"@);
            assert(ascii_lowercase(h.skip(5)) =~= "declaration"@);
            lemma_two_words(h, 4, "item"@, "declaration"@);
            assert(singular("item"@) == "item"@);
        },
        AssociatedItemKind::ProvidedAssocConst => {
            reveal_strlit("Provided Associated Constant");
            reveal_strlit("provided");
            assert(ascii_lowercase(h.take(8)) =~= "provided"@);
            lemma_leading_word(h, 8, "provided"@);
            assert(singular("provided"@) == "provided"@);
        },
        AssociatedItemKind::Variant => {
            reveal_strlit("Variant");
            reveal_strlit("variant");
            assert(ascii_lowercase(h) =~= "variant"@);
            lemma_one_word(h, "variant"@);
        },
        AssociatedItemKind::Method => {
            reveal_strlit("Method");
            reveal_strlit("method");
            assert(ascii_lowercase(h) =~= "method"@);
            lemma_one_word(h, "method"@);
        },
        AssociatedItemKind::AutoImplementation => {
            reveal_strlit("Auto Trait Implementation");
            reveal_strlit("auto");
            assert(ascii_lowercase(h.take(4)) =~= "auto"@);
            lemma_leading_word(h, 4, "auto"@);
            assert(singular("auto"@) == "auto"@);
        },
        AssociatedItemKind::RequiredMethod => {
            reveal_strlit("Required Method");
            reveal_strlit("required");
            assert(ascii_lowercase(h.take(8)) =~= "required"@);
            lemma_leading_word(h, 8, "required"@);
            assert(singular("required"@) == "required"@);
        },
        AssociatedItemKind::RequiredAssocType => {
            reveal_strlit("Required Associated Type");
            reveal_strlit("required");
            assert(ascii_lowercase(h.take(8)) =~= "required"@);
            lemma_leading_word(h, 8, "required"@);
            assert(singular("required"@) == "required"@);
        },
        AssociatedItemKind::RequiredAssocConst => {
            reveal_strlit("Required Associated Constant");
            reveal_strlit("required");
            assert(ascii_lowercase(h.take(8)) =~= "required"@);
            lemma_leading_word(h, 8, "required"@);
            assert(singular("required"@) == "required"@);
        },
        AssociatedItemKind::ProvidedMethod => {
            reveal_strlit("Provided Method");
            reveal_strlit("provided");
            assert(ascii_lowercase(h.take(8)) =~= "provided"@);
            lemma_leading_word(h, 8, "provided"@);
            assert(singular("provided"@) == "provided"@);
        },
        AssociatedItemKind::Implementor => {
            reveal_strlit("Implementor");
            reveal_strlit("implementor");
            assert(ascii_lowercase(h) =~= "implementor"@);
            lemma_one_word(h, "implementor"@);
        },
        AssociatedItemKind::TraitImplementation => {
            reveal_strlit("Trait Implementation");
            reveal_strlit("trait");
            assert(ascii_lowercase(h.take(5)) =~= "trait"@);
            lemma_leading_word(h, 5, "trait"@);
            assert(singular("trait"@) == "trait"@);
        },
        AssociatedItemKind::BlanketImplementation => {
            reveal_strlit("Blanket Implementation");
            reveal_strlit("blanket");
            assert(ascii_lowercase(h.take(7)) =~= "blanket"@);
            lemma_leading_word(h, 7, "blanket"@);
            assert(singular("blanket"@) == "blanket"@);
        },
        AssociatedItemKind::AssocConstant => {
            reveal_strlit("Associated Constant");
            reveal_strlit("associated");
            assert(ascii_lowercase(h.take(10)) =~= "associated"@);
            lemma_leading_word(h, 10, "associated"@);
            assert(singular("associated"@) == "associated"@);
        },
        AssociatedItemKind::DerefMethod => {
            reveal_strlit("Methods from");
            reveal_strlit("methods");
            assert(ascii_lowercase(h.take(7)) =~= "methods"@);
            lemma_leading_word(h, 7, "methods"@);
            reveal_strlit("method");
            assert(singular("methods"@) =~= "method"@);
        },
    }
}

/// The classifier finds a kind of member in the heading that the kind goes
/// by, and in the plural of it, for each kind whose heading has a word of
/// its own.
pub proof fn lemma_member_human_round_trip(k: AssociatedItemKind)
    requires
        heading_names_member(k),
    ensures
        AssociatedItemKind::classify(k.human()) == Some(k),
        AssociatedItemKind::classify(k.human().push('s')) == Some(k),
{
    lemma_member_heading_names(k);
}

} // verus!
