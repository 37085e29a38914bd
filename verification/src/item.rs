//! The kinds of item that a module holds and the kinds of member that a
//! struct, enum or trait owns, with the classifier that recognises a kind in
//! a heading, a keyword or an element identifier.

use crate::text::{chars_of, lower, spells, split_words, to_lowercase, words};
use vstd::prelude::*;

verus! {

/// A word without its plural ending: a last `s` is dropped.
pub open spec fn singular(w: Seq<char>) -> Seq<char> {
    if w.len() > 0 && w.last() == 's' {
        w.drop_last()
    } else {
        w
    }
}

/// The length of the singular form of the word `w`.
fn singular_len(w: &Vec<char>) -> (n: usize)
    ensures
        n <= w.len(),
        w@.take(n as int) == singular(w@),
{
    let n = w.len();
    if n > 0 && w[n - 1] == 's' {
        n - 1
    } else {
        assert(w@.take(n as int) =~= w@);
        n
    }
}

/// The kinds of module item, each at the place of its ordinal.
pub const MODULE_ITEM_KINDS: [ModuleItemKind; 13] = [
    ModuleItemKind::Module,
    ModuleItemKind::Keyword,
    ModuleItemKind::Struct,
    ModuleItemKind::Enum,
    ModuleItemKind::Union,
    ModuleItemKind::PrimitiveType,
    ModuleItemKind::Trait,
    ModuleItemKind::Macro,
    ModuleItemKind::AttributeMacro,
    ModuleItemKind::DeriveMacro,
    ModuleItemKind::Function,
    ModuleItemKind::TypeDefinition,
    ModuleItemKind::Constant,
];

/// An item associated with a module.
#[derive(Debug, Clone, Copy, PartialEq, Eq, Hash, Structural)]
pub enum ModuleItemKind {
    Module,
    Keyword,
    Struct,
    Enum,
    Union,
    PrimitiveType,
    Trait,
    Macro,
    AttributeMacro,
    DeriveMacro,
    Function,
    TypeDefinition,
    Constant,
}

impl ModuleItemKind {
    /// The kind that a single word of the vocabulary stands for: the
    /// keyword of a kind, and the first word of the heading that it goes by.
    pub open spec fn of_word(w: Seq<char>) -> Option<Self> {
        if w == "module"@ || w == "mod"@ {
            Some(Self::Module)
        } else if w == "keyword"@ {
            Some(Self::Keyword)
        } else if w == "struct"@ {
            Some(Self::Struct)
        } else if w == "enum"@ {
            Some(Self::Enum)
        } else if w == "union"@ {
            Some(Self::Union)
        } else if w == "primitive"@ {
            Some(Self::PrimitiveType)
        } else if w == "trait"@ {
            Some(Self::Trait)
        } else if w == "macro"@ {
            Some(Self::Macro)
        } else if w == "attribute"@ || w == "attr"@ {
            Some(Self::AttributeMacro)
        } else if w == "derive"@ {
            Some(Self::DeriveMacro)
        } else if w == "function"@ || w == "fn"@ {
            Some(Self::Function)
        } else if w == "type"@ {
            Some(Self::TypeDefinition)
        } else if w == "constant"@ {
            Some(Self::Constant)
        } else {
            None
        }
    }

    /// The kind of the first of `ws[from..]` whose singular form is in the
    /// vocabulary.
    pub open spec fn first_known(ws: Seq<Seq<char>>, from: int) -> Option<Self>
        decreases ws.len() - from,
    {
        if from >= ws.len() {
            None
        } else {
            match Self::of_word(singular(ws[from])) {
                Some(k) => Some(k),
                None => Self::first_known(ws, from + 1),
            }
        }
    }

    /// The kind that a text names: that of the first word of its lowercase
    /// form that is in the vocabulary, a plural `s` apart.
    pub open spec fn classify(s: Seq<char>) -> Option<Self> {
        Self::first_known(words(lower(s)), 0)
    }

    /// The keyword of the kind, as it stands in file names.
    pub open spec fn keyword(self) -> Seq<char> {
        match self {
            Self::Module => "mod"@,
            Self::Keyword => "keyword"@,
            Self::Struct => "struct"@,
            Self::Enum => "enum"@,
            Self::Union => "union"@,
            Self::PrimitiveType => "primitive"@,
            Self::Trait => "trait"@,
            Self::Macro => "macro"@,
            Self::AttributeMacro => "attr"@,
            Self::DeriveMacro => "derive"@,
            Self::Function => "fn"@,
            Self::TypeDefinition => "type"@,
            Self::Constant => "constant"@,
        }
    }

    /// The name of the kind as a reader sees it in a heading.
    pub open spec fn human(self) -> Seq<char> {
        match self {
            Self::Module => "Module"@,
            Self::Keyword => "Keyword"@,
            Self::Struct => "Struct"@,
            Self::Enum => "Enum"@,
            Self::Union => "Union"@,
            Self::PrimitiveType => "Primitive Type"@,
            Self::Trait => "Trait"@,
            Self::Macro => "Macro"@,
            Self::AttributeMacro => "Attribute Macro"@,
            Self::DeriveMacro => "Derive Macro"@,
            Self::Function => "Function"@,
            Self::TypeDefinition => "Type Definition"@,
            Self::Constant => "Constant"@,
        }
    }

    /// The place of the kind in the order of its declaration, from 0.
    pub open spec fn ordinal(self) -> nat {
        match self {
            Self::Module => 0,
            Self::Keyword => 1,
            Self::Struct => 2,
            Self::Enum => 3,
            Self::Union => 4,
            Self::PrimitiveType => 5,
            Self::Trait => 6,
            Self::Macro => 7,
            Self::AttributeMacro => 8,
            Self::DeriveMacro => 9,
            Self::Function => 10,
            Self::TypeDefinition => 11,
            Self::Constant => 12,
        }
    }

    /// Looks the first `n` characters of `w` up in the vocabulary.
    fn lookup(w: &Vec<char>, n: usize) -> (res: Option<Self>)
        requires
            n <= w.len(),
        ensures
            res == Self::of_word(w@.take(n as int)),
    {
        if spells(w, 0, n, "module") || spells(w, 0, n, "mod") {
            Some(Self::Module)
        } else if spells(w, 0, n, "keyword") {
            Some(Self::Keyword)
        } else if spells(w, 0, n, "struct") {
            Some(Self::Struct)
        } else if spells(w, 0, n, "enum") {
            Some(Self::Enum)
        } else if spells(w, 0, n, "union") {
            Some(Self::Union)
        } else if spells(w, 0, n, "primitive") {
            Some(Self::PrimitiveType)
        } else if spells(w, 0, n, "trait") {
            Some(Self::Trait)
        } else if spells(w, 0, n, "macro") {
            Some(Self::Macro)
        } else if spells(w, 0, n, "attribute") || spells(w, 0, n, "attr") {
            Some(Self::AttributeMacro)
        } else if spells(w, 0, n, "derive") {
            Some(Self::DeriveMacro)
        } else if spells(w, 0, n, "function") || spells(w, 0, n, "fn") {
            Some(Self::Function)
        } else if spells(w, 0, n, "type") {
            Some(Self::TypeDefinition)
        } else if spells(w, 0, n, "constant") {
            Some(Self::Constant)
        } else {
            None
        }
    }

    /// Parse a module item kind from either human-readable form
    /// (e.g. `Primitive Type`) or keyword form (e.g. `primitive`).
    pub fn parse(s: &str) -> (res: Option<Self>)
        ensures
            res == Self::classify(s@),
    {
        let lowered = to_lowercase(s);
        let chars = chars_of(lowered.as_str());
        let ws = split_words(&chars);
        let mut i: usize = 0;
        while i < ws.len()
            invariant
                i <= ws.len(),
                ws@.len() == words(lower(s@)).len(),
                forall|k: int| 0 <= k < ws@.len() ==> (#[trigger] ws@[k])@ == words(lower(s@))[k],
                Self::classify(s@) == Self::first_known(words(lower(s@)), i as int),
            decreases ws.len() - i,
        {
            let n = singular_len(&ws[i]);
            match Self::lookup(&ws[i], n) {
                Some(k) => {
                    return Some(k);
                },
                None => {},
            }
            i += 1;
        }
        None
    }

    /// The keyword of the kind.
    pub fn to_keyword(&self) -> (res: &'static str)
        ensures
            res@ == self.keyword(),
    {
        match self {
            Self::Module => "mod",
            Self::Keyword => "keyword",
            Self::Struct => "struct",
            Self::Enum => "enum",
            Self::Union => "union",
            Self::PrimitiveType => "primitive",
            Self::Trait => "trait",
            Self::Macro => "macro",
            Self::AttributeMacro => "attr",
            Self::DeriveMacro => "derive",
            Self::Function => "fn",
            Self::TypeDefinition => "type",
            Self::Constant => "constant",
        }
    }

    /// The name of the kind as a reader sees it in a heading.
    pub fn to_human(&self) -> (res: &'static str)
        ensures
            res@ == self.human(),
    {
        match self {
            Self::Module => "Module",
            Self::Keyword => "Keyword",
            Self::Struct => "Struct",
            Self::Enum => "Enum",
            Self::Union => "Union",
            Self::PrimitiveType => "Primitive Type",
            Self::Trait => "Trait",
            Self::Macro => "Macro",
            Self::AttributeMacro => "Attribute Macro",
            Self::DeriveMacro => "Derive Macro",
            Self::Function => "Function",
            Self::TypeDefinition => "Type Definition",
            Self::Constant => "Constant",
        }
    }

    /// The number of module item kinds.
    pub fn len() -> (n: usize)
        ensures
            n == 13,
            forall|k: Self| #[trigger] k.ordinal() < n,
    {
        13
    }

    /// The index of the kind's section in a page: its ordinal.
    pub fn index(&self) -> (i: usize)
        ensures
            i == self.ordinal(),
            i < 13,
    {
        match self {
            Self::Module => 0,
            Self::Keyword => 1,
            Self::Struct => 2,
            Self::Enum => 3,
            Self::Union => 4,
            Self::PrimitiveType => 5,
            Self::Trait => 6,
            Self::Macro => 7,
            Self::AttributeMacro => 8,
            Self::DeriveMacro => 9,
            Self::Function => 10,
            Self::TypeDefinition => 11,
            Self::Constant => 12,
        }
    }
}

/// The kinds of member, each at the place of its ordinal.
pub const ASSOCIATED_ITEM_KINDS: [AssociatedItemKind; 16] = [
    AssociatedItemKind::Constant,
    AssociatedItemKind::Field,
    AssociatedItemKind::Declaration,
    AssociatedItemKind::ProvidedAssocConst,
    AssociatedItemKind::Variant,
    AssociatedItemKind::Method,
    AssociatedItemKind::AutoImplementation,
    AssociatedItemKind::RequiredMethod,
    AssociatedItemKind::RequiredAssocType,
    AssociatedItemKind::RequiredAssocConst,
    AssociatedItemKind::ProvidedMethod,
    AssociatedItemKind::Implementor,
    AssociatedItemKind::TraitImplementation,
    AssociatedItemKind::BlanketImplementation,
    AssociatedItemKind::AssocConstant,
    AssociatedItemKind::DerefMethod,
];

/// An item associated with a struct, enum, or trait.
#[derive(Debug, Clone, Copy, PartialEq, Eq, Hash, Structural)]
pub enum AssociatedItemKind {
    Constant,
    Field,
    Declaration,
    ProvidedAssocConst,
    Variant,
    Method,
    AutoImplementation,
    RequiredMethod,
    RequiredAssocType,
    RequiredAssocConst,
    ProvidedMethod,
    Implementor,
    TraitImplementation,
    BlanketImplementation,
    AssocConstant,
    DerefMethod,
}

impl AssociatedItemKind {
    /// The kind that a single word of the vocabulary stands for: the
    /// keyword of a kind, the identifier of its section, or the word of its
    /// heading that tells it from the other kinds. Several headings begin
    /// with `Required` and with `Provided`; those words stand for the
    /// methods. A word that begins with `deref-methods-` stands for the
    /// methods that a type has through `Deref`, whatever follows.
    pub open spec fn of_word(w: Seq<char>) -> Option<Self> {
        if w == "const"@ || w == "constant"@ {
            Some(Self::Constant)
        } else if w == "field"@ || w == "structfield"@ {
            Some(Self::Field)
        } else if w == "declaration"@ || w == "item-decl"@ || w == "decl"@ {
            Some(Self::Declaration)
        } else if w == "provided-associated-constant"@
            || w == "provided-associated-const"@
            || w == "provided-assoc-const"@
        {
            Some(Self::ProvidedAssocConst)
        } else if w == "variant"@ {
            Some(Self::Variant)
        } else if w == "method"@ || w == "implementation"@ || w == "implementations-list"@ {
            Some(Self::Method)
        } else if w == "auto"@
            || w == "synthetic-implementation"@
            || w == "synthetic-implementations-list"@
        {
            Some(Self::AutoImplementation)
        } else if w == "required-method"@ || w == "required-methods-list"@ || w == "required"@ {
            Some(Self::RequiredMethod)
        } else if w == "required-associated-type"@ || w == "required-associated-types-list"@ {
            Some(Self::RequiredAssocType)
        } else if w == "required-associated-constant"@
            || w == "required-associated-const"@
            || w == "required-associated-consts-list"@
        {
            Some(Self::RequiredAssocConst)
        } else if w == "provided-method"@ || w == "provided-methods-list"@ || w == "provided"@ {
            Some(Self::ProvidedMethod)
        } else if w == "implementor"@ || w == "implementors-list"@ {
            Some(Self::Implementor)
        } else if w == "trait-implementation"@
            || w == "trait-implementations-list"@
            || w == "trait"@
        {
            Some(Self::TraitImplementation)
        } else if w == "blanket-implementation"@
            || w == "blanket-implementations-list"@
            || w == "blanket"@
        {
            Some(Self::BlanketImplementation)
        } else if w == "associatedconstant"@ || w == "associated"@ {
            Some(Self::AssocConstant)
        } else if w == "deref-method"@ {
            Some(Self::DerefMethod)
        } else if "deref-methods-"@.is_prefix_of(w) {
            Some(Self::DerefMethod)
        } else {
            None
        }
    }

    /// The kind of the first of `ws[from..]` whose singular form is in the
    /// vocabulary.
    pub open spec fn first_known(ws: Seq<Seq<char>>, from: int) -> Option<Self>
        decreases ws.len() - from,
    {
        if from >= ws.len() {
            None
        } else {
            match Self::of_word(singular(ws[from])) {
                Some(k) => Some(k),
                None => Self::first_known(ws, from + 1),
            }
        }
    }

    /// The kind that a text names: that of the first word of its lowercase
    /// form that is in the vocabulary, a plural `s` apart.
    pub open spec fn classify(s: Seq<char>) -> Option<Self> {
        Self::first_known(words(lower(s)), 0)
    }

    /// The keyword of the kind, as it stands in element identifiers.
    pub open spec fn keyword(self) -> Seq<char> {
        match self {
            Self::Constant => "const"@,
            Self::Field => "field"@,
            Self::Declaration => "item-decl"@,
            Self::ProvidedAssocConst => "provided-assoc-const"@,
            Self::Variant => "variant"@,
            Self::Method => "implementation"@,
            Self::AutoImplementation => "synthetic-implementation"@,
            Self::RequiredMethod => "required-method"@,
            Self::RequiredAssocType => "required-associated-type"@,
            Self::RequiredAssocConst => "required-associated-const"@,
            Self::ProvidedMethod => "provided-method"@,
            Self::Implementor => "implementor"@,
            Self::TraitImplementation => "trait-implementation"@,
            Self::BlanketImplementation => "blanket-implementation"@,
            Self::AssocConstant => "associatedconstant"@,
            Self::DerefMethod => "deref-method"@,
        }
    }

    /// The name of the kind as a reader sees it in a heading.
    pub open spec fn human(self) -> Seq<char> {
        match self {
            Self::Constant => "Constant"@,
            Self::Field => "Field"@,
            Self::Declaration => "Item Declaration"@,
            Self::ProvidedAssocConst => "Provided Associated Constant"@,
            Self::Variant => "Variant"@,
            Self::Method => "Method"@,
            Self::AutoImplementation => "Auto Trait Implementation"@,
            Self::RequiredMethod => "Required Method"@,
            Self::RequiredAssocType => "Required Associated Type"@,
            Self::RequiredAssocConst => "Required Associated Constant"@,
            Self::ProvidedMethod => "Provided Method"@,
            Self::Implementor => "Implementor"@,
            Self::TraitImplementation => "Trait Implementation"@,
            Self::BlanketImplementation => "Blanket Implementation"@,
            Self::AssocConstant => "Associated Constant"@,
            Self::DerefMethod => "Methods from"@,
        }
    }

    /// The place of the kind in the order of its declaration, from 0.
    pub open spec fn ordinal(self) -> nat {
        match self {
            Self::Constant => 0,
            Self::Field => 1,
            Self::Declaration => 2,
            Self::ProvidedAssocConst => 3,
            Self::Variant => 4,
            Self::Method => 5,
            Self::AutoImplementation => 6,
            Self::RequiredMethod => 7,
            Self::RequiredAssocType => 8,
            Self::RequiredAssocConst => 9,
            Self::ProvidedMethod => 10,
            Self::Implementor => 11,
            Self::TraitImplementation => 12,
            Self::BlanketImplementation => 13,
            Self::AssocConstant => 14,
            Self::DerefMethod => 15,
        }
    }

    /// Looks the first `n` characters of `w` up in the vocabulary.
    fn lookup(w: &Vec<char>, n: usize) -> (res: Option<Self>)
        requires
            n <= w.len(),
        ensures
            res == Self::of_word(w@.take(n as int)),
    {
        if spells(w, 0, n, "const") || spells(w, 0, n, "constant") {
            Some(Self::Constant)
        } else if spells(w, 0, n, "field") || spells(w, 0, n, "structfield") {
            Some(Self::Field)
        } else if spells(w, 0, n, "declaration")
            || spells(w, 0, n, "item-decl")
            || spells(w, 0, n, "decl")
        {
            Some(Self::Declaration)
        } else if spells(w, 0, n, "provided-associated-constant")
            || spells(w, 0, n, "provided-associated-const")
            || spells(w, 0, n, "provided-assoc-const")
        {
            Some(Self::ProvidedAssocConst)
        } else if spells(w, 0, n, "variant") {
            Some(Self::Variant)
        } else if spells(w, 0, n, "method")
            || spells(w, 0, n, "implementation")
            || spells(w, 0, n, "implementations-list")
        {
            Some(Self::Method)
        } else if spells(w, 0, n, "auto")
            || spells(w, 0, n, "synthetic-implementation")
            || spells(w, 0, n, "synthetic-implementations-list")
        {
            Some(Self::AutoImplementation)
        } else if spells(w, 0, n, "required-method")
            || spells(w, 0, n, "required-methods-list")
            || spells(w, 0, n, "required")
        {
            Some(Self::RequiredMethod)
        } else if spells(w, 0, n, "required-associated-type")
            || spells(w, 0, n, "required-associated-types-list")
        {
            Some(Self::RequiredAssocType)
        } else if spells(w, 0, n, "required-associated-constant")
            || spells(w, 0, n, "required-associated-const")
            || spells(w, 0, n, "required-associated-consts-list")
        {
            Some(Self::RequiredAssocConst)
        } else if spells(w, 0, n, "provided-method")
            || spells(w, 0, n, "provided-methods-list")
            || spells(w, 0, n, "provided")
        {
            Some(Self::ProvidedMethod)
        } else if spells(w, 0, n, "implementor") || spells(w, 0, n, "implementors-list") {
            Some(Self::Implementor)
        } else if spells(w, 0, n, "trait-implementation")
            || spells(w, 0, n, "trait-implementations-list")
            || spells(w, 0, n, "trait")
        {
            Some(Self::TraitImplementation)
        } else if spells(w, 0, n, "blanket-implementation")
            || spells(w, 0, n, "blanket-implementations-list")
            || spells(w, 0, n, "blanket")
        {
            Some(Self::BlanketImplementation)
        } else if spells(w, 0, n, "associatedconstant") || spells(w, 0, n, "associated") {
            Some(Self::AssocConstant)
        } else if spells(w, 0, n, "deref-method") {
            Some(Self::DerefMethod)
        } else if Self::is_deref_list(w, n) {
            Some(Self::DerefMethod)
        } else {
            None
        }
    }

    /// Whether the first `n` characters of `w` begin with `deref-methods-`.
    fn is_deref_list(w: &Vec<char>, n: usize) -> (b: bool)
        requires
            n <= w.len(),
        ensures
            b == "deref-methods-"@.is_prefix_of(w@.take(n as int)),
    {
        let p = chars_of("deref-methods-");
        if p.len() > n {
            return false;
        }
        let mut i: usize = 0;
        while i < p.len()
            invariant
                p.len() <= n <= w.len(),
                p@ == "deref-methods-"@,
                i <= p.len(),
                forall|k: int| 0 <= k < i ==> w@[k] == p@[k],
            decreases p.len() - i,
        {
            if w[i] != p[i] {
                assert(w@.take(n as int).subrange(0, p.len() as int)[i as int] != p@[i as int]);
                return false;
            }
            i += 1;
        }
        assert(p@ =~= w@.take(n as int).subrange(0, p.len() as int));
        true
    }

    /// Parse a member kind from either human-readable form
    /// (e.g. `Variant`) or keyword form (e.g. `required-methods-list`).
    pub fn parse(s: &str) -> (res: Option<Self>)
        ensures
            res == Self::classify(s@),
    {
        let lowered = to_lowercase(s);
        let chars = chars_of(lowered.as_str());
        let ws = split_words(&chars);
        let mut i: usize = 0;
        while i < ws.len()
            invariant
                i <= ws.len(),
                ws@.len() == words(lower(s@)).len(),
                forall|k: int| 0 <= k < ws@.len() ==> (#[trigger] ws@[k])@ == words(lower(s@))[k],
                Self::classify(s@) == Self::first_known(words(lower(s@)), i as int),
            decreases ws.len() - i,
        {
            let n = singular_len(&ws[i]);
            match Self::lookup(&ws[i], n) {
                Some(k) => {
                    return Some(k);
                },
                None => {},
            }
            i += 1;
        }
        None
    }

    /// The keyword of the kind.
    pub fn to_keyword(&self) -> (res: &'static str)
        ensures
            res@ == self.keyword(),
    {
        match self {
            Self::Constant => "const",
            Self::Field => "field",
            Self::Declaration => "item-decl",
            Self::ProvidedAssocConst => "provided-assoc-const",
            Self::Variant => "variant",
            Self::Method => "implementation",
            Self::AutoImplementation => "synthetic-implementation",
            Self::RequiredMethod => "required-method",
            Self::RequiredAssocType => "required-associated-type",
            Self::RequiredAssocConst => "required-associated-const",
            Self::ProvidedMethod => "provided-method",
            Self::Implementor => "implementor",
            Self::TraitImplementation => "trait-implementation",
            Self::BlanketImplementation => "blanket-implementation",
            Self::AssocConstant => "associatedconstant",
            Self::DerefMethod => "deref-method",
        }
    }

    /// The name of the kind as a reader sees it in a heading.
    pub fn to_human(&self) -> (res: &'static str)
        ensures
            res@ == self.human(),
    {
        match self {
            Self::Constant => "Constant",
            Self::Field => "Field",
            Self::Declaration => "Item Declaration",
            Self::ProvidedAssocConst => "Provided Associated Constant",
            Self::Variant => "Variant",
            Self::Method => "Method",
            Self::AutoImplementation => "Auto Trait Implementation",
            Self::RequiredMethod => "Required Method",
            Self::RequiredAssocType => "Required Associated Type",
            Self::RequiredAssocConst => "Required Associated Constant",
            Self::ProvidedMethod => "Provided Method",
            Self::Implementor => "Implementor",
            Self::TraitImplementation => "Trait Implementation",
            Self::BlanketImplementation => "Blanket Implementation",
            Self::AssocConstant => "Associated Constant",
            Self::DerefMethod => "Methods from",
        }
    }

    /// The number of associated item kinds.
    pub fn len() -> (n: usize)
        ensures
            n == 16,
            forall|k: Self| #[trigger] k.ordinal() < n,
    {
        16
    }

    /// The index of the kind's section in a page: its ordinal.
    pub fn index(&self) -> (i: usize)
        ensures
            i == self.ordinal(),
            i < 16,
    {
        match self {
            Self::Constant => 0,
            Self::Field => 1,
            Self::Declaration => 2,
            Self::ProvidedAssocConst => 3,
            Self::Variant => 4,
            Self::Method => 5,
            Self::AutoImplementation => 6,
            Self::RequiredMethod => 7,
            Self::RequiredAssocType => 8,
            Self::RequiredAssocConst => 9,
            Self::ProvidedMethod => 10,
            Self::Implementor => 11,
            Self::TraitImplementation => 12,
            Self::BlanketImplementation => 13,
            Self::AssocConstant => 14,
            Self::DerefMethod => 15,
        }
    }
}

/// Each kind of module item stands in the list of kinds at its ordinal.
pub proof fn lemma_module_kinds_by_ordinal(k: ModuleItemKind)
    ensures
        MODULE_ITEM_KINDS@[k.ordinal() as int] == k,
{
}

/// Each kind of member stands in the list of kinds at its ordinal.
pub proof fn lemma_member_kinds_by_ordinal(k: AssociatedItemKind)
    ensures
        ASSOCIATED_ITEM_KINDS@[k.ordinal() as int] == k,
{
}

} // verus!
