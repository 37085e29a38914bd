//! The page of a struct: its fields and its implementation blocks.

use crate::dom::{attr, class_of, element_model, html, html_of, text, text_of};
use crate::helper::{all_matches, chain_texts, hierarchy, hierarchy_in, select_all, walk, walk_in};
use crate::item::ModuleItemKind;
use crate::parse::item::impls::{all_impls, parse_all, Impl, ImplModel};
use crate::parse::style::{pieces, style_of_nodes, Piece, Style, StyleModifier};
use crate::parse::{
    after,
    held,
    read_as,
    read_top_doc,
    top_doc,
    views,
    ErrorModel,
    ParseError,
    ParseResult,
};
use crate::text::{begins_with, chars_of, string_of};
use scraper::{ElementRef, Html};
use vstd::prelude::*;

verus! {

/// A field of a struct.
#[derive(Debug, Clone, PartialEq, Eq, Hash)]
pub struct Field {
    pub name: String,
    pub definition: Style,
    pub description: Option<Style>,
}

/// What a field holds, as plain values.
pub struct FieldModel {
    pub name: Seq<char>,
    pub definition: Seq<Piece>,
    pub description: Option<Seq<Piece>>,
}

impl View for Field {
    type V = FieldModel;

    open spec fn view(&self) -> FieldModel {
        FieldModel {
            name: self.name@,
            definition: self.definition@,
            description: held(self.description),
        }
    }
}

/// A struct, as its page describes it.
#[derive(Debug, Clone, PartialEq, Eq, Hash)]
pub struct Struct {
    pub name: String,
    pub description: Option<Style>,
    pub kind: ModuleItemKind,
    pub fields: Vec<Field>,
    pub impls: Vec<Impl>,
}

/// What the page of a struct holds, as plain values.
pub struct StructModel {
    pub name: Seq<char>,
    pub description: Option<Seq<Piece>>,
    pub kind: ModuleItemKind,
    pub fields: Seq<FieldModel>,
    pub impls: Seq<ImplModel>,
}

impl View for Struct {
    type V = StructModel;

    open spec fn view(&self) -> StructModel {
        StructModel {
            name: self.name@,
            description: held(self.description),
            kind: self.kind,
            fields: views(self.fields@),
            impls: views(self.impls@),
        }
    }
}

/// The selectors that lead from the body to the content of the page.
pub open spec fn content_chain() -> Seq<Seq<char>> {
    seq!["main"@, "div[class=\"width-limiter\"]"@, "section[id=\"main-content\"]"@]
}

/// The selectors that lead from the content to the name of the item.
pub open spec fn name_chain() -> Seq<Seq<char>> {
    seq!["div[class=\"main-heading\"]"@, "h1"@, "a[href=\"#\"]"@]
}

/// The kind of item that the class of the page's heading names; a struct
/// where it names none.
pub open spec fn heading_kind(class: Option<Seq<char>>) -> ModuleItemKind {
    match class {
        Some(c) => match ModuleItemKind::classify(c) {
            Some(kind) => kind,
            None => ModuleItemKind::Struct,
        },
        None => ModuleItemKind::Struct,
    }
}

/// The error of an element that is not the field of a struct.
pub open spec fn no_field(el: ElementRef) -> ErrorModel {
    ErrorModel::InvalidElement("struct field"@, html_of(el))
}

/// The name of the field that an identifier names: what follows
/// `structfield.`.
pub open spec fn field_name(id: Seq<char>) -> Option<Seq<char>> {
    if "structfield."@.is_prefix_of(id) {
        Some(id.skip("structfield."@.len() as int))
    } else {
        None
    }
}

/// The type of a field as its declaration shows it: the declaration begins
/// with a text that begins with the name of the field, a colon and a space,
/// which are left out.
pub open spec fn field_type(name: Seq<char>, declaration: Seq<Piece>) -> Option<Seq<Piece>> {
    if declaration.len() == 0 {
        None
    } else {
        match declaration[0] {
            Piece::Normal(first) => if (name + ": "@).is_prefix_of(first) {
                Some(declaration.update(0, Piece::Normal(first.skip((name + ": "@).len() as int))))
            } else {
                None
            },
            _ => None,
        }
    }
}

/// The field that an element is read as.
pub open spec fn field_of(el: ElementRef) -> Result<FieldModel, ErrorModel> {
    let attrs = element_model(el).attrs;
    if !attrs.contains_key("id"@) {
        Err(no_field(el))
    } else {
        match field_name(attrs["id"@]) {
            None => Err(no_field(el)),
            Some(name) => match walk(el, "field_el"@, seq!["code"@], 0) {
                Err(e) => Err(e),
                Ok(code) => match field_type(
                    name,
                    style_of_nodes(element_model(code).children, 0),
                ) {
                    None => Err(no_field(el)),
                    Some(definition) => Ok(FieldModel { name, definition, description: None }),
                },
            },
        }
    }
}

/// The fields that the elements `els[from..]` are read as, in their order;
/// the error of the first that is no field.
pub open spec fn fields_in(els: Seq<ElementRef>, from: int) -> Result<Seq<FieldModel>, ErrorModel>
    decreases els.len() - from,
{
    if 0 <= from < els.len() {
        match field_of(els[from]) {
            Err(e) => Err(e),
            Ok(field) => after(seq![field], fields_in(els, from + 1)),
        }
    } else {
        Ok(Seq::empty())
    }
}

/// The struct that the content of a page is read as.
pub open spec fn content_page(content: ElementRef) -> Result<StructModel, ErrorModel> {
    match walk(content, "content"@, name_chain(), 0) {
        Err(e) => Err(e),
        Ok(head) => match fields_in(
            all_matches(content, "span[class=\"structfield small-section-header\"]"@),
            0,
        ) {
            Err(e) => Err(e),
            Ok(fields) => match all_impls(content) {
                Err(e) => Err(e),
                Ok(impls) => Ok(
                    StructModel {
                        name: text_of(element_model(head)),
                        description: top_doc(content),
                        kind: heading_kind(class_of(element_model(head))),
                        fields,
                        impls,
                    },
                ),
            },
        },
    }
}

/// The struct that a page is read as.
pub open spec fn struct_page(page: &Html) -> Result<StructModel, ErrorModel> {
    match walk_in(page, "page"@, "body"@, content_chain()) {
        Err(e) => Err(e),
        Ok(content) => content_page(content),
    }
}

/// The kind of item that the class of the page's heading names; a struct
/// where it names none.
pub fn kind_of_heading(class: Option<&str>) -> (kind: ModuleItemKind)
    ensures
        kind == heading_kind(
            match class {
                Some(c) => Some(c@),
                None => None,
            },
        ),
{
    match class {
        Some(class) => match ModuleItemKind::parse(class) {
            Some(kind) => kind,
            None => ModuleItemKind::Struct,
        },
        None => ModuleItemKind::Struct,
    }
}

/// The name of the field that an identifier names.
pub fn name_of_field(id: &str) -> (res: Option<String>)
    ensures
        res is Some <==> field_name(id@) is Some,
        res matches Some(name) ==> field_name(id@) == Some(name@),
{
    let id = chars_of(id);
    if !begins_with(&id, "structfield.") {
        return None;
    }
    let start = chars_of("structfield.").len();
    let name = string_of(&id, start, id.len());
    assert(id@.subrange(start as int, id.len() as int) =~= id@.skip(start as int));
    Some(name)
}

/// The type of a field as its declaration shows it.
pub fn type_of_field(name: &str, declaration: Style) -> (res: Option<Style>)
    ensures
        held(res) == field_type(name@, declaration@),
{
    let ghost all = declaration@;
    let Style(mut pieces) = declaration;
    if pieces.len() == 0 {
        return None;
    }
    assert(all[0] == pieces@[0]@);
    let rest = match &pieces[0] {
        StyleModifier::Normal(first) => {
            let first = chars_of(first.as_str());
            let mut lead: Vec<char> = chars_of(name);
            lead.push(':');
            lead.push(' ');
            proof {
                reveal_strlit(": ");
                assert(lead@ =~= name@ + ": "@);
            }
            let lead = string_of(&lead, 0, lead.len());
            assert(lead@ =~= name@ + ": "@);
            if !begins_with(&first, lead.as_str()) {
                return None;
            }
            let skip = chars_of(lead.as_str()).len();
            let rest = string_of(&first, skip, first.len());
            assert(first@.subrange(skip as int, first.len() as int) =~= first@.skip(
                (name@ + ": "@).len() as int,
            ));
            rest
        },
        _ => {
            return None;
        },
    };
    let ghost shown = rest@;
    pieces.set(0, StyleModifier::Normal(rest));
    let found = Style(pieces);
    assert(found@ =~= all.update(0, Piece::Normal(shown)));
    Some(found)
}

/// Reads the field that an element is.
fn read_field(el: ElementRef<'_>) -> (res: Result<Field, ParseError>)
    ensures
        read_as(res, field_of(el)),
{
    let name = match attr(el, "id") {
        Some(id) => match name_of_field(id.as_str()) {
            Some(name) => name,
            None => {
                return Err(ParseError::InvalidElement("struct field", html(el)));
            },
        },
        None => {
            return Err(ParseError::InvalidElement("struct field", html(el)));
        },
    };
    let chain = vec!["code"];
    assert(chain_texts(chain@) =~= seq!["code"@]);
    let code = match hierarchy(el, "field_el", chain) {
        Ok(code) => code,
        Err(e) => {
            return Err(e);
        },
    };
    let declaration = Style::parse(code).unwrap();
    match type_of_field(name.as_str(), declaration) {
        Some(definition) => Ok(Field { name, definition, description: None }),
        None => Err(ParseError::InvalidElement("struct field", html(el))),
    }
}

/// Reads the fields that the elements of a list are.
fn read_fields(els: &Vec<ElementRef<'_>>) -> (res: Result<Vec<Field>, ParseError>)
    ensures
        match res {
            Ok(found) => fields_in(els@, 0) == Ok::<Seq<FieldModel>, ErrorModel>(
                views(found@),
            ),
            Err(e) => fields_in(els@, 0) == Err::<Seq<FieldModel>, ErrorModel>(e@),
        },
{
    let ghost all = fields_in(els@, 0);
    let mut fields: Vec<Field> = Vec::new();
    let mut i: usize = 0;
    assert(after(views(fields@), all) == all) by {
        match all {
            Ok(r) => {
                assert(views(fields@) + r =~= r);
            },
            Err(_) => {},
        }
    }
    while i < els.len()
        invariant
            i <= els.len(),
            all == fields_in(els@, 0),
            all == after(views(fields@), fields_in(els@, i as int)),
        decreases els.len() - i,
    {
        let ghost done = views(fields@);
        let ghost later = fields_in(els@, i + 1);
        match read_field(els[i]) {
            Ok(field) => {
                let ghost one = field@;
                fields.push(field);
                proof {
                    assert(views(fields@) =~= done.push(one));
                    match later {
                        Ok(r) => {
                            assert(done.push(one) + r =~= done + (seq![one] + r));
                        },
                        Err(_) => {},
                    }
                }
            },
            Err(e) => {
                return Err(e);
            },
        }
        i += 1;
    }
    assert(views(fields@) + Seq::<FieldModel>::empty() =~= views(fields@));
    Ok(fields)
}

/// Reads the page of a struct.
pub fn parse(page: &Html) -> (res: ParseResult<Struct>)
    ensures
        read_as(res, struct_page(page)),
{
    let chain = vec!["main", "div[class=\"width-limiter\"]", "section[id=\"main-content\"]"];
    assert(chain_texts(chain@) =~= content_chain());
    let content = match hierarchy_in(page, "page", "body", chain) {
        Ok(content) => content,
        Err(e) => {
            return Err(e);
        },
    };
    let chain = vec!["div[class=\"main-heading\"]", "h1", "a[href=\"#\"]"];
    assert(chain_texts(chain@) =~= name_chain());
    let head = match hierarchy(content, "content", chain) {
        Ok(head) => head,
        Err(e) => {
            return Err(e);
        },
    };
    let name = text(head);
    let kind = match attr(head, "class") {
        Some(class) => kind_of_heading(Some(class.as_str())),
        None => kind_of_heading(None),
    };
    let description = read_top_doc(content);
    let els = select_all(content, "span[class=\"structfield small-section-header\"]");
    let fields = match read_fields(&els) {
        Ok(fields) => fields,
        Err(e) => {
            return Err(e);
        },
    };
    let impls = match parse_all(content) {
        Ok(impls) => impls,
        Err(e) => {
            return Err(e);
        },
    };
    Ok(Struct { name, description, kind, fields, impls })
}

} // verus!
