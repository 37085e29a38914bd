//! The page of a single item.

use crate::item::ModuleItemKind;
use crate::parse::style::Style;
use crate::parse::{ErrorModel, ParseResult};
use scraper::Html;
use vstd::prelude::*;

pub mod constant;
pub mod impls;
pub mod keyword;
pub mod structs;

verus! {

/// An item of a crate, as its own page describes it.
#[derive(Debug, Clone, PartialEq, Eq, Hash)]
pub enum CrateItem {
    Constant(constant::Constant),
    Keyword(keyword::Keyword),
    Struct(structs::Struct),
}

/// What the page of an item holds, as plain values.
pub enum CrateItemModel {
    Constant(constant::ConstantModel),
    Keyword(keyword::KeywordModel),
    Struct(structs::StructModel),
}

impl View for CrateItem {
    type V = CrateItemModel;

    open spec fn view(&self) -> CrateItemModel {
        match self {
            CrateItem::Constant(c) => CrateItemModel::Constant(c@),
            CrateItem::Keyword(k) => CrateItemModel::Keyword(k@),
            CrateItem::Struct(s) => CrateItemModel::Struct(s@),
        }
    }
}

/// A style that may be there, by reference.
pub open spec fn borrowed(style: &Option<Style>) -> Option<&Style> {
    match style {
        Some(s) => Some(s),
        None => None,
    }
}

impl CrateItem {
    /// The kind of the item.
    pub fn kind(&self) -> (kind: ModuleItemKind)
        ensures
            kind == match self {
                CrateItem::Constant(_) => ModuleItemKind::Constant,
                CrateItem::Keyword(_) => ModuleItemKind::Keyword,
                CrateItem::Struct(_) => ModuleItemKind::Struct,
            },
    {
        match self {
            Self::Constant(_) => ModuleItemKind::Constant,
            Self::Keyword(_) => ModuleItemKind::Keyword,
            Self::Struct(_) => ModuleItemKind::Struct,
        }
    }

    /// The name of the item.
    pub fn name(&self) -> (name: String)
        ensures
            name@ == match self@ {
                CrateItemModel::Constant(c) => c.name,
                CrateItemModel::Keyword(k) => k.name,
                CrateItemModel::Struct(s) => s.name,
            },
    {
        match self {
            Self::Constant(c) => c.name.clone(),
            Self::Keyword(k) => k.name.clone(),
            Self::Struct(s) => s.name.clone(),
        }
    }

    /// The implementation blocks of the item, if it is of a kind that has
    /// any.
    pub fn impls(&self) -> (found: Option<Vec<impls::Impl>>)
        ensures
            match self {
                CrateItem::Struct(s) => found matches Some(v) && crate::parse::views(v@)
                    == crate::parse::views(s.impls@),
                _ => found is None,
            },
    {
        match self {
            Self::Struct(s) => Some(impls::copy_impls(&s.impls)),
            _ => None,
        }
    }

    /// The description at the top of the item's page, if it has one.
    pub fn description(&self) -> (found: Option<&Style>)
        ensures
            found == match self {
                CrateItem::Constant(c) => borrowed(&c.description),
                CrateItem::Keyword(k) => borrowed(&k.description),
                CrateItem::Struct(s) => borrowed(&s.description),
            },
    {
        match self {
            Self::Constant(c) => c.description.as_ref(),
            Self::Keyword(k) => k.description.as_ref(),
            Self::Struct(s) => s.description.as_ref(),
        }
    }
}

/// The item that a page is read as: the page of an item is read as that of
/// a struct.
pub open spec fn item_page(page: &Html) -> Result<CrateItemModel, ErrorModel> {
    match structs::struct_page(page) {
        Ok(s) => Ok(CrateItemModel::Struct(s)),
        Err(e) => Err(e),
    }
}

/// Reads the page of an item.
pub fn parse(page: &Html) -> (res: ParseResult<CrateItem>)
    ensures
        crate::parse::read_as(res, item_page(page)),
{
    match structs::parse(page) {
        Ok(s) => Ok(CrateItem::Struct(s)),
        Err(e) => Err(e),
    }
}

} // verus!
