//! The names that most users of the crate need.

pub use crate::helper::{hierarchy, hierarchy_in, maybe};
pub use crate::item::{AssociatedItemKind, ModuleItemKind};
pub use crate::link::Link;
pub use crate::parse::style::{Style, StyleModifier};
pub use crate::parse::{ParseError, ParseResult};
pub use scraper::{ElementRef, Html};
