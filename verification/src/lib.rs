//! Extraction of a structured, styled, cross-referenceable model from the
//! pages that rustdoc generates for a crate.
//!
//! A page is parsed by `scraper` and then read as the kind of page that it
//! is: the list of all items, the index of a crate, or the page of one
//! item ([`parse::parse`]). Reading a page walks from element to element
//! down chains of selectors ([`helper`]), classifies headings, keywords and
//! identifiers as kinds of item ([`item`]), reads the targets of anchors as
//! links ([`link`]) and the documentation itself as styled text
//! ([`parse::style`]).
//!
//! Every function is verified against a model of what it reads: the text of
//! a string, the fields of a link, the tree below an element. What `scraper`
//! computes is taken on trust, and [`dom`] holds all of it.

pub mod dom;
pub mod helper;
pub mod item;
pub mod item_laws;
pub mod link;
pub mod link_laws;
pub mod parse;
pub mod prelude;
pub mod text;
