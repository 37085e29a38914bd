use doctui::item::{AssociatedItemKind, ModuleItemKind};
use doctui::link::Link;
use doctui::parse::item::impls::{arguments_of, gather, marker_kind, Marker, Member, Pending};
use doctui::parse::item::structs::{kind_of_heading, name_of_field, type_of_field};
use doctui::parse::sections::pair;
use doctui::parse::style::{anchor, keeps_item, tag_kind, Style, StyleModifier, Tag};
use doctui::parse::{all_page, crate_page, ParseError};

fn normal(text: &str) -> StyleModifier {
    StyleModifier::Normal(text.to_string())
}

fn plain(text: &str) -> Style {
    Style(vec![normal(text)])
}

fn mismatch() -> ParseError {
    ParseError::InvalidElement("HTML", "sections and headers are mismatched".to_string())
}

fn headers(texts: &[&str]) -> Vec<String> {
    texts.iter().map(|t| t.to_string()).collect()
}

#[test]
fn version_between_the_word_and_the_next_whitespace() {
    assert_eq!(crate_page::version_of("Version 1.2.3 "), Ok("1.2.3".to_string()));
    assert_eq!(crate_page::version_of("Version 0.1.0\n(abc)"), Ok("0.1.0".to_string()));
    assert_eq!(crate_page::version_of("Version  x"), Ok(String::new()));
    assert_eq!(crate_page::version_of("Version 1\u{a0}2"), Ok("1".to_string()));
    assert_eq!(crate_page::version_of("Version 1.2.3"), Err("version"));
    assert_eq!(crate_page::version_of("Version "), Err("version"));
    assert_eq!(crate_page::version_of("version 1 "), Err("version div"));
    assert_eq!(crate_page::version_of("Version"), Err("version div"));
    assert_eq!(crate_page::version_of(""), Err("version div"));
}

#[test]
fn item_of_an_index_page() {
    assert_eq!(
        crate_page::item_of("struct.Foo.html", "Struct Foo", None),
        Ok(crate_page::ModuleItem {
            href: Link::File {
                parents: vec![],
                kind: Some(ModuleItemKind::Struct),
                name: "Foo".to_string(),
            },
            rust_path: "Foo".to_string(),
            kind: ModuleItemKind::Struct,
            description: None,
        })
    );
    assert_eq!(
        crate_page::item_of("a/fn.run.html", "fn demo::a::run  twice", Some(plain("Runs."))),
        Ok(crate_page::ModuleItem {
            href: Link::File {
                parents: vec!["a".to_string()],
                kind: Some(ModuleItemKind::Function),
                name: "run".to_string(),
            },
            rust_path: "demo::a::run  twice".to_string(),
            kind: ModuleItemKind::Function,
            description: Some(plain("Runs.")),
        })
    );
}

#[test]
fn item_of_an_index_page_errors() {
    assert_eq!(
        crate_page::item_of("struct.Foo.html", "StructFoo", None),
        Err(ParseError::InvalidElement("link title", "StructFoo".to_string()))
    );
    assert_eq!(
        crate_page::item_of("struct.Foo.html", "", None),
        Err(ParseError::InvalidElement("link title", String::new()))
    );
    assert_eq!(
        crate_page::item_of("struct.Foo.html", "thing Foo", None),
        Err(ParseError::InvalidElement("item type", "thing".to_string()))
    );
    assert_eq!(
        crate_page::item_of("struct.Foo.html", " Foo", None),
        Err(ParseError::InvalidElement("item type", String::new()))
    );
    assert_eq!(
        crate_page::item_of("Foo", "struct Foo", None),
        Err(ParseError::InvalidElement("link", "Foo".to_string()))
    );
    assert_eq!(
        crate_page::item_of("nowhere", "thing Foo", None),
        Err(ParseError::InvalidElement("item type", "thing".to_string()))
    );
}

#[test]
fn item_of_the_page_of_all_items() {
    assert_eq!(
        all_page::item_of("inner/struct.Bar.html", "inner::Bar".to_string()),
        Ok(all_page::ModuleItem {
            href: Link::File {
                parents: vec!["inner".to_string()],
                kind: Some(ModuleItemKind::Struct),
                name: "Bar".to_string(),
            },
            rust_path: "inner::Bar".to_string(),
        })
    );
    assert_eq!(
        all_page::item_of("#anchor", "x".to_string()),
        Err(ParseError::InvalidElement("link", "#anchor".to_string()))
    );
}

#[test]
fn headers_and_lists_pair_off() {
    let sections =
        pair(&headers(&["Structs", "Functions"]), vec![Ok(vec!['a', 'b']), Ok(vec!['c'])])
            .unwrap();
    assert_eq!(sections.len(), 13);
    for (i, section) in sections.iter().enumerate() {
        if i == ModuleItemKind::Struct.index() {
            assert_eq!(section, &vec!['a', 'b']);
        } else if i == ModuleItemKind::Function.index() {
            assert_eq!(section, &vec!['c']);
        } else {
            assert!(section.is_empty());
        }
    }
    let none: Vec<Result<Vec<char>, ParseError>> = vec![];
    assert_eq!(pair(&headers(&[]), none), Ok(vec![vec![]; 13]));
}

#[test]
fn the_last_list_of_a_kind_is_its_section() {
    let sections = pair(
        &headers(&["Structs", "Enums", "struct"]),
        vec![Ok(vec![1]), Ok(vec![2]), Ok(vec![3, 4])],
    )
    .unwrap();
    assert_eq!(sections[ModuleItemKind::Struct.index()], vec![3, 4]);
    assert_eq!(sections[ModuleItemKind::Enum.index()], vec![2]);
}

#[test]
fn more_headers_than_lists() {
    assert_eq!(
        pair(&headers(&["Structs", "Enums", "Traits"]), vec![Ok(vec![1]), Ok(vec![2])]),
        Err(mismatch())
    );
    let none: Vec<Result<Vec<u8>, ParseError>> = vec![];
    assert_eq!(pair(&headers(&["Structs"]), none), Err(mismatch()));
}

#[test]
fn more_lists_than_headers() {
    assert_eq!(
        pair(&headers(&["Structs", "Enums"]), vec![Ok(vec![1]), Ok(vec![2]), Ok(vec![3])]),
        Err(mismatch())
    );
    assert_eq!(pair(&headers(&[]), vec![Ok(vec![1])]), Err(mismatch()));
    let lost = ParseError::ElementNotFound("a", "li");
    assert_eq!(pair(&headers(&["Structs"]), vec![Ok(vec![1]), Err(lost)]), Err(mismatch()));
}

#[test]
fn the_first_fault_of_a_page_refuses_it() {
    let lost = || ParseError::ElementNotFound("a", "li");
    let bad = |text: &str| ParseError::InvalidElement("header", text.to_string());
    assert_eq!(
        pair(&headers(&["Structs", "Things"]), vec![Ok(vec![1]), Err(lost())]),
        Err(bad("Things"))
    );
    assert_eq!(
        pair(&headers(&["Structs", "Enums"]), vec![Err(lost()), Ok(vec![1])]),
        Err(lost())
    );
    assert_eq!(
        pair::<u8>(&headers(&["Things", "Enums"]), vec![Err(lost())]),
        Err(bad("Things"))
    );
    assert_eq!(pair(&headers(&["Structs", "Things"]), vec![Ok(vec![1])]), Err(bad("Things")));
    assert_eq!(pair(&headers(&["Structs", "Enums"]), vec![Ok(vec![1])]), Err(mismatch()));
}

fn started(name: &str) -> Pending {
    Pending { name: Some(name.to_string()), kind: None, description: None, definition: None }
}

fn method(name: &str) -> Member {
    Member {
        kind: AssociatedItemKind::Method,
        name: name.to_string(),
        description: None,
        definition: None,
    }
}

#[test]
fn members_are_gathered_in_order() {
    assert_eq!(gather(vec![]), Ok(vec![]));
    assert_eq!(gather(vec![Ok(None), Ok(None)]), Ok(vec![]));
    assert_eq!(gather(vec![Ok(Some(started("a")))]), Ok(vec![method("a")]));
    assert_eq!(
        gather(vec![
            Ok(None),
            Ok(Some(started("a"))),
            Ok(None),
            Ok(Some(started("b"))),
            Ok(Some(started("c"))),
            Ok(None),
        ]),
        Ok(vec![method("a"), method("b"), method("c")])
    );
}

#[test]
fn a_member_keeps_what_it_was_read_with() {
    let full = Pending {
        name: Some("ZERO".to_string()),
        kind: Some(AssociatedItemKind::AssocConstant),
        description: Some(plain("Nothing.")),
        definition: Some(plain(": u8")),
    };
    assert_eq!(
        gather(vec![Ok(Some(full)), Ok(Some(started("next")))]),
        Ok(vec![
            Member {
                kind: AssociatedItemKind::AssocConstant,
                name: "ZERO".to_string(),
                description: Some(plain("Nothing.")),
                definition: Some(plain(": u8")),
            },
            method("next"),
        ])
    );
}

#[test]
fn a_member_without_a_name_is_not_handed_on() {
    let nameless = Pending {
        name: None,
        kind: Some(AssociatedItemKind::Variant),
        description: Some(plain("lost")),
        definition: None,
    };
    assert_eq!(gather(vec![Ok(Some(nameless)), Ok(Some(started("kept")))]), Ok(vec![method("kept")]));
    let mut members = vec![method("first")];
    Pending::new().flush(&mut members);
    assert_eq!(members, vec![method("first")]);
    started("second").flush(&mut members);
    assert_eq!(members, vec![method("first"), method("second")]);
}

#[test]
fn a_failed_step_is_the_error_of_the_block() {
    let lost = || ParseError::ElementNotFound("a", "def");
    assert_eq!(gather(vec![Ok(Some(started("a"))), Err(lost()), Ok(Some(started("b")))]), Err(lost()));
    assert_eq!(
        gather(vec![Err(ParseError::ElementNotFound("x", "child")), Err(lost())]),
        Err(ParseError::ElementNotFound("x", "child"))
    );
}

#[test]
fn markers_by_tag_and_class() {
    assert_eq!(marker_kind("summary", None), Some(Marker::Summary));
    assert_eq!(marker_kind("summary", Some("anything")), Some(Marker::Summary));
    assert_eq!(marker_kind("details", Some("toggle method-toggle")), Some(Marker::Toggle));
    assert_eq!(marker_kind("details", Some("toggle")), Some(Marker::Toggle));
    assert_eq!(marker_kind("section", Some("method")), Some(Marker::Section));
    assert_eq!(marker_kind("details", None), None);
    assert_eq!(marker_kind("details", Some("method-toggle toggle")), None);
    assert_eq!(marker_kind("section", Some("method trait-impl")), None);
    assert_eq!(marker_kind("section", None), None);
    assert_eq!(marker_kind("div", Some("toggle")), None);
}

#[test]
fn arguments_follow_the_first_two_pieces() {
    let header = Style(vec![normal("pub fn "), normal("new"), normal("("), normal(")")]);
    assert_eq!(arguments_of(header), Some(Style(vec![normal("("), normal(")")])));
    assert_eq!(arguments_of(Style(vec![normal("a"), normal("b")])), Some(Style(vec![])));
    assert_eq!(arguments_of(plain("only")), None);
    assert_eq!(arguments_of(Style(vec![])), None);
}

#[test]
fn field_names() {
    assert_eq!(name_of_field("structfield.x"), Some("x".to_string()));
    assert_eq!(name_of_field("structfield."), Some(String::new()));
    assert_eq!(name_of_field("structfield.a.b"), Some("a.b".to_string()));
    assert_eq!(name_of_field("field.x"), None);
    assert_eq!(name_of_field("structfield"), None);
    assert_eq!(name_of_field(""), None);
}

#[test]
fn field_types() {
    assert_eq!(type_of_field("x", plain("x: u8")), Some(plain("u8")));
    assert_eq!(
        type_of_field("x", Style(vec![normal("x: "), StyleModifier::Bold(plain("T"))])),
        Some(Style(vec![normal(""), StyleModifier::Bold(plain("T"))]))
    );
    assert_eq!(type_of_field("", plain(": u8")), Some(plain("u8")));
    assert_eq!(type_of_field("x", plain("y: u8")), None);
    assert_eq!(type_of_field("x", plain("x:u8")), None);
    assert_eq!(type_of_field("x", plain("x")), None);
    assert_eq!(type_of_field("x", Style(vec![])), None);
    assert_eq!(type_of_field("x", Style(vec![StyleModifier::Code("x: u8".to_string())])), None);
}

#[test]
fn kinds_of_headings() {
    assert_eq!(kind_of_heading(Some("enum")), ModuleItemKind::Enum);
    assert_eq!(kind_of_heading(Some("struct")), ModuleItemKind::Struct);
    assert_eq!(kind_of_heading(Some("the traits")), ModuleItemKind::Trait);
    assert_eq!(kind_of_heading(Some("whatever")), ModuleItemKind::Struct);
    assert_eq!(kind_of_heading(None), ModuleItemKind::Struct);
}

#[test]
fn tags_by_name() {
    for name in ["bold", "b", "strong"] {
        assert_eq!(tag_kind(name), Tag::Bold);
    }
    for name in ["italic", "i", "emphasis", "em"] {
        assert_eq!(tag_kind(name), Tag::Italic);
    }
    assert_eq!(tag_kind("code"), Tag::Code);
    assert_eq!(tag_kind("pre"), Tag::Pre);
    for (level, name) in ["h1", "h2", "h3", "h4", "h5", "h6"].into_iter().enumerate() {
        assert_eq!(tag_kind(name), Tag::Heading(level as u8 + 1));
    }
    assert_eq!(tag_kind("a"), Tag::Anchor);
    assert_eq!(tag_kind("li"), Tag::ListItem);
    assert_eq!(tag_kind("ul"), Tag::List(false));
    assert_eq!(tag_kind("ol"), Tag::List(true));
    for name in ["p", "div", "span", "h7", "h0", "B", "", "table", "unknown-tag"] {
        assert_eq!(tag_kind(name), Tag::Other);
    }
}

#[test]
fn anchors() {
    assert_eq!(anchor("Run", Some("https://play.rust-lang.org"), plain("Run")), None);
    assert_eq!(anchor("Run", None, Style(vec![])), None);
    assert_eq!(
        anchor("new", Some("#method.new"), plain("new")),
        Some(StyleModifier::Link(plain("new"), Link::Anchor("method.new".to_string())))
    );
    assert_eq!(
        anchor("run", Some("nowhere"), plain("run")),
        Some(StyleModifier::Other(plain("run")))
    );
    assert_eq!(anchor("Run ", None, plain("Run ")), Some(StyleModifier::Other(plain("Run "))));
}

#[test]
fn items_of_a_list() {
    assert!(!keeps_item(&plain("\n")));
    assert!(keeps_item(&plain("\n\n")));
    assert!(keeps_item(&plain("")));
    assert!(keeps_item(&Style(vec![])));
    assert!(keeps_item(&Style(vec![normal("\n"), normal("x")])));
    assert!(keeps_item(&Style(vec![StyleModifier::Code("\n".to_string())])));
}
