use doctui::helper::{hierarchy, hierarchy_in, maybe, select_all, select_first, select_first_in};
use doctui::parse::ParseError;
use scraper::Html;

const PAGE: &str = "<html><body class=\"rustdoc mod\"><main>\
    <div id=\"a\"><p class=\"x\">first</p><p class=\"x\">second</p></div>\
    <div id=\"b\"><span><p class=\"x\">third</p></span></div>\
    </main></body></html>";

#[test]
fn walk_takes_the_first_match_of_each_step() {
    let page = Html::parse_document(PAGE);
    let found = hierarchy_in(&page, "page", "body", vec!["main", "div", "p[class=\"x\"]"]).unwrap();
    assert_eq!(found.text().collect::<String>(), "first");
    let b = hierarchy_in(&page, "page", "div[id=\"b\"]", vec![]).unwrap();
    let found = hierarchy(b, "b", vec!["span", "p"]).unwrap();
    assert_eq!(found.text().collect::<String>(), "third");
}

#[test]
fn walk_without_selectors_stays() {
    let page = Html::parse_document(PAGE);
    let root = page.root_element();
    assert_eq!(hierarchy(root, "root", vec![]), Ok(root));
}

#[test]
fn error_names_the_first_selector_and_the_place() {
    let page = Html::parse_document(PAGE);
    assert_eq!(
        hierarchy_in(&page, "page", "nav", vec!["main", "div"]),
        Err(ParseError::ElementNotFound("nav", "page"))
    );
    assert_eq!(
        hierarchy(page.root_element(), "root", vec!["nav", "main", "div"]),
        Err(ParseError::ElementNotFound("nav", "root"))
    );
}

#[test]
fn error_names_the_broken_link_and_the_one_before() {
    let page = Html::parse_document(PAGE);
    assert_eq!(
        hierarchy_in(&page, "page", "body", vec!["main", "table", "p"]),
        Err(ParseError::ElementNotFound("table", "main"))
    );
    assert_eq!(
        hierarchy_in(&page, "page", "body", vec!["main", "div", "span"]),
        Err(ParseError::ElementNotFound("span", "div"))
    );
    assert_eq!(
        hierarchy_in(&page, "page", "body", vec!["table"]),
        Err(ParseError::ElementNotFound("table", "body"))
    );
    assert_eq!(
        hierarchy(page.root_element(), "root", vec!["body", "main", "div", "p", "b", "i"]),
        Err(ParseError::ElementNotFound("b", "p"))
    );
}

#[test]
fn later_steps_are_not_tried_after_a_broken_link() {
    let page = Html::parse_document(PAGE);
    assert_eq!(
        hierarchy(page.root_element(), "root", vec!["body", "table", "nothing", "p"]),
        Err(ParseError::ElementNotFound("table", "body"))
    );
}

#[test]
fn a_step_looks_below_the_element_only() {
    let page = Html::parse_document(PAGE);
    let main = select_first_in(&page, "main").unwrap();
    assert_eq!(select_first(main, "main"), None);
    assert_eq!(select_first(main, "body"), None);
    assert!(select_first_in(&page, "html").is_some());
    assert_eq!(select_first(page.root_element(), "html"), None);
}

#[test]
fn a_text_that_is_no_selector_matches_nothing() {
    let page = Html::parse_document(PAGE);
    assert_eq!(select_first_in(&page, "pre class=\"x\""), None);
    assert_eq!(select_first(page.root_element(), "<p>"), None);
    assert!(select_all(page.root_element(), "[[").is_empty());
    assert_eq!(
        hierarchy(page.root_element(), "root", vec!["body", "<p>"]),
        Err(ParseError::ElementNotFound("<p>", "body"))
    );
}

#[test]
fn all_matches_come_in_the_order_of_the_page() {
    let page = Html::parse_document(PAGE);
    let found: Vec<String> = select_all(page.root_element(), "p[class=\"x\"]")
        .into_iter()
        .map(|p| p.text().collect())
        .collect();
    assert_eq!(found, vec!["first", "second", "third"]);
}

#[test]
fn a_group_of_selectors_matches_either() {
    let page = Html::parse_document(PAGE);
    let found = select_all(page.root_element(), "div[id=\"b\"], p");
    assert_eq!(found.len(), 4);
    assert_eq!(found[2].value().name(), "div");
}

#[test]
fn maybe_gives_none_for_a_broken_walk() {
    let page = Html::parse_document(PAGE);
    let root = page.root_element();
    assert!(maybe(root, vec!["body", "main"]).is_some());
    assert_eq!(maybe(root, vec!["body", "nav"]), None);
}

#[test]
fn errors_in_words() {
    assert_eq!(
        ParseError::ElementNotFound("table", "main").message(),
        "failed to find table in main"
    );
    assert_eq!(
        ParseError::InvalidElement("header", "Things".to_string()).message(),
        "found invalid header: Things"
    );
}

#[test]
fn names_of_the_prelude() {
    let page = doctui::prelude::Html::parse_document(PAGE);
    let found: doctui::prelude::ParseResult<doctui::prelude::ElementRef> =
        doctui::prelude::hierarchy(page.root_element(), "root", vec!["body", "main"]);
    assert_eq!(found.unwrap().value().name(), "main");
    assert_eq!(
        doctui::prelude::ModuleItemKind::parse("mod"),
        Some(doctui::prelude::ModuleItemKind::Module)
    );
}
