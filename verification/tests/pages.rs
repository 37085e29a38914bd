use doctui::item::{AssociatedItemKind, ModuleItemKind};
use doctui::link::Link;
use doctui::parse::item::impls::{parse_all, parse_one, Impl, Member};
use doctui::parse::item::structs::{Field, Struct};
use doctui::parse::item::{constant, keyword, structs, CrateItem};
use doctui::parse::style::{Style, StyleModifier};
use doctui::parse::{all_page, crate_page, item, parse, ParseError, Parsed};
use scraper::Html;

fn normal(text: &str) -> StyleModifier {
    StyleModifier::Normal(text.to_string())
}

fn plain(text: &str) -> Style {
    Style(vec![normal(text)])
}

fn file(parents: &[&str], kind: Option<ModuleItemKind>, name: &str) -> Link {
    Link::File {
        parents: parents.iter().map(|p| p.to_string()).collect(),
        kind,
        name: name.to_string(),
    }
}

fn index_page(version: &str, top: &str, sections: &str) -> String {
    format!(
        "<!DOCTYPE html><html><head><title>demo</title></head>\
         <body class=\"rustdoc mod crate\">\
         <nav class=\"sidebar\"><div class=\"sidebar-elems\"><ul class=\"block\">\
         <li class=\"version\">{version}</li></ul></div></nav>\
         <main><div class=\"width-limiter\"><section id=\"main-content\">\
         <div class=\"main-heading\"><h1>Crate <a class=\"mod\" href=\"#\">demo</a></h1></div>\
         {top}{sections}\
         </section></div></main></body></html>"
    )
}

fn entry(kind: &str, name: &str) -> String {
    let lower = kind.to_lowercase();
    format!(
        "<li><div class=\"item-name\"><a class=\"{lower}\" href=\"{lower}.{name}.html\" \
         title=\"{kind} {name}\">{name}</a></div></li>"
    )
}

fn structs_section() -> String {
    format!(
        "<h2 class=\"small-section-header\">Structs</h2><ul class=\"item-table\">{}{}</ul>",
        entry("Struct", "Foo"),
        entry("Struct", "Bar")
    )
}

fn empty_sections() -> Vec<Vec<crate_page::ModuleItem>> {
    (0..13).map(|_| Vec::new()).collect()
}

fn item(kind: ModuleItemKind, name: &str) -> crate_page::ModuleItem {
    crate_page::ModuleItem {
        href: file(&[], Some(kind), name),
        rust_path: name.to_string(),
        kind,
        description: None,
    }
}

#[test]
fn index_with_two_structs() {
    let page = Html::parse_document(&index_page("Version 1.2.3 ", "", &structs_section()));
    let index = crate_page::parse(&page).unwrap();
    assert_eq!(index.name, "demo");
    assert_eq!(index.version, "1.2.3");
    assert_eq!(index.description, None);
    assert_eq!(index.sections.len(), 13);
    let structs = &index.sections[ModuleItemKind::Struct.index()];
    assert_eq!(structs.len(), 2);
    assert_eq!(structs[0].rust_path, "Foo");
    assert_eq!(structs[1].rust_path, "Bar");
    assert_eq!(structs[0].href, file(&[], Some(ModuleItemKind::Struct), "Foo"));
    assert_eq!(structs[1].href, file(&[], Some(ModuleItemKind::Struct), "Bar"));
    assert_eq!(structs[0].kind, ModuleItemKind::Struct);
    let mut expected = empty_sections();
    expected[2] = vec![item(ModuleItemKind::Struct, "Foo"), item(ModuleItemKind::Struct, "Bar")];
    assert_eq!(index.sections, expected);
}

#[test]
fn index_with_descriptions() {
    let sections = "<h2 class=\"small-section-header\">Functions</h2><ul class=\"item-table\">\
        <li><div class=\"item-name\"><a href=\"fn.run.html\" title=\"fn demo::run\">run</a></div>\
        <div class=\"desc docblock-short\">Runs <code>it</code>.</div></li></ul>";
    let top = "<details class=\"toggle top-doc\"><summary>x</summary>\
        <div class=\"docblock\">A <b>demo</b>.</div></details>";
    let page = Html::parse_document(&index_page("Version 0.1.0\n(abc)", top, sections));
    let index = crate_page::parse(&page).unwrap();
    assert_eq!(index.version, "0.1.0");
    assert_eq!(
        index.description,
        Some(Style(vec![
            normal("A "),
            StyleModifier::Bold(plain("demo")),
            normal("."),
        ]))
    );
    let functions = &index.sections[ModuleItemKind::Function.index()];
    assert_eq!(
        functions,
        &vec![crate_page::ModuleItem {
            href: file(&[], Some(ModuleItemKind::Function), "run"),
            rust_path: "demo::run".to_string(),
            kind: ModuleItemKind::Function,
            description: Some(Style(vec![
                normal("Runs "),
                StyleModifier::Code("it".to_string()),
                normal("."),
            ])),
        }]
    );
}

#[test]
fn index_keeps_the_order_of_the_page() {
    let sections = format!(
        "<h2 class=\"small-section-header\">Enums</h2><ul class=\"item-table\">{}{}{}</ul>\
         <h2 class=\"small-section-header\">Structs</h2><ul class=\"item-table\">{}</ul>",
        entry("Enum", "Zed"),
        entry("Enum", "Alpha"),
        entry("Enum", "Mid"),
        entry("Struct", "S")
    );
    let page = Html::parse_document(&index_page("Version 1 ", "", &sections));
    let index = crate_page::parse(&page).unwrap();
    let names: Vec<&str> = index.sections[ModuleItemKind::Enum.index()]
        .iter()
        .map(|i| i.rust_path.as_str())
        .collect();
    assert_eq!(names, vec!["Zed", "Alpha", "Mid"]);
    assert_eq!(index.sections[ModuleItemKind::Struct.index()].len(), 1);
}

#[test]
fn a_later_section_of_a_kind_replaces_the_earlier() {
    let sections = format!(
        "<h2 class=\"small-section-header\">Structs</h2><ul class=\"item-table\">{}</ul>\
         <h2 class=\"small-section-header\">Structs</h2><ul class=\"item-table\">{}</ul>",
        entry("Struct", "Old"),
        entry("Struct", "New")
    );
    let page = Html::parse_document(&index_page("Version 1 ", "", &sections));
    let index = crate_page::parse(&page).unwrap();
    assert_eq!(
        index.sections[ModuleItemKind::Struct.index()],
        vec![item(ModuleItemKind::Struct, "New")]
    );
}

#[test]
fn reading_a_page_again_gives_an_equal_model() {
    let text = index_page("Version 1.2.3 ", "", &structs_section());
    let page = Html::parse_document(&text);
    let first = crate_page::parse(&page);
    let second = crate_page::parse(&page);
    assert_eq!(first, second);
    let again = Html::parse_document(&text);
    assert_eq!(crate_page::parse(&again), first);
    assert_eq!(parse(&page), parse(&again));
}

#[test]
fn three_headers_and_two_lists_are_a_mismatch() {
    let sections = format!(
        "<h2 class=\"small-section-header\">Structs</h2><ul class=\"item-table\">{}</ul>\
         <h2 class=\"small-section-header\">Enums</h2><ul class=\"item-table\">{}</ul>\
         <h2 class=\"small-section-header\">Traits</h2>",
        entry("Struct", "S"),
        entry("Enum", "E")
    );
    let page = Html::parse_document(&index_page("Version 1 ", "", &sections));
    assert_eq!(
        crate_page::parse(&page),
        Err(ParseError::InvalidElement(
            "HTML",
            "sections and headers are mismatched".to_string()
        ))
    );
}

#[test]
fn two_headers_and_three_lists_are_a_mismatch() {
    let sections = format!(
        "<h2 class=\"small-section-header\">Structs</h2><ul class=\"item-table\">{}</ul>\
         <h2 class=\"small-section-header\">Enums</h2><ul class=\"item-table\">{}</ul>\
         <ul class=\"item-table\">{}</ul>",
        entry("Struct", "S"),
        entry("Enum", "E"),
        entry("Trait", "T")
    );
    let page = Html::parse_document(&index_page("Version 1 ", "", &sections));
    assert_eq!(
        crate_page::parse(&page),
        Err(ParseError::InvalidElement(
            "HTML",
            "sections and headers are mismatched".to_string()
        ))
    );
}

#[test]
fn index_without_sections() {
    let page = Html::parse_document(&index_page("Version 1 ", "", ""));
    let index = crate_page::parse(&page).unwrap();
    assert_eq!(index.sections, empty_sections());
}

#[test]
fn index_errors_of_the_version() {
    let page = Html::parse_document(&index_page("v1.2.3", "", ""));
    assert_eq!(
        crate_page::parse(&page),
        Err(ParseError::InvalidElement(
            "version div",
            "<li class=\"version\">v1.2.3</li>".to_string()
        ))
    );
    let page = Html::parse_document(&index_page("Version 1.2.3", "", ""));
    assert_eq!(
        crate_page::parse(&page),
        Err(ParseError::InvalidElement(
            "version",
            "<li class=\"version\">Version 1.2.3</li>".to_string()
        ))
    );
}

#[test]
fn index_errors_of_missing_elements() {
    let page = Html::parse_document("<html><body class=\"rustdoc mod\"></body></html>");
    assert_eq!(
        crate_page::parse(&page),
        Err(ParseError::ElementNotFound("body[class=\"rustdoc mod crate\"]", "page"))
    );
    let page = Html::parse_document("<html><body class=\"rustdoc mod crate\"></body></html>");
    assert_eq!(
        crate_page::parse(&page),
        Err(ParseError::ElementNotFound("nav[class=\"sidebar\"]", "body"))
    );
    let page = Html::parse_document(
        "<html><body class=\"rustdoc mod crate\"><nav class=\"sidebar\">\
         <div class=\"sidebar-elems\"><ul class=\"other\"></ul></div></nav></body></html>",
    );
    assert_eq!(
        crate_page::parse(&page),
        Err(ParseError::ElementNotFound("ul[class=\"block\"]", "div[class=\"sidebar-elems\"]"))
    );
    let page = Html::parse_document(
        "<html><body class=\"rustdoc mod crate\"><nav class=\"sidebar\">\
         <div class=\"sidebar-elems\"><ul class=\"block\"><li class=\"version\">Version 1 </li>\
         </ul></div></nav><main></main></body></html>",
    );
    assert_eq!(
        crate_page::parse(&page),
        Err(ParseError::ElementNotFound("div[class=\"width-limiter\"]", "main"))
    );
}

#[test]
fn index_errors_of_headers_and_entries() {
    let bad_header = "<h2 class=\"small-section-header\">Re-exports</h2><ul class=\"item-table\"></ul>";
    let page = Html::parse_document(&index_page("Version 1 ", "", bad_header));
    assert_eq!(
        crate_page::parse(&page),
        Err(ParseError::InvalidElement("header", "Re-exports".to_string()))
    );
    let with = |li: &str| {
        let sections = format!(
            "<h2 class=\"small-section-header\">Structs</h2><ul class=\"item-table\">{li}</ul>"
        );
        crate_page::parse(&Html::parse_document(&index_page("Version 1 ", "", &sections)))
    };
    assert_eq!(
        with("<li><div class=\"item-name\">no link</div></li>"),
        Err(ParseError::ElementNotFound("a", "div[class=\"item-name\"]"))
    );
    assert_eq!(
        with("<li><span>x</span></li>"),
        Err(ParseError::ElementNotFound("div[class=\"item-name\"]", "li"))
    );
    assert_eq!(
        with("<li><div class=\"item-name\"><a href=\"struct.A.html\">A</a></div></li>"),
        Err(ParseError::InvalidElement(
            "link",
            "<a href=\"struct.A.html\">A</a>".to_string()
        ))
    );
    assert_eq!(
        with("<li><div class=\"item-name\"><a title=\"struct A\">A</a></div></li>"),
        Err(ParseError::InvalidElement("link", "<a title=\"struct A\">A</a>".to_string()))
    );
    assert_eq!(
        with("<li><div class=\"item-name\"><a href=\"struct.A.html\" title=\"structA\">A</a></div></li>"),
        Err(ParseError::InvalidElement("link title", "structA".to_string()))
    );
    assert_eq!(
        with("<li><div class=\"item-name\"><a href=\"struct.A.html\" title=\"thing A\">A</a></div></li>"),
        Err(ParseError::InvalidElement("item type", "thing".to_string()))
    );
    assert_eq!(
        with("<li><div class=\"item-name\"><a href=\"nowhere\" title=\"struct A\">A</a></div></li>"),
        Err(ParseError::InvalidElement("link", "nowhere".to_string()))
    );
}

#[test]
fn the_first_error_in_the_order_of_the_page_is_returned() {
    let sections = format!(
        "<h2 class=\"small-section-header\">Structs</h2><ul class=\"item-table\">{}\
         <li><div class=\"item-name\"><a href=\"x\" title=\"struct A\">A</a></div></li>\
         <li><span>x</span></li></ul>\
         <h2 class=\"small-section-header\">Nonsense</h2>",
        entry("Struct", "S"),
    );
    let page = Html::parse_document(&index_page("Version 1 ", "", &sections));
    assert_eq!(
        crate_page::parse(&page),
        Err(ParseError::InvalidElement("link", "x".to_string()))
    );
}

fn all_items_page(body: &str) -> String {
    format!(
        "<html><head></head><body class=\"rustdoc mod\"><main>\
         <section id=\"main-content\" class=\"content\"><h1>List of all items</h1>{body}\
         </section></main></body></html>"
    )
}

#[test]
fn all_items_by_kind() {
    let page = Html::parse_document(&all_items_page(
        "<h3 id=\"structs\">Structs</h3><ul class=\"all-items\">\
         <li><a href=\"struct.Foo.html\">Foo</a></li>\
         <li><a href=\"inner/struct.Bar.html\">inner::Bar</a></li></ul>\
         <h3 id=\"functions\">Functions</h3><ul class=\"all-items\">\
         <li><a href=\"fn.run.html\">run</a></li></ul>",
    ));
    let sections = all_page::parse(&page).unwrap();
    assert_eq!(sections.len(), 13);
    assert_eq!(
        sections[ModuleItemKind::Struct.index()],
        vec![
            all_page::ModuleItem {
                href: file(&[], Some(ModuleItemKind::Struct), "Foo"),
                rust_path: "Foo".to_string(),
            },
            all_page::ModuleItem {
                href: file(&["inner"], Some(ModuleItemKind::Struct), "Bar"),
                rust_path: "inner::Bar".to_string(),
            },
        ]
    );
    assert_eq!(
        sections[ModuleItemKind::Function.index()],
        vec![all_page::ModuleItem {
            href: file(&[], Some(ModuleItemKind::Function), "run"),
            rust_path: "run".to_string(),
        }]
    );
    let filled = sections.iter().filter(|s| !s.is_empty()).count();
    assert_eq!(filled, 2);
}

#[test]
fn all_items_errors() {
    let read = |body: &str| all_page::parse(&Html::parse_document(&all_items_page(body)));
    let mismatch = || {
        Err(ParseError::InvalidElement(
            "HTML",
            "sections and headers are mismatched".to_string(),
        ))
    };
    assert_eq!(read("<h3>Structs</h3>"), mismatch());
    assert_eq!(read("<ul class=\"all-items\"></ul>"), mismatch());
    assert_eq!(
        read("<h3>Things</h3><ul class=\"all-items\"></ul>"),
        Err(ParseError::InvalidElement("header", "Things".to_string()))
    );
    assert_eq!(
        read("<h3>Structs</h3><ul class=\"all-items\"><li>bare</li></ul>"),
        Err(ParseError::ElementNotFound("a", "li"))
    );
    assert_eq!(
        read("<h3>Structs</h3><ul class=\"all-items\"><li><a>Foo</a></li></ul>"),
        Err(ParseError::InvalidElement("link", "<a>Foo</a>".to_string()))
    );
    assert_eq!(
        read("<h3>Structs</h3><ul class=\"all-items\"><li><a href=\"..\">Foo</a></li></ul>"),
        Err(ParseError::InvalidElement("link", "..".to_string()))
    );
    assert_eq!(
        all_page::parse(&Html::parse_document("<html><body><main></main></body></html>")),
        Err(ParseError::ElementNotFound("body[class=\"rustdoc mod\"]", "html"))
    );
}

fn item_page(class: &str, body: &str) -> String {
    format!(
        "<html><head></head><body class=\"rustdoc struct\"><main><div class=\"width-limiter\">\
         <section id=\"main-content\"><div class=\"main-heading\"><h1>Struct \
         <a class=\"{class}\" href=\"#\">Point</a></h1></div>{body}</section></div></main>\
         </body></html>"
    )
}

const IMPLS: &str = "<div id=\"implementations-list\">\
    <details class=\"toggle implementors-toggle\" open>\
    <summary><section id=\"impl-Point\" class=\"impl\">\
    <h3 class=\"code-header\">impl <a class=\"struct\" href=\"struct.Point.html\">Point</a></h3>\
    </section></summary>\
    <div class=\"impl-items\">\
    <details class=\"toggle method-toggle\" open><summary><section id=\"method.new\" class=\"method\">\
    <h4 class=\"code-header\">pub fn <a href=\"#method.new\" class=\"fn\">new</a>(x: u8) -&gt; Self</h4>\
    </section></summary><div class=\"docblock\">Makes a point.</div></details>\
    <section id=\"method.x\" class=\"method\">\
    <h4 class=\"code-header\">pub fn <a href=\"#method.x\" class=\"fn\">x</a>(&amp;self) -&gt; u8</h4>\
    </section>\
    <div class=\"unknown\">ignored</div>\
    <details class=\"toggle\" open><summary>\
    <h4 class=\"code-header\">pub const <a href=\"#associatedconstant.ZERO\" class=\"constant\">ZERO</a>: u8</h4>\
    </summary><div class=\"docblock\">Nothing.</div></details>\
    </div></details></div>\
    <div id=\"trait-implementations-list\"><details class=\"toggle implementors-toggle\">\
    <summary><section class=\"impl\"><h3>impl Debug for Point</h3></section></summary>\
    <div class=\"impl-items\"></div></details></div>\
    <div id=\"unrelated\"></div>";

fn expected_impls() -> Vec<Impl> {
    vec![Impl {
        signature: Style(vec![
            normal("impl "),
            StyleModifier::Link(
                plain("Point"),
                file(&[], Some(ModuleItemKind::Struct), "Point"),
            ),
        ]),
        members: vec![
            Member {
                kind: AssociatedItemKind::Method,
                name: "new".to_string(),
                description: Some(plain("Makes a point.")),
                definition: Some(plain("(x: u8) -> Self")),
            },
            Member {
                kind: AssociatedItemKind::Method,
                name: "x".to_string(),
                description: None,
                definition: Some(plain("(&self) -> u8")),
            },
            Member {
                kind: AssociatedItemKind::Constant,
                name: "ZERO".to_string(),
                description: Some(plain("Nothing.")),
                definition: Some(plain(": u8")),
            },
        ],
    }]
}

#[test]
fn struct_with_fields_and_impls() {
    let body = format!(
        "<details class=\"toggle top-doc\"><summary>x</summary><div class=\"docblock\">A point.</div></details>\
         <span id=\"structfield.x\" class=\"structfield small-section-header\">\
         <a href=\"#structfield.x\" class=\"anchor field\">§</a><code>x: <a class=\"primitive\" \
         href=\"https://doc.rust-lang.org/std/primitive.u8.html\">u8</a></code></span>\
         <span id=\"structfield.y\" class=\"structfield small-section-header\"><code>y: u8</code></span>\
         {IMPLS}"
    );
    let page = Html::parse_document(&item_page("struct", &body));
    let found = structs::parse(&page).unwrap();
    assert_eq!(
        found,
        Struct {
            name: "Point".to_string(),
            description: Some(plain("A point.")),
            kind: ModuleItemKind::Struct,
            fields: vec![
                Field {
                    name: "x".to_string(),
                    definition: Style(vec![
                        normal(""),
                        StyleModifier::Link(
                            plain("u8"),
                            Link::Url("doc.rust-lang.org/std/primitive.u8.html".to_string()),
                        ),
                    ]),
                    description: None,
                },
                Field { name: "y".to_string(), definition: plain("u8"), description: None },
            ],
            impls: expected_impls(),
        }
    );
}

#[test]
fn item_kind_comes_from_the_heading() {
    let page = Html::parse_document(&item_page("enum", ""));
    assert_eq!(structs::parse(&page).unwrap().kind, ModuleItemKind::Enum);
    let page = Html::parse_document(&item_page("whatever", ""));
    assert_eq!(structs::parse(&page).unwrap().kind, ModuleItemKind::Struct);
    let page = Html::parse_document(
        "<html><body><main><div class=\"width-limiter\"><section id=\"main-content\">\
         <div class=\"main-heading\"><h1><a href=\"#\">Bare</a></h1></div></section></div></main>\
         </body></html>",
    );
    let found = structs::parse(&page).unwrap();
    assert_eq!(found.kind, ModuleItemKind::Struct);
    assert_eq!(found.name, "Bare");
    assert_eq!(found.fields, vec![]);
    assert_eq!(found.impls, vec![]);
}

#[test]
fn struct_field_errors() {
    let read = |body: &str| structs::parse(&Html::parse_document(&item_page("struct", body)));
    let span = |inner: &str| format!("<span class=\"structfield small-section-header\"{inner}</span>");
    let bad = |html: &str| Err(ParseError::InvalidElement("struct field", html.to_string()));
    let el = span("><code>x: u8</code>");
    assert_eq!(read(&el), bad(&el));
    let el = span(" id=\"field.x\"><code>x: u8</code>");
    assert_eq!(read(&el), bad(&el));
    let el = span(" id=\"structfield.x\"><code></code>");
    assert_eq!(read(&el), bad(&el));
    let el = span(" id=\"structfield.x\"><code><b>x</b>: u8</code>");
    assert_eq!(read(&el), bad(&el));
    let el = span(" id=\"structfield.x\"><code>y: u8</code>");
    assert_eq!(read(&el), bad(&el));
    let el = span(" id=\"structfield.x\"><code>x:u8</code>");
    assert_eq!(read(&el), bad(&el));
    let el = span(" id=\"structfield.x\">x: u8");
    assert_eq!(read(&el), Err(ParseError::ElementNotFound("code", "field_el")));
}

#[test]
fn implementation_blocks_of_a_page() {
    let page = Html::parse_document(&item_page("struct", IMPLS));
    let content = page
        .select(&scraper::Selector::parse("section[id=\"main-content\"]").unwrap())
        .next()
        .unwrap();
    assert_eq!(parse_all(content), Ok(expected_impls()));
}

#[test]
fn sections_by_kind() {
    let page = Html::parse_document(&item_page("struct", IMPLS));
    let list = page
        .select(&scraper::Selector::parse("div[id=\"implementations-list\"]").unwrap())
        .next()
        .unwrap();
    assert_eq!(parse_one(list, AssociatedItemKind::Method), Some(Ok(expected_impls())));
    for kind in [
        AssociatedItemKind::AutoImplementation,
        AssociatedItemKind::Implementor,
        AssociatedItemKind::TraitImplementation,
        AssociatedItemKind::BlanketImplementation,
        AssociatedItemKind::RequiredMethod,
        AssociatedItemKind::RequiredAssocType,
        AssociatedItemKind::RequiredAssocConst,
        AssociatedItemKind::DerefMethod,
        AssociatedItemKind::ProvidedMethod,
        AssociatedItemKind::Variant,
    ] {
        assert_eq!(parse_one(list, kind), Some(Ok(vec![])));
    }
    for kind in [
        AssociatedItemKind::Constant,
        AssociatedItemKind::Field,
        AssociatedItemKind::Declaration,
        AssociatedItemKind::ProvidedAssocConst,
        AssociatedItemKind::AssocConstant,
    ] {
        assert_eq!(parse_one(list, kind), None);
    }
}

fn methods_with(items: &str) -> Result<Vec<Impl>, ParseError> {
    let body = format!(
        "<div id=\"implementations-list\"><details class=\"toggle implementors-toggle\">\
         <summary><section class=\"impl\"><h3>impl X</h3></section></summary>\
         <div class=\"impl-items\">{items}</div></details></div>"
    );
    let page = Html::parse_document(&item_page("struct", &body));
    structs::parse(&page).map(|s| s.impls)
}

#[test]
fn members_are_handed_on_at_each_marker_and_at_the_end() {
    let named = |name: &str| Member {
        kind: AssociatedItemKind::Method,
        name: name.to_string(),
        description: None,
        definition: None,
    };
    let section = |name: &str| {
        format!("<section class=\"method\"><h4 class=\"code-header\"><a>{name}</a></h4></section>")
    };
    let found = methods_with("").unwrap();
    assert_eq!(found, vec![Impl { signature: plain("impl X"), members: vec![] }]);
    let found = methods_with(&section("only")).unwrap();
    assert_eq!(found[0].members, vec![named("only")]);
    let found = methods_with(&format!(
        "<p>lead</p>{}text<p>between</p>{}{}<!-- end -->",
        section("a"),
        section("b"),
        section("c")
    ))
    .unwrap();
    assert_eq!(found[0].members, vec![named("a"), named("b"), named("c")]);
}

#[test]
fn summary_starts_a_member() {
    let found = methods_with(
        "<summary><section class=\"impl\"><h3 class=\"code-header\">impl \
         <a class=\"trait\">Clone</a></h3></section></summary>\
         <section class=\"method\"><h4 class=\"code-header\">fn <a>clone</a>(&amp;self)</h4></section>",
    )
    .unwrap();
    assert_eq!(
        found[0].members,
        vec![
            Member {
                kind: AssociatedItemKind::Method,
                name: "Clone".to_string(),
                description: None,
                definition: None,
            },
            Member {
                kind: AssociatedItemKind::Method,
                name: "clone".to_string(),
                description: None,
                definition: Some(plain("(&self)")),
            },
        ]
    );
}

#[test]
fn member_errors() {
    assert_eq!(
        methods_with("<section class=\"method\"><h4>x</h4></section>"),
        Err(ParseError::ElementNotFound("h4[class=\"code-header\"]", "child"))
    );
    assert_eq!(
        methods_with("<section class=\"method\"><h4 class=\"code-header\">x</h4></section>"),
        Err(ParseError::ElementNotFound("a", "def"))
    );
    assert_eq!(
        methods_with(
            "<details class=\"toggle method-toggle\"><summary><h4 class=\"code-header\">\
             <a>x</a></h4></summary></details>"
        ),
        Err(ParseError::ElementNotFound("div[class=\"docblock\"]", "child"))
    );
    assert_eq!(
        methods_with("<details class=\"toggle\"><summary>x</summary></details>"),
        Err(ParseError::ElementNotFound("h4[class=\"code-header\"]", "summary"))
    );
    assert_eq!(
        methods_with("<summary><section class=\"impl\"><h3>x</h3></section></summary>"),
        Err(ParseError::ElementNotFound("h3[class=\"code-header\"]", "section[class=\"impl\"]"))
    );
    let found = methods_with("<details class=\"other\"><summary>x</summary></details>").unwrap();
    assert_eq!(found[0].members, vec![]);
}

#[test]
fn impl_errors() {
    let read = |body: &str| structs::parse(&Html::parse_document(&item_page("struct", body)));
    assert_eq!(
        read("<div id=\"implementations-list\"><details class=\"toggle implementors-toggle\"></details></div>"),
        Err(ParseError::ElementNotFound("summary", "im"))
    );
    assert_eq!(
        read(
            "<div id=\"implementations-list\"><details class=\"toggle implementors-toggle\">\
             <summary><section class=\"impl\"><h3>impl X</h3></section></summary></details></div>"
        ),
        Err(ParseError::ElementNotFound("div[class=\"impl-items\"]", "im"))
    );
}

#[test]
fn keyword_page() {
    let page = Html::parse_document(
        "<html><body class=\"rustdoc keyword\"><main><div class=\"width-limiter\">\
         <section id=\"main-content\"><div class=\"main-heading\"><h1>Keyword \
         <a class=\"keyword\" href=\"#\">match</a></h1></div>\
         <details class=\"toggle top-doc\"><summary>x</summary>\
         <div class=\"docblock\">Control flow.</div></details></section></div></main></body></html>",
    );
    assert_eq!(
        keyword::parse(&page),
        Ok(keyword::Keyword {
            name: "match".to_string(),
            description: Some(plain("Control flow.")),
        })
    );
    let page = Html::parse_document(&item_page("struct", ""));
    assert_eq!(
        keyword::parse(&page),
        Err(ParseError::ElementNotFound("a[class=\"keyword\"]", "h1"))
    );
}

#[test]
fn constant_page() {
    let page = Html::parse_document(
        "<html><body class=\"rustdoc constant\"><main><div class=\"width-limiter\">\
         <section id=\"main-content\"><div class=\"main-heading\"><h1>Constant \
         <a class=\"constant\" href=\"#\">MAX</a></h1></div>\
         <pre class=\"rust item-decl\"><code>pub const MAX: <a class=\"primitive\" \
         href=\"#\">u8</a> = 255;</code></pre></section></div></main></body></html>",
    );
    assert_eq!(
        constant::parse(&page),
        Ok(constant::Constant {
            name: "MAX".to_string(),
            definition: Style(vec![
                normal("pub const MAX: "),
                StyleModifier::Link(plain("u8"), Link::Anchor(String::new())),
                normal(" = 255;"),
            ]),
            description: None,
        })
    );
    let page = Html::parse_document(&item_page("struct", ""));
    assert_eq!(
        constant::parse(&page),
        Err(ParseError::ElementNotFound("pre[class=\"rust item-decl\"]", "main"))
    );
}

#[test]
fn pages_are_told_apart_by_trial() {
    let all = Html::parse_document(&all_items_page(
        "<h3>Structs</h3><ul class=\"all-items\"><li><a href=\"struct.Foo.html\">Foo</a></li></ul>",
    ));
    assert!(matches!(parse(&all), Ok(Parsed::AllPage(ref sections)) if sections[2].len() == 1));
    let index = Html::parse_document(&index_page("Version 1.2.3 ", "", &structs_section()));
    match parse(&index) {
        Ok(Parsed::CratePage(found)) => assert_eq!(Ok(found), crate_page::parse(&index)),
        other => panic!("not an index page: {other:?}"),
    }
    let point = Html::parse_document(&item_page("struct", IMPLS));
    match parse(&point) {
        Ok(Parsed::CrateItem(CrateItem::Struct(found))) => {
            assert_eq!(found.name, "Point");
            assert_eq!(found.impls, expected_impls());
        }
        other => panic!("not an item page: {other:?}"),
    }
    assert_eq!(item::parse(&point), parse(&point).map(|p| match p {
        Parsed::CrateItem(found) => found,
        other => panic!("not an item page: {other:?}"),
    }));
}

#[test]
fn the_error_of_the_last_trial_is_returned() {
    let page = Html::parse_document("<html><body class=\"rustdoc mod crate\"></body></html>");
    assert_eq!(parse(&page), Err(ParseError::ElementNotFound("main", "body")));
    let page = Html::parse_document("");
    assert_eq!(parse(&page), Err(ParseError::ElementNotFound("main", "body")));
}

#[test]
fn item_accessors() {
    let point = Html::parse_document(&item_page("struct", IMPLS));
    let found = item::parse(&point).unwrap();
    assert_eq!(found.kind(), ModuleItemKind::Struct);
    assert_eq!(found.name(), "Point");
    assert_eq!(found.impls(), Some(expected_impls()));
    assert_eq!(found.description(), None);
    let key = CrateItem::Keyword(keyword::Keyword {
        name: "fn".to_string(),
        description: Some(plain("Functions.")),
    });
    assert_eq!(key.kind(), ModuleItemKind::Keyword);
    assert_eq!(key.name(), "fn");
    assert_eq!(key.impls(), None);
    assert_eq!(key.description(), Some(&plain("Functions.")));
    let max = CrateItem::Constant(constant::Constant {
        name: "MAX".to_string(),
        definition: plain("u8"),
        description: None,
    });
    assert_eq!(max.kind(), ModuleItemKind::Constant);
    assert_eq!(max.name(), "MAX");
    assert_eq!(max.impls(), None);
    assert_eq!(max.description(), None);
}

#[test]
fn names_are_read_without_what_templates_hold() {
    let page = Html::parse_document(
        "<html><body class=\"rustdoc keyword\"><main><div class=\"width-limiter\">\
         <section id=\"main-content\"><div class=\"main-heading\"><h1>Keyword \
         <a class=\"keyword\" href=\"#\">ma<template>xx</template><b>t</b>ch</a></h1></div>\
         </section></div></main></body></html>",
    );
    assert_eq!(
        keyword::parse(&page),
        Ok(keyword::Keyword { name: "match".to_string(), description: None })
    );
}
