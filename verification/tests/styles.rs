use doctui::item::ModuleItemKind;
use doctui::link::Link;
use doctui::parse::style::{Style, StyleModifier};
use scraper::Html;

fn normal(text: &str) -> StyleModifier {
    StyleModifier::Normal(text.to_string())
}

fn style(pieces: Vec<StyleModifier>) -> Style {
    Style(pieces)
}

fn build(html: &str) -> Style {
    let fragment = Html::parse_fragment(html);
    Style::parse(fragment.root_element()).expect("the builder always gives a style")
}

#[test]
fn text_and_emphasis() {
    assert_eq!(
        build("plain <b>bold</b> <em>soft</em><strong>loud</strong><i>slant</i>"),
        style(vec![
            normal("plain "),
            StyleModifier::Bold(style(vec![normal("bold")])),
            normal(" "),
            StyleModifier::Italic(style(vec![normal("soft")])),
            StyleModifier::Bold(style(vec![normal("loud")])),
            StyleModifier::Italic(style(vec![normal("slant")])),
        ])
    );
}

#[test]
fn nested_emphasis() {
    assert_eq!(
        build("<b>a<i>b<b>c</b></i></b>"),
        style(vec![StyleModifier::Bold(style(vec![
            normal("a"),
            StyleModifier::Italic(style(vec![
                normal("b"),
                StyleModifier::Bold(style(vec![normal("c")])),
            ])),
        ]))])
    );
}

#[test]
fn headings_by_level() {
    assert_eq!(
        build("<h1>one</h1><h3>three</h3><h6>six</h6>"),
        style(vec![
            StyleModifier::Heading(style(vec![normal("one")]), 1),
            StyleModifier::Heading(style(vec![normal("three")]), 3),
            StyleModifier::Heading(style(vec![normal("six")]), 6),
        ])
    );
}

#[test]
fn code_and_pre_keep_their_text() {
    assert_eq!(
        build("<code>Vec&lt;<b>T</b>&gt;</code><pre>a\n<span>b</span></pre>"),
        style(vec![
            StyleModifier::Code("Vec<T>".to_string()),
            StyleModifier::Pre("a\nb".to_string()),
        ])
    );
}

#[test]
fn unknown_tags_keep_what_they_hold() {
    assert_eq!(
        build("<p>in <span>a <b>span</b></span></p><div></div>"),
        style(vec![
            StyleModifier::Other(style(vec![
                normal("in "),
                StyleModifier::Other(style(vec![
                    normal("a "),
                    StyleModifier::Bold(style(vec![normal("span")])),
                ])),
            ])),
            StyleModifier::Other(style(vec![])),
        ])
    );
}

#[test]
fn comments_are_left_out() {
    assert_eq!(build("a<!-- note -->b"), style(vec![normal("a"), normal("b")]));
}

#[test]
fn empty_element_gives_an_empty_style() {
    assert_eq!(build(""), style(vec![]));
    assert_eq!(build("").normal(), "");
}

#[test]
fn anchors_become_links() {
    assert_eq!(
        build("<a href=\"a/struct.Foo.html\">Foo</a><a href=\"#new\">new</a>"),
        style(vec![
            StyleModifier::Link(
                style(vec![normal("Foo")]),
                Link::File {
                    parents: vec!["a".to_string()],
                    kind: Some(ModuleItemKind::Struct),
                    name: "Foo".to_string(),
                },
            ),
            StyleModifier::Link(style(vec![normal("new")]), Link::Anchor("new".to_string())),
        ])
    );
}

#[test]
fn anchors_without_a_link_keep_what_they_hold() {
    assert_eq!(
        build("<a>bare</a><a href=\"nowhere\">lost</a>"),
        style(vec![
            StyleModifier::Other(style(vec![normal("bare")])),
            StyleModifier::Other(style(vec![normal("lost")])),
        ])
    );
}

#[test]
fn run_anchors_are_dropped() {
    assert_eq!(
        build("before<a href=\"https://play.rust-lang.org\">Run</a>after"),
        style(vec![normal("before"), normal("after")])
    );
    assert_eq!(
        build("<a href=\"#x\">Runs</a>"),
        style(vec![StyleModifier::Link(
            style(vec![normal("Runs")]),
            Link::Anchor("x".to_string())
        )])
    );
}

#[test]
fn lists_drop_line_feeds() {
    assert_eq!(
        build("<ul>\n<li>one</li>\n<li><b>two</b></li>\n</ul>"),
        style(vec![StyleModifier::List(
            vec![
                style(vec![normal("one")]),
                style(vec![StyleModifier::Bold(style(vec![normal("two")]))]),
            ],
            false,
        )])
    );
}

#[test]
fn list_items_that_hold_only_a_line_feed_are_dropped() {
    assert_eq!(
        build("<ol><li>\n</li><li>\n\n</li><li></li><li>\nx</li>text</ol>"),
        style(vec![StyleModifier::List(
            vec![
                style(vec![normal("\n\n")]),
                style(vec![]),
                style(vec![normal("\nx")]),
                style(vec![normal("text")]),
            ],
            true,
        )])
    );
}

#[test]
fn list_item_outside_a_list() {
    assert_eq!(
        build("<li>alone</li>"),
        style(vec![StyleModifier::ListItem(style(vec![normal("alone")]))])
    );
}

#[test]
fn plain_text_of_simple_pieces() {
    let built = build("<h2>Title</h2> and <code>code</code> and <a href=\"#a\">a <i>link</i></a>");
    assert_eq!(built.normal(), "Title and code and a link");
}

#[test]
fn plain_text_of_preformatted_lines() {
    assert_eq!(StyleModifier::Pre("a\nb".to_string()).normal(), "\ta\n\tb\n");
    assert_eq!(StyleModifier::Pre("a\r\nb\n".to_string()).normal(), "\ta\n\tb\n");
    assert_eq!(StyleModifier::Pre("a\n\nb\r".to_string()).normal(), "\ta\n\t\n\tb\r\n");
    assert_eq!(StyleModifier::Pre(String::new()).normal(), "");
    assert_eq!(StyleModifier::Pre("\n".to_string()).normal(), "\t\n");
}

#[test]
fn plain_text_of_lists() {
    let items = || vec![style(vec![normal("one")]), style(vec![]), style(vec![normal("three")])];
    assert_eq!(StyleModifier::List(items(), false).normal(), " - one\n - \n - three\n");
    assert_eq!(StyleModifier::List(items(), true).normal(), "1. one\n2. \n3. three\n");
    assert_eq!(StyleModifier::List(vec![], true).normal(), "");
    let two = vec![style(vec![normal("a")]), style(vec![normal("b")])];
    assert_eq!(StyleModifier::List(two, true).normal(), "1. a\n2. b\n");
}

#[test]
fn plain_text_numbers_long_lists() {
    let items: Vec<Style> = (0..12).map(|_| style(vec![normal("x")])).collect();
    let text = StyleModifier::List(items, true).normal();
    assert!(text.starts_with("1. x\n2. x\n"));
    assert!(text.ends_with("\n9. x\n10. x\n11. x\n12. x\n"));
}

#[test]
fn plain_text_holds_no_markup() {
    let built = build(
        "<div class=\"docblock\"><p title=\"hidden\">Some <unknown-tag data-x=\"y\">odd</unknown-tag> \
         <a href=\"struct.Foo.html\">Foo</a></p><ul><li>a</li><li>b</li></ul><pre>x\ny</pre></div>",
    );
    let text = built.normal();
    assert_eq!(text, "Some odd Foo - a\n - b\n\tx\n\ty\n");
    for forbidden in ["<", ">", "docblock", "hidden", "unknown-tag", "data-x", "struct.Foo.html"] {
        assert!(!text.contains(forbidden));
    }
}

#[test]
fn deep_nesting_is_built() {
    let depth = 60;
    let mut html = String::new();
    for _ in 0..depth {
        html.push_str("<b><i>");
    }
    html.push_str("core");
    for _ in 0..depth {
        html.push_str("</i></b>");
    }
    let built = build(&html);
    assert_eq!(built.normal(), "core");
    let mut at = &built;
    let mut seen = 0;
    loop {
        match at.0.as_slice() {
            [StyleModifier::Bold(inner)] | [StyleModifier::Italic(inner)] => {
                at = inner;
                seen += 1;
            }
            [StyleModifier::Normal(text)] => {
                assert_eq!(text, "core");
                break;
            }
            other => panic!("unexpected pieces: {other:?}"),
        }
    }
    assert_eq!(seen, 2 * depth);
}

#[test]
fn a_copy_is_equal() {
    let built = build("<ul><li><a href=\"#x\">x</a></li></ul><pre>p</pre><h4>h</h4>");
    assert_eq!(built.clone(), built);
    assert_eq!(Style::new(), style(vec![]));
}

#[test]
fn piece_of_an_element() {
    let fragment = Html::parse_fragment("<b>x</b>");
    let b = fragment.root_element().child_elements().next().unwrap();
    assert_eq!(
        StyleModifier::parse(b),
        Some(StyleModifier::Bold(style(vec![normal("x")])))
    );
    let fragment = Html::parse_fragment("<a href=\"#\">Run</a>");
    let a = fragment.root_element().child_elements().next().unwrap();
    assert_eq!(StyleModifier::parse(a), None);
}

#[test]
fn what_a_template_holds_is_no_text() {
    assert_eq!(
        build("<code>a<template>b</template>c</code>"),
        style(vec![StyleModifier::Code("ac".to_string())])
    );
    assert_eq!(
        build("<pre>x<template><b>y</b></template></pre>"),
        style(vec![StyleModifier::Pre("x".to_string())])
    );
    assert_eq!(
        build("<h2>a<template>b</template></h2>"),
        style(vec![StyleModifier::Heading(
            style(vec![normal("a"), StyleModifier::Other(style(vec![]))]),
            2,
        )])
    );
    assert_eq!(build("<h2>a<template>b</template></h2>").normal(), "a");
    assert_eq!(build("<a href=\"#x\">Run<template>s</template></a>"), style(vec![]));
}

#[test]
fn text_of_code_runs_through_nested_elements() {
    assert_eq!(
        build("<code>a<span>b<i>c</i><!-- no -->d</span>e</code>"),
        style(vec![StyleModifier::Code("abcde".to_string())])
    );
    assert_eq!(build("<code></code>"), style(vec![StyleModifier::Code(String::new())]));
}
