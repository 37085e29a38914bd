use doctui::item::ModuleItemKind;
use doctui::link::Link;

fn file(parents: &[&str], kind: Option<ModuleItemKind>, name: &str) -> Link {
    Link::File {
        parents: parents.iter().map(|p| p.to_string()).collect(),
        kind,
        name: name.to_string(),
    }
}

#[test]
fn path_with_kind_and_name() {
    assert_eq!(
        Link::parse("path/struct.Path.html"),
        Some(file(&["path"], Some(ModuleItemKind::Struct), "Path"))
    );
    assert_eq!(
        Link::file("struct.Foo.html"),
        Some(file(&[], Some(ModuleItemKind::Struct), "Foo"))
    );
}

#[test]
fn root_and_parent_are_segments() {
    assert_eq!(
        Link::file("/a/../b/fn.run.html"),
        Some(file(&["/", "a", "..", "b"], Some(ModuleItemKind::Function), "run"))
    );
    assert_eq!(
        Link::file("../../std/vec/struct.Vec.html"),
        Some(file(&["..", "..", "std", "vec"], Some(ModuleItemKind::Struct), "Vec"))
    );
}

#[test]
fn empty_segments_and_dots_are_left_out() {
    assert_eq!(
        Link::file("./a//b/./trait.T.html"),
        Some(file(&["a", "b"], Some(ModuleItemKind::Trait), "T"))
    );
    assert_eq!(
        Link::file("a/enum.E.html/"),
        Some(file(&["a"], Some(ModuleItemKind::Enum), "E"))
    );
}

#[test]
fn unknown_kind_is_no_kind() {
    assert_eq!(Link::file("index.html"), Some(file(&[], None, "html")));
    assert_eq!(Link::file("a/what.Name.html"), Some(file(&["a"], None, "Name")));
}

#[test]
fn name_ends_at_the_second_dot() {
    assert_eq!(
        Link::file("struct.Foo.bar.html"),
        Some(file(&[], Some(ModuleItemKind::Struct), "Foo"))
    );
    assert_eq!(Link::file("struct."), Some(file(&[], Some(ModuleItemKind::Struct), "")));
    assert_eq!(Link::file(".hidden"), Some(file(&[], None, "hidden")));
}

#[test]
fn paths_that_name_no_file() {
    assert_eq!(Link::file(""), None);
    assert_eq!(Link::file("/"), None);
    assert_eq!(Link::file(".."), None);
    assert_eq!(Link::file("a/.."), None);
    assert_eq!(Link::file("."), None);
    assert_eq!(Link::file("a/b"), None);
    assert_eq!(Link::file("struct"), None);
    assert_eq!(Link::parse("no-dot"), None);
}

#[test]
fn anchors_and_urls() {
    assert_eq!(Link::parse("#implementations"), Some(Link::Anchor("implementations".into())));
    assert_eq!(Link::parse("#"), Some(Link::Anchor(String::new())));
    assert_eq!(Link::parse("https://rust-lang.org"), Some(Link::Url("rust-lang.org".into())));
    assert_eq!(Link::anchor("implementations"), None);
    assert_eq!(Link::url("http://rust-lang.org"), None);
    assert_eq!(Link::url("https://"), Some(Link::Url(String::new())));
}

#[test]
fn anchor_before_url_before_path() {
    assert_eq!(Link::parse("#https://x"), Some(Link::Anchor("https://x".into())));
    assert_eq!(
        Link::parse("https://a/struct.B.html"),
        Some(Link::Url("a/struct.B.html".into()))
    );
    assert_eq!(
        Link::parse("http://a/struct.B.html"),
        Some(file(&["http:", "a"], Some(ModuleItemKind::Struct), "B"))
    );
}

#[test]
fn written_as_rustdoc_writes_it() {
    assert_eq!(
        file(&["path"], Some(ModuleItemKind::Struct), "Path").to_rustdoc(),
        "path/struct.Path.html"
    );
    assert_eq!(
        file(&["..", "a"], Some(ModuleItemKind::PrimitiveType), "u8").to_rustdoc(),
        "../a/primitive.u8.html"
    );
    assert_eq!(file(&[], Some(ModuleItemKind::Struct), "Foo").to_rustdoc(), "/struct.Foo.html");
    assert_eq!(file(&["a"], None, "index").to_rustdoc(), "a/index.html");
    assert_eq!(Link::Anchor("method.new".into()).to_rustdoc(), "#method.new");
    assert_eq!(Link::Url("docs.rs/x".into()).to_rustdoc(), "https://docs.rs/x");
}

#[test]
fn links_are_read_back() {
    let links = vec![
        file(&["path"], Some(ModuleItemKind::Struct), "Path"),
        file(&["/", "a", "..", "b"], Some(ModuleItemKind::Function), "run"),
        file(&["/"], Some(ModuleItemKind::Constant), ""),
        file(&[".."], Some(ModuleItemKind::AttributeMacro), "some thing"),
        file(&["a"], None, "html"),
        Link::Anchor("#x".into()),
        Link::Anchor(String::new()),
        Link::Url("a/b.c".into()),
        Link::Url("https://".into()),
    ];
    for link in links {
        assert_eq!(Link::parse(&link.to_rustdoc()), Some(link));
    }
}

#[test]
fn links_that_are_not_read_back() {
    let bare = file(&[], Some(ModuleItemKind::Struct), "Foo");
    assert_eq!(
        Link::parse(&bare.to_rustdoc()),
        Some(file(&["/"], Some(ModuleItemKind::Struct), "Foo"))
    );
    let untyped = file(&["a"], None, "index");
    assert_eq!(Link::parse(&untyped.to_rustdoc()), Some(file(&["a"], None, "html")));
    let hash = file(&["#a"], Some(ModuleItemKind::Struct), "Foo");
    assert_eq!(Link::file("./#a/struct.Foo.html"), Some(file(&["#a"], Some(ModuleItemKind::Struct), "Foo")));
    assert_eq!(
        Link::parse(&hash.to_rustdoc()),
        Some(Link::Anchor("a/struct.Foo.html".into()))
    );
}

#[test]
fn every_module_kind_in_a_file_name() {
    let kinds = [
        ModuleItemKind::Module,
        ModuleItemKind::Keyword,
        ModuleItemKind::Struct,
        ModuleItemKind::Enum,
        ModuleItemKind::Union,
        ModuleItemKind::PrimitiveType,
        ModuleItemKind::Trait,
        ModuleItemKind::Macro,
        ModuleItemKind::AttributeMacro,
        ModuleItemKind::DeriveMacro,
        ModuleItemKind::Function,
        ModuleItemKind::TypeDefinition,
        ModuleItemKind::Constant,
    ];
    for kind in kinds {
        let link = file(&["x"], Some(kind), "N");
        assert_eq!(Link::parse(&link.to_rustdoc()), Some(link.clone()));
        assert_eq!(link.clone(), link);
    }
}
