//! End-to-end checks of the viewer core: the tree renderer's two-pass
//! dispatch, the properties-list formatting, and the per-frame message
//! handling.

use sol_viewer::document::ClassDefinition;
use sol_viewer::document::Document;
use sol_viewer::document::Element;
use sol_viewer::document::FormatVersion;
use sol_viewer::document::Header;
use sol_viewer::document::Value;
use sol_viewer::render::render_document;
use sol_viewer::render::render_element;
use sol_viewer::render::RenderItem;
use sol_viewer::state::message_for_load;
use sol_viewer::state::App;
use sol_viewer::state::LoadError;
use sol_viewer::state::Message;
use sol_viewer::text::format_static_properties;
use sol_viewer::text::i32_text;
use sol_viewer::text::u32_text;

fn header(name: &str, version: FormatVersion, length: u32) -> Header {
    Header {
        name: name.to_string(),
        format_version: version,
        length,
    }
}

fn element(name: &str, value: Value) -> Element {
    Element {
        name: name.to_string(),
        value,
    }
}

fn render_one(amf0: bool, e: &Element) -> Vec<RenderItem> {
    let mut out = Vec::new();
    render_element(amf0, e, &mut out);
    out
}

fn label(t: &str) -> RenderItem {
    RenderItem::Label(t.to_string())
}

fn code(t: &str) -> RenderItem {
    RenderItem::Code(t.to_string())
}

#[test]
fn placeholder_document_renders_heading_only() {
    let doc = Document::empty();
    let items = render_document(&doc);
    assert_eq!(items, vec![label("No SOL file loaded.")]);
}

#[test]
fn zero_element_load_keeps_header_and_empty_body() {
    let mut app = App::new();
    let doc = Document {
        header: header("empty.sol", FormatVersion::V3, 42),
        body: vec![],
    };
    app.apply_message(Message::Loaded(doc));
    assert_eq!(app.document.header.name, "empty.sol");
    assert_eq!(app.document.header.format_version, FormatVersion::V3);
    assert_eq!(app.document.header.length, 42);
    assert!(app.document.body.is_empty());
    assert!(app.load_error.is_none());
}

#[test]
fn common_variants_render_version_invariantly() {
    let values = [
        Value::Number("1.5".to_string()),
        Value::Bool(true),
        Value::String("hi".to_string()),
        Value::Null,
        Value::Undefined,
        Value::Xml("<a/>".to_string(), false),
        Value::Unsupported,
    ];
    for value in values {
        let e0 = element("n", value);
        let under_v0 = render_one(true, &e0);
        let under_v3 = render_one(false, &e0);
        assert_eq!(under_v0, under_v3);
    }
}

#[test]
fn simple_variant_texts() {
    assert_eq!(
        render_one(true, &element("n", Value::Number("2.25".to_string()))),
        vec![label("n"), code("2.25")]
    );
    assert_eq!(
        render_one(true, &element("b", Value::Bool(false))),
        vec![label("b"), code("false")]
    );
    assert_eq!(
        render_one(true, &element("s", Value::String("abc".to_string()))),
        vec![label("s"), code("abc")]
    );
    assert_eq!(
        render_one(true, &element("u", Value::Undefined)),
        vec![label("u"), code("undefined")]
    );
    assert_eq!(
        render_one(true, &element("z", Value::Null)),
        vec![label("z"), code("null")]
    );
    assert_eq!(
        render_one(true, &element("x", Value::Unsupported)),
        vec![label("x"), code("unsupported")]
    );
}

#[test]
fn xml_renders_content_then_flag() {
    let e = element("doc", Value::Xml("<root/>".to_string(), true));
    assert_eq!(
        render_one(false, &e),
        vec![label("doc"), code("<root/>"), code("true")]
    );
}

#[test]
fn object_children_render_in_order_and_indented() {
    let children = vec![
        element("first", Value::Null),
        element("second", Value::Bool(true)),
        element("third", Value::String("v".to_string())),
    ];
    let e = element("obj", Value::Object(children, None));
    let items = render_one(false, &e);
    assert_eq!(
        items,
        vec![
            label("obj"),
            RenderItem::Indent,
            label("first"),
            code("null"),
            RenderItem::Dedent,
            RenderItem::Indent,
            label("second"),
            code("true"),
            RenderItem::Dedent,
            RenderItem::Indent,
            label("third"),
            code("v"),
            RenderItem::Dedent,
            code("No Class Definition Found!"),
        ]
    );
}

#[test]
fn nested_objects_nest_indentation() {
    let inner = element("inner", Value::Object(vec![element("leaf", Value::Null)], None));
    let outer = element("outer", Value::Object(vec![inner], None));
    let items = render_one(false, &outer);
    assert_eq!(
        items,
        vec![
            label("outer"),
            RenderItem::Indent,
            label("inner"),
            RenderItem::Indent,
            label("leaf"),
            code("null"),
            RenderItem::Dedent,
            code("No Class Definition Found!"),
            RenderItem::Dedent,
            code("No Class Definition Found!"),
        ]
    );
}

#[test]
fn class_definition_renders_name_and_properties() {
    let cd = ClassDefinition {
        name: "Point".to_string(),
        static_properties: vec!["x".to_string(), "y".to_string()],
    };
    let e = element("p", Value::Object(vec![], Some(cd)));
    let items = render_one(false, &e);
    assert_eq!(
        items,
        vec![
            label("p"),
            RenderItem::Indent,
            label("Class Definition: "),
            code("Point"),
            RenderItem::Dedent,
            RenderItem::Indent,
            RenderItem::Indent,
            label("Static Properties: "),
            code("[\"x\", \"y\"]"),
            RenderItem::Dedent,
            RenderItem::Dedent,
        ]
    );
}

#[test]
fn empty_class_name_shows_empty_string_marker() {
    let cd = ClassDefinition {
        name: String::new(),
        static_properties: vec![],
    };
    let e = element("p", Value::Object(vec![], Some(cd)));
    let items = render_one(false, &e);
    assert_eq!(items[2], label("Class Definition: \"\""));
    assert_eq!(items[3], code(""));
}

#[test]
fn static_properties_list_formats_exactly() {
    assert_eq!(format_static_properties(&vec![]), "[]");
    assert_eq!(format_static_properties(&vec!["a".to_string()]), "[\"a\"]");
    assert_eq!(
        format_static_properties(&vec![
            "p1".to_string(),
            "p2".to_string(),
            "p3".to_string()
        ]),
        "[\"p1\", \"p2\", \"p3\"]"
    );
}

#[test]
fn v0_unmatched_value_renders_single_fallback() {
    let integer = element("i", Value::Integer(7));
    assert_eq!(
        render_one(true, &integer),
        vec![label("i"), code("Couldn't find type.")]
    );
    let other = element("o", Value::Other);
    assert_eq!(
        render_one(true, &other),
        vec![label("o"), code("Couldn't find type.")]
    );
}

#[test]
fn v3_unmatched_value_renders_single_fallback() {
    let other = element("o", Value::Other);
    assert_eq!(
        render_one(false, &other),
        vec![label("o"), code("Couldn't find type.")]
    );
}

#[test]
fn v3_integer_renders_via_second_pass() {
    let doc = Document {
        header: header("test", FormatVersion::V3, 12),
        body: vec![element("x", Value::Integer(5))],
    };
    let items = render_document(&doc);
    assert_eq!(items, vec![label("x"), code("5")]);
}

#[test]
fn integer_texts_are_decimal() {
    assert_eq!(i32_text(0), "0");
    assert_eq!(i32_text(5), "5");
    assert_eq!(i32_text(-5), "-5");
    assert_eq!(i32_text(268435455), "268435455");
    assert_eq!(i32_text(i32::MIN), "-2147483648");
    assert_eq!(u32_text(0), "0");
    assert_eq!(u32_text(12), "12");
    assert_eq!(u32_text(u32::MAX), "4294967295");
}

#[test]
fn format_version_texts() {
    assert_eq!(FormatVersion::V0.describe(), "AMF0");
    assert_eq!(FormatVersion::V3.describe(), "AMF3");
}

#[test]
fn new_app_holds_placeholder() {
    let app = App::new();
    assert_eq!(app.document.header.name, "Not Loaded");
    assert_eq!(app.document.header.length, 0);
    assert_eq!(app.document.header.format_version, FormatVersion::V0);
    assert!(app.document.body.is_empty());
    assert!(app.load_error.is_none());
}

#[test]
fn default_app_holds_placeholder() {
    let app = App::default();
    assert_eq!(app.document.header.name, "Not Loaded");
    assert_eq!(app.document.header.length, 0);
    assert_eq!(app.document.header.format_version, FormatVersion::V0);
    assert!(app.document.body.is_empty());
    assert!(app.load_error.is_none());
}

#[test]
fn failed_load_keeps_document_and_reports_error() {
    let mut app = App::new();
    let doc = Document {
        header: header("kept.sol", FormatVersion::V0, 9),
        body: vec![element("k", Value::Null)],
    };
    app.apply_message(Message::Loaded(doc));
    app.apply_message(Message::LoadFailed(LoadError::DecodeFailure));
    assert_eq!(app.document.header.name, "kept.sol");
    assert_eq!(app.document.body.len(), 1);
    assert_eq!(app.load_error, Some(LoadError::DecodeFailure));
}

#[test]
fn drained_messages_apply_in_order_last_load_wins() {
    let mut app = App::new();
    let first = Document {
        header: header("first.sol", FormatVersion::V0, 5),
        body: vec![],
    };
    let second = Document {
        header: header("second.sol", FormatVersion::V3, 7),
        body: vec![element("x", Value::Integer(1))],
    };
    app.apply_all(vec![
        Message::Loaded(first),
        Message::LoadFailed(LoadError::FileIo),
        Message::Loaded(second),
    ]);
    assert_eq!(app.document.header.name, "second.sol");
    assert_eq!(app.document.header.length, 7);
    assert!(app.load_error.is_none());
}

#[test]
fn load_error_texts() {
    assert_eq!(LoadError::FileIo.describe(), "Couldn't read the file.");
    assert_eq!(
        LoadError::DecodeFailure.describe(),
        "Couldn't decode the file."
    );
}

#[test]
fn message_for_load_covers_all_outcomes() {
    assert!(message_for_load(None).is_none());
    let doc = Document {
        header: header("ok.sol", FormatVersion::V0, 3),
        body: vec![],
    };
    match message_for_load(Some(Ok(doc))) {
        Some(Message::Loaded(d)) => assert_eq!(d.header.name, "ok.sol"),
        _ => panic!("expected a loaded message"),
    }
    match message_for_load(Some(Err(LoadError::FileIo))) {
        Some(Message::LoadFailed(e)) => assert_eq!(e, LoadError::FileIo),
        _ => panic!("expected a failed-load message"),
    }
}

#[test]
fn identical_decodes_render_identically() {
    let make = || Document {
        header: header("same.sol", FormatVersion::V3, 11),
        body: vec![
            element("a", Value::Integer(3)),
            element("b", Value::Object(vec![element("c", Value::Null)], None)),
        ],
    };
    let mut app1 = App::new();
    let mut app2 = App::new();
    app2.apply_message(Message::LoadFailed(LoadError::FileIo));
    app1.apply_message(Message::Loaded(make()));
    app2.apply_message(Message::Loaded(make()));
    assert_eq!(app1.document.header.name, app2.document.header.name);
    assert_eq!(render_document(&app1.document), render_document(&app2.document));
}
