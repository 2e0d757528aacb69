//! The version-aware tree renderer.
//!
//! Rendering a document produces a flat sequence of abstract widgets
//! (`RenderItem`): labels, monospace code texts, and indent/dedent markers
//! that open and close one level of visual indentation. Dispatch over a value
//! runs in two ordered passes: a common pass for the variants valid in both
//! AMF versions, then - only under `FormatVersion::V3` - a version-specific
//! pass; a value neither pass matches renders the literal fallback text
//! exactly once.

use vstd::prelude::*;
use vstd::string::StrSliceExecFns;
use vstd::string::StringExecFns;

use crate::document::ClassDefinition;
use crate::document::Document;
use crate::document::Element;
use crate::document::FormatVersion;
use crate::document::Value;
use crate::text::bool_str;
use crate::text::bool_text;
use crate::text::format_static_properties;
use crate::text::i32_text;
use crate::text::int_text;
use crate::text::props_list;
use crate::text::strings_view;

verus! {

/// The mathematical model of one rendered widget.
pub enum RItem {
    Label(Seq<char>),
    Code(Seq<char>),
    Indent,
    Dedent,
}

/// One rendered widget: a label, a monospace code text, or a marker opening
/// or closing one level of visual indentation.
#[derive(Debug, PartialEq, Eq)]
pub enum RenderItem {
    Label(String),
    Code(String),
    Indent,
    Dedent,
}

impl View for RenderItem {
    type V = RItem;

    open spec fn view(&self) -> RItem {
        match self {
            RenderItem::Label(t) => RItem::Label(t@),
            RenderItem::Code(t) => RItem::Code(t@),
            RenderItem::Indent => RItem::Indent,
            RenderItem::Dedent => RItem::Dedent,
        }
    }
}

/// The model of a rendered widget sequence.
pub open spec fn items_view(s: Seq<RenderItem>) -> Seq<RItem> {
    s.map_values(|r: RenderItem| r@)
}

/// The literal text shown for a value no pass recognizes.
pub open spec fn fallback_text() -> Seq<char> {
    "Couldn't find type."@
}

/// The text shown for an object without class metadata.
pub open spec fn no_class_text() -> Seq<char> {
    "No Class Definition Found!"@
}

/// The label for a class definition whose name is empty.
pub open spec fn class_label_empty() -> Seq<char> {
    "Class Definition: \"\""@
}

/// The label for a class definition with a non-empty name.
pub open spec fn class_label() -> Seq<char> {
    "Class Definition: "@
}

/// The label in front of the static-properties list.
pub open spec fn static_props_label() -> Seq<char> {
    "Static Properties: "@
}

/// The heading shown while no file is loaded.
pub open spec fn no_file_text() -> Seq<char> {
    "No SOL file loaded."@
}

/// Whether the common pass recognizes this variant: the variants valid in
/// both AMF versions.
pub open spec fn common_matches(v: Value) -> bool {
    ||| v is Number
    ||| v is Bool
    ||| v is String
    ||| v is Object
    ||| v is Null
    ||| v is Undefined
    ||| v is Xml
    ||| v is Unsupported
}

/// Whether the version-specific pass recognizes this variant: the variants
/// valid only under `FormatVersion::V3`.
pub open spec fn v3_matches(v: Value) -> bool {
    v is Integer
}

/// The widgets for the class metadata rendered after an object's children.
pub open spec fn classdef_items(cd: Option<ClassDefinition>) -> Seq<RItem> {
    match cd {
        Option::None => seq![RItem::Code(no_class_text())],
        Option::Some(c) => seq![
            RItem::Indent,
            RItem::Label(if c.name@.len() == 0 { class_label_empty() } else { class_label() }),
            RItem::Code(c.name@),
            RItem::Dedent,
            RItem::Indent,
            RItem::Indent,
            RItem::Label(static_props_label()),
            RItem::Code(props_list(strings_view(c.static_properties@))),
            RItem::Dedent,
            RItem::Dedent,
        ],
    }
}

/// The widgets of the version-specific pass (empty unless it matches).
pub open spec fn v3_items(v: Value) -> Seq<RItem> {
    match v {
        Value::Integer(i) => seq![RItem::Code(int_text(i as int))],
        _ => Seq::empty(),
    }
}

/// The widgets of the common pass (empty unless it matches).
pub open spec fn common_items(amf0: bool, v: Value) -> Seq<RItem>
    decreases v, 0int, 0int,
{
    match v {
        Value::Number(t) => seq![RItem::Code(t@)],
        Value::Bool(b) => seq![RItem::Code(bool_text(b))],
        Value::String(t) => seq![RItem::Code(t@)],
        Value::Object(children, cd) => children_items(amf0, children@, 0) + classdef_items(cd),
        Value::Null => seq![RItem::Code("null"@)],
        Value::Undefined => seq![RItem::Code("undefined"@)],
        Value::Unsupported => seq![RItem::Code("unsupported"@)],
        Value::Xml(t, flag) => seq![RItem::Code(t@), RItem::Code(bool_text(flag))],
        Value::Integer(_) => Seq::empty(),
        Value::Other => Seq::empty(),
    }
}

/// The widgets for an object's children from index `i` on: each child in one
/// extra level of indentation, in the children's own order.
pub open spec fn children_items(amf0: bool, s: Seq<Element>, i: int) -> Seq<RItem>
    decreases s, s.len() - i, 2int,
{
    if 0 <= i < s.len() {
        seq![RItem::Indent] + element_items(amf0, s[i]) + seq![RItem::Dedent]
            + children_items(amf0, s, i + 1)
    } else {
        Seq::empty()
    }
}

/// The widgets for one value under the two-pass dispatch policy: the common
/// pass first; if it does not match, under V0 the fallback text at once, and
/// under V3 the version-specific pass with the fallback text only when that
/// pass does not match either.
pub open spec fn value_items(amf0: bool, v: Value) -> Seq<RItem>
    decreases v, 1int, 0int,
{
    if common_matches(v) {
        common_items(amf0, v)
    } else if amf0 {
        seq![RItem::Code(fallback_text())]
    } else if v3_matches(v) {
        v3_items(v)
    } else {
        seq![RItem::Code(fallback_text())]
    }
}

/// The widgets for one element: its name as a label, then its value.
pub open spec fn element_items(amf0: bool, e: Element) -> Seq<RItem>
    decreases e, 2int, 0int,
{
    seq![RItem::Label(e.name@)] + value_items(amf0, e.value)
}

/// The widgets for the document body from element `i` on, at top level
/// (no extra indentation).
pub open spec fn body_items(amf0: bool, s: Seq<Element>, i: int) -> Seq<RItem>
    decreases s, s.len() - i, 3int,
{
    if 0 <= i < s.len() {
        element_items(amf0, s[i]) + body_items(amf0, s, i + 1)
    } else {
        Seq::empty()
    }
}

/// The widgets for a whole document: the placeholder heading while nothing is
/// loaded, else the full body tree under the header's format version.
pub open spec fn document_items(doc: Document) -> Seq<RItem> {
    if !doc.is_loaded() {
        seq![RItem::Label(no_file_text())]
    } else {
        body_items(doc.header.format_version is V0, doc.body@, 0)
    }
}

/// Law: every variant the common pass recognizes, other than an object,
/// renders identically whatever format version the header declares.
pub proof fn lemma_version_invariant_value(v: Value, a0: bool, a1: bool)
    requires
        common_matches(v),
        !(v is Object),
    ensures
        value_items(a0, v) == value_items(a1, v),
{
}

/// Law: an element whose value the common pass recognizes, other than an
/// object, renders identically whatever format version the header declares.
pub proof fn lemma_version_invariant_element(e: Element, a0: bool, a1: bool)
    requires
        common_matches(e.value),
        !(e.value is Object),
    ensures
        element_items(a0, e) == element_items(a1, e),
{
    lemma_version_invariant_value(e.value, a0, a1);
}

/// The rendered block of one object child: one level of indentation around
/// the child's own rendering.
pub open spec fn child_entry(amf0: bool, e: Element) -> Seq<RItem> {
    seq![RItem::Indent] + element_items(amf0, e) + seq![RItem::Dedent]
}

proof fn lemma_children_items_flatten(amf0: bool, s: Seq<Element>, i: int)
    requires
        0 <= i <= s.len(),
    ensures
        children_items(amf0, s, i) == s.skip(i).map_values(
            |e: Element| child_entry(amf0, e),
        ).flatten(),
    decreases s.len() - i,
{
    let blocks = s.skip(i).map_values(|e: Element| child_entry(amf0, e));
    if i == s.len() {
        assert(blocks.len() == 0);
        assert(blocks.flatten() =~= Seq::<RItem>::empty());
    } else {
        lemma_children_items_flatten(amf0, s, i + 1);
        let rest = s.skip(i + 1).map_values(|e: Element| child_entry(amf0, e));
        assert(blocks[0] == child_entry(amf0, s[i]));
        assert(blocks.drop_first() =~= rest);
        assert(blocks.flatten() == blocks[0] + blocks.drop_first().flatten());
        assert(children_items(amf0, s, i) =~= blocks.flatten());
    }
}

/// Law: an object's rendering is exactly one block per child - the child's
/// own rendering, one level deeper - concatenated in the children's own
/// order, followed by the class metadata; the number and order of rendered
/// child entries equal the length and order of the child sequence.
pub proof fn lemma_object_children_in_order(
    amf0: bool,
    children: Vec<Element>,
    cd: Option<ClassDefinition>,
)
    ensures
        value_items(amf0, Value::Object(children, cd)) == children@.map_values(
            |e: Element| child_entry(amf0, e),
        ).flatten() + classdef_items(cd),
{
    lemma_children_items_flatten(amf0, children@, 0);
    assert(children@.skip(0) =~= children@);
}

/// Law: under format V0 a value the common pass does not recognize renders
/// the fallback text alone; the version-specific pass is never attempted,
/// for every variant outside the common set, `Integer` included.
pub proof fn lemma_v0_unmatched_fallback(v: Value)
    requires
        !common_matches(v),
    ensures
        value_items(true, v) == seq![RItem::Code(fallback_text())],
{
}

/// Law: under format V3 a value neither pass recognizes renders the fallback
/// text exactly once.
pub proof fn lemma_v3_unmatched_fallback(v: Value)
    requires
        !common_matches(v),
        !v3_matches(v),
    ensures
        value_items(false, v) == seq![RItem::Code(fallback_text())],
{
}

/// Law: under format V3 an integer is rendered by the version-specific pass
/// alone - its decimal text, and no fallback.
pub proof fn lemma_v3_integer_second_pass(i: i32)
    ensures
        value_items(false, Value::Integer(i)) == seq![RItem::Code(int_text(i as int))],
{
}

proof fn lemma_items_view_push(s: Seq<RenderItem>, r: RenderItem)
    ensures
        items_view(s.push(r)) == items_view(s).push(r@),
{
    assert(items_view(s.push(r)) =~= items_view(s).push(r@));
}

/// Renders the class metadata that follows an object's children.
fn render_classdef(cd: &Option<ClassDefinition>, out: &mut Vec<RenderItem>)
    ensures
        items_view(final(out)@) == items_view(old(out)@) + classdef_items(*cd),
{
    match cd {
        Option::None => {
            out.push(RenderItem::Code(String::from_str("No Class Definition Found!")));
            proof {
                assert(items_view(out@) =~= items_view(old(out)@) + classdef_items(*cd));
            }
        },
        Option::Some(c) => {
            out.push(RenderItem::Indent);
            if c.name.as_str().unicode_len() == 0 {
                out.push(RenderItem::Label(String::from_str("Class Definition: \"\"")));
            } else {
                out.push(RenderItem::Label(String::from_str("Class Definition: ")));
            }
            out.push(RenderItem::Code(c.name.clone()));
            out.push(RenderItem::Dedent);
            out.push(RenderItem::Indent);
            out.push(RenderItem::Indent);
            out.push(RenderItem::Label(String::from_str("Static Properties: ")));
            out.push(RenderItem::Code(format_static_properties(&c.static_properties)));
            out.push(RenderItem::Dedent);
            out.push(RenderItem::Dedent);
            proof {
                assert(items_view(out@) =~= items_view(old(out)@) + classdef_items(*cd));
            }
        },
    }
}

/// The version-specific pass: renders the variants valid only under V3 and
/// reports whether it matched.
fn render_v3(v: &Value, out: &mut Vec<RenderItem>) -> (matched: bool)
    ensures
        matched == v3_matches(*v),
        matched ==> items_view(final(out)@) == items_view(old(out)@) + v3_items(*v),
        !matched ==> final(out)@ == old(out)@,
{
    match v {
        Value::Integer(i) => {
            out.push(RenderItem::Code(i32_text(*i)));
            proof {
                assert(items_view(out@) =~= items_view(old(out)@) + v3_items(*v));
            }
            true
        },
        _ => false,
    }
}

/// The common pass: renders the variants valid in both AMF versions and
/// reports whether it matched. For an object it recurses into every child
/// in order, one level of indentation deeper, then renders the class
/// metadata.
fn render_common(amf0: bool, v: &Value, out: &mut Vec<RenderItem>) -> (matched: bool)
    ensures
        matched == common_matches(*v),
        matched ==> items_view(final(out)@) == items_view(old(out)@) + common_items(amf0, *v),
        !matched ==> final(out)@ == old(out)@,
    decreases *v, 0int, 0int,
{
    match v {
        Value::Number(t) => {
            out.push(RenderItem::Code(t.clone()));
            proof {
                assert(items_view(out@) =~= items_view(old(out)@) + common_items(amf0, *v));
            }
            true
        },
        Value::Bool(b) => {
            out.push(RenderItem::Code(String::from_str(bool_str(*b))));
            proof {
                assert(items_view(out@) =~= items_view(old(out)@) + common_items(amf0, *v));
            }
            true
        },
        Value::String(t) => {
            out.push(RenderItem::Code(t.clone()));
            proof {
                assert(items_view(out@) =~= items_view(old(out)@) + common_items(amf0, *v));
            }
            true
        },
        Value::Object(children, cd) => {
            let ghost mid = items_view(old(out)@);
            let mut i: usize = 0;
            #[verifier::loop_isolation(false)]
            while i < children.len()
                invariant
                    i <= children@.len(),
                    items_view(out@) + children_items(amf0, children@, i as int) == mid
                        + children_items(amf0, children@, 0),
                decreases children@.len() - i,
            {
                proof {
                    assert(*v == Value::Object(*children, *cd));
                    assert(decreases_to!(*v => *children));
                    assert(decreases_to!(*children => children@));
                    assert(decreases_to!(children@ => children@[i as int]));
                }
                let ghost before = items_view(out@);
                let ghost g0 = out@;
                out.push(RenderItem::Indent);
                let ghost g1 = out@;
                render_element(amf0, &children[i], out);
                let ghost g2 = out@;
                out.push(RenderItem::Dedent);
                proof {
                    lemma_items_view_push(g0, RenderItem::Indent);
                    lemma_items_view_push(g2, RenderItem::Dedent);
                    assert(items_view(out@) =~= before + seq![RItem::Indent] + element_items(
                        amf0,
                        children@[i as int],
                    ) + seq![RItem::Dedent]);
                    assert(items_view(out@) + children_items(amf0, children@, i + 1) =~= mid
                        + children_items(amf0, children@, 0));
                }
                i += 1;
            }
            render_classdef(cd, out);
            proof {
                assert(children_items(amf0, children@, children@.len() as int)
                    =~= Seq::<RItem>::empty());
                assert(items_view(out@) =~= mid + common_items(amf0, *v));
            }
            true
        },
        Value::Null => {
            out.push(RenderItem::Code(String::from_str("null")));
            proof {
                assert(items_view(out@) =~= items_view(old(out)@) + common_items(amf0, *v));
            }
            true
        },
        Value::Undefined => {
            out.push(RenderItem::Code(String::from_str("undefined")));
            proof {
                assert(items_view(out@) =~= items_view(old(out)@) + common_items(amf0, *v));
            }
            true
        },
        Value::Unsupported => {
            out.push(RenderItem::Code(String::from_str("unsupported")));
            proof {
                assert(items_view(out@) =~= items_view(old(out)@) + common_items(amf0, *v));
            }
            true
        },
        Value::Xml(t, flag) => {
            out.push(RenderItem::Code(t.clone()));
            out.push(RenderItem::Code(String::from_str(bool_str(*flag))));
            proof {
                assert(items_view(out@) =~= items_view(old(out)@) + common_items(amf0, *v));
            }
            true
        },
        Value::Integer(_) => false,
        Value::Other => false,
    }
}

/// Renders one value under the two-pass dispatch policy: the common pass
/// first; when it does not match, under V0 the fallback text at once (the
/// version-specific pass is never attempted), and under V3 the
/// version-specific pass, with the fallback text only when that pass does
/// not match either.
pub fn render_value(amf0: bool, v: &Value, out: &mut Vec<RenderItem>)
    ensures
        items_view(final(out)@) == items_view(old(out)@) + value_items(amf0, *v),
    decreases *v, 1int, 0int,
{
    let matched = render_common(amf0, v, out);
    if !matched {
        if amf0 {
            out.push(RenderItem::Code(String::from_str("Couldn't find type.")));
            proof {
                assert(items_view(out@) =~= items_view(old(out)@) + value_items(amf0, *v));
            }
        } else {
            let matched_v3 = render_v3(v, out);
            if !matched_v3 {
                out.push(RenderItem::Code(String::from_str("Couldn't find type.")));
            }
            proof {
                assert(items_view(out@) =~= items_view(old(out)@) + value_items(amf0, *v));
            }
        }
    }
}

/// Renders one element and its subtree: the element's name as a label, then
/// its value under the two-pass policy.
pub fn render_element(amf0: bool, e: &Element, out: &mut Vec<RenderItem>)
    ensures
        items_view(final(out)@) == items_view(old(out)@) + element_items(amf0, *e),
    decreases *e, 2int, 0int,
{
    out.push(RenderItem::Label(e.name.clone()));
    render_value(amf0, &e.value, out);
    proof {
        assert(items_view(out@) =~= items_view(old(out)@) + element_items(amf0, *e));
    }
}

/// Renders a whole document: the placeholder heading while nothing is loaded,
/// else every body element in order, under the header's format version.
pub fn render_document(doc: &Document) -> (out: Vec<RenderItem>)
    ensures
        items_view(out@) == document_items(*doc),
{
    let mut out: Vec<RenderItem> = Vec::new();
    proof {
        assert(items_view(out@) =~= Seq::<RItem>::empty());
    }
    if doc.header.length == 0 {
        out.push(RenderItem::Label(String::from_str("No SOL file loaded.")));
        proof {
            assert(items_view(out@) =~= document_items(*doc));
        }
    } else {
        let amf0 = matches!(doc.header.format_version, FormatVersion::V0);
        let mut i: usize = 0;
        while i < doc.body.len()
            invariant
                i <= doc.body@.len(),
                amf0 == doc.header.format_version is V0,
                doc.header.length != 0,
                items_view(out@) + body_items(amf0, doc.body@, i as int) == body_items(
                    amf0,
                    doc.body@,
                    0,
                ),
            decreases doc.body@.len() - i,
        {
            let ghost before = items_view(out@);
            render_element(amf0, &doc.body[i], &mut out);
            proof {
                assert(items_view(out@) + body_items(amf0, doc.body@, i + 1) =~= body_items(
                    amf0,
                    doc.body@,
                    0,
                ));
            }
            i += 1;
        }
        proof {
            assert(body_items(amf0, doc.body@, doc.body@.len() as int) =~= Seq::<RItem>::empty());
            assert(items_view(out@) =~= document_items(*doc));
        }
    }
    out
}

} // verus!
