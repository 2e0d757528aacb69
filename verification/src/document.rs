//! The document model: an immutable snapshot of one decoded SOL file,
//! a header plus an ordered tree of named values.

use vstd::prelude::*;

verus! {

/// The two AMF encoding versions a SOL file header can declare.
#[derive(Clone, Copy, PartialEq, Eq, Structural, Debug)]
pub enum FormatVersion {
    V0,
    V3,
}

impl FormatVersion {
    /// The text shown for this version in the header panel.
    pub fn describe(&self) -> (r: &'static str)
        ensures
            *self is V0 ==> r@ == "AMF0"@,
            *self is V3 ==> r@ == "AMF3"@,
    {
        match self {
            FormatVersion::V0 => "AMF0",
            FormatVersion::V3 => "AMF3",
        }
    }
}

/// The file header: display name, declared AMF version, and byte length.
/// A length of zero is the sentinel for "no document loaded".
pub struct Header {
    pub name: String,
    pub format_version: FormatVersion,
    pub length: u32,
}

/// Class metadata optionally attached to an object: a class name and the
/// ordered names of its static properties.
pub struct ClassDefinition {
    pub name: String,
    pub static_properties: Vec<String>,
}

/// A named value in the document body tree.
pub struct Element {
    pub name: String,
    pub value: Value,
}

/// A decoded AMF value.
///
/// `Number` carries the decimal text of the decoded double, since the viewer
/// only ever displays it. `Integer` exists only under `FormatVersion::V3`.
/// `Other` stands for every decoder variant this viewer does not interpret;
/// the renderer degrades it to the literal fallback text.
pub enum Value {
    Number(String),
    Bool(bool),
    String(String),
    Object(Vec<Element>, Option<ClassDefinition>),
    Null,
    Undefined,
    Xml(String, bool),
    Unsupported,
    Integer(i32),
    Other,
}

/// One decoded file: header plus ordered body elements.
pub struct Document {
    pub header: Header,
    pub body: Vec<Element>,
}

impl Document {
    /// A document counts as loaded exactly when its header length is non-zero.
    pub open spec fn is_loaded(self) -> bool {
        self.header.length != 0
    }

    /// The placeholder state before any file has been opened.
    pub open spec fn is_placeholder(self) -> bool {
        self.header.length == 0 && self.body@.len() == 0
    }

    /// The document held before any load: zero length, empty body.
    pub fn empty() -> (d: Document)
        ensures
            d.is_placeholder(),
            !d.is_loaded(),
            d.header.name@ == "Not Loaded"@,
            d.header.format_version is V0,
            d.header.length == 0,
            d.body@ =~= Seq::<Element>::empty(),
    {
        Document {
            header: Header {
                name: "Not Loaded".to_string(),
                format_version: FormatVersion::V0,
                length: 0,
            },
            body: Vec::new(),
        }
    }
}

} // verus!
