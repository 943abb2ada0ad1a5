//! Spans: the timed, attributed nodes of a projected trace.

use vstd::prelude::*;
use vstd::string::*;

verus! {

/// The value of an attribute.
#[derive(Clone, Debug)]
pub enum AttributeValue {
    Text(String),
    Integer(i64),
    Flag(bool),
}

/// What an [`AttributeValue`] stands for.
pub enum ValueView {
    Text(Seq<char>),
    Integer(int),
    Flag(bool),
}

impl View for AttributeValue {
    type V = ValueView;

    open spec fn view(&self) -> ValueView {
        match self {
            AttributeValue::Text(text) => ValueView::Text(text@),
            AttributeValue::Integer(number) => ValueView::Integer(*number as int),
            AttributeValue::Flag(flag) => ValueView::Flag(*flag),
        }
    }
}

/// A key and its value.
#[derive(Clone, Debug)]
pub struct Attribute {
    pub key: String,
    pub value: AttributeValue,
}

/// What an [`Attribute`] stands for.
pub struct AttributeView {
    pub key: Seq<char>,
    pub value: ValueView,
}

impl View for Attribute {
    type V = AttributeView;

    open spec fn view(&self) -> AttributeView {
        AttributeView { key: self.key@, value: self.value@ }
    }
}

/// The attribute `key` with a text as its value.
pub open spec fn text_attribute(key: Seq<char>, value: Seq<char>) -> AttributeView {
    AttributeView { key, value: ValueView::Text(value) }
}

/// The attribute `key` with a number as its value.
pub open spec fn integer_attribute(key: Seq<char>, value: int) -> AttributeView {
    AttributeView { key, value: ValueView::Integer(value) }
}

/// The attribute `key` with a truth value as its value.
pub open spec fn flag_attribute(key: Seq<char>, value: bool) -> AttributeView {
    AttributeView { key, value: ValueView::Flag(value) }
}

/// What a sequence of attributes stands for.
pub open spec fn attributes_view(attributes: Seq<Attribute>) -> Seq<AttributeView> {
    Seq::new(attributes.len(), |i: int| attributes[i]@)
}

/// Whether a span reports an error, and with what description.
#[derive(Clone, Debug)]
pub enum SpanStatus {
    Unset,
    Error(String),
}

impl View for SpanStatus {
    type V = Option<Seq<char>>;

    open spec fn view(&self) -> Option<Seq<char>> {
        match self {
            SpanStatus::Unset => None,
            SpanStatus::Error(description) => Some(description@),
        }
    }
}

/// Under which span of its tree a span hangs.
#[derive(Clone, Copy, Debug)]
pub enum Parent {
    /// The span is the root of its tree.
    Nothing,
    /// The span hangs directly under the root.
    Root,
    /// The span hangs under the descendant with this index.
    Descendant(usize),
}

impl View for Parent {
    type V = Option<int>;

    /// The parent's position in the tree's sequence of spans, in which the
    /// root comes first and the descendants follow.
    open spec fn view(&self) -> Option<int> {
        match self {
            Parent::Nothing => None,
            Parent::Root => Some(0),
            Parent::Descendant(index) => Some(index + 1),
        }
    }
}

/// A span. Times are nanoseconds since the Unix epoch; a span without an end
/// is still open.
#[derive(Clone, Debug)]
pub struct Span {
    pub name: String,
    pub start: i128,
    pub end: Option<i128>,
    pub attributes: Vec<Attribute>,
    pub status: SpanStatus,
    pub parent: Parent,
}

/// What a [`Span`] stands for.
pub struct SpanView {
    pub name: Seq<char>,
    pub start: int,
    pub end: Option<int>,
    pub attributes: Seq<AttributeView>,
    /// The description of the error, where the span reports one.
    pub error: Option<Seq<char>>,
    /// The position of the parent in the tree's sequence of spans.
    pub parent: Option<int>,
}

/// An end time as a number.
pub open spec fn end_view(end: Option<i128>) -> Option<int> {
    match end {
        Some(nanos) => Some(nanos as int),
        None => None,
    }
}

impl View for Span {
    type V = SpanView;

    open spec fn view(&self) -> SpanView {
        SpanView {
            name: self.name@,
            start: self.start as int,
            end: end_view(self.end),
            attributes: attributes_view(self.attributes@),
            error: self.status@,
            parent: self.parent@,
        }
    }
}

/// What a sequence of spans stands for.
pub open spec fn spans_view(spans: Seq<Span>) -> Seq<SpanView> {
    Seq::new(spans.len(), |i: int| spans[i]@)
}

/// Whether `attributes` holds the key `key`.
pub open spec fn has_key(attributes: Seq<AttributeView>, key: Seq<char>) -> bool {
    exists|i: int| 0 <= i < attributes.len() && (#[trigger] attributes[i]).key == key
}

/// Appends the attribute `key` with the text `value`.
pub fn push_text(attributes: &mut Vec<Attribute>, key: &str, value: &str)
    ensures
        attributes_view(final(attributes)@) == attributes_view(old(attributes)@).push(
            text_attribute(key@, value@),
        ),
{
    let attribute = Attribute {
        key: String::from_str(key),
        value: AttributeValue::Text(String::from_str(value)),
    };
    attributes.push(attribute);
}

/// Appends the attribute `key` with the number `value`.
pub fn push_integer(attributes: &mut Vec<Attribute>, key: &str, value: i64)
    ensures
        attributes_view(final(attributes)@) == attributes_view(old(attributes)@).push(
            integer_attribute(key@, value as int),
        ),
{
    let attribute = Attribute { key: String::from_str(key), value: AttributeValue::Integer(value) };
    attributes.push(attribute);
}

/// Appends the attribute `key` with the truth value `value`.
pub fn push_flag(attributes: &mut Vec<Attribute>, key: &str, value: bool)
    ensures
        attributes_view(final(attributes)@) == attributes_view(old(attributes)@).push(
            flag_attribute(key@, value),
        ),
{
    let attribute = Attribute { key: String::from_str(key), value: AttributeValue::Flag(value) };
    attributes.push(attribute);
}

} // verus!
