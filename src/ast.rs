//! The part of a parsed program that the rules read: JSX opening elements with
//! their names and attribute lists.
use vstd::prelude::*;

verus! {

/// A source range, as byte offsets into the file.
#[derive(Clone, Copy, Debug, PartialEq, Eq, Structural)]
pub struct Span {
    pub start: u32,
    pub end: u32,
}

/// The value written after an attribute's `=`.
#[derive(Clone, Debug)]
pub enum AttributeValue {
    /// A plain string literal: `name="text"`.
    Literal(String),
    /// Anything whose value is only known when the program runs: `name={expr}`,
    /// or an element given as the value.
    Expression,
}

/// The name of an attribute.
#[derive(Clone, Debug)]
pub enum AttributeName {
    /// A plain name: `aria-checked`.
    Identifier(String),
    /// A namespaced name: `xlink:href`.
    Namespaced(String, String),
}

/// A named attribute; `value` is `None` for the bare form `<script async>`.
#[derive(Clone, Debug)]
pub struct Attribute {
    pub name: AttributeName,
    pub value: Option<AttributeValue>,
    pub span: Span,
}

/// One entry of an element's attribute list.
#[derive(Clone, Debug)]
pub enum AttributeItem {
    Attribute(Attribute),
    /// `{...props}`: its contents are not known statically.
    Spread(Span),
}

/// The name of an element.
#[derive(Clone, Debug)]
pub enum ElementName {
    /// A plain tag name such as `div` or `MyComponent`, with its span.
    Identifier(String, Span),
    /// A member expression (`Foo.Bar`) or a namespaced name (`svg:rect`).
    Other(Span),
}

/// An opening tag `<name attributes...>` (or a self-closing one).
#[derive(Clone, Debug)]
pub struct OpeningElement {
    pub name: ElementName,
    pub attributes: Vec<AttributeItem>,
    pub span: Span,
}

/// A syntax node as the rules see it: either a JSX opening element or some
/// node that no rule here looks at.
#[derive(Clone, Debug)]
pub enum AstKind {
    JsxOpeningElement(OpeningElement),
    Other(Span),
}

} // verus!
