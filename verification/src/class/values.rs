use vstd::prelude::*;

verus! {

/// The value of a property, as the extractor hands it over.
#[derive(Debug)]
pub enum PropertyValue {
    /// A string literal: the text as the extractor hands it over, which is written out as it
    /// is. Nothing is added to it and nothing is taken from it: a text that is to appear
    /// between quotes holds its quotes
    String(String),
    /// A number that is not a whole number, kept as its decimal text
    Number(String),
    /// A whole number
    Integer(i64),
    /// A boolean
    Boolean(bool),
    /// A list of values
    Array(Vec<PropertyValue>),
    /// The name of another class or value
    Reference(String),
    /// An expression, kept as its source text
    Expression(String),
    /// A macro that repeats a named item a number of times
    Macro { count: String, name: String },
}

/// A named property of a class entity.
#[derive(Debug)]
pub struct Property {
    /// Name of the property
    pub name: String,
    /// Value of the property
    pub value: PropertyValue,
}

} // verus!
