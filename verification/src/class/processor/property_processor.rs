use vstd::prelude::*;
use vstd::string::*;

use crate::class::values::{Property, PropertyValue};
use crate::utils::decimal::{decimal_text, integer_to_string};
use crate::utils::text::pair_texts;

verus! {

/// The text of a value: strings, numbers, references and expressions as they are, booleans as
/// `true` or `false`, a macro as its count and name around a colon, and a list as the texts
/// of its items between square brackets.
pub open spec fn rendered(value: PropertyValue) -> Seq<char>
    decreases value,
{
    match value {
        PropertyValue::String(s) => s@,
        PropertyValue::Number(text) => text@,
        PropertyValue::Integer(n) => decimal_text(n as int),
        PropertyValue::Boolean(b) => if b {
            "true"@
        } else {
            "false"@
        },
        PropertyValue::Array(items) => "["@ + rendered_items(items@) + "]"@,
        PropertyValue::Reference(name) => name@,
        PropertyValue::Expression(source) => source@,
        PropertyValue::Macro { count, name } => count@ + ":"@ + name@,
    }
}

/// The texts of the items of a list, with a comma and a space between neighbours.
pub open spec fn rendered_items(items: Seq<PropertyValue>) -> Seq<char>
    decreases items,
{
    if items.len() == 0 {
        Seq::empty()
    } else if items.len() == 1 {
        rendered(items[0])
    } else {
        rendered_items(items.drop_last()) + ", "@ + rendered(items.last())
    }
}

/// The text of a value where lists are not written out: a list is the placeholder `[array]`.
pub open spec fn rendered_brief(value: PropertyValue) -> Seq<char> {
    match value {
        PropertyValue::Array(_) => "[array]"@,
        _ => rendered(value),
    }
}

/// The name of the kind of a value; a list that is not empty adds the kind of its first item.
pub open spec fn value_type_name(value: PropertyValue) -> Seq<char>
    decreases value,
{
    match value {
        PropertyValue::String(_) => "string"@,
        PropertyValue::Number(_) => "number"@,
        PropertyValue::Integer(_) => "integer"@,
        PropertyValue::Boolean(_) => "boolean"@,
        PropertyValue::Array(items) => if items@.len() == 0 {
            "array"@
        } else {
            "array<"@ + value_type_name(items@[0]) + ">"@
        },
        PropertyValue::Reference(_) => "reference"@,
        PropertyValue::Expression(_) => "expression"@,
        PropertyValue::Macro { .. } => "macro"@,
    }
}

/// The key and full text of each property, in order.
pub open spec fn processed(properties: Seq<Property>) -> Seq<(Seq<char>, Seq<char>)> {
    properties.map_values(|p: Property| (p.name@, rendered(p.value)))
}

/// The key and brief text of each property, in order.
pub open spec fn collected(properties: Seq<Property>) -> Seq<(Seq<char>, Seq<char>)> {
    properties.map_values(|p: Property| (p.name@, rendered_brief(p.value)))
}

/// The key and full text of each keyed value, in order.
pub open spec fn processed_entries(entries: Seq<(String, PropertyValue)>) -> Seq<
    (Seq<char>, Seq<char>),
> {
    entries.map_values(|e: (String, PropertyValue)| (e.0@, rendered(e.1)))
}

/// The key and brief text of each keyed value, in order.
pub open spec fn collected_entries(entries: Seq<(String, PropertyValue)>) -> Seq<
    (Seq<char>, Seq<char>),
> {
    entries.map_values(|e: (String, PropertyValue)| (e.0@, rendered_brief(e.1)))
}

/// Property processor for processing class properties
#[derive(Debug)]
pub struct PropertyProcessor {}

impl Default for PropertyProcessor {
    fn default() -> Self {
        PropertyProcessor {  }
    }
}

impl PropertyProcessor {
    /// Create a new property processor
    pub fn new() -> Self {
        PropertyProcessor {  }
    }

    /// Convert a value to a string representation
    pub fn value_to_string(&self, value: &PropertyValue) -> (text: String)
        ensures
            text@ == rendered(*value),
        decreases *value,
    {
        match value {
            PropertyValue::String(s) => s.clone(),
            PropertyValue::Number(text) => text.clone(),
            PropertyValue::Integer(n) => integer_to_string(*n),
            PropertyValue::Boolean(b) => if *b {
                String::from_str("true")
            } else {
                String::from_str("false")
            },
            PropertyValue::Array(items) => {
                let mut text = String::from_str("[");
                let inner = self.items_to_string(items);
                text.append(inner.as_str());
                text.append("]");
                text
            },
            PropertyValue::Reference(name) => name.clone(),
            PropertyValue::Expression(source) => source.clone(),
            PropertyValue::Macro { count, name } => {
                let mut text = count.clone();
                text.append(":");
                text.append(name.as_str());
                text
            },
        }
    }

    /// The texts of the items of a list, separated by a comma and a space
    fn items_to_string(&self, items: &Vec<PropertyValue>) -> (text: String)
        ensures
            text@ == rendered_items(items@),
        decreases *items,
    {
        let mut text = String::new();
        let mut i: usize = 0;
        while i < items.len()
            invariant
                i <= items.len(),
                text@ == rendered_items(items@.take(i as int)),
            decreases items.len() - i,
        {
            if i > 0 {
                text.append(", ");
            }
            let item = self.value_to_string(&items[i]);
            text.append(item.as_str());
            proof {
                let upto = items@.take(i + 1);
                assert(upto.drop_last() =~= items@.take(i as int));
                assert(upto.last() == items@[i as int]);
                if i == 0 {
                    assert(upto[0] == items@[0]);
                }
                assert(text@ =~= rendered_items(upto));
            }
            i += 1;
        }
        assert(items@.take(i as int) =~= items@);
        text
    }

    /// The text of a value for a listing that does not write lists out
    fn brief_value_to_string(&self, value: &PropertyValue) -> (text: String)
        ensures
            text@ == rendered_brief(*value),
    {
        match value {
            PropertyValue::Array(_) => String::from_str("[array]"),
            _ => self.value_to_string(value),
        }
    }

    /// Collect properties from a list of properties without processing them
    pub fn collect_properties_from_list(&self, properties: &[Property]) -> (result: Vec<
        (String, String),
    >)
        ensures
            pair_texts(result@) == collected(properties@),
    {
        let mut collected_properties: Vec<(String, String)> = Vec::with_capacity(properties.len());
        let mut i: usize = 0;
        while i < properties.len()
            invariant
                i <= properties.len(),
                collected_properties.len() == i,
                forall|k: int|
                    0 <= k < i ==> (#[trigger] collected_properties@[k]).0@ == properties@[k].name@
                        && collected_properties@[k].1@ == rendered_brief(properties@[k].value),
            decreases properties.len() - i,
        {
            let key = properties[i].name.clone();
            let text = self.brief_value_to_string(&properties[i].value);
            collected_properties.push((key, text));
            i += 1;
        }
        assert(pair_texts(collected_properties@) =~= collected(properties@));
        collected_properties
    }

    /// Collect the properties of a keyed list without processing them
    pub fn collect_properties(&self, properties: &[(String, PropertyValue)]) -> (result: Vec<
        (String, String),
    >)
        ensures
            pair_texts(result@) == collected_entries(properties@),
    {
        let mut collected_properties: Vec<(String, String)> = Vec::with_capacity(properties.len());
        let mut i: usize = 0;
        while i < properties.len()
            invariant
                i <= properties.len(),
                collected_properties.len() == i,
                forall|k: int|
                    0 <= k < i ==> (#[trigger] collected_properties@[k]).0@ == properties@[k].0@
                        && collected_properties@[k].1@ == rendered_brief(properties@[k].1),
            decreases properties.len() - i,
        {
            let key = properties[i].0.clone();
            let text = self.brief_value_to_string(&properties[i].1);
            collected_properties.push((key, text));
            i += 1;
        }
        assert(pair_texts(collected_properties@) =~= collected_entries(properties@));
        collected_properties
    }

    /// Process properties from a list of properties
    pub fn process_properties_from_list(&self, properties: &[Property]) -> (result: Vec<
        (String, String),
    >)
        ensures
            pair_texts(result@) == processed(properties@),
    {
        let mut processed_properties: Vec<(String, String)> = Vec::with_capacity(properties.len());
        let mut i: usize = 0;
        while i < properties.len()
            invariant
                i <= properties.len(),
                processed_properties.len() == i,
                forall|k: int|
                    0 <= k < i ==> (#[trigger] processed_properties@[k]).0@ == properties@[k].name@
                        && processed_properties@[k].1@ == rendered(properties@[k].value),
            decreases properties.len() - i,
        {
            let key = properties[i].name.clone();
            let text = self.value_to_string(&properties[i].value);
            processed_properties.push((key, text));
            i += 1;
        }
        assert(pair_texts(processed_properties@) =~= processed(properties@));
        processed_properties
    }

    /// Process the properties of a keyed list
    pub fn process_properties(&self, properties: &[(String, PropertyValue)]) -> (result: Vec<
        (String, String),
    >)
        ensures
            pair_texts(result@) == processed_entries(properties@),
    {
        let mut processed_properties: Vec<(String, String)> = Vec::with_capacity(properties.len());
        let mut i: usize = 0;
        while i < properties.len()
            invariant
                i <= properties.len(),
                processed_properties.len() == i,
                forall|k: int|
                    0 <= k < i ==> (#[trigger] processed_properties@[k]).0@ == properties@[k].0@
                        && processed_properties@[k].1@ == rendered(properties@[k].1),
            decreases properties.len() - i,
        {
            let key = properties[i].0.clone();
            let text = self.value_to_string(&properties[i].1);
            processed_properties.push((key, text));
            i += 1;
        }
        assert(pair_texts(processed_properties@) =~= processed_entries(properties@));
        processed_properties
    }

    /// Get the type of a value as a string
    pub fn get_value_type(&self, value: &PropertyValue) -> (name: String)
        ensures
            name@ == value_type_name(*value),
        decreases *value,
    {
        match value {
            PropertyValue::String(_) => String::from_str("string"),
            PropertyValue::Number(_) => String::from_str("number"),
            PropertyValue::Integer(_) => String::from_str("integer"),
            PropertyValue::Boolean(_) => String::from_str("boolean"),
            PropertyValue::Array(items) => {
                if items.len() == 0 {
                    String::from_str("array")
                } else {
                    let mut name = String::from_str("array<");
                    let inner = self.get_value_type(&items[0]);
                    name.append(inner.as_str());
                    name.append(">");
                    name
                }
            },
            PropertyValue::Reference(_) => String::from_str("reference"),
            PropertyValue::Expression(_) => String::from_str("expression"),
            PropertyValue::Macro { .. } => String::from_str("macro"),
        }
    }
}

} // verus!
