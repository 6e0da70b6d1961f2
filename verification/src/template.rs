//! The parameter schema that a template declares.
//!
//! A template is a JSON document whose `Parameters` member maps each
//! parameter name to its specification. Everything else in the document is
//! passed through unread.

use vstd::prelude::*;
use vstd::string::StringExecFns;
use serde_json::Value;
use crate::error::SchemaError;
use crate::json::{
    as_object, as_text, entries_of, entries_view, json_document, json_member, json_object,
    json_text_member, member, object_entries, parse_document,
};
use crate::text::{lemma_text_precedes_irreflexive, text_precedes};

verus! {

/// One declared parameter.
#[derive(Debug, Clone, PartialEq, Eq)]
pub struct ParameterSpec {
    pub name: String,
    /// The `Type` member, where it is a string.
    pub declared_type: Option<String>,
    /// The `Description` member, where it is a string.
    pub description: Option<String>,
    /// Whether the specification has a `Default` member, whatever its value.
    pub has_default: bool,
}

/// A `ParameterSpec` with its texts as character sequences.
pub struct ParameterSpecView {
    pub name: Seq<char>,
    pub declared_type: Option<Seq<char>>,
    pub description: Option<Seq<char>>,
    pub has_default: bool,
}

/// The characters of an optional string.
pub open spec fn optional_text(text: Option<String>) -> Option<Seq<char>> {
    match text {
        Some(t) => Some(t@),
        None => None,
    }
}

impl View for ParameterSpec {
    type V = ParameterSpecView;

    open spec fn view(&self) -> ParameterSpecView {
        ParameterSpecView {
            name: self.name@,
            declared_type: optional_text(self.declared_type),
            description: optional_text(self.description),
            has_default: self.has_default,
        }
    }
}

impl ParameterSpecView {
    /// The description shown to the operator.
    pub open spec fn description_text(self) -> Seq<char> {
        match self.description {
            Some(text) => text,
            None => "No description"@,
        }
    }

    /// The type shown to the operator.
    pub open spec fn type_text(self) -> Seq<char> {
        match self.declared_type {
            Some(text) => text,
            None => "Unknown type"@,
        }
    }
}

/// The views of a vector of parameters.
pub open spec fn parameter_views(parameters: Seq<ParameterSpec>) -> Seq<ParameterSpecView> {
    parameters.map_values(|p: ParameterSpec| p@)
}

/// The declared names, in schema order.
pub open spec fn names_of(schema: Seq<ParameterSpecView>) -> Seq<Seq<char>> {
    schema.map_values(|p: ParameterSpecView| p.name)
}

/// A schema declares each name once.
pub open spec fn well_formed_schema(schema: Seq<ParameterSpecView>) -> bool {
    names_of(schema).no_duplicates()
}

/// The names of a schema ascend: each comes before every later one.
pub open spec fn names_ascend(schema: Seq<ParameterSpecView>) -> bool {
    forall|i: int, j: int|
        0 <= i < j < schema.len() ==> text_precedes(
            (#[trigger] schema[i]).name,
            (#[trigger] schema[j]).name,
        )
}

/// The parameter that one entry of the `Parameters` object declares.
pub open spec fn parameter_of_entry(entry: (Seq<char>, Value)) -> ParameterSpecView {
    ParameterSpecView {
        name: entry.0,
        declared_type: json_text_member(entry.1, "Type"@),
        description: json_text_member(entry.1, "Description"@),
        has_default: json_member(entry.1, "Default"@) is Some,
    }
}

/// The schema that a JSON document declares, or the reason it declares none.
pub open spec fn document_schema(document: Value) -> Result<Seq<ParameterSpecView>, SchemaError> {
    match json_member(document, "Parameters"@) {
        None => Err(SchemaError::MissingParameters),
        Some(parameters) => match json_object(parameters) {
            None => Err(SchemaError::ParametersNotObject),
            Some(map) => Ok(
                object_entries(map).map_values(|e: (Seq<char>, Value)| parameter_of_entry(e)),
            ),
        },
    }
}

/// The schema that a template text declares, or the reason it declares none.
pub open spec fn template_schema(text: Seq<char>) -> Result<Seq<ParameterSpecView>, SchemaError> {
    match json_document(text) {
        None => Err(SchemaError::Malformed),
        Some(document) => document_schema(document),
    }
}

impl ParameterSpec {
    /// The description to show when prompting: the declared one, or a
    /// placeholder.
    pub fn description_text(&self) -> (r: String)
        ensures
            r@ == self@.description_text(),
    {
        match &self.description {
            Some(text) => text.clone(),
            None => String::from_str("No description"),
        }
    }

    /// The type to show when prompting: the declared one, or a placeholder.
    pub fn type_text(&self) -> (r: String)
        ensures
            r@ == self@.type_text(),
    {
        match &self.declared_type {
            Some(text) => text.clone(),
            None => String::from_str("Unknown type"),
        }
    }
}

/// A copy of an optional string.
pub fn copy_text(text: &Option<String>) -> (r: Option<String>)
    ensures
        optional_text(r) == optional_text(*text),
{
    match text {
        Some(t) => Some(t.clone()),
        None => None,
    }
}

/// The text of the member of `value` under `key`, where it is a string.
fn text_member(value: &Value, key: &str) -> (r: Option<String>)
    ensures
        optional_text(r) == json_text_member(*value, key@),
{
    match member(value, key) {
        Some(found) => match as_text(found) {
            Some(text) => Some(String::from_str(text)),
            None => None,
        },
        None => None,
    }
}

/// The declared parameters of a template, in the order in which the
/// `Parameters` object hands them out. No name occurs twice.
pub struct TemplateSchema {
    parameters: Vec<ParameterSpec>,
}

impl View for TemplateSchema {
    type V = Seq<ParameterSpecView>;

    closed spec fn view(&self) -> Seq<ParameterSpecView> {
        parameter_views(self.parameters@)
    }
}

impl TemplateSchema {
    #[verifier::type_invariant]
    spec fn names_are_distinct(self) -> bool {
        well_formed_schema(parameter_views(self.parameters@))
    }

    /// A schema of the given parameters; `None` where a name occurs twice.
    pub fn from_parameters(parameters: Vec<ParameterSpec>) -> (r: Option<TemplateSchema>)
        ensures
            r is Some <==> well_formed_schema(parameter_views(parameters@)),
            r matches Some(schema) ==> schema@ == parameter_views(parameters@),
    {
        let ghost names = names_of(parameter_views(parameters@));
        let mut i: usize = 0;
        while i < parameters.len()
            invariant
                i <= parameters.len(),
                names == names_of(parameter_views(parameters@)),
                forall|a: int, b: int| 0 <= a < b < i ==> names[a] != names[b],
            decreases parameters.len() - i,
        {
            let mut j: usize = 0;
            while j < i
                invariant
                    j <= i < parameters.len(),
                    names == names_of(parameter_views(parameters@)),
                    forall|a: int| 0 <= a < j ==> names[a] != names[i as int],
                decreases i - j,
            {
                if parameters[j].name == parameters[i].name {
                    assert(names[j as int] == names[i as int]);
                    return None;
                }
                j = j + 1;
            }
            i = i + 1;
        }
        assert(names.no_duplicates()) by {
            assert forall|a: int, b: int|
                0 <= a < names.len() && 0 <= b < names.len() && a != b implies names[a]
                != names[b] by {
                if a < b {
                } else {
                    assert(names[b] != names[a]);
                }
            }
        }
        Some(TemplateSchema { parameters })
    }

    /// The schema that a parsed document declares. Its parameters come in
    /// the order of their names.
    pub fn from_document(document: &Value) -> (r: Result<TemplateSchema, SchemaError>)
        ensures
            match r {
                Ok(schema) => document_schema(*document) == Ok::<_, SchemaError>(schema@)
                    && names_ascend(schema@),
                Err(error) => document_schema(*document) == Err::<Seq<ParameterSpecView>, _>(
                    error,
                ),
            },
    {
        let declared = match member(document, "Parameters") {
            Some(found) => found,
            None => {
                return Err(SchemaError::MissingParameters);
            },
        };
        let map = match as_object(declared) {
            Some(map) => map,
            None => {
                return Err(SchemaError::ParametersNotObject);
            },
        };
        let entries = entries_of(map);
        let ghost expected = object_entries(*map).map_values(
            |e: (Seq<char>, Value)| parameter_of_entry(e),
        );
        let mut parameters: Vec<ParameterSpec> = Vec::new();
        let mut i: usize = 0;
        while i < entries.len()
            invariant
                i <= entries.len(),
                entries_view(entries@) == object_entries(*map),
                expected == object_entries(*map).map_values(
                    |e: (Seq<char>, Value)| parameter_of_entry(e),
                ),
                parameters@.len() == i,
                forall|k: int| 0 <= k < i ==> (#[trigger] parameters@[k])@ == expected[k],
            decreases entries.len() - i,
        {
            let value: &Value = entries[i].1;
            assert(entries_view(entries@)[i as int] == (entries@[i as int].0@, *value));
            let parameter = ParameterSpec {
                name: entries[i].0.clone(),
                declared_type: text_member(value, "Type"),
                description: text_member(value, "Description"),
                has_default: member(value, "Default").is_some(),
            };
            assert(parameter@ == expected[i as int]);
            parameters.push(parameter);
            i = i + 1;
        }
        assert(parameter_views(parameters@) =~= expected);
        assert(names_ascend(expected)) by {
            assert forall|a: int, b: int| 0 <= a < b < expected.len() implies text_precedes(
                (#[trigger] expected[a]).name,
                (#[trigger] expected[b]).name,
            ) by {
                assert(entries_view(entries@)[a].0 == entries@[a].0@);
                assert(entries_view(entries@)[b].0 == entries@[b].0@);
            }
        }
        assert(well_formed_schema(expected)) by {
            let names = names_of(expected);
            assert forall|a: int, b: int|
                0 <= a < names.len() && 0 <= b < names.len() && a != b implies names[a]
                != names[b] by {
                lemma_text_precedes_irreflexive(names[a]);
                if a < b {
                    assert(text_precedes(expected[a].name, expected[b].name));
                } else {
                    assert(text_precedes(expected[b].name, expected[a].name));
                }
            }
        }
        Ok(TemplateSchema { parameters })
    }

    /// The schema that a template text declares. Its parameters come in
    /// the order of their names.
    pub fn parse(text: &str) -> (r: Result<TemplateSchema, SchemaError>)
        ensures
            match r {
                Ok(schema) => template_schema(text@) == Ok::<_, SchemaError>(schema@)
                    && names_ascend(schema@),
                Err(error) => template_schema(text@) == Err::<Seq<ParameterSpecView>, _>(error),
            },
    {
        match parse_document(text) {
            Ok(document) => TemplateSchema::from_document(&document),
            Err(_) => Err(SchemaError::Malformed),
        }
    }

    /// The number of declared parameters. The names are distinct.
    pub fn len(&self) -> (n: usize)
        ensures
            n == self@.len(),
            well_formed_schema(self@),
    {
        proof {
            use_type_invariant(self);
        }
        self.parameters.len()
    }

    /// The parameter at `index`, in schema order.
    pub(crate) fn parameter(&self, index: usize) -> (p: &ParameterSpec)
        requires
            index < self@.len(),
        ensures
            p@ == self@[index as int],
    {
        &self.parameters[index]
    }

    /// The parameter at `index`, in schema order; `None` past the end.
    pub fn get(&self, index: usize) -> (p: Option<&ParameterSpec>)
        ensures
            p is Some <==> index < self@.len(),
            p matches Some(parameter) ==> parameter@ == self@[index as int],
    {
        if index < self.parameters.len() {
            Some(&self.parameters[index])
        } else {
            None
        }
    }
}

} // verus!
