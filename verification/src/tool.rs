//! MCP tool definition value object.

use crate::error::ToolRegistryDomainError;
use crate::json::{JsonValue, JsonView};
use crate::text::{chars_of, string_from_chars, trim_spec};
use vstd::prelude::*;

verus! {

/// Abstract content of a tool definition.
pub struct ToolView {
    /// Tool name, trimmed and non-empty.
    pub name: Seq<char>,
    /// Description, trimmed and non-empty.
    pub description: Seq<char>,
    /// Input schema.
    pub input_schema: JsonView,
    /// Optional output schema.
    pub output_schema: Option<JsonView>,
}

/// Canonical metadata for a tool exposed by an MCP server.
#[derive(Debug, PartialEq, Eq)]
pub struct McpToolDefinition {
    name: String,
    description: String,
    input_schema: JsonValue,
    output_schema: Option<JsonValue>,
}

/// View of an optional JSON value.
pub open spec fn opt_json_view(o: Option<JsonValue>) -> Option<JsonView> {
    match o {
        Some(v) => Some(v@),
        None => None,
    }
}

impl View for McpToolDefinition {
    type V = ToolView;

    closed spec fn view(&self) -> ToolView {
        ToolView {
            name: self.name@,
            description: self.description@,
            input_schema: self.input_schema@,
            output_schema: opt_json_view(self.output_schema),
        }
    }
}

impl McpToolDefinition {
    #[verifier::type_invariant]
    closed spec fn inv(self) -> bool {
        self.name@.len() > 0 && self.description@.len() > 0
    }

    /// Creates a tool definition; name and description are trimmed and must
    /// not be blank (the name is checked first).
    pub fn new(name: &str, description: &str, input_schema: JsonValue) -> (r: Result<
        Self,
        ToolRegistryDomainError,
    >)
        ensures
            match r {
                Ok(t) => trim_spec(name@).len() > 0 && trim_spec(description@).len() > 0 && t@
                    == (ToolView {
                    name: trim_spec(name@),
                    description: trim_spec(description@),
                    input_schema: input_schema@,
                    output_schema: None,
                }),
                Err(e) => (trim_spec(name@).len() == 0 && e == ToolRegistryDomainError::EmptyToolName)
                    || (trim_spec(name@).len() > 0 && trim_spec(description@).len() == 0 && e
                    == ToolRegistryDomainError::EmptyToolDescription),
            },
    {
        let n = crate::text::trim_chars(chars_of(name).as_slice());
        if n.len() == 0 {
            return Err(ToolRegistryDomainError::EmptyToolName);
        }
        let d = crate::text::trim_chars(chars_of(description).as_slice());
        if d.len() == 0 {
            return Err(ToolRegistryDomainError::EmptyToolDescription);
        }
        Ok(
            McpToolDefinition {
                name: string_from_chars(n.as_slice()),
                description: string_from_chars(d.as_slice()),
                input_schema,
                output_schema: None,
            },
        )
    }

    /// Sets the output schema.
    pub fn with_output_schema(self, output_schema: JsonValue) -> (r: Self)
        ensures
            r@ == (ToolView { output_schema: Some(output_schema@), ..self@ }),
    {
        proof {
            use_type_invariant(&self);
        }
        let McpToolDefinition { name, description, input_schema, output_schema: _ } = self;
        McpToolDefinition { name, description, input_schema, output_schema: Some(output_schema) }
    }

    /// Returns the tool name.
    pub fn name(&self) -> (r: &str)
        ensures
            r@ == self@.name,
            r@.len() > 0,
    {
        proof {
            use_type_invariant(self);
        }
        self.name.as_str()
    }

    /// Returns the tool description.
    pub fn description(&self) -> (r: &str)
        ensures
            r@ == self@.description,
    {
        self.description.as_str()
    }

    /// Returns the input schema.
    pub fn input_schema(&self) -> (r: &JsonValue)
        ensures
            r@ == self@.input_schema,
    {
        &self.input_schema
    }

    /// Returns the optional output schema.
    pub fn output_schema(&self) -> (r: Option<&JsonValue>)
        ensures
            match r {
                Some(v) => self@.output_schema == Some(v@),
                None => self@.output_schema is None,
            },
    {
        match &self.output_schema {
            Some(v) => Some(v),
            None => None,
        }
    }

    /// A deep copy of this definition.
    pub fn cloned(&self) -> (r: Self)
        ensures
            r@ == self@,
    {
        proof {
            use_type_invariant(self);
        }
        let output_schema = match &self.output_schema {
            Some(v) => Some(v.cloned()),
            None => None,
        };
        McpToolDefinition {
            name: self.name.clone(),
            description: self.description.clone(),
            input_schema: self.input_schema.cloned(),
            output_schema,
        }
    }
}

} // verus!
