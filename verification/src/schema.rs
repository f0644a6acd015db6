//! The declared shape of a tool: its name and its parameters.

use vstd::prelude::*;
use crate::json::JsonValue;

verus! {

/// A parameter that is given by position.
#[derive(Debug, Clone)]
pub struct PositionalSchema {
    pub name: String,
    pub param_type: String,
    pub description: String,
    pub required: bool,
    pub index: Option<usize>,
}

/// A named parameter that takes a value.
#[derive(Debug, Clone)]
pub struct OptionSchema {
    pub name: String,
    pub param_type: String,
    pub description: String,
    pub required: bool,
    pub short: Option<String>,
    pub value_name: Option<String>,
    pub default: Option<JsonValue>,
}

/// A named parameter that is either present or absent.
#[derive(Debug, Clone)]
pub struct FlagSchema {
    pub name: String,
    pub param_type: String,
    pub description: String,
    pub required: bool,
    pub short: Option<String>,
}

/// A tool: a structured name, a description and the parameters it takes.
#[derive(Debug, Clone)]
pub struct ToolSchema {
    pub name: String,
    pub description: String,
    pub positionals: Vec<PositionalSchema>,
    pub options: Vec<OptionSchema>,
    pub flags: Vec<FlagSchema>,
}

/// All the tools of one schema.
#[derive(Debug)]
pub struct SchemaFile {
    pub tools: Vec<ToolSchema>,
}

} // verus!
