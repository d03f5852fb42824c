//! From an attribute and a declaration to the generated source text.

use vstd::prelude::*;
use crate::analyze::{analyze, analyze_spec, DeclarationError};
use crate::attr::{parse_attr, AttrError, AttrToken, ToolAttr};
use crate::definition::{definition, definition_model};
use crate::emit::{emit, generated_source};
use crate::naming::{derive_names, names_for};
use crate::syntax::FnSyntax;

verus! {

/// Why nothing is generated for a function.
#[derive(Debug, Clone, Copy, PartialEq, Eq, Structural)]
pub enum GenerationError {
    /// The attribute's argument list is not accepted.
    Attribute(AttrError),
    /// The declaration cannot be made a tool.
    Declaration(DeclarationError),
}

impl GenerationError {
    /// The message that describes the error: that of the error inside.
    pub fn message(&self) -> (r: &'static str)
        ensures
            r@ == match *self {
                GenerationError::Attribute(e) => e.message_text(),
                GenerationError::Declaration(e) => e.message_text(),
            },
    {
        match self {
            GenerationError::Attribute(e) => e.message(),
            GenerationError::Declaration(e) => e.message(),
        }
    }
}

/// What is generated for a declaration under an attribute's arguments.
/// The arguments are read first, then the declaration; the first thing
/// that is wrong is the error, and then nothing is generated.
pub open spec fn tool_spec(attr: Seq<AttrToken>, item: FnSyntax) -> Result<
    Seq<char>,
    GenerationError,
> {
    match parse_attr(attr) {
        Err(e) => Err(GenerationError::Attribute(e)),
        Ok(supplied) => match analyze_spec(item) {
            Err(e) => Err(GenerationError::Declaration(e)),
            Ok(f) => Ok(generated_source(f, names_for(f.name), definition_model(f, supplied))),
        },
    }
}

/// The value of a generation result.
pub open spec fn generation_model(r: Result<String, GenerationError>) -> Result<
    Seq<char>,
    GenerationError,
> {
    match r {
        Ok(text) => Ok(text@),
        Err(e) => Err(e),
    }
}

/// Generates the source text that makes the declared function a tool.
pub fn tool(attr: &Vec<AttrToken>, item: &FnSyntax) -> (r: Result<String, GenerationError>)
    ensures
        generation_model(r) == tool_spec(attr@, *item),
{
    let attributes = match ToolAttr::parse(attr) {
        Ok(attributes) => attributes,
        Err(e) => {
            return Err(GenerationError::Attribute(e));
        },
    };
    let f = match analyze(item) {
        Ok(f) => f,
        Err(e) => {
            return Err(GenerationError::Declaration(e));
        },
    };
    let names = derive_names(f.name.as_str());
    let d = definition(&f, &attributes);
    Ok(emit(&f, &names, &d))
}

/// The names in what is generated follow from the function's name alone:
/// two declarations of one name get the same names, whatever their inputs
/// and their return types are.
pub proof fn lemma_names_follow_the_name(a: FnSyntax, b: FnSyntax)
    requires
        a.name@ == b.name@,
        analyze_spec(a) is Ok,
        analyze_spec(b) is Ok,
    ensures
        names_for(analyze_spec(a)->Ok_0.name) == names_for(analyze_spec(b)->Ok_0.name),
        names_for(analyze_spec(a)->Ok_0.name) == names_for(a.name@),
{
}

} // verus!
