//! The descriptor that advertises a tool: its name, its description and
//! the schema of its parameters.

use vstd::prelude::*;
use crate::analyze::{parameters_model, FunctionDescriptor, FunctionModel, Parameter, ParameterModel};
use crate::attr::ToolAttr;
use crate::classify::{fragment_members, schema_members};
use crate::json::{member_keys, members_model, push_member, Json, JsonModel};

verus! {

/// What a tool says of itself.
#[derive(Debug, PartialEq, Eq)]
pub struct ToolDefinition {
    /// The function's name, as written.
    pub name: String,
    /// What the tool is for.
    pub description: String,
    /// The schema of the parameters.
    pub parameters: Json,
}

/// The mathematical value of a [`ToolDefinition`].
pub ghost struct ToolDefinitionModel {
    pub name: Seq<char>,
    pub description: Seq<char>,
    pub parameters: JsonModel,
}

impl View for ToolDefinition {
    type V = ToolDefinitionModel;

    open spec fn view(&self) -> ToolDefinitionModel {
        ToolDefinitionModel {
            name: self.name@,
            description: self.description@,
            parameters: self.parameters@,
        }
    }
}

/// The description of a tool: the text that was supplied, or else
/// `Function to ` and the function's name.
pub open spec fn description_of(name: Seq<char>, supplied: Option<Seq<char>>) -> Seq<char> {
    match supplied {
        Some(text) => text,
        None => "Function to "@ + name,
    }
}

/// The schema of one parameter: the fragment of its class, then
/// `description` with `Parameter ` and the parameter's name.
pub open spec fn property_model(p: ParameterModel) -> JsonModel {
    JsonModel::Object(
        fragment_members(p.class).push(("description"@, JsonModel::Text("Parameter "@ + p.name))),
    )
}

/// The properties of a schema: one member for each parameter, under the
/// parameter's name, in the parameters' order.
pub open spec fn properties_model(ps: Seq<ParameterModel>) -> Seq<(Seq<char>, JsonModel)> {
    Seq::new(ps.len(), |i: int| (ps[i].name, property_model(ps[i])))
}

/// The schema of a list of parameters: an object with the parameters as
/// its properties.
pub open spec fn schema_model(ps: Seq<ParameterModel>) -> JsonModel {
    JsonModel::Object(
        seq![
            ("type"@, JsonModel::Text("object"@)),
            ("properties"@, JsonModel::Object(properties_model(ps))),
        ],
    )
}

/// The descriptor of a function with the description that was supplied.
pub open spec fn definition_model(
    f: FunctionModel,
    supplied: Option<Seq<char>>,
) -> ToolDefinitionModel {
    ToolDefinitionModel {
        name: f.name,
        description: description_of(f.name, supplied),
        parameters: schema_model(f.parameters),
    }
}

/// The names of a list of parameters, in their order.
pub open spec fn parameter_names(ps: Seq<ParameterModel>) -> Seq<Seq<char>> {
    Seq::new(ps.len(), |i: int| ps[i].name)
}

/// The properties of a schema are keyed by the parameters' names, in the
/// parameters' order.
pub proof fn lemma_properties_keep_order(ps: Seq<ParameterModel>)
    ensures
        member_keys(properties_model(ps)) == parameter_names(ps),
        schema_model(ps)->Object_0[1].1 == JsonModel::Object(properties_model(ps)),
{
    assert(member_keys(properties_model(ps)) =~= parameter_names(ps));
}

/// Builds the description of a tool.
pub fn describe(name: &str, attr: &ToolAttr) -> (r: String)
    ensures
        r@ == description_of(name@, attr@),
{
    match &attr.description {
        Some(text) => text.clone(),
        None => String::from_str("Function to ").concat(name),
    }
}

/// Builds the schema of one parameter.
pub fn property(p: &Parameter) -> (r: Json)
    ensures
        r@ == property_model(p@),
{
    let mut members = schema_members(&p.class);
    let text = String::from_str("Parameter ").concat(p.name.as_str());
    push_member(&mut members, "description", Json::Text(text));
    Json::object(members)
}

/// Builds the schema of a list of parameters.
pub fn parameter_schema(ps: &Vec<Parameter>) -> (r: Json)
    ensures
        r@ == schema_model(parameters_model(ps@)),
{
    let mut properties: Vec<(String, Json)> = Vec::new();
    let mut i: usize = 0;
    while i < ps.len()
        invariant
            i <= ps.len(),
            members_model(properties@) == properties_model(parameters_model(ps@).take(i as int)),
        decreases ps.len() - i,
    {
        push_member(&mut properties, ps[i].name.as_str(), property(&ps[i]));
        assert(members_model(properties@) =~= properties_model(
            parameters_model(ps@).take(i + 1),
        ));
        i = i + 1;
    }
    assert(parameters_model(ps@).take(ps.len() as int) =~= parameters_model(ps@));
    let mut members: Vec<(String, Json)> = Vec::new();
    push_member(&mut members, "type", Json::text("object"));
    push_member(&mut members, "properties", Json::object(properties));
    assert(members_model(members@) =~= schema_model(parameters_model(ps@))->Object_0);
    Json::object(members)
}

/// Builds the descriptor of a function. The name is the function's own,
/// as written. The description is the supplied text, character for
/// character, or else `Function to ` and the name.
pub fn definition(f: &FunctionDescriptor, attr: &ToolAttr) -> (r: ToolDefinition)
    ensures
        r@ == definition_model(f@, attr@),
        r.name@ == f.name@,
        attr.description is None ==> r.description@ == "Function to "@ + f.name@,
        attr.description matches Some(text) ==> r.description@ == text@,
{
    ToolDefinition {
        name: f.name.clone(),
        description: describe(f.name.as_str(), attr),
        parameters: parameter_schema(&f.parameters),
    }
}

} // verus!
