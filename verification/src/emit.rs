//! The source text of the items that make a function a tool.

use vstd::prelude::*;
use crate::analyze::{parameters_model, FunctionDescriptor, FunctionModel, Parameter, ParameterModel};
use crate::definition::{ToolDefinition, ToolDefinitionModel};
use crate::json::json_text;
use crate::literal::{literal_of, push_literal};
use crate::naming::{GeneratedNames, GeneratedNamesModel};

verus! {

/// The error type: one variant, which carries the text of a failure.
pub open spec fn error_item(names: GeneratedNamesModel) -> Seq<char> {
    "#[derive(Debug, thiserror::Error)]\npub enum "@ + names.error_type
        + " {\n    #[error(\"Tool execution failed: {0}\")]\n    ExecutionError(String),\n}\n\n"@
}

/// The marker type: a unit struct, the tool's handle.
pub open spec fn marker_item(names: GeneratedNamesModel) -> Seq<char> {
    "#[derive(Debug, Clone, Copy, serde::Deserialize, serde::Serialize)]\npub struct "@
        + names.marker_type + ";\n\n"@
}

/// One field of the arguments type: a parameter's name and type.
pub open spec fn field_text(p: ParameterModel) -> Seq<char> {
    "    "@ + p.name + ": "@ + p.type_text + ",\n"@
}

/// The fields of the arguments type: one for each parameter, in the
/// parameters' order.
pub open spec fn fields_text(ps: Seq<ParameterModel>) -> Seq<char>
    decreases ps.len(),
{
    if ps.len() == 0 {
        Seq::empty()
    } else {
        fields_text(ps.drop_last()) + field_text(ps.last())
    }
}

/// The arguments type: a struct with the parameters as its fields.
pub open spec fn args_item(names: GeneratedNamesModel, ps: Seq<ParameterModel>) -> Seq<char> {
    "#[derive(Debug, serde::Deserialize, serde::Serialize)]\npub struct "@ + names.args_type
        + " {\n"@ + fields_text(ps) + "}\n\n"@
}

/// The arguments of the call: the fields of `args`, in the parameters'
/// order, with commas between them.
pub open spec fn call_arguments(ps: Seq<ParameterModel>) -> Seq<char>
    decreases ps.len(),
{
    if ps.len() == 0 {
        Seq::empty()
    } else if ps.len() == 1 {
        "args."@ + ps.last().name
    } else {
        call_arguments(ps.drop_last()) + ", args."@ + ps.last().name
    }
}

/// The call of the function on the fields of `args`, awaited where the
/// function is asynchronous.
pub open spec fn plain_call(f: FunctionModel) -> Seq<char> {
    f.name + "("@ + call_arguments(f.parameters) + ")"@ + if f.is_async {
        ".await"@
    } else {
        Seq::empty()
    }
}

/// The body of the invocation. Where a call can fail, the failure is
/// turned into its text; where it cannot, the value is wrapped as a
/// success.
pub open spec fn call_text(f: FunctionModel) -> Seq<char> {
    if f.fallible {
        plain_call(f) + ".map_err(|e| Self::Error::ExecutionError(e.to_string()))"@
    } else {
        "Ok("@ + plain_call(f) + ")"@
    }
}

/// The implementation of the tool's operations for the marker type.
pub open spec fn impl_item(
    f: FunctionModel,
    names: GeneratedNamesModel,
    definition: ToolDefinitionModel,
) -> Seq<char> {
    "impl rig::tool::Tool for "@ + names.marker_type + " {\n    const NAME: &'static str = "@
        + literal_of(definition.name) + ";\n\n    type Error = "@ + names.error_type
        + ";\n    type Args = "@ + names.args_type + ";\n    type Output = "@ + f.return_type
        + ";\n\n    async fn definition(&self, _prompt: String) -> rig::completion::ToolDefinition {\n        rig::completion::ToolDefinition {\n            name: Self::NAME.to_string(),\n            description: "@
        + literal_of(definition.description)
        + ".to_string(),\n            parameters: serde_json::json!("@ + json_text(
        definition.parameters,
    )
        + "),\n        }\n    }\n\n    async fn call(&self, args: Self::Args) -> Result<Self::Output, Self::Error> {\n        "@
        + call_text(f) + "\n    }\n}\n"@
}

/// Everything that is generated for one function: the error type, the
/// marker type, the arguments type, the function itself as it was
/// written, and the implementation of the tool's operations.
pub open spec fn generated_source(
    f: FunctionModel,
    names: GeneratedNamesModel,
    definition: ToolDefinitionModel,
) -> Seq<char> {
    error_item(names) + marker_item(names) + args_item(names, f.parameters) + f.source + "\n\n"@
        + impl_item(f, names, definition)
}

/// Appends the fields of the arguments type to `out`.
fn push_fields(out: &mut String, ps: &Vec<Parameter>)
    ensures
        final(out)@ == old(out)@ + fields_text(parameters_model(ps@)),
{
    let ghost start = out@;
    let ghost model = parameters_model(ps@);
    let mut i: usize = 0;
    assert(out@ =~= start + fields_text(model.take(0)));
    while i < ps.len()
        invariant
            i <= ps.len(),
            model == parameters_model(ps@),
            out@ == start + fields_text(model.take(i as int)),
        decreases ps.len() - i,
    {
        out.append("    ");
        out.append(ps[i].name.as_str());
        out.append(": ");
        out.append(ps[i].type_text.as_str());
        out.append(",\n");
        proof {
            assert(model.take(i + 1).drop_last() =~= model.take(i as int));
            assert(model.take(i + 1).last() == ps[i as int]@);
            assert(out@ =~= start + fields_text(model.take(i + 1)));
        }
        i = i + 1;
    }
    assert(model.take(ps.len() as int) =~= model);
}

/// Appends the arguments of the call to `out`.
fn push_call_arguments(out: &mut String, ps: &Vec<Parameter>)
    ensures
        final(out)@ == old(out)@ + call_arguments(parameters_model(ps@)),
{
    let ghost start = out@;
    let ghost model = parameters_model(ps@);
    let mut i: usize = 0;
    assert(out@ =~= start + call_arguments(model.take(0)));
    while i < ps.len()
        invariant
            i <= ps.len(),
            model == parameters_model(ps@),
            out@ == start + call_arguments(model.take(i as int)),
        decreases ps.len() - i,
    {
        if i > 0 {
            out.append(", args.");
        } else {
            out.append("args.");
        }
        out.append(ps[i].name.as_str());
        proof {
            assert(model.take(i + 1).drop_last() =~= model.take(i as int));
            assert(model.take(i + 1).last() == ps[i as int]@);
            assert(out@ =~= start + call_arguments(model.take(i + 1)));
        }
        i = i + 1;
    }
    assert(model.take(ps.len() as int) =~= model);
}

/// Appends the body of the invocation to `out`.
fn push_call(out: &mut String, f: &FunctionDescriptor)
    ensures
        final(out)@ == old(out)@ + call_text(f@),
{
    let ghost start = out@;
    if !f.fallible {
        out.append("Ok(");
    }
    out.append(f.name.as_str());
    out.append("(");
    push_call_arguments(out, &f.parameters);
    out.append(")");
    if f.is_async {
        out.append(".await");
    }
    if f.fallible {
        out.append(".map_err(|e| Self::Error::ExecutionError(e.to_string()))");
    } else {
        out.append(")");
    }
    assert(out@ =~= start + call_text(f@));
}

/// Writes everything that is generated for one function.
pub fn emit(f: &FunctionDescriptor, names: &GeneratedNames, definition: &ToolDefinition) -> (r:
    String)
    ensures
        r@ == generated_source(f@, names@, definition@),
{
    let mut out = String::new();
    out.append("#[derive(Debug, thiserror::Error)]\npub enum ");
    out.append(names.error_type.as_str());
    out.append(
        " {\n    #[error(\"Tool execution failed: {0}\")]\n    ExecutionError(String),\n}\n\n",
    );
    assert(out@ =~= error_item(names@));
    let ghost after_error = out@;
    out.append(
        "#[derive(Debug, Clone, Copy, serde::Deserialize, serde::Serialize)]\npub struct ",
    );
    out.append(names.marker_type.as_str());
    out.append(";\n\n");
    assert(out@ =~= after_error + marker_item(names@));
    let ghost after_marker = out@;
    out.append("#[derive(Debug, serde::Deserialize, serde::Serialize)]\npub struct ");
    out.append(names.args_type.as_str());
    out.append(" {\n");
    push_fields(&mut out, &f.parameters);
    out.append("}\n\n");
    assert(out@ =~= after_marker + args_item(names@, f@.parameters));
    out.append(f.source.as_str());
    out.append("\n\n");
    let ghost after_source = out@;
    out.append("impl rig::tool::Tool for ");
    out.append(names.marker_type.as_str());
    out.append(" {\n    const NAME: &'static str = ");
    push_literal(&mut out, definition.name.as_str());
    out.append(";\n\n    type Error = ");
    out.append(names.error_type.as_str());
    out.append(";\n    type Args = ");
    out.append(names.args_type.as_str());
    out.append(";\n    type Output = ");
    out.append(f.return_type.as_str());
    out.append(
        ";\n\n    async fn definition(&self, _prompt: String) -> rig::completion::ToolDefinition {\n        rig::completion::ToolDefinition {\n            name: Self::NAME.to_string(),\n            description: ",
    );
    push_literal(&mut out, definition.description.as_str());
    out.append(".to_string(),\n            parameters: serde_json::json!(");
    definition.parameters.write_to(&mut out);
    out.append(
        "),\n        }\n    }\n\n    async fn call(&self, args: Self::Args) -> Result<Self::Output, Self::Error> {\n        ",
    );
    push_call(&mut out, f);
    out.append("\n    }\n}\n");
    assert(out@ =~= after_source + impl_item(f@, names@, definition@));
    assert(out@ =~= generated_source(f@, names@, definition@));
    out
}

/// The fields of the arguments type and the arguments of the call come
/// in the parameters' order: those of the parameters in front stand in
/// front.
pub proof fn lemma_fields_keep_order(front: Seq<ParameterModel>, back: Seq<ParameterModel>)
    ensures
        fields_text(front + back) == fields_text(front) + fields_text(back),
        front.len() > 0 && back.len() > 0 ==> call_arguments(front + back) == call_arguments(front)
            + ", "@ + call_arguments(back),
    decreases back.len(),
{
    reveal_strlit(", args.");
    reveal_strlit("args.");
    reveal_strlit(", ");
    assert(", args."@ =~= ", "@ + "args."@);
    if back.len() == 0 {
        assert(front + back =~= front);
        assert(fields_text(front) + fields_text(back) =~= fields_text(front));
    } else {
        lemma_fields_keep_order(front, back.drop_last());
        assert((front + back).drop_last() =~= front + back.drop_last());
        assert((front + back).last() == back.last());
        assert(fields_text(front + back) =~= fields_text(front) + fields_text(back));
        if front.len() > 0 {
            if back.len() == 1 {
                assert(front + back.drop_last() =~= front);
                assert(call_arguments(front + back) =~= call_arguments(front) + ", "@
                    + call_arguments(back));
            } else {
                assert(call_arguments(front + back) =~= call_arguments(front) + ", "@
                    + call_arguments(back));
            }
        }
    }
}

} // verus!
