//! From a declaration as written to the descriptor that a tool is built
//! from.

use vstd::prelude::*;
use crate::classify::{classify, classify_spec, TypeDescriptor};
use crate::text::is_word;
use crate::syntax::{FnInput, FnSyntax, PathArgs, TypeExpr};

verus! {

/// One parameter of the function.
#[derive(Debug, PartialEq, Eq)]
pub struct Parameter {
    /// The parameter's name.
    pub name: String,
    /// The source text of its type.
    pub type_text: String,
    /// The class of its type.
    pub class: TypeDescriptor,
}

/// What a tool is built from.
#[derive(Debug, PartialEq, Eq)]
pub struct FunctionDescriptor {
    /// The function's identifier, as written.
    pub name: String,
    /// The parameters in declaration order.
    pub parameters: Vec<Parameter>,
    /// The source text of the type of the value that a successful call
    /// gives.
    pub return_type: String,
    /// Whether the declared return type is a `Result`, so that a call can
    /// fail.
    pub fallible: bool,
    /// Whether the function is declared `async`.
    pub is_async: bool,
    /// The whole declaration's source text.
    pub source: String,
}

/// Why a declaration cannot be made a tool.
#[derive(Debug, Clone, Copy, PartialEq, Eq, Structural)]
pub enum DeclarationError {
    /// The declaration has no return type.
    MissingReturnType,
    /// The return type is `Result` without a list in angle brackets.
    ResultWithoutArguments,
    /// The return type is `Result<..>` and its list does not start with a
    /// type.
    ResultWithoutTypeArgument,
}

impl DeclarationError {
    /// The message that describes the error.
    pub open spec fn message_text(self) -> Seq<char> {
        match self {
            DeclarationError::MissingReturnType => "Function must return a Result"@,
            DeclarationError::ResultWithoutArguments => "Expected angle bracketed arguments in Result"@,
            DeclarationError::ResultWithoutTypeArgument => "Expected type argument in Result"@,
        }
    }

    /// The message that describes the error.
    pub fn message(&self) -> (r: &'static str)
        ensures
            r@ == self.message_text(),
    {
        match self {
            DeclarationError::MissingReturnType => "Function must return a Result",
            DeclarationError::ResultWithoutArguments => "Expected angle bracketed arguments in Result",
            DeclarationError::ResultWithoutTypeArgument => "Expected type argument in Result",
        }
    }
}

/// The mathematical value of a [`Parameter`].
pub ghost struct ParameterModel {
    pub name: Seq<char>,
    pub type_text: Seq<char>,
    pub class: TypeDescriptor,
}

/// The mathematical value of a [`FunctionDescriptor`].
pub ghost struct FunctionModel {
    pub name: Seq<char>,
    pub parameters: Seq<ParameterModel>,
    pub return_type: Seq<char>,
    pub fallible: bool,
    pub is_async: bool,
    pub source: Seq<char>,
}

impl View for Parameter {
    type V = ParameterModel;

    open spec fn view(&self) -> ParameterModel {
        ParameterModel { name: self.name@, type_text: self.type_text@, class: self.class }
    }
}

/// The values of a list of parameters, in their order.
pub open spec fn parameters_model(parameters: Seq<Parameter>) -> Seq<ParameterModel> {
    Seq::new(parameters.len(), |i: int| parameters[i]@)
}

impl View for FunctionDescriptor {
    type V = FunctionModel;

    open spec fn view(&self) -> FunctionModel {
        FunctionModel {
            name: self.name@,
            parameters: parameters_model(self.parameters@),
            return_type: self.return_type@,
            fallible: self.fallible,
            is_async: self.is_async,
            source: self.source@,
        }
    }
}

/// The parameter that an input declares; a receiver declares none.
pub open spec fn typed_parameter(input: FnInput) -> Option<ParameterModel> {
    match input {
        FnInput::Receiver => None,
        FnInput::Typed { name, ty } => Some(
            ParameterModel { name: name@, type_text: ty.text_of(), class: classify_spec(ty) },
        ),
    }
}

/// The parameters of a list of inputs: those of its typed inputs, in
/// declaration order.
pub open spec fn parameters_of(inputs: Seq<FnInput>) -> Seq<ParameterModel> {
    inputs.filter_map(|input: FnInput| typed_parameter(input))
}

/// The type of a successful call's value and whether a call can fail, read
/// from the declared return type. Of `Result<T, ..>` it is `T`, and a call
/// can fail; any other type is itself the type of the value, and a call
/// cannot fail.
pub open spec fn return_shape(output: Option<TypeExpr>) -> Result<
    (Seq<char>, bool),
    DeclarationError,
> {
    match output {
        None => Err(DeclarationError::MissingReturnType),
        Some(TypeExpr::Other { text }) => Ok((text@, false)),
        Some(TypeExpr::Path { text, head, args }) => {
            if head@ != "Result"@ {
                Ok((text@, false))
            } else {
                match args {
                    PathArgs::Angle(Some(first)) => Ok((first.text_of(), true)),
                    PathArgs::Angle(None) => Err(DeclarationError::ResultWithoutTypeArgument),
                    _ => Err(DeclarationError::ResultWithoutArguments),
                }
            }
        },
    }
}

/// The descriptor of a declaration, or why it has none.
pub open spec fn analyze_spec(f: FnSyntax) -> Result<FunctionModel, DeclarationError> {
    match return_shape(f.output) {
        Err(e) => Err(e),
        Ok((return_type, fallible)) => Ok(
            FunctionModel {
                name: f.name@,
                parameters: parameters_of(f.inputs@),
                return_type,
                fallible,
                is_async: f.is_async,
                source: f.source@,
            },
        ),
    }
}

/// Reads the declared return type.
pub fn return_type_of(output: &Option<TypeExpr>) -> (r: Result<(String, bool), DeclarationError>)
    ensures
        match r {
            Ok((text, fallible)) => return_shape(*output) == Ok::<
                (Seq<char>, bool),
                DeclarationError,
            >((text@, fallible)),
            Err(e) => return_shape(*output) == Err::<(Seq<char>, bool), DeclarationError>(e),
        },
{
    match output {
        None => Err(DeclarationError::MissingReturnType),
        Some(TypeExpr::Other { text }) => Ok((text.clone(), false)),
        Some(TypeExpr::Path { text, head, args }) => {
            if !is_word(head, "Result") {
                Ok((text.clone(), false))
            } else {
                match args {
                    PathArgs::Angle(Some(first)) => Ok((first.text().clone(), true)),
                    PathArgs::Angle(None) => Err(DeclarationError::ResultWithoutTypeArgument),
                    _ => Err(DeclarationError::ResultWithoutArguments),
                }
            }
        },
    }
}

/// Collects the parameters of a list of inputs.
pub fn parameters(inputs: &Vec<FnInput>) -> (r: Vec<Parameter>)
    ensures
        parameters_model(r@) == parameters_of(inputs@),
{
    let mut out: Vec<Parameter> = Vec::new();
    let mut i: usize = 0;
    assert(parameters_model(out@) =~= parameters_of(inputs@.take(0)));
    while i < inputs.len()
        invariant
            i <= inputs.len(),
            parameters_model(out@) == parameters_of(inputs@.take(i as int)),
        decreases inputs.len() - i,
    {
        proof {
            inputs@.lemma_filter_map_take_succ(|input: FnInput| typed_parameter(input), i as int);
        }
        match &inputs[i] {
            FnInput::Receiver => {},
            FnInput::Typed { name, ty } => {
                let parameter = Parameter {
                    name: name.clone(),
                    type_text: ty.text().clone(),
                    class: classify(ty),
                };
                assert(parameters_model(out@.push(parameter)) =~= parameters_model(out@).push(
                    parameter@,
                ));
                out.push(parameter);
            },
        }
        i = i + 1;
    }
    assert(inputs@.take(inputs.len() as int) =~= inputs@);
    out
}

/// The value of an analysis result.
pub open spec fn analysis_model(r: Result<FunctionDescriptor, DeclarationError>) -> Result<
    FunctionModel,
    DeclarationError,
> {
    match r {
        Ok(d) => Ok(d@),
        Err(e) => Err(e),
    }
}

/// Analyzes a declaration.
pub fn analyze(f: &FnSyntax) -> (r: Result<FunctionDescriptor, DeclarationError>)
    ensures
        analysis_model(r) == analyze_spec(*f),
{
    match return_type_of(&f.output) {
        Err(e) => Err(e),
        Ok((return_type, fallible)) => Ok(
            FunctionDescriptor {
                name: f.name.clone(),
                parameters: parameters(&f.inputs),
                return_type,
                fallible,
                is_async: f.is_async,
                source: f.source.clone(),
            },
        ),
    }
}

/// The parameters of a list of inputs come in declaration order: those of
/// the inputs in front stand in front.
pub proof fn lemma_parameters_keep_order(front: Seq<FnInput>, back: Seq<FnInput>)
    ensures
        parameters_of(front + back) == parameters_of(front) + parameters_of(back),
    decreases back.len(),
{
    if back.len() == 0 {
        assert(front + back =~= front);
        assert(parameters_of(front) + parameters_of(back) =~= parameters_of(front));
    } else {
        lemma_parameters_keep_order(front, back.drop_last());
        assert((front + back).drop_last() =~= front + back.drop_last());
        assert((front + back).last() == back.last());
        assert(parameters_of(front + back) =~= parameters_of(front) + parameters_of(back));
    }
}

/// Where no input is a receiver, every input is a parameter, at its own
/// position.
pub proof fn lemma_parameters_of_typed_inputs(inputs: Seq<FnInput>)
    requires
        forall|i: int| 0 <= i < inputs.len() ==> #[trigger] inputs[i] is Typed,
    ensures
        parameters_of(inputs).len() == inputs.len(),
        forall|i: int|
            0 <= i < inputs.len() ==> Some(#[trigger] parameters_of(inputs)[i]) == typed_parameter(
                inputs[i],
            ),
    decreases inputs.len(),
{
    if inputs.len() > 0 {
        lemma_parameters_of_typed_inputs(inputs.drop_last());
        assert(inputs.last() is Typed);
        assert forall|i: int| 0 <= i < inputs.len() implies Some(
            #[trigger] parameters_of(inputs)[i],
        ) == typed_parameter(inputs[i]) by {
            if i < inputs.len() - 1 {
                assert(inputs.drop_last()[i] == inputs[i]);
                assert(parameters_of(inputs)[i] == parameters_of(inputs.drop_last())[i]);
            }
        }
    }
}

} // verus!
