use rig_tool_macro::analyze::{analyze, parameters, return_type_of, DeclarationError, Parameter};
use rig_tool_macro::classify::TypeDescriptor;
use rig_tool_macro::syntax::{FnInput, FnSyntax, PathArgs, TypeExpr};

fn simple(name: &str) -> TypeExpr {
    TypeExpr::Path { text: name.to_string(), head: name.to_string(), args: PathArgs::Bare }
}

fn generic(head: &str, first: TypeExpr, text: &str) -> TypeExpr {
    TypeExpr::Path {
        text: text.to_string(),
        head: head.to_string(),
        args: PathArgs::Angle(Some(Box::new(first))),
    }
}

fn input(name: &str, ty: TypeExpr) -> FnInput {
    FnInput::Typed { name: name.to_string(), ty }
}

fn declaration(name: &str, inputs: Vec<FnInput>, output: Option<TypeExpr>) -> FnSyntax {
    FnSyntax { name: name.to_string(), inputs, output, is_async: false, source: String::new() }
}

#[test]
fn a_result_gives_its_first_argument() {
    let output = Some(generic("Result", simple("u64"), "Result<u64>"));
    assert_eq!(return_type_of(&output), Ok(("u64".to_string(), true)));
    let nested = Some(generic(
        "Result",
        generic("Vec", simple("String"), "Vec<String>"),
        "Result<Vec<String>, MyError>",
    ));
    assert_eq!(return_type_of(&nested), Ok(("Vec<String>".to_string(), true)));
}

#[test]
fn another_type_is_taken_whole() {
    assert_eq!(return_type_of(&Some(simple("u64"))), Ok(("u64".to_string(), false)));
    let tuple = Some(TypeExpr::Other { text: "(bool, bool)".to_string() });
    assert_eq!(return_type_of(&tuple), Ok(("(bool, bool)".to_string(), false)));
    let option = Some(generic("Option", simple("u8"), "Option<u8>"));
    assert_eq!(return_type_of(&option), Ok(("Option<u8>".to_string(), false)));
    let qualified = Some(TypeExpr::Path {
        text: "anyhow::Result<u8>".to_string(),
        head: "anyhow".to_string(),
        args: PathArgs::Bare,
    });
    assert_eq!(return_type_of(&qualified), Ok(("anyhow::Result<u8>".to_string(), false)));
}

#[test]
fn a_declaration_without_a_return_type_is_refused() {
    assert_eq!(return_type_of(&None), Err(DeclarationError::MissingReturnType));
    assert_eq!(
        analyze(&declaration("f", vec![], None)),
        Err(DeclarationError::MissingReturnType)
    );
}

#[test]
fn a_result_without_arguments_is_refused() {
    assert_eq!(
        return_type_of(&Some(simple("Result"))),
        Err(DeclarationError::ResultWithoutArguments)
    );
    let round = Some(TypeExpr::Path {
        text: "Result(u8)".to_string(),
        head: "Result".to_string(),
        args: PathArgs::Paren,
    });
    assert_eq!(return_type_of(&round), Err(DeclarationError::ResultWithoutArguments));
}

#[test]
fn a_result_without_a_type_argument_is_refused() {
    let output = Some(TypeExpr::Path {
        text: "Result<'a>".to_string(),
        head: "Result".to_string(),
        args: PathArgs::Angle(None),
    });
    assert_eq!(return_type_of(&output), Err(DeclarationError::ResultWithoutTypeArgument));
}

#[test]
fn parameters_keep_declaration_order() {
    let inputs = vec![
        input("zeta", simple("u8")),
        input("alpha", simple("String")),
        input("mid", generic("Vec", simple("bool"), "Vec<bool>")),
    ];
    let found = parameters(&inputs);
    assert_eq!(
        found,
        vec![
            Parameter {
                name: "zeta".to_string(),
                type_text: "u8".to_string(),
                class: TypeDescriptor::Number,
            },
            Parameter {
                name: "alpha".to_string(),
                type_text: "String".to_string(),
                class: TypeDescriptor::Text,
            },
            Parameter {
                name: "mid".to_string(),
                type_text: "Vec<bool>".to_string(),
                class: TypeDescriptor::Sequence(Some(Box::new(TypeDescriptor::Boolean))),
            },
        ]
    );
}

#[test]
fn a_receiver_is_no_parameter() {
    let inputs = vec![
        FnInput::Receiver,
        input("a", simple("u8")),
        FnInput::Receiver,
        input("b", simple("u8")),
    ];
    let found = parameters(&inputs);
    assert_eq!(found.len(), 2);
    assert_eq!(found[0].name, "a");
    assert_eq!(found[1].name, "b");
    assert_eq!(parameters(&vec![FnInput::Receiver]), vec![]);
}

#[test]
fn a_declaration_becomes_its_descriptor() {
    let f = FnSyntax {
        name: "sum_numbers".to_string(),
        inputs: vec![input("numbers", generic("Vec", simple("i64"), "Vec<i64>"))],
        output: Some(generic("Result", simple("i64"), "Result<i64>")),
        is_async: true,
        source: "async fn sum_numbers(numbers: Vec<i64>) -> Result<i64> { Ok(0) }".to_string(),
    };
    let d = analyze(&f).unwrap();
    assert_eq!(d.name, "sum_numbers");
    assert_eq!(d.parameters.len(), 1);
    assert_eq!(d.parameters[0].name, "numbers");
    assert_eq!(d.parameters[0].type_text, "Vec<i64>");
    assert_eq!(d.return_type, "i64");
    assert!(d.fallible);
    assert!(d.is_async);
    assert_eq!(d.source, f.source);
}

#[test]
fn every_declaration_error_has_its_message() {
    assert_eq!(DeclarationError::MissingReturnType.message(), "Function must return a Result");
    assert_eq!(
        DeclarationError::ResultWithoutArguments.message(),
        "Expected angle bracketed arguments in Result"
    );
    assert_eq!(
        DeclarationError::ResultWithoutTypeArgument.message(),
        "Expected type argument in Result"
    );
}
