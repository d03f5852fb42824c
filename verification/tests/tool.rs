use quote::ToTokens;
use rig_tool_macro::analyze::DeclarationError;
use rig_tool_macro::attr::{AttrError, AttrToken};
use rig_tool_macro::json::Json;
use rig_tool_macro::literal::rust_literal;
use rig_tool_macro::syntax::{FnInput, FnSyntax, PathArgs, TypeExpr};
use rig_tool_macro::tool::{tool, GenerationError};

fn type_expr(ty: &syn::Type) -> TypeExpr {
    let text = ty.to_token_stream().to_string();
    let segment = match ty {
        syn::Type::Path(path) => path.path.segments.first(),
        _ => None,
    };
    match segment {
        None => TypeExpr::Other { text },
        Some(segment) => TypeExpr::Path {
            text,
            head: segment.ident.to_string(),
            args: match &segment.arguments {
                syn::PathArguments::None => PathArgs::Bare,
                syn::PathArguments::Parenthesized(_) => PathArgs::Paren,
                syn::PathArguments::AngleBracketed(list) => {
                    PathArgs::Angle(match list.args.first() {
                        Some(syn::GenericArgument::Type(first)) => Some(Box::new(type_expr(first))),
                        _ => None,
                    })
                }
            },
        },
    }
}

fn declaration(source: &str) -> FnSyntax {
    let item: syn::ItemFn = syn::parse_str(source).unwrap();
    FnSyntax {
        name: item.sig.ident.to_string(),
        inputs: item
            .sig
            .inputs
            .iter()
            .map(|input| match input {
                syn::FnArg::Receiver(_) => FnInput::Receiver,
                syn::FnArg::Typed(typed) => FnInput::Typed {
                    name: typed.pat.to_token_stream().to_string(),
                    ty: type_expr(&typed.ty),
                },
            })
            .collect(),
        output: match &item.sig.output {
            syn::ReturnType::Default => None,
            syn::ReturnType::Type(_, ty) => Some(type_expr(ty)),
        },
        is_async: item.sig.asyncness.is_some(),
        source: source.to_string(),
    }
}

fn description(text: &str) -> Vec<AttrToken> {
    vec![
        AttrToken::Ident("description".to_string()),
        AttrToken::Punct('='),
        AttrToken::Literal(proc_macro2::Literal::string(text).to_string()),
    ]
}

fn item_names(file: &syn::File) -> Vec<String> {
    file.items
        .iter()
        .map(|item| match item {
            syn::Item::Enum(e) => format!("enum {}", e.ident),
            syn::Item::Struct(s) => format!("struct {}", s.ident),
            syn::Item::Fn(f) => format!("fn {}", f.sig.ident),
            syn::Item::Impl(i) => format!("impl {}", i.self_ty.to_token_stream()),
            _ => "other".to_string(),
        })
        .collect()
}

#[test]
fn the_source_for_add() {
    let source = "fn add(a: u64, b: u64) -> Result<u64> {\n    Ok(a + b)\n}";
    let generated = tool(&vec![], &declaration(source)).unwrap();
    let expected = "#[derive(Debug, thiserror::Error)]
pub enum AddToolError {
    #[error(\"Tool execution failed: {0}\")]
    ExecutionError(String),
}

#[derive(Debug, Clone, Copy, serde::Deserialize, serde::Serialize)]
pub struct Add;

#[derive(Debug, serde::Deserialize, serde::Serialize)]
pub struct AddArgs {
    a: u64,
    b: u64,
}

fn add(a: u64, b: u64) -> Result<u64> {
    Ok(a + b)
}

impl rig::tool::Tool for Add {
    const NAME: &'static str = \"add\";

    type Error = AddToolError;
    type Args = AddArgs;
    type Output = u64;

    async fn definition(&self, _prompt: String) -> rig::completion::ToolDefinition {
        rig::completion::ToolDefinition {
            name: Self::NAME.to_string(),
            description: \"Function to add\".to_string(),
            parameters: serde_json::json!({\"type\": \"object\", \"properties\": {\"a\": {\"type\": \"number\", \"description\": \"Parameter a\"}, \"b\": {\"type\": \"number\", \"description\": \"Parameter b\"}}}),
        }
    }

    async fn call(&self, args: Self::Args) -> Result<Self::Output, Self::Error> {
        add(args.a, args.b).map_err(|e| Self::Error::ExecutionError(e.to_string()))
    }
}
";
    assert_eq!(generated, expected);
}

#[test]
fn the_source_is_a_file_of_five_items() {
    let source = "fn sum_numbers(numbers: Vec<i64>) -> Result<i64> { Ok(numbers.iter().sum()) }";
    let generated = tool(&vec![], &declaration(source)).unwrap();
    let file = syn::parse_file(&generated).unwrap();
    assert_eq!(
        item_names(&file),
        vec![
            "enum SumNumbersToolError",
            "struct SumNumbers",
            "struct SumNumbersArgs",
            "fn sum_numbers",
            "impl SumNumbers",
        ]
    );
}

#[test]
fn the_fields_keep_declaration_order() {
    let source = "fn f(zeta: u8, alpha: Vec<String>, mid: (bool, bool)) -> Result<u8> { Ok(zeta) }";
    let generated = tool(&vec![], &declaration(source)).unwrap();
    let file = syn::parse_file(&generated).unwrap();
    let args = match &file.items[2] {
        syn::Item::Struct(s) => s,
        _ => panic!("the third item is the arguments type"),
    };
    let fields: Vec<String> = args
        .fields
        .iter()
        .map(|f| {
            format!("{}: {}", f.ident.to_token_stream(), f.ty.to_token_stream())
        })
        .collect();
    assert_eq!(fields, vec!["zeta: u8", "alpha: Vec < String >", "mid: (bool , bool)"]);
    assert!(generated.contains("f(args.zeta, args.alpha, args.mid)"));
}

#[test]
fn an_asynchronous_function_is_awaited() {
    let source = "async fn fetch(url: String) -> Result<String, Error> { get(url).await }";
    let generated = tool(&vec![], &declaration(source)).unwrap();
    assert!(generated.contains(
        "        fetch(args.url).await.map_err(|e| Self::Error::ExecutionError(e.to_string()))\n"
    ));
    assert!(generated.contains("    type Output = String;\n"));
    assert!(syn::parse_file(&generated).is_ok());
}

#[test]
fn a_value_that_is_no_result_is_wrapped() {
    let source = "fn answer() -> (bool, bool) { (true, false) }";
    let generated = tool(&vec![], &declaration(source)).unwrap();
    assert!(generated.contains("        Ok(answer())\n"));
    assert!(generated.contains("    type Output = (bool , bool);\n"));
    assert!(syn::parse_file(&generated).is_ok());
    let source = "async fn later(n: u8) -> u8 { n }";
    let generated = tool(&vec![], &declaration(source)).unwrap();
    assert!(generated.contains("        Ok(later(args.n).await)\n"));
}

#[test]
fn a_description_reaches_the_source() {
    let text = "say \"hello\"\nand use a \\ backslash";
    let source = "fn greet() -> Result<String> { Ok(String::new()) }";
    let generated = tool(&description(text), &declaration(source)).unwrap();
    let file = syn::parse_file(&generated).unwrap();
    let printed = file.to_token_stream().to_string();
    let literal = rust_literal(text);
    assert!(generated.contains(&format!("description: {}.to_string()", literal)));
    assert!(printed.contains("description"));
    let back: syn::LitStr = syn::parse_str(&literal).unwrap();
    assert_eq!(back.value(), text);
}

#[test]
fn a_literal_denotes_its_text() {
    for text in [
        "",
        "plain",
        "\"",
        "\\",
        "\\n",
        "line\nfeed",
        "carriage\rreturn",
        "tab\tulator",
        "zero\0",
        "{braces} #[attr]",
        "\u{e9}t\u{e9} \u{5c71}",
        "'single'",
        "a\\\"b",
    ] {
        let back: syn::LitStr = syn::parse_str(&rust_literal(text)).unwrap();
        assert_eq!(back.value(), text);
    }
    assert_eq!(rust_literal("a\"b\\c\nd"), "\"a\\\"b\\\\c\\nd\"");
}

#[test]
fn the_text_of_a_json_value() {
    let value = Json::Object(vec![
        ("type".to_string(), Json::Text("array".to_string())),
        (
            "items".to_string(),
            Json::Object(vec![("type".to_string(), Json::Text("number".to_string()))]),
        ),
        ("description".to_string(), Json::Text("Parameter \"n\"".to_string())),
    ]);
    assert_eq!(
        value.to_source(),
        "{\"type\": \"array\", \"items\": {\"type\": \"number\"}, \"description\": \"Parameter \\\"n\\\"\"}"
    );
    assert_eq!(Json::Object(vec![]).to_source(), "{}");
    assert_eq!(Json::Text("x".to_string()).to_source(), "\"x\"");
    let read: serde_json::Value = serde_json::from_str(&value.to_source()).unwrap();
    assert_eq!(read["items"]["type"], serde_json::Value::String("number".to_string()));
    assert_eq!(read["description"], serde_json::Value::String("Parameter \"n\"".to_string()));
}

#[test]
fn the_attribute_is_read_first() {
    let broken = declaration("fn f() {}");
    assert_eq!(
        tool(&vec![AttrToken::Punct('=')], &broken),
        Err(GenerationError::Attribute(AttrError::ExpectedIdentifier))
    );
    assert_eq!(
        tool(&vec![], &broken),
        Err(GenerationError::Declaration(DeclarationError::MissingReturnType))
    );
}

#[test]
fn a_broken_declaration_generates_nothing() {
    assert_eq!(
        tool(&vec![], &declaration("fn f() -> Result { Ok(()) }")),
        Err(GenerationError::Declaration(DeclarationError::ResultWithoutArguments))
    );
    assert_eq!(
        tool(&vec![], &declaration("fn f<'a>() -> Result<'a> { Ok(()) }")),
        Err(GenerationError::Declaration(DeclarationError::ResultWithoutTypeArgument))
    );
    assert_eq!(
        tool(&description("x"), &declaration("fn f() -> Result<> { Ok(()) }")),
        Err(GenerationError::Declaration(DeclarationError::ResultWithoutTypeArgument))
    );
}

#[test]
fn a_generation_error_has_the_message_of_its_cause() {
    assert_eq!(
        GenerationError::Attribute(AttrError::ExpectedEquals).message(),
        "expected `=` after `description`"
    );
    assert_eq!(
        GenerationError::Declaration(DeclarationError::MissingReturnType).message(),
        "Function must return a Result"
    );
}

#[test]
fn a_function_without_parameters_is_called_without_arguments() {
    let source = "fn answer_secret_question() -> Result<(bool, bool, bool, bool, bool)> { Ok((false, false, true, false, false)) }";
    let generated = tool(&vec![], &declaration(source)).unwrap();
    assert!(generated.contains("pub struct AnswerSecretQuestionArgs {\n}\n"));
    assert!(generated.contains(
        "        answer_secret_question().map_err(|e| Self::Error::ExecutionError(e.to_string()))\n"
    ));
    assert!(generated.contains("parameters: serde_json::json!({\"type\": \"object\", \"properties\": {}}),"));
    assert!(syn::parse_file(&generated).is_ok());
}

#[test]
fn the_same_declaration_generates_the_same_source() {
    let source = "fn how_many_rs(s: String) -> Result<usize> { Ok(0) }";
    assert_eq!(tool(&vec![], &declaration(source)), tool(&vec![], &declaration(source)));
}
