//! The arguments of the attribute that marks a function as a tool.

use vstd::prelude::*;
use crate::text::is_word;

verus! {

/// One token of the attribute's argument list.
#[derive(Debug, PartialEq, Eq)]
pub enum AttrToken {
    /// An identifier, by its text.
    Ident(String),
    /// A punctuation character.
    Punct(char),
    /// A literal, by its source text.
    Literal(String),
    /// A bracketed group of tokens.
    Group,
}

/// What the attribute's arguments say of the tool.
#[derive(Debug, PartialEq, Eq)]
pub struct ToolAttr {
    /// The description that was supplied, if one was.
    pub description: Option<String>,
}

/// Why an argument list is not accepted.
#[derive(Debug, Clone, Copy, PartialEq, Eq, Structural)]
pub enum AttrError {
    /// The list does not start with an identifier.
    ExpectedIdentifier,
    /// `description` is not followed by `=`.
    ExpectedEquals,
    /// `description =` is not followed by a string literal.
    ExpectedStringLiteral,
    /// Something follows where the list should end.
    UnexpectedToken,
}

impl View for ToolAttr {
    type V = Option<Seq<char>>;

    open spec fn view(&self) -> Option<Seq<char>> {
        match self.description {
            Some(d) => Some(d@),
            None => None,
        }
    }
}

/// Whether the token is the identifier `word`.
pub open spec fn is_ident(token: AttrToken, word: Seq<char>) -> bool {
    token is Ident && token->Ident_0@ == word
}

/// The text that a string literal denotes, where `literal` is the source
/// text of one; `None` where it is anything else.
pub uninterp spec fn string_literal_value(literal: Seq<char>) -> Option<Seq<char>>;

/// Reads `literal` as a string literal with `syn::parse_str` and takes its
/// text with `syn::LitStr::value`.
///
/// Trusted: what comes back is a function of the source text alone, named
/// [`string_literal_value`]; nothing more is claimed of it.
#[verifier::external_body]
fn literal_value(literal: &str) -> (r: Option<String>)
    ensures
        match r {
            Some(text) => string_literal_value(literal@) == Some(text@),
            None => string_literal_value(literal@) is None,
        },
{
    match syn::parse_str::<syn::LitStr>(literal) {
        Ok(lit) => Some(lit.value()),
        Err(_) => None,
    }
}

/// The grammar of the argument list, with `literal` the text that the
/// third token denotes where it is a string literal. The list is empty, or
/// `description`, `=` and a string literal, which is then the description.
/// One identifier other than `description` is accepted and says nothing.
/// Everything else is an error, named by the first place where the list
/// goes wrong.
pub open spec fn parse_attr_with(tokens: Seq<AttrToken>, literal: Option<Seq<char>>) -> Result<
    Option<Seq<char>>,
    AttrError,
> {
    if tokens.len() == 0 {
        Ok(None)
    } else if !(tokens[0] is Ident) {
        Err(AttrError::ExpectedIdentifier)
    } else if !is_ident(tokens[0], "description"@) {
        if tokens.len() == 1 {
            Ok(None)
        } else {
            Err(AttrError::UnexpectedToken)
        }
    } else if tokens.len() < 2 || tokens[1] != AttrToken::Punct('=') {
        Err(AttrError::ExpectedEquals)
    } else if tokens.len() < 3 || literal is None {
        Err(AttrError::ExpectedStringLiteral)
    } else if tokens.len() > 3 {
        Err(AttrError::UnexpectedToken)
    } else {
        Ok(literal)
    }
}

/// The text that the third token denotes, where the list has one and it
/// is a string literal.
pub open spec fn third_literal(tokens: Seq<AttrToken>) -> Option<Seq<char>> {
    if tokens.len() >= 3 && tokens[2] is Literal {
        string_literal_value(tokens[2]->Literal_0@)
    } else {
        None
    }
}

/// The grammar of the argument list.
pub open spec fn parse_attr(tokens: Seq<AttrToken>) -> Result<Option<Seq<char>>, AttrError> {
    parse_attr_with(tokens, third_literal(tokens))
}

/// The value of a text that may be missing.
pub open spec fn text_model(text: Option<String>) -> Option<Seq<char>> {
    match text {
        Some(t) => Some(t@),
        None => None,
    }
}

/// The value of a parse result.
pub open spec fn attr_result_model(r: Result<ToolAttr, AttrError>) -> Result<
    Option<Seq<char>>,
    AttrError,
> {
    match r {
        Ok(attr) => Ok(attr@),
        Err(e) => Err(e),
    }
}

impl ToolAttr {
    /// Reads the attribute's argument list.
    pub fn parse(tokens: &Vec<AttrToken>) -> (r: Result<ToolAttr, AttrError>)
        ensures
            attr_result_model(r) == parse_attr(tokens@),
    {
        let literal = if tokens.len() >= 3 {
            match &tokens[2] {
                AttrToken::Literal(text) => literal_value(text.as_str()),
                _ => None,
            }
        } else {
            None
        };
        ToolAttr::with_literal(tokens, literal)
    }

    /// Reads the attribute's argument list, where `literal` is the text
    /// that the third token denotes if it is a string literal, and `None`
    /// if it is not.
    pub fn with_literal(tokens: &Vec<AttrToken>, literal: Option<String>) -> (r: Result<
        ToolAttr,
        AttrError,
    >)
        ensures
            attr_result_model(r) == parse_attr_with(tokens@, text_model(literal)),
    {
        if tokens.len() == 0 {
            return Ok(ToolAttr { description: None });
        }
        let is_description = match &tokens[0] {
            AttrToken::Ident(name) => is_word(name, "description"),
            _ => {
                return Err(AttrError::ExpectedIdentifier);
            },
        };
        if !is_description {
            if tokens.len() == 1 {
                return Ok(ToolAttr { description: None });
            }
            return Err(AttrError::UnexpectedToken);
        }
        if tokens.len() < 2 {
            return Err(AttrError::ExpectedEquals);
        }
        match &tokens[1] {
            AttrToken::Punct(c) => {
                if *c != '=' {
                    return Err(AttrError::ExpectedEquals);
                }
            },
            _ => {
                return Err(AttrError::ExpectedEquals);
            },
        }
        if tokens.len() < 3 {
            return Err(AttrError::ExpectedStringLiteral);
        }
        match literal {
            None => Err(AttrError::ExpectedStringLiteral),
            Some(text) => {
                if tokens.len() > 3 {
                    Err(AttrError::UnexpectedToken)
                } else {
                    Ok(ToolAttr { description: Some(text) })
                }
            },
        }
    }
}

impl AttrError {
    /// The message that describes the error.
    pub open spec fn message_text(self) -> Seq<char> {
        match self {
            AttrError::ExpectedIdentifier => "expected an identifier"@,
            AttrError::ExpectedEquals => "expected `=` after `description`"@,
            AttrError::ExpectedStringLiteral => "expected a string literal after `description =`"@,
            AttrError::UnexpectedToken => "unexpected token after the tool's attributes"@,
        }
    }

    /// The message that describes the error.
    pub fn message(&self) -> (r: &'static str)
        ensures
            r@ == self.message_text(),
    {
        match self {
            AttrError::ExpectedIdentifier => "expected an identifier",
            AttrError::ExpectedEquals => "expected `=` after `description`",
            AttrError::ExpectedStringLiteral => "expected a string literal after `description =`",
            AttrError::UnexpectedToken => "unexpected token after the tool's attributes",
        }
    }
}

} // verus!
