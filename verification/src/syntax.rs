//! The surface syntax of a function declaration, as far as a tool is built
//! from it.

use vstd::prelude::*;

verus! {

/// A type as it is written in a declaration.
///
/// `text` is the type's source text, which is carried through unchanged.
/// Of a path type the first segment's identifier is kept in `head`, with
/// the arguments that follow it.
#[derive(Debug, PartialEq, Eq)]
pub enum TypeExpr {
    Path { text: String, head: String, args: PathArgs },
    Other { text: String },
}

/// What follows the first segment of a path type.
#[derive(Debug, PartialEq, Eq)]
pub enum PathArgs {
    /// Nothing, as in `u64`.
    Bare,
    /// A list in angle brackets, as in `Vec<u64>`, with its first argument
    /// where that is a type; `None` where the list is empty or starts with
    /// something else, a lifetime for one.
    Angle(Option<Box<TypeExpr>>),
    /// A list in round brackets, as in `Fn(u64)`.
    Paren,
}

/// One input of a function declaration.
#[derive(Debug, PartialEq, Eq)]
pub enum FnInput {
    /// `self` in any of its forms.
    Receiver,
    /// A pattern with its type, as in `a: u64`.
    Typed { name: String, ty: TypeExpr },
}

/// A function declaration: what was written, before any analysis.
#[derive(Debug, PartialEq, Eq)]
pub struct FnSyntax {
    /// The function's identifier.
    pub name: String,
    /// The inputs in declaration order.
    pub inputs: Vec<FnInput>,
    /// The declared return type; `None` where the declaration has no `->`.
    pub output: Option<TypeExpr>,
    /// Whether the function is declared `async`.
    pub is_async: bool,
    /// The whole declaration's source text.
    pub source: String,
}

impl TypeExpr {
    /// The source text of the type.
    pub open spec fn text_of(self) -> Seq<char> {
        match self {
            TypeExpr::Path { text, .. } => text@,
            TypeExpr::Other { text } => text@,
        }
    }

    /// The source text of the type.
    pub fn text(&self) -> (r: &String)
        ensures
            r@ == self.text_of(),
    {
        match self {
            TypeExpr::Path { text, .. } => text,
            TypeExpr::Other { text } => text,
        }
    }
}

} // verus!
