//! Makes a plain function a tool that an agent can call.
//!
//! From a function's declaration and the arguments of the attribute that
//! marks it, [`tool`] generates the source text of an error type, a marker
//! type, an arguments type and the implementation of the tool's
//! operations. The steps on the way are offered one by one:
//!
//! - [`attr`] reads the attribute's arguments,
//! - [`analyze`] reads the declaration ([`syntax`]) into a descriptor,
//! - [`naming`] derives the names of the generated types,
//! - [`classify`] maps each parameter's type to a schema fragment
//!   ([`json`]),
//! - [`definition`] builds what the tool says of itself,
//! - [`emit`] writes the generated items ([`literal`]),
//! - [`invoke`] calls the function behind a tool and brings a failure to
//!   one shape.
//!
//! [`calculator`] holds a few small functions to offer as tools.

pub mod analyze;
pub mod attr;
pub mod calculator;
pub mod classify;
pub mod definition;
pub mod emit;
pub mod invoke;
pub mod json;
pub mod literal;
pub mod naming;
pub mod syntax;
pub mod text;
pub mod tool;

pub use crate::tool::tool;
