//! Lint rules over a plain-value model of an ECMAScript / TypeScript syntax
//! tree. Each rule is a visitor that reads nodes handed to it and appends its
//! findings to a [`context::Context`]; what every rule reports is stated in its
//! contract over the views of the nodes.

pub mod context;
pub mod rules;
pub mod syntax;
