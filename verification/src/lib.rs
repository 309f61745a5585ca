//! Renders a documentation model of a typed source language (functions,
//! variables, classes, enums, interfaces, type aliases, namespaces and their
//! type expressions) as plain text for a console.
//!
//! Every function states the exact text it produces, over the characters of
//! the strings and the elements of the vectors that the model holds. The
//! text is returned to the caller, who writes it wherever it should go.
//!
//! - [`ts_type`]: type expressions and their canonical text;
//! - [`node`]: documentation nodes and their one-line signatures;
//! - [`jsdoc`]: comments, split into paragraphs and laid out as lines;
//! - [`order`]: the order in which the nodes of a collection are printed;
//! - [`tree`]: the text of a collection of nodes and of one node in detail;
//! - [`printer`]: the printer that renders all of these;
//! - [`text`]: indentation, joining and decimal numbers.

pub mod jsdoc;
pub mod node;
pub mod order;
pub mod printer;
pub mod text;
pub mod tree;
pub mod ts_type;

pub use node::{DocNode, DocNodeDef, DocNodeKind};
pub use printer::TerminalPrinter;
pub use ts_type::TsTypeDef;
