//! Prompt templates: a markdown document with an optional front-matter header
//! that declares positional parameters, and the substitution of argument
//! values for those parameters in the document's body.

pub mod command_template;
pub mod markdown_doc;
pub mod parameters;
pub mod replace;
pub mod text;
pub mod yaml;

pub use command_template::{AiderCommand, ArityError, CommandTemplate};
pub use markdown_doc::MarkdownDoc;
pub use parameters::HeaderParseError;
