//! Test-data builders derived from a record's declaration: the engine that reads the
//! fields, classifies their types, and writes the builder, together with an executable
//! model of what a written builder does.

pub mod builder;
pub mod classify;
pub mod decimal;
pub mod emit;
pub mod example;
pub mod extract;
pub mod model;
pub mod value;

pub use crate::builder::Builder;
pub use crate::classify::{classify, parse_field_type};
pub use crate::emit::{entry_point, generate_output_tokens};
pub use crate::example::{ExampleBuilder, TemplateExample};
pub use crate::extract::get_fields;
