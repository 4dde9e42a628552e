//! Code generation for the per-model modules of a Prisma client.
//!
//! Every generated fragment is Rust source text; the contracts describe that
//! text exactly, in terms of the schema that is handed in.

pub mod casing;
pub mod data;
pub mod generate;
pub mod laws;
pub mod model_spec;
pub mod modules;
pub mod params;
pub mod parts;
pub mod schema;
pub mod semantics;
pub mod templates;
pub mod text;
pub mod tokens;
pub mod where_params;
