# prisma_codegen

Generates, for every model of a Prisma schema, the Rust module of a Prisma
client: its field query modules, the `_outputs` selection, the `Data` record
type, the `WithParam`, `SetParam`, `OrderByParam`, `Cursor`, `WhereParam` and
`UniqueWhereParam` enums with their conversions, and the `Actions` struct.

The code is written as Rust source text and verified with Verus: every
function states exactly what text it produces, in terms of the schema.

Layout of `src/`:

- `schema.rs`: the schema as the generator reads it (models, fields, filters).
- `casing.rs`: case conversion through `convert_case` (trusted, named result);
  the names it converts must be ASCII, so `generate` asks that of the schema.
- `text.rs`: joining texts and writing string literals (as proc-macro2 writes them).
- `templates.rs`: the text snippets that the generator fills in.
- `params.rs`, `where_params.rs`, `data.rs`, `modules.rs`: the builders of the
  parts of a model module (`Outputs`, `WithParams`, `SetParams`,
  `OrderByParams`, `PaginationParams`, `WhereParams`, `DataStruct`, `Actions`,
  `FieldQueryModule`, `ModelQueryModules`).
- `parts.rs`, `model_spec.rs`: what each operator, index and field of a model
  adds to those parts, and the module text that results.
- `generate.rs`: the generator itself (`generate`), proved to produce that text.
- `tokens.rs`: the same modules as `proc_macro2` token streams.
- `laws.rs`: properties of every generated module.
