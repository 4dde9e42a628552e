use vstd::prelude::*;

use crate::casing::{pascal, snake};
use crate::data::{
    create_arg, create_arg_destructured, create_arg_params_push, create_arg_tuple_type,
    data_struct_code,
};
use crate::modules::{query_modules_code, FieldModuleView};
use crate::params::{
    cursor_arm, cursor_variant, link_variant_name, many_with_arm, many_with_variant, order_by_arm,
    order_by_fn, order_by_params_code, order_by_variant, output_names, outputs_fn,
    pagination_fns, pagination_params_code, set_params_code, set_variant_name, single_with_arm,
    single_with_variant, unlink_variant_name, with_fn, with_params_code,
};
use crate::parts::{
    empty_parts, join_contributions, join_parts, no_contribution, only_parts, Contribution,
    ModelParts,
};
use crate::schema::{first_filter, first_named, Ast, Field, FieldKind, FilterMethod, Index, Method, Model};
use crate::templates::{
    vec_of, option_of, with_payload, into_call, path_in, operator_where_variant, operator_where_arm, typed_arg, index_pair, compound_accessor, index_where_arm, index_from_unique_arm, relation_where_variant, relation_where_arm, relation_method_fn, fetch_many_fn, link_many_struct, many_link_variant, many_link_arm, relation_serde_attr, relation_data_field, related_data, boxed, fetch_one_fn, link_one_struct, one_link_variant, one_link_arm, one_unlink_arm, unlink_fn, optional_value, set_fn, set_struct, set_arm, equals_arm, unique_from_arm, optional_unique_from_arm, unique_equals_fn, optional_unique_equals_fn, plain_equals_fn, order_fn, cursor_fn, scalar_data_field, write_method_fn, write_arm, read_list_value, read_arm, read_method_fn, model_module,
};
use crate::text::{concatenated, joined, literal, terminated, texts};
use crate::where_params::{optional_unique_impls, where_params_code};

verus! {

// ---------------------------------------------------------------------------------------------
// Logical operators
// ---------------------------------------------------------------------------------------------

/// A logical operator adds a where variant that holds a list of filters.
pub open spec fn operator_parts(op: Method) -> ModelParts {
    let variant = pascal(op.name@);
    ModelParts {
        where_variants: seq![operator_where_variant(variant)],
        where_arms: seq![operator_where_arm(variant, literal(op.action@))],
        ..empty_parts()
    }
}

pub open spec fn operators_parts(ops: Seq<Method>) -> ModelParts
    decreases ops.len(),
{
    if ops.len() == 0 {
        empty_parts()
    } else {
        join_parts(operators_parts(ops.drop_last()), operator_parts(ops.last()))
    }
}

// ---------------------------------------------------------------------------------------------
// Compound unique indexes
// ---------------------------------------------------------------------------------------------

/// Every field that a compound index names is a field of the model.
pub open spec fn indexes_resolve(model: Model) -> bool {
    forall|i: int, k: int|
        0 <= i < model.indexes@.len() && 0 <= k < model.indexes@[i].fields@.len()
            ==> #[trigger] first_named(model.fields@, model.indexes@[i].fields@[k]@) is Some
}

/// The model field that a column of an index names.
pub open spec fn column_field(model: Model, name: Seq<char>) -> Field {
    first_named(model.fields@, name)->Some_0
}

/// The Rust type of a column of an index.
pub open spec fn column_type(f: Field) -> Seq<char> {
    if f.is_list {
        vec_of(f.field_type.rust_type@)
    } else {
        f.field_type.rust_type@
    }
}

pub open spec fn column_arg(model: Model, name: Seq<char>) -> Seq<char> {
    typed_arg(snake(name), column_type(column_field(model, name)))
}

pub open spec fn column_pair(model: Model, name: Seq<char>) -> Seq<char> {
    let f = column_field(model, name);
    index_pair(literal(name), f.field_type.query_value_of(snake(name), f.is_list))
}

/// The pascal-case names of the columns, run together.
pub open spec fn index_base_name(names: Seq<Seq<char>>) -> Seq<char> {
    concatenated(Seq::new(names.len(), |k: int| pascal(names[k])))
}

pub open spec fn index_args(model: Model, names: Seq<Seq<char>>) -> Seq<Seq<char>> {
    Seq::new(names.len(), |k: int| column_arg(model, names[k]))
}

pub open spec fn index_types(model: Model, names: Seq<Seq<char>>) -> Seq<Seq<char>> {
    Seq::new(names.len(), |k: int| column_type(column_field(model, names[k])))
}

pub open spec fn index_destructured(names: Seq<Seq<char>>) -> Seq<Seq<char>> {
    Seq::new(names.len(), |k: int| snake(names[k]))
}

pub open spec fn index_pairs(model: Model, names: Seq<Seq<char>>) -> Seq<Seq<char>> {
    Seq::new(names.len(), |k: int| column_pair(model, names[k]))
}

/// A compound unique index adds a unique where variant and an accessor function.
pub open spec fn index_parts(model: Model, index: Index) -> ModelParts {
    let names = texts(index.fields@);
    let base = index_base_name(names);
    let variant_name = base + "Equals"@;
    let destructured = joined(index_destructured(names), ", "@);
    let variant = with_payload(variant_name, joined(index_types(model, names), ", "@));
    ModelParts {
        where_variants: seq![variant],
        where_arms: seq![
            index_where_arm(
                variant_name,
                destructured,
                literal(joined(names, "_"@)),
                joined(index_pairs(model, names), ", "@),
            ),
        ],
        unique_variants: seq![variant],
        unique_arms: seq![index_from_unique_arm(variant_name, destructured)],
        accessors: seq![
            compound_accessor(
                snake(base),
                joined(index_args(model, names), ", "@),
                variant_name,
                destructured,
            ),
        ],
        ..empty_parts()
    }
}

pub open spec fn indexes_parts(model: Model, indexes: Seq<Index>) -> ModelParts
    decreases indexes.len(),
{
    if indexes.len() == 0 {
        empty_parts()
    } else {
        join_parts(indexes_parts(model, indexes.drop_last()), index_parts(model, indexes.last()))
    }
}

// ---------------------------------------------------------------------------------------------
// Relation fields
// ---------------------------------------------------------------------------------------------

/// The name of the module of the model that a relation field points to.
pub open spec fn relation_module(f: Field) -> Seq<char> {
    snake(f.field_type.name@)
}

pub open spec fn create_parts(field: Seq<char>, variant_type: Seq<char>) -> ModelParts {
    ModelParts {
        create_args: seq![create_arg(field, variant_type)],
        create_tuple_types: seq![create_arg_tuple_type(field, variant_type)],
        create_destructured: seq![create_arg_destructured(field)],
        create_pushes: seq![create_arg_params_push(field)],
        ..empty_parts()
    }
}

/// A relation filter (such as `some`) adds a where variant and a function.
pub open spec fn relation_method_contribution(f: Field, r: Method) -> Contribution {
    let relation = relation_module(f);
    let variant = pascal(f.name@) + pascal(r.name@);
    Contribution {
        parts: ModelParts {
            where_variants: seq![relation_where_variant(variant, relation)],
            where_arms: seq![relation_where_arm(variant, literal(f.name@), literal(r.action@))],
            ..empty_parts()
        },
        methods: seq![relation_method_fn(snake(r.name@), relation, variant)],
        structs: Seq::empty(),
    }
}

pub open spec fn relation_methods_contribution(f: Field, rs: Seq<Method>) -> Contribution
    decreases rs.len(),
{
    if rs.len() == 0 {
        no_contribution()
    } else {
        join_contributions(
            relation_methods_contribution(f, rs.drop_last()),
            relation_method_contribution(f, rs.last()),
        )
    }
}

/// The fetch, link and unlink parts of a relation field, and its place in the record type.
pub open spec fn relation_actions_contribution(f: Field) -> Contribution {
    let name = f.name@;
    let field = literal(name);
    let relation = relation_module(f);
    let variant = pascal(name);
    let link = link_variant_name(name);
    let unlink = unlink_variant_name(name);
    let create = if f.required_on_create {
        create_parts(snake(name), "Link"@)
    } else {
        empty_parts()
    };
    if f.is_list {
        Contribution {
            parts: join_parts(
                ModelParts {
                    set_variants: seq![
                        many_link_variant(link, relation),
                        many_link_variant(unlink, relation),
                    ],
                    set_arms: seq![
                        many_link_arm(link, field, "\"connect\""@, relation),
                        many_link_arm(unlink, field, "\"disconnect\""@, relation),
                    ],
                    with_variants: seq![many_with_variant(relation, variant)],
                    with_arms: seq![many_with_arm(name, relation, variant)],
                    data_fields: seq![
                        relation_data_field(
                            relation_serde_attr(field, "required_relation"@),
                            snake(name),
                            vec_of(related_data(relation)),
                        ),
                    ],
                    ..empty_parts()
                },
                create,
            ),
            methods: seq![
                fetch_many_fn(
                    relation,
                    with_fn(relation),
                    order_by_fn(relation),
                    pagination_fns(relation),
                    variant,
                    unlink,
                ),
            ],
            structs: seq![link_many_struct(relation, link)],
        }
    } else {
        let unlink_variants: Seq<Seq<char>> = if f.is_required {
            Seq::empty()
        } else {
            seq![unlink]
        };
        let unlink_arms: Seq<Seq<char>> = if f.is_required {
            Seq::empty()
        } else {
            seq![one_unlink_arm(unlink, field)]
        };
        let unlink_methods: Seq<Seq<char>> = if f.is_required {
            Seq::empty()
        } else {
            seq![unlink_fn(unlink)]
        };
        let data_type = if f.is_required {
            boxed(related_data(relation))
        } else {
            option_of(boxed(related_data(relation)))
        };
        let with = if f.is_required {
            "required_relation"@
        } else {
            "optional_single_relation"@
        };
        Contribution {
            parts: join_parts(
                ModelParts {
                    set_variants: seq![one_link_variant(link, relation)] + unlink_variants,
                    set_arms: seq![one_link_arm(link, field, relation)] + unlink_arms,
                    with_variants: seq![single_with_variant(relation, variant)],
                    with_arms: seq![single_with_arm(name, relation, variant)],
                    data_fields: seq![
                        relation_data_field(relation_serde_attr(field, with), snake(name), data_type),
                    ],
                    ..empty_parts()
                },
                create,
            ),
            methods: seq![fetch_one_fn(relation, with_fn(relation), variant)] + unlink_methods,
            structs: seq![link_one_struct(relation, link)],
        }
    }
}

// ---------------------------------------------------------------------------------------------
// Scalar fields
// ---------------------------------------------------------------------------------------------

/// The Rust type in which a scalar field is set and compared.
pub open spec fn scalar_value_type(f: Field) -> Seq<char> {
    if f.is_list {
        vec_of(f.field_type.rust_type@)
    } else if f.is_required {
        f.field_type.rust_type@
    } else {
        option_of(f.field_type.rust_type@)
    }
}

pub open spec fn scalar_conversion(f: Field) -> Seq<char> {
    f.field_type.query_value_of("value"@, f.is_list)
}

/// The value that setting a scalar field sends.
pub open spec fn scalar_set_content(f: Field) -> Seq<char> {
    if f.is_list || f.is_required {
        scalar_conversion(f)
    } else {
        optional_value(scalar_conversion(f))
    }
}

/// The value that an equality filter on a scalar field sends.
pub open spec fn scalar_equals_value(f: Field) -> Seq<char> {
    if f.is_required {
        scalar_conversion(f)
    } else {
        optional_value(scalar_conversion(f))
    }
}

/// An id, or a unique field that is required.
pub open spec fn is_required_unique(f: Field) -> bool {
    f.is_id || (f.is_unique && f.is_required)
}

/// A unique field that is optional and no id.
pub open spec fn is_optional_unique(f: Field) -> bool {
    !f.is_id && f.is_unique && !f.is_required
}

pub open spec fn equals_variant_name(f: Field) -> Seq<char> {
    pascal(f.name@) + "Equals"@
}

/// The where variants that an equality filter on a scalar field adds.
pub open spec fn equality_parts(f: Field) -> ModelParts {
    let evn = equals_variant_name(f);
    let ev = with_payload(evn, scalar_value_type(f));
    let arm = equals_arm(evn, literal(f.name@), scalar_equals_value(f));
    if is_required_unique(f) {
        ModelParts {
            where_variants: seq![ev],
            where_arms: seq![arm],
            unique_variants: seq![ev],
            unique_arms: seq![unique_from_arm(evn)],
            ..empty_parts()
        }
    } else if is_optional_unique(f) {
        ModelParts {
            where_variants: seq![ev],
            where_arms: seq![arm],
            unique_variants: seq![with_payload(evn, f.field_type.rust_type@)],
            unique_arms: seq![optional_unique_from_arm(evn)],
            optional_uniques: seq![
                optional_unique_impls(
                    f.field_type.rust_type@,
                    evn,
                    path_in(snake(f.name@), "Set"@),
                ),
            ],
            ..empty_parts()
        }
    } else {
        ModelParts { where_variants: seq![ev], where_arms: seq![arm], ..empty_parts() }
    }
}

/// The `equals` function of a scalar field.
pub open spec fn equality_method(f: Field) -> Seq<char> {
    if is_required_unique(f) {
        unique_equals_fn(scalar_value_type(f), equals_variant_name(f))
    } else if is_optional_unique(f) {
        optional_unique_equals_fn()
    } else {
        plain_equals_fn(scalar_value_type(f), equals_variant_name(f))
    }
}

/// What a scalar field that the query engine does not keep for itself adds:
/// its set variant, its equality filter, its record field and its functions.
pub open spec fn scalar_own_contribution(f: Field) -> Contribution {
    let name = f.name@;
    let field = literal(name);
    let ty = scalar_value_type(f);
    let set_variant = set_variant_name(name);
    let cursor_methods: Seq<Seq<char>> = if f.is_id || f.is_unique {
        seq![cursor_fn(f.field_type.rust_type@, pascal(name))]
    } else {
        Seq::empty()
    };
    Contribution {
        parts: join_parts(
            ModelParts {
                set_variants: seq![with_payload(set_variant, ty)],
                set_arms: seq![set_arm(set_variant, field, scalar_set_content(f))],
                data_fields: seq![scalar_data_field(field, snake(name), ty)],
                ..empty_parts()
            },
            equality_parts(f),
        ),
        methods: seq![set_fn(ty), equality_method(f), order_fn(pascal(name))] + cursor_methods,
        structs: seq![set_struct(ty, set_variant)],
    }
}

/// The type of a filter method's argument, before a list is made of it.
pub open spec fn method_base_type(f: Field, m: FilterMethod) -> Seq<char> {
    if m.typ.name@.len() == 0 {
        f.field_type.rust_type@
    } else {
        m.typ.rust_type@
    }
}

pub open spec fn method_type(f: Field, m: FilterMethod) -> Seq<char> {
    if m.is_list {
        vec_of(method_base_type(f, m))
    } else {
        method_base_type(f, m)
    }
}

/// A write method (such as `increment`) adds a set variant and a function.
pub open spec fn write_method_contribution(f: Field, m: FilterMethod) -> Contribution {
    let variant = pascal(m.name@) + pascal(f.name@);
    let ty = method_type(f, m);
    Contribution {
        parts: ModelParts {
            set_variants: seq![with_payload(variant, ty)],
            set_arms: seq![
                write_arm(
                    variant,
                    literal(f.name@),
                    literal(m.action@),
                    m.typ.query_value_of("value"@, m.is_list),
                ),
            ],
            ..empty_parts()
        },
        methods: seq![write_method_fn(snake(m.name@), ty, variant)],
        structs: Seq::empty(),
    }
}

pub open spec fn write_methods_contribution(f: Field, ms: Seq<FilterMethod>) -> Contribution
    decreases ms.len(),
{
    if ms.len() == 0 {
        no_contribution()
    } else {
        join_contributions(
            write_methods_contribution(f, ms.drop_last()),
            write_method_contribution(f, ms.last()),
        )
    }
}

pub open spec fn write_filter_contribution(ast: Ast, f: Field) -> Contribution {
    match first_filter(ast.write_filters@, f.field_type.name@, f.is_list) {
        Some(w) => write_methods_contribution(f, w.methods@),
        None => no_contribution(),
    }
}

/// Every scalar field can be ordered by and paged from, and may be a create argument.
pub open spec fn scalar_tail_parts(f: Field) -> ModelParts {
    let name = f.name@;
    join_parts(
        ModelParts {
            order_variants: seq![order_by_variant(pascal(name))],
            order_arms: seq![order_by_arm(name, pascal(name))],
            cursor_variants: seq![cursor_variant(pascal(name), f.field_type)],
            cursor_arms: seq![cursor_arm(name, pascal(name), f.field_type)],
            ..empty_parts()
        },
        if f.required_on_create {
            create_parts(snake(name), "Set"@)
        } else {
            empty_parts()
        },
    )
}

pub open spec fn scalar_contribution(ast: Ast, f: Field) -> Contribution {
    join_contributions(
        join_contributions(
            if f.prisma {
                no_contribution()
            } else {
                scalar_own_contribution(f)
            },
            write_filter_contribution(ast, f),
        ),
        only_parts(scalar_tail_parts(f)),
    )
}

// ---------------------------------------------------------------------------------------------
// Read filters (all fields)
// ---------------------------------------------------------------------------------------------

/// A read filter method (such as `contains`) adds a where variant and a function.
pub open spec fn read_method_contribution(f: Field, m: FilterMethod) -> Contribution {
    let variant = pascal(f.name@) + pascal(m.name@);
    let ty = method_type(f, m);
    let field_name = if f.prisma {
        "_"@ + f.name@
    } else {
        f.name@
    };
    let value = if m.is_list {
        read_list_value(m.typ.prisma_value_of("v"@))
    } else {
        into_call(m.typ.prisma_value_of("value"@))
    };
    Contribution {
        parts: ModelParts {
            where_variants: seq![with_payload(variant, ty)],
            where_arms: seq![read_arm(variant, literal(field_name), literal(m.action@), value)],
            ..empty_parts()
        },
        methods: seq![read_method_fn(snake(m.name@), ty, variant)],
        structs: Seq::empty(),
    }
}

pub open spec fn read_methods_contribution(f: Field, ms: Seq<FilterMethod>) -> Contribution
    decreases ms.len(),
{
    if ms.len() == 0 {
        no_contribution()
    } else {
        join_contributions(
            read_methods_contribution(f, ms.drop_last()),
            read_method_contribution(f, ms.last()),
        )
    }
}

pub open spec fn read_filter_contribution(ast: Ast, f: Field) -> Contribution {
    match first_filter(ast.read_filters@, f.field_type.name@, f.is_list) {
        Some(r) => read_methods_contribution(f, r.methods@),
        None => no_contribution(),
    }
}

// ---------------------------------------------------------------------------------------------
// Fields and models
// ---------------------------------------------------------------------------------------------

pub open spec fn kind_contribution(ast: Ast, f: Field) -> Contribution {
    if f.kind == FieldKind::Relation {
        join_contributions(
            relation_methods_contribution(f, f.relation_methods@),
            relation_actions_contribution(f),
        )
    } else {
        scalar_contribution(ast, f)
    }
}

/// Everything a field adds, its query module excepted.
pub open spec fn field_contribution(ast: Ast, f: Field) -> Contribution {
    join_contributions(kind_contribution(ast, f), read_filter_contribution(ast, f))
}

/// The query module of a field.
pub open spec fn field_module(ast: Ast, f: Field) -> FieldModuleView {
    let c = field_contribution(ast, f);
    FieldModuleView { name: snake(f.name@), methods: c.methods, structs: c.structs }
}

pub open spec fn module_parts(m: FieldModuleView) -> ModelParts {
    ModelParts { field_modules: seq![m], ..empty_parts() }
}

/// Everything a field adds to the lists of its model.
pub open spec fn field_parts(ast: Ast, f: Field) -> ModelParts {
    join_parts(field_contribution(ast, f).parts, module_parts(field_module(ast, f)))
}

pub open spec fn fields_parts(ast: Ast, fields: Seq<Field>) -> ModelParts
    decreases fields.len(),
{
    if fields.len() == 0 {
        empty_parts()
    } else {
        join_parts(fields_parts(ast, fields.drop_last()), field_parts(ast, fields.last()))
    }
}

/// The lists of a model: the operators' where variants first, then those of
/// its compound indexes, then what each field adds, field by field.
pub open spec fn model_parts(ast: Ast, model: Model) -> ModelParts {
    join_parts(
        join_parts(operators_parts(ast.operators@), indexes_parts(model, model.indexes@)),
        fields_parts(ast, model.fields@),
    )
}

/// The module generated for a model.
pub open spec fn model_code(ast: Ast, model: Model) -> Seq<char> {
    let p = model_parts(ast, model);
    model_module(
        snake(model.name@),
        query_modules_code(p.field_modules, p.accessors),
        outputs_fn(output_names(model.fields@)),
        data_struct_code(p.data_fields),
        with_params_code(p.with_variants, p.with_arms, p.with_from_args),
        set_params_code(p.set_variants, p.set_arms),
        order_by_params_code(p.order_variants, p.order_arms),
        pagination_params_code(p.cursor_variants, p.cursor_arms),
        where_params_code(
            p.where_variants,
            p.where_arms,
            p.unique_variants,
            p.unique_arms,
            p.optional_uniques,
        ),
        literal(model.name@),
        terminated(p.create_args, "\n"@),
        terminated(p.create_pushes, "\n"@),
        terminated(p.create_tuple_types, "\n"@),
        terminated(p.create_destructured, "\n"@),
    )
}

} // verus!
