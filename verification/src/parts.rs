use vstd::prelude::*;

use crate::modules::FieldModuleView;

verus! {

/// Everything that the fields, indexes and operators of a model add to the
/// lists from which its module is written.
#[verifier::ext_equal]
pub struct ModelParts {
    pub data_fields: Seq<Seq<char>>,
    pub with_variants: Seq<Seq<char>>,
    pub with_arms: Seq<Seq<char>>,
    pub with_from_args: Seq<Seq<char>>,
    pub set_variants: Seq<Seq<char>>,
    pub set_arms: Seq<Seq<char>>,
    pub order_variants: Seq<Seq<char>>,
    pub order_arms: Seq<Seq<char>>,
    pub cursor_variants: Seq<Seq<char>>,
    pub cursor_arms: Seq<Seq<char>>,
    pub where_variants: Seq<Seq<char>>,
    pub where_arms: Seq<Seq<char>>,
    pub unique_variants: Seq<Seq<char>>,
    pub unique_arms: Seq<Seq<char>>,
    pub optional_uniques: Seq<Seq<char>>,
    pub field_modules: Seq<FieldModuleView>,
    pub accessors: Seq<Seq<char>>,
    pub create_args: Seq<Seq<char>>,
    pub create_tuple_types: Seq<Seq<char>>,
    pub create_destructured: Seq<Seq<char>>,
    pub create_pushes: Seq<Seq<char>>,
}

pub open spec fn empty_parts() -> ModelParts {
    ModelParts {
        data_fields: Seq::empty(),
        with_variants: Seq::empty(),
        with_arms: Seq::empty(),
        with_from_args: Seq::empty(),
        set_variants: Seq::empty(),
        set_arms: Seq::empty(),
        order_variants: Seq::empty(),
        order_arms: Seq::empty(),
        cursor_variants: Seq::empty(),
        cursor_arms: Seq::empty(),
        where_variants: Seq::empty(),
        where_arms: Seq::empty(),
        unique_variants: Seq::empty(),
        unique_arms: Seq::empty(),
        optional_uniques: Seq::empty(),
        field_modules: Seq::empty(),
        accessors: Seq::empty(),
        create_args: Seq::empty(),
        create_tuple_types: Seq::empty(),
        create_destructured: Seq::empty(),
        create_pushes: Seq::empty(),
    }
}

/// The parts of `a`, each followed by the matching parts of `b`.
pub open spec fn join_parts(a: ModelParts, b: ModelParts) -> ModelParts {
    ModelParts {
        data_fields: a.data_fields + b.data_fields,
        with_variants: a.with_variants + b.with_variants,
        with_arms: a.with_arms + b.with_arms,
        with_from_args: a.with_from_args + b.with_from_args,
        set_variants: a.set_variants + b.set_variants,
        set_arms: a.set_arms + b.set_arms,
        order_variants: a.order_variants + b.order_variants,
        order_arms: a.order_arms + b.order_arms,
        cursor_variants: a.cursor_variants + b.cursor_variants,
        cursor_arms: a.cursor_arms + b.cursor_arms,
        where_variants: a.where_variants + b.where_variants,
        where_arms: a.where_arms + b.where_arms,
        unique_variants: a.unique_variants + b.unique_variants,
        unique_arms: a.unique_arms + b.unique_arms,
        optional_uniques: a.optional_uniques + b.optional_uniques,
        field_modules: a.field_modules + b.field_modules,
        accessors: a.accessors + b.accessors,
        create_args: a.create_args + b.create_args,
        create_tuple_types: a.create_tuple_types + b.create_tuple_types,
        create_destructured: a.create_destructured + b.create_destructured,
        create_pushes: a.create_pushes + b.create_pushes,
    }
}

/// What one step adds to the model's lists and to the query module of the
/// field being processed.
#[verifier::ext_equal]
pub struct Contribution {
    pub parts: ModelParts,
    pub methods: Seq<Seq<char>>,
    pub structs: Seq<Seq<char>>,
}

pub open spec fn no_contribution() -> Contribution {
    Contribution { parts: empty_parts(), methods: Seq::empty(), structs: Seq::empty() }
}

pub open spec fn only_parts(p: ModelParts) -> Contribution {
    Contribution { parts: p, methods: Seq::empty(), structs: Seq::empty() }
}

pub open spec fn join_contributions(a: Contribution, b: Contribution) -> Contribution {
    Contribution {
        parts: join_parts(a.parts, b.parts),
        methods: a.methods + b.methods,
        structs: a.structs + b.structs,
    }
}

/// The module `m` with what `c` adds to it.
pub open spec fn extend_module(m: FieldModuleView, c: Contribution) -> FieldModuleView {
    FieldModuleView { name: m.name, methods: m.methods + c.methods, structs: m.structs + c.structs }
}

pub proof fn lemma_join_parts_assoc(a: ModelParts, b: ModelParts, c: ModelParts)
    ensures
        join_parts(join_parts(a, b), c) == join_parts(a, join_parts(b, c)),
{
    assert(join_parts(join_parts(a, b), c) =~= join_parts(a, join_parts(b, c)));
}

pub proof fn lemma_join_parts_empty(a: ModelParts)
    ensures
        join_parts(a, empty_parts()) == a,
        join_parts(empty_parts(), a) == a,
{
    assert(join_parts(a, empty_parts()) =~= a);
    assert(join_parts(empty_parts(), a) =~= a);
}

pub proof fn lemma_join_contributions_assoc(a: Contribution, b: Contribution, c: Contribution)
    ensures
        join_contributions(join_contributions(a, b), c) == join_contributions(
            a,
            join_contributions(b, c),
        ),
{
    lemma_join_parts_assoc(a.parts, b.parts, c.parts);
    assert(join_contributions(join_contributions(a, b), c) =~= join_contributions(
        a,
        join_contributions(b, c),
    ));
}

pub proof fn lemma_join_contributions_empty(a: Contribution)
    ensures
        join_contributions(a, no_contribution()) == a,
        join_contributions(no_contribution(), a) == a,
{
    lemma_join_parts_empty(a.parts);
    assert(join_contributions(a, no_contribution()) =~= a);
    assert(join_contributions(no_contribution(), a) =~= a);
}

pub proof fn lemma_extend_module_twice(m: FieldModuleView, a: Contribution, b: Contribution)
    ensures
        extend_module(extend_module(m, a), b) == extend_module(m, join_contributions(a, b)),
{
    assert(extend_module(extend_module(m, a), b) =~= extend_module(m, join_contributions(a, b)));
}

} // verus!
