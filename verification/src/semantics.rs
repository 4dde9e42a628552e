use vstd::prelude::*;

use crate::casing::pascal;
use crate::model_spec::{
    field_parts, fields_parts, indexes_parts, model_parts, operator_parts, operators_parts,
    read_method_contribution, read_methods_contribution, relation_actions_contribution,
    relation_method_contribution, relation_methods_contribution, scalar_own_contribution,
    scalar_tail_parts, write_method_contribution, write_methods_contribution,
};
use crate::params::{many_with_arm, order_by_arm, output_names, single_with_arm};
use crate::schema::{first_filter, Ast, Field, FieldKind, FilterMethod, Index, Method, Model};
use crate::text::literal;
use crate::where_params::where_params_code;

verus! {

/// `t` occurs in `s`.
pub open spec fn contains_text(s: Seq<char>, t: Seq<char>) -> bool {
    exists|i: int| 0 <= i && i + t.len() <= s.len() && #[trigger] s.subrange(i, i + t.len()) == t
}

/// `s` begins with `p`.
pub open spec fn starts_with(s: Seq<char>, p: Seq<char>) -> bool {
    p.len() <= s.len() && s.subrange(0, p.len() as int) == p
}

/// `s` ends with `p`.
pub open spec fn ends_with(s: Seq<char>, p: Seq<char>) -> bool {
    p.len() <= s.len() && s.subrange(s.len() - p.len(), s.len() as int) == p
}

proof fn lemma_contains_at(s: Seq<char>, t: Seq<char>, i: int)
    requires
        0 <= i,
        i + t.len() <= s.len(),
        s.subrange(i, i + t.len()) == t,
    ensures
        contains_text(s, t),
{
}

proof fn lemma_contains_in_suffix(a: Seq<char>, b: Seq<char>, t: Seq<char>, i: int)
    requires
        0 <= i,
        i + t.len() <= b.len(),
        b.subrange(i, i + t.len()) =~= t,
    ensures
        contains_text(a + b, t),
{
    assert((a + b).subrange(a.len() + i, a.len() + i + t.len()) =~= t);
    lemma_contains_at(a + b, t, a.len() + i);
}

/// Whatever the filters of a model, its where-params code turns each logical
/// operator into the `WhereParam` variant of the same name: `Not` into `Not`,
/// `And` into `And` and `Or` into `Or`.
pub proof fn lemma_operators_keep_their_names(
    variants: Seq<Seq<char>>,
    to_query_value: Seq<Seq<char>>,
    unique_variants: Seq<Seq<char>>,
    from_unique_match_arms: Seq<Seq<char>>,
    from_optional_uniques: Seq<Seq<char>>,
)
    ensures
        contains_text(
            where_params_code(
                variants,
                to_query_value,
                unique_variants,
                from_unique_match_arms,
                from_optional_uniques,
            ),
            "Operator::Not(value) => Self::Not(value)"@,
        ),
        contains_text(
            where_params_code(
                variants,
                to_query_value,
                unique_variants,
                from_unique_match_arms,
                from_optional_uniques,
            ),
            "Operator::And(value) => Self::And(value)"@,
        ),
        contains_text(
            where_params_code(
                variants,
                to_query_value,
                unique_variants,
                from_unique_match_arms,
                from_optional_uniques,
            ),
            "Operator::Or(value) => Self::Or(value)"@,
        ),
{
    let ops = "impl From<Operator<Self>> for WhereParam {\nfn from(op: Operator<Self>) -> Self {\nmatch op {\nOperator::Not(value) => Self::Not(value),\nOperator::And(value) => Self::And(value),\nOperator::Or(value) => Self::Or(value),\n}\n}\n}\n"@;
    reveal_strlit(
        "impl From<Operator<Self>> for WhereParam {\nfn from(op: Operator<Self>) -> Self {\nmatch op {\nOperator::Not(value) => Self::Not(value),\nOperator::And(value) => Self::And(value),\nOperator::Or(value) => Self::Or(value),\n}\n}\n}\n",
    );
    reveal_strlit("Operator::Not(value) => Self::Not(value)");
    reveal_strlit("Operator::And(value) => Self::And(value)");
    reveal_strlit("Operator::Or(value) => Self::Or(value)");
    let code = where_params_code(
        variants,
        to_query_value,
        unique_variants,
        from_unique_match_arms,
        from_optional_uniques,
    );
    let head = code.subrange(0, code.len() - ops.len());
    assert(code == head + ops) by {
        assert(code =~= head + ops);
    }
    lemma_contains_in_suffix(head, ops, "Operator::Not(value) => Self::Not(value)"@, 92);
    lemma_contains_in_suffix(head, ops, "Operator::And(value) => Self::And(value)"@, 134);
    lemma_contains_in_suffix(head, ops, "Operator::Or(value) => Self::Or(value)"@, 176);
}


/// For a list relation field, the first write of the relation links records
/// and is sent under the key `connect`; the second unlinks them and is sent
/// under the key `disconnect`. Both are sent under the field's own name.
pub proof fn lemma_list_relation_link_connects(f: Field)
    requires
        f.is_list,
    ensures
        relation_actions_contribution(f).parts.set_variants.len() == 2,
        relation_actions_contribution(f).parts.set_arms.len() == 2,
        starts_with(
            relation_actions_contribution(f).parts.set_variants[0],
            "Link"@ + pascal(f.name@) + "("@,
        ),
        starts_with(
            relation_actions_contribution(f).parts.set_variants[1],
            "Unlink"@ + pascal(f.name@) + "("@,
        ),
        starts_with(
            relation_actions_contribution(f).parts.set_arms[0],
            "SetParam::"@ + ("Link"@ + pascal(f.name@)) + "(where_params) => (\n"@ + literal(f.name@)
                + ".to_string(),\nPrismaValue::Object(\nvec![(\n"@ + "\"connect\""@,
        ),
        starts_with(
            relation_actions_contribution(f).parts.set_arms[1],
            "SetParam::"@ + ("Unlink"@ + pascal(f.name@)) + "(where_params) => (\n"@ + literal(
                f.name@,
            ) + ".to_string(),\nPrismaValue::Object(\nvec![(\n"@ + "\"disconnect\""@,
        ),
{
    let p = relation_actions_contribution(f).parts;
    let v0 = "Link"@ + pascal(f.name@) + "("@;
    let v1 = "Unlink"@ + pascal(f.name@) + "("@;
    reveal_strlit("(");
    reveal_strlit("(Vec<super::");
    assert(p.set_variants[0].subrange(0, v0.len() as int) =~= v0);
    assert(p.set_variants[1].subrange(0, v1.len() as int) =~= v1);
    let a0 = "SetParam::"@ + ("Link"@ + pascal(f.name@)) + "(where_params) => (\n"@ + literal(f.name@)
        + ".to_string(),\nPrismaValue::Object(\nvec![(\n"@ + "\"connect\""@;
    let a1 = "SetParam::"@ + ("Unlink"@ + pascal(f.name@)) + "(where_params) => (\n"@ + literal(
        f.name@,
    ) + ".to_string(),\nPrismaValue::Object(\nvec![(\n"@ + "\"disconnect\""@;
    assert(p.set_arms[0].subrange(0, a0.len() as int) =~= a0);
    assert(p.set_arms[1].subrange(0, a1.len() as int) =~= a1);
}

/// A list relation that is fetched along with a query reads the arguments of
/// its fetch (filters, order, paging) from `args.to_graphql()` and hands them
/// to the selection it builds.
pub proof fn lemma_many_with_arm_keeps_arguments(
    field_name: Seq<char>,
    model_module: Seq<char>,
    variant_name: Seq<char>,
)
    ensures
        starts_with(
            many_with_arm(field_name, model_module, variant_name),
            "Self::"@ + variant_name
                + "(args) => {\nlet (arguments, mut nested_selections) = args.to_graphql();"@,
        ),
        ends_with(
            many_with_arm(field_name, model_module, variant_name),
            "builder.nested_selections(nested_selections).set_arguments(arguments);\nbuilder.build()\n}"@,
        ),
{
    let arm = many_with_arm(field_name, model_module, variant_name);
    let w = "(args) => {\nlet (arguments, mut nested_selections) = args.to_graphql();\nnested_selections.extend(super::"@;
    let wp = "(args) => {\nlet (arguments, mut nested_selections) = args.to_graphql();"@;
    let e = ");\nbuilder.nested_selections(nested_selections).set_arguments(arguments);\nbuilder.build()\n}"@;
    let ep = "builder.nested_selections(nested_selections).set_arguments(arguments);\nbuilder.build()\n}"@;
    reveal_strlit(
        "(args) => {\nlet (arguments, mut nested_selections) = args.to_graphql();\nnested_selections.extend(super::",
    );
    reveal_strlit("(args) => {\nlet (arguments, mut nested_selections) = args.to_graphql();");
    reveal_strlit(");\nbuilder.nested_selections(nested_selections).set_arguments(arguments);\nbuilder.build()\n}");
    reveal_strlit("builder.nested_selections(nested_selections).set_arguments(arguments);\nbuilder.build()\n}");
    assert(w.subrange(0, wp.len() as int) =~= wp);
    assert(e.subrange(3, e.len() as int) =~= ep);
    let pre = "Self::"@ + variant_name + wp;
    assert(arm.subrange(0, pre.len() as int) =~= pre);
    assert(arm.subrange(arm.len() - ep.len(), arm.len() as int) =~= ep);
}

/// A read filter method adds one where variant, named after the field and
/// the method, whose serialization is sent under the field's name (`_name`
/// for a field that the query engine keeps for itself) with the method's
/// action as the filter's key.
pub proof fn lemma_read_filter_keyed_by_action(f: Field, m: FilterMethod)
    ensures
        read_method_contribution(f, m).parts.where_variants.len() == 1,
        read_method_contribution(f, m).parts.where_arms.len() == 1,
        starts_with(
            read_method_contribution(f, m).parts.where_variants[0],
            pascal(f.name@) + pascal(m.name@) + "("@,
        ),
        starts_with(
            read_method_contribution(f, m).parts.where_arms[0],
            "Self::"@ + (pascal(f.name@) + pascal(m.name@)) + "(value) => (\n"@ + literal(
                if f.prisma {
                    "_"@ + f.name@
                } else {
                    f.name@
                },
            ) + ".to_string(),\nSerializedWhereValue::Object(vec![("@ + literal(m.action@),
        ),
{
    let p = read_method_contribution(f, m).parts;
    let v = pascal(f.name@) + pascal(m.name@) + "("@;
    assert(p.where_variants[0].subrange(0, v.len() as int) =~= v);
    let a = "Self::"@ + (pascal(f.name@) + pascal(m.name@)) + "(value) => (\n"@ + literal(
        if f.prisma {
            "_"@ + f.name@
        } else {
            f.name@
        },
    ) + ".to_string(),\nSerializedWhereValue::Object(vec![("@ + literal(m.action@);
    assert(p.where_arms[0].subrange(0, a.len() as int) =~= a);
}

// ---------------------------------------------------------------------------------------------
// Order arms follow the selected fields
// ---------------------------------------------------------------------------------------------

proof fn lemma_step_lists_have_no_order_arms(f: Field, ms: Seq<FilterMethod>, rs: Seq<Method>)
    ensures
        write_methods_contribution(f, ms).parts.order_arms.len() == 0,
        read_methods_contribution(f, ms).parts.order_arms.len() == 0,
        relation_methods_contribution(f, rs).parts.order_arms.len() == 0,
    decreases ms.len() + rs.len(),
{
    if ms.len() > 0 {
        lemma_step_lists_have_no_order_arms(f, ms.drop_last(), rs);
    }
    if rs.len() > 0 {
        lemma_step_lists_have_no_order_arms(f, ms, rs.drop_last());
    }
}

proof fn lemma_field_order_arms(ast: Ast, f: Field)
    ensures
        field_parts(ast, f).order_arms == (if f.kind != FieldKind::Relation {
            seq![order_by_arm(f.name@, pascal(f.name@))]
        } else {
            Seq::<Seq<char>>::empty()
        }),
{
    lemma_step_lists_have_no_order_arms(f, Seq::empty(), f.relation_methods@);
    match first_filter(ast.write_filters@, f.field_type.name@, f.is_list) {
        Some(w) => lemma_step_lists_have_no_order_arms(f, w.methods@, Seq::empty()),
        None => {},
    }
    match first_filter(ast.read_filters@, f.field_type.name@, f.is_list) {
        Some(r) => lemma_step_lists_have_no_order_arms(f, r.methods@, Seq::empty()),
        None => {},
    }
    assert(field_parts(ast, f).order_arms =~= (if f.kind != FieldKind::Relation {
        seq![order_by_arm(f.name@, pascal(f.name@))]
    } else {
        Seq::<Seq<char>>::empty()
    }));
}

proof fn lemma_fields_order_arms(ast: Ast, fields: Seq<Field>)
    ensures
        fields_parts(ast, fields).order_arms.len() == output_names(fields).len(),
        forall|i: int|
            0 <= i < output_names(fields).len() ==> #[trigger] fields_parts(ast, fields).order_arms[i]
                == order_by_arm(output_names(fields)[i], pascal(output_names(fields)[i])),
    decreases fields.len(),
{
    if fields.len() > 0 {
        let prev = fields.drop_last();
        lemma_fields_order_arms(ast, prev);
        lemma_field_order_arms(ast, fields.last());
        let arms = fields_parts(ast, fields).order_arms;
        let names = output_names(fields);
        assert forall|i: int| 0 <= i < names.len() implies #[trigger] arms[i] == order_by_arm(
            names[i],
            pascal(names[i]),
        ) by {
            if i < output_names(prev).len() {
                assert(arms[i] == fields_parts(ast, prev).order_arms[i]);
                assert(names[i] == output_names(prev)[i]);
            }
        }
    }
}

proof fn lemma_operators_no_order_arms(ops: Seq<Method>)
    ensures
        operators_parts(ops).order_arms.len() == 0,
    decreases ops.len(),
{
    if ops.len() > 0 {
        lemma_operators_no_order_arms(ops.drop_last());
    }
}

proof fn lemma_indexes_no_order_arms(model: Model, indexes: Seq<Index>)
    ensures
        indexes_parts(model, indexes).order_arms.len() == 0,
    decreases indexes.len(),
{
    if indexes.len() > 0 {
        lemma_indexes_no_order_arms(model, indexes.drop_last());
    }
}

/// Results of a model are ordered by exactly the fields that its queries
/// select (its `_outputs`), in the same order, and each `OrderByParam` arm
/// is sent under the literal of the field's own schema name, with the
/// variant named after the field in pascal case.
pub proof fn lemma_order_arms_follow_outputs(ast: Ast, model: Model)
    ensures
        model_parts(ast, model).order_arms.len() == output_names(model.fields@).len(),
        forall|i: int|
            0 <= i < output_names(model.fields@).len() ==> starts_with(
                #[trigger] model_parts(ast, model).order_arms[i],
                "Self::"@ + pascal(output_names(model.fields@)[i]) + "(direction) => (\n"@
                    + literal(output_names(model.fields@)[i]),
            ),
{
    lemma_operators_no_order_arms(ast.operators@);
    lemma_indexes_no_order_arms(model, model.indexes@);
    lemma_fields_order_arms(ast, model.fields@);
    let names = output_names(model.fields@);
    let arms = model_parts(ast, model).order_arms;
    let fa = fields_parts(ast, model.fields@).order_arms;
    assert(arms =~= fa);
    assert forall|i: int| 0 <= i < names.len() implies starts_with(
        #[trigger] arms[i],
        "Self::"@ + pascal(names[i]) + "(direction) => (\n"@ + literal(names[i]),
    ) by {
        let p = "Self::"@ + pascal(names[i]) + "(direction) => (\n"@ + literal(names[i]);
        assert(fa[i] == order_by_arm(names[i], pascal(names[i])));
        assert(arms[i].subrange(0, p.len() as int) =~= p);
    }
}


/// For a single relation field, its first write links a record and is sent
/// under the key `connect`; an optional one can also be unlinked, which is
/// sent under the key `disconnect` with the value `true`; a required one
/// cannot be unlinked.
pub proof fn lemma_single_relation_link_connects(f: Field)
    requires
        !f.is_list,
    ensures
        relation_actions_contribution(f).parts.set_arms.len() == (if f.is_required {
            1int
        } else {
            2int
        }),
        relation_actions_contribution(f).parts.set_variants.len() == (if f.is_required {
            1int
        } else {
            2int
        }),
        starts_with(
            relation_actions_contribution(f).parts.set_arms[0],
            "SetParam::"@ + ("Link"@ + pascal(f.name@)) + "(where_param) => (\n"@ + literal(f.name@)
                + ".to_string(),\nPrismaValue::Object(\nvec![(\n\"connect\""@,
        ),
        !f.is_required ==> relation_actions_contribution(f).parts.set_variants[1] == "Unlink"@
            + pascal(f.name@),
        !f.is_required ==> starts_with(
            relation_actions_contribution(f).parts.set_arms[1],
            "SetParam::"@ + ("Unlink"@ + pascal(f.name@)) + " => (\n"@ + literal(f.name@)
                + ".to_string(),\nPrismaValue::Object(\nvec![(\n\"disconnect\".to_string(),\nPrismaValue::Boolean(true)"@,
        ),
{
    let p = relation_actions_contribution(f).parts;
    let big = ".to_string(),\nPrismaValue::Object(\nvec![(\n\"connect\".to_string(),\nPrismaValue::Object(\ntransform_equals(\nvec![Into::<super::"@;
    let small = ".to_string(),\nPrismaValue::Object(\nvec![(\n\"connect\""@;
    reveal_strlit(
        ".to_string(),\nPrismaValue::Object(\nvec![(\n\"connect\".to_string(),\nPrismaValue::Object(\ntransform_equals(\nvec![Into::<super::",
    );
    reveal_strlit(".to_string(),\nPrismaValue::Object(\nvec![(\n\"connect\"");
    assert(big.subrange(0, small.len() as int) =~= small);
    let a0 = "SetParam::"@ + ("Link"@ + pascal(f.name@)) + "(where_param) => (\n"@ + literal(f.name@);
    assert(p.set_arms[0].subrange(0, (a0 + small).len() as int) =~= a0 + small);
    if !f.is_required {
        let ubig = ".to_string(),\nPrismaValue::Object(\nvec![(\n\"disconnect\".to_string(),\nPrismaValue::Boolean(true)\n)]\n)\n)"@;
        let usmall = ".to_string(),\nPrismaValue::Object(\nvec![(\n\"disconnect\".to_string(),\nPrismaValue::Boolean(true)"@;
        reveal_strlit(
            ".to_string(),\nPrismaValue::Object(\nvec![(\n\"disconnect\".to_string(),\nPrismaValue::Boolean(true)\n)]\n)\n)",
        );
        reveal_strlit(".to_string(),\nPrismaValue::Object(\nvec![(\n\"disconnect\".to_string(),\nPrismaValue::Boolean(true)");
        assert(ubig.subrange(0, usmall.len() as int) =~= usmall);
        let a1 = "SetParam::"@ + ("Unlink"@ + pascal(f.name@)) + " => (\n"@ + literal(f.name@);
        assert(p.set_arms[1].subrange(0, (a1 + usmall).len() as int) =~= a1 + usmall);
    }
}

/// A relation fetched along with a single-record query selects, under the
/// field's own name, the outputs of the related model and the relations
/// fetched with it.
pub proof fn lemma_single_with_arm_selects_field(
    field_name: Seq<char>,
    model_module: Seq<char>,
    variant_name: Seq<char>,
)
    ensures
        starts_with(
            single_with_arm(field_name, model_module, variant_name),
            "Self::"@ + variant_name + "(args) => {\nlet mut selections = super::"@ + model_module
                + "::_outputs();\nselections.extend(args.with_params.into_iter().map(Into::<Selection>::into));\nlet mut builder = Selection::builder("@
                + literal(field_name),
        ),
{
    let arm = single_with_arm(field_name, model_module, variant_name);
    let p = "Self::"@ + variant_name + "(args) => {\nlet mut selections = super::"@ + model_module
        + "::_outputs();\nselections.extend(args.with_params.into_iter().map(Into::<Selection>::into));\nlet mut builder = Selection::builder("@
        + literal(field_name);
    assert(arm.subrange(0, p.len() as int) =~= p);
}

/// A logical operator adds one where variant, named after the operator in
/// pascal case and holding a list of filters, sent under the operator's
/// action.
pub proof fn lemma_operator_keyed_by_action(op: Method)
    ensures
        operator_parts(op).where_variants == seq![pascal(op.name@) + "(Vec<WhereParam>)"@],
        operator_parts(op).where_arms.len() == 1,
        starts_with(
            operator_parts(op).where_arms[0],
            "Self::"@ + pascal(op.name@) + "(value) => (\n"@ + literal(op.action@),
        ),
{
    let a = "Self::"@ + pascal(op.name@) + "(value) => (\n"@ + literal(op.action@);
    assert(operator_parts(op).where_arms[0].subrange(0, a.len() as int) =~= a);
}

/// A relation filter (such as `some`) adds one where variant, named after the
/// field and the filter, sent under the field's name with the filter's action
/// as its key.
pub proof fn lemma_relation_filter_keyed_by_action(f: Field, r: Method)
    ensures
        relation_method_contribution(f, r).parts.where_arms.len() == 1,
        starts_with(
            relation_method_contribution(f, r).parts.where_arms[0],
            "Self::"@ + (pascal(f.name@) + pascal(r.name@)) + "(value) => (\n"@ + literal(f.name@)
                + ".to_string(),\nSerializedWhereValue::Object(vec![(\n"@ + literal(r.action@),
        ),
{
    let a = "Self::"@ + (pascal(f.name@) + pascal(r.name@)) + "(value) => (\n"@ + literal(f.name@)
        + ".to_string(),\nSerializedWhereValue::Object(vec![(\n"@ + literal(r.action@);
    assert(relation_method_contribution(f, r).parts.where_arms[0].subrange(0, a.len() as int) =~= a);
}

/// A write method (such as `increment`) adds one set variant, named after the
/// method and the field, sent under the field's name with the method's action
/// as its key.
pub proof fn lemma_write_method_keyed_by_action(f: Field, m: FilterMethod)
    ensures
        write_method_contribution(f, m).parts.set_arms.len() == 1,
        starts_with(
            write_method_contribution(f, m).parts.set_arms[0],
            "SetParam::"@ + (pascal(m.name@) + pascal(f.name@)) + "(value) => (\n"@ + literal(f.name@)
                + ".to_string(),\nPrismaValue::Object(\nvec![(\n"@ + literal(m.action@),
        ),
{
    let a = "SetParam::"@ + (pascal(m.name@) + pascal(f.name@)) + "(value) => (\n"@ + literal(f.name@)
        + ".to_string(),\nPrismaValue::Object(\nvec![(\n"@ + literal(m.action@);
    assert(write_method_contribution(f, m).parts.set_arms[0].subrange(0, a.len() as int) =~= a);
}

/// A scalar field that the client writes is set under its own name, and its
/// equality filter is sent under its own name with the key `equals`.
pub proof fn lemma_scalar_set_and_equals_use_field_name(f: Field)
    ensures
        scalar_own_contribution(f).parts.set_arms.len() == 1,
        starts_with(
            scalar_own_contribution(f).parts.set_arms[0],
            "SetParam::"@ + ("Set"@ + pascal(f.name@)) + "(value) => (\n"@ + literal(f.name@)
                + ".to_string(),\n"@,
        ),
        scalar_own_contribution(f).parts.where_arms.len() == 1,
        starts_with(
            scalar_own_contribution(f).parts.where_arms[0],
            "Self::"@ + (pascal(f.name@) + "Equals"@) + "(value) => (\n"@ + literal(f.name@)
                + ".to_string(),\nSerializedWhereValue::Object(vec![(\"equals\".to_string(), "@,
        ),
{
    let p = scalar_own_contribution(f).parts;
    let s = "SetParam::"@ + ("Set"@ + pascal(f.name@)) + "(value) => (\n"@ + literal(f.name@)
        + ".to_string(),\n"@;
    assert(p.set_arms[0].subrange(0, s.len() as int) =~= s);
    let w = "Self::"@ + (pascal(f.name@) + "Equals"@) + "(value) => (\n"@ + literal(f.name@)
        + ".to_string(),\nSerializedWhereValue::Object(vec![(\"equals\".to_string(), "@;
    assert(p.where_arms[0].subrange(0, w.len() as int) =~= w);
}

/// A scalar field is ordered by and paged from under its own name.
pub proof fn lemma_order_and_cursor_use_field_name(f: Field)
    ensures
        scalar_tail_parts(f).order_arms.len() == 1,
        scalar_tail_parts(f).cursor_arms.len() == 1,
        starts_with(
            scalar_tail_parts(f).order_arms[0],
            "Self::"@ + pascal(f.name@) + "(direction) => (\n"@ + literal(f.name@),
        ),
        starts_with(
            scalar_tail_parts(f).cursor_arms[0],
            "Self::"@ + pascal(f.name@) + "(cursor) => (\n"@ + literal(f.name@),
        ),
{
    let p = scalar_tail_parts(f);
    let o = "Self::"@ + pascal(f.name@) + "(direction) => (\n"@ + literal(f.name@);
    let c = "Self::"@ + pascal(f.name@) + "(cursor) => (\n"@ + literal(f.name@);
    assert(p.order_arms[0].subrange(0, o.len() as int) =~= o);
    assert(p.cursor_arms[0].subrange(0, c.len() as int) =~= c);
}

} // verus!
