use vstd::prelude::*;

use crate::casing::snake;
use crate::model_spec::{
    field_module, field_parts, fields_parts, indexes_parts, model_parts, operators_parts,
    read_methods_contribution, relation_methods_contribution, write_methods_contribution,
};
use crate::modules::{apply_op, field_module_code, FieldModuleView, ModuleOp};
use crate::parts::{join_parts, ModelParts};
use crate::schema::{first_filter, Ast, Field, FieldKind, FilterMethod, Index, Method, Model};

verus! {

/// Each enum of the parts has as many match arms as variants, and the four
/// lists of create arguments are equally long.
pub open spec fn balanced(p: ModelParts) -> bool {
    &&& p.with_variants.len() == p.with_arms.len()
    &&& p.set_variants.len() == p.set_arms.len()
    &&& p.order_variants.len() == p.order_arms.len()
    &&& p.cursor_variants.len() == p.cursor_arms.len()
    &&& p.where_variants.len() == p.where_arms.len()
    &&& p.unique_variants.len() == p.unique_arms.len()
    &&& p.create_args.len() == p.create_tuple_types.len()
    &&& p.create_args.len() == p.create_destructured.len()
    &&& p.create_args.len() == p.create_pushes.len()
}

proof fn lemma_relation_methods_balanced(f: Field, rs: Seq<Method>)
    ensures
        balanced(relation_methods_contribution(f, rs).parts),
    decreases rs.len(),
{
    if rs.len() > 0 {
        lemma_relation_methods_balanced(f, rs.drop_last());
    }
}

proof fn lemma_write_methods_balanced(f: Field, ms: Seq<FilterMethod>)
    ensures
        balanced(write_methods_contribution(f, ms).parts),
    decreases ms.len(),
{
    if ms.len() > 0 {
        lemma_write_methods_balanced(f, ms.drop_last());
    }
}

proof fn lemma_read_methods_balanced(f: Field, ms: Seq<FilterMethod>)
    ensures
        balanced(read_methods_contribution(f, ms).parts),
    decreases ms.len(),
{
    if ms.len() > 0 {
        lemma_read_methods_balanced(f, ms.drop_last());
    }
}

proof fn lemma_field_balanced(ast: Ast, f: Field)
    ensures
        balanced(field_parts(ast, f)),
{
    lemma_relation_methods_balanced(f, f.relation_methods@);
    match first_filter(ast.write_filters@, f.field_type.name@, f.is_list) {
        Some(w) => lemma_write_methods_balanced(f, w.methods@),
        None => {},
    }
    match first_filter(ast.read_filters@, f.field_type.name@, f.is_list) {
        Some(r) => lemma_read_methods_balanced(f, r.methods@),
        None => {},
    }
}

proof fn lemma_fields_balanced(ast: Ast, fields: Seq<Field>)
    ensures
        balanced(fields_parts(ast, fields)),
    decreases fields.len(),
{
    if fields.len() > 0 {
        lemma_fields_balanced(ast, fields.drop_last());
        lemma_field_balanced(ast, fields.last());
    }
}

proof fn lemma_operators_balanced(ops: Seq<Method>)
    ensures
        balanced(operators_parts(ops)),
    decreases ops.len(),
{
    if ops.len() > 0 {
        lemma_operators_balanced(ops.drop_last());
    }
}

proof fn lemma_indexes_balanced(model: Model, indexes: Seq<Index>)
    ensures
        balanced(indexes_parts(model, indexes)),
    decreases indexes.len(),
{
    if indexes.len() > 0 {
        lemma_indexes_balanced(model, indexes.drop_last());
    }
}

/// In the module generated for any model, every parameter enum (`WithParam`,
/// `SetParam`, `OrderByParam`, `Cursor`, `WhereParam`, `UniqueWhereParam`)
/// has exactly one match arm per variant, and `create` and `upsert` take the
/// same required arguments, one per field that creating a record requires.
pub proof fn lemma_every_variant_has_an_arm(ast: Ast, model: Model)
    ensures
        balanced(model_parts(ast, model)),
{
    lemma_operators_balanced(ast.operators@);
    lemma_indexes_balanced(model, model.indexes@);
    lemma_fields_balanced(ast, model.fields@);
}

/// The number of fields that are not relations.
pub open spec fn scalar_count(fields: Seq<Field>) -> nat
    decreases fields.len(),
{
    if fields.len() == 0 {
        0
    } else {
        scalar_count(fields.drop_last()) + if fields.last().kind != FieldKind::Relation {
            1nat
        } else {
            0nat
        }
    }
}

/// The number of fields that creating a record requires.
pub open spec fn required_count(fields: Seq<Field>) -> nat
    decreases fields.len(),
{
    if fields.len() == 0 {
        0
    } else {
        required_count(fields.drop_last()) + if fields.last().required_on_create {
            1nat
        } else {
            0nat
        }
    }
}

proof fn lemma_methods_add_no_order(f: Field, ms: Seq<FilterMethod>, rs: Seq<Method>)
    ensures
        write_methods_contribution(f, ms).parts.order_variants.len() == 0,
        write_methods_contribution(f, ms).parts.cursor_variants.len() == 0,
        write_methods_contribution(f, ms).parts.create_args.len() == 0,
        write_methods_contribution(f, ms).parts.field_modules.len() == 0,
        write_methods_contribution(f, ms).parts.unique_variants.len() == 0,
        write_methods_contribution(f, ms).parts.data_fields.len() == 0,
        read_methods_contribution(f, ms).parts.order_variants.len() == 0,
        read_methods_contribution(f, ms).parts.cursor_variants.len() == 0,
        read_methods_contribution(f, ms).parts.create_args.len() == 0,
        read_methods_contribution(f, ms).parts.field_modules.len() == 0,
        read_methods_contribution(f, ms).parts.unique_variants.len() == 0,
        read_methods_contribution(f, ms).parts.data_fields.len() == 0,
        relation_methods_contribution(f, rs).parts.order_variants.len() == 0,
        relation_methods_contribution(f, rs).parts.cursor_variants.len() == 0,
        relation_methods_contribution(f, rs).parts.create_args.len() == 0,
        relation_methods_contribution(f, rs).parts.field_modules.len() == 0,
        relation_methods_contribution(f, rs).parts.unique_variants.len() == 0,
        relation_methods_contribution(f, rs).parts.data_fields.len() == 0,
    decreases ms.len() + rs.len(),
{
    if ms.len() > 0 {
        lemma_methods_add_no_order(f, ms.drop_last(), rs);
    }
    if rs.len() > 0 {
        lemma_methods_add_no_order(f, ms, rs.drop_last());
    }
}

proof fn lemma_field_counts(ast: Ast, f: Field)
    ensures
        field_parts(ast, f).order_variants.len() == (if f.kind != FieldKind::Relation {
            1nat
        } else {
            0nat
        }),
        field_parts(ast, f).cursor_variants.len() == (if f.kind != FieldKind::Relation {
            1nat
        } else {
            0nat
        }),
        field_parts(ast, f).create_args.len() == (if f.required_on_create {
            1nat
        } else {
            0nat
        }),
        field_parts(ast, f).unique_variants.len() == (if is_unique_scalar(f) {
            1nat
        } else {
            0nat
        }),
        field_parts(ast, f).data_fields.len() == (if has_record_field(f) {
            1nat
        } else {
            0nat
        }),
        field_parts(ast, f).field_modules == seq![field_module(ast, f)],
        field_module(ast, f).name == snake(f.name@),
{
    lemma_methods_add_no_order(f, Seq::empty(), f.relation_methods@);
    match first_filter(ast.write_filters@, f.field_type.name@, f.is_list) {
        Some(w) => lemma_methods_add_no_order(f, w.methods@, Seq::empty()),
        None => {},
    }
    match first_filter(ast.read_filters@, f.field_type.name@, f.is_list) {
        Some(r) => lemma_methods_add_no_order(f, r.methods@, Seq::empty()),
        None => {},
    }
    assert(field_parts(ast, f).field_modules =~= seq![field_module(ast, f)]);
}

/// A scalar field, written by the client, that identifies a record.
pub open spec fn is_unique_scalar(f: Field) -> bool {
    f.kind != FieldKind::Relation && !f.prisma && (f.is_id || f.is_unique)
}

/// A field that the record type holds.
pub open spec fn has_record_field(f: Field) -> bool {
    f.kind == FieldKind::Relation || !f.prisma
}

/// The number of scalar fields that identify a record.
pub open spec fn unique_count(fields: Seq<Field>) -> nat
    decreases fields.len(),
{
    if fields.len() == 0 {
        0
    } else {
        unique_count(fields.drop_last()) + if is_unique_scalar(fields.last()) {
            1nat
        } else {
            0nat
        }
    }
}

/// The number of fields that the record type holds.
pub open spec fn record_count(fields: Seq<Field>) -> nat
    decreases fields.len(),
{
    if fields.len() == 0 {
        0
    } else {
        record_count(fields.drop_last()) + if has_record_field(fields.last()) {
            1nat
        } else {
            0nat
        }
    }
}

/// The query modules of the fields, in the fields' order.
pub open spec fn field_modules_follow_fields(ast: Ast, fields: Seq<Field>, p: ModelParts) -> bool {
    &&& p.field_modules.len() == fields.len()
    &&& forall|i: int|
        0 <= i < fields.len() ==> #[trigger] p.field_modules[i] == field_module(ast, fields[i])
}

proof fn lemma_fields_counts(ast: Ast, fields: Seq<Field>)
    ensures
        fields_parts(ast, fields).order_variants.len() == scalar_count(fields),
        fields_parts(ast, fields).cursor_variants.len() == scalar_count(fields),
        fields_parts(ast, fields).create_args.len() == required_count(fields),
        fields_parts(ast, fields).unique_variants.len() == unique_count(fields),
        fields_parts(ast, fields).data_fields.len() == record_count(fields),
        field_modules_follow_fields(ast, fields, fields_parts(ast, fields)),
    decreases fields.len(),
{
    if fields.len() > 0 {
        lemma_fields_counts(ast, fields.drop_last());
        lemma_field_counts(ast, fields.last());
        let p = fields_parts(ast, fields);
        let q = fields_parts(ast, fields.drop_last());
        assert forall|i: int| 0 <= i < fields.len() implies #[trigger] p.field_modules[i]
            == field_module(ast, fields[i]) by {
            if i < fields.len() - 1 {
                assert(q.field_modules[i] == field_module(ast, fields.drop_last()[i]));
            }
        }
    }
}

proof fn lemma_operators_counts(ops: Seq<Method>)
    ensures
        operators_parts(ops).order_variants.len() == 0,
        operators_parts(ops).cursor_variants.len() == 0,
        operators_parts(ops).create_args.len() == 0,
        operators_parts(ops).field_modules.len() == 0,
        operators_parts(ops).unique_variants.len() == 0,
        operators_parts(ops).data_fields.len() == 0,
    decreases ops.len(),
{
    if ops.len() > 0 {
        lemma_operators_counts(ops.drop_last());
    }
}

proof fn lemma_indexes_counts(model: Model, indexes: Seq<Index>)
    ensures
        indexes_parts(model, indexes).order_variants.len() == 0,
        indexes_parts(model, indexes).cursor_variants.len() == 0,
        indexes_parts(model, indexes).create_args.len() == 0,
        indexes_parts(model, indexes).field_modules.len() == 0,
        indexes_parts(model, indexes).unique_variants.len() == indexes.len(),
        indexes_parts(model, indexes).data_fields.len() == 0,
    decreases indexes.len(),
{
    if indexes.len() > 0 {
        lemma_indexes_counts(model, indexes.drop_last());
    }
}

/// In the module generated for any model: results can be ordered by, and
/// paged from, each field that is not a relation, one variant each; `create`
/// takes one argument per field that creating a record requires; a record
/// can be found by each compound index and by each id or unique field that
/// the client writes, one `UniqueWhereParam` variant each; `Data` has one
/// field per relation and per field that the client writes; and there is one
/// query module per field, in the fields' order, named after the field in
/// snake case.
pub proof fn lemma_one_entry_per_field(ast: Ast, model: Model)
    ensures
        model_parts(ast, model).order_variants.len() == scalar_count(model.fields@),
        model_parts(ast, model).cursor_variants.len() == scalar_count(model.fields@),
        model_parts(ast, model).create_args.len() == required_count(model.fields@),
        model_parts(ast, model).unique_variants.len() == model.indexes@.len() + unique_count(
            model.fields@,
        ),
        model_parts(ast, model).data_fields.len() == record_count(model.fields@),
        model_parts(ast, model).field_modules.len() == model.fields@.len(),
        forall|i: int|
            0 <= i < model.fields@.len() ==> (#[trigger] model_parts(ast, model).field_modules[i]).name
                == snake(model.fields@[i].name@),
{
    lemma_operators_counts(ast.operators@);
    lemma_indexes_counts(model, model.indexes@);
    lemma_fields_counts(ast, model.fields@);
    let p = model_parts(ast, model);
    let a = join_parts(operators_parts(ast.operators@), indexes_parts(model, model.indexes@));
    let fp = fields_parts(ast, model.fields@);
    assert forall|i: int| 0 <= i < model.fields@.len() implies (#[trigger] p.field_modules[i]).name
        == snake(model.fields@[i].name@) by {
        assert(p.field_modules[i] == fp.field_modules[i]);
        assert(fp.field_modules[i] == field_module(ast, model.fields@[i]));
        lemma_field_counts(ast, model.fields@[i]);
    }
}


/// The module after each call of `ops` in turn.
pub open spec fn apply_ops(m: FieldModuleView, ops: Seq<ModuleOp>) -> FieldModuleView
    decreases ops.len(),
{
    if ops.len() == 0 {
        m
    } else {
        apply_op(apply_ops(m, ops.drop_last()), ops.last())
    }
}

/// The texts of the `add_method` calls among `ops`, in call order.
pub open spec fn methods_of(ops: Seq<ModuleOp>) -> Seq<Seq<char>>
    decreases ops.len(),
{
    if ops.len() == 0 {
        Seq::empty()
    } else {
        match ops.last() {
            ModuleOp::Method(t) => methods_of(ops.drop_last()).push(t),
            ModuleOp::Struct(_) => methods_of(ops.drop_last()),
        }
    }
}

/// The texts of the `add_struct` calls among `ops`, in call order.
pub open spec fn structs_of(ops: Seq<ModuleOp>) -> Seq<Seq<char>>
    decreases ops.len(),
{
    if ops.len() == 0 {
        Seq::empty()
    } else {
        match ops.last() {
            ModuleOp::Method(_) => structs_of(ops.drop_last()),
            ModuleOp::Struct(t) => structs_of(ops.drop_last()).push(t),
        }
    }
}

/// After any sequence of `add_method` and `add_struct` calls, a field's
/// query module holds its methods in call order, then its structs in call
/// order, whatever the interleaving of the two kinds of call.
pub proof fn lemma_module_ops(m: FieldModuleView, ops: Seq<ModuleOp>)
    ensures
        apply_ops(m, ops) == (FieldModuleView {
            name: m.name,
            methods: m.methods + methods_of(ops),
            structs: m.structs + structs_of(ops),
        }),
    decreases ops.len(),
{
    if ops.len() == 0 {
        assert(m.methods + methods_of(ops) =~= m.methods);
        assert(m.structs + structs_of(ops) =~= m.structs);
    } else {
        lemma_module_ops(m, ops.drop_last());
        let prev = ops.drop_last();
        match ops.last() {
            ModuleOp::Method(t) => {
                assert(m.methods + methods_of(prev).push(t) =~= (m.methods + methods_of(prev)).push(t));
            },
            ModuleOp::Struct(t) => {
                assert(m.structs + structs_of(prev).push(t) =~= (m.structs + structs_of(prev)).push(t));
            },
        }
    }
}

/// Two sequences of `add_method` and `add_struct` calls that make the same
/// methods in the same order and the same structs in the same order give a
/// module with the same text, however they interleave.
pub proof fn lemma_module_code_ignores_interleaving(
    m: FieldModuleView,
    ops1: Seq<ModuleOp>,
    ops2: Seq<ModuleOp>,
)
    requires
        methods_of(ops1) == methods_of(ops2),
        structs_of(ops1) == structs_of(ops2),
    ensures
        field_module_code(apply_ops(m, ops1)) == field_module_code(apply_ops(m, ops2)),
{
    lemma_module_ops(m, ops1);
    lemma_module_ops(m, ops2);
}

} // verus!
