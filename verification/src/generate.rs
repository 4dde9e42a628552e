use vstd::prelude::*;
use vstd::utf8::is_ascii_chars;

use crate::casing::{convert_case, TextCase};
use crate::data::{Actions, DataStruct};
use crate::model_spec::{
    column_arg, column_field, column_pair, column_type, field_contribution, field_module,
    field_parts, fields_parts, index_args, index_base_name, index_destructured, index_pairs,
    index_parts, index_types, indexes_parts, indexes_resolve, kind_contribution, model_code,
    model_parts, module_parts, operator_parts, operators_parts, read_filter_contribution,
    read_method_contribution, read_methods_contribution, relation_actions_contribution,
    relation_method_contribution, relation_methods_contribution, scalar_contribution,
    scalar_own_contribution, scalar_tail_parts, write_filter_contribution,
    write_method_contribution, write_methods_contribution,
};
use crate::modules::{FieldModuleView, FieldQueryModule, ModelQueryModules};
use crate::params::{OrderByParams, Outputs, PaginationParams, SetParams, WithParams};
use crate::parts::{
    empty_parts, extend_module, join_contributions, join_parts, lemma_extend_module_twice,
    lemma_join_contributions_empty, lemma_join_parts_assoc, lemma_join_parts_empty,
    no_contribution, only_parts, Contribution, ModelParts,
};
use crate::schema::{
    field_ascii, filter_ascii, first_filter, first_named, methods_ascii, model_ascii, schema_ascii,
    Ast, Field, Index, Method, Model, Root,
};
use crate::templates::{
    boxed_text, compound_accessor_text, cursor_fn_text, equals_arm_text, fetch_many_fn_text,
    fetch_one_fn_text, index_from_unique_arm_text, index_pair_text, index_where_arm_text,
    into_call_text, link_many_struct_text, link_one_struct_text, many_link_arm_text,
    many_link_variant_text, model_module_text, one_link_arm_text, one_link_variant_text,
    one_unlink_arm_text, operator_where_arm_text, operator_where_variant_text, option_of_text,
    optional_unique_equals_fn_text, optional_unique_from_arm_text, optional_value_text,
    order_fn_text, path_in_text, plain_equals_fn_text, read_arm_text, read_list_value_text,
    read_method_fn_text, related_data_text, relation_data_field_text, relation_method_fn_text,
    relation_serde_attr_text, relation_where_arm_text, relation_where_variant_text,
    scalar_data_field_text, set_arm_text, set_fn_text, set_struct_text, typed_arg_text,
    unique_equals_fn_text, unique_from_arm_text, unlink_fn_text, vec_of_text, with_payload_text,
    write_arm_text, write_method_fn_text,
};
use crate::text::{concatenated, joined_text, literal, literal_text, texts};
use crate::where_params::WhereParams;

verus! {

/// All the lists that the module of one model is written from.
pub struct ModelBuilder {
    data: DataStruct,
    with: WithParams,
    set: SetParams,
    order_by: OrderByParams,
    pagination: PaginationParams,
    where_params: WhereParams,
    query_modules: ModelQueryModules,
    actions: Actions,
}

impl View for ModelBuilder {
    type V = ModelParts;

    closed spec fn view(&self) -> ModelParts {
        ModelParts {
            data_fields: self.data.fields(),
            with_variants: self.with.variants(),
            with_arms: self.with.match_arms(),
            with_from_args: self.with.from_args(),
            set_variants: self.set.variants(),
            set_arms: self.set.match_arms(),
            order_variants: self.order_by.variants(),
            order_arms: self.order_by.match_arms(),
            cursor_variants: self.pagination.cursor_variants(),
            cursor_arms: self.pagination.cursor_match_arms(),
            where_variants: self.where_params.variants(),
            where_arms: self.where_params.to_query_value(),
            unique_variants: self.where_params.unique_variants(),
            unique_arms: self.where_params.from_unique_match_arms(),
            optional_uniques: self.where_params.from_optional_uniques(),
            field_modules: self.query_modules.field_modules(),
            accessors: self.query_modules.compound_field_accessors(),
            create_args: self.actions.create_args(),
            create_tuple_types: self.actions.create_args_tuple_types(),
            create_destructured: self.actions.create_args_destructured(),
            create_pushes: self.actions.create_args_params_pushes(),
        }
    }
}

impl ModelBuilder {
    pub fn new() -> (res: Self)
        ensures
            res@ == empty_parts(),
    {
        let res = ModelBuilder {
            data: DataStruct::new(),
            with: WithParams::new(),
            set: SetParams::new(),
            order_by: OrderByParams::new(),
            pagination: PaginationParams::new(),
            where_params: WhereParams::new(),
            query_modules: ModelQueryModules::new(),
            actions: Actions::new(),
        };
        assert(res@ =~= empty_parts());
        res
    }

    /// Adds the where variant of a logical operator.
    pub fn add_operator(&mut self, op: &Method)
        requires
            is_ascii_chars(op.name@),
        ensures
            final(self)@ == join_parts(old(self)@, operator_parts(*op)),
    {
        let variant = convert_case(op.name.as_str(), TextCase::Pascal);
        let action = literal_text(op.action.as_str());
        let v = operator_where_variant_text(variant.as_str());
        let arm = operator_where_arm_text(variant.as_str(), action.as_str());
        self.where_params.add_variant(v, arm);
        assert(self@ =~= join_parts(old(self)@, operator_parts(*op)));
    }

    /// Adds the unique where variant and the accessor of a compound index.
    pub fn add_index(&mut self, model: &Model, index: &Index)
        requires
            forall|k: int| 0 <= k < index.fields@.len() ==> is_ascii_chars(#[trigger] index.fields@[k]@),
            forall|k: int|
                0 <= k < index.fields@.len() ==> #[trigger] first_named(
                    model.fields@,
                    index.fields@[k]@,
                ) is Some,
        ensures
            final(self)@ == join_parts(old(self)@, index_parts(*model, *index)),
    {
        let ghost names = texts(index.fields@);
        let n = index.fields.len();
        let mut base = String::new();
        let mut args: Vec<String> = Vec::new();
        let mut types: Vec<String> = Vec::new();
        let mut destructured: Vec<String> = Vec::new();
        let mut pairs: Vec<String> = Vec::new();
        let mut k: usize = 0;
        while k < n
            invariant
                n == index.fields@.len(),
                names == texts(index.fields@),
                forall|j: int| 0 <= j < index.fields@.len() ==> is_ascii_chars(#[trigger] index.fields@[j]@),
                is_ascii_chars(base@),
                k <= n,
                forall|j: int|
                    0 <= j < index.fields@.len() ==> #[trigger] first_named(
                        model.fields@,
                        index.fields@[j]@,
                    ) is Some,
                base@ == concatenated(
                    Seq::new(names.len(), |j: int| crate::casing::pascal(names[j])).take(k as int),
                ),
                texts(args@) =~= index_args(*model, names).take(k as int),
                texts(types@) =~= index_types(*model, names).take(k as int),
                texts(destructured@) =~= index_destructured(names).take(k as int),
                texts(pairs@) =~= index_pairs(*model, names).take(k as int),
            decreases n - k,
        {
            let name = &index.fields[k];
            assert(first_named(model.fields@, index.fields@[k as int]@) is Some);
            let field = match model.field_named(name) {
                Some(f) => f,
                None => {
                    proof {
                        assert(false);
                    }
                    return ;
                },
            };
            assert(*field == column_field(*model, names[k as int]));
            let pascal_name = convert_case(name.as_str(), TextCase::Pascal);
            let snake_name = convert_case(name.as_str(), TextCase::Snake);
            let rust_type = field.field_type.tokens();
            let column = if field.is_list {
                vec_of_text(rust_type.as_str())
            } else {
                rust_type
            };
            assert(column@ == column_type(column_field(*model, names[k as int])));
            let arg = typed_arg_text(snake_name.as_str(), column.as_str());
            let lit = literal_text(name.as_str());
            let value = field.field_type.to_query_value(snake_name.as_str(), field.is_list);
            let pair = index_pair_text(lit.as_str(), value.as_str());
            assert(arg@ == column_arg(*model, names[k as int]));
            assert(pair@ == column_pair(*model, names[k as int]));
            proof {
                let ps = Seq::new(names.len(), |j: int| crate::casing::pascal(names[j]));
                assert(ps.take(k + 1).drop_last() =~= ps.take(k as int));
            }
            let ghost before = base@;
            base.append(pascal_name.as_str());
            proof {
                vstd::utf8::is_ascii_chars_concat(base@, before, pascal_name@);
                assert(texts(args@.push(arg)) =~= texts(args@).push(arg@));
                assert(texts(types@.push(column)) =~= texts(types@).push(column@));
                assert(texts(destructured@.push(snake_name)) =~= texts(destructured@).push(
                    snake_name@,
                ));
                assert(texts(pairs@.push(pair)) =~= texts(pairs@).push(pair@));
            }
            args.push(arg);
            types.push(column);
            destructured.push(snake_name);
            pairs.push(pair);
            k = k + 1;
        }
        proof {
            let ps = Seq::new(names.len(), |j: int| crate::casing::pascal(names[j]));
            assert(ps.take(n as int) =~= ps);
            assert(base@ == index_base_name(names));
            assert(index_args(*model, names).take(n as int) =~= index_args(*model, names));
            assert(index_types(*model, names).take(n as int) =~= index_types(*model, names));
            assert(index_destructured(names).take(n as int) =~= index_destructured(names));
            assert(index_pairs(*model, names).take(n as int) =~= index_pairs(*model, names));
        }
        let mut variant_name = base.clone();
        variant_name.append("Equals");
        let accessor = convert_case(base.as_str(), TextCase::Snake);
        let destructured_text = joined_text(&destructured, ", ");
        let types_text = joined_text(&types, ", ");
        let args_text = joined_text(&args, ", ");
        let pairs_text = joined_text(&pairs, ", ");
        let key = joined_text(&index.fields, "_");
        let key_lit = literal_text(key.as_str());
        let variant = with_payload_text(variant_name.as_str(), types_text.as_str());
        let unique_variant = with_payload_text(variant_name.as_str(), types_text.as_str());
        let arm = index_where_arm_text(
            variant_name.as_str(),
            destructured_text.as_str(),
            key_lit.as_str(),
            pairs_text.as_str(),
        );
        let from_unique = index_from_unique_arm_text(
            variant_name.as_str(),
            destructured_text.as_str(),
        );
        let compound = compound_accessor_text(
            accessor.as_str(),
            args_text.as_str(),
            variant_name.as_str(),
            destructured_text.as_str(),
        );
        self.query_modules.add_compound_field(compound);
        self.where_params.add_unique_variant(variant, arm, from_unique, unique_variant);
        assert(self@ =~= join_parts(old(self)@, index_parts(*model, *index)));
    }
}


/// One more step of a field: what has been added so far, then what the step adds.
proof fn lemma_step(
    start: ModelParts,
    m0: FieldModuleView,
    acc: Contribution,
    c: Contribution,
    mid: ModelParts,
    mid_m: FieldModuleView,
    end: ModelParts,
    end_m: FieldModuleView,
)
    requires
        mid == join_parts(start, acc.parts),
        mid_m == extend_module(m0, acc),
        end == join_parts(mid, c.parts),
        end_m == extend_module(mid_m, c),
    ensures
        end == join_parts(start, join_contributions(acc, c).parts),
        end_m == extend_module(m0, join_contributions(acc, c)),
{
    lemma_join_parts_assoc(start, acc.parts, c.parts);
    lemma_extend_module_twice(m0, acc, c);
}

proof fn lemma_nothing_added(start: ModelParts, m0: FieldModuleView)
    ensures
        start == join_parts(start, no_contribution().parts),
        m0 == extend_module(m0, no_contribution()),
{
    lemma_join_parts_empty(start);
    assert(m0 =~= extend_module(m0, no_contribution()));
}

impl ModelBuilder {
    /// Adds the relation filters of a relation field.
    pub fn add_relation_methods(&mut self, m: &mut FieldQueryModule, f: &Field)
        requires
            is_ascii_chars(f.name@),
            is_ascii_chars(f.field_type.name@),
            methods_ascii(f.relation_methods@),
        ensures
            final(self)@ == join_parts(
                old(self)@,
                relation_methods_contribution(*f, f.relation_methods@).parts,
            ),
            final(m)@ == extend_module(old(m)@, relation_methods_contribution(*f, f.relation_methods@)),
    {
        let ghost start = self@;
        let ghost m0 = m@;
        let relation = convert_case(f.field_type.name.as_str(), TextCase::Snake);
        let field_pascal = convert_case(f.name.as_str(), TextCase::Pascal);
        let field_lit = literal_text(f.name.as_str());
        let n = f.relation_methods.len();
        let mut i: usize = 0;
        proof {
            assert(f.relation_methods@.take(0) =~= Seq::<Method>::empty());
            lemma_nothing_added(start, m0);
        }
        while i < n
            invariant
                n == f.relation_methods@.len(),
                i <= n,
                relation@ == crate::model_spec::relation_module(*f),
                methods_ascii(f.relation_methods@),
                field_pascal@ == crate::casing::pascal(f.name@),
                field_lit@ == literal(f.name@),
                self@ == join_parts(
                    start,
                    relation_methods_contribution(*f, f.relation_methods@.take(i as int)).parts,
                ),
                m@ == extend_module(
                    m0,
                    relation_methods_contribution(*f, f.relation_methods@.take(i as int)),
                ),
            decreases n - i,
        {
            let ghost mid = self@;
            let ghost mid_m = m@;
            let r = &f.relation_methods[i];
            let mut variant = field_pascal.clone();
            let method_pascal = convert_case(r.name.as_str(), TextCase::Pascal);
            variant.append(method_pascal.as_str());
            let action = literal_text(r.action.as_str());
            let method_snake = convert_case(r.name.as_str(), TextCase::Snake);
            let v = relation_where_variant_text(variant.as_str(), relation.as_str());
            let arm = relation_where_arm_text(variant.as_str(), field_lit.as_str(), action.as_str());
            self.where_params.add_variant(v, arm);
            m.add_method(relation_method_fn_text(method_snake.as_str(), relation.as_str(), variant.as_str()));
            proof {
                let c = relation_method_contribution(*f, *r);
                assert(self@ =~= join_parts(mid, c.parts));
                assert(m@ =~= extend_module(mid_m, c));
                let acc = relation_methods_contribution(*f, f.relation_methods@.take(i as int));
                lemma_step(start, m0, acc, c, mid, mid_m, self@, m@);
                assert(f.relation_methods@.take(i + 1).drop_last() =~= f.relation_methods@.take(i as int));
            }
            i = i + 1;
        }
        assert(f.relation_methods@.take(n as int) =~= f.relation_methods@);
    }

    /// Adds the fetch, link and unlink parts of a relation field and its record field.
    pub fn add_relation_actions(&mut self, m: &mut FieldQueryModule, f: &Field)
        requires
            is_ascii_chars(f.name@),
            is_ascii_chars(f.field_type.name@),
        ensures
            final(self)@ == join_parts(old(self)@, relation_actions_contribution(*f).parts),
            final(m)@ == extend_module(old(m)@, relation_actions_contribution(*f)),
    {
        let name = f.name.as_str();
        let field = literal_text(name);
        let relation = convert_case(f.field_type.name.as_str(), TextCase::Snake);
        let variant = convert_case(name, TextCase::Pascal);
        let field_snake = convert_case(name, TextCase::Snake);
        let link = SetParams::field_link_variant(name);
        let unlink = SetParams::field_unlink_variant(name);
        let with_fn = WithParams::with_fn(relation.as_str());
        let r = relation.as_str();
        if f.is_list {
            let order_by_fn = OrderByParams::order_by_fn(r);
            let pagination_fns = PaginationParams::pagination_fns(r);
            m.add_method(
                fetch_many_fn_text(
                    r,
                    with_fn.as_str(),
                    order_by_fn.as_str(),
                    pagination_fns.as_str(),
                    variant.as_str(),
                    unlink.as_str(),
                ),
            );
            m.add_struct(link_many_struct_text(r, link.as_str()));
            self.set.add_variant(
                many_link_variant_text(link.as_str(), r),
                many_link_arm_text(link.as_str(), field.as_str(), "\"connect\"", r),
            );
            self.set.add_variant(
                many_link_variant_text(unlink.as_str(), r),
                many_link_arm_text(unlink.as_str(), field.as_str(), "\"disconnect\"", r),
            );
            self.with.add_many_variant(name, r, variant.as_str());
            let attr = relation_serde_attr_text(field.as_str(), "required_relation");
            let data = related_data_text(r);
            let ty = vec_of_text(data.as_str());
            self.data.add_field(relation_data_field_text(attr.as_str(), field_snake.as_str(), ty.as_str()));
        } else {
            m.add_method(fetch_one_fn_text(r, with_fn.as_str(), variant.as_str()));
            m.add_struct(link_one_struct_text(r, link.as_str()));
            self.set.add_variant(
                one_link_variant_text(link.as_str(), r),
                one_link_arm_text(link.as_str(), field.as_str(), r),
            );
            if !f.is_required {
                m.add_method(unlink_fn_text(unlink.as_str()));
                self.set.add_variant(unlink.clone(), one_unlink_arm_text(unlink.as_str(), field.as_str()));
            }
            self.with.add_single_variant(name, r, variant.as_str());
            let data = related_data_text(r);
            let boxed = boxed_text(data.as_str());
            let ty = if f.is_required {
                boxed
            } else {
                option_of_text(boxed.as_str())
            };
            let attr = if f.is_required {
                relation_serde_attr_text(field.as_str(), "required_relation")
            } else {
                relation_serde_attr_text(field.as_str(), "optional_single_relation")
            };
            self.data.add_field(relation_data_field_text(attr.as_str(), field_snake.as_str(), ty.as_str()));
        }
        if f.required_on_create {
            self.actions.push_required_arg(field_snake.as_str(), "Link");
        }
        assert(self@ =~= join_parts(old(self)@, relation_actions_contribution(*f).parts));
        assert(m@ =~= extend_module(old(m)@, relation_actions_contribution(*f)));
    }

    /// Adds the set variant, equality filter, record field and functions of a scalar field.
    pub fn add_scalar_own(&mut self, m: &mut FieldQueryModule, f: &Field)
        requires
            is_ascii_chars(f.name@),
            !f.prisma,
        ensures
            final(self)@ == join_parts(old(self)@, scalar_own_contribution(*f).parts),
            final(m)@ == extend_module(old(m)@, scalar_own_contribution(*f)),
    {
        let name = f.name.as_str();
        let field = literal_text(name);
        let rust_type = f.field_type.tokens();
        let field_pascal = convert_case(name, TextCase::Pascal);
        let field_snake = convert_case(name, TextCase::Snake);
        let set_variant = SetParams::field_set_variant(name);
        let conversion = f.field_type.to_query_value("value", f.is_list);
        let ty = if f.is_list {
            vec_of_text(rust_type.as_str())
        } else if f.is_required {
            rust_type.clone()
        } else {
            option_of_text(rust_type.as_str())
        };
        let content = if f.is_list || f.is_required {
            conversion.clone()
        } else {
            optional_value_text(conversion.as_str())
        };
        m.add_method(set_fn_text(ty.as_str()));
        m.add_struct(set_struct_text(ty.as_str(), set_variant.as_str()));
        self.set.add_variant(
            with_payload_text(set_variant.as_str(), ty.as_str()),
            set_arm_text(set_variant.as_str(), field.as_str(), content.as_str()),
        );
        let mut equals_variant = field_pascal.clone();
        equals_variant.append("Equals");
        let ev = with_payload_text(equals_variant.as_str(), ty.as_str());
        let equals_value = if f.is_required {
            conversion.clone()
        } else {
            optional_value_text(conversion.as_str())
        };
        let arm = equals_arm_text(equals_variant.as_str(), field.as_str(), equals_value.as_str());
        if f.is_id || (f.is_unique && f.is_required) {
            self.where_params.add_unique_variant(
                ev.clone(),
                arm,
                unique_from_arm_text(equals_variant.as_str()),
                ev,
            );
            m.add_method(unique_equals_fn_text(ty.as_str(), equals_variant.as_str()));
        } else if f.is_unique && !f.is_required {
            self.where_params.add_optional_unique_variant(
                ev,
                arm,
                optional_unique_from_arm_text(equals_variant.as_str()),
                with_payload_text(equals_variant.as_str(), rust_type.as_str()),
                rust_type.as_str(),
                equals_variant.as_str(),
                path_in_text(field_snake.as_str(), "Set"),
            );
            m.add_method(optional_unique_equals_fn_text());
        } else {
            self.where_params.add_variant(ev, arm);
            m.add_method(plain_equals_fn_text(ty.as_str(), equals_variant.as_str()));
        }
        m.add_method(order_fn_text(field_pascal.as_str()));
        if f.is_id || f.is_unique {
            m.add_method(cursor_fn_text(rust_type.as_str(), field_pascal.as_str()));
        }
        self.data.add_field(scalar_data_field_text(field.as_str(), field_snake.as_str(), ty.as_str()));
        assert(self@ =~= join_parts(old(self)@, scalar_own_contribution(*f).parts));
        assert(m@ =~= extend_module(old(m)@, scalar_own_contribution(*f)));
    }

    /// Adds the write methods (such as `increment`) of a scalar field.
    pub fn add_write_filters(&mut self, m: &mut FieldQueryModule, ast: &Ast, f: &Field)
        requires
            is_ascii_chars(f.name@),
            filter_ascii(first_filter(ast.write_filters@, f.field_type.name@, f.is_list)),
        ensures
            final(self)@ == join_parts(old(self)@, write_filter_contribution(*ast, *f).parts),
            final(m)@ == extend_module(old(m)@, write_filter_contribution(*ast, *f)),
    {
        let ghost start = self@;
        let ghost m0 = m@;
        proof {
            lemma_nothing_added(start, m0);
        }
        let w = match ast.write_filter(&f.field_type.name, f.is_list) {
            Some(w) => w,
            None => {
                return ;
            },
        };
        let field_pascal = convert_case(f.name.as_str(), TextCase::Pascal);
        let field_lit = literal_text(f.name.as_str());
        assert forall|j: int| 0 <= j < w.methods@.len() implies is_ascii_chars(
            #[trigger] w.methods@[j].name@,
        ) by {
            assert(first_filter(ast.write_filters@, f.field_type.name@, f.is_list) == Some(*w));
            assert(crate::schema::filter_methods_ascii(*w));
        }
        let n = w.methods.len();
        let mut i: usize = 0;
        assert(w.methods@.take(0) =~= Seq::<crate::schema::FilterMethod>::empty());
        while i < n
            invariant
                n == w.methods@.len(),
                forall|j: int| 0 <= j < w.methods@.len() ==> is_ascii_chars(#[trigger] w.methods@[j].name@),
                i <= n,
                field_pascal@ == crate::casing::pascal(f.name@),
                field_lit@ == literal(f.name@),
                self@ == join_parts(start, write_methods_contribution(*f, w.methods@.take(i as int)).parts),
                m@ == extend_module(m0, write_methods_contribution(*f, w.methods@.take(i as int))),
            decreases n - i,
        {
            let ghost mid = self@;
            let ghost mid_m = m@;
            let wm = &w.methods[i];
            let base = if wm.typ.name.as_str().unicode_len() == 0 {
                f.field_type.tokens()
            } else {
                wm.typ.tokens()
            };
            let ty = if wm.is_list {
                vec_of_text(base.as_str())
            } else {
                base
            };
            let mut variant = convert_case(wm.name.as_str(), TextCase::Pascal);
            variant.append(field_pascal.as_str());
            let action = literal_text(wm.action.as_str());
            let value = wm.typ.to_query_value("value", wm.is_list);
            let method_snake = convert_case(wm.name.as_str(), TextCase::Snake);
            self.set.add_variant(
                with_payload_text(variant.as_str(), ty.as_str()),
                write_arm_text(variant.as_str(), field_lit.as_str(), action.as_str(), value.as_str()),
            );
            m.add_method(write_method_fn_text(method_snake.as_str(), ty.as_str(), variant.as_str()));
            proof {
                let c = write_method_contribution(*f, *wm);
                assert(self@ =~= join_parts(mid, c.parts));
                assert(m@ =~= extend_module(mid_m, c));
                let acc = write_methods_contribution(*f, w.methods@.take(i as int));
                lemma_step(start, m0, acc, c, mid, mid_m, self@, m@);
                assert(w.methods@.take(i + 1).drop_last() =~= w.methods@.take(i as int));
            }
            i = i + 1;
        }
        assert(w.methods@.take(n as int) =~= w.methods@);
    }

    /// Adds the order and cursor variants of a scalar field, and its create argument.
    pub fn add_scalar_tail(&mut self, f: &Field)
        requires
            is_ascii_chars(f.name@),
        ensures
            final(self)@ == join_parts(old(self)@, scalar_tail_parts(*f)),
    {
        let name = f.name.as_str();
        let field_pascal = convert_case(name, TextCase::Pascal);
        self.order_by.add_variant(name, field_pascal.as_str());
        self.pagination.add_variant(name, field_pascal.as_str(), &f.field_type);
        if f.required_on_create {
            let field_snake = convert_case(name, TextCase::Snake);
            self.actions.push_required_arg(field_snake.as_str(), "Set");
        }
        assert(self@ =~= join_parts(old(self)@, scalar_tail_parts(*f)));
    }

    /// Adds the read filters (such as `contains`) of a field.
    pub fn add_read_filters(&mut self, m: &mut FieldQueryModule, ast: &Ast, f: &Field)
        requires
            is_ascii_chars(f.name@),
            filter_ascii(first_filter(ast.read_filters@, f.field_type.name@, f.is_list)),
        ensures
            final(self)@ == join_parts(old(self)@, read_filter_contribution(*ast, *f).parts),
            final(m)@ == extend_module(old(m)@, read_filter_contribution(*ast, *f)),
    {
        let ghost start = self@;
        let ghost m0 = m@;
        proof {
            lemma_nothing_added(start, m0);
        }
        let r = match ast.read_filter(&f.field_type.name, f.is_list) {
            Some(r) => r,
            None => {
                return ;
            },
        };
        let field_pascal = convert_case(f.name.as_str(), TextCase::Pascal);
        let field_name = if f.prisma {
            let mut s = String::from_str("_");
            s.append(f.name.as_str());
            s
        } else {
            f.name.clone()
        };
        let field_lit = literal_text(field_name.as_str());
        assert forall|j: int| 0 <= j < r.methods@.len() implies is_ascii_chars(
            #[trigger] r.methods@[j].name@,
        ) by {
            assert(first_filter(ast.read_filters@, f.field_type.name@, f.is_list) == Some(*r));
            assert(crate::schema::filter_methods_ascii(*r));
        }
        let n = r.methods.len();
        let mut i: usize = 0;
        assert(r.methods@.take(0) =~= Seq::<crate::schema::FilterMethod>::empty());
        while i < n
            invariant
                n == r.methods@.len(),
                forall|j: int| 0 <= j < r.methods@.len() ==> is_ascii_chars(#[trigger] r.methods@[j].name@),
                i <= n,
                field_pascal@ == crate::casing::pascal(f.name@),
                field_lit@ == literal(
                    if f.prisma {
                        "_"@ + f.name@
                    } else {
                        f.name@
                    },
                ),
                self@ == join_parts(start, read_methods_contribution(*f, r.methods@.take(i as int)).parts),
                m@ == extend_module(m0, read_methods_contribution(*f, r.methods@.take(i as int))),
            decreases n - i,
        {
            let ghost mid = self@;
            let ghost mid_m = m@;
            let rm = &r.methods[i];
            let base = if rm.typ.name.as_str().unicode_len() == 0 {
                f.field_type.tokens()
            } else {
                rm.typ.tokens()
            };
            let mut variant = field_pascal.clone();
            let method_pascal = convert_case(rm.name.as_str(), TextCase::Pascal);
            variant.append(method_pascal.as_str());
            let method_snake = convert_case(rm.name.as_str(), TextCase::Snake);
            let action = literal_text(rm.action.as_str());
            let (ty, value) = if rm.is_list {
                let conversion = rm.typ.to_prisma_value("v");
                (vec_of_text(base.as_str()), read_list_value_text(conversion.as_str()))
            } else {
                let conversion = rm.typ.to_prisma_value("value");
                (base, into_call_text(conversion.as_str()))
            };
            self.where_params.add_variant(
                with_payload_text(variant.as_str(), ty.as_str()),
                read_arm_text(variant.as_str(), field_lit.as_str(), action.as_str(), value.as_str()),
            );
            m.add_method(read_method_fn_text(method_snake.as_str(), ty.as_str(), variant.as_str()));
            proof {
                let c = read_method_contribution(*f, *rm);
                assert(self@ =~= join_parts(mid, c.parts));
                assert(m@ =~= extend_module(mid_m, c));
                let acc = read_methods_contribution(*f, r.methods@.take(i as int));
                lemma_step(start, m0, acc, c, mid, mid_m, self@, m@);
                assert(r.methods@.take(i + 1).drop_last() =~= r.methods@.take(i as int));
            }
            i = i + 1;
        }
        assert(r.methods@.take(n as int) =~= r.methods@);
    }
}


impl ModelBuilder {
    /// Adds everything that one field of the model contributes, its query module included.
    #[verifier::rlimit(40)]
    pub fn add_field(&mut self, ast: &Ast, f: &Field)
        requires
            field_ascii(*ast, *f),
        ensures
            final(self)@ == join_parts(old(self)@, field_parts(*ast, *f)),
    {
        let ghost start = self@;
        let mut m = FieldQueryModule::new(f);
        let ghost m0 = m@;
        if f.kind.is_relation() {
            let ghost s1 = self@;
            let ghost m1 = m@;
            self.add_relation_methods(&mut m, f);
            let ghost s2 = self@;
            let ghost m2 = m@;
            self.add_relation_actions(&mut m, f);
            proof {
                lemma_nothing_added(start, m0);
                let c1 = relation_methods_contribution(*f, f.relation_methods@);
                let c2 = relation_actions_contribution(*f);
                lemma_step(start, m0, no_contribution(), c1, s1, m1, s2, m2);
                lemma_join_contributions_empty(c1);
                lemma_step(start, m0, c1, c2, s2, m2, self@, m@);
            }
        } else {
            let ghost s1 = self@;
            let ghost m1 = m@;
            proof {
                lemma_nothing_added(start, m0);
            }
            if !f.prisma {
                self.add_scalar_own(&mut m, f);
            } else {
                proof {
                    lemma_nothing_added(self@, m@);
                }
            }
            let ghost own = if f.prisma {
                no_contribution()
            } else {
                scalar_own_contribution(*f)
            };
            let ghost s2 = self@;
            let ghost m2 = m@;
            proof {
                lemma_step(start, m0, no_contribution(), own, s1, m1, s2, m2);
                lemma_join_contributions_empty(own);
            }
            self.add_write_filters(&mut m, ast, f);
            let ghost s3 = self@;
            let ghost m3 = m@;
            proof {
                let w = write_filter_contribution(*ast, *f);
                lemma_step(start, m0, own, w, s2, m2, s3, m3);
            }
            self.add_scalar_tail(f);
            proof {
                let acc = join_contributions(own, write_filter_contribution(*ast, *f));
                let t = only_parts(scalar_tail_parts(*f));
                assert(m@ =~= extend_module(m3, t));
                lemma_step(start, m0, acc, t, s3, m3, self@, m@);
                assert(join_contributions(acc, t) == scalar_contribution(*ast, *f));
            }
        }
        let ghost s4 = self@;
        let ghost m4 = m@;
        self.add_read_filters(&mut m, ast, f);
        proof {
            let k = kind_contribution(*ast, *f);
            let rc = read_filter_contribution(*ast, *f);
            lemma_step(start, m0, k, rc, s4, m4, self@, m@);
            assert(m@ =~= field_module(*ast, *f));
        }
        let ghost s5 = self@;
        self.query_modules.add_field_module(m);
        proof {
            assert(self@ =~= join_parts(s5, module_parts(field_module(*ast, *f))));
            lemma_join_parts_assoc(
                start,
                field_contribution(*ast, *f).parts,
                module_parts(field_module(*ast, *f)),
            );
        }
    }
}

/// Writes the module of one model.
pub fn model_code_text(ast: &Ast, model: &Model) -> (res: String)
    requires
        model_ascii(*ast, *model),
        indexes_resolve(*model),
    ensures
        res@ == model_code(*ast, *model),
{
    let outputs = Outputs::new(model);
    let mut b = ModelBuilder::new();
    let ops = &ast.operators;
    let n_ops = ops.len();
    let mut i: usize = 0;
    assert(ops@.take(0) =~= Seq::<Method>::empty());
    while i < n_ops
        invariant
            n_ops == ops@.len(),
            i <= n_ops,
            b@ == operators_parts(ops@.take(i as int)),
            methods_ascii(ops@),
        decreases n_ops - i,
    {
        b.add_operator(&ops[i]);
        assert(ops@.take(i + 1).drop_last() =~= ops@.take(i as int));
        i = i + 1;
    }
    assert(ops@.take(n_ops as int) =~= ops@);
    let ghost after_ops = b@;
    let n_idx = model.indexes.len();
    let mut j: usize = 0;
    assert(model.indexes@.take(0) =~= Seq::<Index>::empty());
    proof {
        lemma_join_parts_empty(after_ops);
    }
    while j < n_idx
        invariant
            n_idx == model.indexes@.len(),
            j <= n_idx,
            indexes_resolve(*model),
            model_ascii(*ast, *model),
            after_ops == operators_parts(ast.operators@),
            b@ == join_parts(after_ops, indexes_parts(*model, model.indexes@.take(j as int))),
        decreases n_idx - j,
    {
        let ghost mid = b@;
        let index = &model.indexes[j];
        assert forall|k: int| 0 <= k < index.fields@.len() implies #[trigger] first_named(
            model.fields@,
            index.fields@[k]@,
        ) is Some by {
            assert(first_named(model.fields@, model.indexes@[j as int].fields@[k]@) is Some);
        }
        assert forall|k: int| 0 <= k < index.fields@.len() implies is_ascii_chars(
            #[trigger] index.fields@[k]@,
        ) by {
            assert(is_ascii_chars(model.indexes@[j as int].fields@[k]@));
        }
        b.add_index(model, index);
        proof {
            lemma_join_parts_assoc(
                after_ops,
                indexes_parts(*model, model.indexes@.take(j as int)),
                index_parts(*model, *index),
            );
            assert(model.indexes@.take(j + 1).drop_last() =~= model.indexes@.take(j as int));
        }
        j = j + 1;
    }
    assert(model.indexes@.take(n_idx as int) =~= model.indexes@);
    let ghost after_idx = b@;
    let n_fields = model.fields.len();
    let mut k: usize = 0;
    assert(model.fields@.take(0) =~= Seq::<Field>::empty());
    proof {
        lemma_join_parts_empty(after_idx);
    }
    while k < n_fields
        invariant
            n_fields == model.fields@.len(),
            k <= n_fields,
            b@ == join_parts(after_idx, fields_parts(*ast, model.fields@.take(k as int))),
            model_ascii(*ast, *model),
        decreases n_fields - k,
    {
        let f = &model.fields[k];
        assert(field_ascii(*ast, model.fields@[k as int]));
        b.add_field(ast, f);
        proof {
            lemma_join_parts_assoc(
                after_idx,
                fields_parts(*ast, model.fields@.take(k as int)),
                field_parts(*ast, *f),
            );
            assert(model.fields@.take(k + 1).drop_last() =~= model.fields@.take(k as int));
        }
        k = k + 1;
    }
    assert(model.fields@.take(n_fields as int) =~= model.fields@);
    assert(b@ == model_parts(*ast, *model));
    let module = convert_case(model.name.as_str(), TextCase::Snake);
    let query_modules = b.query_modules.quote();
    let outputs_fn = outputs.quote();
    let data = b.data.quote();
    let with = b.with.quote();
    let set = b.set.quote();
    let order_by = b.order_by.quote();
    let pagination = b.pagination.quote();
    let where_params = b.where_params.quote();
    let name = literal_text(model.name.as_str());
    let create_args = b.actions.create_args_text();
    let pushes = b.actions.create_args_params_pushes_text();
    let tuple_types = b.actions.create_args_tuple_types_text();
    let destructured = b.actions.create_args_destructured_text();
    model_module_text(
        module.as_str(),
        query_modules.as_str(),
        outputs_fn.as_str(),
        data.as_str(),
        with.as_str(),
        set.as_str(),
        order_by.as_str(),
        pagination.as_str(),
        where_params.as_str(),
        name.as_str(),
        create_args.as_str(),
        pushes.as_str(),
        tuple_types.as_str(),
        destructured.as_str(),
    )
}

/// Every model's compound indexes name fields of that model.
pub open spec fn models_resolve(ast: Ast) -> bool {
    forall|i: int| 0 <= i < ast.models@.len() ==> #[trigger] indexes_resolve(ast.models@[i])
}

/// The module of each model of the schema, in the schema's order.
pub fn generate(root: &Root) -> (res: Vec<String>)
    requires
        root.ast is Some,
        models_resolve(root.ast->Some_0),
        schema_ascii(root.ast->Some_0),
    ensures
        res@.len() == root.ast->Some_0.models@.len(),
        forall|i: int|
            0 <= i < res@.len() ==> #[trigger] res@[i]@ == model_code(
                root.ast->Some_0,
                root.ast->Some_0.models@[i],
            ),
{
    let ast = match &root.ast {
        Some(ast) => ast,
        None => {
            return Vec::new();
        },
    };
    let mut res: Vec<String> = Vec::new();
    let n = ast.models.len();
    let mut i: usize = 0;
    while i < n
        invariant
            n == ast.models@.len(),
            i <= n,
            models_resolve(*ast),
            schema_ascii(*ast),
            res@.len() == i,
            forall|j: int| 0 <= j < i ==> #[trigger] res@[j]@ == model_code(*ast, ast.models@[j]),
        decreases n - i,
    {
        assert(indexes_resolve(ast.models@[i as int]));
        assert(model_ascii(*ast, ast.models@[i as int]));
        let code = model_code_text(ast, &ast.models[i]);
        res.push(code);
        i = i + 1;
    }
    res
}

} // verus!
