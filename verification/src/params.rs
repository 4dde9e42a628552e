use vstd::prelude::*;
use vstd::utf8::is_ascii_chars;

use crate::casing::{convert_case, pascal, TextCase};
use crate::schema::{Field, FieldKind, FieldType, Model};
use crate::text::{
    concatenated, concatenated_text, joined, joined_text, lemma_texts_push, literal, literal_text,
    texts,
};

verus! {

proof fn lemma_texts_empty(v: Seq<String>)
    requires
        v.len() == 0,
    ensures
        texts(v) == Seq::<Seq<char>>::empty(),
{
    assert(texts(v) =~= Seq::<Seq<char>>::empty());
}

/// An enum with the given variants and an `Into` impl whose match has the given arms.
pub open spec fn enum_with_into(
    name: Seq<char>,
    target: Seq<char>,
    variants: Seq<Seq<char>>,
    arms: Seq<Seq<char>>,
) -> Seq<char> {
    "pub enum "@ + name + " {\n"@ + joined(variants, ",\n"@) + "\n}\nimpl Into<"@ + target
        + "> for "@ + name + " {\nfn into(self) -> "@ + target + " {\nmatch self {\n"@
        + joined(arms, ",\n"@) + "\n}\n}\n}\n"@
}

fn enum_with_into_text(name: &str, target: &str, variants: &Vec<String>, arms: &Vec<String>) -> (res:
    String)
    ensures
        res@ == enum_with_into(name@, target@, texts(variants@), texts(arms@)),
{
    let vs = joined_text(variants, ",\n");
    let ms = joined_text(arms, ",\n");
    let mut res = String::from_str("pub enum ");
    res.append(name);
    res.append(" {\n");
    res.append(vs.as_str());
    res.append("\n}\nimpl Into<");
    res.append(target);
    res.append("> for ");
    res.append(name);
    res.append(" {\nfn into(self) -> ");
    res.append(target);
    res.append(" {\nmatch self {\n");
    res.append(ms.as_str());
    res.append("\n}\n}\n}\n");
    res
}

// ---------------------------------------------------------------------------------------------
// Outputs
// ---------------------------------------------------------------------------------------------

/// The names of the fields that are read with the model, in order.
pub open spec fn output_names(fields: Seq<Field>) -> Seq<Seq<char>>
    decreases fields.len(),
{
    if fields.len() == 0 {
        Seq::empty()
    } else if fields.last().kind != FieldKind::Relation {
        output_names(fields.drop_last()).push(fields.last().name@)
    } else {
        output_names(fields.drop_last())
    }
}

pub open spec fn literals(s: Seq<Seq<char>>) -> Seq<Seq<char>> {
    Seq::new(s.len(), |i: int| literal(s[i]))
}

/// The `_outputs` function, which selects the given fields.
pub open spec fn outputs_fn(outputs: Seq<Seq<char>>) -> Seq<char> {
    "pub fn _outputs() -> Vec<Selection> {\n["@ + joined(literals(outputs), ", "@)
        + "]\n.into_iter()\n.map(|o| {\nlet builder = Selection::builder(o);\nbuilder.build()\n})\n.collect()\n}\n"@
}

/// The fields that a query of a model selects.
pub struct Outputs {
    outputs: Vec<String>,
}

impl Outputs {
    pub closed spec fn outputs(&self) -> Seq<Seq<char>> {
        texts(self.outputs@)
    }

    /// The names of the model's fields that are not relations, in order.
    pub fn new(model: &Model) -> (res: Self)
        ensures
            res.outputs() == output_names(model.fields@),
    {
        let mut outputs: Vec<String> = Vec::new();
        let n = model.fields.len();
        let mut i: usize = 0;
        proof {
            lemma_texts_empty(outputs@);
        }
        while i < n
            invariant
                n == model.fields@.len(),
                i <= n,
                texts(outputs@) == output_names(model.fields@.take(i as int)),
            decreases n - i,
        {
            let f = &model.fields[i];
            assert(model.fields@.take(i + 1).drop_last() =~= model.fields@.take(i as int));
            if f.kind.include_in_struct() {
                proof {
                    lemma_texts_push(outputs@, f.name);
                }
                outputs.push(f.name.clone());
            }
            i = i + 1;
        }
        assert(model.fields@.take(n as int) =~= model.fields@);
        Outputs { outputs }
    }

    pub fn quote(&self) -> (res: String)
        ensures
            res@ == outputs_fn(self.outputs()),
    {
        let mut lits: Vec<String> = Vec::new();
        let n = self.outputs.len();
        let mut i: usize = 0;
        while i < n
            invariant
                n == self.outputs@.len(),
                i <= n,
                texts(lits@) =~= literals(texts(self.outputs@)).take(i as int),
            decreases n - i,
        {
            let l = literal_text(self.outputs[i].as_str());
            proof {
                lemma_texts_push(lits@, l);
            }
            lits.push(l);
            i = i + 1;
        }
        assert(literals(texts(self.outputs@)).take(n as int) =~= literals(texts(self.outputs@)));
        let items = joined_text(&lits, ", ");
        let mut res = String::from_str("pub fn _outputs() -> Vec<Selection> {\n[");
        res.append(items.as_str());
        res.append(
            "]\n.into_iter()\n.map(|o| {\nlet builder = Selection::builder(o);\nbuilder.build()\n})\n.collect()\n}\n",
        );
        res
    }
}

// ---------------------------------------------------------------------------------------------
// WithParams
// ---------------------------------------------------------------------------------------------

/// The `with` method of a fetch builder for the model module `module`.
pub open spec fn with_fn(module: Seq<char>) -> Seq<char> {
    "pub fn with(mut self, params: impl Into<"@ + module
        + "::WithParam>) -> Self {\nself.args = self.args.with(params.into());\nself\n}\n"@
}

pub open spec fn single_with_variant(model_module: Seq<char>, variant_name: Seq<char>) -> Seq<char> {
    variant_name + "(super::"@ + model_module + "::UniqueArgs)"@
}

pub open spec fn single_with_arm(
    field_name: Seq<char>,
    model_module: Seq<char>,
    variant_name: Seq<char>,
) -> Seq<char> {
    "Self::"@ + variant_name + "(args) => {\nlet mut selections = super::"@ + model_module
        + "::_outputs();\nselections.extend(args.with_params.into_iter().map(Into::<Selection>::into));\nlet mut builder = Selection::builder("@
        + literal(field_name)
        + ");\nbuilder.nested_selections(selections);\nbuilder.build()\n}"@
}

pub open spec fn many_with_variant(model_module: Seq<char>, variant_name: Seq<char>) -> Seq<char> {
    variant_name + "(super::"@ + model_module + "::ManyArgs)"@
}

pub open spec fn many_with_arm(
    field_name: Seq<char>,
    model_module: Seq<char>,
    variant_name: Seq<char>,
) -> Seq<char> {
    "Self::"@ + variant_name
        + "(args) => {\nlet (arguments, mut nested_selections) = args.to_graphql();\nnested_selections.extend(super::"@
        + model_module + "::_outputs());\nlet mut builder = Selection::builder("@ + literal(
        field_name,
    )
        + ");\nbuilder.nested_selections(nested_selections).set_arguments(arguments);\nbuilder.build()\n}"@
}

/// The `WithParam` enum, its conversion into a selection, and the extra conversions.
pub open spec fn with_params_code(
    variants: Seq<Seq<char>>,
    arms: Seq<Seq<char>>,
    from_args: Seq<Seq<char>>,
) -> Seq<char> {
    enum_with_into("WithParam"@, "Selection"@, variants, arms) + concatenated(from_args)
}

/// The relations that a query of a model can fetch along with it.
pub struct WithParams {
    variants: Vec<String>,
    match_arms: Vec<String>,
    from_args: Vec<String>,
}

impl WithParams {
    pub closed spec fn variants(&self) -> Seq<Seq<char>> {
        texts(self.variants@)
    }

    pub closed spec fn match_arms(&self) -> Seq<Seq<char>> {
        texts(self.match_arms@)
    }

    pub closed spec fn from_args(&self) -> Seq<Seq<char>> {
        texts(self.from_args@)
    }

    pub fn new() -> (res: Self)
        ensures
            res.variants() == Seq::<Seq<char>>::empty(),
            res.match_arms() == Seq::<Seq<char>>::empty(),
            res.from_args() == Seq::<Seq<char>>::empty(),
    {
        let res = WithParams { variants: Vec::new(), match_arms: Vec::new(), from_args: Vec::new() };
        proof {
            lemma_texts_empty(res.variants@);
            lemma_texts_empty(res.match_arms@);
            lemma_texts_empty(res.from_args@);
        }
        res
    }

    pub fn with_fn(module: &str) -> (res: String)
        ensures
            res@ == with_fn(module@),
    {
        let mut res = String::from_str("pub fn with(mut self, params: impl Into<");
        res.append(module);
        res.append("::WithParam>) -> Self {\nself.args = self.args.with(params.into());\nself\n}\n");
        res
    }

    pub fn add_single_variant(&mut self, field_name: &str, model_module: &str, variant_name: &str)
        ensures
            final(self).variants() == old(self).variants().push(
                single_with_variant(model_module@, variant_name@),
            ),
            final(self).match_arms() == old(self).match_arms().push(
                single_with_arm(field_name@, model_module@, variant_name@),
            ),
            final(self).from_args() == old(self).from_args(),
    {
        let mut variant = String::from_str(variant_name);
        variant.append("(super::");
        variant.append(model_module);
        variant.append("::UniqueArgs)");
        let lit = literal_text(field_name);
        let mut arm = String::from_str("Self::");
        arm.append(variant_name);
        arm.append("(args) => {\nlet mut selections = super::");
        arm.append(model_module);
        arm.append(
            "::_outputs();\nselections.extend(args.with_params.into_iter().map(Into::<Selection>::into));\nlet mut builder = Selection::builder(",
        );
        arm.append(lit.as_str());
        arm.append(");\nbuilder.nested_selections(selections);\nbuilder.build()\n}");
        proof {
            lemma_texts_push(self.variants@, variant);
            lemma_texts_push(self.match_arms@, arm);
        }
        self.variants.push(variant);
        self.match_arms.push(arm);
    }

    pub fn add_many_variant(&mut self, field_name: &str, model_module: &str, variant_name: &str)
        ensures
            final(self).variants() == old(self).variants().push(
                many_with_variant(model_module@, variant_name@),
            ),
            final(self).match_arms() == old(self).match_arms().push(
                many_with_arm(field_name@, model_module@, variant_name@),
            ),
            final(self).from_args() == old(self).from_args(),
    {
        let mut variant = String::from_str(variant_name);
        variant.append("(super::");
        variant.append(model_module);
        variant.append("::ManyArgs)");
        let lit = literal_text(field_name);
        let mut arm = String::from_str("Self::");
        arm.append(variant_name);
        arm.append(
            "(args) => {\nlet (arguments, mut nested_selections) = args.to_graphql();\nnested_selections.extend(super::",
        );
        arm.append(model_module);
        arm.append("::_outputs());\nlet mut builder = Selection::builder(");
        arm.append(lit.as_str());
        arm.append(
            ");\nbuilder.nested_selections(nested_selections).set_arguments(arguments);\nbuilder.build()\n}",
        );
        proof {
            lemma_texts_push(self.variants@, variant);
            lemma_texts_push(self.match_arms@, arm);
        }
        self.variants.push(variant);
        self.match_arms.push(arm);
    }

    pub fn quote(&self) -> (res: String)
        ensures
            res@ == with_params_code(self.variants(), self.match_arms(), self.from_args()),
    {
        let mut res = enum_with_into_text("WithParam", "Selection", &self.variants, &self.match_arms);
        let extra = concatenated_text(&self.from_args);
        res.append(extra.as_str());
        res
    }
}

// ---------------------------------------------------------------------------------------------
// SetParams
// ---------------------------------------------------------------------------------------------

pub open spec fn set_params_code(variants: Seq<Seq<char>>, arms: Seq<Seq<char>>) -> Seq<char> {
    enum_with_into("SetParam"@, "(String, PrismaValue)"@, variants, arms)
}

pub open spec fn link_variant_name(field_name: Seq<char>) -> Seq<char> {
    "Link"@ + pascal(field_name)
}

pub open spec fn unlink_variant_name(field_name: Seq<char>) -> Seq<char> {
    "Unlink"@ + pascal(field_name)
}

pub open spec fn set_variant_name(field_name: Seq<char>) -> Seq<char> {
    "Set"@ + pascal(field_name)
}

/// The writes that create and update queries of a model accept.
pub struct SetParams {
    variants: Vec<String>,
    match_arms: Vec<String>,
}

impl SetParams {
    pub closed spec fn variants(&self) -> Seq<Seq<char>> {
        texts(self.variants@)
    }

    pub closed spec fn match_arms(&self) -> Seq<Seq<char>> {
        texts(self.match_arms@)
    }

    pub fn new() -> (res: Self)
        ensures
            res.variants() == Seq::<Seq<char>>::empty(),
            res.match_arms() == Seq::<Seq<char>>::empty(),
    {
        let res = SetParams { variants: Vec::new(), match_arms: Vec::new() };
        proof {
            lemma_texts_empty(res.variants@);
            lemma_texts_empty(res.match_arms@);
        }
        res
    }

    pub fn add_variant(&mut self, variant: String, match_arm: String)
        ensures
            final(self).variants() == old(self).variants().push(variant@),
            final(self).match_arms() == old(self).match_arms().push(match_arm@),
    {
        proof {
            lemma_texts_push(self.variants@, variant);
            lemma_texts_push(self.match_arms@, match_arm);
        }
        self.variants.push(variant);
        self.match_arms.push(match_arm);
    }

    pub fn quote(&self) -> (res: String)
        ensures
            res@ == set_params_code(self.variants(), self.match_arms()),
    {
        enum_with_into_text("SetParam", "(String, PrismaValue)", &self.variants, &self.match_arms)
    }

    /// The name of the variant that links a relation field.
    pub fn field_link_variant(field_name: &str) -> (res: String)
        requires
            is_ascii_chars(field_name@),
        ensures
            res@ == link_variant_name(field_name@),
    {
        let p = convert_case(field_name, TextCase::Pascal);
        let mut res = String::from_str("Link");
        res.append(p.as_str());
        res
    }

    /// The name of the variant that unlinks a relation field.
    pub fn field_unlink_variant(field_name: &str) -> (res: String)
        requires
            is_ascii_chars(field_name@),
        ensures
            res@ == unlink_variant_name(field_name@),
    {
        let p = convert_case(field_name, TextCase::Pascal);
        let mut res = String::from_str("Unlink");
        res.append(p.as_str());
        res
    }

    /// The name of the variant that sets a scalar field.
    pub fn field_set_variant(field_name: &str) -> (res: String)
        requires
            is_ascii_chars(field_name@),
        ensures
            res@ == set_variant_name(field_name@),
    {
        let p = convert_case(field_name, TextCase::Pascal);
        let mut res = String::from_str("Set");
        res.append(p.as_str());
        res
    }
}

// ---------------------------------------------------------------------------------------------
// OrderByParams
// ---------------------------------------------------------------------------------------------

pub open spec fn order_by_fn(module: Seq<char>) -> Seq<char> {
    "pub fn order_by(mut self, param: "@ + module
        + "::OrderByParam) -> Self {\nself.args = self.args.order_by(param);\nself\n}\n"@
}

pub open spec fn order_by_variant(variant_name: Seq<char>) -> Seq<char> {
    variant_name + "(Direction)"@
}

pub open spec fn order_by_arm(field_name: Seq<char>, variant_name: Seq<char>) -> Seq<char> {
    "Self::"@ + variant_name + "(direction) => (\n"@ + literal(field_name)
        + ".to_string(),\nPrismaValue::String(direction.to_string())\n)"@
}

pub open spec fn order_by_params_code(variants: Seq<Seq<char>>, arms: Seq<Seq<char>>) -> Seq<char> {
    enum_with_into("OrderByParam"@, "(String, PrismaValue)"@, variants, arms)
}

/// The fields that results of a model can be ordered by.
pub struct OrderByParams {
    variants: Vec<String>,
    match_arms: Vec<String>,
}

impl OrderByParams {
    pub closed spec fn variants(&self) -> Seq<Seq<char>> {
        texts(self.variants@)
    }

    pub closed spec fn match_arms(&self) -> Seq<Seq<char>> {
        texts(self.match_arms@)
    }

    pub fn new() -> (res: Self)
        ensures
            res.variants() == Seq::<Seq<char>>::empty(),
            res.match_arms() == Seq::<Seq<char>>::empty(),
    {
        let res = OrderByParams { variants: Vec::new(), match_arms: Vec::new() };
        proof {
            lemma_texts_empty(res.variants@);
            lemma_texts_empty(res.match_arms@);
        }
        res
    }

    pub fn order_by_fn(module: &str) -> (res: String)
        ensures
            res@ == order_by_fn(module@),
    {
        let mut res = String::from_str("pub fn order_by(mut self, param: ");
        res.append(module);
        res.append("::OrderByParam) -> Self {\nself.args = self.args.order_by(param);\nself\n}\n");
        res
    }

    pub fn add_variant(&mut self, field_name: &str, variant_name: &str)
        ensures
            final(self).variants() == old(self).variants().push(order_by_variant(variant_name@)),
            final(self).match_arms() == old(self).match_arms().push(
                order_by_arm(field_name@, variant_name@),
            ),
    {
        let mut variant = String::from_str(variant_name);
        variant.append("(Direction)");
        let lit = literal_text(field_name);
        let mut arm = String::from_str("Self::");
        arm.append(variant_name);
        arm.append("(direction) => (\n");
        arm.append(lit.as_str());
        arm.append(".to_string(),\nPrismaValue::String(direction.to_string())\n)");
        proof {
            lemma_texts_push(self.variants@, variant);
            lemma_texts_push(self.match_arms@, arm);
        }
        self.variants.push(variant);
        self.match_arms.push(arm);
    }

    pub fn quote(&self) -> (res: String)
        ensures
            res@ == order_by_params_code(self.variants(), self.match_arms()),
    {
        enum_with_into_text("OrderByParam", "(String, PrismaValue)", &self.variants, &self.match_arms)
    }
}

// ---------------------------------------------------------------------------------------------
// PaginationParams
// ---------------------------------------------------------------------------------------------

pub open spec fn pagination_fns(module: Seq<char>) -> Seq<char> {
    "pub fn skip(mut self, value: i64) -> Self {\nself.args = self.args.skip(value);\nself\n}\npub fn take(mut self, value: i64) -> Self {\nself.args = self.args.take(value);\nself\n}\npub fn cursor(mut self, value: impl Into<"@
        + module + "::Cursor>) -> Self {\nself.args = self.args.cursor(value.into());\nself\n}\n"@
}

pub open spec fn cursor_variant(variant_name: Seq<char>, cursor_type: FieldType) -> Seq<char> {
    variant_name + "("@ + cursor_type.rust_type@ + ")"@
}

pub open spec fn cursor_arm(field_name: Seq<char>, variant_name: Seq<char>, cursor_type: FieldType) -> Seq<
    char,
> {
    "Self::"@ + variant_name + "(cursor) => (\n"@ + literal(field_name) + ".to_string(),\n"@
        + cursor_type.prisma_value_of("cursor"@) + ".into()\n)"@
}

pub open spec fn pagination_params_code(variants: Seq<Seq<char>>, arms: Seq<Seq<char>>) -> Seq<char> {
    enum_with_into("Cursor"@, "(String, PrismaValue)"@, variants, arms)
}

/// The fields that a page of results of a model can start at.
pub struct PaginationParams {
    cursor_variants: Vec<String>,
    cursor_match_arms: Vec<String>,
}

impl PaginationParams {
    pub closed spec fn cursor_variants(&self) -> Seq<Seq<char>> {
        texts(self.cursor_variants@)
    }

    pub closed spec fn cursor_match_arms(&self) -> Seq<Seq<char>> {
        texts(self.cursor_match_arms@)
    }

    pub fn new() -> (res: Self)
        ensures
            res.cursor_variants() == Seq::<Seq<char>>::empty(),
            res.cursor_match_arms() == Seq::<Seq<char>>::empty(),
    {
        let res = PaginationParams { cursor_variants: Vec::new(), cursor_match_arms: Vec::new() };
        proof {
            lemma_texts_empty(res.cursor_variants@);
            lemma_texts_empty(res.cursor_match_arms@);
        }
        res
    }

    pub fn pagination_fns(module: &str) -> (res: String)
        ensures
            res@ == pagination_fns(module@),
    {
        let mut res = String::from_str(
            "pub fn skip(mut self, value: i64) -> Self {\nself.args = self.args.skip(value);\nself\n}\npub fn take(mut self, value: i64) -> Self {\nself.args = self.args.take(value);\nself\n}\npub fn cursor(mut self, value: impl Into<",
        );
        res.append(module);
        res.append("::Cursor>) -> Self {\nself.args = self.args.cursor(value.into());\nself\n}\n");
        res
    }

    pub fn add_variant(&mut self, field_name: &str, variant_name: &str, cursor_type: &FieldType)
        ensures
            final(self).cursor_variants() == old(self).cursor_variants().push(
                cursor_variant(variant_name@, *cursor_type),
            ),
            final(self).cursor_match_arms() == old(self).cursor_match_arms().push(
                cursor_arm(field_name@, variant_name@, *cursor_type),
            ),
    {
        let rust_type = cursor_type.tokens();
        let mut variant = String::from_str(variant_name);
        variant.append("(");
        variant.append(rust_type.as_str());
        variant.append(")");
        let prisma_value = cursor_type.to_prisma_value("cursor");
        let lit = literal_text(field_name);
        let mut arm = String::from_str("Self::");
        arm.append(variant_name);
        arm.append("(cursor) => (\n");
        arm.append(lit.as_str());
        arm.append(".to_string(),\n");
        arm.append(prisma_value.as_str());
        arm.append(".into()\n)");
        proof {
            lemma_texts_push(self.cursor_variants@, variant);
            lemma_texts_push(self.cursor_match_arms@, arm);
        }
        self.cursor_variants.push(variant);
        self.cursor_match_arms.push(arm);
    }

    pub fn quote(&self) -> (res: String)
        ensures
            res@ == pagination_params_code(self.cursor_variants(), self.cursor_match_arms()),
    {
        enum_with_into_text(
            "Cursor",
            "(String, PrismaValue)",
            &self.cursor_variants,
            &self.cursor_match_arms,
        )
    }
}

} // verus!
