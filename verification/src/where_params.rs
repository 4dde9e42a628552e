use vstd::prelude::*;

use crate::text::{joined, joined_text, lemma_texts_push, terminated, terminated_text, texts};

verus! {

/// The impls that let an optional unique field be filtered on with a plain
/// or an optional value.
pub open spec fn optional_unique_impls(
    arg_type: Seq<char>,
    variant_name: Seq<char>,
    struct_name: Seq<char>,
) -> Seq<char> {
    "impl prisma_client_rust::traits::FromOptionalUniqueArg<"@ + struct_name
        + "> for WhereParam {\ntype Arg = Option<"@ + arg_type
        + ">;\nfn from_arg(arg: Self::Arg) -> Self where Self: Sized {\nSelf::"@ + variant_name
        + "(arg)\n}\n}\nimpl prisma_client_rust::traits::FromOptionalUniqueArg<"@ + struct_name
        + "> for UniqueWhereParam {\ntype Arg = "@ + arg_type
        + ";\nfn from_arg(arg: Self::Arg) -> Self where Self: Sized {\nSelf::"@ + variant_name
        + "(arg)\n}\n}\n"@
}

/// The where-clause enums of a model and their conversions.
pub open spec fn where_params_code(
    variants: Seq<Seq<char>>,
    to_query_value: Seq<Seq<char>>,
    unique_variants: Seq<Seq<char>>,
    from_unique_match_arms: Seq<Seq<char>>,
    from_optional_uniques: Seq<Seq<char>>,
) -> Seq<char> {
    "pub enum WhereParam {\n"@ + joined(variants, ",\n"@)
        + "\n}\nimpl Into<SerializedWhere> for WhereParam {\nfn into(self) -> SerializedWhere {\nmatch self {\n"@
        + joined(to_query_value, ",\n"@) + "\n}\n}\n}\npub enum UniqueWhereParam {\n"@
        + joined(unique_variants, ",\n"@)
        + "\n}\nimpl From<UniqueWhereParam> for WhereParam {\nfn from(value: UniqueWhereParam) -> Self {\nmatch value {\n"@
        + joined(from_unique_match_arms, ",\n"@) + "\n}\n}\n}\n"@ + terminated(
        from_optional_uniques,
        "\n"@,
    )
        + "impl From<Operator<Self>> for WhereParam {\nfn from(op: Operator<Self>) -> Self {\nmatch op {\nOperator::Not(value) => Self::Not(value),\nOperator::And(value) => Self::And(value),\nOperator::Or(value) => Self::Or(value),\n}\n}\n}\n"@
}

/// The filters that queries of a model accept, and the unique ones among them.
pub struct WhereParams {
    variants: Vec<String>,
    to_query_value: Vec<String>,
    unique_variants: Vec<String>,
    from_unique_match_arms: Vec<String>,
    from_optional_uniques: Vec<String>,
}

impl WhereParams {
    pub closed spec fn variants(&self) -> Seq<Seq<char>> {
        texts(self.variants@)
    }

    pub closed spec fn to_query_value(&self) -> Seq<Seq<char>> {
        texts(self.to_query_value@)
    }

    pub closed spec fn unique_variants(&self) -> Seq<Seq<char>> {
        texts(self.unique_variants@)
    }

    pub closed spec fn from_unique_match_arms(&self) -> Seq<Seq<char>> {
        texts(self.from_unique_match_arms@)
    }

    pub closed spec fn from_optional_uniques(&self) -> Seq<Seq<char>> {
        texts(self.from_optional_uniques@)
    }

    pub fn new() -> (res: Self)
        ensures
            res.variants() == Seq::<Seq<char>>::empty(),
            res.to_query_value() == Seq::<Seq<char>>::empty(),
            res.unique_variants() == Seq::<Seq<char>>::empty(),
            res.from_unique_match_arms() == Seq::<Seq<char>>::empty(),
            res.from_optional_uniques() == Seq::<Seq<char>>::empty(),
    {
        let res = WhereParams {
            variants: Vec::new(),
            to_query_value: Vec::new(),
            unique_variants: Vec::new(),
            from_unique_match_arms: Vec::new(),
            from_optional_uniques: Vec::new(),
        };
        assert(res.variants() =~= Seq::<Seq<char>>::empty());
        assert(res.to_query_value() =~= Seq::<Seq<char>>::empty());
        assert(res.unique_variants() =~= Seq::<Seq<char>>::empty());
        assert(res.from_unique_match_arms() =~= Seq::<Seq<char>>::empty());
        assert(res.from_optional_uniques() =~= Seq::<Seq<char>>::empty());
        res
    }

    /// Adds a filter and the arm that serializes it.
    pub fn add_variant(&mut self, variant: String, match_arm: String)
        ensures
            final(self).variants() == old(self).variants().push(variant@),
            final(self).to_query_value() == old(self).to_query_value().push(match_arm@),
            final(self).unique_variants() == old(self).unique_variants(),
            final(self).from_unique_match_arms() == old(self).from_unique_match_arms(),
            final(self).from_optional_uniques() == old(self).from_optional_uniques(),
    {
        proof {
            lemma_texts_push(self.variants@, variant);
            lemma_texts_push(self.to_query_value@, match_arm);
        }
        self.variants.push(variant);
        self.to_query_value.push(match_arm);
    }

    /// Adds a filter that also identifies a single record.
    pub fn add_unique_variant(
        &mut self,
        variant: String,
        match_arm: String,
        from_unique_match_arm: String,
        unique_variant: String,
    )
        ensures
            final(self).variants() == old(self).variants().push(variant@),
            final(self).to_query_value() == old(self).to_query_value().push(match_arm@),
            final(self).unique_variants() == old(self).unique_variants().push(unique_variant@),
            final(self).from_unique_match_arms() == old(self).from_unique_match_arms().push(
                from_unique_match_arm@,
            ),
            final(self).from_optional_uniques() == old(self).from_optional_uniques(),
    {
        self.add_variant(variant, match_arm);
        proof {
            lemma_texts_push(self.unique_variants@, unique_variant);
            lemma_texts_push(self.from_unique_match_arms@, from_unique_match_arm);
        }
        self.unique_variants.push(unique_variant);
        self.from_unique_match_arms.push(from_unique_match_arm);
    }

    /// Adds a unique filter on an optional field, and the impls that build it.
    pub fn add_optional_unique_variant(
        &mut self,
        variant: String,
        match_arm: String,
        from_unique_match_arm: String,
        unique_variant: String,
        arg_type: &str,
        variant_name: &str,
        struct_name: String,
    )
        ensures
            final(self).variants() == old(self).variants().push(variant@),
            final(self).to_query_value() == old(self).to_query_value().push(match_arm@),
            final(self).unique_variants() == old(self).unique_variants().push(unique_variant@),
            final(self).from_unique_match_arms() == old(self).from_unique_match_arms().push(
                from_unique_match_arm@,
            ),
            final(self).from_optional_uniques() == old(self).from_optional_uniques().push(
                optional_unique_impls(arg_type@, variant_name@, struct_name@),
            ),
    {
        self.add_unique_variant(variant, match_arm, from_unique_match_arm, unique_variant);
        let s = struct_name.as_str();
        let mut imp = String::from_str("impl prisma_client_rust::traits::FromOptionalUniqueArg<");
        imp.append(s);
        imp.append("> for WhereParam {\ntype Arg = Option<");
        imp.append(arg_type);
        imp.append(">;\nfn from_arg(arg: Self::Arg) -> Self where Self: Sized {\nSelf::");
        imp.append(variant_name);
        imp.append("(arg)\n}\n}\nimpl prisma_client_rust::traits::FromOptionalUniqueArg<");
        imp.append(s);
        imp.append("> for UniqueWhereParam {\ntype Arg = ");
        imp.append(arg_type);
        imp.append(";\nfn from_arg(arg: Self::Arg) -> Self where Self: Sized {\nSelf::");
        imp.append(variant_name);
        imp.append("(arg)\n}\n}\n");
        proof {
            lemma_texts_push(self.from_optional_uniques@, imp);
        }
        self.from_optional_uniques.push(imp);
    }

    pub fn quote(&self) -> (res: String)
        ensures
            res@ == where_params_code(
                self.variants(),
                self.to_query_value(),
                self.unique_variants(),
                self.from_unique_match_arms(),
                self.from_optional_uniques(),
            ),
    {
        let a = joined_text(&self.variants, ",\n");
        let b = joined_text(&self.to_query_value, ",\n");
        let c = joined_text(&self.unique_variants, ",\n");
        let d = joined_text(&self.from_unique_match_arms, ",\n");
        let e = terminated_text(&self.from_optional_uniques, "\n");
        let mut res = String::from_str("pub enum WhereParam {\n");
        res.append(a.as_str());
        res.append(
            "\n}\nimpl Into<SerializedWhere> for WhereParam {\nfn into(self) -> SerializedWhere {\nmatch self {\n",
        );
        res.append(b.as_str());
        res.append("\n}\n}\n}\npub enum UniqueWhereParam {\n");
        res.append(c.as_str());
        res.append(
            "\n}\nimpl From<UniqueWhereParam> for WhereParam {\nfn from(value: UniqueWhereParam) -> Self {\nmatch value {\n",
        );
        res.append(d.as_str());
        res.append("\n}\n}\n}\n");
        res.append(e.as_str());
        res.append(
            "impl From<Operator<Self>> for WhereParam {\nfn from(op: Operator<Self>) -> Self {\nmatch op {\nOperator::Not(value) => Self::Not(value),\nOperator::And(value) => Self::And(value),\nOperator::Or(value) => Self::Or(value),\n}\n}\n}\n",
        );
        res
    }
}

} // verus!
