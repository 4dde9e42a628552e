use vstd::prelude::*;

use crate::text::{joined, joined_text, lemma_texts_push, terminated, terminated_text, texts};

verus! {

/// The `Data` struct that holds a record of a model.
pub open spec fn data_struct_code(fields: Seq<Seq<char>>) -> Seq<char> {
    "#[derive(Debug, Clone, Serialize, Deserialize)]\npub struct Data {\n"@ + joined(
        fields,
        ",\n"@,
    ) + "\n}\n"@
}

/// The fields of the record type of a model.
pub struct DataStruct {
    fields: Vec<String>,
}

impl DataStruct {
    pub closed spec fn fields(&self) -> Seq<Seq<char>> {
        texts(self.fields@)
    }

    pub fn new() -> (res: Self)
        ensures
            res.fields() == Seq::<Seq<char>>::empty(),
    {
        let res = DataStruct { fields: Vec::new() };
        assert(res.fields() =~= Seq::<Seq<char>>::empty());
        res
    }

    pub fn add_field(&mut self, field: String)
        ensures
            final(self).fields() == old(self).fields().push(field@),
    {
        proof {
            lemma_texts_push(self.fields@, field);
        }
        self.fields.push(field);
    }

    pub fn quote(&self) -> (res: String)
        ensures
            res@ == data_struct_code(self.fields()),
    {
        let f = joined_text(&self.fields, ",\n");
        let mut res = String::from_str(
            "#[derive(Debug, Clone, Serialize, Deserialize)]\npub struct Data {\n",
        );
        res.append(f.as_str());
        res.append("\n}\n");
        res
    }
}

pub open spec fn create_arg(field_name: Seq<char>, variant_type: Seq<char>) -> Seq<char> {
    field_name + ": "@ + field_name + "::"@ + variant_type + ","@
}

pub open spec fn create_arg_tuple_type(field_name: Seq<char>, variant_type: Seq<char>) -> Seq<char> {
    field_name + "::"@ + variant_type + ","@
}

pub open spec fn create_arg_destructured(field_name: Seq<char>) -> Seq<char> {
    field_name + ","@
}

pub open spec fn create_arg_params_push(field_name: Seq<char>) -> Seq<char> {
    "_params.push("@ + field_name + ".into());"@
}

/// The arguments that creating a record of a model requires.
pub struct Actions {
    create_args: Vec<String>,
    create_args_tuple_types: Vec<String>,
    create_args_destructured: Vec<String>,
    create_args_params_pushes: Vec<String>,
}

impl Actions {
    pub closed spec fn create_args(&self) -> Seq<Seq<char>> {
        texts(self.create_args@)
    }

    pub closed spec fn create_args_tuple_types(&self) -> Seq<Seq<char>> {
        texts(self.create_args_tuple_types@)
    }

    pub closed spec fn create_args_destructured(&self) -> Seq<Seq<char>> {
        texts(self.create_args_destructured@)
    }

    pub closed spec fn create_args_params_pushes(&self) -> Seq<Seq<char>> {
        texts(self.create_args_params_pushes@)
    }

    pub fn new() -> (res: Self)
        ensures
            res.create_args() == Seq::<Seq<char>>::empty(),
            res.create_args_tuple_types() == Seq::<Seq<char>>::empty(),
            res.create_args_destructured() == Seq::<Seq<char>>::empty(),
            res.create_args_params_pushes() == Seq::<Seq<char>>::empty(),
    {
        let res = Actions {
            create_args: Vec::new(),
            create_args_tuple_types: Vec::new(),
            create_args_destructured: Vec::new(),
            create_args_params_pushes: Vec::new(),
        };
        assert(res.create_args() =~= Seq::<Seq<char>>::empty());
        assert(res.create_args_tuple_types() =~= Seq::<Seq<char>>::empty());
        assert(res.create_args_destructured() =~= Seq::<Seq<char>>::empty());
        assert(res.create_args_params_pushes() =~= Seq::<Seq<char>>::empty());
        res
    }

    /// Makes the field an argument of `create` and of the create part of `upsert`.
    pub fn push_required_arg(&mut self, field_name: &str, variant_type: &str)
        ensures
            final(self).create_args() == old(self).create_args().push(
                create_arg(field_name@, variant_type@),
            ),
            final(self).create_args_tuple_types() == old(self).create_args_tuple_types().push(
                create_arg_tuple_type(field_name@, variant_type@),
            ),
            final(self).create_args_destructured() == old(self).create_args_destructured().push(
                create_arg_destructured(field_name@),
            ),
            final(self).create_args_params_pushes() == old(self).create_args_params_pushes().push(
                create_arg_params_push(field_name@),
            ),
    {
        let mut a = String::from_str(field_name);
        a.append(": ");
        a.append(field_name);
        a.append("::");
        a.append(variant_type);
        a.append(",");
        let mut t = String::from_str(field_name);
        t.append("::");
        t.append(variant_type);
        t.append(",");
        let mut d = String::from_str(field_name);
        d.append(",");
        let mut p = String::from_str("_params.push(");
        p.append(field_name);
        p.append(".into());");
        proof {
            lemma_texts_push(self.create_args@, a);
            lemma_texts_push(self.create_args_tuple_types@, t);
            lemma_texts_push(self.create_args_destructured@, d);
            lemma_texts_push(self.create_args_params_pushes@, p);
        }
        self.create_args.push(a);
        self.create_args_tuple_types.push(t);
        self.create_args_destructured.push(d);
        self.create_args_params_pushes.push(p);
    }

    pub fn create_args_text(&self) -> (res: String)
        ensures
            res@ == terminated(self.create_args(), "\n"@),
    {
        terminated_text(&self.create_args, "\n")
    }

    pub fn create_args_tuple_types_text(&self) -> (res: String)
        ensures
            res@ == terminated(self.create_args_tuple_types(), "\n"@),
    {
        terminated_text(&self.create_args_tuple_types, "\n")
    }

    pub fn create_args_destructured_text(&self) -> (res: String)
        ensures
            res@ == terminated(self.create_args_destructured(), "\n"@),
    {
        terminated_text(&self.create_args_destructured, "\n")
    }

    pub fn create_args_params_pushes_text(&self) -> (res: String)
        ensures
            res@ == terminated(self.create_args_params_pushes(), "\n"@),
    {
        terminated_text(&self.create_args_params_pushes, "\n")
    }
}

} // verus!
