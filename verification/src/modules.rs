use vstd::prelude::*;
use vstd::utf8::is_ascii_chars;

use crate::casing::{convert_case, snake, TextCase};
use crate::schema::Field;
use crate::text::{terminated, terminated_text, texts, lemma_texts_push};

verus! {

/// What a field's query module holds: its name, its functions and its structs.
#[verifier::ext_equal]
pub struct FieldModuleView {
    pub name: Seq<char>,
    pub methods: Seq<Seq<char>>,
    pub structs: Seq<Seq<char>>,
}

/// One call that adds to a field's query module.
pub enum ModuleOp {
    /// `add_method` with a function's text.
    Method(Seq<char>),
    /// `add_struct` with a struct's text.
    Struct(Seq<char>),
}

/// The module after one call.
pub open spec fn apply_op(m: FieldModuleView, op: ModuleOp) -> FieldModuleView {
    match op {
        ModuleOp::Method(t) => FieldModuleView { methods: m.methods.push(t), ..m },
        ModuleOp::Struct(t) => FieldModuleView { structs: m.structs.push(t), ..m },
    }
}

/// The module of the functions that build filters and writes on one field.
pub open spec fn field_module_code(m: FieldModuleView) -> Seq<char> {
    "pub mod "@ + m.name
        + " {\nuse super::super::*;\nuse super::{WhereParam, UniqueWhereParam, OrderByParam, Cursor, WithParam, SetParam};\n"@
        + terminated(m.methods, "\n"@) + terminated(m.structs, "\n"@) + "}\n"@
}

/// The query module of one field.
pub struct FieldQueryModule {
    name: String,
    methods: Vec<String>,
    structs: Vec<String>,
}

impl View for FieldQueryModule {
    type V = FieldModuleView;

    closed spec fn view(&self) -> FieldModuleView {
        FieldModuleView {
            name: self.name@,
            methods: texts(self.methods@),
            structs: texts(self.structs@),
        }
    }
}

impl FieldQueryModule {
    /// An empty module named after the field, in snake case.
    pub fn new(field: &Field) -> (res: Self)
        requires
            is_ascii_chars(field.name@),
        ensures
            res@ == (FieldModuleView {
                name: snake(field.name@),
                methods: Seq::empty(),
                structs: Seq::empty(),
            }),
    {
        let res = FieldQueryModule {
            name: convert_case(field.name.as_str(), TextCase::Snake),
            methods: Vec::new(),
            structs: Vec::new(),
        };
        assert(texts(res.methods@) =~= Seq::<Seq<char>>::empty());
        assert(texts(res.structs@) =~= Seq::<Seq<char>>::empty());
        res
    }

    pub fn add_method(&mut self, method: String)
        ensures
            final(self)@ == apply_op(old(self)@, ModuleOp::Method(method@)),
    {
        proof {
            lemma_texts_push(self.methods@, method);
        }
        self.methods.push(method);
    }

    pub fn add_struct(&mut self, struct_: String)
        ensures
            final(self)@ == apply_op(old(self)@, ModuleOp::Struct(struct_@)),
    {
        proof {
            lemma_texts_push(self.structs@, struct_);
        }
        self.structs.push(struct_);
    }

    pub fn quote(&self) -> (res: String)
        ensures
            res@ == field_module_code(self@),
    {
        let m = terminated_text(&self.methods, "\n");
        let s = terminated_text(&self.structs, "\n");
        let mut res = String::from_str("pub mod ");
        res.append(self.name.as_str());
        res.append(
            " {\nuse super::super::*;\nuse super::{WhereParam, UniqueWhereParam, OrderByParam, Cursor, WithParam, SetParam};\n",
        );
        res.append(m.as_str());
        res.append(s.as_str());
        res.append("}\n");
        res
    }
}

pub open spec fn module_codes(mods: Seq<FieldModuleView>) -> Seq<Seq<char>> {
    Seq::new(mods.len(), |i: int| field_module_code(mods[i]))
}

/// The field modules of a model, then the accessors of its compound unique indexes.
pub open spec fn query_modules_code(mods: Seq<FieldModuleView>, accessors: Seq<Seq<char>>) -> Seq<
    char,
> {
    terminated(module_codes(mods), "\n"@) + terminated(accessors, "\n"@)
}

/// The query modules of all fields of a model.
pub struct ModelQueryModules {
    field_modules: Vec<FieldQueryModule>,
    compound_field_accessors: Vec<String>,
}

impl ModelQueryModules {
    pub closed spec fn field_modules(&self) -> Seq<FieldModuleView> {
        Seq::new(self.field_modules@.len(), |i: int| self.field_modules@[i]@)
    }

    pub closed spec fn compound_field_accessors(&self) -> Seq<Seq<char>> {
        texts(self.compound_field_accessors@)
    }

    pub fn new() -> (res: Self)
        ensures
            res.field_modules() == Seq::<FieldModuleView>::empty(),
            res.compound_field_accessors() == Seq::<Seq<char>>::empty(),
    {
        let res = ModelQueryModules { field_modules: Vec::new(), compound_field_accessors: Vec::new() };
        assert(res.field_modules() =~= Seq::<FieldModuleView>::empty());
        assert(res.compound_field_accessors() =~= Seq::<Seq<char>>::empty());
        res
    }

    pub fn add_field_module(&mut self, field_module: FieldQueryModule)
        ensures
            final(self).field_modules() == old(self).field_modules().push(field_module@),
            final(self).compound_field_accessors() == old(self).compound_field_accessors(),
    {
        let ghost m = field_module@;
        self.field_modules.push(field_module);
        assert(self.field_modules() =~= old(self).field_modules().push(m));
    }

    pub fn add_compound_field(&mut self, compound_field_accessor: String)
        ensures
            final(self).field_modules() == old(self).field_modules(),
            final(self).compound_field_accessors() == old(self).compound_field_accessors().push(
                compound_field_accessor@,
            ),
    {
        proof {
            lemma_texts_push(self.compound_field_accessors@, compound_field_accessor);
        }
        self.compound_field_accessors.push(compound_field_accessor);
        assert(self.field_modules() =~= old(self).field_modules());
    }

    pub fn quote(&self) -> (res: String)
        ensures
            res@ == query_modules_code(self.field_modules(), self.compound_field_accessors()),
    {
        let mut codes: Vec<String> = Vec::new();
        let n = self.field_modules.len();
        let mut i: usize = 0;
        while i < n
            invariant
                n == self.field_modules@.len(),
                i <= n,
                texts(codes@) =~= module_codes(self.field_modules()).take(i as int),
            decreases n - i,
        {
            let c = self.field_modules[i].quote();
            proof {
                lemma_texts_push(codes@, c);
            }
            codes.push(c);
            i = i + 1;
        }
        assert(module_codes(self.field_modules()).take(n as int) =~= module_codes(self.field_modules()));
        let mut res = terminated_text(&codes, "\n");
        let a = terminated_text(&self.compound_field_accessors, "\n");
        res.append(a.as_str());
        res
    }
}

} // verus!
