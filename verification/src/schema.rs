use vstd::prelude::*;
use vstd::utf8::is_ascii_chars;

verus! {

/// How a Rust expression is turned into a query-engine value: the text
/// `before`, then the expression, then the text `after`.
#[derive(Clone, Debug)]
pub struct ValueConversion {
    pub before: String,
    pub after: String,
}

impl ValueConversion {
    /// The conversion applied to the expression `var`.
    pub open spec fn applied(&self, var: Seq<char>) -> Seq<char> {
        self.before@ + var + self.after@
    }

    pub fn apply(&self, var: &str) -> (res: String)
        ensures
            res@ == self.applied(var@),
    {
        let mut res = self.before.clone();
        res.append(var);
        res.append(self.after.as_str());
        res
    }
}

/// A type of the schema as the generator sees it.
#[derive(Clone, Debug)]
pub struct FieldType {
    /// The schema's name of the type (a scalar such as `String`, or a model or enum name).
    pub name: String,
    /// The Rust type that stands for it in generated code.
    pub rust_type: String,
    /// Turns one value of the type into a `PrismaValue`.
    pub prisma_value: ValueConversion,
    /// Turns one value of the type into the value of a query argument.
    pub query_value: ValueConversion,
    /// Turns a `Vec` of values of the type into the value of a query argument.
    pub list_query_value: ValueConversion,
}

impl FieldType {
    pub open spec fn prisma_value_of(&self, var: Seq<char>) -> Seq<char> {
        self.prisma_value.applied(var)
    }

    pub open spec fn query_value_of(&self, var: Seq<char>, is_list: bool) -> Seq<char> {
        if is_list {
            self.list_query_value.applied(var)
        } else {
            self.query_value.applied(var)
        }
    }

    /// The Rust type that stands for this type.
    pub fn tokens(&self) -> (res: String)
        ensures
            res@ == self.rust_type@,
    {
        self.rust_type.clone()
    }

    /// The expression that turns `var` into a `PrismaValue`.
    pub fn to_prisma_value(&self, var: &str) -> (res: String)
        ensures
            res@ == self.prisma_value_of(var@),
    {
        self.prisma_value.apply(var)
    }

    /// The expression that turns `var` (a `Vec` where `is_list`) into a query value.
    pub fn to_query_value(&self, var: &str, is_list: bool) -> (res: String)
        ensures
            res@ == self.query_value_of(var@, is_list),
    {
        if is_list {
            self.list_query_value.apply(var)
        } else {
            self.query_value.apply(var)
        }
    }
}

/// What a field of a model holds.
#[derive(Clone, Copy, Debug, PartialEq, Eq, Structural)]
pub enum FieldKind {
    Scalar,
    Enum,
    Relation,
}

impl FieldKind {
    pub open spec fn is_relation_spec(self) -> bool {
        self == FieldKind::Relation
    }

    /// Relation fields are fetched on request; all others are read with the model.
    pub fn include_in_struct(&self) -> (res: bool)
        ensures
            res == !self.is_relation_spec(),
    {
        match self {
            FieldKind::Relation => false,
            _ => true,
        }
    }

    pub fn is_relation(&self) -> (res: bool)
        ensures
            res == self.is_relation_spec(),
    {
        match self {
            FieldKind::Relation => true,
            _ => false,
        }
    }
}

/// A named filter or operator and the key it is sent under.
#[derive(Clone, Debug)]
pub struct Method {
    pub name: String,
    pub action: String,
}

/// One method of a read or write filter.
#[derive(Clone, Debug)]
pub struct FilterMethod {
    pub name: String,
    pub action: String,
    /// The type of the method's argument; an empty name stands for the field's own type.
    pub typ: FieldType,
    pub is_list: bool,
}

/// The read or write filter of a type.
#[derive(Clone, Debug)]
pub struct Filter {
    pub typ_name: String,
    pub is_list: bool,
    pub methods: Vec<FilterMethod>,
}

/// A field of a model.
#[derive(Clone, Debug)]
pub struct Field {
    pub name: String,
    pub kind: FieldKind,
    pub field_type: FieldType,
    pub is_list: bool,
    pub is_required: bool,
    pub is_id: bool,
    pub is_unique: bool,
    /// A field that the query engine keeps for itself (written `_name` in filters).
    pub prisma: bool,
    /// Whether `create` must be given a value for the field.
    pub required_on_create: bool,
    /// The filters of a relation field (such as `every`, `some`, `is`).
    pub relation_methods: Vec<Method>,
}

/// A compound unique index of a model.
#[derive(Clone, Debug)]
pub struct Index {
    pub fields: Vec<String>,
}

/// A model of the schema.
#[derive(Clone, Debug)]
pub struct Model {
    pub name: String,
    pub fields: Vec<Field>,
    pub indexes: Vec<Index>,
}

/// The schema that code is generated from.
#[derive(Clone, Debug)]
pub struct Ast {
    pub models: Vec<Model>,
    /// The logical operators of where clauses (such as `not`, `and`, `or`).
    pub operators: Vec<Method>,
    pub read_filters: Vec<Filter>,
    pub write_filters: Vec<Filter>,
}

/// The generator's input.
#[derive(Clone, Debug)]
pub struct Root {
    pub ast: Option<Ast>,
}

/// The first filter for the type named `typ_name`, list or not.
pub open spec fn first_filter(filters: Seq<Filter>, typ_name: Seq<char>, is_list: bool) -> Option<
    Filter,
>
    decreases filters.len(),
{
    if filters.len() == 0 {
        None
    } else if filters[0].typ_name@ == typ_name && filters[0].is_list == is_list {
        Some(filters[0])
    } else {
        first_filter(filters.skip(1), typ_name, is_list)
    }
}

/// The first field named `name`.
pub open spec fn first_named(fields: Seq<Field>, name: Seq<char>) -> Option<Field>
    decreases fields.len(),
{
    if fields.len() == 0 {
        None
    } else if fields[0].name@ == name {
        Some(fields[0])
    } else {
        first_named(fields.skip(1), name)
    }
}

/// Every method of the list has an ASCII name.
pub open spec fn methods_ascii(ms: Seq<Method>) -> bool {
    forall|i: int| 0 <= i < ms.len() ==> is_ascii_chars(#[trigger] ms[i].name@)
}

/// Every method of the filter has an ASCII name.
pub open spec fn filter_methods_ascii(f: Filter) -> bool {
    forall|i: int| 0 <= i < f.methods@.len() ==> is_ascii_chars(#[trigger] f.methods@[i].name@)
}

/// The filter, where there is one, has only methods with ASCII names.
pub open spec fn filter_ascii(filter: Option<Filter>) -> bool {
    match filter {
        Some(f) => filter_methods_ascii(f),
        None => true,
    }
}

/// The names of a field that are case-converted are ASCII: its own name, its
/// read filter's methods, and for a relation the related model's name and the
/// relation filters, for a scalar its write filter's methods.
pub open spec fn field_ascii(ast: Ast, f: Field) -> bool {
    &&& is_ascii_chars(f.name@)
    &&& filter_ascii(first_filter(ast.read_filters@, f.field_type.name@, f.is_list))
    &&& if f.kind == FieldKind::Relation {
        is_ascii_chars(f.field_type.name@) && methods_ascii(f.relation_methods@)
    } else {
        filter_ascii(first_filter(ast.write_filters@, f.field_type.name@, f.is_list))
    }
}

/// The names of a model that are case-converted are ASCII: its own, the
/// operators', its fields' (see `field_ascii`) and those of its indexes.
pub open spec fn model_ascii(ast: Ast, model: Model) -> bool {
    &&& is_ascii_chars(model.name@)
    &&& methods_ascii(ast.operators@)
    &&& forall|i: int| 0 <= i < model.fields@.len() ==> #[trigger] field_ascii(ast, model.fields@[i])
    &&& forall|i: int, k: int|
        0 <= i < model.indexes@.len() && 0 <= k < model.indexes@[i].fields@.len()
            ==> is_ascii_chars(#[trigger] model.indexes@[i].fields@[k]@)
}

/// Every model of the schema has ASCII names where they are case-converted.
pub open spec fn schema_ascii(ast: Ast) -> bool {
    forall|i: int| 0 <= i < ast.models@.len() ==> #[trigger] model_ascii(ast, ast.models@[i])
}

fn find_filter<'a>(filters: &'a Vec<Filter>, typ_name: &String, is_list: bool) -> (res: Option<
    &'a Filter,
>)
    ensures
        match res {
            Some(f) => first_filter(filters@, typ_name@, is_list) == Some(*f),
            None => first_filter(filters@, typ_name@, is_list) is None,
        },
{
    let n = filters.len();
    let mut i: usize = 0;
    assert(filters@.skip(0) =~= filters@);
    while i < n
        invariant
            n == filters@.len(),
            i <= n,
            first_filter(filters@, typ_name@, is_list) == first_filter(
                filters@.skip(i as int),
                typ_name@,
                is_list,
            ),
        decreases n - i,
    {
        let f = &filters[i];
        if f.typ_name == *typ_name && f.is_list == is_list {
            return Some(f);
        }
        assert(filters@.skip(i as int).skip(1) =~= filters@.skip(i + 1));
        i = i + 1;
    }
    None
}

impl Ast {
    /// The filter that reading a field of the named type uses.
    pub fn read_filter(&self, typ_name: &String, is_list: bool) -> (res: Option<&Filter>)
        ensures
            match res {
                Some(f) => first_filter(self.read_filters@, typ_name@, is_list) == Some(*f),
                None => first_filter(self.read_filters@, typ_name@, is_list) is None,
            },
    {
        find_filter(&self.read_filters, typ_name, is_list)
    }

    /// The filter that writing a field of the named type uses.
    pub fn write_filter(&self, typ_name: &String, is_list: bool) -> (res: Option<&Filter>)
        ensures
            match res {
                Some(f) => first_filter(self.write_filters@, typ_name@, is_list) == Some(*f),
                None => first_filter(self.write_filters@, typ_name@, is_list) is None,
            },
    {
        find_filter(&self.write_filters, typ_name, is_list)
    }
}

impl Model {
    /// The field of this model named `name`.
    pub fn field_named(&self, name: &String) -> (res: Option<&Field>)
        ensures
            match res {
                Some(f) => first_named(self.fields@, name@) == Some(*f),
                None => first_named(self.fields@, name@) is None,
            },
    {
        let n = self.fields.len();
        let mut i: usize = 0;
        assert(self.fields@.skip(0) =~= self.fields@);
        while i < n
            invariant
                n == self.fields@.len(),
                i <= n,
                first_named(self.fields@, name@) == first_named(self.fields@.skip(i as int), name@),
            decreases n - i,
        {
            let f = &self.fields[i];
            if f.name == *name {
                return Some(f);
            }
            assert(self.fields@.skip(i as int).skip(1) =~= self.fields@.skip(i + 1));
            i = i + 1;
        }
        None
    }
}

} // verus!
