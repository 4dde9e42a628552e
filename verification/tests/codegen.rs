use prisma_codegen::data::{Actions, DataStruct};
use quote::ToTokens;
use prisma_codegen::generate::{generate, model_code_text};
use prisma_codegen::modules::{FieldQueryModule, ModelQueryModules};
use prisma_codegen::params::{OrderByParams, Outputs, PaginationParams, SetParams, WithParams};
use prisma_codegen::schema::{
    Ast, Field, FieldKind, FieldType, Filter, FilterMethod, Index, Method, Model, Root,
    ValueConversion,
};
use prisma_codegen::text::{joined_text, literal_text, terminated_text};
use prisma_codegen::tokens::generate_tokens;
use prisma_codegen::where_params::WhereParams;

fn conv(before: &str, after: &str) -> ValueConversion {
    ValueConversion { before: before.to_string(), after: after.to_string() }
}

fn string_type() -> FieldType {
    FieldType {
        name: "String".to_string(),
        rust_type: "String".to_string(),
        prisma_value: conv("PrismaValue::String(", ")"),
        query_value: conv("PrismaValue::String(", ")"),
        list_query_value: conv("PrismaValue::List(", ".into_iter().map(|v| PrismaValue::String(v)).collect())"),
    }
}

fn int_type() -> FieldType {
    FieldType {
        name: "Int".to_string(),
        rust_type: "i32".to_string(),
        prisma_value: conv("PrismaValue::Int(", " as i64)"),
        query_value: conv("PrismaValue::Int(", " as i64)"),
        list_query_value: conv("PrismaValue::List(", ".into_iter().map(|v| PrismaValue::Int(v as i64)).collect())"),
    }
}

fn bool_type() -> FieldType {
    FieldType {
        name: "Boolean".to_string(),
        rust_type: "bool".to_string(),
        prisma_value: conv("PrismaValue::Boolean(", ")"),
        query_value: conv("PrismaValue::Boolean(", ")"),
        list_query_value: conv("PrismaValue::List(", ".into_iter().map(|v| PrismaValue::Boolean(v)).collect())"),
    }
}

fn model_type(name: &str) -> FieldType {
    FieldType {
        name: name.to_string(),
        rust_type: name.to_string(),
        prisma_value: conv("", ""),
        query_value: conv("", ""),
        list_query_value: conv("", ""),
    }
}

fn same_type() -> FieldType {
    FieldType {
        name: String::new(),
        rust_type: String::new(),
        prisma_value: conv("PrismaValue::String(", ")"),
        query_value: conv("PrismaValue::String(", ")"),
        list_query_value: conv("PrismaValue::List(", ".into_iter().map(|v| PrismaValue::String(v)).collect())"),
    }
}

fn method(name: &str, action: &str) -> Method {
    Method { name: name.to_string(), action: action.to_string() }
}

fn scalar(name: &str, field_type: FieldType) -> Field {
    Field {
        name: name.to_string(),
        kind: FieldKind::Scalar,
        field_type,
        is_list: false,
        is_required: true,
        is_id: false,
        is_unique: false,
        prisma: false,
        required_on_create: false,
        relation_methods: vec![],
    }
}

fn relation(name: &str, target: &str, is_list: bool, is_required: bool) -> Field {
    let methods = if is_list {
        vec![method("some", "some"), method("every", "every")]
    } else {
        vec![method("is", "is")]
    };
    Field {
        name: name.to_string(),
        kind: FieldKind::Relation,
        field_type: model_type(target),
        is_list,
        is_required,
        is_id: false,
        is_unique: false,
        prisma: false,
        required_on_create: false,
        relation_methods: methods,
    }
}

fn sample_ast() -> Ast {
    let mut user_id = scalar("id", string_type());
    user_id.is_id = true;
    let mut email = scalar("email", string_type());
    email.is_unique = true;
    email.is_required = false;
    let mut name = scalar("name", string_type());
    name.required_on_create = true;
    let mut age = scalar("age", int_type());
    age.is_required = false;
    let user = Model {
        name: "User".to_string(),
        fields: vec![user_id, email, name, age, relation("posts", "Post", true, true)],
        indexes: vec![],
    };
    let mut post_id = scalar("id", string_type());
    post_id.is_id = true;
    let mut title = scalar("title", string_type());
    title.required_on_create = true;
    let published = scalar("published", bool_type());
    let mut tags = scalar("tags", string_type());
    tags.is_list = true;
    let mut author = relation("author", "User", false, false);
    author.required_on_create = false;
    let mut author_id = scalar("authorId", string_type());
    author_id.is_required = false;
    let mut internal = scalar("createdAt", string_type());
    internal.prisma = true;
    let post = Model {
        name: "Post".to_string(),
        fields: vec![post_id, title, published, tags, author, author_id, internal],
        indexes: vec![Index { fields: vec!["title".to_string(), "published".to_string()] }],
    };
    Ast {
        models: vec![user, post],
        operators: vec![method("not", "NOT"), method("and", "AND"), method("or", "OR")],
        read_filters: vec![Filter {
            typ_name: "String".to_string(),
            is_list: false,
            methods: vec![
                FilterMethod {
                    name: "contains".to_string(),
                    action: "contains".to_string(),
                    typ: same_type(),
                    is_list: false,
                },
                FilterMethod {
                    name: "in_vec".to_string(),
                    action: "in".to_string(),
                    typ: string_type(),
                    is_list: true,
                },
            ],
        }],
        write_filters: vec![Filter {
            typ_name: "Int".to_string(),
            is_list: false,
            methods: vec![FilterMethod {
                name: "increment".to_string(),
                action: "increment".to_string(),
                typ: same_type(),
                is_list: false,
            }],
        }],
    }
}

fn sample_root() -> Root {
    Root { ast: Some(sample_ast()) }
}

#[test]
fn literal_escapes_quotes_backslashes_and_newlines() {
    assert_eq!(literal_text("id"), "\"id\"");
    assert_eq!(literal_text("a\"b\\c\nd\te\r"), "\"a\\\"b\\\\c\\nd\\te\\r\"");
    assert_eq!(literal_text(""), "\"\"");
    assert_eq!(literal_text("a\0"), "\"a\\0\"");
    assert_eq!(literal_text("\01"), "\"\\x001\"");
    assert_eq!(literal_text("it's"), "\"it's\"");
    assert_eq!(literal_text("caf\u{e9}"), "\"caf\u{e9}\"");
}

#[test]
fn terminated_and_joined_texts() {
    let parts = vec!["a".to_string(), "b".to_string(), "c".to_string()];
    assert_eq!(terminated_text(&parts, ", "), "a, b, c, ");
    assert_eq!(joined_text(&parts, "_"), "a_b_c");
    assert_eq!(joined_text(&vec!["only".to_string()], "_"), "only");
    assert_eq!(joined_text(&vec![], "_"), "");
    assert_eq!(terminated_text(&vec![], ", "), "");
}

#[test]
fn outputs_list_fields_that_are_not_relations() {
    let ast = sample_ast();
    let outputs = Outputs::new(&ast.models[0]);
    assert_eq!(
        outputs.quote(),
        "pub fn _outputs() -> Vec<Selection> {\n[\"id\", \"email\", \"name\", \"age\"]\n.into_iter()\n.map(|o| {\nlet builder = Selection::builder(o);\nbuilder.build()\n})\n.collect()\n}\n"
    );
}

#[test]
fn set_param_variant_names_are_pascal_case() {
    assert_eq!(SetParams::field_link_variant("author"), "LinkAuthor");
    assert_eq!(SetParams::field_unlink_variant("author"), "UnlinkAuthor");
    assert_eq!(SetParams::field_set_variant("createdAt"), "SetCreatedAt");
    assert_eq!(SetParams::field_set_variant("author_id"), "SetAuthorId");
}

#[test]
fn set_params_quote_writes_enum_and_match() {
    let mut set = SetParams::new();
    set.add_variant("SetName(String)".to_string(), "SetParam::SetName(value) => (\"name\".to_string(), PrismaValue::String(value))".to_string());
    assert_eq!(
        set.quote(),
        "pub enum SetParam {\nSetName(String)\n}\nimpl Into<(String, PrismaValue)> for SetParam {\nfn into(self) -> (String, PrismaValue) {\nmatch self {\nSetParam::SetName(value) => (\"name\".to_string(), PrismaValue::String(value))\n}\n}\n}\n"
    );
}

#[test]
fn empty_set_params_quote() {
    assert_eq!(
        SetParams::new().quote(),
        "pub enum SetParam {\n\n}\nimpl Into<(String, PrismaValue)> for SetParam {\nfn into(self) -> (String, PrismaValue) {\nmatch self {\n\n}\n}\n}\n"
    );
}

#[test]
fn order_by_params_variant_and_arm() {
    let mut order = OrderByParams::new();
    order.add_variant("title", "Title");
    assert_eq!(
        order.quote(),
        "pub enum OrderByParam {\nTitle(Direction)\n}\nimpl Into<(String, PrismaValue)> for OrderByParam {\nfn into(self) -> (String, PrismaValue) {\nmatch self {\nSelf::Title(direction) => (\n\"title\".to_string(),\nPrismaValue::String(direction.to_string())\n)\n}\n}\n}\n"
    );
    assert_eq!(
        OrderByParams::order_by_fn("post"),
        "pub fn order_by(mut self, param: post::OrderByParam) -> Self {\nself.args = self.args.order_by(param);\nself\n}\n"
    );
}

#[test]
fn pagination_params_use_the_cursor_conversion() {
    let mut pages = PaginationParams::new();
    pages.add_variant("age", "Age", &int_type());
    let code = pages.quote();
    assert!(code.contains("Age(i32)\n"));
    assert!(code.contains("Self::Age(cursor) => (\n\"age\".to_string(),\nPrismaValue::Int(cursor as i64).into()\n)\n"));
    assert!(PaginationParams::pagination_fns("post").contains("impl Into<post::Cursor>"));
}

#[test]
fn with_params_single_and_many() {
    let mut with = WithParams::new();
    with.add_single_variant("author", "user", "Author");
    with.add_many_variant("posts", "post", "Posts");
    let code = with.quote();
    assert!(code.starts_with("pub enum WithParam {\nAuthor(super::user::UniqueArgs),\nPosts(super::post::ManyArgs)\n}\n"));
    assert!(code.contains("let mut builder = Selection::builder(\"author\");"));
    assert!(code.contains("let mut builder = Selection::builder(\"posts\");"));
    assert_eq!(
        WithParams::with_fn("user"),
        "pub fn with(mut self, params: impl Into<user::WithParam>) -> Self {\nself.args = self.args.with(params.into());\nself\n}\n"
    );
}

#[test]
fn where_params_keep_unique_and_optional_unique_variants() {
    let mut w = WhereParams::new();
    w.add_variant("A(i32)".to_string(), "arm_a".to_string());
    w.add_unique_variant("B(i32)".to_string(), "arm_b".to_string(), "from_b".to_string(), "B(i32)".to_string());
    w.add_optional_unique_variant(
        "C(Option<i32>)".to_string(),
        "arm_c".to_string(),
        "from_c".to_string(),
        "C(i32)".to_string(),
        "i32",
        "C",
        "c::Set".to_string(),
    );
    let code = w.quote();
    assert!(code.starts_with("pub enum WhereParam {\nA(i32),\nB(i32),\nC(Option<i32>)\n}\n"));
    assert!(code.contains("match self {\narm_a,\narm_b,\narm_c\n}"));
    assert!(code.contains("pub enum UniqueWhereParam {\nB(i32),\nC(i32)\n}\n"));
    assert!(code.contains("match value {\nfrom_b,\nfrom_c\n}"));
    assert!(code.contains("impl prisma_client_rust::traits::FromOptionalUniqueArg<c::Set> for WhereParam {\ntype Arg = Option<i32>;"));
    assert!(code.contains("impl prisma_client_rust::traits::FromOptionalUniqueArg<c::Set> for UniqueWhereParam {\ntype Arg = i32;"));
    assert!(code.ends_with("Operator::Or(value) => Self::Or(value),\n}\n}\n}\n"));
}

#[test]
fn data_struct_fields() {
    let mut d = DataStruct::new();
    d.add_field("pub id: String".to_string());
    d.add_field("pub age: Option<i32>".to_string());
    assert_eq!(
        d.quote(),
        "#[derive(Debug, Clone, Serialize, Deserialize)]\npub struct Data {\npub id: String,\npub age: Option<i32>\n}\n"
    );
}

#[test]
fn actions_required_args_stay_in_step() {
    let mut a = Actions::new();
    a.push_required_arg("title", "Set");
    a.push_required_arg("author", "Link");
    assert_eq!(a.create_args_text(), "title: title::Set,\nauthor: author::Link,\n");
    assert_eq!(a.create_args_tuple_types_text(), "title::Set,\nauthor::Link,\n");
    assert_eq!(a.create_args_destructured_text(), "title,\nauthor,\n");
    assert_eq!(a.create_args_params_pushes_text(), "_params.push(title.into());\n_params.push(author.into());\n");
}

#[test]
fn field_query_modules_are_named_in_snake_case() {
    let f = scalar("createdAt", string_type());
    let mut m = FieldQueryModule::new(&f);
    m.add_method("pub fn a() {}".to_string());
    m.add_struct("pub struct S;".to_string());
    assert_eq!(
        m.quote(),
        "pub mod created_at {\nuse super::super::*;\nuse super::{WhereParam, UniqueWhereParam, OrderByParam, Cursor, WithParam, SetParam};\npub fn a() {}\npub struct S;\n}\n"
    );
    let mut all = ModelQueryModules::new();
    all.add_field_module(m);
    all.add_compound_field("pub fn x() {}".to_string());
    let code = all.quote();
    assert!(code.starts_with("pub mod created_at {"));
    assert!(code.ends_with("}\n\npub fn x() {}\n"));
}

#[test]
fn generate_writes_one_module_per_model() {
    let root = sample_root();
    let codes = generate(&root);
    assert_eq!(codes.len(), 2);
    assert!(codes[0].starts_with("pub mod user {\nuse super::*;\n"));
    assert!(codes[1].starts_with("pub mod post {\nuse super::*;\n"));
    let ast = root.ast.as_ref().unwrap();
    assert_eq!(codes[1], model_code_text(ast, &ast.models[1]));
}

#[test]
fn generated_modules_are_valid_rust() {
    for code in generate(&sample_root()) {
        if let Err(e) = syn::parse_file(&code) {
            panic!("generated code does not parse: {}\n{}", e, code);
        }
    }
}

#[test]
fn generated_user_module_contents() {
    let codes = generate(&sample_root());
    let user = &codes[0];
    // operators come first in the where enum
    assert!(user.contains("pub enum WhereParam {\nNot(Vec<WhereParam>),\nAnd(Vec<WhereParam>),\nOr(Vec<WhereParam>),\n"));
    // the id is a unique filter, the optional unique email an optional unique one
    assert!(user.contains("pub fn equals<T: From<UniqueWhereParam>>(value: String) -> T {\nUniqueWhereParam::IdEquals(value).into()\n}"));
    assert!(user.contains("impl prisma_client_rust::traits::FromOptionalUniqueArg<email::Set> for WhereParam"));
    assert!(user.contains("UniqueWhereParam::EmailEquals(value) => Self::EmailEquals(Some(value))"));
    // age is an optional Int with the increment write filter
    assert!(user.contains("pub fn increment(value: i32) -> SetParam {\nSetParam::IncrementAge(value)\n}"));
    assert!(user.contains("SetParam::SetAge(value) => (\n\"age\".to_string(),\nvalue.map(|value| PrismaValue::Int(value as i64)).unwrap_or(PrismaValue::Null)\n)"));
    // posts is a list relation
    assert!(user.contains("PostsSome(Vec<super::post::WhereParam>)"));
    assert!(user.contains("LinkPosts(Vec<super::post::UniqueWhereParam>)"));
    assert!(user.contains("pub posts: RelationResult<Vec<super::post::Data>>"));
    // name is required on create
    assert!(user.contains("pub fn create(&self, name: name::Set,\nmut _params: Vec<SetParam>) -> Create {\n_params.push(name.into());\n"));
    // string read filters
    assert!(user.contains("pub fn contains(value: String) -> WhereParam {\nWhereParam::NameContains(value)\n}"));
    assert!(user.contains("pub fn in_vec(value: Vec<String>) -> WhereParam {\nWhereParam::NameInVec(value)\n}"));
}

#[test]
fn generated_post_module_contents() {
    let codes = generate(&sample_root());
    let post = &codes[1];
    // the compound index over title and published
    assert!(post.contains("pub fn title_published<T: From<UniqueWhereParam>>(title: String, published: bool) -> T {\nUniqueWhereParam::TitlePublishedEquals(title, published).into()\n}"));
    assert!(post.contains("\"title_published\".to_string(),\nSerializedWhereValue::Object(vec![(\"title\".to_string(), PrismaValue::String(title)), (\"published\".to_string(), PrismaValue::Boolean(published))])"));
    // the optional single relation can be unlinked
    assert!(post.contains("pub fn unlink() -> SetParam {\nSetParam::UnlinkAuthor\n}"));
    assert!(post.contains("with = \"prisma_client_rust::serde::optional_single_relation\""));
    assert!(post.contains("pub author: RelationResult<Option<Box<super::user::Data>>>"));
    // a list scalar is set as a Vec
    assert!(post.contains("pub fn set<T: From<Set>>(value: Vec<String>) -> T"));
    // a field the engine keeps for itself has no set function but is filtered as `_name`
    assert!(!post.contains("SetCreatedAt"));
    assert!(post.contains("\"_createdAt\".to_string()"));
    assert!(post.contains("OrderByParam::CreatedAt(direction)") == false);
    assert!(post.contains("CreatedAt(Direction)"));
    // the model name is passed to every action
    assert!(post.contains("QueryInfo::new(\"Post\", _outputs())"));
}

#[test]
fn generated_tokens_one_stream_per_model() {
    let tokens = generate_tokens(&sample_root()).expect("generated code lexes");
    assert_eq!(tokens.len(), 2);
    assert!(tokens[0].to_string().starts_with("pub mod user"));
}

#[test]
fn every_variant_has_an_arm_in_generated_enums() {
    for code in generate(&sample_root()) {
        let file = syn::parse_file(&code).expect("parses");
        let module = match &file.items[0] {
            syn::Item::Mod(m) => m,
            _ => panic!("expected a module"),
        };
        let items = &module.content.as_ref().unwrap().1;
        for item in items {
            if let syn::Item::Enum(e) = item {
                let name = e.ident.to_string();
                let arms = items
                    .iter()
                    .filter_map(|i| match i {
                        syn::Item::Impl(imp) if imp.self_ty.to_token_stream().to_string() == name && imp.trait_.is_some() => Some(imp),
                        _ => None,
                    })
                    .filter_map(|imp| imp.items.iter().find_map(|it| match it {
                        syn::ImplItem::Method(m) => m.block.stmts.iter().find_map(|s| match s {
                            syn::Stmt::Expr(syn::Expr::Match(mat)) => Some(mat.arms.len()),
                            _ => None,
                        }),
                        _ => None,
                    }))
                    .next();
                if let Some(arms) = arms {
                    assert_eq!(arms, e.variants.len(), "enum {}", name);
                }
            }
        }
    }
}

#[test]
fn unlexable_code_is_reported_with_its_model() {
    let mut ast = sample_ast();
    let mut odd = scalar("weird", string_type());
    odd.field_type.rust_type = "(".to_string();
    ast.models[1].fields.push(odd);
    match generate_tokens(&Root { ast: Some(ast) }) {
        Err(prisma_codegen::tokens::TokenError::Unlexable(i)) => assert_eq!(i, 1),
        Ok(_) => panic!("expected a lex error"),
    }
}

#[test]
fn filters_are_looked_up_by_type_name_and_listness() {
    let ast = sample_ast();
    assert!(ast.read_filter(&"String".to_string(), false).is_some());
    assert!(ast.read_filter(&"String".to_string(), true).is_none());
    assert!(ast.read_filter(&"Int".to_string(), false).is_none());
    let w = ast.write_filter(&"Int".to_string(), false).unwrap();
    assert_eq!(w.methods[0].name, "increment");
    let post = &ast.models[1];
    assert_eq!(post.field_named(&"published".to_string()).unwrap().field_type.rust_type, "bool");
    assert!(post.field_named(&"missing".to_string()).is_none());
}

#[test]
fn field_kinds_and_type_conversions() {
    assert!(FieldKind::Scalar.include_in_struct());
    assert!(FieldKind::Enum.include_in_struct());
    assert!(!FieldKind::Relation.include_in_struct());
    assert!(FieldKind::Relation.is_relation());
    assert!(!FieldKind::Enum.is_relation());
    let t = int_type();
    assert_eq!(t.tokens(), "i32");
    assert_eq!(t.to_prisma_value("x"), "PrismaValue::Int(x as i64)");
    assert_eq!(t.to_query_value("x", false), "PrismaValue::Int(x as i64)");
    assert_eq!(t.to_query_value("x", true), "PrismaValue::List(x.into_iter().map(|v| PrismaValue::Int(v as i64)).collect())");
}

#[test]
fn one_query_module_per_field_in_order() {
    let ast = sample_ast();
    for (code, model) in generate(&sample_root()).iter().zip(ast.models.iter()) {
        let file = syn::parse_file(code).expect("parses");
        let module = match &file.items[0] {
            syn::Item::Mod(m) => m,
            _ => panic!("expected a module"),
        };
        let names: Vec<String> = module
            .content
            .as_ref()
            .unwrap()
            .1
            .iter()
            .filter_map(|i| match i {
                syn::Item::Mod(m) => Some(m.ident.to_string()),
                _ => None,
            })
            .collect();
        let expected: Vec<String> = model
            .fields
            .iter()
            .map(|f| convert_case::Casing::to_case(&f.name, convert_case::Case::Snake))
            .collect();
        assert_eq!(names, expected);
    }
}

#[test]
fn create_takes_one_argument_per_required_field() {
    let codes = generate(&sample_root());
    assert!(codes[1].contains("pub fn create(&self, title: title::Set,\nmut _params: Vec<SetParam>) -> Create {"));
    assert!(codes[1].contains("_create: (title::Set,\nVec<SetParam>)"));
    assert!(codes[1].contains("let (\ntitle,\nmut _params\n) = _create;"));
}

fn enum_variants(code: &str, name: &str) -> usize {
    let file = syn::parse_file(code).expect("parses");
    let module = match &file.items[0] {
        syn::Item::Mod(m) => m,
        _ => panic!("expected a module"),
    };
    for item in &module.content.as_ref().unwrap().1 {
        if let syn::Item::Enum(e) = item {
            if e.ident == name {
                return e.variants.len();
            }
        }
    }
    panic!("no enum {}", name)
}

fn data_fields(code: &str) -> usize {
    let file = syn::parse_file(code).expect("parses");
    let module = match &file.items[0] {
        syn::Item::Mod(m) => m,
        _ => panic!("expected a module"),
    };
    for item in &module.content.as_ref().unwrap().1 {
        if let syn::Item::Struct(s) = item {
            if s.ident == "Data" {
                return s.fields.len();
            }
        }
    }
    panic!("no Data struct")
}

#[test]
fn unique_filters_and_record_fields_are_counted_per_field() {
    let codes = generate(&sample_root());
    // user: id and email identify a record; post: the compound index and id
    assert_eq!(enum_variants(&codes[0], "UniqueWhereParam"), 2);
    assert_eq!(enum_variants(&codes[1], "UniqueWhereParam"), 2);
    // every field but the one the engine keeps for itself
    assert_eq!(data_fields(&codes[0]), 5);
    assert_eq!(data_fields(&codes[1]), 6);
    // one order variant per field that is not a relation
    assert_eq!(enum_variants(&codes[0], "OrderByParam"), 4);
    assert_eq!(enum_variants(&codes[1], "Cursor"), 6);
}

fn tokens(text: &str) -> String {
    text.parse::<proc_macro2::TokenStream>().expect("lexes").to_string()
}

#[test]
fn comma_lists_have_no_comma_after_the_last_item() {
    let mut s = SetParams::new();
    s.add_variant("SetA(i32)".to_string(), "SetParam::SetA(v) => x".to_string());
    s.add_variant("SetB(u8)".to_string(), "SetParam::SetB(v) => y".to_string());
    assert_eq!(
        tokens(&s.quote()),
        tokens("pub enum SetParam { SetA(i32), SetB(u8) } impl Into<(String, PrismaValue)> for SetParam { fn into(self) -> (String, PrismaValue) { match self { SetParam::SetA(v) => x, SetParam::SetB(v) => y } } }")
    );
    let mut d = DataStruct::new();
    d.add_field("pub id: String".to_string());
    d.add_field("pub published: bool".to_string());
    assert_eq!(
        tokens(&d.quote()),
        tokens("#[derive(Debug, Clone, Serialize, Deserialize)] pub struct Data { pub id: String, pub published: bool }")
    );
    let model = Model {
        name: "Post".to_string(),
        fields: vec![scalar("id", string_type()), scalar("title", string_type())],
        indexes: vec![],
    };
    assert_eq!(
        tokens(&Outputs::new(&model).quote()),
        tokens("pub fn _outputs() -> Vec<Selection> { [\"id\", \"title\"].into_iter().map(|o| { let builder = Selection::builder(o); builder.build() }).collect() }")
    );
    let mut w = WhereParams::new();
    w.add_variant("A(i32)".to_string(), "Self::A(v) => x".to_string());
    w.add_variant("B(u8)".to_string(), "Self::B(v) => y".to_string());
    assert!(tokens(&w.quote()).starts_with(&tokens(
        "pub enum WhereParam { A(i32), B(u8) } impl Into<SerializedWhere> for WhereParam { fn into(self) -> SerializedWhere { match self { Self::A(v) => x, Self::B(v) => y } } } pub enum UniqueWhereParam {}"
    )));
}
