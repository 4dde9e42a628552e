use vstd::prelude::*;

verus! {

/// A `Vec` of the given type.
pub open spec fn vec_of(ty: Seq<char>) -> Seq<char> {
    "Vec<"@ + ty + ">"@
}

pub fn vec_of_text(ty: &str) -> (res: String)
    ensures
        res@ == vec_of(ty@),
{
    let mut res = String::from_str("Vec<");
    res.append(ty);
    res.append(">");
    res
}

/// An `Option` of the given type.
pub open spec fn option_of(ty: Seq<char>) -> Seq<char> {
    "Option<"@ + ty + ">"@
}

pub fn option_of_text(ty: &str) -> (res: String)
    ensures
        res@ == option_of(ty@),
{
    let mut res = String::from_str("Option<");
    res.append(ty);
    res.append(">");
    res
}

/// A variant or call with the given parenthesized contents.
pub open spec fn with_payload(name: Seq<char>, inner: Seq<char>) -> Seq<char> {
    name + "("@ + inner + ")"@
}

pub fn with_payload_text(name: &str, inner: &str) -> (res: String)
    ensures
        res@ == with_payload(name@, inner@),
{
    let mut res = String::from_str(name);
    res.append("(");
    res.append(inner);
    res.append(")");
    res
}

/// The expression converted with `.into()`.
pub open spec fn into_call(expr: Seq<char>) -> Seq<char> {
    expr + ".into()"@
}

pub fn into_call_text(expr: &str) -> (res: String)
    ensures
        res@ == into_call(expr@),
{
    let mut res = String::from_str(expr);
    res.append(".into()");
    res
}

/// A path into a module.
pub open spec fn path_in(module: Seq<char>, item: Seq<char>) -> Seq<char> {
    module + "::"@ + item
}

pub fn path_in_text(module: &str, item: &str) -> (res: String)
    ensures
        res@ == path_in(module@, item@),
{
    let mut res = String::from_str(module);
    res.append("::");
    res.append(item);
    res
}

/// The where variant of a logical operator.
pub open spec fn operator_where_variant(variant: Seq<char>) -> Seq<char> {
    variant + "(Vec<WhereParam>)"@
}

pub fn operator_where_variant_text(variant: &str) -> (res: String)
    ensures
        res@ == operator_where_variant(variant@),
{
    let mut res = String::from_str(variant);
    res.append("(Vec<WhereParam>)");
    res
}

/// The serialization of a logical operator.
pub open spec fn operator_where_arm(variant: Seq<char>, action: Seq<char>) -> Seq<char> {
    "Self::"@ + variant + "(value) => (\n"@ + action + ".to_string(),\nSerializedWhereValue::List(\nvalue\n.into_iter()\n.map(|v| PrismaValue::Object(transform_equals(vec![v])))\n.collect(),\n),\n)"@
}

pub fn operator_where_arm_text(variant: &str, action: &str) -> (res: String)
    ensures
        res@ == operator_where_arm(variant@, action@),
{
    let mut res = String::from_str("Self::");
    res.append(variant);
    res.append("(value) => (\n");
    res.append(action);
    res.append(".to_string(),\nSerializedWhereValue::List(\nvalue\n.into_iter()\n.map(|v| PrismaValue::Object(transform_equals(vec![v])))\n.collect(),\n),\n)");
    res
}

/// A function parameter.
pub open spec fn typed_arg(name: Seq<char>, ty: Seq<char>) -> Seq<char> {
    name + ": "@ + ty
}

pub fn typed_arg_text(name: &str, ty: &str) -> (res: String)
    ensures
        res@ == typed_arg(name@, ty@),
{
    let mut res = String::from_str(name);
    res.append(": ");
    res.append(ty);
    res
}

/// One column of a compound unique filter.
pub open spec fn index_pair(name: Seq<char>, value: Seq<char>) -> Seq<char> {
    "("@ + name + ".to_string(), "@ + value + ")"@
}

pub fn index_pair_text(name: &str, value: &str) -> (res: String)
    ensures
        res@ == index_pair(name@, value@),
{
    let mut res = String::from_str("(");
    res.append(name);
    res.append(".to_string(), ");
    res.append(value);
    res.append(")");
    res
}

/// The function that builds a compound unique filter.
pub open spec fn compound_accessor(accessor: Seq<char>, args: Seq<char>, variant: Seq<char>, destructured: Seq<char>) -> Seq<char> {
    "pub fn "@ + accessor + "<T: From<UniqueWhereParam>>("@ + args + ") -> T {\nUniqueWhereParam::"@ + variant + "("@ + destructured + ").into()\n}"@
}

pub fn compound_accessor_text(accessor: &str, args: &str, variant: &str, destructured: &str) -> (res: String)
    ensures
        res@ == compound_accessor(accessor@, args@, variant@, destructured@),
{
    let mut res = String::from_str("pub fn ");
    res.append(accessor);
    res.append("<T: From<UniqueWhereParam>>(");
    res.append(args);
    res.append(") -> T {\nUniqueWhereParam::");
    res.append(variant);
    res.append("(");
    res.append(destructured);
    res.append(").into()\n}");
    res
}

/// The serialization of a compound unique filter.
pub open spec fn index_where_arm(variant: Seq<char>, destructured: Seq<char>, key: Seq<char>, pairs: Seq<char>) -> Seq<char> {
    "Self::"@ + variant + "("@ + destructured + ") => (\n"@ + key + ".to_string(),\nSerializedWhereValue::Object(vec!["@ + pairs + "])\n)"@
}

pub fn index_where_arm_text(variant: &str, destructured: &str, key: &str, pairs: &str) -> (res: String)
    ensures
        res@ == index_where_arm(variant@, destructured@, key@, pairs@),
{
    let mut res = String::from_str("Self::");
    res.append(variant);
    res.append("(");
    res.append(destructured);
    res.append(") => (\n");
    res.append(key);
    res.append(".to_string(),\nSerializedWhereValue::Object(vec![");
    res.append(pairs);
    res.append("])\n)");
    res
}

/// The conversion of a compound unique filter into a filter.
pub open spec fn index_from_unique_arm(variant: Seq<char>, destructured: Seq<char>) -> Seq<char> {
    "UniqueWhereParam::"@ + variant + "("@ + destructured + ") => Self::"@ + variant + "("@ + destructured + ")"@
}

pub fn index_from_unique_arm_text(variant: &str, destructured: &str) -> (res: String)
    ensures
        res@ == index_from_unique_arm(variant@, destructured@),
{
    let mut res = String::from_str("UniqueWhereParam::");
    res.append(variant);
    res.append("(");
    res.append(destructured);
    res.append(") => Self::");
    res.append(variant);
    res.append("(");
    res.append(destructured);
    res.append(")");
    res
}

/// The where variant of a relation filter.
pub open spec fn relation_where_variant(variant: Seq<char>, relation: Seq<char>) -> Seq<char> {
    variant + "(Vec<super::"@ + relation + "::WhereParam>)"@
}

pub fn relation_where_variant_text(variant: &str, relation: &str) -> (res: String)
    ensures
        res@ == relation_where_variant(variant@, relation@),
{
    let mut res = String::from_str(variant);
    res.append("(Vec<super::");
    res.append(relation);
    res.append("::WhereParam>)");
    res
}

/// The serialization of a relation filter.
pub open spec fn relation_where_arm(variant: Seq<char>, field: Seq<char>, action: Seq<char>) -> Seq<char> {
    "Self::"@ + variant + "(value) => (\n"@ + field + ".to_string(),\nSerializedWhereValue::Object(vec![(\n"@ + action + ".to_string(),\nPrismaValue::Object(transform_equals(value)),\n)])\n)"@
}

pub fn relation_where_arm_text(variant: &str, field: &str, action: &str) -> (res: String)
    ensures
        res@ == relation_where_arm(variant@, field@, action@),
{
    let mut res = String::from_str("Self::");
    res.append(variant);
    res.append("(value) => (\n");
    res.append(field);
    res.append(".to_string(),\nSerializedWhereValue::Object(vec![(\n");
    res.append(action);
    res.append(".to_string(),\nPrismaValue::Object(transform_equals(value)),\n)])\n)");
    res
}

/// The function that builds a relation filter.
pub open spec fn relation_method_fn(method: Seq<char>, relation: Seq<char>, variant: Seq<char>) -> Seq<char> {
    "pub fn "@ + method + "(value: Vec<"@ + relation + "::WhereParam>) -> WhereParam {\nWhereParam::"@ + variant + "(value)\n}"@
}

pub fn relation_method_fn_text(method: &str, relation: &str, variant: &str) -> (res: String)
    ensures
        res@ == relation_method_fn(method@, relation@, variant@),
{
    let mut res = String::from_str("pub fn ");
    res.append(method);
    res.append("(value: Vec<");
    res.append(relation);
    res.append("::WhereParam>) -> WhereParam {\nWhereParam::");
    res.append(variant);
    res.append("(value)\n}");
    res
}

/// The fetch builder and link functions of a list relation.
pub open spec fn fetch_many_fn(relation: Seq<char>, with_fn: Seq<char>, order_by_fn: Seq<char>, pagination_fns: Seq<char>, variant: Seq<char>, unlink: Seq<char>) -> Seq<char> {
    "pub struct Fetch {\nargs: "@ + relation + "::ManyArgs\n}\nimpl Fetch {\n"@ + with_fn + order_by_fn + pagination_fns + "}\nimpl From<Fetch> for WithParam {\nfn from(fetch: Fetch) -> Self {\nWithParam::"@ + variant + "(fetch.args)\n}\n}\npub fn fetch(params: Vec<"@ + relation + "::WhereParam>) -> Fetch {\nFetch {\nargs: "@ + relation + "::ManyArgs::new(params)\n}\n}\npub fn link<T: From<Link>>(params: Vec<"@ + relation + "::UniqueWhereParam>) -> T {\nLink(params).into()\n}\npub fn unlink(params: Vec<"@ + relation + "::UniqueWhereParam>) -> SetParam {\nSetParam::"@ + unlink + "(params)\n}"@
}

pub fn fetch_many_fn_text(relation: &str, with_fn: &str, order_by_fn: &str, pagination_fns: &str, variant: &str, unlink: &str) -> (res: String)
    ensures
        res@ == fetch_many_fn(relation@, with_fn@, order_by_fn@, pagination_fns@, variant@, unlink@),
{
    let mut res = String::from_str("pub struct Fetch {\nargs: ");
    res.append(relation);
    res.append("::ManyArgs\n}\nimpl Fetch {\n");
    res.append(with_fn);
    res.append(order_by_fn);
    res.append(pagination_fns);
    res.append("}\nimpl From<Fetch> for WithParam {\nfn from(fetch: Fetch) -> Self {\nWithParam::");
    res.append(variant);
    res.append("(fetch.args)\n}\n}\npub fn fetch(params: Vec<");
    res.append(relation);
    res.append("::WhereParam>) -> Fetch {\nFetch {\nargs: ");
    res.append(relation);
    res.append("::ManyArgs::new(params)\n}\n}\npub fn link<T: From<Link>>(params: Vec<");
    res.append(relation);
    res.append("::UniqueWhereParam>) -> T {\nLink(params).into()\n}\npub fn unlink(params: Vec<");
    res.append(relation);
    res.append("::UniqueWhereParam>) -> SetParam {\nSetParam::");
    res.append(unlink);
    res.append("(params)\n}");
    res
}

/// The `Link` struct of a list relation.
pub open spec fn link_many_struct(relation: Seq<char>, link: Seq<char>) -> Seq<char> {
    "pub struct Link(Vec<"@ + relation + "::UniqueWhereParam>);\nimpl From<Link> for SetParam {\nfn from(value: Link) -> Self {\nSelf::"@ + link + "(value.0)\n}\n}"@
}

pub fn link_many_struct_text(relation: &str, link: &str) -> (res: String)
    ensures
        res@ == link_many_struct(relation@, link@),
{
    let mut res = String::from_str("pub struct Link(Vec<");
    res.append(relation);
    res.append("::UniqueWhereParam>);\nimpl From<Link> for SetParam {\nfn from(value: Link) -> Self {\nSelf::");
    res.append(link);
    res.append("(value.0)\n}\n}");
    res
}

/// The set variant that links or unlinks records of a list relation.
pub open spec fn many_link_variant(variant: Seq<char>, relation: Seq<char>) -> Seq<char> {
    variant + "(Vec<super::"@ + relation + "::UniqueWhereParam>)"@
}

pub fn many_link_variant_text(variant: &str, relation: &str) -> (res: String)
    ensures
        res@ == many_link_variant(variant@, relation@),
{
    let mut res = String::from_str(variant);
    res.append("(Vec<super::");
    res.append(relation);
    res.append("::UniqueWhereParam>)");
    res
}

/// The serialization of linking or unlinking records of a list relation.
pub open spec fn many_link_arm(variant: Seq<char>, field: Seq<char>, action: Seq<char>, relation: Seq<char>) -> Seq<char> {
    "SetParam::"@ + variant + "(where_params) => (\n"@ + field + ".to_string(),\nPrismaValue::Object(\nvec![(\n"@ + action + ".to_string(),\nPrismaValue::Object(\ntransform_equals(\nwhere_params\n.into_iter()\n.map(Into::<super::"@ + relation + "::WhereParam>::into)\n.collect()\n)\n)\n)]\n)\n)"@
}

pub fn many_link_arm_text(variant: &str, field: &str, action: &str, relation: &str) -> (res: String)
    ensures
        res@ == many_link_arm(variant@, field@, action@, relation@),
{
    let mut res = String::from_str("SetParam::");
    res.append(variant);
    res.append("(where_params) => (\n");
    res.append(field);
    res.append(".to_string(),\nPrismaValue::Object(\nvec![(\n");
    res.append(action);
    res.append(".to_string(),\nPrismaValue::Object(\ntransform_equals(\nwhere_params\n.into_iter()\n.map(Into::<super::");
    res.append(relation);
    res.append("::WhereParam>::into)\n.collect()\n)\n)\n)]\n)\n)");
    res
}

/// The serde attribute of a relation field of the record type.
pub open spec fn relation_serde_attr(field: Seq<char>, with: Seq<char>) -> Seq<char> {
    "#[serde(\nrename = "@ + field + ",\nskip_serializing_if = \"Result::is_err\",\ndefault = \"prisma_client_rust::serde::default_field_not_fetched\",\nwith = \"prisma_client_rust::serde::"@ + with + "\"\n)]\n"@
}

pub fn relation_serde_attr_text(field: &str, with: &str) -> (res: String)
    ensures
        res@ == relation_serde_attr(field@, with@),
{
    let mut res = String::from_str("#[serde(\nrename = ");
    res.append(field);
    res.append(",\nskip_serializing_if = \"Result::is_err\",\ndefault = \"prisma_client_rust::serde::default_field_not_fetched\",\nwith = \"prisma_client_rust::serde::");
    res.append(with);
    res.append("\"\n)]\n");
    res
}

/// A relation field of the record type.
pub open spec fn relation_data_field(attr: Seq<char>, name: Seq<char>, ty: Seq<char>) -> Seq<char> {
    attr + "pub "@ + name + ": RelationResult<"@ + ty + ">"@
}

pub fn relation_data_field_text(attr: &str, name: &str, ty: &str) -> (res: String)
    ensures
        res@ == relation_data_field(attr@, name@, ty@),
{
    let mut res = String::from_str(attr);
    res.append("pub ");
    res.append(name);
    res.append(": RelationResult<");
    res.append(ty);
    res.append(">");
    res
}

/// The record type of a related model.
pub open spec fn related_data(relation: Seq<char>) -> Seq<char> {
    "super::"@ + relation + "::Data"@
}

pub fn related_data_text(relation: &str) -> (res: String)
    ensures
        res@ == related_data(relation@),
{
    let mut res = String::from_str("super::");
    res.append(relation);
    res.append("::Data");
    res
}

/// A `Box` of the given type.
pub open spec fn boxed(ty: Seq<char>) -> Seq<char> {
    "Box<"@ + ty + ">"@
}

pub fn boxed_text(ty: &str) -> (res: String)
    ensures
        res@ == boxed(ty@),
{
    let mut res = String::from_str("Box<");
    res.append(ty);
    res.append(">");
    res
}

/// The fetch builder and link function of a single relation.
pub open spec fn fetch_one_fn(relation: Seq<char>, with_fn: Seq<char>, variant: Seq<char>) -> Seq<char> {
    "pub struct Fetch {\nargs: "@ + relation + "::UniqueArgs\n}\nimpl Fetch {\n"@ + with_fn + "}\nimpl From<Fetch> for WithParam {\nfn from(fetch: Fetch) -> Self {\nWithParam::"@ + variant + "(fetch.args)\n}\n}\npub fn fetch() -> Fetch {\nFetch {\nargs: "@ + relation + "::UniqueArgs::new()\n}\n}\npub fn link<T: From<Link>>(value: "@ + relation + "::UniqueWhereParam) -> T {\nLink(value).into()\n}"@
}

pub fn fetch_one_fn_text(relation: &str, with_fn: &str, variant: &str) -> (res: String)
    ensures
        res@ == fetch_one_fn(relation@, with_fn@, variant@),
{
    let mut res = String::from_str("pub struct Fetch {\nargs: ");
    res.append(relation);
    res.append("::UniqueArgs\n}\nimpl Fetch {\n");
    res.append(with_fn);
    res.append("}\nimpl From<Fetch> for WithParam {\nfn from(fetch: Fetch) -> Self {\nWithParam::");
    res.append(variant);
    res.append("(fetch.args)\n}\n}\npub fn fetch() -> Fetch {\nFetch {\nargs: ");
    res.append(relation);
    res.append("::UniqueArgs::new()\n}\n}\npub fn link<T: From<Link>>(value: ");
    res.append(relation);
    res.append("::UniqueWhereParam) -> T {\nLink(value).into()\n}");
    res
}

/// The `Link` struct of a single relation.
pub open spec fn link_one_struct(relation: Seq<char>, link: Seq<char>) -> Seq<char> {
    "pub struct Link("@ + relation + "::UniqueWhereParam);\nimpl From<Link> for SetParam {\nfn from(value: Link) -> Self {\nSelf::"@ + link + "(value.0)\n}\n}"@
}

pub fn link_one_struct_text(relation: &str, link: &str) -> (res: String)
    ensures
        res@ == link_one_struct(relation@, link@),
{
    let mut res = String::from_str("pub struct Link(");
    res.append(relation);
    res.append("::UniqueWhereParam);\nimpl From<Link> for SetParam {\nfn from(value: Link) -> Self {\nSelf::");
    res.append(link);
    res.append("(value.0)\n}\n}");
    res
}

/// The set variant that links the record of a single relation.
pub open spec fn one_link_variant(link: Seq<char>, relation: Seq<char>) -> Seq<char> {
    link + "(super::"@ + relation + "::UniqueWhereParam)"@
}

pub fn one_link_variant_text(link: &str, relation: &str) -> (res: String)
    ensures
        res@ == one_link_variant(link@, relation@),
{
    let mut res = String::from_str(link);
    res.append("(super::");
    res.append(relation);
    res.append("::UniqueWhereParam)");
    res
}

/// The serialization of linking the record of a single relation.
pub open spec fn one_link_arm(link: Seq<char>, field: Seq<char>, relation: Seq<char>) -> Seq<char> {
    "SetParam::"@ + link + "(where_param) => (\n"@ + field + ".to_string(),\nPrismaValue::Object(\nvec![(\n\"connect\".to_string(),\nPrismaValue::Object(\ntransform_equals(\nvec![Into::<super::"@ + relation + "::WhereParam>::into(where_param)]\n)\n)\n)]\n)\n)"@
}

pub fn one_link_arm_text(link: &str, field: &str, relation: &str) -> (res: String)
    ensures
        res@ == one_link_arm(link@, field@, relation@),
{
    let mut res = String::from_str("SetParam::");
    res.append(link);
    res.append("(where_param) => (\n");
    res.append(field);
    res.append(".to_string(),\nPrismaValue::Object(\nvec![(\n\"connect\".to_string(),\nPrismaValue::Object(\ntransform_equals(\nvec![Into::<super::");
    res.append(relation);
    res.append("::WhereParam>::into(where_param)]\n)\n)\n)]\n)\n)");
    res
}

/// The serialization of unlinking the record of an optional single relation.
pub open spec fn one_unlink_arm(unlink: Seq<char>, field: Seq<char>) -> Seq<char> {
    "SetParam::"@ + unlink + " => (\n"@ + field + ".to_string(),\nPrismaValue::Object(\nvec![(\n\"disconnect\".to_string(),\nPrismaValue::Boolean(true)\n)]\n)\n)"@
}

pub fn one_unlink_arm_text(unlink: &str, field: &str) -> (res: String)
    ensures
        res@ == one_unlink_arm(unlink@, field@),
{
    let mut res = String::from_str("SetParam::");
    res.append(unlink);
    res.append(" => (\n");
    res.append(field);
    res.append(".to_string(),\nPrismaValue::Object(\nvec![(\n\"disconnect\".to_string(),\nPrismaValue::Boolean(true)\n)]\n)\n)");
    res
}

/// The function that unlinks the record of an optional single relation.
pub open spec fn unlink_fn(unlink: Seq<char>) -> Seq<char> {
    "pub fn unlink() -> SetParam {\nSetParam::"@ + unlink + "\n}"@
}

pub fn unlink_fn_text(unlink: &str) -> (res: String)
    ensures
        res@ == unlink_fn(unlink@),
{
    let mut res = String::from_str("pub fn unlink() -> SetParam {\nSetParam::");
    res.append(unlink);
    res.append("\n}");
    res
}

/// A conversion that maps `None` to a null value.
pub open spec fn optional_value(conversion: Seq<char>) -> Seq<char> {
    "value.map(|value| "@ + conversion + ").unwrap_or(PrismaValue::Null)"@
}

pub fn optional_value_text(conversion: &str) -> (res: String)
    ensures
        res@ == optional_value(conversion@),
{
    let mut res = String::from_str("value.map(|value| ");
    res.append(conversion);
    res.append(").unwrap_or(PrismaValue::Null)");
    res
}

/// The function that sets a scalar field.
pub open spec fn set_fn(ty: Seq<char>) -> Seq<char> {
    "pub fn set<T: From<Set>>(value: "@ + ty + ") -> T {\nSet(value).into()\n}"@
}

pub fn set_fn_text(ty: &str) -> (res: String)
    ensures
        res@ == set_fn(ty@),
{
    let mut res = String::from_str("pub fn set<T: From<Set>>(value: ");
    res.append(ty);
    res.append(") -> T {\nSet(value).into()\n}");
    res
}

/// The `Set` struct of a scalar field.
pub open spec fn set_struct(ty: Seq<char>, variant: Seq<char>) -> Seq<char> {
    "pub struct Set("@ + ty + ");\nimpl From<Set> for SetParam {\nfn from(value: Set) -> Self {\nSelf::"@ + variant + "(value.0)\n}\n}"@
}

pub fn set_struct_text(ty: &str, variant: &str) -> (res: String)
    ensures
        res@ == set_struct(ty@, variant@),
{
    let mut res = String::from_str("pub struct Set(");
    res.append(ty);
    res.append(");\nimpl From<Set> for SetParam {\nfn from(value: Set) -> Self {\nSelf::");
    res.append(variant);
    res.append("(value.0)\n}\n}");
    res
}

/// The serialization of setting a scalar field.
pub open spec fn set_arm(variant: Seq<char>, field: Seq<char>, content: Seq<char>) -> Seq<char> {
    "SetParam::"@ + variant + "(value) => (\n"@ + field + ".to_string(),\n"@ + content + "\n)"@
}

pub fn set_arm_text(variant: &str, field: &str, content: &str) -> (res: String)
    ensures
        res@ == set_arm(variant@, field@, content@),
{
    let mut res = String::from_str("SetParam::");
    res.append(variant);
    res.append("(value) => (\n");
    res.append(field);
    res.append(".to_string(),\n");
    res.append(content);
    res.append("\n)");
    res
}

/// The serialization of an equality filter.
pub open spec fn equals_arm(variant: Seq<char>, field: Seq<char>, value: Seq<char>) -> Seq<char> {
    "Self::"@ + variant + "(value) => (\n"@ + field + ".to_string(),\nSerializedWhereValue::Object(vec![(\"equals\".to_string(), "@ + value + ")])\n)"@
}

pub fn equals_arm_text(variant: &str, field: &str, value: &str) -> (res: String)
    ensures
        res@ == equals_arm(variant@, field@, value@),
{
    let mut res = String::from_str("Self::");
    res.append(variant);
    res.append("(value) => (\n");
    res.append(field);
    res.append(".to_string(),\nSerializedWhereValue::Object(vec![(\"equals\".to_string(), ");
    res.append(value);
    res.append(")])\n)");
    res
}

/// The conversion of a unique equality filter into a filter.
pub open spec fn unique_from_arm(variant: Seq<char>) -> Seq<char> {
    "UniqueWhereParam::"@ + variant + "(value) => Self::"@ + variant + "(value)"@
}

pub fn unique_from_arm_text(variant: &str) -> (res: String)
    ensures
        res@ == unique_from_arm(variant@),
{
    let mut res = String::from_str("UniqueWhereParam::");
    res.append(variant);
    res.append("(value) => Self::");
    res.append(variant);
    res.append("(value)");
    res
}

/// The conversion of a unique filter on an optional field into a filter.
pub open spec fn optional_unique_from_arm(variant: Seq<char>) -> Seq<char> {
    "UniqueWhereParam::"@ + variant + "(value) => Self::"@ + variant + "(Some(value))"@
}

pub fn optional_unique_from_arm_text(variant: &str) -> (res: String)
    ensures
        res@ == optional_unique_from_arm(variant@),
{
    let mut res = String::from_str("UniqueWhereParam::");
    res.append(variant);
    res.append("(value) => Self::");
    res.append(variant);
    res.append("(Some(value))");
    res
}

/// The `equals` function of a unique field.
pub open spec fn unique_equals_fn(ty: Seq<char>, variant: Seq<char>) -> Seq<char> {
    "pub fn equals<T: From<UniqueWhereParam>>(value: "@ + ty + ") -> T {\nUniqueWhereParam::"@ + variant + "(value).into()\n}"@
}

pub fn unique_equals_fn_text(ty: &str, variant: &str) -> (res: String)
    ensures
        res@ == unique_equals_fn(ty@, variant@),
{
    let mut res = String::from_str("pub fn equals<T: From<UniqueWhereParam>>(value: ");
    res.append(ty);
    res.append(") -> T {\nUniqueWhereParam::");
    res.append(variant);
    res.append("(value).into()\n}");
    res
}

/// The `equals` function of an optional unique field.
pub open spec fn optional_unique_equals_fn() -> Seq<char> {
    "pub fn equals<A, T: prisma_client_rust::traits::FromOptionalUniqueArg<Set, Arg = A>>(value: A) -> T {\nT::from_arg(value)\n}"@
}

pub fn optional_unique_equals_fn_text() -> (res: String)
    ensures
        res@ == optional_unique_equals_fn(),
{
    let mut res = String::from_str("pub fn equals<A, T: prisma_client_rust::traits::FromOptionalUniqueArg<Set, Arg = A>>(value: A) -> T {\nT::from_arg(value)\n}");
    res
}

/// The `equals` function of a field that is not unique.
pub open spec fn plain_equals_fn(ty: Seq<char>, variant: Seq<char>) -> Seq<char> {
    "pub fn equals(value: "@ + ty + ") -> WhereParam {\nWhereParam::"@ + variant + "(value).into()\n}"@
}

pub fn plain_equals_fn_text(ty: &str, variant: &str) -> (res: String)
    ensures
        res@ == plain_equals_fn(ty@, variant@),
{
    let mut res = String::from_str("pub fn equals(value: ");
    res.append(ty);
    res.append(") -> WhereParam {\nWhereParam::");
    res.append(variant);
    res.append("(value).into()\n}");
    res
}

/// The `order` function of a scalar field.
pub open spec fn order_fn(variant: Seq<char>) -> Seq<char> {
    "pub fn order(direction: Direction) -> OrderByParam {\nOrderByParam::"@ + variant + "(direction)\n}"@
}

pub fn order_fn_text(variant: &str) -> (res: String)
    ensures
        res@ == order_fn(variant@),
{
    let mut res = String::from_str("pub fn order(direction: Direction) -> OrderByParam {\nOrderByParam::");
    res.append(variant);
    res.append("(direction)\n}");
    res
}

/// The `cursor` function of a unique scalar field.
pub open spec fn cursor_fn(ty: Seq<char>, variant: Seq<char>) -> Seq<char> {
    "pub fn cursor(cursor: "@ + ty + ") -> Cursor {\nCursor::"@ + variant + "(cursor)\n}"@
}

pub fn cursor_fn_text(ty: &str, variant: &str) -> (res: String)
    ensures
        res@ == cursor_fn(ty@, variant@),
{
    let mut res = String::from_str("pub fn cursor(cursor: ");
    res.append(ty);
    res.append(") -> Cursor {\nCursor::");
    res.append(variant);
    res.append("(cursor)\n}");
    res
}

/// A scalar field of the record type.
pub open spec fn scalar_data_field(field: Seq<char>, name: Seq<char>, ty: Seq<char>) -> Seq<char> {
    "#[serde(rename = "@ + field + ")]\npub "@ + name + ": "@ + ty
}

pub fn scalar_data_field_text(field: &str, name: &str, ty: &str) -> (res: String)
    ensures
        res@ == scalar_data_field(field@, name@, ty@),
{
    let mut res = String::from_str("#[serde(rename = ");
    res.append(field);
    res.append(")]\npub ");
    res.append(name);
    res.append(": ");
    res.append(ty);
    res
}

/// A write function of a scalar field (such as `increment`).
pub open spec fn write_method_fn(method: Seq<char>, ty: Seq<char>, variant: Seq<char>) -> Seq<char> {
    "pub fn "@ + method + "(value: "@ + ty + ") -> SetParam {\nSetParam::"@ + variant + "(value)\n}"@
}

pub fn write_method_fn_text(method: &str, ty: &str, variant: &str) -> (res: String)
    ensures
        res@ == write_method_fn(method@, ty@, variant@),
{
    let mut res = String::from_str("pub fn ");
    res.append(method);
    res.append("(value: ");
    res.append(ty);
    res.append(") -> SetParam {\nSetParam::");
    res.append(variant);
    res.append("(value)\n}");
    res
}

/// The serialization of a write of a scalar field.
pub open spec fn write_arm(variant: Seq<char>, field: Seq<char>, action: Seq<char>, value: Seq<char>) -> Seq<char> {
    "SetParam::"@ + variant + "(value) => (\n"@ + field + ".to_string(),\nPrismaValue::Object(\nvec![(\n"@ + action + ".to_string(),\n"@ + value + "\n)]\n)\n)"@
}

pub fn write_arm_text(variant: &str, field: &str, action: &str, value: &str) -> (res: String)
    ensures
        res@ == write_arm(variant@, field@, action@, value@),
{
    let mut res = String::from_str("SetParam::");
    res.append(variant);
    res.append("(value) => (\n");
    res.append(field);
    res.append(".to_string(),\nPrismaValue::Object(\nvec![(\n");
    res.append(action);
    res.append(".to_string(),\n");
    res.append(value);
    res.append("\n)]\n)\n)");
    res
}

/// The conversion of a list argument of a read filter.
pub open spec fn read_list_value(conversion: Seq<char>) -> Seq<char> {
    "PrismaValue::List(\nvalue\n.into_iter()\n.map(|v| "@ + conversion + ")\n.collect()\n)"@
}

pub fn read_list_value_text(conversion: &str) -> (res: String)
    ensures
        res@ == read_list_value(conversion@),
{
    let mut res = String::from_str("PrismaValue::List(\nvalue\n.into_iter()\n.map(|v| ");
    res.append(conversion);
    res.append(")\n.collect()\n)");
    res
}

/// The serialization of a read filter.
pub open spec fn read_arm(variant: Seq<char>, field: Seq<char>, action: Seq<char>, value: Seq<char>) -> Seq<char> {
    "Self::"@ + variant + "(value) => (\n"@ + field + ".to_string(),\nSerializedWhereValue::Object(vec![("@ + action + ".to_string(), "@ + value + ")])\n)"@
}

pub fn read_arm_text(variant: &str, field: &str, action: &str, value: &str) -> (res: String)
    ensures
        res@ == read_arm(variant@, field@, action@, value@),
{
    let mut res = String::from_str("Self::");
    res.append(variant);
    res.append("(value) => (\n");
    res.append(field);
    res.append(".to_string(),\nSerializedWhereValue::Object(vec![(");
    res.append(action);
    res.append(".to_string(), ");
    res.append(value);
    res.append(")])\n)");
    res
}

/// A read filter function of a field (such as `contains`).
pub open spec fn read_method_fn(method: Seq<char>, ty: Seq<char>, variant: Seq<char>) -> Seq<char> {
    "pub fn "@ + method + "(value: "@ + ty + ") -> WhereParam {\nWhereParam::"@ + variant + "(value)\n}"@
}

pub fn read_method_fn_text(method: &str, ty: &str, variant: &str) -> (res: String)
    ensures
        res@ == read_method_fn(method@, ty@, variant@),
{
    let mut res = String::from_str("pub fn ");
    res.append(method);
    res.append("(value: ");
    res.append(ty);
    res.append(") -> WhereParam {\nWhereParam::");
    res.append(variant);
    res.append("(value)\n}");
    res
}

/// The module of a model: its query modules, outputs, record type, parameter enums and actions.
pub open spec fn model_module(module: Seq<char>, query_modules: Seq<char>, outputs: Seq<char>, data: Seq<char>, with: Seq<char>, set: Seq<char>, order_by: Seq<char>, pagination: Seq<char>, where_params: Seq<char>, model: Seq<char>, create_args: Seq<char>, pushes: Seq<char>, tuple_types: Seq<char>, destructured: Seq<char>) -> Seq<char> {
    "pub mod "@ + module + " {\nuse super::*;\n"@ + query_modules + outputs + data + with + set + order_by + pagination + where_params + "pub type UniqueArgs = prisma_client_rust::UniqueArgs<WithParam>;\npub type ManyArgs = prisma_client_rust::ManyArgs<WhereParam, WithParam, OrderByParam, Cursor>;\npub type Create<'a> = prisma_client_rust::Create<'a, SetParam, WithParam, Data>;\npub type FindUnique<'a> = prisma_client_rust::FindUnique<'a, WhereParam, WithParam, SetParam, Data>;\npub type FindMany<'a> = prisma_client_rust::FindMany<'a, WhereParam, WithParam, OrderByParam, Cursor, SetParam, Data>;\npub type FindFirst<'a> = prisma_client_rust::FindFirst<'a, WhereParam, WithParam, OrderByParam, Cursor, Data>;\npub type Update<'a> = prisma_client_rust::Update<'a, WhereParam, SetParam, WithParam, Data>;\npub type UpdateMany<'a> = prisma_client_rust::UpdateMany<'a, WhereParam, SetParam>;\npub type Upsert<'a> = prisma_client_rust::Upsert<'a, WhereParam, SetParam, WithParam, Data>;\npub type Delete<'a> = prisma_client_rust::Delete<'a, WhereParam, WithParam, Data>;\npub type DeleteMany<'a> = prisma_client_rust::DeleteMany<'a, WhereParam>;\npub struct Actions<'a> {\npub client: &'a PrismaClient,\n}\nimpl<'a> Actions<'a> {\npub fn create(&self, "@ + create_args + "mut _params: Vec<SetParam>) -> Create {\n"@ + pushes + "Create::new(\nQueryContext::new(&self.client.executor, self.client.query_schema.clone()),\nQueryInfo::new("@ + model + ", _outputs()),\n_params\n)\n}\npub fn find_unique(&self, param: UniqueWhereParam) -> FindUnique {\nFindUnique::new(\nQueryContext::new(&self.client.executor, self.client.query_schema.clone()),\nQueryInfo::new("@ + model + ", _outputs()),\nparam.into()\n)\n}\npub fn find_first(&self, params: Vec<WhereParam>) -> FindFirst {\nFindFirst::new(\nQueryContext::new(&self.client.executor, self.client.query_schema.clone()),\nQueryInfo::new("@ + model + ", _outputs()),\nparams\n)\n}\npub fn find_many(&self, params: Vec<WhereParam>) -> FindMany {\nFindMany::new(\nQueryContext::new(&self.client.executor, self.client.query_schema.clone()),\nQueryInfo::new("@ + model + ", _outputs()),\nparams\n)\n}\npub fn upsert(&self, _where: UniqueWhereParam, _create: ("@ + tuple_types + "Vec<SetParam>), _update: Vec<SetParam>) -> Upsert {\nlet (\n"@ + destructured + "mut _params\n) = _create;\n"@ + pushes + "Upsert::new(\nQueryContext::new(&self.client.executor, self.client.query_schema.clone()),\nQueryInfo::new("@ + model + ", _outputs()),\n_where.into(),\n_params,\n_update\n)\n}\n}\n}\n"@
}

pub fn model_module_text(module: &str, query_modules: &str, outputs: &str, data: &str, with: &str, set: &str, order_by: &str, pagination: &str, where_params: &str, model: &str, create_args: &str, pushes: &str, tuple_types: &str, destructured: &str) -> (res: String)
    ensures
        res@ == model_module(module@, query_modules@, outputs@, data@, with@, set@, order_by@, pagination@, where_params@, model@, create_args@, pushes@, tuple_types@, destructured@),
{
    let mut res = String::from_str("pub mod ");
    res.append(module);
    res.append(" {\nuse super::*;\n");
    res.append(query_modules);
    res.append(outputs);
    res.append(data);
    res.append(with);
    res.append(set);
    res.append(order_by);
    res.append(pagination);
    res.append(where_params);
    res.append("pub type UniqueArgs = prisma_client_rust::UniqueArgs<WithParam>;\npub type ManyArgs = prisma_client_rust::ManyArgs<WhereParam, WithParam, OrderByParam, Cursor>;\npub type Create<'a> = prisma_client_rust::Create<'a, SetParam, WithParam, Data>;\npub type FindUnique<'a> = prisma_client_rust::FindUnique<'a, WhereParam, WithParam, SetParam, Data>;\npub type FindMany<'a> = prisma_client_rust::FindMany<'a, WhereParam, WithParam, OrderByParam, Cursor, SetParam, Data>;\npub type FindFirst<'a> = prisma_client_rust::FindFirst<'a, WhereParam, WithParam, OrderByParam, Cursor, Data>;\npub type Update<'a> = prisma_client_rust::Update<'a, WhereParam, SetParam, WithParam, Data>;\npub type UpdateMany<'a> = prisma_client_rust::UpdateMany<'a, WhereParam, SetParam>;\npub type Upsert<'a> = prisma_client_rust::Upsert<'a, WhereParam, SetParam, WithParam, Data>;\npub type Delete<'a> = prisma_client_rust::Delete<'a, WhereParam, WithParam, Data>;\npub type DeleteMany<'a> = prisma_client_rust::DeleteMany<'a, WhereParam>;\npub struct Actions<'a> {\npub client: &'a PrismaClient,\n}\nimpl<'a> Actions<'a> {\npub fn create(&self, ");
    res.append(create_args);
    res.append("mut _params: Vec<SetParam>) -> Create {\n");
    res.append(pushes);
    res.append("Create::new(\nQueryContext::new(&self.client.executor, self.client.query_schema.clone()),\nQueryInfo::new(");
    res.append(model);
    res.append(", _outputs()),\n_params\n)\n}\npub fn find_unique(&self, param: UniqueWhereParam) -> FindUnique {\nFindUnique::new(\nQueryContext::new(&self.client.executor, self.client.query_schema.clone()),\nQueryInfo::new(");
    res.append(model);
    res.append(", _outputs()),\nparam.into()\n)\n}\npub fn find_first(&self, params: Vec<WhereParam>) -> FindFirst {\nFindFirst::new(\nQueryContext::new(&self.client.executor, self.client.query_schema.clone()),\nQueryInfo::new(");
    res.append(model);
    res.append(", _outputs()),\nparams\n)\n}\npub fn find_many(&self, params: Vec<WhereParam>) -> FindMany {\nFindMany::new(\nQueryContext::new(&self.client.executor, self.client.query_schema.clone()),\nQueryInfo::new(");
    res.append(model);
    res.append(", _outputs()),\nparams\n)\n}\npub fn upsert(&self, _where: UniqueWhereParam, _create: (");
    res.append(tuple_types);
    res.append("Vec<SetParam>), _update: Vec<SetParam>) -> Upsert {\nlet (\n");
    res.append(destructured);
    res.append("mut _params\n) = _create;\n");
    res.append(pushes);
    res.append("Upsert::new(\nQueryContext::new(&self.client.executor, self.client.query_schema.clone()),\nQueryInfo::new(");
    res.append(model);
    res.append(", _outputs()),\n_where.into(),\n_params,\n_update\n)\n}\n}\n}\n");
    res
}

} // verus!
