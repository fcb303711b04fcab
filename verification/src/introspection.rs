//! The types by which a schema describes itself to queries: `__Schema`,
//! `__Type` and what they refer to.

use vstd::prelude::*;
use crate::ast::{Type, TypeExpr};
use crate::meta::{
    field_views, Argument, ArgumentView, DeprecationView, EnumMeta, EnumValue, EnumValueView,
    EnumView, Field, FieldView, MetaType, MetaView, ObjectMeta, ObjectView,
};
use crate::registry::{Registry, RegistryView};
use crate::text::strs;

verus! {

/// The type `[name!]`.
pub open spec fn items(name: Seq<char>) -> TypeExpr {
    TypeExpr::List(Box::new(TypeExpr::NonNullNamed(name)), None)
}

/// The type `[name!]!`.
pub open spec fn required_items(name: Seq<char>) -> TypeExpr {
    TypeExpr::NonNullList(Box::new(TypeExpr::NonNullNamed(name)), None)
}

/// A field without description or arguments, in current use.
pub open spec fn plain_field(name: Seq<char>, field_type: TypeExpr) -> FieldView {
    FieldView {
        name,
        description: None,
        arguments: Seq::empty(),
        field_type,
        deprecation_status: DeprecationView::Current,
    }
}

/// A field with the one argument `includeDeprecated: Boolean = false`.
pub open spec fn filtered_field(name: Seq<char>, field_type: TypeExpr) -> FieldView {
    FieldView {
        name,
        description: None,
        arguments: seq![
            ArgumentView {
                name: "includeDeprecated"@,
                description: None,
                arg_type: TypeExpr::Named("Boolean"@),
                default_value: Some("false"@),
            },
        ],
        field_type,
        deprecation_status: DeprecationView::Current,
    }
}

/// An object without description that implements no interface.
pub open spec fn plain_object(name: Seq<char>, fields: Seq<FieldView>) -> MetaView {
    MetaView::Object(
        ObjectView { name, description: None, fields, interface_names: Seq::empty() },
    )
}

/// An enum without description whose values are called `names`.
pub open spec fn plain_enum(name: Seq<char>, names: Seq<Seq<char>>) -> MetaView {
    MetaView::Enum(
        EnumView {
            name,
            description: None,
            values: names.map_values(
                |n: Seq<char>|
                    EnumValueView {
                        name: n,
                        description: None,
                        deprecation_status: DeprecationView::Current,
                    },
            ),
        },
    )
}

/// `__Schema`: the schema itself.
pub open spec fn schema_meta() -> MetaView {
    plain_object(
        "__Schema"@,
        seq![
            plain_field("description"@, TypeExpr::Named("String"@)),
            plain_field("types"@, required_items("__Type"@)),
            plain_field("queryType"@, TypeExpr::NonNullNamed("__Type"@)),
            plain_field("mutationType"@, TypeExpr::Named("__Type"@)),
            plain_field("subscriptionType"@, TypeExpr::Named("__Type"@)),
            plain_field("directives"@, required_items("__Directive"@)),
        ],
    )
}

/// `__Type`: a type of the schema.
pub open spec fn type_meta() -> MetaView {
    plain_object(
        "__Type"@,
        seq![
            plain_field("name"@, TypeExpr::Named("String"@)),
            plain_field("description"@, TypeExpr::Named("String"@)),
            plain_field("specifiedByUrl"@, TypeExpr::Named("String"@)),
            plain_field("kind"@, TypeExpr::NonNullNamed("__TypeKind"@)),
            filtered_field("fields"@, items("__Field"@)),
            plain_field("ofType"@, TypeExpr::Named("__Type"@)),
            plain_field("inputFields"@, items("__InputValue"@)),
            plain_field("interfaces"@, items("__Type"@)),
            plain_field("possibleTypes"@, items("__Type"@)),
            filtered_field("enumValues"@, items("__EnumValue"@)),
        ],
    )
}

/// `__TypeKind`: the kinds of types.
pub open spec fn type_kind_meta() -> MetaView {
    plain_enum(
        "__TypeKind"@,
        seq![
            "SCALAR"@,
            "OBJECT"@,
            "INTERFACE"@,
            "UNION"@,
            "ENUM"@,
            "INPUT_OBJECT"@,
            "LIST"@,
            "NON_NULL"@,
        ],
    )
}

/// `__Field`: a field of an object or an interface.
pub open spec fn field_meta() -> MetaView {
    plain_object(
        "__Field"@,
        seq![
            plain_field("name"@, TypeExpr::NonNullNamed("String"@)),
            plain_field("description"@, TypeExpr::Named("String"@)),
            plain_field("args"@, required_items("__InputValue"@)),
            plain_field("type"@, TypeExpr::NonNullNamed("__Type"@)),
            plain_field("isDeprecated"@, TypeExpr::NonNullNamed("Boolean"@)),
            plain_field("deprecationReason"@, TypeExpr::Named("String"@)),
        ],
    )
}

/// `__InputValue`: an argument, or a field of an input object.
pub open spec fn input_value_meta() -> MetaView {
    plain_object(
        "__InputValue"@,
        seq![
            plain_field("name"@, TypeExpr::NonNullNamed("String"@)),
            plain_field("description"@, TypeExpr::Named("String"@)),
            plain_field("type"@, TypeExpr::NonNullNamed("__Type"@)),
            plain_field("defaultValue"@, TypeExpr::Named("String"@)),
        ],
    )
}

/// `__EnumValue`: a value of an enum.
pub open spec fn enum_value_meta() -> MetaView {
    plain_object(
        "__EnumValue"@,
        seq![
            plain_field("name"@, TypeExpr::NonNullNamed("String"@)),
            plain_field("description"@, TypeExpr::Named("String"@)),
            plain_field("isDeprecated"@, TypeExpr::NonNullNamed("Boolean"@)),
            plain_field("deprecationReason"@, TypeExpr::Named("String"@)),
        ],
    )
}

/// `__Directive`: a directive of the schema.
pub open spec fn directive_meta() -> MetaView {
    plain_object(
        "__Directive"@,
        seq![
            plain_field("name"@, TypeExpr::NonNullNamed("String"@)),
            plain_field("description"@, TypeExpr::Named("String"@)),
            plain_field("locations"@, required_items("__DirectiveLocation"@)),
            plain_field("isRepeatable"@, TypeExpr::NonNullNamed("Boolean"@)),
            plain_field("args"@, required_items("__InputValue"@)),
        ],
    )
}

/// `__DirectiveLocation`: the places where a directive may stand.
pub open spec fn directive_location_meta() -> MetaView {
    plain_enum(
        "__DirectiveLocation"@,
        seq![
            "QUERY"@,
            "MUTATION"@,
            "SUBSCRIPTION"@,
            "FIELD"@,
            "SCALAR"@,
            "FRAGMENT_DEFINITION"@,
            "FIELD_DEFINITION"@,
            "VARIABLE_DEFINITION"@,
            "FRAGMENT_SPREAD"@,
            "INLINE_FRAGMENT"@,
            "ENUM_VALUE"@,
        ],
    )
}

/// A registry after the types of this file were registered, `__Schema` first.
pub open spec fn with_introspection(r: RegistryView) -> RegistryView {
    r.insert(schema_meta()).insert(type_meta()).insert(type_kind_meta()).insert(
        field_meta(),
    ).insert(input_value_meta()).insert(enum_value_meta()).insert(directive_meta()).insert(
        directive_location_meta(),
    )
}

/// The field `__schema: __Schema!` that every query root gets.
pub open spec fn schema_field() -> FieldView {
    plain_field("__schema"@, TypeExpr::NonNullNamed("__Schema"@))
}

/// The field `__type(name: String!): __Type!` that every query root gets.
pub open spec fn type_field() -> FieldView {
    FieldView {
        name: "__type"@,
        description: None,
        arguments: seq![
            ArgumentView {
                name: "name"@,
                description: None,
                arg_type: TypeExpr::NonNullNamed("String"@),
                default_value: None,
            },
        ],
        field_type: TypeExpr::NonNullNamed("__Type"@),
        deprecation_status: DeprecationView::Current,
    }
}

fn plain(name: &str, field_type: Type) -> (r: Field)
    ensures
        r@ == plain_field(name@, field_type@),
{
    Field::new(name, field_type)
}

fn filtered(name: &str, field_type: Type) -> (r: Field)
    ensures
        r@ == filtered_field(name@, field_type@),
{
    let r = Field::new(name, field_type).argument(
        Argument::new("includeDeprecated", Type::named("Boolean")).default_value("false"),
    );
    r
}

fn optional(name: &str) -> (r: Type)
    ensures
        r@ == TypeExpr::Named(name@),
{
    Type::named(name)
}

fn required(name: &str) -> (r: Type)
    ensures
        r@ == TypeExpr::NonNullNamed(name@),
{
    Type::non_null_named(name)
}

fn list_of(name: &str) -> (r: Type)
    ensures
        r@ == items(name@),
{
    Type::list(Type::non_null_named(name))
}

fn required_list_of(name: &str) -> (r: Type)
    ensures
        r@ == required_items(name@),
{
    Type::non_null_list(Type::non_null_named(name))
}

fn object(name: &str, fields: Vec<Field>) -> (r: MetaType)
    ensures
        r@ == plain_object(name@, field_views(fields@)),
{
    ObjectMeta::new(name, fields).into_meta()
}

fn enumeration(name: &str, names: Vec<&str>) -> (r: MetaType)
    ensures
        r@ == plain_enum(name@, strs(names@)),
{
    let mut values: Vec<EnumValue> = Vec::new();
    let mut i: usize = 0;
    while i < names.len()
        invariant
            i <= names.len(),
            values@.len() == i,
            forall|j: int|
                0 <= j < i ==> (#[trigger] values@[j])@ == (EnumValueView {
                    name: names@[j]@,
                    description: None,
                    deprecation_status: DeprecationView::Current,
                }),
        decreases names.len() - i,
    {
        values.push(EnumValue::new(names[i]));
        i += 1;
    }
    let r = EnumMeta::new(name, values).into_meta();
    assert(r@->Enum_0.values =~= plain_enum(name@, strs(names@))->Enum_0.values);
    r
}

fn build_schema_meta() -> (r: MetaType)
    ensures
        r@ == schema_meta(),
{
    let mut fields: Vec<Field> = Vec::new();
    fields.push(plain("description", optional("String")));
    fields.push(plain("types", required_list_of("__Type")));
    fields.push(plain("queryType", required("__Type")));
    fields.push(plain("mutationType", optional("__Type")));
    fields.push(plain("subscriptionType", optional("__Type")));
    fields.push(plain("directives", required_list_of("__Directive")));
    assert(field_views(fields@) =~= schema_meta()->Object_0.fields);
    object("__Schema", fields)
}

fn build_type_meta() -> (r: MetaType)
    ensures
        r@ == type_meta(),
{
    let mut fields: Vec<Field> = Vec::new();
    fields.push(plain("name", optional("String")));
    fields.push(plain("description", optional("String")));
    fields.push(plain("specifiedByUrl", optional("String")));
    fields.push(plain("kind", required("__TypeKind")));
    fields.push(filtered("fields", list_of("__Field")));
    fields.push(plain("ofType", optional("__Type")));
    fields.push(plain("inputFields", list_of("__InputValue")));
    fields.push(plain("interfaces", list_of("__Type")));
    fields.push(plain("possibleTypes", list_of("__Type")));
    fields.push(filtered("enumValues", list_of("__EnumValue")));
    assert(field_views(fields@) =~= type_meta()->Object_0.fields);
    object("__Type", fields)
}

fn build_type_kind_meta() -> (r: MetaType)
    ensures
        r@ == type_kind_meta(),
{
    let names = vec![
        "SCALAR",
        "OBJECT",
        "INTERFACE",
        "UNION",
        "ENUM",
        "INPUT_OBJECT",
        "LIST",
        "NON_NULL",
    ];
    assert(strs(names@) =~= seq![
        "SCALAR"@,
        "OBJECT"@,
        "INTERFACE"@,
        "UNION"@,
        "ENUM"@,
        "INPUT_OBJECT"@,
        "LIST"@,
        "NON_NULL"@,
    ]);
    enumeration("__TypeKind", names)
}

fn build_field_meta() -> (r: MetaType)
    ensures
        r@ == field_meta(),
{
    let mut fields: Vec<Field> = Vec::new();
    fields.push(plain("name", required("String")));
    fields.push(plain("description", optional("String")));
    fields.push(plain("args", required_list_of("__InputValue")));
    fields.push(plain("type", required("__Type")));
    fields.push(plain("isDeprecated", required("Boolean")));
    fields.push(plain("deprecationReason", optional("String")));
    assert(field_views(fields@) =~= field_meta()->Object_0.fields);
    object("__Field", fields)
}

fn build_input_value_meta() -> (r: MetaType)
    ensures
        r@ == input_value_meta(),
{
    let mut fields: Vec<Field> = Vec::new();
    fields.push(plain("name", required("String")));
    fields.push(plain("description", optional("String")));
    fields.push(plain("type", required("__Type")));
    fields.push(plain("defaultValue", optional("String")));
    assert(field_views(fields@) =~= input_value_meta()->Object_0.fields);
    object("__InputValue", fields)
}

fn build_enum_value_meta() -> (r: MetaType)
    ensures
        r@ == enum_value_meta(),
{
    let mut fields: Vec<Field> = Vec::new();
    fields.push(plain("name", required("String")));
    fields.push(plain("description", optional("String")));
    fields.push(plain("isDeprecated", required("Boolean")));
    fields.push(plain("deprecationReason", optional("String")));
    assert(field_views(fields@) =~= enum_value_meta()->Object_0.fields);
    object("__EnumValue", fields)
}

fn build_directive_meta() -> (r: MetaType)
    ensures
        r@ == directive_meta(),
{
    let mut fields: Vec<Field> = Vec::new();
    fields.push(plain("name", required("String")));
    fields.push(plain("description", optional("String")));
    fields.push(plain("locations", required_list_of("__DirectiveLocation")));
    fields.push(plain("isRepeatable", required("Boolean")));
    fields.push(plain("args", required_list_of("__InputValue")));
    assert(field_views(fields@) =~= directive_meta()->Object_0.fields);
    object("__Directive", fields)
}

fn build_directive_location_meta() -> (r: MetaType)
    ensures
        r@ == directive_location_meta(),
{
    let names = vec![
        "QUERY",
        "MUTATION",
        "SUBSCRIPTION",
        "FIELD",
        "SCALAR",
        "FRAGMENT_DEFINITION",
        "FIELD_DEFINITION",
        "VARIABLE_DEFINITION",
        "FRAGMENT_SPREAD",
        "INLINE_FRAGMENT",
        "ENUM_VALUE",
    ];
    assert(strs(names@) =~= seq![
        "QUERY"@,
        "MUTATION"@,
        "SUBSCRIPTION"@,
        "FIELD"@,
        "SCALAR"@,
        "FRAGMENT_DEFINITION"@,
        "FIELD_DEFINITION"@,
        "VARIABLE_DEFINITION"@,
        "FRAGMENT_SPREAD"@,
        "INLINE_FRAGMENT"@,
        "ENUM_VALUE"@,
    ]);
    enumeration("__DirectiveLocation", names)
}

/// Registers the types by which a schema describes itself.
pub fn register_introspection(registry: &mut Registry)
    ensures
        final(registry)@ == with_introspection(old(registry)@),
{
    let _ = registry.insert(build_schema_meta());
    let _ = registry.insert(build_type_meta());
    let _ = registry.insert(build_type_kind_meta());
    let _ = registry.insert(build_field_meta());
    let _ = registry.insert(build_input_value_meta());
    let _ = registry.insert(build_enum_value_meta());
    let _ = registry.insert(build_directive_meta());
    let _ = registry.insert(build_directive_location_meta());
}

/// The two fields that every query root gets: `__schema` and `__type`.
pub fn introspection_fields() -> (r: Vec<Field>)
    ensures
        field_views(r@) == seq![schema_field(), type_field()],
{
    let mut fields: Vec<Field> = Vec::new();
    fields.push(plain("__schema", required("__Schema")));
    let by_name = Field::new("__type", required("__Type")).argument(
        Argument::new("name", required("String")),
    );
    fields.push(by_name);
    fields
}

} // verus!
