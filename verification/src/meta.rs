//! Descriptors of named types: what a schema knows of a scalar, an object, an
//! interface, a union, an enum or an input object, and the placeholder that
//! stands for a type while it is being described.

use vstd::prelude::*;
use crate::ast::{Type, TypeExpr};
use vstd::string::StrSliceExecFns;
use crate::text::{clone_text, contains_text, same_text, same_texts, str_eq, strs, text, texts};

verus! {

/// Whether a field or an enum value is still meant to be used.
#[derive(Clone, Debug, PartialEq, Eq)]
pub enum DeprecationStatus {
    Current,
    /// Deprecated, with the reason where one was given.
    Deprecated(Option<String>),
}

/// The value of a [`DeprecationStatus`].
pub enum DeprecationView {
    Current,
    Deprecated(Option<Seq<char>>),
}

impl View for DeprecationStatus {
    type V = DeprecationView;

    open spec fn view(&self) -> DeprecationView {
        match self {
            DeprecationStatus::Current => DeprecationView::Current,
            DeprecationStatus::Deprecated(reason) => DeprecationView::Deprecated(text(*reason)),
        }
    }
}

impl DeprecationStatus {
    /// Whether both say the same, reason included.
    pub fn same(&self, other: &DeprecationStatus) -> (r: bool)
        ensures
            r == (self@ == other@),
    {
        match (self, other) {
            (DeprecationStatus::Current, DeprecationStatus::Current) => true,
            (DeprecationStatus::Deprecated(a), DeprecationStatus::Deprecated(b)) => same_text(a, b),
            _ => false,
        }
    }
}

/// An argument of a field or of a directive, or a field of an input object.
#[derive(Debug, PartialEq, Eq)]
pub struct Argument {
    pub name: String,
    pub description: Option<String>,
    pub arg_type: Type,
    /// The default value as it is written in a document.
    pub default_value: Option<String>,
}

/// The value of an [`Argument`].
pub struct ArgumentView {
    pub name: Seq<char>,
    pub description: Option<Seq<char>>,
    pub arg_type: TypeExpr,
    pub default_value: Option<Seq<char>>,
}

impl View for Argument {
    type V = ArgumentView;

    open spec fn view(&self) -> ArgumentView {
        ArgumentView {
            name: self.name@,
            description: text(self.description),
            arg_type: self.arg_type@,
            default_value: text(self.default_value),
        }
    }
}

impl Clone for Argument {
    fn clone(&self) -> (r: Self)
        ensures
            r@ == self@,
    {
        Argument {
            name: self.name.clone(),
            description: clone_text(&self.description),
            arg_type: self.arg_type.clone(),
            default_value: clone_text(&self.default_value),
        }
    }
}

impl Argument {
    /// An argument without description or default value.
    pub fn new(name: &str, arg_type: Type) -> (r: Argument)
        ensures
            r@ == (ArgumentView {
                name: name@,
                description: None,
                arg_type: arg_type@,
                default_value: None,
            }),
    {
        Argument { name: name.to_owned(), description: None, arg_type, default_value: None }
    }

    /// The same argument with `description` as its description.
    pub fn description(self, description: &str) -> (r: Argument)
        ensures
            r@ == (ArgumentView { description: Some(description@), ..self@ }),
    {
        let mut arg = self;
        arg.description = Some(description.to_owned());
        arg
    }

    /// The same argument with `value` as its default value.
    pub fn default_value(self, value: &str) -> (r: Argument)
        ensures
            r@ == (ArgumentView { default_value: Some(value@), ..self@ }),
    {
        let mut arg = self;
        arg.default_value = Some(value.to_owned());
        arg
    }

    /// Whether both arguments have the same value.
    pub fn same(&self, other: &Argument) -> (r: bool)
        ensures
            r == (self@ == other@),
    {
        self.name == other.name && same_text(&self.description, &other.description)
            && self.arg_type.same(&other.arg_type) && same_text(
            &self.default_value,
            &other.default_value,
        )
    }
}

/// The values of a list of arguments.
pub open spec fn argument_views(v: Seq<Argument>) -> Seq<ArgumentView> {
    v.map_values(|a: Argument| a@)
}

/// The names that the types of a list of arguments refer to, in order.
pub open spec fn argument_references(args: Seq<ArgumentView>) -> Seq<Seq<char>> {
    args.map_values(|a: ArgumentView| a.arg_type.innermost_name())
}

/// Whether two lists of arguments have the same values, item by item.
pub fn same_arguments(a: &Vec<Argument>, b: &Vec<Argument>) -> (r: bool)
    ensures
        r == (argument_views(a@) == argument_views(b@)),
{
    if a.len() != b.len() {
        return false;
    }
    let mut i: usize = 0;
    while i < a.len()
        invariant
            a.len() == b.len(),
            i <= a.len(),
            forall|j: int| 0 <= j < i ==> a@[j]@ == b@[j]@,
        decreases a.len() - i,
    {
        if !a[i].same(&b[i]) {
            assert(argument_views(a@)[i as int] != argument_views(b@)[i as int]);
            return false;
        }
        i += 1;
    }
    assert(argument_views(a@) =~= argument_views(b@));
    true
}

/// A copy of a list of arguments.
pub fn clone_arguments(a: &[Argument]) -> (r: Vec<Argument>)
    ensures
        argument_views(r@) == argument_views(a@),
{
    let mut out: Vec<Argument> = Vec::new();
    let mut i: usize = 0;
    while i < a.len()
        invariant
            i <= a.len(),
            out@.len() == i,
            forall|j: int| 0 <= j < i ==> out@[j]@ == a@[j]@,
        decreases a.len() - i,
    {
        out.push(a[i].clone());
        i += 1;
    }
    out
}

/// A field of an object or of an interface.
#[derive(Clone, Debug, PartialEq, Eq)]
pub struct Field {
    pub name: String,
    pub description: Option<String>,
    pub arguments: Vec<Argument>,
    pub field_type: Type,
    pub deprecation_status: DeprecationStatus,
}

/// The value of a [`Field`].
pub struct FieldView {
    pub name: Seq<char>,
    pub description: Option<Seq<char>>,
    pub arguments: Seq<ArgumentView>,
    pub field_type: TypeExpr,
    pub deprecation_status: DeprecationView,
}

impl FieldView {
    /// Whether the field is one that every query root has: its name begins
    /// with two underscores.
    pub open spec fn is_builtin(self) -> bool {
        self.name.len() >= 2 && self.name[0] == '_' && self.name[1] == '_'
    }

    /// The names that the field refers to: those of its arguments' types, then
    /// that of its own type.
    pub open spec fn references(self) -> Seq<Seq<char>> {
        argument_references(self.arguments).push(self.field_type.innermost_name())
    }
}

impl View for Field {
    type V = FieldView;

    open spec fn view(&self) -> FieldView {
        FieldView {
            name: self.name@,
            description: text(self.description),
            arguments: argument_views(self.arguments@),
            field_type: self.field_type@,
            deprecation_status: self.deprecation_status@,
        }
    }
}

impl Field {
    /// A field without description or arguments, in current use.
    pub fn new(name: &str, field_type: Type) -> (r: Field)
        ensures
            r@ == (FieldView {
                name: name@,
                description: None,
                arguments: Seq::empty(),
                field_type: field_type@,
                deprecation_status: DeprecationView::Current,
            }),
    {
        let r = Field {
            name: name.to_owned(),
            description: None,
            arguments: Vec::new(),
            field_type,
            deprecation_status: DeprecationStatus::Current,
        };
        assert(argument_views(r.arguments@) =~= Seq::empty());
        r
    }

    /// The same field with `description` as its description.
    pub fn description(self, description: &str) -> (r: Field)
        ensures
            r@ == (FieldView { description: Some(description@), ..self@ }),
    {
        let mut field = self;
        field.description = Some(description.to_owned());
        field
    }

    /// The same field with `argument` after its other arguments.
    pub fn argument(self, argument: Argument) -> (r: Field)
        ensures
            r@ == (FieldView { arguments: self@.arguments.push(argument@), ..self@ }),
    {
        let mut field = self;
        field.arguments.push(argument);
        assert(argument_views(field.arguments@) =~= argument_views(self.arguments@).push(
            argument@,
        ));
        field
    }

    /// The same field, deprecated for `reason`.
    pub fn deprecated(self, reason: Option<&str>) -> (r: Field)
        ensures
            r@ == (FieldView {
                deprecation_status: DeprecationView::Deprecated(
                    match reason {
                        Some(s) => Some(s@),
                        None => None,
                    },
                ),
                ..self@
            }),
    {
        let mut field = self;
        field.deprecation_status = DeprecationStatus::Deprecated(
            match reason {
                Some(s) => Some(s.to_owned()),
                None => None,
            },
        );
        field
    }

    /// Whether the field is one that every query root has.
    pub fn is_builtin(&self) -> (r: bool)
        ensures
            r == self@.is_builtin(),
    {
        let name = self.name.as_str();
        name.unicode_len() >= 2 && name.get_char(0) == '_' && name.get_char(1) == '_'
    }

    /// Whether both fields have the same value.
    pub fn same(&self, other: &Field) -> (r: bool)
        ensures
            r == (self@ == other@),
    {
        self.name == other.name && same_text(&self.description, &other.description)
            && same_arguments(&self.arguments, &other.arguments) && self.field_type.same(
            &other.field_type,
        ) && self.deprecation_status.same(&other.deprecation_status)
    }

    /// The names that the field refers to, added to `out` in order.
    fn collect_references<'a>(&'a self, out: &mut Vec<&'a str>)
        ensures
            strs(final(out)@) == strs(old(out)@) + self@.references(),
    {
        let mut i: usize = 0;
        while i < self.arguments.len()
            invariant
                i <= self.arguments.len(),
                strs(out@) == strs(old(out)@) + argument_references(self@.arguments).take(i as int),
            decreases self.arguments.len() - i,
        {
            let ghost before = out@;
            let name = self.arguments[i].arg_type.innermost_name();
            out.push(name);
            assert(strs(out@) =~= strs(before).push(name@));
            i += 1;
        }
        let ghost before = out@;
        let name = self.field_type.innermost_name();
        out.push(name);
        assert(strs(out@) =~= strs(before).push(name@));
    }
}

/// The values of a list of fields.
pub open spec fn field_views(v: Seq<Field>) -> Seq<FieldView> {
    v.map_values(|f: Field| f@)
}

/// The names that a list of fields refers to: field by field, in order.
pub open spec fn field_references(fields: Seq<FieldView>) -> Seq<Seq<char>>
    decreases fields.len(),
{
    if fields.len() == 0 {
        Seq::empty()
    } else {
        field_references(fields.drop_last()) + fields.last().references()
    }
}

/// Whether two lists of fields have the same values, item by item.
pub fn same_fields(a: &Vec<Field>, b: &Vec<Field>) -> (r: bool)
    ensures
        r == (field_views(a@) == field_views(b@)),
{
    if a.len() != b.len() {
        return false;
    }
    let mut i: usize = 0;
    while i < a.len()
        invariant
            a.len() == b.len(),
            i <= a.len(),
            forall|j: int| 0 <= j < i ==> a@[j]@ == b@[j]@,
        decreases a.len() - i,
    {
        if !a[i].same(&b[i]) {
            assert(field_views(a@)[i as int] != field_views(b@)[i as int]);
            return false;
        }
        i += 1;
    }
    assert(field_views(a@) =~= field_views(b@));
    true
}

/// The names that `fields` refer to, added to `out` in order.
fn collect_field_references<'a>(fields: &'a Vec<Field>, out: &mut Vec<&'a str>)
    ensures
        strs(final(out)@) == strs(old(out)@) + field_references(field_views(fields@)),
{
    let mut i: usize = 0;
    while i < fields.len()
        invariant
            i <= fields.len(),
            strs(out@) == strs(old(out)@) + field_references(field_views(fields@).take(i as int)),
        decreases fields.len() - i,
    {
        fields[i].collect_references(out);
        assert(field_views(fields@).take(i + 1).drop_last() =~= field_views(fields@).take(
            i as int,
        ));
        i += 1;
    }
    assert(field_views(fields@).take(i as int) =~= field_views(fields@));
}

/// A value of an enum type.
#[derive(Clone, Debug, PartialEq, Eq)]
pub struct EnumValue {
    pub name: String,
    pub description: Option<String>,
    pub deprecation_status: DeprecationStatus,
}

/// The value of an [`EnumValue`].
pub struct EnumValueView {
    pub name: Seq<char>,
    pub description: Option<Seq<char>>,
    pub deprecation_status: DeprecationView,
}

impl View for EnumValue {
    type V = EnumValueView;

    open spec fn view(&self) -> EnumValueView {
        EnumValueView {
            name: self.name@,
            description: text(self.description),
            deprecation_status: self.deprecation_status@,
        }
    }
}

impl EnumValue {
    /// An enum value without description, in current use.
    pub fn new(name: &str) -> (r: EnumValue)
        ensures
            r@ == (EnumValueView {
                name: name@,
                description: None,
                deprecation_status: DeprecationView::Current,
            }),
    {
        EnumValue {
            name: name.to_owned(),
            description: None,
            deprecation_status: DeprecationStatus::Current,
        }
    }

    /// Whether both enum values have the same value.
    pub fn same(&self, other: &EnumValue) -> (r: bool)
        ensures
            r == (self@ == other@),
    {
        self.name == other.name && same_text(&self.description, &other.description)
            && self.deprecation_status.same(&other.deprecation_status)
    }
}

/// The values of a list of enum values.
pub open spec fn enum_value_views(v: Seq<EnumValue>) -> Seq<EnumValueView> {
    v.map_values(|e: EnumValue| e@)
}

/// Whether two lists of enum values have the same values, item by item.
pub fn same_enum_values(a: &Vec<EnumValue>, b: &Vec<EnumValue>) -> (r: bool)
    ensures
        r == (enum_value_views(a@) == enum_value_views(b@)),
{
    if a.len() != b.len() {
        return false;
    }
    let mut i: usize = 0;
    while i < a.len()
        invariant
            a.len() == b.len(),
            i <= a.len(),
            forall|j: int| 0 <= j < i ==> a@[j]@ == b@[j]@,
        decreases a.len() - i,
    {
        if !a[i].same(&b[i]) {
            assert(enum_value_views(a@)[i as int] != enum_value_views(b@)[i as int]);
            return false;
        }
        i += 1;
    }
    assert(enum_value_views(a@) =~= enum_value_views(b@));
    true
}

/// A scalar type.
#[derive(Clone, Debug, PartialEq, Eq)]
pub struct ScalarMeta {
    pub name: String,
    pub description: Option<String>,
    pub specified_by_url: Option<String>,
}

/// An object type: its fields and the names of the interfaces it implements.
#[derive(Clone, Debug, PartialEq, Eq)]
pub struct ObjectMeta {
    pub name: String,
    pub description: Option<String>,
    pub fields: Vec<Field>,
    pub interface_names: Vec<String>,
}

/// An enum type and its values.
#[derive(Clone, Debug, PartialEq, Eq)]
pub struct EnumMeta {
    pub name: String,
    pub description: Option<String>,
    pub values: Vec<EnumValue>,
}

/// An interface type and its fields.
#[derive(Clone, Debug, PartialEq, Eq)]
pub struct InterfaceMeta {
    pub name: String,
    pub description: Option<String>,
    pub fields: Vec<Field>,
}

/// A union type: the names of its member types.
#[derive(Clone, Debug, PartialEq, Eq)]
pub struct UnionMeta {
    pub name: String,
    pub description: Option<String>,
    pub of_type_names: Vec<String>,
}

/// An input object type and its fields.
#[derive(Clone, Debug, PartialEq, Eq)]
pub struct InputObjectMeta {
    pub name: String,
    pub description: Option<String>,
    pub input_fields: Vec<Argument>,
}

/// The stand-in for a type whose description has been asked for and has not
/// come back yet.
#[derive(Clone, Debug, PartialEq, Eq)]
pub struct PlaceholderMeta {
    /// The name of the type that it stands for.
    pub name: String,
}

/// The descriptor of a named type.
#[derive(Clone, Debug, PartialEq, Eq)]
pub enum MetaType {
    Scalar(ScalarMeta),
    Object(ObjectMeta),
    Enum(EnumMeta),
    Interface(InterfaceMeta),
    Union(UnionMeta),
    InputObject(InputObjectMeta),
    Placeholder(PlaceholderMeta),
}

/// The value of a [`ScalarMeta`].
pub struct ScalarView {
    pub name: Seq<char>,
    pub description: Option<Seq<char>>,
    pub specified_by_url: Option<Seq<char>>,
}

/// The value of an [`ObjectMeta`].
pub struct ObjectView {
    pub name: Seq<char>,
    pub description: Option<Seq<char>>,
    pub fields: Seq<FieldView>,
    pub interface_names: Seq<Seq<char>>,
}

/// The value of an [`EnumMeta`].
pub struct EnumView {
    pub name: Seq<char>,
    pub description: Option<Seq<char>>,
    pub values: Seq<EnumValueView>,
}

/// The value of an [`InterfaceMeta`].
pub struct InterfaceView {
    pub name: Seq<char>,
    pub description: Option<Seq<char>>,
    pub fields: Seq<FieldView>,
}

/// The value of a [`UnionMeta`].
pub struct UnionView {
    pub name: Seq<char>,
    pub description: Option<Seq<char>>,
    pub of_type_names: Seq<Seq<char>>,
}

/// The value of an [`InputObjectMeta`].
pub struct InputObjectView {
    pub name: Seq<char>,
    pub description: Option<Seq<char>>,
    pub input_fields: Seq<ArgumentView>,
}

/// The value of a [`MetaType`].
pub enum MetaView {
    Scalar(ScalarView),
    Object(ObjectView),
    Enum(EnumView),
    Interface(InterfaceView),
    Union(UnionView),
    InputObject(InputObjectView),
    /// A placeholder, with the name of the type that it stands for.
    Placeholder(Seq<char>),
}

impl MetaView {
    /// The name under which the descriptor is registered: its own name, or for
    /// a placeholder the name of the type that it stands for.
    pub open spec fn key(self) -> Seq<char> {
        match self {
            MetaView::Scalar(m) => m.name,
            MetaView::Object(m) => m.name,
            MetaView::Enum(m) => m.name,
            MetaView::Interface(m) => m.name,
            MetaView::Union(m) => m.name,
            MetaView::InputObject(m) => m.name,
            MetaView::Placeholder(name) => name,
        }
    }

    /// The name of the described type; a placeholder describes none.
    pub open spec fn name(self) -> Option<Seq<char>> {
        if self is Placeholder {
            None
        } else {
            Some(self.key())
        }
    }

    /// The description of the described type, where it has one.
    pub open spec fn description(self) -> Option<Seq<char>> {
        match self {
            MetaView::Scalar(m) => m.description,
            MetaView::Object(m) => m.description,
            MetaView::Enum(m) => m.description,
            MetaView::Interface(m) => m.description,
            MetaView::Union(m) => m.description,
            MetaView::InputObject(m) => m.description,
            MetaView::Placeholder(_) => None,
        }
    }

    /// Whether the described type is one that every schema has: its name
    /// begins with two underscores, or it is one of the five scalars of the
    /// language, or one of the two types that stand for an unused kind of
    /// operation. No placeholder is.
    pub open spec fn is_builtin(self) -> bool {
        let name = self.key();
        !(self is Placeholder) && ((name.len() >= 2 && name[0] == '_' && name[1] == '_') || name
            == "Boolean"@ || name == "String"@ || name == "Int"@ || name == "Float"@ || name
            == "ID"@ || name == "_EmptyMutation"@ || name == "_EmptySubscription"@)
    }

    /// Whether the descriptor is of an interface or a union.
    pub open spec fn is_abstract(self) -> bool {
        self is Interface || self is Union
    }

    /// Whether the descriptor is of an object that names `interface` among
    /// the interfaces it implements.
    pub open spec fn implements(self, interface: Seq<char>) -> bool {
        self matches MetaView::Object(o) && o.interface_names.contains(interface)
    }

    /// The names of the types that the descriptor refers to, in order: for an
    /// object its fields' and then its interfaces', for an interface its
    /// fields', for a union its members', for an input object its fields'.
    pub open spec fn references(self) -> Seq<Seq<char>> {
        match self {
            MetaView::Object(m) => field_references(m.fields) + m.interface_names,
            MetaView::Interface(m) => field_references(m.fields),
            MetaView::Union(m) => m.of_type_names,
            MetaView::InputObject(m) => argument_references(m.input_fields),
            _ => Seq::empty(),
        }
    }
}

impl View for ScalarMeta {
    type V = ScalarView;

    open spec fn view(&self) -> ScalarView {
        ScalarView {
            name: self.name@,
            description: text(self.description),
            specified_by_url: text(self.specified_by_url),
        }
    }
}

impl View for ObjectMeta {
    type V = ObjectView;

    open spec fn view(&self) -> ObjectView {
        ObjectView {
            name: self.name@,
            description: text(self.description),
            fields: field_views(self.fields@),
            interface_names: texts(self.interface_names@),
        }
    }
}

impl View for EnumMeta {
    type V = EnumView;

    open spec fn view(&self) -> EnumView {
        EnumView {
            name: self.name@,
            description: text(self.description),
            values: enum_value_views(self.values@),
        }
    }
}

impl View for InterfaceMeta {
    type V = InterfaceView;

    open spec fn view(&self) -> InterfaceView {
        InterfaceView {
            name: self.name@,
            description: text(self.description),
            fields: field_views(self.fields@),
        }
    }
}

impl View for UnionMeta {
    type V = UnionView;

    open spec fn view(&self) -> UnionView {
        UnionView {
            name: self.name@,
            description: text(self.description),
            of_type_names: texts(self.of_type_names@),
        }
    }
}

impl View for InputObjectMeta {
    type V = InputObjectView;

    open spec fn view(&self) -> InputObjectView {
        InputObjectView {
            name: self.name@,
            description: text(self.description),
            input_fields: argument_views(self.input_fields@),
        }
    }
}

impl View for MetaType {
    type V = MetaView;

    open spec fn view(&self) -> MetaView {
        match self {
            MetaType::Scalar(m) => MetaView::Scalar(m@),
            MetaType::Object(m) => MetaView::Object(m@),
            MetaType::Enum(m) => MetaView::Enum(m@),
            MetaType::Interface(m) => MetaView::Interface(m@),
            MetaType::Union(m) => MetaView::Union(m@),
            MetaType::InputObject(m) => MetaView::InputObject(m@),
            MetaType::Placeholder(m) => MetaView::Placeholder(m.name@),
        }
    }
}

impl ScalarMeta {
    /// A scalar without description.
    pub fn new(name: &str) -> (r: ScalarMeta)
        ensures
            r@ == (ScalarView { name: name@, description: None, specified_by_url: None }),
    {
        ScalarMeta { name: name.to_owned(), description: None, specified_by_url: None }
    }

    /// The descriptor of this scalar.
    pub fn into_meta(self) -> (r: MetaType)
        ensures
            r@ == MetaView::Scalar(self@),
    {
        MetaType::Scalar(self)
    }
}

impl ObjectMeta {
    /// An object with `fields` that implements no interface.
    pub fn new(name: &str, fields: Vec<Field>) -> (r: ObjectMeta)
        ensures
            r@ == (ObjectView {
                name: name@,
                description: None,
                fields: field_views(fields@),
                interface_names: Seq::empty(),
            }),
    {
        let r = ObjectMeta {
            name: name.to_owned(),
            description: None,
            fields,
            interface_names: Vec::new(),
        };
        assert(texts(r.interface_names@) =~= Seq::empty());
        r
    }

    /// The same object, implementing the interfaces called `interface_names`
    /// in place of those it implemented.
    pub fn interfaces(self, interface_names: Vec<String>) -> (r: ObjectMeta)
        ensures
            r@ == (ObjectView { interface_names: texts(interface_names@), ..self@ }),
    {
        let mut object = self;
        object.interface_names = interface_names;
        object
    }

    /// The descriptor of this object.
    pub fn into_meta(self) -> (r: MetaType)
        ensures
            r@ == MetaView::Object(self@),
    {
        MetaType::Object(self)
    }
}

impl EnumMeta {
    /// An enum with `values`.
    pub fn new(name: &str, values: Vec<EnumValue>) -> (r: EnumMeta)
        ensures
            r@ == (EnumView {
                name: name@,
                description: None,
                values: enum_value_views(values@),
            }),
    {
        EnumMeta { name: name.to_owned(), description: None, values }
    }

    /// The descriptor of this enum.
    pub fn into_meta(self) -> (r: MetaType)
        ensures
            r@ == MetaView::Enum(self@),
    {
        MetaType::Enum(self)
    }
}

impl InterfaceMeta {
    /// An interface with `fields`.
    pub fn new(name: &str, fields: Vec<Field>) -> (r: InterfaceMeta)
        ensures
            r@ == (InterfaceView {
                name: name@,
                description: None,
                fields: field_views(fields@),
            }),
    {
        InterfaceMeta { name: name.to_owned(), description: None, fields }
    }

    /// The descriptor of this interface.
    pub fn into_meta(self) -> (r: MetaType)
        ensures
            r@ == MetaView::Interface(self@),
    {
        MetaType::Interface(self)
    }
}

impl UnionMeta {
    /// A union of the types called `of_type_names`.
    pub fn new(name: &str, of_type_names: Vec<String>) -> (r: UnionMeta)
        ensures
            r@ == (UnionView {
                name: name@,
                description: None,
                of_type_names: texts(of_type_names@),
            }),
    {
        UnionMeta { name: name.to_owned(), description: None, of_type_names }
    }

    /// The descriptor of this union.
    pub fn into_meta(self) -> (r: MetaType)
        ensures
            r@ == MetaView::Union(self@),
    {
        MetaType::Union(self)
    }
}

impl InputObjectMeta {
    /// An input object with `input_fields`.
    pub fn new(name: &str, input_fields: Vec<Argument>) -> (r: InputObjectMeta)
        ensures
            r@ == (InputObjectView {
                name: name@,
                description: None,
                input_fields: argument_views(input_fields@),
            }),
    {
        InputObjectMeta { name: name.to_owned(), description: None, input_fields }
    }

    /// The descriptor of this input object.
    pub fn into_meta(self) -> (r: MetaType)
        ensures
            r@ == MetaView::InputObject(self@),
    {
        MetaType::InputObject(self)
    }
}

impl PlaceholderMeta {
    /// A placeholder for the type called `name`.
    pub fn new(name: &str) -> (r: PlaceholderMeta)
        ensures
            r.name@ == name@,
    {
        PlaceholderMeta { name: name.to_owned() }
    }

    /// The descriptor that this placeholder is.
    pub fn into_meta(self) -> (r: MetaType)
        ensures
            r@ == MetaView::Placeholder(self.name@),
    {
        MetaType::Placeholder(self)
    }
}

impl MetaType {
    /// The name under which the descriptor is registered.
    pub fn key(&self) -> (r: &str)
        ensures
            r@ == self@.key(),
    {
        match self {
            MetaType::Scalar(m) => m.name.as_str(),
            MetaType::Object(m) => m.name.as_str(),
            MetaType::Enum(m) => m.name.as_str(),
            MetaType::Interface(m) => m.name.as_str(),
            MetaType::Union(m) => m.name.as_str(),
            MetaType::InputObject(m) => m.name.as_str(),
            MetaType::Placeholder(m) => m.name.as_str(),
        }
    }

    /// The name of the described type; a placeholder describes none.
    pub fn name(&self) -> (r: Option<&str>)
        ensures
            match self@.name() {
                Some(n) => r matches Some(s) && s@ == n,
                None => r is None,
            },
    {
        match self {
            MetaType::Placeholder(_) => None,
            _ => Some(self.key()),
        }
    }

    /// The description of the described type, where it has one.
    pub fn description(&self) -> (r: Option<&str>)
        ensures
            match self@.description() {
                Some(d) => r matches Some(s) && s@ == d,
                None => r is None,
            },
    {
        let d = match self {
            MetaType::Scalar(m) => &m.description,
            MetaType::Object(m) => &m.description,
            MetaType::Enum(m) => &m.description,
            MetaType::Interface(m) => &m.description,
            MetaType::Union(m) => &m.description,
            MetaType::InputObject(m) => &m.description,
            MetaType::Placeholder(_) => {
                return None;
            },
        };
        match d {
            Some(s) => Some(s.as_str()),
            None => None,
        }
    }

    /// Whether the described type is one that every schema has.
    pub fn is_builtin(&self) -> (r: bool)
        ensures
            r == self@.is_builtin(),
    {
        match self.name() {
            Some(name) => {
                (name.unicode_len() >= 2 && name.get_char(0) == '_' && name.get_char(1) == '_')
                    || str_eq(name, "Boolean") || str_eq(name, "String") || str_eq(name, "Int")
                    || str_eq(name, "Float") || str_eq(name, "ID") || str_eq(
                    name,
                    "_EmptyMutation",
                ) || str_eq(name, "_EmptySubscription")
            },
            None => false,
        }
    }

    /// Whether the descriptor is of an interface or a union.
    pub fn is_abstract(&self) -> (r: bool)
        ensures
            r == self@.is_abstract(),
    {
        match self {
            MetaType::Interface(_) => true,
            MetaType::Union(_) => true,
            _ => false,
        }
    }

    /// Whether the descriptor is a placeholder.
    pub fn is_placeholder(&self) -> (r: bool)
        ensures
            r == (self@ is Placeholder),
    {
        match self {
            MetaType::Placeholder(_) => true,
            _ => false,
        }
    }

    /// Whether the descriptor is of an object that names `interface` among
    /// the interfaces it implements.
    pub fn implements(&self, interface: &str) -> (r: bool)
        ensures
            r == self@.implements(interface@),
    {
        match self {
            MetaType::Object(m) => contains_text(&m.interface_names, interface),
            _ => false,
        }
    }

    /// Whether both descriptors have the same value: the same kind, name,
    /// description and children.
    pub fn same(&self, other: &MetaType) -> (r: bool)
        ensures
            r == (self@ == other@),
    {
        match (self, other) {
            (MetaType::Scalar(a), MetaType::Scalar(b)) => {
                a.name == b.name && same_text(&a.description, &b.description) && same_text(
                    &a.specified_by_url,
                    &b.specified_by_url,
                )
            },
            (MetaType::Object(a), MetaType::Object(b)) => {
                a.name == b.name && same_text(&a.description, &b.description) && same_fields(
                    &a.fields,
                    &b.fields,
                ) && same_texts(&a.interface_names, &b.interface_names)
            },
            (MetaType::Enum(a), MetaType::Enum(b)) => {
                a.name == b.name && same_text(&a.description, &b.description)
                    && same_enum_values(&a.values, &b.values)
            },
            (MetaType::Interface(a), MetaType::Interface(b)) => {
                a.name == b.name && same_text(&a.description, &b.description) && same_fields(
                    &a.fields,
                    &b.fields,
                )
            },
            (MetaType::Union(a), MetaType::Union(b)) => {
                a.name == b.name && same_text(&a.description, &b.description) && same_texts(
                    &a.of_type_names,
                    &b.of_type_names,
                )
            },
            (MetaType::InputObject(a), MetaType::InputObject(b)) => {
                a.name == b.name && same_text(&a.description, &b.description) && same_arguments(
                    &a.input_fields,
                    &b.input_fields,
                )
            },
            (MetaType::Placeholder(a), MetaType::Placeholder(b)) => a.name == b.name,
            _ => false,
        }
    }

    /// The names of the types that the descriptor refers to, in order.
    pub fn references(&self) -> (r: Vec<&str>)
        ensures
            strs(r@) == self@.references(),
    {
        let mut out: Vec<&str> = Vec::new();
        match self {
            MetaType::Object(m) => {
                collect_field_references(&m.fields, &mut out);
                collect_names(&m.interface_names, &mut out);
            },
            MetaType::Interface(m) => {
                collect_field_references(&m.fields, &mut out);
            },
            MetaType::Union(m) => {
                collect_names(&m.of_type_names, &mut out);
            },
            MetaType::InputObject(m) => {
                let mut i: usize = 0;
                while i < m.input_fields.len()
                    invariant
                        i <= m.input_fields.len(),
                        strs(out@) == argument_references(m@.input_fields).take(i as int),
                    decreases m.input_fields.len() - i,
                {
                    let ghost before = out@;
                    let name = m.input_fields[i].arg_type.innermost_name();
                    out.push(name);
                    assert(strs(out@) =~= strs(before).push(name@));
                    i += 1;
                }
            },
            _ => {},
        }
        out
    }
}

/// The texts of `names`, added to `out` in order.
fn collect_names<'a>(names: &'a Vec<String>, out: &mut Vec<&'a str>)
    ensures
        strs(final(out)@) == strs(old(out)@) + texts(names@),
{
    let mut i: usize = 0;
    while i < names.len()
        invariant
            i <= names.len(),
            strs(out@) == strs(old(out)@) + texts(names@).take(i as int),
        decreases names.len() - i,
    {
        let ghost before = out@;
        let name = names[i].as_str();
        out.push(name);
        assert(strs(out@) =~= strs(before).push(name@));
        i += 1;
    }
}

} // verus!
