//! Directives: the annotations that a schema allows, and where.

use vstd::prelude::*;
use vstd::string::StringExecFns;
use crate::ast::{Type, TypeExpr};
use crate::meta::{
    argument_views, clone_arguments, Argument, ArgumentView, MetaView, ScalarMeta, ScalarView,
};
use crate::registry::Registry;
use crate::table::Keyed;
use crate::text::text;

verus! {

/// A place in a document or a schema where a directive may stand.
#[derive(Clone, Copy, PartialEq, Eq, Debug)]
pub enum DirectiveLocation {
    Query,
    Mutation,
    Subscription,
    Field,
    Scalar,
    FragmentDefinition,
    FieldDefinition,
    VariableDefinition,
    FragmentSpread,
    InlineFragment,
    EnumValue,
}

impl DirectiveLocation {
    /// The location in words.
    pub open spec fn text(self) -> Seq<char> {
        match self {
            DirectiveLocation::Query => "query"@,
            DirectiveLocation::Mutation => "mutation"@,
            DirectiveLocation::Subscription => "subscription"@,
            DirectiveLocation::Field => "field"@,
            DirectiveLocation::FieldDefinition => "field definition"@,
            DirectiveLocation::FragmentDefinition => "fragment definition"@,
            DirectiveLocation::FragmentSpread => "fragment spread"@,
            DirectiveLocation::InlineFragment => "inline fragment"@,
            DirectiveLocation::VariableDefinition => "variable definition"@,
            DirectiveLocation::Scalar => "scalar"@,
            DirectiveLocation::EnumValue => "enum value"@,
        }
    }

    /// The location in words, in lower case.
    pub fn to_string(&self) -> (r: String)
        ensures
            r@ == self.text(),
    {
        String::from_str(
            match self {
                DirectiveLocation::Query => "query",
                DirectiveLocation::Mutation => "mutation",
                DirectiveLocation::Subscription => "subscription",
                DirectiveLocation::Field => "field",
                DirectiveLocation::FieldDefinition => "field definition",
                DirectiveLocation::FragmentDefinition => "fragment definition",
                DirectiveLocation::FragmentSpread => "fragment spread",
                DirectiveLocation::InlineFragment => "inline fragment",
                DirectiveLocation::VariableDefinition => "variable definition",
                DirectiveLocation::Scalar => "scalar",
                DirectiveLocation::EnumValue => "enum value",
            },
        )
    }
}

/// A directive: its name, where it may stand, and the arguments it takes.
#[derive(Debug)]
pub struct DirectiveType {
    pub name: String,
    pub description: Option<String>,
    pub locations: Vec<DirectiveLocation>,
    pub arguments: Vec<Argument>,
    /// Whether the directive may stand more than once in one place.
    pub is_repeatable: bool,
}

/// The value of a [`DirectiveType`].
pub struct DirectiveView {
    pub name: Seq<char>,
    pub description: Option<Seq<char>>,
    pub locations: Seq<DirectiveLocation>,
    pub arguments: Seq<ArgumentView>,
    pub is_repeatable: bool,
}

impl View for DirectiveType {
    type V = DirectiveView;

    open spec fn view(&self) -> DirectiveView {
        DirectiveView {
            name: self.name@,
            description: text(self.description),
            locations: self.locations@,
            arguments: argument_views(self.arguments@),
            is_repeatable: self.is_repeatable,
        }
    }
}

impl Keyed for DirectiveType {
    open spec fn key_spec(&self) -> Seq<char> {
        self.name@
    }

    fn key_text(&self) -> (r: &str) {
        self.name.as_str()
    }
}

/// The values of a list of directives.
pub open spec fn directive_views(v: Seq<DirectiveType>) -> Seq<DirectiveView> {
    v.map_values(|d: DirectiveType| d@)
}

/// The scalar `Boolean`.
pub open spec fn boolean_scalar() -> MetaView {
    MetaView::Scalar(ScalarView { name: "Boolean"@, description: None, specified_by_url: None })
}

/// The scalar `String`.
pub open spec fn string_scalar() -> MetaView {
    MetaView::Scalar(ScalarView { name: "String"@, description: None, specified_by_url: None })
}

/// A required argument called `name` of the scalar called `scalar`.
pub open spec fn required_argument(name: Seq<char>, scalar: Seq<char>) -> ArgumentView {
    ArgumentView {
        name,
        description: None,
        arg_type: TypeExpr::NonNullNamed(scalar),
        default_value: None,
    }
}

/// A directive, not repeatable, that takes one required argument.
pub open spec fn builtin_directive(
    name: Seq<char>,
    locations: Seq<DirectiveLocation>,
    argument: ArgumentView,
) -> DirectiveView {
    DirectiveView {
        name,
        description: None,
        locations,
        arguments: seq![argument],
        is_repeatable: false,
    }
}

/// `@skip(if: Boolean!)` on fields, fragment spreads and inline fragments.
pub open spec fn skip_directive() -> DirectiveView {
    builtin_directive(
        "skip"@,
        seq![
            DirectiveLocation::Field,
            DirectiveLocation::FragmentSpread,
            DirectiveLocation::InlineFragment,
        ],
        required_argument("if"@, "Boolean"@),
    )
}

/// `@include(if: Boolean!)` on fields, fragment spreads and inline fragments.
pub open spec fn include_directive() -> DirectiveView {
    builtin_directive(
        "include"@,
        seq![
            DirectiveLocation::Field,
            DirectiveLocation::FragmentSpread,
            DirectiveLocation::InlineFragment,
        ],
        required_argument("if"@, "Boolean"@),
    )
}

/// `@deprecated(reason: String!)` on field definitions and enum values.
pub open spec fn deprecated_directive() -> DirectiveView {
    builtin_directive(
        "deprecated"@,
        seq![DirectiveLocation::FieldDefinition, DirectiveLocation::EnumValue],
        required_argument("reason"@, "String"@),
    )
}

/// `@specifiedBy(url: String!)` on scalars.
pub open spec fn specified_by_directive() -> DirectiveView {
    builtin_directive(
        "specifiedBy"@,
        seq![DirectiveLocation::Scalar],
        required_argument("url"@, "String"@),
    )
}

/// A required argument called `name` of the scalar called `scalar`, which is
/// registered on the way.
fn scalar_argument(registry: &mut Registry, name: &str, scalar: &str) -> (r: Argument)
    ensures
        r@ == required_argument(name@, scalar@),
        final(registry)@ == old(registry)@.insert(
            MetaView::Scalar(
                ScalarView { name: scalar@, description: None, specified_by_url: None },
            ),
        ),
{
    let _ = registry.insert(ScalarMeta::new(scalar).into_meta());
    Argument::new(name, Type::non_null_named(scalar))
}

impl DirectiveType {
    /// A directive without description.
    pub fn new(
        name: &str,
        locations: &[DirectiveLocation],
        arguments: &[Argument],
        is_repeatable: bool,
    ) -> (r: DirectiveType)
        ensures
            r@ == (DirectiveView {
                name: name@,
                description: None,
                locations: locations@,
                arguments: argument_views(arguments@),
                is_repeatable,
            }),
    {
        let mut places: Vec<DirectiveLocation> = Vec::new();
        let mut i: usize = 0;
        while i < locations.len()
            invariant
                i <= locations.len(),
                places@ == locations@.take(i as int),
            decreases locations.len() - i,
        {
            places.push(locations[i]);
            i += 1;
        }
        assert(locations@.take(i as int) =~= locations@);
        DirectiveType {
            name: name.to_owned(),
            description: None,
            locations: places,
            arguments: clone_arguments(arguments),
            is_repeatable,
        }
    }

    /// The directive `skip`; its argument's type, `Boolean`, is registered.
    pub fn new_skip(registry: &mut Registry) -> (r: DirectiveType)
        ensures
            r@ == skip_directive(),
            final(registry)@ == old(registry)@.insert(boolean_scalar()),
    {
        let locations = vec![
            DirectiveLocation::Field,
            DirectiveLocation::FragmentSpread,
            DirectiveLocation::InlineFragment,
        ];
        let arguments = vec![scalar_argument(registry, "if", "Boolean")];
        let r = Self::new("skip", locations.as_slice(), arguments.as_slice(), false);
        assert(r@.arguments =~= skip_directive().arguments);
        r
    }

    /// The directive `include`; its argument's type, `Boolean`, is registered.
    pub fn new_include(registry: &mut Registry) -> (r: DirectiveType)
        ensures
            r@ == include_directive(),
            final(registry)@ == old(registry)@.insert(boolean_scalar()),
    {
        let locations = vec![
            DirectiveLocation::Field,
            DirectiveLocation::FragmentSpread,
            DirectiveLocation::InlineFragment,
        ];
        let arguments = vec![scalar_argument(registry, "if", "Boolean")];
        let r = Self::new("include", locations.as_slice(), arguments.as_slice(), false);
        assert(r@.arguments =~= include_directive().arguments);
        r
    }

    /// The directive `deprecated`; its argument's type, `String`, is registered.
    pub fn new_deprecated(registry: &mut Registry) -> (r: DirectiveType)
        ensures
            r@ == deprecated_directive(),
            final(registry)@ == old(registry)@.insert(string_scalar()),
    {
        let locations = vec![DirectiveLocation::FieldDefinition, DirectiveLocation::EnumValue];
        let arguments = vec![scalar_argument(registry, "reason", "String")];
        let r = Self::new("deprecated", locations.as_slice(), arguments.as_slice(), false);
        assert(r@.arguments =~= deprecated_directive().arguments);
        r
    }

    /// The directive `specifiedBy`; its argument's type, `String`, is registered.
    pub fn new_specified_by(registry: &mut Registry) -> (r: DirectiveType)
        ensures
            r@ == specified_by_directive(),
            final(registry)@ == old(registry)@.insert(string_scalar()),
    {
        let locations = vec![DirectiveLocation::Scalar];
        let arguments = vec![scalar_argument(registry, "url", "String")];
        let r = Self::new("specifiedBy", locations.as_slice(), arguments.as_slice(), false);
        assert(r@.locations =~= specified_by_directive().locations);
        assert(r@.arguments =~= specified_by_directive().arguments);
        r
    }

    /// The same directive with `description` as its description.
    pub fn description(self, description: &str) -> (r: DirectiveType)
        ensures
            r@ == (DirectiveView { description: Some(description@), ..self@ }),
    {
        let mut directive = self;
        directive.description = Some(description.to_owned());
        directive
    }
}

} // verus!
