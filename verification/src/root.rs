//! The root of a schema: the three root types together with the schema that
//! was built from them.

use vstd::prelude::*;
use crate::error::SchemaError;
use crate::registry::GraphQLType;
use crate::schema::{built_of_roots, SchemaType};

verus! {

/// The query, mutation and subscription roots of a schema, what each needs to
/// describe itself, and the schema built from them.
pub struct RootNode<QueryT: GraphQLType, MutationT: GraphQLType, SubscriptionT: GraphQLType> {
    pub query_type: QueryT,
    pub query_info: QueryT::TypeInfo,
    pub mutation_type: MutationT,
    pub mutation_info: MutationT::TypeInfo,
    pub subscription_type: SubscriptionT,
    pub subscription_info: SubscriptionT::TypeInfo,
    pub schema: SchemaType,
}

impl<QueryT, MutationT, SubscriptionT> RootNode<QueryT, MutationT, SubscriptionT> where
    QueryT: GraphQLType<TypeInfo = ()>,
    MutationT: GraphQLType<TypeInfo = ()>,
    SubscriptionT: GraphQLType<TypeInfo = ()>,
 {
    /// The root node of `query`, `mutation` and `subscription`, which need
    /// nothing to describe themselves.
    pub fn new(query: QueryT, mutation: MutationT, subscription: SubscriptionT) -> (r: Result<
        Self,
        SchemaError,
    >)
        ensures
            built_of_roots::<QueryT, MutationT, SubscriptionT>(
                &(),
                &(),
                &(),
                match r {
                    Ok(root) => Ok(root.schema@),
                    Err(e) => Err(e@),
                },
            ),
            r matches Ok(root) ==> {
                &&& root.query_type == query
                &&& root.mutation_type == mutation
                &&& root.subscription_type == subscription
                &&& root.schema@.well_formed()
            },
    {
        Self::new_with_info(query, mutation, subscription, (), (), ())
    }

    /// The root node of `query`, `mutation` and `subscription`, as `new`
    /// makes it. Default values are kept as they are written, so there is
    /// no kind of scalar value to choose, and the two do the same.
    pub fn new_with_scalar_value(
        query: QueryT,
        mutation: MutationT,
        subscription: SubscriptionT,
    ) -> (r: Result<Self, SchemaError>)
        ensures
            built_of_roots::<QueryT, MutationT, SubscriptionT>(
                &(),
                &(),
                &(),
                match r {
                    Ok(root) => Ok(root.schema@),
                    Err(e) => Err(e@),
                },
            ),
            r matches Ok(root) ==> {
                &&& root.query_type == query
                &&& root.mutation_type == mutation
                &&& root.subscription_type == subscription
                &&& root.schema@.well_formed()
            },
    {
        Self::new_with_info(query, mutation, subscription, (), (), ())
    }
}

impl<QueryT, MutationT, SubscriptionT> RootNode<QueryT, MutationT, SubscriptionT> where
    QueryT: GraphQLType,
    MutationT: GraphQLType,
    SubscriptionT: GraphQLType,
 {
    /// The root node of the three roots, each with what it needs to describe
    /// itself. The schema is what `SchemaType::new` builds of the three; where
    /// that fails, so does this, with the same fault.
    pub fn new_with_info(
        query_obj: QueryT,
        mutation_obj: MutationT,
        subscription_obj: SubscriptionT,
        query_info: QueryT::TypeInfo,
        mutation_info: MutationT::TypeInfo,
        subscription_info: SubscriptionT::TypeInfo,
    ) -> (r: Result<Self, SchemaError>)
        ensures
            built_of_roots::<QueryT, MutationT, SubscriptionT>(
                &query_info,
                &mutation_info,
                &subscription_info,
                match r {
                    Ok(root) => Ok(root.schema@),
                    Err(e) => Err(e@),
                },
            ),
            r matches Ok(root) ==> {
                &&& root.query_type == query_obj
                &&& root.mutation_type == mutation_obj
                &&& root.subscription_type == subscription_obj
                &&& root.query_info == query_info
                &&& root.mutation_info == mutation_info
                &&& root.subscription_info == subscription_info
                &&& root.schema@.well_formed()
            },
    {
        match SchemaType::new::<QueryT, MutationT, SubscriptionT>(
            &query_info,
            &mutation_info,
            &subscription_info,
        ) {
            Ok(schema) => Ok(
                RootNode {
                    query_type: query_obj,
                    query_info,
                    mutation_type: mutation_obj,
                    mutation_info,
                    subscription_type: subscription_obj,
                    subscription_info,
                    schema,
                },
            ),
            Err(e) => Err(e),
        }
    }
}

} // verus!
