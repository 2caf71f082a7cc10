//! Questions, and how they are to be asked.
use crate::rr::{DNSClass, Name, RecordType};
use vstd::prelude::*;

verus! {

/// A question: which records are sought.
#[derive(Debug, PartialEq, Eq, Hash)]
pub struct Query {
    pub name: Name,
    pub query_type: RecordType,
    pub query_class: DNSClass,
}

impl Query {
    /// The question for the records of `name` that have the given type, in class IN.
    pub open spec fn spec_query(name: Name, query_type: RecordType) -> Query {
        Query { name, query_type, query_class: DNSClass::IN }
    }

    /// The question for the records of `name` that have the given type, in class IN.
    pub fn query(name: Name, query_type: RecordType) -> (query: Self)
        ensures
            query == Self::spec_query(name, query_type),
            query.name == name,
            query.query_type == query_type,
            query.query_class == DNSClass::IN,
    {
        Self { name, query_type, query_class: DNSClass::IN }
    }

    /// The name asked for.
    pub fn name(&self) -> (name: &Name)
        ensures
            *name == self.name,
    {
        &self.name
    }
}

/// A query asks for exactly the name and the type that it was made for, whatever they are, in class
/// IN. So two queries are the same only if they were made for the same name and the same type.
pub proof fn law_query_asks_for_what_it_was_given(
    name: Name,
    query_type: RecordType,
    other_name: Name,
    other_type: RecordType,
)
    ensures
        Query::spec_query(name, query_type).name == name,
        Query::spec_query(name, query_type).query_type == query_type,
        Query::spec_query(name, query_type).query_class == DNSClass::IN,
        Query::spec_query(name, query_type) == Query::spec_query(other_name, other_type) <==> name
            == other_name && query_type == other_type,
{
}

impl Clone for Query {
    fn clone(&self) -> (copy: Self)
        ensures
            copy == *self,
    {
        Self {
            name: self.name.clone(),
            query_type: self.query_type,
            query_class: self.query_class,
        }
    }
}

impl Default for Query {
    /// The question for the A records of the root.
    fn default() -> (query: Self)
        ensures
            query.name@ == "."@,
            query.query_type == RecordType::A,
            query.query_class == DNSClass::IN,
    {
        Self::query(Name::root(), RecordType::A)
    }
}

/// How a request is to be made. A lookup hands its options unread to every request that it makes.
#[derive(Clone, Copy, Debug, PartialEq, Eq, Hash, Structural)]
pub struct DnsRequestOptions {
    /// How deep a chain of requests may go.
    pub max_request_depth: usize,
    /// Whether EDNS options are added to the request.
    pub use_edns: bool,
    /// Whether the server is asked to recurse.
    pub recursion_desired: bool,
}

impl Default for DnsRequestOptions {
    fn default() -> (options: Self)
        ensures
            options == (DnsRequestOptions {
                max_request_depth: 26,
                use_edns: false,
                recursion_desired: true,
            }),
    {
        Self { max_request_depth: 26, use_edns: false, recursion_desired: true }
    }
}

} // verus!
