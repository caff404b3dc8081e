//! RDAP search results.

use vstd::prelude::*;

use crate::response::{Common, Domain, Entity, Nameserver, RdapResponse};

verus! {

/// Represents RDAP domain search results.
#[derive(Debug)]
pub struct DomainSearchResults {
    pub common: Common,
    pub results: Vec<Domain>,
}

impl DomainSearchResults {
    /// Builds a domain search result: the found domains, with the base
    /// conformance identifier and the given extensions declared.
    pub fn new(results: Vec<Domain>, extensions: Vec<String>) -> (r: Self)
        ensures
            r.results == results,
            r.common.rdap_conformance matches Some(c) && c.deep_view() == seq!["rdap_level_0"@]
                + extensions.deep_view(),
            r.common.notices is None,
    {
        Self { common: Common::level0_with_extensions(extensions), results }
    }

    /// Get the domains in the search.
    pub fn results(&self) -> (r: &[Domain])
        ensures
            r@ == self.results@,
    {
        self.results.as_slice()
    }

    /// Get the common fields of the response.
    pub fn common(&self) -> (r: &Common)
        ensures
            r == &self.common,
    {
        &self.common
    }

    /// Wrap the search results as a response.
    pub fn to_response(self) -> (r: RdapResponse)
        ensures
            (r matches RdapResponse::DomainSearchResults(b) && *b == self),
    {
        RdapResponse::DomainSearchResults(Box::new(self))
    }
}

/// Represents RDAP nameserver search results.
#[derive(Debug)]
pub struct NameserverSearchResults {
    pub common: Common,
    pub results: Vec<Nameserver>,
}

impl NameserverSearchResults {
    /// Builds a nameserver search result: the found nameservers, with
    /// the base conformance identifier and the given extensions
    /// declared.
    pub fn new(results: Vec<Nameserver>, extensions: Vec<String>) -> (r: Self)
        ensures
            r.results == results,
            r.common.rdap_conformance matches Some(c) && c.deep_view() == seq!["rdap_level_0"@]
                + extensions.deep_view(),
            r.common.notices is None,
    {
        Self { common: Common::level0_with_extensions(extensions), results }
    }

    /// Get the nameservers in the search.
    pub fn results(&self) -> (r: &[Nameserver])
        ensures
            r@ == self.results@,
    {
        self.results.as_slice()
    }

    /// Get the common fields of the response.
    pub fn common(&self) -> (r: &Common)
        ensures
            r == &self.common,
    {
        &self.common
    }

    /// Wrap the search results as a response.
    pub fn to_response(self) -> (r: RdapResponse)
        ensures
            (r matches RdapResponse::NameserverSearchResults(b) && *b == self),
    {
        RdapResponse::NameserverSearchResults(Box::new(self))
    }
}

/// Represents RDAP entity search results.
#[derive(Debug)]
pub struct EntitySearchResults {
    pub common: Common,
    pub results: Vec<Entity>,
}

impl EntitySearchResults {
    /// Builds an entity search result: the found entities, with the base
    /// conformance identifier and the given extensions declared.
    pub fn new(results: Vec<Entity>, extensions: Vec<String>) -> (r: Self)
        ensures
            r.results == results,
            r.common.rdap_conformance matches Some(c) && c.deep_view() == seq!["rdap_level_0"@]
                + extensions.deep_view(),
            r.common.notices is None,
    {
        Self { common: Common::level0_with_extensions(extensions), results }
    }

    /// Get the entities in the search.
    pub fn results(&self) -> (r: &[Entity])
        ensures
            r@ == self.results@,
    {
        self.results.as_slice()
    }

    /// Get the common fields of the response.
    pub fn common(&self) -> (r: &Common)
        ensures
            r == &self.common,
    {
        &self.common
    }

    /// Wrap the search results as a response.
    pub fn to_response(self) -> (r: RdapResponse)
        ensures
            (r matches RdapResponse::EntitySearchResults(b) && *b == self),
    {
        RdapResponse::EntitySearchResults(Box::new(self))
    }
}

} // verus!
