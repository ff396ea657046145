//! The gateway to the three core systems: it holds their validated
//! addresses and the identity of this system, and prepares what the calls
//! need. The calls themselves are I/O and live outside this library.

use url::ParseError as UrlParseError;
use url::Url;
use vstd::prelude::*;

use crate::dtos::{ArrowheadSystem, NoEntryTag};
use crate::error::Error;
use crate::text::{dec_str, u32_to_string};

verus! {

/// An address of a core system, parsed and validated.
#[verifier::external_type_specification]
#[verifier::external_body]
pub struct ExUrl(Url);

/// A rejected address, as the address parser reports it.
#[verifier::external_type_specification]
#[verifier::external_body]
pub struct ExUrlParseError(UrlParseError);

/// Whether the address parser accepts `text` as a URL: what
/// `url::Url::parse` decides, a function of the text alone.
pub uninterp spec fn url_parses(text: Seq<char>) -> bool;

/// Relies on `url::Url::parse`: it accepts or rejects an address by its
/// text alone, and its error describes the rejected address.
#[verifier::external_body]
fn parse_url(input: &str) -> (r: Result<Url, UrlParseError>)
    ensures
        r is Ok <==> url_parses(input@),
{
    Url::parse(input)
}

/// Relies on the display form of `url::ParseError`: the parser's
/// description of what is wrong with a rejected address.
#[verifier::external_body]
fn url_error_message(e: &UrlParseError) -> String {
    e.to_string()
}

/// The gateway to the service registry, the authorization system and the
/// orchestrator.
pub struct ArrowheadSystemAdapter {
    pub service_registry_address: Url,
    pub authorization_address: Url,
    pub orchestrator_address: Url,
    pub client_system: ArrowheadSystem<NoEntryTag>,
}

impl ArrowheadSystemAdapter {
    /// A gateway for the three given addresses and this system's identity:
    /// built exactly when all three addresses parse as URLs, a transport
    /// error otherwise.
    pub fn new(
        service_registry_address: &str,
        authorization_address: &str,
        orchestrator_address: &str,
        client_system: ArrowheadSystem<NoEntryTag>,
    ) -> (r: Result<Self, Error>)
        ensures
            r is Ok <==> url_parses(service_registry_address@) && url_parses(
                authorization_address@,
            ) && url_parses(orchestrator_address@),
            r is Ok ==> r->Ok_0.client_system == client_system,
            r is Err ==> r->Err_0 is HttpError,
    {
        let sra = match parse_url(service_registry_address) {
            Ok(u) => u,
            Err(e) => {
                return Err(Error::HttpError(url_error_message(&e)));
            },
        };
        let aa = match parse_url(authorization_address) {
            Ok(u) => u,
            Err(e) => {
                return Err(Error::HttpError(url_error_message(&e)));
            },
        };
        let oa = match parse_url(orchestrator_address) {
            Ok(u) => u,
            Err(e) => {
                return Err(Error::HttpError(url_error_message(&e)));
            },
        };
        Ok(
            ArrowheadSystemAdapter {
                service_registry_address: sra,
                authorization_address: aa,
                orchestrator_address: oa,
                client_system,
            },
        )
    }

    /// The query the registry's unregister endpoint takes: the service
    /// definition to drop and this system's name, address and port.
    pub fn unregister_query(&self, service_definition: &str) -> (r: Vec<(String, String)>)
        ensures
            r@.len() == 4,
            r@[0].0@ == "service_definition"@ && r@[0].1@ == service_definition@,
            r@[1].0@ == "system_name"@ && r@[1].1@ == self.client_system.system_name@,
            r@[2].0@ == "address"@ && r@[2].1@ == self.client_system.address@,
            r@[3].0@ == "port"@ && r@[3].1@ == dec_str(self.client_system.port as nat),
    {
        let mut q: Vec<(String, String)> = Vec::new();
        q.push((String::from_str("service_definition"), String::from_str(service_definition)));
        q.push((String::from_str("system_name"), self.client_system.system_name.clone()));
        q.push((String::from_str("address"), self.client_system.address.clone()));
        q.push((String::from_str("port"), u32_to_string(self.client_system.port)));
        q
    }
}

} // verus!
