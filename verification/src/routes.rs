//! What the proxy decides for each of its routes.
//!
//! `GET /<repository>/<path..>` reads a resource and is open to everyone;
//! `PUT /<repository>/<path..>` writes one and asks for the configured
//! credentials. Either names the repository by its alias. The functions here
//! decide whether a request is turned away, and with what answer, or which
//! resource of the upstream service it is about.

use crate::auth::ApiCredentials;
use crate::config::ARProxyConfiguration;
use crate::err::{BasicError, ErrorResponse, RepositoryNotFound, SerializableError};
use crate::path::{join, joined};
use vstd::prelude::*;

verus! {

/// A header of a response.
#[derive(Clone, Copy, Debug)]
pub struct Header {
    pub name: &'static str,
    pub value: &'static str,
}

/// The answer to a request that has to authenticate first: status 401, and a
/// header that names the scheme.
#[derive(Debug)]
pub struct AuthRequestResponse {
    pub status: u16,
    pub body: String,
    pub more: Header,
}

/// Why a `PUT` is turned away.
#[derive(Debug)]
pub enum PutRefusal {
    /// The request did not present the configured credentials.
    Unauthenticated(AuthRequestResponse),
    /// The request names a repository that is not in the table.
    Failed(ErrorResponse),
}

/// The answer with which a request for an unknown alias is turned away.
pub open spec fn is_not_found(response: ErrorResponse, alias: Seq<char>) -> bool {
    &&& response.status == 404
    &&& response.body.error_name@ == "Repository not found"@
    &&& response.body.message@ == "Failed to find repository: '"@ + alias + "'"@
}

/// The answer that asks a client to authenticate.
pub open spec fn is_challenge(response: AuthRequestResponse) -> bool {
    &&& response.status == 401
    &&& response.body@ == "Please authenticate"@
    &&& response.more.name@ == "WWW-Authenticate"@
    &&& response.more.value@ == "Basic realm=\"\""@
}

/// The upstream path of the resource at `path` in the repository offered as
/// `alias`: the repository that the alias stands for, and `path` below it.
/// There is none where the table does not hold the alias.
pub open spec fn upstream_path(
    configuration: &ARProxyConfiguration,
    alias: Seq<char>,
    path: Seq<char>,
) -> Option<Seq<char>> {
    match configuration.resolution(alias) {
        Ok(repository) => Some(joined(repository, path)),
        Err(_) => None,
    }
}

/// Finds the upstream path of a resource, or the answer with which the
/// request for it is turned away.
fn upstream_resource(repository: &str, path: &str, configuration: &ARProxyConfiguration) -> (resource:
    Result<String, ErrorResponse>)
    ensures
        match resource {
            Ok(resource) => upstream_path(configuration, repository@, path@) == Some(resource@),
            Err(response) => {
                &&& upstream_path(configuration, repository@, path@) is None
                &&& is_not_found(response, repository@)
            },
        },
{
    match configuration.resolve(repository) {
        Ok(backend) => Ok(join(backend.as_str(), path)),
        Err(error) => Err(BasicError::from(&error)),
    }
}

/// Decides a `GET`: the upstream path of the resource, which is the
/// repository that the alias stands for and below it the path; or, for an
/// alias that is not in the table, the answer with status 404.
pub fn get_repository_resource(
    repository: &str,
    path: &str,
    configuration: &ARProxyConfiguration,
) -> (resource: Result<String, ErrorResponse>)
    ensures
        match resource {
            Ok(resource) => upstream_path(configuration, repository@, path@) == Some(resource@),
            Err(response) => {
                &&& upstream_path(configuration, repository@, path@) is None
                &&& is_not_found(response, repository@)
            },
        },
{
    upstream_resource(repository, path, configuration)
}

/// The `Authorization` header of a request, if it has one, as the contracts
/// see it.
pub open spec fn header_view(authorization: Option<&str>) -> Option<Seq<char>> {
    match authorization {
        Some(header) => Some(header@),
        None => None,
    }
}

/// Decides a `PUT`. A request that the configured credentials do not admit
/// is asked to authenticate, whatever else it says. An admitted request is
/// decided as a `GET` is.
pub fn put_repository_resource(
    authorization: Option<&str>,
    repository: &str,
    path: &str,
    configuration: &ARProxyConfiguration,
) -> (resource: Result<String, PutRefusal>)
    ensures
        match resource {
            Ok(resource) => {
                &&& configuration.creds.admits(header_view(authorization))
                &&& upstream_path(configuration, repository@, path@) == Some(resource@)
            },
            Err(PutRefusal::Unauthenticated(response)) => {
                &&& !configuration.creds.admits(header_view(authorization))
                &&& is_challenge(response)
            },
            Err(PutRefusal::Failed(response)) => {
                &&& configuration.creds.admits(header_view(authorization))
                &&& upstream_path(configuration, repository@, path@) is None
                &&& is_not_found(response, repository@)
            },
        },
{
    if configuration.creds.from_request(authorization).is_none() {
        return Err(PutRefusal::Unauthenticated(un_authenticated()));
    }
    match upstream_resource(repository, path, configuration) {
        Ok(resource) => Ok(resource),
        Err(response) => Err(PutRefusal::Failed(response)),
    }
}

/// The greeting at the root of the proxy.
pub fn home() -> (greeting: &'static str)
    ensures
        greeting@ == "Hello! This is the GCP Artifact Registry proxy written in Rust on Rocket."@,
{
    "Hello! This is the GCP Artifact Registry proxy written in Rust on Rocket."
}

/// The answer that asks a client to authenticate.
pub fn un_authenticated() -> (response: AuthRequestResponse)
    ensures
        is_challenge(response),
{
    AuthRequestResponse {
        status: 401,
        body: String::from_str("Please authenticate"),
        more: Header { name: "WWW-Authenticate", value: "Basic realm=\"\"" },
    }
}

/// The answer to a client that has authenticated.
pub fn authenticated(_api: &ApiCredentials) -> (greeting: &'static str)
    ensures
        greeting@ == "Good work! You are authenticated."@,
{
    "Good work! You are authenticated."
}

} // verus!
