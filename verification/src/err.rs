//! The errors that the proxy reports to its clients.
//!
//! Every failure inside the proxy is one of a closed set of kinds. Each kind
//! has a fixed name, a message for a human reader and an HTTP status code;
//! the boundary layer renders these three and adds nothing of its own.

use crate::gcp::gcp_resource_access::{ArtifactRegistryResourceFetchError, FetchFailure};
use std::fmt::Debug;
use vstd::prelude::*;

verus! {

/// What an error says of itself when it is rendered for a client.
pub trait SerializableError: Debug {
    /// The name of the error's kind.
    spec fn name_text(&self) -> Seq<char>;

    /// The message for a human reader.
    spec fn message_text(&self) -> Seq<char>;

    /// The HTTP status code that goes with the error.
    spec fn status_code(&self) -> u16;

    fn name(&self) -> (name: &'static str)
        ensures
            name@ == self.name_text(),
    ;

    fn message(&self) -> (message: String)
        ensures
            message@ == self.message_text(),
    ;

    fn status(&self) -> (status: u16)
        ensures
            status == self.status_code(),
    ;
}

/// The body of an error response: the name of the error's kind and its
/// message.
#[derive(Debug)]
pub struct BasicError {
    pub error_name: &'static str,
    pub message: String,
}

/// An error as it goes out to the client: a status code and a body.
#[derive(Debug)]
pub struct ErrorResponse {
    pub status: u16,
    pub body: BasicError,
}

impl BasicError {
    /// Renders `err`: the response carries the error's own status code, name
    /// and message, unchanged.
    pub fn from<E: SerializableError>(err: &E) -> (response: ErrorResponse)
        ensures
            response.status == err.status_code(),
            response.body.error_name@ == err.name_text(),
            response.body.message@ == err.message_text(),
    {
        ErrorResponse {
            status: err.status(),
            body: BasicError { error_name: err.name(), message: err.message() },
        }
    }
}

/// A failure of the local file system, with the text that the operating
/// system gave for it.
#[derive(Debug)]
pub struct IOError(pub String);

impl IOError {
    /// The body that reports this failure.
    pub fn into(self) -> (body: BasicError)
        ensures
            body.error_name@ == "File system exception"@,
            body.message@ == self.0@,
    {
        BasicError { error_name: "File system exception", message: self.0 }
    }
}

impl SerializableError for IOError {
    open spec fn name_text(&self) -> Seq<char> {
        "File system exception"@
    }

    open spec fn message_text(&self) -> Seq<char> {
        self.0@
    }

    open spec fn status_code(&self) -> u16 {
        500
    }

    fn name(&self) -> (name: &'static str) {
        "File system exception"
    }

    fn message(&self) -> (message: String) {
        self.0.clone()
    }

    fn status(&self) -> (status: u16) {
        500
    }
}

/// The alias that a request named is not in the repository table.
#[derive(Debug)]
pub struct RepositoryNotFound(pub String);

impl SerializableError for RepositoryNotFound {
    open spec fn name_text(&self) -> Seq<char> {
        "Repository not found"@
    }

    open spec fn message_text(&self) -> Seq<char> {
        "Failed to find repository: '"@ + self.0@ + "'"@
    }

    open spec fn status_code(&self) -> u16 {
        404
    }

    fn name(&self) -> (name: &'static str) {
        "Repository not found"
    }

    fn message(&self) -> (message: String) {
        let mut message = String::from_str("Failed to find repository: '");
        message.append(self.0.as_str());
        message.append("'");
        message
    }

    fn status(&self) -> (status: u16) {
        404
    }
}

/// The request carried no credentials, or not the configured ones.
#[derive(Debug)]
pub struct Unauthorized;

impl SerializableError for Unauthorized {
    open spec fn name_text(&self) -> Seq<char> {
        "Unauthorized"@
    }

    open spec fn message_text(&self) -> Seq<char> {
        "Please authenticate"@
    }

    open spec fn status_code(&self) -> u16 {
        401
    }

    fn name(&self) -> (name: &'static str) {
        "Unauthorized"
    }

    fn message(&self) -> (message: String) {
        String::from_str("Please authenticate")
    }

    fn status(&self) -> (status: u16) {
        401
    }
}

/// Any failure of the proxy: one of the kinds above, or a failure to read or
/// write an upstream resource.
#[derive(Debug)]
pub enum ProxyError {
    Fetch(ArtifactRegistryResourceFetchError),
    Io(IOError),
    NotFound(RepositoryNotFound),
    Unauthorized(Unauthorized),
}

/// The mathematical content of a [`ProxyError`].
pub enum ProxyFailure {
    Fetch(FetchFailure),
    /// The text that the operating system gave.
    Io(Seq<char>),
    /// The alias that was not found.
    NotFound(Seq<char>),
    Unauthorized,
}

impl View for ProxyError {
    type V = ProxyFailure;

    open spec fn view(&self) -> ProxyFailure {
        match self {
            ProxyError::Fetch(error) => ProxyFailure::Fetch(error@),
            ProxyError::Io(error) => ProxyFailure::Io(error.0@),
            ProxyError::NotFound(error) => ProxyFailure::NotFound(error.0@),
            ProxyError::Unauthorized(_) => ProxyFailure::Unauthorized,
        }
    }
}

impl ProxyFailure {
    pub open spec fn name(self) -> Seq<char> {
        match self {
            ProxyFailure::Fetch(failure) => failure.name(),
            ProxyFailure::Io(_) => "File system exception"@,
            ProxyFailure::NotFound(_) => "Repository not found"@,
            ProxyFailure::Unauthorized => "Unauthorized"@,
        }
    }

    pub open spec fn message(self) -> Seq<char> {
        match self {
            ProxyFailure::Fetch(failure) => failure.message(),
            ProxyFailure::Io(text) => text,
            ProxyFailure::NotFound(alias) => "Failed to find repository: '"@ + alias + "'"@,
            ProxyFailure::Unauthorized => "Please authenticate"@,
        }
    }

    pub open spec fn status(self) -> u16 {
        match self {
            ProxyFailure::Fetch(failure) => failure.status(),
            ProxyFailure::Io(_) => 500,
            ProxyFailure::NotFound(_) => 404,
            ProxyFailure::Unauthorized => 401,
        }
    }
}

impl SerializableError for ProxyError {
    open spec fn name_text(&self) -> Seq<char> {
        self@.name()
    }

    open spec fn message_text(&self) -> Seq<char> {
        self@.message()
    }

    open spec fn status_code(&self) -> u16 {
        self@.status()
    }

    fn name(&self) -> (name: &'static str) {
        match self {
            ProxyError::Fetch(error) => error.name(),
            ProxyError::Io(error) => error.name(),
            ProxyError::NotFound(error) => error.name(),
            ProxyError::Unauthorized(error) => error.name(),
        }
    }

    fn message(&self) -> (message: String) {
        match self {
            ProxyError::Fetch(error) => error.message(),
            ProxyError::Io(error) => error.message(),
            ProxyError::NotFound(error) => error.message(),
            ProxyError::Unauthorized(error) => error.message(),
        }
    }

    fn status(&self) -> (status: u16) {
        match self {
            ProxyError::Fetch(error) => error.status(),
            ProxyError::Io(error) => error.status(),
            ProxyError::NotFound(error) => error.status(),
            ProxyError::Unauthorized(error) => error.status(),
        }
    }
}

} // verus!
