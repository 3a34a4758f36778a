//! Reading and writing resources of the upstream service.
//!
//! The library makes no request itself. A transfer is a sequence of steps:
//! each [`Step`] names what the caller has to do next, and holds the state
//! that takes the outcome and gives the step after it. The caller performs
//! the step, hands the outcome to the state, and goes on until the step is
//! [`Step::Finished`]. One attempt is made at each operation; no failure is
//! retried or passed over.
//!
//! To read a resource: obtain the token, send a `GET`, and on a status from
//! 200 to 299 read the body and keep it in a temporary file, named after the
//! file name of the path. To write one: with the content of the local file
//! in hand, obtain the token and send a `PUT` that carries the content and
//! its length. Any other status ends the transfer with the status and the
//! text of the response.

use base64::Engine;
use crate::err::{IOError, ProxyError, ProxyFailure, SerializableError};
use crate::gcp::gcp_creds::{ArtifactRegistryCreds, GCPTokenError, TokenFailure};
use crate::path::{staging_name, staging_parts};
use crate::resource_access::ResourceAccess;
use crate::text::{decimal, push_decimal, strip_suffix, without_suffix};
use vstd::prelude::*;
use vstd::utf8::encode_utf8;

verus! {

/// Why a resource could not be read or written.
#[derive(Debug)]
pub enum ArtifactRegistryResourceFetchError {
    /// The request did not get through; the text of the transport's error.
    RequestError(String),
    /// The upstream service answered with a status outside 200 to 299; the
    /// status and the text of the response.
    NonSuccessfulStatus(u16, String),
    /// No token could be had.
    TokenError(GCPTokenError),
    /// The path has no file name with a stem and an extension.
    InvalidPathBuf,
}

/// The mathematical content of an [`ArtifactRegistryResourceFetchError`].
pub enum FetchFailure {
    RequestError(Seq<char>),
    NonSuccessfulStatus(u16, Seq<char>),
    TokenError(TokenFailure),
    InvalidPathBuf,
}

impl FetchFailure {
    pub open spec fn name(self) -> Seq<char> {
        match self {
            FetchFailure::RequestError(_) => "Exceptional request exception"@,
            FetchFailure::NonSuccessfulStatus(_, _) => "Non-200 internal response"@,
            FetchFailure::TokenError(_) => "Token error"@,
            FetchFailure::InvalidPathBuf => "Invalid path supplied"@,
        }
    }

    pub open spec fn message(self) -> Seq<char> {
        match self {
            FetchFailure::RequestError(error) => "Failed to request resource, wrapped error: "@
                + error,
            FetchFailure::NonSuccessfulStatus(status, body) => "Received response code: '"@
                + decimal(status as int) + "' from the Artifact Registry servers. Body: "@ + body,
            FetchFailure::TokenError(failure) =>
                "Failed to authenticate with teh Artifact Registry servers! "@ + failure.text(),
            FetchFailure::InvalidPathBuf =>
                "Given path did no have a valid file ending (eg 'test.txt')"@,
        }
    }

    pub open spec fn status(self) -> u16 {
        match self {
            FetchFailure::RequestError(_) => 500,
            FetchFailure::NonSuccessfulStatus(status, _) => status,
            FetchFailure::TokenError(_) => 500,
            FetchFailure::InvalidPathBuf => 400,
        }
    }
}

impl View for ArtifactRegistryResourceFetchError {
    type V = FetchFailure;

    open spec fn view(&self) -> FetchFailure {
        match self {
            ArtifactRegistryResourceFetchError::RequestError(error) => FetchFailure::RequestError(
                error@,
            ),
            ArtifactRegistryResourceFetchError::NonSuccessfulStatus(status, body) =>
                FetchFailure::NonSuccessfulStatus(*status, body@),
            ArtifactRegistryResourceFetchError::TokenError(error) => FetchFailure::TokenError(
                error@,
            ),
            ArtifactRegistryResourceFetchError::InvalidPathBuf => FetchFailure::InvalidPathBuf,
        }
    }
}

impl SerializableError for ArtifactRegistryResourceFetchError {
    open spec fn name_text(&self) -> Seq<char> {
        self@.name()
    }

    open spec fn message_text(&self) -> Seq<char> {
        self@.message()
    }

    open spec fn status_code(&self) -> u16 {
        self@.status()
    }

    fn name(&self) -> (name: &'static str) {
        match self {
            ArtifactRegistryResourceFetchError::RequestError(_) => "Exceptional request exception",
            ArtifactRegistryResourceFetchError::NonSuccessfulStatus(_, _) =>
                "Non-200 internal response",
            ArtifactRegistryResourceFetchError::TokenError(_) => "Token error",
            ArtifactRegistryResourceFetchError::InvalidPathBuf => "Invalid path supplied",
        }
    }

    fn message(&self) -> (message: String) {
        match self {
            ArtifactRegistryResourceFetchError::RequestError(error) => {
                let mut message = String::from_str("Failed to request resource, wrapped error: ");
                message.append(error.as_str());
                message
            },
            ArtifactRegistryResourceFetchError::NonSuccessfulStatus(status, body) => {
                let mut message = String::from_str("Received response code: '");
                push_decimal(&mut message, *status as i64);
                message.append("' from the Artifact Registry servers. Body: ");
                message.append(body.as_str());
                message
            },
            ArtifactRegistryResourceFetchError::TokenError(error) => {
                let mut message = String::from_str(
                    "Failed to authenticate with teh Artifact Registry servers! ",
                );
                message.append(error.to_string().as_str());
                message
            },
            ArtifactRegistryResourceFetchError::InvalidPathBuf => String::from_str(
                "Given path did no have a valid file ending (eg 'test.txt')",
            ),
        }
    }

    fn status(&self) -> (status: u16) {
        match self {
            ArtifactRegistryResourceFetchError::RequestError(_) => 500,
            ArtifactRegistryResourceFetchError::NonSuccessfulStatus(status, _) => *status,
            ArtifactRegistryResourceFetchError::TokenError(_) => 500,
            ArtifactRegistryResourceFetchError::InvalidPathBuf => 400,
        }
    }
}

/// The address of the resource at `path`: the base address without one
/// trailing `/`, if it has one, then `/` and the path.
pub open spec fn upstream_url(base: Seq<char>, path: Seq<char>) -> Seq<char> {
    (match without_suffix(base, "/"@) {
        Some(trimmed) => trimmed,
        None => base,
    }) + "/"@ + path
}

/// The text that `base64`'s standard engine encodes the bytes to.
pub uninterp spec fn base64_encoding(bytes: Seq<u8>) -> Seq<char>;

/// The number of characters in the padded base64 form of `n` bytes.
pub open spec fn encoded_length(n: nat) -> nat {
    4 * ((n + 2) / 3)
}

/// `base64::Engine::encode` of `base64::prelude::BASE64_STANDARD`. The result
/// is a function of the bytes alone. The engine gives up on an input whose
/// encoded length is beyond `usize`; such an input is not admitted.
#[verifier::external_body]
fn base64_encode(bytes: &[u8]) -> (text: String)
    requires
        encoded_length(bytes@.len()) <= usize::MAX,
    ensures
        text@ == base64_encoding(bytes@),
{
    base64::prelude::BASE64_STANDARD.encode(bytes)
}

/// The bytes of `user:key`.
pub open spec fn basic_pair(user: Seq<char>, key: Seq<char>) -> Seq<u8> {
    encode_utf8(user + ":"@ + key)
}

/// The base64 form of `user:key`.
pub open spec fn basic_credentials(user: Seq<char>, key: Seq<char>) -> Seq<char> {
    base64_encoding(basic_pair(user, key))
}

/// The value of the `Authorization` header that presents `user` and `key`
/// under the `Basic` scheme.
pub open spec fn basic_authorization(user: Seq<char>, key: Seq<char>) -> Seq<char> {
    "Basic "@ + basic_credentials(user, key)
}

/// Encodes `user:key` in base64.
pub fn encode_pair(user: &str, key: &str) -> (encoded: String)
    requires
        encoded_length(basic_pair(user@, key@).len()) <= usize::MAX,
    ensures
        encoded@ == basic_credentials(user@, key@),
{
    let mut pair = String::from_str(user);
    pair.append(":");
    pair.append(key);
    base64_encode(pair.as_str().as_bytes())
}

/// Encodes `user:key` in base64, unless the encoded form would be longer than
/// `usize` can say.
pub fn try_encode_pair(user: &str, key: &str) -> (encoded: Option<String>)
    ensures
        match encoded {
            Some(encoded) => {
                &&& encoded_length(basic_pair(user@, key@).len()) <= usize::MAX
                &&& encoded@ == basic_credentials(user@, key@)
            },
            None => encoded_length(basic_pair(user@, key@).len()) > usize::MAX,
        },
{
    let mut pair = String::from_str(user);
    pair.append(":");
    pair.append(key);
    let bytes = pair.as_str().as_bytes();
    let length = bytes.len();
    if length > usize::MAX - 2 || (length + 2) / 3 > usize::MAX / 4 {
        None
    } else {
        Some(base64_encode(bytes))
    }
}

/// Access to the resources of one upstream service: the token cache and the
/// base address of the service.
pub struct ArtifactRegistryResourceAccess {
    pub creds: ArtifactRegistryCreds,
    pub url: String,
}

/// The two kinds of transfer.
#[derive(Clone, Copy, Debug, PartialEq, Eq, Structural)]
pub enum Method {
    Get,
    Put,
}

/// A request to the upstream service.
#[derive(Debug)]
pub struct UpstreamRequest {
    pub method: Method,
    pub url: String,
    /// The value of the `Authorization` header.
    pub authorization: String,
    /// The value of the `Content-Length` header, where the request has one.
    pub content_length: Option<usize>,
    pub body: Vec<u8>,
}

/// The mathematical content of an [`UpstreamRequest`].
pub struct RequestView {
    pub method: Method,
    pub url: Seq<char>,
    pub authorization: Seq<char>,
    pub content_length: Option<usize>,
    pub body: Seq<u8>,
}

impl View for UpstreamRequest {
    type V = RequestView;

    open spec fn view(&self) -> RequestView {
        RequestView {
            method: self.method,
            url: self.url@,
            authorization: self.authorization@,
            content_length: self.content_length,
            body: self.body@,
        }
    }
}

/// What is to be kept in a temporary file: the two parts of the file's name,
/// between which the file system puts what makes the name unique, and the
/// content.
#[derive(Debug)]
pub struct StagedPayload {
    pub prefix: String,
    pub suffix: String,
    pub content: Vec<u8>,
}

/// The mathematical content of a [`StagedPayload`].
pub struct PayloadView {
    pub prefix: Seq<char>,
    pub suffix: Seq<char>,
    pub content: Seq<u8>,
}

impl View for StagedPayload {
    type V = PayloadView;

    open spec fn view(&self) -> PayloadView {
        PayloadView { prefix: self.prefix@, suffix: self.suffix@, content: self.content@ }
    }
}

/// The state of a transfer that waits for the token.
#[derive(Debug)]
pub struct AwaitingToken {
    pub method: Method,
    pub user: &'static str,
    pub url: String,
    pub path: String,
    pub payload: Vec<u8>,
}

/// The state of a transfer whose request is on its way.
#[derive(Debug)]
pub struct AwaitingResponse {
    pub method: Method,
    pub path: String,
}

/// The state of a transfer that was answered with a status outside 200 to
/// 299 and waits for the text of the response.
#[derive(Clone, Copy, Debug, PartialEq, Eq, Structural)]
pub struct AwaitingErrorText {
    pub status: u16,
}

/// The state of a `GET` that was answered with a status from 200 to 299 and
/// waits for the body of the response.
#[derive(Debug)]
pub struct AwaitingBody {
    pub path: String,
}

/// The state of a `GET` whose payload is being written to a temporary file.
#[derive(Clone, Copy, Debug, PartialEq, Eq, Structural)]
pub struct AwaitingStaging {}

/// What the caller has to do next, and the state that takes the outcome.
#[derive(Debug)]
pub enum Step {
    /// Ask the token cache for the token; where it has none to give, run the
    /// credential tool and install what it yields. Hand the token, or the
    /// failure, to [`AwaitingToken::token`].
    ObtainToken(AwaitingToken),
    /// Send the request. Hand the status of the response, or the text of the
    /// transport's error, to [`AwaitingResponse::response`].
    Send(UpstreamRequest, AwaitingResponse),
    /// Read the response as text. Hand the text, or `None` where it cannot be
    /// read, to [`AwaitingErrorText::text`].
    ReadErrorText(AwaitingErrorText),
    /// Read the body of the response. Hand its bytes, or the text of the
    /// transport's error, to [`AwaitingBody::body`].
    ReadBody(AwaitingBody),
    /// Create a temporary file whose name begins with the payload's prefix
    /// and ends with its suffix, and write the payload's content to it. Hand
    /// the outcome to [`AwaitingStaging::staged`].
    Stage(StagedPayload, AwaitingStaging),
    /// The transfer is over.
    Finished(Result<(), ProxyError>),
}

/// The mathematical content of an [`AwaitingToken`].
pub struct AwaitingTokenView {
    pub method: Method,
    pub user: Seq<char>,
    pub url: Seq<char>,
    pub path: Seq<char>,
    pub payload: Seq<u8>,
}

/// The mathematical content of an [`AwaitingResponse`].
pub struct AwaitingResponseView {
    pub method: Method,
    pub path: Seq<char>,
}

/// The mathematical content of an [`AwaitingBody`].
pub struct AwaitingBodyView {
    pub path: Seq<char>,
}

/// The mathematical content of a [`Step`].
pub enum StepView {
    ObtainToken(AwaitingTokenView),
    Send(RequestView, AwaitingResponseView),
    ReadErrorText(AwaitingErrorText),
    ReadBody(AwaitingBodyView),
    Stage(PayloadView, AwaitingStaging),
    Finished(Result<(), ProxyFailure>),
}

impl View for AwaitingToken {
    type V = AwaitingTokenView;

    open spec fn view(&self) -> AwaitingTokenView {
        AwaitingTokenView {
            method: self.method,
            user: self.user@,
            url: self.url@,
            path: self.path@,
            payload: self.payload@,
        }
    }
}

impl View for AwaitingResponse {
    type V = AwaitingResponseView;

    open spec fn view(&self) -> AwaitingResponseView {
        AwaitingResponseView { method: self.method, path: self.path@ }
    }
}

impl View for AwaitingBody {
    type V = AwaitingBodyView;

    open spec fn view(&self) -> AwaitingBodyView {
        AwaitingBodyView { path: self.path@ }
    }
}

impl View for Step {
    type V = StepView;

    open spec fn view(&self) -> StepView {
        match self {
            Step::ObtainToken(state) => StepView::ObtainToken(state@),
            Step::Send(request, state) => StepView::Send(request@, state@),
            Step::ReadErrorText(state) => StepView::ReadErrorText(*state),
            Step::ReadBody(state) => StepView::ReadBody(state@),
            Step::Stage(payload, state) => StepView::Stage(payload@, *state),
            Step::Finished(Ok(_)) => StepView::Finished(Ok(())),
            Step::Finished(Err(error)) => StepView::Finished(Err(error@)),
        }
    }
}

/// The text that stands for a response that could not be read.
pub const UNREADABLE_BODY: &'static str = "<Failed to unwrap body data>";

/// Whether a status reports success: it is from 200 to 299.
pub open spec fn is_success(status: u16) -> bool {
    200 <= status < 300
}

impl AwaitingTokenView {
    /// Whether the token can be presented: the base64 form of `user:key` has
    /// a length within `usize`.
    pub open spec fn presentable(self, key: Result<Seq<char>, TokenFailure>) -> bool {
        key matches Ok(key) ==> encoded_length(basic_pair(self.user, key).len()) <= usize::MAX
    }

    /// The step after the token: without a token the transfer ends with the
    /// failure; with one, the request goes out. The request presents the
    /// token under the `Basic` scheme. A `PUT` carries the payload and states
    /// its length.
    pub open spec fn on_token(self, key: Result<Seq<char>, TokenFailure>) -> StepView {
        match key {
            Err(failure) => StepView::Finished(
                Err(ProxyFailure::Fetch(FetchFailure::TokenError(failure))),
            ),
            Ok(key) => StepView::Send(
                RequestView {
                    method: self.method,
                    url: self.url,
                    authorization: basic_authorization(self.user, key),
                    content_length: if self.method == Method::Put {
                        Some(self.payload.len() as usize)
                    } else {
                        None
                    },
                    body: self.payload,
                },
                AwaitingResponseView { method: self.method, path: self.path },
            ),
        }
    }
}

impl AwaitingResponseView {
    /// The step after the response: a request that did not get through ends
    /// the transfer; so does a `PUT` that was answered with success. After
    /// any other status than success the text of the response is read, and
    /// after a `GET` that was answered with success, its body.
    pub open spec fn on_response(self, sent: Result<u16, Seq<char>>) -> StepView {
        match sent {
            Err(error) => StepView::Finished(
                Err(ProxyFailure::Fetch(FetchFailure::RequestError(error))),
            ),
            Ok(status) => if !is_success(status) {
                StepView::ReadErrorText(AwaitingErrorText { status })
            } else if self.method == Method::Put {
                StepView::Finished(Ok(()))
            } else {
                StepView::ReadBody(AwaitingBodyView { path: self.path })
            },
        }
    }
}

impl AwaitingErrorText {
    /// The end of a transfer that was answered with another status than
    /// success: the status, and the text of the response or what stands for
    /// a text that could not be read.
    pub open spec fn on_text(self, text: Option<Seq<char>>) -> StepView {
        StepView::Finished(
            Err(
                ProxyFailure::Fetch(
                    FetchFailure::NonSuccessfulStatus(
                        self.status,
                        match text {
                            Some(text) => text,
                            None => UNREADABLE_BODY@,
                        },
                    ),
                ),
            ),
        )
    }
}

impl AwaitingBodyView {
    /// The step after the body: a body that did not arrive ends the
    /// transfer, and so does a path without the two parts of a file name.
    /// Otherwise the body, as it arrived, is to be kept under that name.
    pub open spec fn on_body(self, body: Result<Seq<u8>, Seq<char>>) -> StepView {
        match body {
            Err(error) => StepView::Finished(
                Err(ProxyFailure::Fetch(FetchFailure::RequestError(error))),
            ),
            Ok(content) => match staging_parts(self.path) {
                None => StepView::Finished(Err(ProxyFailure::Fetch(FetchFailure::InvalidPathBuf))),
                Some((prefix, suffix)) => StepView::Stage(
                    PayloadView { prefix, suffix, content },
                    AwaitingStaging {  },
                ),
            },
        }
    }
}

impl AwaitingStaging {
    /// The end of a `GET`: success where the payload was written, the
    /// failure of the file system where it was not.
    pub open spec fn on_staged(self, written: Result<(), Seq<char>>) -> StepView {
        match written {
            Ok(_) => StepView::Finished(Ok(())),
            Err(error) => StepView::Finished(Err(ProxyFailure::Io(error))),
        }
    }
}

/// The mathematical content of a token or of the failure to obtain one.
pub open spec fn token_view(key: Result<String, GCPTokenError>) -> Result<Seq<char>, TokenFailure> {
    match key {
        Ok(key) => Ok(key@),
        Err(error) => Err(error@),
    }
}

/// The mathematical content of a status or of the text of a transport's
/// error.
pub open spec fn status_view(sent: Result<u16, String>) -> Result<u16, Seq<char>> {
    match sent {
        Ok(status) => Ok(status),
        Err(error) => Err(error@),
    }
}

/// The mathematical content of a text that may be missing.
pub open spec fn text_view(text: Option<String>) -> Option<Seq<char>> {
    match text {
        Some(text) => Some(text@),
        None => None,
    }
}

/// The mathematical content of bytes or of the text of an error.
pub open spec fn bytes_view(bytes: Result<Vec<u8>, String>) -> Result<Seq<u8>, Seq<char>> {
    match bytes {
        Ok(bytes) => Ok(bytes@),
        Err(error) => Err(error@),
    }
}

/// The mathematical content of the outcome of a file operation.
pub open spec fn outcome_view(outcome: Result<(), String>) -> Result<(), Seq<char>> {
    match outcome {
        Ok(_) => Ok(()),
        Err(error) => Err(error@),
    }
}

fn failed(error: ArtifactRegistryResourceFetchError) -> (step: Step)
    ensures
        step@ == StepView::Finished(Err(ProxyFailure::Fetch(error@))),
{
    Step::Finished(Err(ProxyError::Fetch(error)))
}

impl AwaitingToken {
    /// The step that sends the request, with the credentials in the base64
    /// form that is handed in.
    fn send(self, encoded: String) -> (step: Step)
        ensures
            step@ == StepView::Send(
                RequestView {
                    method: self.method,
                    url: self.url@,
                    authorization: "Basic "@ + encoded@,
                    content_length: if self.method == Method::Put {
                        Some(self.payload@.len() as usize)
                    } else {
                        None
                    },
                    body: self.payload@,
                },
                AwaitingResponseView { method: self.method, path: self.path@ },
            ),
    {
        let mut authorization = String::from_str("Basic ");
        authorization.append(encoded.as_str());
        let content_length = match self.method {
            Method::Put => Some(self.payload.len()),
            Method::Get => None,
        };
        Step::Send(
            UpstreamRequest {
                method: self.method,
                url: self.url,
                authorization,
                content_length,
                body: self.payload,
            },
            AwaitingResponse { method: self.method, path: self.path },
        )
    }

    /// Takes the token, or the failure to obtain one.
    pub fn token(self, key: Result<String, GCPTokenError>) -> (step: Step)
        requires
            self@.presentable(token_view(key)),
        ensures
            step@ == self@.on_token(token_view(key)),
    {
        match key {
            Err(error) => failed(ArtifactRegistryResourceFetchError::TokenError(error)),
            Ok(key) => {
                let encoded = encode_pair(self.user, key.as_str());
                self.send(encoded)
            },
        }
    }

    /// Takes the token, or the failure to obtain one, as [`Self::token`]
    /// does. `None` says that the token cannot be presented, because the
    /// base64 form of the credentials would be longer than `usize` can say.
    pub fn checked_token(self, key: Result<String, GCPTokenError>) -> (step: Option<Step>)
        ensures
            match step {
                Some(step) => self@.presentable(token_view(key)) && step@ == self@.on_token(
                    token_view(key),
                ),
                None => !self@.presentable(token_view(key)),
            },
    {
        match key {
            Err(error) => Some(failed(ArtifactRegistryResourceFetchError::TokenError(error))),
            Ok(key) => match try_encode_pair(self.user, key.as_str()) {
                Some(encoded) => Some(self.send(encoded)),
                None => None,
            },
        }
    }
}

impl AwaitingResponse {
    /// Takes the status of the response, or the text of the transport's
    /// error where the request did not get through.
    pub fn response(self, sent: Result<u16, String>) -> (step: Step)
        ensures
            step@ == self@.on_response(status_view(sent)),
    {
        match sent {
            Err(error) => failed(ArtifactRegistryResourceFetchError::RequestError(error)),
            Ok(status) => {
                if !(200 <= status && status < 300) {
                    Step::ReadErrorText(AwaitingErrorText { status })
                } else {
                    match self.method {
                        Method::Put => Step::Finished(Ok(())),
                        Method::Get => Step::ReadBody(AwaitingBody { path: self.path }),
                    }
                }
            },
        }
    }
}

impl AwaitingErrorText {
    /// Takes the text of the response, or `None` where it could not be read.
    pub fn text(self, text: Option<String>) -> (step: Step)
        ensures
            step@ == self.on_text(text_view(text)),
    {
        let body = match text {
            Some(text) => text,
            None => String::from_str(UNREADABLE_BODY),
        };
        failed(ArtifactRegistryResourceFetchError::NonSuccessfulStatus(self.status, body))
    }
}

impl AwaitingBody {
    /// Takes the body of the response, or the text of the transport's error
    /// where the body did not arrive.
    pub fn body(self, body: Result<Vec<u8>, String>) -> (step: Step)
        ensures
            step@ == self@.on_body(bytes_view(body)),
    {
        match body {
            Err(error) => failed(ArtifactRegistryResourceFetchError::RequestError(error)),
            Ok(content) => match staging_name(self.path.as_str()) {
                None => failed(ArtifactRegistryResourceFetchError::InvalidPathBuf),
                Some((prefix, suffix)) => Step::Stage(
                    StagedPayload { prefix, suffix, content },
                    AwaitingStaging {  },
                ),
            },
        }
    }
}

impl AwaitingStaging {
    /// Takes the outcome of writing the payload: the text of the file
    /// system's error where it failed.
    pub fn staged(self, written: Result<(), String>) -> (step: Step)
        ensures
            step@ == self.on_staged(outcome_view(written)),
    {
        match written {
            Ok(_) => Step::Finished(Ok(())),
            Err(error) => Step::Finished(Err(ProxyError::Io(IOError(error)))),
        }
    }
}

impl ArtifactRegistryResourceAccess {
    /// The first step of reading the resource at `path`.
    pub open spec fn get_start(&self, path: Seq<char>) -> StepView {
        StepView::ObtainToken(
            AwaitingTokenView {
                method: Method::Get,
                user: self.creds.user@,
                url: upstream_url(self.url@, path),
                path,
                payload: Seq::empty(),
            },
        )
    }

    /// The first step of writing `file` to the resource at `path`, where
    /// `file` is the content of the local file or the text of the error with
    /// which it could not be read.
    pub open spec fn put_start(&self, path: Seq<char>, file: Result<Seq<u8>, Seq<char>>) -> StepView {
        match file {
            Err(error) => StepView::Finished(Err(ProxyFailure::Io(error))),
            Ok(payload) => StepView::ObtainToken(
                AwaitingTokenView {
                    method: Method::Put,
                    user: self.creds.user@,
                    url: upstream_url(self.url@, path),
                    path,
                    payload,
                },
            ),
        }
    }

    /// The address of the resource at `path`.
    pub fn get_url(&self, path: &str) -> (url: String)
        ensures
            url@ == upstream_url(self.url@, path@),
    {
        let mut url = match strip_suffix(self.url.as_str(), "/") {
            Some(trimmed) => trimmed,
            None => self.url.clone(),
        };
        url.append("/");
        url.append(path);
        url
    }

    /// The base64 form of the fixed user name and `key`.
    pub fn encoded_creds(&self, key: &str) -> (encoded: String)
        requires
            encoded_length(basic_pair(self.creds.user@, key@).len()) <= usize::MAX,
        ensures
            encoded@ == basic_credentials(self.creds.user@, key@),
    {
        encode_pair(self.creds.user, key)
    }
}

impl ResourceAccess for ArtifactRegistryResourceAccess {
    open spec fn reading(&self, path: Seq<char>) -> StepView {
        self.get_start(path)
    }

    open spec fn writing(&self, path: Seq<char>, file: Result<Seq<u8>, Seq<char>>) -> StepView {
        self.put_start(path, file)
    }

    fn get_resource(&self, path: &str) -> (step: Step) {
        Step::ObtainToken(
            AwaitingToken {
                method: Method::Get,
                user: self.creds.user,
                url: self.get_url(path),
                path: String::from_str(path),
                payload: Vec::new(),
            },
        )
    }

    fn put_resource(&self, path: &str, file: Result<Vec<u8>, String>) -> (step: Step) {
        match file {
            Err(error) => Step::Finished(Err(ProxyError::Io(IOError(error)))),
            Ok(payload) => Step::ObtainToken(
                AwaitingToken {
                    method: Method::Put,
                    user: self.creds.user,
                    url: self.get_url(path),
                    path: String::from_str(path),
                    payload,
                },
            ),
        }
    }
}

/// A `PUT` sends the local payload as it is: the request that goes out once
/// the token is there carries the payload byte for byte, and states its
/// length as the length of the content.
pub proof fn lemma_store_sends_the_payload(
    access: ArtifactRegistryResourceAccess,
    path: Seq<char>,
    payload: Seq<u8>,
    key: Seq<char>,
)
    requires
        payload.len() <= usize::MAX,
    ensures
        access.put_start(path, Ok(payload)) matches StepView::ObtainToken(state)
            && state.on_token(Ok(key)) matches StepView::Send(request, _) && {
            &&& request.method == Method::Put
            &&& request.url == upstream_url(access.url@, path)
            &&& request.authorization == basic_authorization(access.creds.user@, key)
            &&& request.body == payload
            &&& request.content_length == Some(payload.len() as usize)
        },
{
}

/// Whatever the transfer, an answer with a status outside 200 to 299 ends it
/// with `NonSuccessfulStatus`: the failure carries that status, is rendered
/// with it, and has a message that is not empty.
pub proof fn lemma_other_status_is_reported(
    state: AwaitingResponseView,
    status: u16,
    text: Option<Seq<char>>,
)
    requires
        !is_success(status),
    ensures
        state.on_response(Ok(status)) matches StepView::ReadErrorText(reading) && reading.on_text(
            text,
        ) matches StepView::Finished(Err(failure)) && {
            &&& failure matches ProxyFailure::Fetch(FetchFailure::NonSuccessfulStatus(reported, _))
                && reported == status
            &&& failure.status() == status
            &&& failure.message().len() > 0
        },
{
    reveal_strlit("Received response code: '");
}

/// A `GET` keeps what it received: where the upstream service answers with
/// success and the path has a file name with stem and extension, the
/// payload that is handed over to be written is the body of the response,
/// byte for byte, under that name; and once it is written the transfer has
/// succeeded.
pub proof fn lemma_fetch_stages_the_body(
    access: ArtifactRegistryResourceAccess,
    path: Seq<char>,
    key: Seq<char>,
    status: u16,
    body: Seq<u8>,
)
    requires
        is_success(status),
        staging_parts(path) is Some,
    ensures
        access.get_start(path) matches StepView::ObtainToken(waiting) && waiting.on_token(
            Ok(key),
        ) matches StepView::Send(request, sent) && sent.on_response(Ok(status))
            matches StepView::ReadBody(reading) && reading.on_body(Ok(body)) matches StepView::Stage(
            payload,
            writing,
        ) && {
            &&& request.method == Method::Get
            &&& request.content_length is None
            &&& payload.content == body
            &&& staging_parts(path) == Some((payload.prefix, payload.suffix))
            &&& writing.on_staged(Ok(())) == StepView::Finished(Ok(()))
        },
{
}

} // verus!
