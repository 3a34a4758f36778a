//! The credential for the upstream service and the cache that holds it.
//!
//! The credential is a bearer token with an expiration. It is issued by the
//! `gcloud` tool, which prints it as JSON. The caller runs the tool and hands
//! its exit code and output to [`retrieve_creds_internal`], which reads the
//! credential from them.
//!
//! [`ArtifactRegistryCreds`] is the cache. Asked for the token, it answers
//! from what it holds while more than the guard window is left before the
//! expiration. Otherwise it answers `None`: the caller then obtains a fresh
//! credential and installs it with [`ArtifactRegistryCreds::refresh`]. The
//! query takes `&self` and the installation `&mut self`, so a caller that
//! shares the cache behind a reader/writer lock holds the exclusive lock only
//! to install, never while the tool runs.

use crate::json::{json_document, lookup, member, parse, JsonModel, JsonValue};
use crate::text::{decimal, push_decimal};
use vstd::prelude::*;

verus! {

/// The default length of the guard window, in minutes.
pub const REFRESH_GUARD_MINUTES: u64 = 5;

/// The user name that goes with the token in requests to the upstream
/// service.
pub const TOKEN_USER: &'static str = "oauth2accesstoken";

/// A point in time with the offset of the time zone in which it was written.
#[derive(Clone, Copy, Debug, PartialEq, Eq, Structural)]
pub struct Timestamp {
    /// Whole seconds since 1970-01-01T00:00:00Z.
    pub seconds: i64,
    /// Nanoseconds since the last whole second.
    pub nanos: u32,
    /// Seconds by which local time is ahead of UTC.
    pub offset: i32,
}

impl Timestamp {
    /// Nanoseconds since 1970-01-01T00:00:00Z. The offset plays no part: two
    /// timestamps with the same instant are the same point in time.
    pub open spec fn instant(self) -> int {
        self.seconds * 1_000_000_000 + self.nanos
    }

    fn instant_nanos(&self) -> (nanos: i128)
        ensures
            nanos == self.instant(),
    {
        self.seconds as i128 * 1_000_000_000 + self.nanos as i128
    }
}

/// The timestamp that `chrono` reads from a text in RFC 3339 notation, or
/// `None` where `chrono` refuses the text.
pub uninterp spec fn rfc3339_timestamp(text: Seq<char>) -> Option<Timestamp>;

/// `chrono::DateTime::parse_from_rfc3339`. The result is a function of the
/// text alone. The timestamp is handed over as `chrono` splits it: seconds
/// since the epoch, the nanoseconds beyond them, and the offset in seconds.
#[verifier::external_body]
fn parse_rfc3339(text: &str) -> (parsed: Option<Timestamp>)
    ensures
        parsed == rfc3339_timestamp(text@),
{
    match chrono::DateTime::parse_from_rfc3339(text) {
        Ok(time) => Some(
            Timestamp {
                seconds: time.timestamp(),
                nanos: time.timestamp_subsec_nanos(),
                offset: time.offset().local_minus_utc(),
            },
        ),
        Err(_) => None,
    }
}

/// `chrono::Local::now`: the time on this machine's clock, in this machine's
/// time zone. Nothing is claimed of it.
#[verifier::external_body]
fn current_time() -> (now: Timestamp) {
    let now = chrono::Local::now();
    Timestamp {
        seconds: now.timestamp(),
        nanos: now.timestamp_subsec_nanos(),
        offset: now.offset().local_minus_utc(),
    }
}

/// Why no credential could be had.
#[derive(Debug)]
pub enum GCPTokenError {
    /// The tool could not be run, was killed (`-1`), or ended with this
    /// exit code, which is not zero.
    GCloudCommand(i32),
    /// The tool's output is not JSON; the parser's message.
    SerdeError(String),
    /// The tool's output is JSON of another shape than expected.
    MalformedJsonCreds(&'static str),
    /// The expiration is not a timestamp in RFC 3339 notation.
    ISOParse(),
}

/// The mathematical content of a [`GCPTokenError`].
pub enum TokenFailure {
    GCloudCommand(i32),
    SerdeError(Seq<char>),
    MalformedJsonCreds(Seq<char>),
    ISOParse,
}

impl TokenFailure {
    /// The message that describes the failure.
    pub open spec fn text(self) -> Seq<char> {
        match self {
            TokenFailure::GCloudCommand(status) => "The GCloud command exited with error code: '"@
                + decimal(status as int) + "'"@,
            TokenFailure::SerdeError(message) => "Failed to parse JSON becuase: '"@ + message
                + "'"@,
            TokenFailure::MalformedJsonCreds(message) => message,
            TokenFailure::ISOParse => "Failed to parse an ISO Date!"@,
        }
    }
}

impl View for GCPTokenError {
    type V = TokenFailure;

    open spec fn view(&self) -> TokenFailure {
        match self {
            GCPTokenError::GCloudCommand(status) => TokenFailure::GCloudCommand(*status),
            GCPTokenError::SerdeError(message) => TokenFailure::SerdeError(message@),
            GCPTokenError::MalformedJsonCreds(message) => TokenFailure::MalformedJsonCreds(
                message@,
            ),
            GCPTokenError::ISOParse() => TokenFailure::ISOParse,
        }
    }
}

impl GCPTokenError {
    /// The message that describes the failure.
    pub fn to_string(&self) -> (text: String)
        ensures
            text@ == self@.text(),
    {
        match self {
            GCPTokenError::GCloudCommand(status) => {
                let mut text = String::from_str("The GCloud command exited with error code: '");
                push_decimal(&mut text, *status as i64);
                text.append("'");
                text
            },
            GCPTokenError::SerdeError(message) => {
                let mut text = String::from_str("Failed to parse JSON becuase: '");
                text.append(message.as_str());
                text.append("'");
                text
            },
            GCPTokenError::MalformedJsonCreds(message) => String::from_str(message),
            GCPTokenError::ISOParse() => String::from_str("Failed to parse an ISO Date!"),
        }
    }
}

/// The token and the text of its expiration, as a document of the
/// credential tool holds them: an object with a member `credential`, itself
/// an object whose members `access_token` and `token_expiry` are strings.
/// Any other shape is malformed, and the message says at which step.
pub open spec fn credential_members(document: JsonModel) -> Result<
    (Seq<char>, Seq<char>),
    TokenFailure,
> {
    if document.members() is None {
        Err(TokenFailure::MalformedJsonCreds("Expected object."@))
    } else if lookup(document.members()->0, "credential"@) is None {
        Err(TokenFailure::MalformedJsonCreds("Failed to find 'credential' in json object."@))
    } else {
        let credential = lookup(document.members()->0, "credential"@)->0;
        if credential.members() is None {
            Err(TokenFailure::MalformedJsonCreds("Expected object."@))
        } else {
            let members = credential.members()->0;
            if lookup(members, "access_token"@) is None {
                Err(
                    TokenFailure::MalformedJsonCreds(
                        "Expected object containing property: 'access_token'."@,
                    ),
                )
            } else if lookup(members, "access_token"@)->0.text() is None {
                Err(
                    TokenFailure::MalformedJsonCreds(
                        "Expected string in property: 'access_token', instead found something else"@,
                    ),
                )
            } else if lookup(members, "token_expiry"@) is None {
                Err(TokenFailure::MalformedJsonCreds("Failed to find property: 'token_expiry'"@))
            } else if lookup(members, "token_expiry"@)->0.text() is None {
                Err(TokenFailure::MalformedJsonCreds("Property token_expiry should be a string"@))
            } else {
                Ok(
                    (
                        lookup(members, "access_token"@)->0.text()->0,
                        lookup(members, "token_expiry"@)->0.text()->0,
                    ),
                )
            }
        }
    }
}

/// Reads the token and the text of its expiration from a document of the
/// credential tool.
pub fn credential_fields(document: &JsonValue) -> (fields: Result<(String, String), GCPTokenError>)
    ensures
        match fields {
            Ok((token, expiry)) => credential_members(document@) == Ok::<
                (Seq<char>, Seq<char>),
                TokenFailure,
            >((token@, expiry@)),
            Err(error) => credential_members(document@) == Err::<
                (Seq<char>, Seq<char>),
                TokenFailure,
            >(error@),
        },
{
    let top = match document.members() {
        Some(members) => members,
        None => { return Err(GCPTokenError::MalformedJsonCreds("Expected object.")); },
    };
    let credential = match member(top, "credential") {
        Some(value) => value,
        None => {
            return Err(
                GCPTokenError::MalformedJsonCreds("Failed to find 'credential' in json object."),
            );
        },
    };
    let members = match credential.members() {
        Some(members) => members,
        None => { return Err(GCPTokenError::MalformedJsonCreds("Expected object.")); },
    };
    let access_token = match member(members, "access_token") {
        Some(value) => value,
        None => {
            return Err(
                GCPTokenError::MalformedJsonCreds(
                    "Expected object containing property: 'access_token'.",
                ),
            );
        },
    };
    let token = match access_token.text() {
        Some(text) => text,
        None => {
            return Err(
                GCPTokenError::MalformedJsonCreds(
                    "Expected string in property: 'access_token', instead found something else",
                ),
            );
        },
    };
    let token_expiry = match member(members, "token_expiry") {
        Some(value) => value,
        None => {
            return Err(
                GCPTokenError::MalformedJsonCreds("Failed to find property: 'token_expiry'"),
            );
        },
    };
    let expiry = match token_expiry.text() {
        Some(text) => text,
        None => {
            return Err(
                GCPTokenError::MalformedJsonCreds("Property token_expiry should be a string"),
            );
        },
    };
    Ok((token.clone(), expiry.clone()))
}

/// The expiration that a text in RFC 3339 notation gives.
pub open spec fn expiration_of(text: Seq<char>) -> Result<Timestamp, TokenFailure> {
    match rfc3339_timestamp(text) {
        Some(time) => Ok(time),
        None => Err(TokenFailure::ISOParse),
    }
}

/// Reads an expiration in RFC 3339 notation.
pub fn parse_expiration(text: &str) -> (expiration: Result<Timestamp, GCPTokenError>)
    ensures
        match expiration {
            Ok(time) => expiration_of(text@) == Ok::<Timestamp, TokenFailure>(time),
            Err(error) => expiration_of(text@) == Err::<Timestamp, TokenFailure>(error@),
        },
{
    match parse_rfc3339(text) {
        Some(time) => Ok(time),
        None => Err(GCPTokenError::ISOParse()),
    }
}

/// The credential that one run of the credential tool gives: the exit code
/// decides first (`None` stands for a run that did not start or did not
/// end by itself), then the output as JSON, then the shape of the document,
/// then the notation of the expiration.
pub open spec fn provider_credential(exit_code: Option<i32>, output: Seq<u8>) -> Result<
    (Seq<char>, Timestamp),
    TokenFailure,
> {
    if exit_code is None {
        Err(TokenFailure::GCloudCommand(-1i32))
    } else if exit_code->0 != 0 {
        Err(TokenFailure::GCloudCommand(exit_code->0))
    } else {
        match json_document(output) {
            Err(message) => Err(TokenFailure::SerdeError(message)),
            Ok(document) => match credential_members(document) {
                Err(failure) => Err(failure),
                Ok((token, expiry)) => match expiration_of(expiry) {
                    Err(failure) => Err(failure),
                    Ok(time) => Ok((token, time)),
                },
            },
        }
    }
}

/// Whether `found` is the executable form of `wanted`.
pub open spec fn credential_is(
    found: Result<(String, Timestamp), GCPTokenError>,
    wanted: Result<(Seq<char>, Timestamp), TokenFailure>,
) -> bool {
    match found {
        Ok((token, expiration)) => wanted == Ok::<(Seq<char>, Timestamp), TokenFailure>(
            (token@, expiration),
        ),
        Err(error) => wanted == Err::<(Seq<char>, Timestamp), TokenFailure>(error@),
    }
}

/// Reads the credential from the exit code and the output of one run of the
/// credential tool.
pub fn retrieve_creds_internal(exit_code: Option<i32>, output: &[u8]) -> (credential: Result<
    (String, Timestamp),
    GCPTokenError,
>)
    ensures
        credential_is(credential, provider_credential(exit_code, output@)),
{
    match exit_code {
        None => { return Err(GCPTokenError::GCloudCommand(-1)); },
        Some(code) => {
            if code != 0 {
                return Err(GCPTokenError::GCloudCommand(code));
            }
        },
    }
    let document = match parse(output) {
        Ok(document) => document,
        Err(message) => { return Err(GCPTokenError::SerdeError(message)); },
    };
    let (token, expiry) = match credential_fields(&document) {
        Ok(fields) => fields,
        Err(error) => { return Err(error); },
    };
    match parse_expiration(expiry.as_str()) {
        Ok(expiration) => Ok((token, expiration)),
        Err(error) => Err(error),
    }
}

/// A bearer token and its expiration. A credential is made once and never
/// changed: a fresh one takes its place.
pub struct Credential {
    key: String,
    expiration: Timestamp,
}

/// The mathematical content of a [`Credential`].
pub struct CredentialView {
    pub key: Seq<char>,
    pub expiration: Timestamp,
}

impl View for Credential {
    type V = CredentialView;

    closed spec fn view(&self) -> CredentialView {
        CredentialView { key: self.key@, expiration: self.expiration }
    }
}

impl Credential {
    pub fn new(key: String, expiration: Timestamp) -> (credential: Credential)
        ensures
            credential@.key == key@,
            credential@.expiration == expiration,
    {
        Credential { key, expiration }
    }

    /// The token.
    pub fn key(&self) -> (key: &String)
        ensures
            key@ == self@.key,
    {
        &self.key
    }

    /// The time at which the token expires.
    pub fn expiration(&self) -> (expiration: Timestamp)
        ensures
            expiration == self@.expiration,
    {
        self.expiration
    }
}

/// The token cache: the user name that goes with every token, the current
/// credential, and the length of the guard window in minutes.
pub struct ArtifactRegistryCreds {
    pub user: &'static str,
    pub inner: Credential,
    pub guard_minutes: u64,
}

impl ArtifactRegistryCreds {
    /// Nanoseconds from `now` to the expiration; negative once it has passed.
    pub open spec fn remaining(&self, now: Timestamp) -> int {
        self.inner@.expiration.instant() - now.instant()
    }

    /// Whether at `now` the token is inside the guard window: no more than
    /// the window's length is left before the expiration.
    pub open spec fn expiring(&self, now: Timestamp) -> bool {
        self.remaining(now) <= self.guard_minutes * 60_000_000_000
    }

    /// What the cache answers at `now`: the token, or `None` where it has to
    /// be refreshed first.
    pub open spec fn answer_at(&self, now: Timestamp) -> Option<Seq<char>> {
        if self.expiring(now) {
            None
        } else {
            Some(self.inner@.key)
        }
    }

    /// Whether this cache is `before` with the credential replaced by the
    /// given one: user name and guard window are those of `before`.
    pub open spec fn supersedes(
        &self,
        before: &ArtifactRegistryCreds,
        key: Seq<char>,
        expiration: Timestamp,
    ) -> bool {
        &&& self.user == before.user
        &&& self.guard_minutes == before.guard_minutes
        &&& self.inner@.key == key
        &&& self.inner@.expiration == expiration
    }

    /// A cache that holds the given credential, with the fixed user name and
    /// the default guard window.
    pub fn new(key: String, expiration: Timestamp) -> (creds: ArtifactRegistryCreds)
        ensures
            creds.user@ == TOKEN_USER@,
            creds.inner@.key == key@,
            creds.inner@.expiration == expiration,
            creds.guard_minutes == REFRESH_GUARD_MINUTES,
    {
        ArtifactRegistryCreds {
            user: TOKEN_USER,
            inner: Credential::new(key, expiration),
            guard_minutes: REFRESH_GUARD_MINUTES,
        }
    }

    /// A description of the cache for a log. It names the user and keeps the
    /// credential to itself.
    pub fn to_string(&self) -> (text: String)
        ensures
            text@ == "ArtifactRegistryCreds(\n   user="@ + self.user@
                + ",\n   key=<***>,\n   expiration=<***>\n)"@,
    {
        let mut text = String::from_str("ArtifactRegistryCreds(\n   user=");
        text.append(self.user);
        text.append(",\n   key=<***>,\n   expiration=<***>\n)");
        text
    }

    /// The token, if at `now` more than the guard window is left before it
    /// expires. `None` asks the caller to obtain a fresh credential and to
    /// install it with [`Self::refresh`].
    pub fn get_key_at(&self, now: &Timestamp) -> (token: Option<String>)
        ensures
            match token {
                Some(key) => self.answer_at(*now) == Some(key@),
                None => self.answer_at(*now) is None,
            },
    {
        let remaining = self.inner.expiration().instant_nanos() - now.instant_nanos();
        let guard = self.guard_minutes as i128 * 60_000_000_000;
        if remaining <= guard {
            None
        } else {
            Some(self.inner.key().clone())
        }
    }

    /// The token, if by this machine's clock more than the guard window is
    /// left before it expires. What the clock says is not known beforehand:
    /// the answer is the one that [`Self::get_key_at`] gives for some time.
    pub fn get_key(&self) -> (token: Option<String>)
        ensures
            exists|now: Timestamp|
                match token {
                    Some(key) => #[trigger] self.answer_at(now) == Some(key@),
                    None => self.answer_at(now) is None,
                },
    {
        let now = current_time();
        self.get_key_at(&now)
    }

    /// Installs a fresh credential and hands out its token. Where no fresh
    /// credential could be had, the cache stays as it is and the failure is
    /// passed on.
    pub fn refresh(&mut self, fresh: Result<(String, Timestamp), GCPTokenError>) -> (token: Result<
        String,
        GCPTokenError,
    >)
        ensures
            match fresh {
                Ok((key, expiration)) => {
                    &&& final(self).supersedes(old(self), key@, expiration)
                    &&& token matches Ok(handed) && handed@ == key@
                },
                Err(error) => {
                    &&& *final(self) == *old(self)
                    &&& token matches Err(passed) && passed@ == error@
                },
            },
    {
        match fresh {
            Ok((key, expiration)) => {
                let handed = key.clone();
                self.inner = Credential::new(key, expiration);
                Ok(handed)
            },
            Err(error) => Err(error),
        }
    }
}

/// While more than the guard window is left before the expiration, the
/// cache answers with the token it holds: no fresh credential is asked for.
pub proof fn lemma_fresh_token_is_served(creds: ArtifactRegistryCreds, now: Timestamp)
    requires
        creds.remaining(now) > creds.guard_minutes * 60_000_000_000,
    ensures
        creds.answer_at(now) == Some(creds.inner@.key),
{
}

/// Once no more than the guard window is left, the cache gives no token and
/// so asks for one fresh credential. After that credential is installed the
/// cache reports its expiration, and answers with its token at every time at
/// which more than the guard window is left before that expiration.
pub proof fn lemma_expiring_token_is_replaced(
    before: ArtifactRegistryCreds,
    after: ArtifactRegistryCreds,
    now: Timestamp,
    key: Seq<char>,
    expiration: Timestamp,
    later: Timestamp,
)
    requires
        before.remaining(now) <= before.guard_minutes * 60_000_000_000,
        after.supersedes(&before, key, expiration),
    ensures
        before.answer_at(now) is None,
        after.inner@.expiration == expiration,
        expiration.instant() - later.instant() > before.guard_minutes * 60_000_000_000
            ==> after.answer_at(later) == Some(key),
{
}

/// Whether `cache` is what a run of the credential tool with the result
/// `credential` leaves: a cache with that credential, the fixed user name
/// and the default guard window, or the failure.
pub open spec fn cache_holds(
    cache: Result<ArtifactRegistryCreds, GCPTokenError>,
    credential: Result<(Seq<char>, Timestamp), TokenFailure>,
) -> bool {
    match cache {
        Ok(creds) => {
            &&& credential == Ok::<(Seq<char>, Timestamp), TokenFailure>(
                (creds.inner@.key, creds.inner@.expiration),
            )
            &&& creds.user@ == TOKEN_USER@
            &&& creds.guard_minutes == REFRESH_GUARD_MINUTES
        },
        Err(error) => credential == Err::<(Seq<char>, Timestamp), TokenFailure>(error@),
    }
}

/// Makes the token cache from the exit code and the output of one run of the
/// credential tool.
pub fn retrieve_creds(exit_code: Option<i32>, output: &[u8]) -> (creds: Result<
    ArtifactRegistryCreds,
    GCPTokenError,
>)
    ensures
        cache_holds(creds, provider_credential(exit_code, output@)),
{
    match retrieve_creds_internal(exit_code, output) {
        Ok((key, expiration)) => Ok(ArtifactRegistryCreds::new(key, expiration)),
        Err(error) => Err(error),
    }
}

} // verus!
