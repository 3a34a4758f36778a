//! The credentials that a client of the proxy has to present.
//!
//! A client authenticates with the `Basic` scheme: the header
//! `Authorization: Basic <payload>`, where the payload is the base64 form of
//! `user:key`. There is one configured pair. A request is admitted where its
//! header gives exactly that pair, byte for byte.

use base64::Engine;
use crate::text::{range_is, strip_prefix, without_prefix};
use vstd::prelude::*;
use vstd::utf8::encode_utf8;

verus! {

/// The bytes that `base64`'s standard engine decodes a text to, or `None`
/// where the engine refuses the text.
pub uninterp spec fn base64_decoding(text: Seq<char>) -> Option<Seq<u8>>;

/// `base64::Engine::decode` of `base64::prelude::BASE64_STANDARD`. The result
/// is a function of the text alone.
#[verifier::external_body]
fn base64_decode(text: &str) -> (decoded: Option<Vec<u8>>)
    ensures
        match decoded {
            Some(bytes) => base64_decoding(text@) == Some(bytes@),
            None => base64_decoding(text@) is None,
        },
{
    match base64::prelude::BASE64_STANDARD.decode(text) {
        Ok(bytes) => Some(bytes),
        Err(_) => None,
    }
}

/// The byte that parts the user name from the key: a colon.
pub const COLON: u8 = 58;

/// The configured pair of user name and key.
#[derive(Debug)]
pub struct ApiCredentials {
    pub user: String,
    pub key: String,
}

impl ApiCredentials {
    /// Whether `pair` is `user:key` for these credentials. The user name ends
    /// at the first colon; the key is all that follows it.
    pub open spec fn accepts(&self, pair: Seq<u8>) -> bool {
        match pair.index_of_first(COLON) {
            Some(colon) => {
                &&& pair.take(colon) == encode_utf8(self.user@)
                &&& pair.skip(colon + 1) == encode_utf8(self.key@)
            },
            None => false,
        }
    }

    /// Whether a request with the given `Authorization` header, if it has
    /// one, is admitted: the header is `Basic `, followed by base64 that
    /// decodes to a pair which these credentials accept.
    pub open spec fn admits(&self, authorization: Option<Seq<char>>) -> bool {
        match authorization {
            None => false,
            Some(header) => match without_prefix(header, "Basic "@) {
                None => false,
                Some(payload) => match base64_decoding(payload) {
                    None => false,
                    Some(pair) => self.accepts(pair),
                },
            },
        }
    }

    /// Tests a decoded pair against these credentials.
    pub fn verify(&self, pair: &[u8]) -> (accepted: bool)
        ensures
            accepted == self.accepts(pair@),
    {
        let mut colon: usize = 0;
        while colon < pair.len() && pair[colon] != COLON
            invariant
                colon <= pair.len(),
                forall|j: int| 0 <= j < colon ==> pair@[j] != COLON,
            decreases pair.len() - colon,
        {
            colon = colon + 1;
        }
        proof {
            pair@.index_of_first_ensures(COLON);
            if colon < pair.len() {
                assert(pair@.contains(COLON));
            }
        }
        if colon == pair.len() {
            return false;
        }
        assert(pair@.index_of_first(COLON) == Some(colon as int));
        assert(pair@.take(colon as int) == pair@.subrange(0, colon as int));
        assert(pair@.skip(colon + 1) == pair@.subrange(colon + 1, pair.len() as int));
        range_is(pair, 0, colon, self.user.as_str().as_bytes()) && range_is(
            pair,
            colon + 1,
            pair.len(),
            self.key.as_str().as_bytes(),
        )
    }

    /// Admits or turns away a request by its `Authorization` header. The
    /// result is these credentials where the request is admitted, and `None`
    /// where it is to be answered with status 401.
    pub fn from_request<'a>(&'a self, authorization: Option<&str>) -> (admitted: Option<
        &'a ApiCredentials,
    >)
        ensures
            admitted is Some <==> self.admits(
                match authorization {
                    Some(header) => Some(header@),
                    None => None,
                },
            ),
            admitted matches Some(creds) ==> creds == self,
    {
        let header = match authorization {
            Some(header) => header,
            None => { return None; },
        };
        let payload = match strip_prefix(header, "Basic ") {
            Some(payload) => payload,
            None => { return None; },
        };
        let pair = match base64_decode(payload.as_str()) {
            Some(pair) => pair,
            None => { return None; },
        };
        if self.verify(pair.as_slice()) {
            Some(self)
        } else {
            None
        }
    }
}

} // verus!
