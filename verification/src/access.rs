//! Who may use the API.

use crate::config::AuthConfig;
use crate::text::{same_text, strip_prefix};
use vstd::prelude::*;

verus! {

/// Why a request is refused.
#[derive(Debug, Clone, Copy, PartialEq, Eq, Structural)]
pub enum Rejection {
    MalformedKey,
    MalformedAuthorization,
    MissingKey,
    InvalidKey,
}

impl Rejection {
    /// The HTTP status of the answer.
    pub open spec fn status_code(self) -> u16 {
        match self {
            Rejection::MalformedKey | Rejection::MalformedAuthorization => 400,
            Rejection::MissingKey | Rejection::InvalidKey => 401,
        }
    }

    /// The body of the answer.
    pub open spec fn reason(self) -> Seq<char> {
        match self {
            Rejection::MalformedKey => "Malformed API key"@,
            Rejection::MalformedAuthorization => "Malformed Authorization header"@,
            Rejection::MissingKey => "Missing API key"@,
            Rejection::InvalidKey => "Invalid API key"@,
        }
    }

    /// The HTTP status of the answer.
    pub fn status(&self) -> (r: u16)
        ensures
            r == self.status_code(),
    {
        match self {
            Rejection::MalformedKey | Rejection::MalformedAuthorization => 400,
            Rejection::MissingKey | Rejection::InvalidKey => 401,
        }
    }

    /// The body of the answer.
    pub fn message(&self) -> (r: &'static str)
        ensures
            r@ == self.reason(),
    {
        match self {
            Rejection::MalformedKey => "Malformed API key",
            Rejection::MalformedAuthorization => "Malformed Authorization header",
            Rejection::MissingKey => "Missing API key",
            Rejection::InvalidKey => "Invalid API key",
        }
    }
}

/// Whether a byte is a visible ASCII character, a space or a tab.
pub open spec fn is_visible(b: u8) -> bool {
    (32 <= b && b < 127) || b == 9
}

/// The text of a header, if it is all visible ASCII.
pub open spec fn header_text_of(value: Seq<u8>) -> Option<Seq<char>> {
    if forall|i: int| 0 <= i < value.len() ==> is_visible(#[trigger] value[i]) {
        Some(value.map_values(|b: u8| b as char))
    } else {
        None
    }
}

/// The text of a header, through `axum::http::HeaderValue::to_str`.
///
/// Trusted: there is one when every byte is a visible ASCII character, a space
/// or a tab, and its characters are those of the bytes. Bytes that are no header
/// have none.
#[verifier::external_body]
fn header_text(value: &[u8]) -> (r: Option<String>)
    ensures
        match r {
            Some(text) => header_text_of(value@) == Some(text@),
            None => header_text_of(value@) is None,
        },
{
    match axum::http::HeaderValue::from_bytes(value) {
        Ok(header) => header.to_str().ok().map(str::to_string),
        Err(_) => None,
    }
}

/// What precedes the token in an Authorization header.
pub open spec fn bearer() -> Seq<char> {
    "Bearer "@
}

/// The token that a request brings: its API key, or else the bearer of its
/// Authorization header.
pub open spec fn token_of(api_key: Option<Seq<u8>>, authorization: Option<Seq<u8>>) -> Result<
    Seq<char>,
    Rejection,
> {
    match (api_key, authorization) {
        (Some(value), _) => match header_text_of(value) {
            Some(token) => Ok(token),
            None => Err(Rejection::MalformedKey),
        },
        (None, Some(value)) => match header_text_of(value) {
            Some(text) => if bearer().is_prefix_of(text) {
                Ok(text.skip(bearer().len() as int))
            } else {
                Err(Rejection::MalformedAuthorization)
            },
            None => Err(Rejection::MalformedAuthorization),
        },
        (None, None) => Err(Rejection::MissingKey),
    }
}

/// Whether `key` is one of the keys.
pub open spec fn is_key(keys: Seq<String>, key: Seq<char>) -> bool {
    exists|i: int| 0 <= i < keys.len() && (#[trigger] keys[i])@ == key
}

/// Whether a request is let in, when keys are asked for.
pub open spec fn authorized(
    keys: Seq<String>,
    api_key: Option<Seq<u8>>,
    authorization: Option<Seq<u8>>,
) -> Result<(), Rejection> {
    match token_of(api_key, authorization) {
        Ok(token) => if is_key(keys, token) {
            Ok(())
        } else {
            Err(Rejection::InvalidKey)
        },
        Err(rejection) => Err(rejection),
    }
}

/// The bytes of a header, if there is one.
pub open spec fn header_bytes(value: Option<&[u8]>) -> Option<Seq<u8>> {
    match value {
        Some(bytes) => Some(bytes@),
        None => None,
    }
}

/// Decides whether a request is let in, by its `X-Api-Key` and `Authorization`
/// headers. Where no keys are set, every request is.
pub fn authorize(
    cfg: Option<&AuthConfig>,
    api_key: Option<&[u8]>,
    authorization: Option<&[u8]>,
) -> (r: Result<(), Rejection>)
    ensures
        r == match cfg {
            Some(cfg) => authorized(
                cfg.api_keys@,
                header_bytes(api_key),
                header_bytes(authorization),
            ),
            None => Ok(()),
        },
{
    let needed = match cfg {
        Some(needed) => needed,
        None => return Ok(()),
    };
    let token = match (api_key, authorization) {
        (Some(value), _) => match header_text(value) {
            Some(token) => token,
            None => return Err(Rejection::MalformedKey),
        },
        (None, Some(value)) => match header_text(value) {
            Some(text) => match strip_prefix(text.as_str(), "Bearer ") {
                Some(token) => {
                    assert(text@.skip(bearer().len() as int) == token@);
                    assert(bearer().is_prefix_of(text@));
                    token.to_owned()
                },
                None => return Err(Rejection::MalformedAuthorization),
            },
            None => return Err(Rejection::MalformedAuthorization),
        },
        (None, None) => return Err(Rejection::MissingKey),
    };
    for i in 0..needed.api_keys.len()
        invariant
            cfg == Some(needed),
            forall|j: int| 0 <= j < i ==> (#[trigger] needed.api_keys@[j])@ != token@,
            token_of(header_bytes(api_key), header_bytes(authorization)) == Ok::<_, Rejection>(
                token@,
            ),
    {
        if same_text(needed.api_keys[i].as_str(), token.as_str()) {
            assert(needed.api_keys@[i as int]@ == token@);
            return Ok(());
        }
    }
    Err(Rejection::InvalidKey)
}

/// The bytes of what precedes the token in an Authorization header.
pub open spec fn bearer_bytes() -> Seq<u8> {
    seq![66, 101, 97, 114, 101, 114, 32]
}

/// A key opens the API as an API key exactly when it does as a bearer. An API
/// key goes before an Authorization header. Without any keys nothing opens it.
pub proof fn law_key_may_be_sent_either_way(
    keys: Seq<String>,
    key: Seq<u8>,
    authorization: Option<Seq<u8>>,
)
    ensures
        authorized(keys, Some(key), authorization) == authorized(keys, Some(key), None),
        authorized(keys, Some(key), None) is Ok <==> authorized(
            keys,
            None,
            Some(bearer_bytes() + key),
        ) is Ok,
        authorized(Seq::empty(), Some(key), authorization) is Err,
        authorized(Seq::empty(), None, authorization) is Err,
{
    let sent = bearer_bytes() + key;
    reveal_strlit("Bearer ");
    assert forall|i: int| 0 <= i < key.len() implies #[trigger] key[i] == sent[i + 7] by {}
    if header_text_of(key) is Some {
        assert forall|i: int| 0 <= i < sent.len() implies is_visible(#[trigger] sent[i]) by {
            if i >= 7 {
                assert(is_visible(key[i - 7]));
            }
        }
        let text = sent.map_values(|b: u8| b as char);
        assert(text == bearer() + key.map_values(|b: u8| b as char));
        assert(bearer().is_prefix_of(text));
        assert(text.skip(bearer().len() as int) == key.map_values(|b: u8| b as char));
    } else {
        let i = choose|i: int| 0 <= i < key.len() && !is_visible(#[trigger] key[i]);
        assert(!is_visible(sent[i + 7]));
    }
}

/// A header is read as text exactly when every byte of it is a visible ASCII
/// character, a space or a tab, and as the characters of its bytes.
pub proof fn law_headers_are_visible_ascii(value: Seq<u8>)
    ensures
        header_text_of(value) is Some <==> forall|i: int|
            0 <= i < value.len() ==> (32 <= #[trigger] value[i] <= 126 || value[i] == 9),
        header_text_of(value) matches Some(text) ==> text.len() == value.len() && forall|i: int|
            0 <= i < value.len() ==> #[trigger] text[i] as int == value[i] as int,
{
    if header_text_of(value) is Some {
        assert forall|i: int| 0 <= i < value.len() implies (32 <= #[trigger] value[i] <= 126
            || value[i] == 9) by {
            assert(is_visible(value[i]));
        }
        let text = header_text_of(value)->0;
        assert forall|i: int| 0 <= i < value.len() implies #[trigger] text[i] as int
            == value[i] as int by {
            assert(is_visible(value[i]));
            assert(text[i] == value[i] as char);
        }
    }
}

/// Only a request that brings one of the keys, all of it and nothing more, as its
/// API key or as the bearer of its Authorization, is let in; and each that brings
/// one is. An API key is judged whatever the Authorization says.
pub proof fn law_only_the_keys_open_the_api(
    keys: Seq<String>,
    api_key: Seq<u8>,
    token: Seq<char>,
    authorization: Option<Seq<u8>>,
)
    requires
        header_text_of(api_key) == Some(token),
    ensures
        authorized(keys, Some(api_key), authorization) is Ok <==> exists|i: int|
            0 <= i < keys.len() && (#[trigger] keys[i])@ == token,
        authorized(keys, Some(api_key), authorization) matches Err(rejection) ==> rejection
            == Rejection::InvalidKey,
        bearer().len() == 7,
        header_text_of(api_key) == Some("Bearer "@ + token.skip(7)) && token.len() >= 7 ==> (
        authorized(keys, None, Some(api_key)) is Ok <==> exists|i: int|
            0 <= i < keys.len() && (#[trigger] keys[i])@ == token.skip(7)),
{
    reveal_strlit("Bearer ");
    if token == "Bearer "@ + token.skip(7) && token.len() >= 7 {
        assert(bearer().is_prefix_of(token));
    }
}

/// What is wrong with a request is told: a header that is not text, an
/// Authorization that brings no bearer, nothing that brings a key.
pub proof fn law_requests_are_refused_for_a_reason(
    keys: Seq<String>,
    value: Seq<u8>,
    authorization: Option<Seq<u8>>,
)
    ensures
        header_text_of(value) is None ==> authorized(keys, Some(value), authorization)
            == Err::<(), Rejection>(Rejection::MalformedKey),
        header_text_of(value) is None ==> authorized(keys, None, Some(value)) == Err::<
            (),
            Rejection,
        >(Rejection::MalformedAuthorization),
        header_text_of(value) matches Some(text) ==> !"Bearer "@.is_prefix_of(text) ==> authorized(
            keys,
            None,
            Some(value),
        ) == Err::<(), Rejection>(Rejection::MalformedAuthorization),
        authorized(keys, None, None) == Err::<(), Rejection>(Rejection::MissingKey),
        Rejection::MalformedKey.status_code() == 400,
        Rejection::MalformedAuthorization.status_code() == 400,
        Rejection::MissingKey.status_code() == 401,
        Rejection::InvalidKey.status_code() == 401,
        Rejection::MalformedKey.reason() == "Malformed API key"@,
        Rejection::MalformedAuthorization.reason() == "Malformed Authorization header"@,
        Rejection::MissingKey.reason() == "Missing API key"@,
        Rejection::InvalidKey.reason() == "Invalid API key"@,
{
}

} // verus!
