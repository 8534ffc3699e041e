//! Access to the local interface of a client.

use vstd::prelude::*;
use vstd::utf8::{decode_utf8, encode_utf8, valid_utf8};
use base64::engine::general_purpose::STANDARD;
use base64::Engine;
use crate::endpoint::{opt_str, opt_text};
use crate::text::{
    chars_of, concat3, find_from, has_prefix, index_from, same, string_of, strip_prefix,
};

verus! {

/// The bytes that a text stands for in the standard Base64 alphabet with padding,
/// where it is one.
pub uninterp spec fn base64_bytes(text: Seq<char>) -> Option<Seq<u8>>;

/// `base64::engine::general_purpose::STANDARD.decode` gives the bytes that the text
/// stands for, or an error. What it gives depends on the text alone.
#[verifier::external_body]
fn base64_decode(text: &str) -> (r: Option<Vec<u8>>)
    ensures
        match r {
            Some(v) => base64_bytes(text@) == Some(v@),
            None => base64_bytes(text@) is None,
        },
{
    STANDARD.decode(text).ok()
}

/// `String::from_utf8` gives the text that the bytes encode, or an error where they
/// are not UTF-8.
#[verifier::external_body]
pub(crate) fn utf8_text(bytes: Vec<u8>) -> (r: Option<String>)
    ensures
        match r {
            Some(s) => valid_utf8(bytes@) && s@ == decode_utf8(bytes@),
            None => !valid_utf8(bytes@),
        },
{
    String::from_utf8(bytes).ok()
}

/// The password behind the first colon of `user:password`.
pub open spec fn password_of(credentials: Seq<char>) -> Option<Seq<char>> {
    let k = index_from(credentials, ':', 0);
    if k < credentials.len() {
        Some(credentials.skip(k + 1))
    } else {
        None
    }
}

/// The credentials that decoded bytes hold.
pub open spec fn credentials_of(decoded: Option<Seq<u8>>) -> Option<Seq<char>> {
    match decoded {
        Some(b) => if valid_utf8(b) {
            Some(decode_utf8(b))
        } else {
            None
        },
        None => None,
    }
}

/// The decoded bytes are credentials whose password is the token.
pub open spec fn basic_allows(decoded: Option<Seq<u8>>, token: Seq<char>) -> bool {
    match credentials_of(decoded) {
        Some(c) => password_of(c) == Some(token),
        None => false,
    }
}

/// An `Authorization` header gives access: it bears the token, or credentials
/// whose password is the token.
pub open spec fn header_allows(value: Seq<char>, token: Seq<char>) -> bool {
    ||| value == "Bearer "@ + token
    ||| has_prefix(value, "Basic "@) && basic_allows(
        base64_bytes(value.skip("Basic "@.len() as int)),
        token,
    )
}

/// Tells whether decoded bytes are credentials whose password is the token. The
/// user name does not matter.
pub fn basic_credentials_match(decoded: Option<Vec<u8>>, token: &str) -> (r: bool)
    ensures
        r == basic_allows(
            match decoded {
                Some(v) => Some(v@),
                None => None,
            },
            token@,
        ),
{
    match decoded {
        None => false,
        Some(bytes) => match utf8_text(bytes) {
            None => false,
            Some(credentials) => {
                let v = chars_of(credentials.as_str());
                let n = v.len();
                let k = find_from(&v, ':', 0);
                if k < n {
                    let password = string_of(&v, k + 1, n);
                    proof {
                        assert(v@.subrange(k + 1, n as int) =~= v@.skip(k + 1));
                    }
                    same(password.as_str(), token)
                } else {
                    false
                }
            },
        },
    }
}

/// Tells whether an `Authorization` header gives access.
pub fn authorization_matches(header: Option<&str>, token: &str) -> (r: bool)
    ensures
        r == match opt_str(header) {
            Some(value) => header_allows(value, token@),
            None => false,
        },
{
    let value = match header {
        Some(v) => v,
        None => {
            return false;
        },
    };
    match strip_prefix(value, "Bearer ") {
        Some(provided) => {
            if same(provided.as_str(), token) {
                proof {
                    assert(value@ =~= "Bearer "@ + value@.skip("Bearer "@.len() as int));
                }
                return true;
            }
        },
        None => {},
    }
    proof {
        if value@ == "Bearer "@ + token@ {
            assert(value@.take("Bearer "@.len() as int) =~= "Bearer "@);
            assert(value@.skip("Bearer "@.len() as int) =~= token@);
        }
    }
    match strip_prefix(value, "Basic ") {
        Some(encoded) => basic_credentials_match(base64_decode(encoded.as_str()), token),
        None => false,
    }
}

/// Who may use a local interface.
#[derive(Debug, Clone)]
pub struct LocalHttpAuth {
    token: Option<String>,
    realm: String,
}

impl Default for LocalHttpAuth {
    fn default() -> (r: Self)
        ensures
            r.secret() is None,
            r.realm_text().len() == 0,
    {
        LocalHttpAuth::disabled()
    }
}

impl LocalHttpAuth {
    /// The token that gives access; none where everybody has it.
    pub closed spec fn secret(self) -> Option<Seq<char>> {
        opt_text(self.token)
    }

    /// The name that the interface gives itself when it asks for credentials.
    pub closed spec fn realm_text(self) -> Seq<char> {
        self.realm@
    }

    /// Everybody may use the interface.
    pub fn disabled() -> (r: Self)
        ensures
            r.secret() is None,
            r.realm_text().len() == 0,
    {
        LocalHttpAuth { token: None, realm: String::new() }
    }

    /// Only who bears the token may use the interface. An empty token is none.
    pub fn token(token: &str, realm: &str) -> (r: Self)
        ensures
            r.secret() == if token@.len() == 0 {
                None
            } else {
                Some(token@)
            },
            r.realm_text() == realm@,
    {
        let realm = crate::text::owned(realm);
        if token.is_empty() {
            LocalHttpAuth { token: None, realm }
        } else {
            LocalHttpAuth { token: Some(crate::text::owned(token)), realm }
        }
    }

    /// Tells whether a token is asked for.
    pub fn is_enabled(&self) -> (r: bool)
        ensures
            r == (self.secret() is Some),
    {
        self.token.is_some()
    }

    /// Tells whether a request with that `Authorization` header is let in.
    pub fn authorizes(&self, header: Option<&str>) -> (r: bool)
        ensures
            r == match self.secret() {
                None => true,
                Some(token) => match opt_str(header) {
                    Some(value) => header_allows(value, token),
                    None => false,
                },
            },
    {
        match &self.token {
            None => true,
            Some(token) => authorization_matches(header, token.as_str()),
        }
    }

    /// The value of the header that asks for credentials.
    pub fn challenge(&self) -> (r: String)
        ensures
            r@ == "Basic realm=\""@ + self.realm_text() + "\", charset=\"UTF-8\""@,
    {
        concat3("Basic realm=\"", self.realm.as_str(), "\", charset=\"UTF-8\"")
    }
}

/// Without a header nobody is let in where a token is asked for, and the token
/// itself always lets in.
pub proof fn the_token_gives_access(token: Seq<char>, other: Seq<char>)
    ensures
        header_allows("Bearer "@ + token, token),
        header_allows("Bearer "@ + other, token) ==> other == token,
{
    reveal_strlit("Bearer ");
    reveal_strlit("Basic ");
    let v = "Bearer "@ + other;
    if header_allows(v, token) {
        if v == "Bearer "@ + token {
            assert(v.skip("Bearer "@.len() as int) =~= other);
            assert(("Bearer "@ + token).skip("Bearer "@.len() as int) =~= token);
        } else {
            assert(v.take("Basic "@.len() as int)[1] == 'e');
            assert("Basic "@[1] == 'a');
        }
    }
}

} // verus!
