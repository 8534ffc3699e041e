//! Access to the local interface.

use vstd::prelude::*;
use vstd::utf8::{decode_utf8, valid_utf8};

use crate::auth::{
    authorization_matches, base64_bytes, basic_credentials_match, the_token_gives_access,
    LocalHttpAuth,
};

verus! {

/// Credentials give access exactly where they are text with the token behind its first
/// colon.
pub proof fn the_password_is_the_token(
    decoded: Option<Vec<u8>>,
    token: &str,
    r: bool,
    user: Seq<char>,
    password: Seq<char>,
)
    requires
        call_ensures(basic_credentials_match, (decoded, token), r),
        !user.contains(':'),
    ensures
        decoded is None ==> !r,
        decoded is Some && !valid_utf8(decoded->Some_0@) ==> !r,
        decoded is Some && valid_utf8(decoded->Some_0@) && decode_utf8(decoded->Some_0@) == user
            + seq![':'] + password ==> (r <==> password == token@),
        decoded is Some && valid_utf8(decoded->Some_0@) && decode_utf8(decoded->Some_0@) == user
            ==> !r,
{
    if decoded is Some && valid_utf8(decoded->Some_0@) {
        let c = decode_utf8(decoded->Some_0@);
        let k = crate::text::index_from(c, ':', 0);
        crate::text::lemma_index_from(c, ':', 0);
        let n = user.len() as int;
        if c == user + seq![':'] + password {
            assert(c[n] == ':');
            if k < n {
                assert(user[k] == c[k]);
            }
            assert(c.skip(n + 1) =~= password);
        }
        if c == user && k < c.len() {
            assert(user[k] == ':');
        }
    }
}

/// A bearer of the token has access, and a bearer of anything else has not; nothing
/// given is no access.
pub proof fn bearers_of_the_token_have_access(
    header: Option<&str>,
    token: &str,
    r: bool,
    borne: Seq<char>,
)
    requires
        call_ensures(authorization_matches, (header, token), r),
    ensures
        header is None ==> !r,
        header is Some && header->Some_0@ == "Bearer "@ + borne ==> (r <==> borne == token@),
{
    the_token_gives_access(token@, borne);
}

/// Credentials in a header are those that its Base64 text stands for.
pub proof fn basic_headers_hold_credentials(
    header: &str,
    token: &str,
    r: bool,
    coded: Seq<char>,
    decoded: Option<Vec<u8>>,
    matched: bool,
)
    requires
        call_ensures(authorization_matches, (Some(header), token), r),
        header@ == "Basic "@ + coded,
        match decoded {
            Some(v) => base64_bytes(coded) == Some(v@),
            None => base64_bytes(coded) is None,
        },
        call_ensures(basic_credentials_match, (decoded, token), matched),
    ensures
        r <==> matched,
{
    reveal_strlit("Basic ");
    reveal_strlit("Bearer ");
    assert(header@.skip("Basic "@.len() as int) =~= coded);
    assert(header@.take("Basic "@.len() as int) =~= "Basic "@);
    assert(header@[1] == 'a');
    assert(("Bearer "@ + token@)[1] == 'e');
}

/// Any other header gives no access.
pub proof fn other_headers_give_no_access(header: &str, token: &str, r: bool)
    requires
        call_ensures(authorization_matches, (Some(header), token), r),
        r,
    ensures
        (header@.len() >= 7 && header@.take(7) == "Bearer "@) || (header@.len() >= 6
            && header@.take(6) == "Basic "@),
{
    reveal_strlit("Basic ");
    reveal_strlit("Bearer ");
    if header@ == "Bearer "@ + token@ {
        assert(header@.take(7) =~= "Bearer "@);
    }
}

/// Where no token is set everyone has access; where one is, those whose header matches
/// it. An empty token is none.
pub proof fn tokens_close_the_interface(
    token: &str,
    realm: &str,
    auth: LocalHttpAuth,
    enabled: bool,
    header: Option<&str>,
    allowed: bool,
    matched: bool,
    off: LocalHttpAuth,
    open: bool,
    challenge: String,
)
    requires
        call_ensures(LocalHttpAuth::token, (token, realm), auth),
        call_ensures(LocalHttpAuth::is_enabled, (&auth,), enabled),
        call_ensures(LocalHttpAuth::authorizes, (&auth, header), allowed),
        call_ensures(authorization_matches, (header, token), matched),
        call_ensures(LocalHttpAuth::disabled, (), off),
        call_ensures(LocalHttpAuth::authorizes, (&off, header), open),
        call_ensures(LocalHttpAuth::challenge, (&auth,), challenge),
    ensures
        enabled <==> token@.len() > 0,
        !enabled ==> allowed,
        enabled ==> (allowed <==> matched),
        open,
        challenge@ == "Basic realm=\""@ + realm@ + "\", charset=\"UTF-8\""@,
{
}

} // verus!
