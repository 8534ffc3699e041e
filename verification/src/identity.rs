//! Who a client is: the id that it keeps, and where it keeps it.

use vstd::prelude::*;
use crate::endpoint::{filled, opt_str};
use crate::text::{blank, is_blank, is_digit, owned, texts, trimmed};

verus! {

/// A digit of the text form of a UUID.
pub open spec fn is_uuid_digit(c: char) -> bool {
    is_digit(c) || 'a' <= c <= 'f'
}

/// The text form of a random UUID: 32 digits in five groups.
pub open spec fn is_random_uuid(s: Seq<char>) -> bool {
    &&& s.len() == 36
    &&& forall|i: int|
        0 <= i < 36 ==> if i == 8 || i == 13 || i == 18 || i == 23 {
            #[trigger] s[i] == '-'
        } else {
            is_uuid_digit(s[i])
        }
    &&& s[14] == '4'
    &&& (s[19] == '8' || s[19] == '9' || s[19] == 'a' || s[19] == 'b')
}

/// `uuid::Uuid::new_v4` makes a UUID out of random bits, of which it sets the
/// version and the variant, and `to_string` writes it in its hyphenated form with
/// lower-case digits. Nothing is claimed of the other digits.
#[verifier::external_body]
fn random_uuid() -> (r: String)
    ensures
        is_random_uuid(r@),
{
    uuid::Uuid::new_v4().to_string()
}

/// Why a client has no id.
#[derive(Debug, Clone, Copy, PartialEq, Eq, Structural)]
pub enum IdentityError {
    /// The stored id is blank.
    EmptyStoredId,
}

/// An id that is to be used, and whether it has to be stored first.
#[derive(Debug)]
pub struct ClientIdentity {
    pub client_uid: String,
    pub fresh: bool,
}

/// The id that is to be used: one given by the operator, else the stored one, else
/// the fresh one.
pub fn choose_client_uid(
    override_uid: Option<&str>,
    stored: Option<String>,
    fresh: String,
) -> (r: Result<ClientIdentity, IdentityError>)
    ensures
        match filled(opt_str(override_uid)) {
            Some(uid) => r is Ok && r->Ok_0.client_uid@ == uid && !r->Ok_0.fresh,
            None => match stored {
                Some(uid) => if is_blank(uid@) {
                    r == Err::<ClientIdentity, IdentityError>(IdentityError::EmptyStoredId)
                } else {
                    r is Ok && r->Ok_0.client_uid == uid && !r->Ok_0.fresh
                },
                None => r is Ok && r->Ok_0.client_uid == fresh && r->Ok_0.fresh,
            },
        },
{
    match override_uid {
        Some(uid) => {
            let t = trimmed(uid);
            if !t.as_str().is_empty() {
                return Ok(ClientIdentity { client_uid: t, fresh: false });
            }
        },
        None => {},
    }
    match stored {
        Some(uid) => {
            if blank(uid.as_str()) {
                Err(IdentityError::EmptyStoredId)
            } else {
                Ok(ClientIdentity { client_uid: uid, fresh: false })
            }
        },
        None => Ok(ClientIdentity { client_uid: fresh, fresh: true }),
    }
}

/// The id of a client: one given by the operator, else the stored one, else a new
/// one at random, which has to be stored.
pub fn load_or_create_client_uid(override_uid: Option<&str>, stored: Option<String>) -> (r: Result<
    ClientIdentity,
    IdentityError,
>)
    ensures
        match filled(opt_str(override_uid)) {
            Some(uid) => r is Ok && r->Ok_0.client_uid@ == uid && !r->Ok_0.fresh,
            None => match stored {
                Some(uid) => if is_blank(uid@) {
                    r == Err::<ClientIdentity, IdentityError>(IdentityError::EmptyStoredId)
                } else {
                    r is Ok && r->Ok_0.client_uid == uid && !r->Ok_0.fresh
                },
                None => r is Ok && is_random_uuid(r->Ok_0.client_uid@) && r->Ok_0.fresh,
            },
        },
{
    let given = match override_uid {
        Some(uid) => !blank(uid),
        None => false,
    };
    if given || stored.is_some() {
        choose_client_uid(override_uid, stored, String::new())
    } else {
        choose_client_uid(override_uid, stored, random_uuid())
    }
}

/// The system that a client runs on.
#[derive(Debug, Clone, Copy, PartialEq, Eq, Structural)]
pub enum IdentityPlatform {
    Windows,
    Macos,
    Other,
}

fn three(base: &str, a: &str, b: &str) -> (r: Vec<String>)
    ensures
        texts(r@) == seq![base@, a@, b@],
{
    let mut v: Vec<String> = Vec::new();
    v.push(owned(base));
    v.push(owned(a));
    v.push(owned(b));
    proof {
        assert(texts(v@) =~= seq![base@, a@, b@]);
    }
    v
}

/// The components of the path at which a client keeps its id, from the settings
/// of the environment that name the user's directories.
pub open spec fn identity_path(
    platform: IdentityPlatform,
    appdata: Option<Seq<char>>,
    xdg: Option<Seq<char>>,
    home: Option<Seq<char>>,
) -> Seq<Seq<char>> {
    if platform == IdentityPlatform::Windows {
        match appdata {
            Some(dir) => seq![dir, "Intercom Suite"@, "client-identity.json"@],
            None => seq!["intercom-client-identity.json"@],
        }
    } else if platform == IdentityPlatform::Macos && home is Some {
        seq![
            home.unwrap(),
            "Library"@,
            "Application Support"@,
            "Intercom Suite"@,
            "client-identity.json"@,
        ]
    } else {
        match (xdg, home) {
            (Some(dir), _) => seq![dir, "intercom-suite"@, "client-identity.json"@],
            (None, Some(dir)) => seq![
                dir,
                ".config"@,
                "intercom-suite"@,
                "client-identity.json"@,
            ],
            (None, None) => seq!["intercom-client-identity.json"@],
        }
    }
}

/// The components of the path at which a client keeps its id.
pub fn default_client_identity_path(
    platform: IdentityPlatform,
    appdata: Option<&str>,
    xdg: Option<&str>,
    home: Option<&str>,
) -> (r: Vec<String>)
    ensures
        texts(r@) == identity_path(platform, opt_str(appdata), opt_str(xdg), opt_str(home)),
{
    let mut v: Vec<String> = Vec::new();
    match platform {
        IdentityPlatform::Windows => {
            match appdata {
                Some(dir) => {
                    return three(dir, "Intercom Suite", "client-identity.json");
                },
                None => {},
            }
        },
        _ => {
            if platform == IdentityPlatform::Macos {
                match home {
                    Some(dir) => {
                        v.push(owned(dir));
                        v.push(owned("Library"));
                        v.push(owned("Application Support"));
                        v.push(owned("Intercom Suite"));
                        v.push(owned("client-identity.json"));
                        proof {
                            assert(texts(v@) =~= identity_path(
                                platform,
                                opt_str(appdata),
                                opt_str(xdg),
                                opt_str(home),
                            ));
                        }
                        return v;
                    },
                    None => {},
                }
            }
            match xdg {
                Some(dir) => {
                    return three(dir, "intercom-suite", "client-identity.json");
                },
                None => {},
            }
            match home {
                Some(dir) => {
                    v.push(owned(dir));
                    v.push(owned(".config"));
                    v.push(owned("intercom-suite"));
                    v.push(owned("client-identity.json"));
                    proof {
                        assert(texts(v@) =~= identity_path(
                            platform,
                            opt_str(appdata),
                            opt_str(xdg),
                            opt_str(home),
                        ));
                    }
                    return v;
                },
                None => {},
            }
        },
    }
    v.push(owned("intercom-client-identity.json"));
    proof {
        assert(texts(v@) =~= seq!["intercom-client-identity.json"@]);
    }
    v
}

} // verus!
