//! Who a client is.

use vstd::prelude::*;

use crate::identity::{
    choose_client_uid, default_client_identity_path, load_or_create_client_uid, ClientIdentity,
    IdentityError, IdentityPlatform,
};
use crate::laws::text::{all_space, lemma_blank};
use crate::text::{texts, trim};

verus! {

/// An id that the operator gives is used, white space aside; else the one that is
/// stored, which must not be blank; else the fresh one, which is to be stored.
pub proof fn ids_come_from_the_operator_first(
    given: Option<&str>,
    stored: Option<String>,
    fresh: String,
    r: Result<ClientIdentity, IdentityError>,
)
    requires
        call_ensures(choose_client_uid, (given, stored, fresh), r),
    ensures
        ({
            let told = given is Some && !all_space(given->Some_0@);
            &&& told ==> r is Ok && r->Ok_0.client_uid@ == trim(given->Some_0@) && !r->Ok_0.fresh
            &&& !told && stored is Some && all_space(stored->Some_0@) ==> r is Err
            &&& !told && stored is Some && !all_space(stored->Some_0@) ==> r is Ok
                && r->Ok_0.client_uid == stored->Some_0 && !r->Ok_0.fresh
            &&& !told && stored is None ==> r is Ok && r->Ok_0.client_uid == fresh && r->Ok_0.fresh
        }),
{
    if given is Some {
        lemma_blank(given->Some_0@);
    }
    if stored is Some {
        lemma_blank(stored->Some_0@);
    }
}

/// An id is made only where there is none, and then it has the form of a random UUID.
pub proof fn ids_are_made_where_there_is_none(
    given: Option<&str>,
    stored: Option<String>,
    r: Result<ClientIdentity, IdentityError>,
)
    requires
        call_ensures(load_or_create_client_uid, (given, stored), r),
    ensures
        ({
            let told = given is Some && !all_space(given->Some_0@);
            &&& told ==> r is Ok && r->Ok_0.client_uid@ == trim(given->Some_0@) && !r->Ok_0.fresh
            &&& !told && stored is Some && all_space(stored->Some_0@) ==> r is Err
            &&& !told && stored is Some && !all_space(stored->Some_0@) ==> r is Ok
                && r->Ok_0.client_uid == stored->Some_0 && !r->Ok_0.fresh
            &&& !told && stored is None ==> r is Ok && r->Ok_0.fresh && r->Ok_0.client_uid@.len()
                == 36
        }),
{
    if given is Some {
        lemma_blank(given->Some_0@);
    }
    if stored is Some {
        lemma_blank(stored->Some_0@);
    }
}

/// The id is kept in the directory that the platform has for it, and in the current one
/// where there is none.
pub proof fn ids_are_kept_where_the_platform_keeps_them(
    platform: IdentityPlatform,
    appdata: Option<&str>,
    xdg: Option<&str>,
    home: Option<&str>,
    r: Vec<String>,
)
    requires
        call_ensures(default_client_identity_path, (platform, appdata, xdg, home), r),
    ensures
        r@.len() >= 1,
        r@.len() == 1 ==> r@[0]@ == "intercom-client-identity.json"@,
        r@.len() > 1 ==> r@[r@.len() - 1]@ == "client-identity.json"@,
        platform == IdentityPlatform::Windows ==> (appdata is Some <==> r@.len() > 1) && (appdata
            is Some ==> r@[0]@ == appdata->Some_0@),
        platform == IdentityPlatform::Macos && home is Some ==> r@.len() == 5 && r@[0]@
            == home->Some_0@ && r@[1]@ == "Library"@,
        platform != IdentityPlatform::Windows && !(platform == IdentityPlatform::Macos && home
            is Some) ==> (xdg is Some ==> r@.len() == 3 && r@[0]@ == xdg->Some_0@ && r@[1]@
            == "intercom-suite"@) && (xdg is None && home is Some ==> r@.len() == 4 && r@[0]@
            == home->Some_0@ && r@[1]@ == ".config"@ && r@[2]@ == "intercom-suite"@) && (xdg is None
            && home is None ==> r@.len() == 1),
{
    let t = texts(r@);
    assert(t.len() == r@.len());
    assert forall|i: int| 0 <= i < r@.len() implies #[trigger] r@[i]@ == t[i] by {}
}

} // verus!
