//! The authenticated identity and the identity provider's user-info record.
use vstd::prelude::*;

verus! {

/// An authenticated principal, built from the identity provider's user-info.
#[derive(Clone, Debug)]
pub struct User {
    pub id: String,
    pub login: Option<String>,
    pub first_name: Option<String>,
    pub last_name: Option<String>,
    pub email: Option<String>,
    pub image_url: Option<String>,
    pub activated: bool,
    pub lang_key: Option<String>,
    pub authorities: Vec<String>,
}

/// The identity provider's user-info payload, with each claim the broker reads.
#[derive(Clone, Debug)]
pub struct UserInfo {
    pub sub: Option<String>,
    pub name: Option<String>,
    pub given_name: Option<String>,
    pub family_name: Option<String>,
    pub preferred_username: Option<String>,
    pub email: Option<String>,
    pub email_verified: bool,
    pub picture: Option<String>,
}

/// The text of an optional claim, or the empty text when it is absent.
pub open spec fn text_or_empty(s: Option<String>) -> Seq<char> {
    match s {
        Some(t) => t@,
        None => Seq::empty(),
    }
}

/// `u` is the principal that a login with user-info `info` establishes:
/// the claims copied over, language `"en"` and the single authority `"user"`.
pub open spec fn is_principal_of(u: User, info: UserInfo) -> bool {
    &&& u.id@ == text_or_empty(info.sub)
    &&& u.login == info.preferred_username
    &&& u.first_name == info.given_name
    &&& u.last_name == info.family_name
    &&& u.email == info.email
    &&& u.image_url == info.picture
    &&& u.activated == info.email_verified
    &&& u.lang_key is Some && u.lang_key->0@ == "en"@
    &&& u.authorities@.len() == 1 && u.authorities@[0]@ == "user"@
}

/// A copy of an optional text.
pub fn copy_text(s: &Option<String>) -> (r: Option<String>)
    ensures
        r == *s,
{
    match s {
        Some(t) => Some(t.clone()),
        None => None,
    }
}

impl User {
    /// The principal of a login whose user-info is `info`.
    pub fn from_userinfo(info: &UserInfo) -> (r: User)
        ensures
            is_principal_of(r, *info),
    {
        let id = match &info.sub {
            Some(s) => s.clone(),
            None => String::new(),
        };
        User {
            id,
            login: copy_text(&info.preferred_username),
            first_name: copy_text(&info.given_name),
            last_name: copy_text(&info.family_name),
            email: copy_text(&info.email),
            image_url: copy_text(&info.picture),
            activated: info.email_verified,
            lang_key: Some("en".to_string()),
            authorities: vec!["user".to_string()],
        }
    }
}

} // verus!
