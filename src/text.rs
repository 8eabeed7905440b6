//! Configuration text: blank values and the request URL.
use vstd::prelude::*;
use vstd::string::*;

verus! {

/// The code points of Unicode's `White_Space` property.
pub open spec fn is_white_space_char(c: char) -> bool {
    let v = c as u32;
    (0x9 <= v <= 0xd) || v == 0x20 || v == 0x85 || v == 0xa0 || v == 0x1680 || (0x2000 <= v
        <= 0x200a) || v == 0x2028 || v == 0x2029 || v == 0x202f || v == 0x205f || v == 0x3000
}

/// Relies on `char::is_whitespace`: true exactly for the `White_Space` code points.
#[verifier::external_body]
fn white_space(c: char) -> (r: bool)
    ensures
        r == is_white_space_char(c),
{
    c.is_whitespace()
}

/// A value that holds nothing but white space (or nothing at all).
pub open spec fn is_blank_text(s: Seq<char>) -> bool {
    forall|i: int| 0 <= i < s.len() ==> is_white_space_char(#[trigger] s[i])
}

/// An optional value viewed as its characters.
pub open spec fn opt_text(o: Option<String>) -> Option<Seq<char>> {
    match o {
        Some(s) => Some(s@),
        None => None,
    }
}

/// A configured value, with a blank one read as absent.
pub open spec fn setting_text(o: Option<Seq<char>>) -> Option<Seq<char>> {
    match o {
        Some(s) => if is_blank_text(s) {
            None
        } else {
            Some(s)
        },
        None => None,
    }
}

/// Whether `s` trims to nothing.
pub fn is_blank(s: &str) -> (r: bool)
    ensures
        r == is_blank_text(s@),
{
    let n = s.unicode_len();
    let mut i: usize = 0;
    while i < n
        invariant
            n == s@.len(),
            i <= n,
            forall|j: int| 0 <= j < i ==> is_white_space_char(#[trigger] s@[j]),
        decreases n - i,
    {
        if !white_space(s.get_char(i)) {
            return false;
        }
        i = i + 1;
    }
    true
}

/// A copy of a configured value, or `None` where it is absent or blank.
pub fn setting(o: &Option<String>) -> (r: Option<String>)
    ensures
        opt_text(r) == setting_text(opt_text(*o)),
{
    match o {
        Some(s) => {
            if is_blank(s.as_str()) {
                None
            } else {
                Some(s.clone())
            }
        },
        None => None,
    }
}

/// A copy of an optional value.
pub fn copy_text(o: &Option<String>) -> (r: Option<String>)
    ensures
        opt_text(r) == opt_text(*o),
{
    match o {
        Some(s) => Some(s.clone()),
        None => None,
    }
}

/// The user id used when none is configured: the signed-in user.
pub open spec fn default_user_id() -> Seq<char> {
    seq!['-']
}

/// The intraday heart-rate URL of `user_id`.
pub open spec fn heart_rate_url_text(user_id: Seq<char>) -> Seq<char> {
    "https://api.fitbit.com/1/user/"@ + user_id + "/activities/heart/date/today/1d/1min.json"@
}

/// The token endpoint.
pub open spec fn token_url_text() -> Seq<char> {
    "https://api.fitbit.com/oauth2/token"@
}

/// The intraday heart-rate URL for a configured user id, `-` when it is absent or blank.
pub fn heart_rate_url(user_id: &Option<String>) -> (r: String)
    ensures
        r@ == heart_rate_url_text(
            match setting_text(opt_text(*user_id)) {
                Some(u) => u,
                None => default_user_id(),
            },
        ),
{
    let id = setting(user_id);
    let base = String::from_str("https://api.fitbit.com/1/user/");
    let with_id = match id {
        Some(u) => base.concat(u.as_str()),
        None => {
            let dash = String::from_str("-");
            proof {
                reveal_strlit("-");
            }
            assert(dash@ =~= default_user_id());
            base.concat(dash.as_str())
        },
    };
    with_id.concat("/activities/heart/date/today/1d/1min.json")
}

/// The token endpoint's URL.
pub fn token_url() -> (r: String)
    ensures
        r@ == token_url_text(),
{
    String::from_str("https://api.fitbit.com/oauth2/token")
}

/// The header that presents an access token.
pub fn bearer_header(token: &str) -> (r: String)
    ensures
        r@ == "Authorization: Bearer "@ + token@,
{
    String::from_str("Authorization: Bearer ").concat(token)
}

/// The form body of a refresh request.
pub fn refresh_form(refresh_token: &str) -> (r: String)
    ensures
        r@ == "grant_type=refresh_token&refresh_token="@ + refresh_token@,
{
    String::from_str("grant_type=refresh_token&refresh_token=").concat(refresh_token)
}

/// The basic-auth user of a refresh request: `client_id:client_secret`.
pub fn basic_auth_user(client_id: &str, client_secret: &str) -> (r: String)
    ensures
        r@ == client_id@ + ":"@ + client_secret@,
{
    String::from_str(client_id).concat(":").concat(client_secret)
}

} // verus!
