//! Signing in and out: what the platform's answers to the QR-code login
//! mean, which credential they yield, and when a saved credential is still
//! good.

use crate::client::{opt_credential_view, BiliClient};
use crate::error::{BiliApiError, BiliApiErrorView};
use crate::models::{
    opt_pairs_view, opt_str_view, pairs_view, LoginCredential, LoginCredentialView,
    LoginPollResult, LoginPollResultView, LoginStatus, UserInfo, UserInfoView,
};
use crate::outside::{query_pairs_of, url_query_pairs};
use vstd::prelude::*;

verus! {

/// Signs the client out.
pub fn logout(client: &mut BiliClient)
    ensures
        final(client)@ is None,
{
    client.set_credential(None);
}

/// What becomes of a saved credential at time `now`: whether it has lapsed,
/// and the session afterwards. A credential that lapses later than `now` is
/// taken into use; a lapsed one, or none, leaves the session as it is.
pub open spec fn restored(
    session: Option<LoginCredentialView>,
    saved: Option<LoginCredentialView>,
    now: i64,
) -> (bool, Option<LoginCredentialView>) {
    match saved {
        Some(c) => if c.expires_at > now {
            (false, Some(c))
        } else {
            (true, session)
        },
        None => (false, session),
    }
}

/// Takes a saved credential into use at time `now` if it has not lapsed.
/// Returns whether the saved credential has lapsed and should be thrown
/// away; a lapsed credential, or none, leaves the client as it is.
pub fn init_credential(client: &mut BiliClient, saved: Option<LoginCredential>, now: i64) -> (lapsed:
    bool)
    ensures
        (lapsed, final(client)@) == restored(old(client)@, opt_credential_view(saved), now),
{
    match saved {
        Some(c) => {
            if c.expires_at > now {
                client.set_credential(Some(c));
                false
            } else {
                true
            }
        },
        None => false,
    }
}

/// What is said when an answer lacks its payload.
pub open spec fn missing_data_text() -> Seq<char> {
    "缺少数据"@
}

/// Opens the envelope of an answer and hands out its payload: a non-zero
/// code is the platform's rejection, with its code and message; a zero
/// code without a payload cannot be understood.
pub fn check_response<T>(code: i32, message: String, data: Option<T>) -> (r: Result<
    T,
    BiliApiError,
>)
    ensures
        match r {
            Ok(payload) => code == 0 && data == Some(payload),
            Err(e) => if code != 0 {
                e@ == (BiliApiErrorView::ApiError { code, message: message@ })
            } else {
                data is None && e@ == BiliApiErrorView::ParseError(missing_data_text())
            },
        },
{
    if code != 0 {
        Err(BiliApiError::ApiError { code, message })
    } else {
        match data {
            Some(payload) => Ok(payload),
            None => Err(BiliApiError::ParseError(String::from_str("缺少数据"))),
        }
    }
}

/// What a poll code means and what is said about it: `0` is a confirmed
/// login, `86038` an expired code, `86090` a scanned code that waits for
/// confirmation, `86101` a code that waits to be scanned; any other code is
/// an error, told in the platform's own words.
pub open spec fn poll_meaning(code: i32, message: Seq<char>) -> LoginPollResultView {
    if code == 0 {
        LoginPollResultView { status: LoginStatus::Confirmed, message: "登录成功"@ }
    } else if code == 86038 {
        LoginPollResultView { status: LoginStatus::Expired, message: "二维码已过期"@ }
    } else if code == 86090 {
        LoginPollResultView { status: LoginStatus::Scanned, message: "已扫码，请在手机上确认"@ }
    } else if code == 86101 {
        LoginPollResultView { status: LoginStatus::Waiting, message: "等待扫码"@ }
    } else {
        LoginPollResultView { status: LoginStatus::Error, message }
    }
}

/// Reads the code of a login poll.
pub fn poll_result(code: i32, message: String) -> (result: LoginPollResult)
    ensures
        result@ == poll_meaning(code, message@),
{
    if code == 0 {
        LoginPollResult { status: LoginStatus::Confirmed, message: String::from_str("登录成功") }
    } else if code == 86038 {
        LoginPollResult { status: LoginStatus::Expired, message: String::from_str("二维码已过期") }
    } else if code == 86090 {
        LoginPollResult {
            status: LoginStatus::Scanned,
            message: String::from_str("已扫码，请在手机上确认"),
        }
    } else if code == 86101 {
        LoginPollResult { status: LoginStatus::Waiting, message: String::from_str("等待扫码") }
    } else {
        LoginPollResult { status: LoginStatus::Error, message }
    }
}

/// The user that the platform's navigation answer describes: none unless
/// it says the session is signed in; a missing number counts as zero, a
/// missing name or picture as empty.
pub open spec fn described_user(
    is_login: bool,
    mid: Option<u64>,
    uname: Option<Seq<char>>,
    face: Option<Seq<char>>,
) -> Option<UserInfoView> {
    if !is_login {
        None
    } else {
        Some(
            UserInfoView {
                mid: match mid {
                    Some(m) => m,
                    None => 0,
                },
                uname: match uname {
                    Some(n) => n,
                    None => Seq::<char>::empty(),
                },
                face: match face {
                    Some(f) => f,
                    None => Seq::<char>::empty(),
                },
                is_login: true,
            },
        )
    }
}

/// The view of an optional user.
pub open spec fn opt_user_view(o: Option<UserInfo>) -> Option<UserInfoView> {
    match o {
        Some(u) => Some(u@),
        None => None,
    }
}

/// Reads the platform's navigation answer.
pub fn user_from_nav(
    is_login: bool,
    mid: Option<u64>,
    uname: Option<String>,
    face: Option<String>,
) -> (user: Option<UserInfo>)
    ensures
        opt_user_view(user) == described_user(is_login, mid, opt_str_view(uname), opt_str_view(face)),
{
    if !is_login {
        return None;
    }
    let mid = match mid {
        Some(m) => m,
        None => 0,
    };
    let uname = match uname {
        Some(n) => n,
        None => String::new(),
    };
    let face = match face {
        Some(f) => f,
        None => String::new(),
    };
    Some(UserInfo { mid, uname, face, is_login: true })
}

/// The value of the last pair with this name.
pub open spec fn last_named(pairs: Seq<(Seq<char>, Seq<char>)>, name: Seq<char>) -> Option<
    Seq<char>,
>
    decreases pairs.len(),
{
    if pairs.len() == 0 {
        None
    } else if pairs.last().0 == name {
        Some(pairs.last().1)
    } else {
        last_named(pairs.drop_last(), name)
    }
}

/// The value of the first pair with this name.
pub open spec fn first_named(pairs: Seq<(Seq<char>, Seq<char>)>, name: Seq<char>) -> Option<
    Seq<char>,
>
    decreases pairs.len(),
{
    if pairs.len() == 0 {
        None
    } else {
        match first_named(pairs.drop_last(), name) {
            Some(v) => Some(v),
            None => if pairs.last().0 == name {
                Some(pairs.last().1)
            } else {
                None
            },
        }
    }
}

/// Where a login cookie's value is taken from: the last cookie of that
/// name, and only without one the first query parameter of that name.
pub open spec fn cookie_or_query(
    cookies: Seq<(Seq<char>, Seq<char>)>,
    query: Option<Seq<(Seq<char>, Seq<char>)>>,
    name: Seq<char>,
) -> Option<Seq<char>> {
    match last_named(cookies, name) {
        Some(v) => Some(v),
        None => match query {
            Some(q) => first_named(q, name),
            None => None,
        },
    }
}

/// How long a credential lasts from the login: thirty days, in seconds.
pub const CREDENTIAL_LIFETIME_SECS: i64 = 2592000;

/// When a credential obtained at `now` lapses. The largest time there is
/// caps it.
pub open spec fn lapse_time(now: i64) -> i64 {
    if now + CREDENTIAL_LIFETIME_SECS > i64::MAX {
        i64::MAX
    } else {
        (now + CREDENTIAL_LIFETIME_SECS) as i64
    }
}

/// The credential that a confirmed login yields at `now`: its three parts
/// from the cookies or else from the query of the redirect address; none
/// where a part is missing.
pub open spec fn credential_of(
    cookies: Seq<(Seq<char>, Seq<char>)>,
    query: Option<Seq<(Seq<char>, Seq<char>)>>,
    now: i64,
) -> Option<LoginCredentialView> {
    let sessdata = cookie_or_query(cookies, query, "SESSDATA"@);
    let bili_jct = cookie_or_query(cookies, query, "bili_jct"@);
    let dedeuserid = cookie_or_query(cookies, query, "DedeUserID"@);
    if sessdata is Some && bili_jct is Some && dedeuserid is Some {
        Some(
            LoginCredentialView {
                sessdata: sessdata->0,
                bili_jct: bili_jct->0,
                dedeuserid: dedeuserid->0,
                expires_at: lapse_time(now),
            },
        )
    } else {
        None
    }
}

fn find_last(pairs: &Vec<(String, String)>, name: &str) -> (found: Option<String>)
    ensures
        opt_str_view(found) == last_named(pairs_view(pairs@), name@),
{
    let wanted = String::from_str(name);
    let mut found: Option<String> = None;
    let mut i: usize = 0;
    assert(pairs_view(pairs@).take(0) =~= Seq::<(Seq<char>, Seq<char>)>::empty());
    while i < pairs.len()
        invariant
            i <= pairs.len(),
            wanted@ == name@,
            opt_str_view(found) == last_named(pairs_view(pairs@).take(i as int), name@),
        decreases pairs.len() - i,
    {
        proof {
            let next = pairs_view(pairs@).take(i + 1);
            assert(next.drop_last() =~= pairs_view(pairs@).take(i as int));
            assert(next.last() == pairs_view(pairs@)[i as int]);
        }
        if pairs[i].0 == wanted {
            found = Some(pairs[i].1.clone());
        }
        i = i + 1;
    }
    assert(pairs_view(pairs@).take(pairs.len() as int) =~= pairs_view(pairs@));
    found
}

fn find_first(pairs: &Vec<(String, String)>, name: &str) -> (found: Option<String>)
    ensures
        opt_str_view(found) == first_named(pairs_view(pairs@), name@),
{
    let wanted = String::from_str(name);
    let mut found: Option<String> = None;
    let mut i: usize = 0;
    assert(pairs_view(pairs@).take(0) =~= Seq::<(Seq<char>, Seq<char>)>::empty());
    while i < pairs.len()
        invariant
            i <= pairs.len(),
            wanted@ == name@,
            opt_str_view(found) == first_named(pairs_view(pairs@).take(i as int), name@),
        decreases pairs.len() - i,
    {
        proof {
            let next = pairs_view(pairs@).take(i + 1);
            assert(next.drop_last() =~= pairs_view(pairs@).take(i as int));
            assert(next.last() == pairs_view(pairs@)[i as int]);
        }
        if found.is_none() && pairs[i].0 == wanted {
            found = Some(pairs[i].1.clone());
        }
        i = i + 1;
    }
    assert(pairs_view(pairs@).take(pairs.len() as int) =~= pairs_view(pairs@));
    found
}

fn find_part(
    cookies: &Vec<(String, String)>,
    query: &Option<Vec<(String, String)>>,
    name: &str,
) -> (found: Option<String>)
    ensures
        opt_str_view(found) == cookie_or_query(pairs_view(cookies@), opt_pairs_view(*query), name@),
{
    match find_last(cookies, name) {
        Some(v) => Some(v),
        None => match query {
            Some(q) => find_first(q, name),
            None => None,
        },
    }
}

/// Puts together the credential of a login confirmed at `now`, from the
/// cookies of the answer and the query parameters of its redirect address.
pub fn credential_from(
    cookies: &Vec<(String, String)>,
    query: &Option<Vec<(String, String)>>,
    now: i64,
) -> (credential: Option<LoginCredential>)
    ensures
        opt_credential_view(credential) == credential_of(
            pairs_view(cookies@),
            opt_pairs_view(*query),
            now,
        ),
{
    let sessdata = find_part(cookies, query, "SESSDATA");
    let bili_jct = find_part(cookies, query, "bili_jct");
    let dedeuserid = find_part(cookies, query, "DedeUserID");
    match (sessdata, bili_jct, dedeuserid) {
        (Some(sessdata), Some(bili_jct), Some(dedeuserid)) => {
            let expires_at = match now.checked_add(CREDENTIAL_LIFETIME_SECS) {
                Some(t) => t,
                None => i64::MAX,
            };
            Some(LoginCredential { sessdata, bili_jct, dedeuserid, expires_at })
        },
        _ => None,
    }
}

/// Puts together the credential of a login confirmed at `now`, from the
/// cookies of the answer and the query of the redirect address `url`.
pub fn parse_login_cookies(cookies: &Vec<(String, String)>, url: &str, now: i64) -> (credential:
    Option<LoginCredential>)
    ensures
        opt_credential_view(credential) == credential_of(
            pairs_view(cookies@),
            url_query_pairs(url@),
            now,
        ),
{
    let query = query_pairs_of(url);
    credential_from(cookies, &query, now)
}

/// The credential that a poll with this code yields at `now`: the one put
/// together from the cookies and the redirect address where the code
/// confirms the login, and none for any other code.
pub open spec fn polled_credential(
    code: i32,
    cookies: Seq<(Seq<char>, Seq<char>)>,
    url: Seq<char>,
    now: i64,
) -> Option<LoginCredentialView> {
    if code == 0 {
        credential_of(cookies, url_query_pairs(url), now)
    } else {
        None
    }
}

/// Reads one login poll at time `now` and, where it confirms the login,
/// signs the client in. Returns what the poll means and, with a confirmed
/// login that yielded a credential, that credential, for the caller to
/// save. A poll that yields no credential leaves the client as it is.
pub fn complete_poll(
    client: &mut BiliClient,
    code: i32,
    message: String,
    cookies: &Vec<(String, String)>,
    url: &str,
    now: i64,
) -> (polled: (LoginPollResult, Option<LoginCredential>))
    ensures
        polled.0@ == poll_meaning(code, message@),
        opt_credential_view(polled.1) == polled_credential(code, pairs_view(cookies@), url@, now),
        final(client)@ == if polled.1 is Some {
            opt_credential_view(polled.1)
        } else {
            old(client)@
        },
{
    let mut saved: Option<LoginCredential> = None;
    if code == 0 {
        match parse_login_cookies(cookies, url, now) {
            Some(credential) => {
                client.set_credential(Some(credential.clone()));
                saved = Some(credential);
            },
            None => {},
        }
    }
    (poll_result(code, message), saved)
}

/// Whether the session is known to be signed in: only a lookup that went
/// through and found a user says so.
pub fn login_is_valid(lookup: Result<Option<UserInfo>, BiliApiError>) -> (valid: bool)
    ensures
        valid == (lookup matches Ok(Some(_))),
{
    match lookup {
        Ok(Some(_)) => true,
        Ok(None) => false,
        Err(_) => false,
    }
}

} // verus!
