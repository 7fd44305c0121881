use bili_comment::client::BiliClient;
use bili_comment::error::BiliApiError;
use bili_comment::login::{
    check_response, init_credential, login_is_valid, logout, poll_result, user_from_nav,
};
use bili_comment::models::{LoginCredential, LoginStatus, UserInfo};

fn credential(expires_at: i64) -> LoginCredential {
    LoginCredential {
        sessdata: "s".to_string(),
        bili_jct: "j".to_string(),
        dedeuserid: "1".to_string(),
        expires_at,
    }
}

#[test]
fn logout_drops_the_credential() {
    let mut client = BiliClient::new();
    client.set_credential(Some(credential(5)));
    logout(&mut client);
    assert!(!client.is_logged_in());
    logout(&mut client);
    assert!(!client.is_logged_in());
}

#[test]
fn saved_credential_is_used_while_it_lasts() {
    let mut client = BiliClient::new();
    assert!(!init_credential(&mut client, Some(credential(101)), 100));
    assert!(client.is_logged_in());
}

#[test]
fn lapsed_credential_is_thrown_away() {
    let mut client = BiliClient::new();
    assert!(init_credential(&mut client, Some(credential(100)), 100));
    assert!(!client.is_logged_in());
    assert!(init_credential(&mut client, Some(credential(-5)), 100));
    assert!(!client.is_logged_in());
    assert!(!init_credential(&mut client, None, 100));
}

#[test]
fn lapsed_credential_keeps_the_session_that_was() {
    let mut client = BiliClient::new();
    assert!(!init_credential(&mut client, Some(credential(i64::MAX)), i64::MAX - 1));
    assert!(init_credential(&mut client, Some(credential(i64::MIN)), i64::MIN));
    assert_eq!(client.get_credential().unwrap().expires_at, i64::MAX);
}

#[test]
fn envelope_check() {
    assert_eq!(check_response(0, "0".to_string(), Some(7)).unwrap(), 7);
    let e = check_response(-412, "blocked".to_string(), Some(7)).unwrap_err();
    assert!(matches!(e, BiliApiError::ApiError { code: -412, ref message } if message == "blocked"));
    let e = check_response::<u8>(-412, "blocked".to_string(), None).unwrap_err();
    assert!(matches!(e, BiliApiError::ApiError { code: -412, .. }));
    let e = check_response::<u8>(0, "0".to_string(), None).unwrap_err();
    assert!(matches!(e, BiliApiError::ParseError(ref m) if m == "缺少数据"));
}

#[test]
fn poll_codes() {
    let r = poll_result(0, "x".to_string());
    assert_eq!(r.status, LoginStatus::Confirmed);
    assert_eq!(r.message, "登录成功");
    let r = poll_result(86038, "x".to_string());
    assert_eq!(r.status, LoginStatus::Expired);
    assert_eq!(r.message, "二维码已过期");
    let r = poll_result(86090, "x".to_string());
    assert_eq!(r.status, LoginStatus::Scanned);
    assert_eq!(r.message, "已扫码，请在手机上确认");
    let r = poll_result(86101, "x".to_string());
    assert_eq!(r.status, LoginStatus::Waiting);
    assert_eq!(r.message, "等待扫码");
    let r = poll_result(-3, "密钥错误".to_string());
    assert_eq!(r.status, LoginStatus::Error);
    assert_eq!(r.message, "密钥错误");
}

#[test]
fn user_from_navigation_answer() {
    assert!(user_from_nav(false, Some(1), Some("n".to_string()), None).is_none());
    let u = user_from_nav(true, Some(42), Some("name".to_string()), Some("pic".to_string()))
        .unwrap();
    assert_eq!(u.mid, 42);
    assert_eq!(u.uname, "name");
    assert_eq!(u.face, "pic");
    assert!(u.is_login);
    let u = user_from_nav(true, None, None, None).unwrap();
    assert_eq!(u.mid, 0);
    assert_eq!(u.uname, "");
    assert_eq!(u.face, "");
}

#[test]
fn login_validity() {
    let user = UserInfo { mid: 1, uname: "n".to_string(), face: String::new(), is_login: true };
    assert!(login_is_valid(Ok(Some(user))));
    assert!(!login_is_valid(Ok(None)));
    assert!(!login_is_valid(Err(BiliApiError::NotLoggedIn)));
}
