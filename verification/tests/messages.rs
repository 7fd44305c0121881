use bili_comment::batch::TaskOutcome;
use bili_comment::client::BiliClient;
use bili_comment::dispatcher::{classify_response, prepare_comment, task_outcome};
use bili_comment::error::{api_error_message, BiliApiError};
use bili_comment::models::{CommentResult, LoginCredential};
use bili_comment::registry::BatchError;
use bili_comment::text::{i64_to_string, starts_with, truncate_str, u64_to_string};

fn credential() -> LoginCredential {
    LoginCredential {
        sessdata: "abc%2C123".to_string(),
        bili_jct: "token42".to_string(),
        dedeuserid: "9001".to_string(),
        expires_at: 2_000_000_000,
    }
}

fn pair(name: &str, value: &str) -> (String, String) {
    (name.to_string(), value.to_string())
}

#[test]
fn decimal_text_of_numbers() {
    assert_eq!(u64_to_string(0), "0");
    assert_eq!(u64_to_string(7), "7");
    assert_eq!(u64_to_string(10), "10");
    assert_eq!(u64_to_string(1234567890), "1234567890");
    assert_eq!(u64_to_string(u64::MAX), "18446744073709551615");
    assert_eq!(i64_to_string(0), "0");
    assert_eq!(i64_to_string(-1), "-1");
    assert_eq!(i64_to_string(-404), "-404");
    assert_eq!(i64_to_string(12002), "12002");
    assert_eq!(i64_to_string(i64::MIN), "-9223372036854775808");
    assert_eq!(i64_to_string(i64::MAX), "9223372036854775807");
}

#[test]
fn truncation_counts_characters() {
    assert_eq!(truncate_str("hello", 10), "hello");
    assert_eq!(truncate_str("hello", 5), "hello");
    assert_eq!(truncate_str("hello world", 5), "hello...");
    assert_eq!(truncate_str("评论内容包含敏感词", 4), "评论内容...");
    assert_eq!(truncate_str("评论", 2), "评论");
    assert_eq!(truncate_str("abc", 0), "...");
    assert_eq!(truncate_str("", 0), "");
}

#[test]
fn prefix_test() {
    assert!(starts_with("//i0.hdslb.com/a.jpg", "//"));
    assert!(!starts_with("/i0.hdslb.com/a.jpg", "//"));
    assert!(starts_with("abc", ""));
    assert!(starts_with("", ""));
    assert!(!starts_with("a", "ab"));
    assert!(starts_with("敏感词x", "敏感"));
    assert!(!starts_with("敏感词x", "敏词"));
}

#[test]
fn known_codes_have_fixed_texts() {
    let table = [
        (-101, "账号未登录"),
        (-111, "csrf校验失败"),
        (-400, "请求错误"),
        (-404, "视频不存在"),
        (12002, "评论内容包含敏感词"),
        (12009, "评论发送太频繁"),
        (12015, "需要输入验证码"),
        (12016, "您的账号存在异常，请完成验证后重试"),
        (12025, "评论区已关闭"),
    ];
    for (code, text) in table {
        assert_eq!(api_error_message(code, "ignored"), text);
        let e = BiliApiError::ApiError { code, message: "ignored".to_string() };
        assert_eq!(e.to_user_message(), text);
    }
}

#[test]
fn unknown_code_shows_code_and_message() {
    assert_eq!(api_error_message(-509, "too fast"), "错误 -509: too fast");
    assert_eq!(api_error_message(1, ""), "错误 1: ");
    assert_eq!(api_error_message(i32::MIN, "m"), "错误 -2147483648: m");
    assert_eq!(api_error_message(i32::MAX, "m"), "错误 2147483647: m");
    assert_eq!(api_error_message(0, "ok"), "错误 0: ok");
}

#[test]
fn user_messages_of_each_error() {
    assert_eq!(BiliApiError::NotLoggedIn.to_user_message(), "请先登录");
    assert_eq!(BiliApiError::RateLimited.to_user_message(), "操作过于频繁，请稍等几秒后重试");
    assert_eq!(BiliApiError::QrCodeExpired.to_user_message(), "二维码已过期，请刷新");
    assert_eq!(
        BiliApiError::Network("timed out".to_string()).to_user_message(),
        "网络请求失败: timed out"
    );
    assert_eq!(
        BiliApiError::CommentFailed("why".to_string()).to_user_message(),
        "评论失败: why"
    );
    assert_eq!(
        BiliApiError::ParseError("bad json".to_string()).to_user_message(),
        "数据解析失败: bad json"
    );
    assert_eq!(BiliApiError::IoError("denied".to_string()).to_user_message(), "IO错误: denied");
    assert_eq!(BiliApiError::Other("plain".to_string()).to_user_message(), "plain");
}

#[test]
fn descriptions_of_each_error() {
    assert_eq!(BiliApiError::NotLoggedIn.to_string(), "未登录或登录已过期");
    assert_eq!(BiliApiError::RateLimited.to_string(), "请求过于频繁，请稍后再试");
    assert_eq!(BiliApiError::QrCodeExpired.to_string(), "二维码已过期");
    assert_eq!(
        BiliApiError::ApiError { code: -404, message: "啥都木有".to_string() }.to_string(),
        "B站返回错误: -404 - 啥都木有"
    );
    assert_eq!(BiliApiError::Network("x".to_string()).to_string(), "网络请求失败: x");
    assert_eq!(BiliApiError::Other(String::new()).to_string(), "");
}

#[test]
fn batch_errors_have_texts() {
    assert_eq!(BatchError::NotFound.to_user_message(), "批次不存在");
    assert_eq!(BatchError::EmptySubmission.to_user_message(), "没有可评论的视频");
    assert_eq!(BatchError::DuplicateId.to_user_message(), "批次已存在");
    assert_eq!(BatchError::InvalidTransition.to_user_message(), "任务状态不允许此操作");
}

#[test]
fn response_code_zero_is_success() {
    let r = classify_response(0, "0".to_string(), Some(55));
    assert!(r.success);
    assert_eq!(r.rpid, Some(55));
    assert_eq!(r.error_msg, None);
    let r = classify_response(0, String::new(), None);
    assert!(r.success);
    assert_eq!(r.rpid, None);
}

#[test]
fn response_with_code_is_failure() {
    let r = classify_response(12025, "closed".to_string(), Some(55));
    assert!(!r.success);
    assert_eq!(r.rpid, None);
    assert_eq!(r.error_msg, Some("评论区已关闭".to_string()));
    let r = classify_response(-1, "boom".to_string(), None);
    assert_eq!(r.error_msg, Some("错误 -1: boom".to_string()));
}

#[test]
fn outcomes_of_attempts() {
    let ok = task_outcome(Ok(CommentResult { success: true, rpid: Some(3), error_msg: None }));
    assert!(matches!(ok, TaskOutcome::Success(Some(3))));
    let no = task_outcome(Ok(CommentResult {
        success: false,
        rpid: None,
        error_msg: Some("m".to_string()),
    }));
    assert!(matches!(no, TaskOutcome::Failed(ref m) if m == "m"));
    let err = task_outcome(Err(BiliApiError::Network("down".to_string())));
    assert!(matches!(err, TaskOutcome::Failed(ref m) if m == "网络请求失败: down"));
    let parse = task_outcome(Err(BiliApiError::ParseError("eof".to_string())));
    assert!(matches!(parse, TaskOutcome::Failed(ref m) if m == "数据解析失败: eof"));
}

#[test]
fn cookie_string_of_credential() {
    assert_eq!(
        credential().to_cookie_string(),
        "SESSDATA=abc%2C123; bili_jct=token42; DedeUserID=9001"
    );
}

#[test]
fn client_session_state() {
    let mut client = BiliClient::new();
    assert!(!client.is_logged_in());
    assert_eq!(client.get_csrf(), None);
    assert!(client.get_credential().is_none());
    client.set_credential(Some(credential()));
    assert!(client.is_logged_in());
    assert_eq!(client.get_csrf(), Some("token42".to_string()));
    assert_eq!(client.get_credential().unwrap().sessdata, "abc%2C123");
    client.set_credential(None);
    assert!(!client.is_logged_in());
    assert!(!BiliClient::default().is_logged_in());
}

#[test]
fn headers_without_and_with_credential() {
    let ua = "Mozilla/5.0 (Windows NT 10.0; Win64; x64) AppleWebKit/537.36 (KHTML, like Gecko) Chrome/120.0.0.0 Safari/537.36";
    let mut client = BiliClient::new();
    assert_eq!(
        client.build_headers(),
        vec![pair("user-agent", ua), pair("referer", "https://www.bilibili.com")]
    );
    client.set_credential(Some(credential()));
    assert_eq!(
        client.build_headers(),
        vec![
            pair("user-agent", ua),
            pair("referer", "https://www.bilibili.com"),
            pair("cookie", "SESSDATA=abc%2C123; bili_jct=token42; DedeUserID=9001"),
        ]
    );
}

#[test]
fn cookie_that_cannot_be_a_header_is_left_out() {
    let mut client = BiliClient::new();
    let mut bad = credential();
    bad.sessdata = "line\nbreak".to_string();
    client.set_credential(Some(bad));
    assert_eq!(client.build_headers().len(), 2);
    let mut del = credential();
    del.bili_jct = "a\u{7f}b".to_string();
    client.set_credential(Some(del));
    assert_eq!(client.build_headers().len(), 2);
    let mut tab = credential();
    tab.dedeuserid = "a\tb 评论".to_string();
    client.set_credential(Some(tab));
    assert_eq!(client.build_headers().len(), 3);
}

#[test]
fn comment_request_needs_a_session() {
    let client = BiliClient::new();
    let r = prepare_comment(&client, 170001, "hi");
    assert!(matches!(r, Err(BiliApiError::NotLoggedIn)));
}

#[test]
fn comment_request_carries_the_form() {
    let mut client = BiliClient::new();
    client.set_credential(Some(credential()));
    let request = prepare_comment(&client, 170001, "first!").unwrap();
    assert_eq!(request.url, "https://api.bilibili.com/x/v2/reply/add");
    assert_eq!(
        request.form,
        vec![
            pair("oid", "170001"),
            pair("type", "1"),
            pair("message", "first!"),
            pair("csrf", "token42"),
        ]
    );
    assert_eq!(request.headers.len(), 3);
    assert_eq!(request.headers[2].0, "cookie");
}
