use base64::Engine;
use bili_comment::client::BiliClient;
use bili_comment::error::BiliApiError;
use bili_comment::login::{complete_poll, credential_from, parse_login_cookies};
use bili_comment::models::LoginStatus;
use bili_comment::qr::{
    code_error, picture_error, png_data_uri, qr_image_uri, qrcode_data, QR_TEXT_LIMIT,
};

fn pair(name: &str, value: &str) -> (String, String) {
    (name.to_string(), value.to_string())
}

fn decode(uri: &str) -> Vec<u8> {
    let encoded = uri.strip_prefix("data:image/png;base64,").unwrap();
    base64::engine::general_purpose::STANDARD.decode(encoded).unwrap()
}

#[test]
fn data_uri_prefix() {
    assert_eq!(png_data_uri("QUJD"), "data:image/png;base64,QUJD");
    assert_eq!(png_data_uri(""), "data:image/png;base64,");
}

#[test]
fn qr_failures_say_which_step() {
    let e = code_error("data too long");
    assert!(matches!(e, BiliApiError::Other(ref m) if m == "二维码生成失败: data too long"));
    let e = picture_error("disk");
    assert!(matches!(e, BiliApiError::Other(ref m) if m == "图片编码失败: disk"));
}

#[test]
fn qr_code_is_a_square_png() {
    let uri = qr_image_uri("https://passport.bilibili.com/h5-app/passport/login/scan?key=abc")
        .unwrap();
    let file = decode(&uri);
    assert_eq!(&file[..8], &[0x89, b'P', b'N', b'G', 0x0d, 0x0a, 0x1a, 0x0a]);
    let picture = image::load_from_memory(&file).unwrap().to_luma8();
    assert_eq!(picture.width(), picture.height());
    assert_eq!(picture.width() % 8, 0);
    let modules = picture.width() / 8 - 8;
    assert_eq!(modules % 4, 1);
    assert!(modules >= 21);
    assert_eq!(picture.get_pixel(0, 0).0, [255]);
    assert_eq!(picture.get_pixel(32, 32).0, [0]);
    assert!(picture.pixels().all(|p| p.0 == [0] || p.0 == [255]));
}

#[test]
fn same_text_gives_the_same_picture() {
    let a = qr_image_uri("hello").unwrap();
    let b = qr_image_uri("hello").unwrap();
    let c = qr_image_uri("hellp").unwrap();
    assert_eq!(a, b);
    assert_ne!(a, c);
}

#[test]
fn text_too_long_for_a_qr_code() {
    let long = "x".repeat(4000);
    let e = qr_image_uri(&long).unwrap_err();
    assert!(matches!(e, BiliApiError::Other(ref m) if m.starts_with("二维码生成失败: ")));
}

#[test]
fn text_at_the_limit_is_drawn_and_one_byte_more_is_not() {
    assert_eq!(QR_TEXT_LIMIT, 131);
    let at_limit = "x".repeat(131);
    let uri = qr_image_uri(&at_limit).unwrap();
    let picture = image::load_from_memory(&decode(&uri)).unwrap().to_luma8();
    assert!(picture.width() / 8 - 8 <= 53);
    let over = "x".repeat(132);
    let e = qr_image_uri(&over).unwrap_err();
    assert!(matches!(e, BiliApiError::Other(ref m) if m == "二维码生成失败: data too long"));
}

#[test]
fn the_limit_counts_bytes() {
    let forty_three = "二".repeat(43);
    assert_eq!(forty_three.len(), 129);
    assert!(qr_image_uri(&forty_three).is_ok());
    let forty_four = "二".repeat(44);
    assert_eq!(forty_four.chars().count(), 44);
    assert!(qr_image_uri(&forty_four).is_err());
}

#[test]
fn worst_mixed_texts_at_the_limit_stay_small() {
    let patterns = ["a1234", "aABCDEF", "b1234Ab", "1234567a", "\u{93}\u{5f}123", "A1234567"];
    for pattern in patterns {
        let mut text = String::new();
        while text.len() + pattern.len() <= 131 {
            text.push_str(pattern);
        }
        while text.len() < 131 {
            text.push('z');
        }
        let uri = qr_image_uri(&text).unwrap();
        let picture = image::load_from_memory(&decode(&uri)).unwrap().to_luma8();
        assert!(picture.width() / 8 - 8 <= 53, "{}", text);
    }
}

#[test]
fn login_addresses_are_within_the_limit() {
    let urls = [
        "https://passport.bilibili.com/h5-app/passport/login/scan?navhide=1&qrcode_key=0123456789abcdef0123456789abcdef&from=",
        "https://account.bilibili.com/h5/account-h5/auth/scan-web?navhide=1&callback=close&qrcode_key=0123456789abcdef0123456789abcdef&from=",
    ];
    for url in urls {
        assert!(url.len() <= 131);
        assert!(qr_image_uri(url).is_ok());
    }
}

#[test]
fn qrcode_data_keeps_url_and_key() {
    let data = qrcode_data("https://example.com/scan".to_string(), "key-1".to_string()).unwrap();
    assert_eq!(data.url, "https://example.com/scan");
    assert_eq!(data.qrcode_key, "key-1");
    assert_eq!(data.image_base64, qr_image_uri("https://example.com/scan").unwrap());
    assert!(qrcode_data("y".repeat(5000), "k".to_string()).is_err());
}

#[test]
fn credential_from_cookies() {
    let cookies = vec![
        pair("SESSDATA", "old"),
        pair("bili_jct", "csrf"),
        pair("other", "x"),
        pair("DedeUserID", "42"),
        pair("SESSDATA", "new"),
    ];
    let c = credential_from(&cookies, &None, 1_000).unwrap();
    assert_eq!(c.sessdata, "new");
    assert_eq!(c.bili_jct, "csrf");
    assert_eq!(c.dedeuserid, "42");
    assert_eq!(c.expires_at, 1_000 + 30 * 24 * 3600);
}

#[test]
fn query_fills_in_what_cookies_lack() {
    let cookies = vec![pair("SESSDATA", "cookie-sess")];
    let query = Some(vec![
        pair("SESSDATA", "query-sess"),
        pair("bili_jct", "first"),
        pair("bili_jct", "second"),
        pair("DedeUserID", "7"),
    ]);
    let c = credential_from(&cookies, &query, 0).unwrap();
    assert_eq!(c.sessdata, "cookie-sess");
    assert_eq!(c.bili_jct, "first");
    assert_eq!(c.dedeuserid, "7");
    assert_eq!(c.expires_at, 2_592_000);
}

#[test]
fn missing_part_gives_no_credential() {
    let cookies = vec![pair("SESSDATA", "s"), pair("bili_jct", "j")];
    assert!(credential_from(&cookies, &None, 0).is_none());
    assert!(credential_from(&cookies, &Some(vec![pair("dedeuserid", "1")]), 0).is_none());
    assert!(credential_from(&Vec::new(), &Some(Vec::new()), 0).is_none());
}

#[test]
fn lapse_time_is_capped() {
    let cookies = vec![pair("SESSDATA", "s"), pair("bili_jct", "j"), pair("DedeUserID", "1")];
    let c = credential_from(&cookies, &None, i64::MAX - 5).unwrap();
    assert_eq!(c.expires_at, i64::MAX);
    let c = credential_from(&cookies, &None, i64::MIN).unwrap();
    assert_eq!(c.expires_at, i64::MIN + 2_592_000);
}

#[test]
fn credential_from_redirect_address() {
    let url = "https://www.bilibili.com/?DedeUserID=99&bili_jct=tok%20en&SESSDATA=a%2Cb%2A&x=1";
    let c = parse_login_cookies(&Vec::new(), url, 1_700_000_000).unwrap();
    assert_eq!(c.dedeuserid, "99");
    assert_eq!(c.bili_jct, "tok en");
    assert_eq!(c.sessdata, "a,b*");
    assert_eq!(c.expires_at, 1_702_592_000);
    assert!(parse_login_cookies(&Vec::new(), "not a url", 0).is_none());
    assert!(parse_login_cookies(&Vec::new(), "", 0).is_none());
    let cookies = vec![pair("SESSDATA", "s"), pair("bili_jct", "j"), pair("DedeUserID", "1")];
    assert_eq!(parse_login_cookies(&cookies, "", 0).unwrap().sessdata, "s");
}

#[test]
fn confirmed_poll_signs_in() {
    let mut client = BiliClient::new();
    let cookies = vec![pair("SESSDATA", "s"), pair("bili_jct", "j"), pair("DedeUserID", "1")];
    let (result, saved) = complete_poll(&mut client, 0, String::new(), &cookies, "", 1_000);
    assert_eq!(result.status, LoginStatus::Confirmed);
    assert_eq!(result.message, "登录成功");
    let saved = saved.unwrap();
    assert_eq!(saved.bili_jct, "j");
    assert_eq!(saved.expires_at, 2_593_000);
    assert_eq!(client.get_csrf(), Some("j".to_string()));
    assert_eq!(client.get_credential().unwrap().expires_at, 2_593_000);
}

#[test]
fn confirmed_poll_without_cookies_keeps_the_session() {
    let mut client = BiliClient::new();
    let (result, saved) = complete_poll(&mut client, 0, String::new(), &Vec::new(), "", 5);
    assert_eq!(result.status, LoginStatus::Confirmed);
    assert!(saved.is_none());
    assert!(!client.is_logged_in());
}

#[test]
fn other_polls_leave_the_session() {
    let mut client = BiliClient::new();
    let cookies = vec![pair("SESSDATA", "s"), pair("bili_jct", "j"), pair("DedeUserID", "1")];
    let (result, saved) = complete_poll(&mut client, 86101, String::new(), &cookies, "", 5);
    assert_eq!(result.status, LoginStatus::Waiting);
    assert!(saved.is_none());
    assert!(!client.is_logged_in());
}
