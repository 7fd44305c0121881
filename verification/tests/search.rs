use bili_comment::error::BiliApiError;
use bili_comment::search::{
    clean_html_tags, looks_like_html, normalize_pic_url, search_params, search_result,
    search_step, value_to_u64, CountField, SearchData, SearchDecision, SearchEvent,
    SearchResultItem, MAX_RETRIES, RETRY_DELAY_MS,
};
use bili_comment::text::{parse_u64, remove_all, trim_start};

fn pair(name: &str, value: &str) -> (String, String) {
    (name.to_string(), value.to_string())
}

fn item(aid: u64, title: &str, pic: &str, play: CountField) -> SearchResultItem {
    SearchResultItem {
        aid,
        bvid: format!("BV{}", aid),
        title: title.to_string(),
        author: "up".to_string(),
        mid: 3,
        pic: pic.to_string(),
        play,
        danmaku: CountField::Text("12".to_string()),
        pubdate: 1_700_000_000,
        duration: "1:02".to_string(),
        description: "d".to_string(),
    }
}

#[test]
fn unsigned_numbers_are_parsed_as_std_does() {
    let cases = [
        "0", "7", "007", "+5", "+", "", "-1", "1 ", " 1", "12a", "18446744073709551615",
        "18446744073709551616", "99999999999999999999999", "++1", "1+", "１２", "٣",
        "+18446744073709551615", "000000000000000000000000000001",
    ];
    for text in cases {
        assert_eq!(parse_u64(text), text.parse::<u64>().ok(), "{:?}", text);
    }
}

#[test]
fn counts_from_fields() {
    assert_eq!(value_to_u64(&CountField::Number(Some(1500))), 1500);
    assert_eq!(value_to_u64(&CountField::Number(None)), 0);
    assert_eq!(value_to_u64(&CountField::Text("42".to_string())), 42);
    assert_eq!(value_to_u64(&CountField::Text("--".to_string())), 0);
    assert_eq!(value_to_u64(&CountField::Text("1.5万".to_string())), 0);
    assert_eq!(value_to_u64(&CountField::Other), 0);
}

#[test]
fn removal_matches_std_replace() {
    let cases = [
        ("", "ab"),
        ("ab", "ab"),
        ("aab", "ab"),
        ("ababab", "ab"),
        ("aaa", "aa"),
        ("aaaa", "aa"),
        ("xaayaaz", "aa"),
        ("abcabc", "bc"),
        ("abc", ""),
        ("你好<em>世界</em>", "</em>"),
        ("a</em</em>>b", "</em>"),
    ];
    for (text, pat) in cases {
        if pat.is_empty() {
            assert_eq!(remove_all(text, pat), text);
        } else {
            assert_eq!(remove_all(text, pat), text.replace(pat, ""), "{:?} {:?}", text, pat);
        }
    }
}

#[test]
fn highlight_marks_are_removed() {
    assert_eq!(
        clean_html_tags("<em class=\"keyword\">Rust</em> 入门<em class=\"keyword\">教程</em>"),
        "Rust 入门教程"
    );
    assert_eq!(clean_html_tags("plain"), "plain");
    assert_eq!(clean_html_tags("<em>x</em>"), "<em>x");
    assert_eq!(clean_html_tags("</e<em class=\"keyword\">m>"), "");
}

#[test]
fn picture_addresses_get_a_scheme() {
    assert_eq!(normalize_pic_url("//i0.hdslb.com/a.jpg"), "https://i0.hdslb.com/a.jpg");
    assert_eq!(normalize_pic_url("http://i0.hdslb.com/a.jpg"), "http://i0.hdslb.com/a.jpg");
    assert_eq!(normalize_pic_url("/a.jpg"), "/a.jpg");
    assert_eq!(normalize_pic_url(""), "");
    assert_eq!(normalize_pic_url("//"), "https://");
}

#[test]
fn trimming_matches_std() {
    let cases = [
        "", " ", "a", "  a ", "\t\n\r x", "\u{3000}全角", "\u{a0}\u{2003}y", "\u{200b}z",
        "\u{85}\u{1680}\u{2028}\u{2029}\u{202f}\u{205f}q", "\u{0b}\u{0c}w", "\u{1c}v",
    ];
    for text in cases {
        assert_eq!(trim_start(text), text.trim_start(), "{:?}", text);
    }
}

#[test]
fn web_pages_are_told_from_data() {
    assert!(looks_like_html("<!DOCTYPE html><html>"));
    assert!(looks_like_html("  \n<html lang=\"zh\">"));
    assert!(looks_like_html("\u{3000}<!DOCTYPE"));
    assert!(!looks_like_html("{\"code\":0}"));
    assert!(!looks_like_html("<!doctype html>"));
    assert!(!looks_like_html("x<html>"));
    assert!(!looks_like_html(""));
    assert!(!looks_like_html("   "));
}

#[test]
fn query_of_a_search() {
    assert_eq!(
        search_params("rust 教程", 2, 20, None),
        vec![
            pair("search_type", "video"),
            pair("keyword", "rust 教程"),
            pair("page", "2"),
            pair("page_size", "20"),
            pair("order", "totalrank"),
        ]
    );
    let q = search_params("k", u32::MAX, 0, Some("pubdate"));
    assert_eq!(q[2], pair("page", "4294967295"));
    assert_eq!(q[3], pair("page_size", "0"));
    assert_eq!(q[4], pair("order", "pubdate"));
}

#[test]
fn payload_becomes_a_page_of_videos() {
    let data = SearchData {
        num_results: 1000,
        page: 3,
        pagesize: 20,
        result: Some(vec![
            item(1, "<em class=\"keyword\">猫</em>", "//p/1.jpg", CountField::Number(Some(9))),
            item(2, "dog", "https://p/2.jpg", CountField::Text("77".to_string())),
            item(3, "bird", "", CountField::Other),
        ]),
    };
    let page = search_result(data);
    assert_eq!(page.page, 3);
    assert_eq!(page.page_size, 20);
    assert_eq!(page.total, 1000);
    assert_eq!(page.items.len(), 3);
    assert_eq!(page.items[0].aid, 1);
    assert_eq!(page.items[0].title, "猫");
    assert_eq!(page.items[0].pic, "https://p/1.jpg");
    assert_eq!(page.items[0].play, 9);
    assert_eq!(page.items[0].danmaku, 12);
    assert_eq!(page.items[1].aid, 2);
    assert_eq!(page.items[1].play, 77);
    assert_eq!(page.items[1].pic, "https://p/2.jpg");
    assert_eq!(page.items[2].aid, 3);
    assert_eq!(page.items[2].play, 0);
    assert_eq!(page.items[2].bvid, "BV3");
    assert_eq!(page.items[2].duration, "1:02");
}

#[test]
fn payload_without_a_list_is_an_empty_page() {
    let page = search_result(SearchData { num_results: 0, page: 1, pagesize: 20, result: None });
    assert!(page.items.is_empty());
    assert_eq!(page.page, 1);
}

#[test]
fn failed_attempts_are_retried_until_the_last() {
    assert_eq!(MAX_RETRIES, 5);
    assert_eq!(RETRY_DELAY_MS, 500);
    for attempt in 1..5 {
        let d = search_step(attempt, SearchEvent::SendFailed("timeout".to_string()));
        assert!(matches!(d, SearchDecision::Retry { delay_ms: 500 }));
        let d = search_step(attempt, SearchEvent::BodyFailed("cut".to_string()));
        assert!(matches!(d, SearchDecision::Retry { delay_ms: 500 }));
        let d = search_step(attempt, SearchEvent::HtmlPage);
        assert!(matches!(d, SearchDecision::Retry { delay_ms: 1000 }));
        let d = search_step(attempt, SearchEvent::Unreadable("eof".to_string()));
        assert!(matches!(d, SearchDecision::Retry { delay_ms: 500 }));
    }
    let d = search_step(5, SearchEvent::SendFailed("timeout".to_string()));
    assert!(matches!(d, SearchDecision::Fail(BiliApiError::Network(ref m)) if m == "timeout"));
    let d = search_step(5, SearchEvent::BodyFailed("cut".to_string()));
    assert!(
        matches!(d, SearchDecision::Fail(BiliApiError::ParseError(ref m)) if m == "获取响应文本失败: cut")
    );
    let d = search_step(5, SearchEvent::HtmlPage);
    assert!(
        matches!(d, SearchDecision::Fail(BiliApiError::ParseError(ref m)) if m == "B站返回了验证页面，请稍后重试")
    );
    let d = search_step(6, SearchEvent::Unreadable("eof".to_string()));
    assert!(
        matches!(d, SearchDecision::Fail(BiliApiError::ParseError(ref m)) if m == "响应解析失败: eof")
    );
}

#[test]
fn answers_end_the_search_at_once() {
    let d = search_step(
        1,
        SearchEvent::Answer { code: -412, message: "请求被拦截".to_string(), data: None },
    );
    assert!(
        matches!(d, SearchDecision::Fail(BiliApiError::ApiError { code: -412, ref message }) if message == "请求被拦截")
    );
    let d = search_step(2, SearchEvent::Answer { code: 0, message: "0".to_string(), data: None });
    assert!(matches!(d, SearchDecision::Fail(BiliApiError::ParseError(ref m)) if m == "缺少数据"));
    let data = SearchData { num_results: 1, page: 1, pagesize: 20, result: None };
    let d = search_step(
        3,
        SearchEvent::Answer { code: 0, message: "0".to_string(), data: Some(data) },
    );
    assert!(matches!(d, SearchDecision::Done(ref page) if page.total == 1));
}
