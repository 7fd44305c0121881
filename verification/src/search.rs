//! Video search: what a request asks, how an answer is read, and when a
//! failed attempt is tried again. Sending and waiting are the caller's
//! part.

use crate::error::{BiliApiError, BiliApiErrorView};
use crate::login::missing_data_text;
use crate::models::{
    pairs_view, video_views, SearchResult, SearchResultView, VideoItem, VideoItemView,
};
use crate::text::{
    decimal, parse_u64, remove_all, starts_with, trim_start, trimmed_start, u64_to_string,
    unsigned_of, without,
};
use vstd::prelude::*;

verus! {

/// How many times a search is attempted.
pub const MAX_RETRIES: u32 = 5;

/// Milliseconds to wait before the next attempt.
pub const RETRY_DELAY_MS: u64 = 500;

/// A count as the platform sends it: a number, a text that may hold one,
/// or something else. `Number` holds the count where it is a whole number
/// that is not negative.
#[derive(Debug)]
pub enum CountField {
    Number(Option<u64>),
    Text(String),
    Other,
}

pub enum CountFieldView {
    Number(Option<u64>),
    Text(Seq<char>),
    Other,
}

impl View for CountField {
    type V = CountFieldView;

    open spec fn view(&self) -> CountFieldView {
        match self {
            CountField::Number(n) => CountFieldView::Number(*n),
            CountField::Text(s) => CountFieldView::Text(s@),
            CountField::Other => CountFieldView::Other,
        }
    }
}

/// The count that a field stands for; zero where it stands for none.
pub open spec fn count_of(v: CountFieldView) -> u64 {
    match v {
        CountFieldView::Number(Some(n)) => n,
        CountFieldView::Number(None) => 0,
        CountFieldView::Text(s) => match unsigned_of(s) {
            Some(n) => n,
            None => 0,
        },
        CountFieldView::Other => 0,
    }
}

/// Reads a count field.
pub fn value_to_u64(v: &CountField) -> (n: u64)
    ensures
        n == count_of(v@),
{
    match v {
        CountField::Number(n) => match n {
            Some(n) => *n,
            None => 0,
        },
        CountField::Text(s) => match parse_u64(s.as_str()) {
            Some(n) => n,
            None => 0,
        },
        CountField::Other => 0,
    }
}

/// A title without the marks that highlight the search words in it.
pub open spec fn plain_title(text: Seq<char>) -> Seq<char> {
    without(without(text, "<em class=\"keyword\">"@), "</em>"@)
}

/// Takes the highlight marks out of a title.
pub fn clean_html_tags(text: &str) -> (clean: String)
    ensures
        clean@ == plain_title(text@),
{
    let opened = remove_all(text, "<em class=\"keyword\">");
    remove_all(opened.as_str(), "</em>")
}

/// A picture address with its scheme: one that begins with two slashes
/// gets `https:` in front.
pub open spec fn full_pic_url(url: Seq<char>) -> Seq<char> {
    if "//"@.is_prefix_of(url) {
        "https:"@ + url
    } else {
        url
    }
}

/// Completes a picture address that lacks its scheme.
pub fn normalize_pic_url(url: &str) -> (full: String)
    ensures
        full@ == full_pic_url(url@),
{
    if starts_with(url, "//") {
        let mut full = String::from_str("https:");
        full.append(url);
        full
    } else {
        String::from_str(url)
    }
}

/// Whether an answer is a web page where data was expected: after any
/// leading white space it begins with `<!DOCTYPE` or `<html`.
pub open spec fn is_html_page(text: Seq<char>) -> bool {
    "<!DOCTYPE"@.is_prefix_of(trimmed_start(text)) || "<html"@.is_prefix_of(trimmed_start(text))
}

/// Tells a web page from data.
pub fn looks_like_html(text: &str) -> (html: bool)
    ensures
        html == is_html_page(text@),
{
    let body = trim_start(text);
    starts_with(body, "<!DOCTYPE") || starts_with(body, "<html")
}

/// The order of results where none is asked for.
pub open spec fn default_order() -> Seq<char> {
    "totalrank"@
}

/// The view of an optional text.
pub open spec fn opt_text_view(o: Option<&str>) -> Option<Seq<char>> {
    match o {
        Some(s) => Some(s@),
        None => None,
    }
}

/// The query of a search request.
pub open spec fn search_query(
    keyword: Seq<char>,
    page: u32,
    page_size: u32,
    order: Option<Seq<char>>,
) -> Seq<(Seq<char>, Seq<char>)> {
    seq![
        ("search_type"@, "video"@),
        ("keyword"@, keyword),
        ("page"@, decimal(page as nat)),
        ("page_size"@, decimal(page_size as nat)),
        (
            "order"@,
            match order {
                Some(o) => o,
                None => default_order(),
            },
        ),
    ]
}

/// Builds the query of a search request, as name and value pairs.
pub fn search_params(keyword: &str, page: u32, page_size: u32, order: Option<&str>) -> (query: Vec<
    (String, String),
>)
    ensures
        pairs_view(query@) == search_query(keyword@, page, page_size, opt_text_view(order)),
{
    let ghost asked = opt_text_view(order);
    let order = match order {
        Some(o) => o,
        None => "totalrank",
    };
    let mut query: Vec<(String, String)> = Vec::new();
    query.push((String::from_str("search_type"), String::from_str("video")));
    query.push((String::from_str("keyword"), String::from_str(keyword)));
    query.push((String::from_str("page"), u64_to_string(page as u64)));
    query.push((String::from_str("page_size"), u64_to_string(page_size as u64)));
    query.push((String::from_str("order"), String::from_str(order)));
    assert(pairs_view(query@) =~= search_query(keyword@, page, page_size, asked));
    query
}

/// One search hit as the platform sends it.
#[derive(Debug)]
pub struct SearchResultItem {
    pub aid: u64,
    pub bvid: String,
    pub title: String,
    pub author: String,
    pub mid: u64,
    pub pic: String,
    pub play: CountField,
    pub danmaku: CountField,
    pub pubdate: i64,
    pub duration: String,
    pub description: String,
}

pub struct SearchResultItemView {
    pub aid: u64,
    pub bvid: Seq<char>,
    pub title: Seq<char>,
    pub author: Seq<char>,
    pub mid: u64,
    pub pic: Seq<char>,
    pub play: CountFieldView,
    pub danmaku: CountFieldView,
    pub pubdate: i64,
    pub duration: Seq<char>,
    pub description: Seq<char>,
}

impl View for SearchResultItem {
    type V = SearchResultItemView;

    open spec fn view(&self) -> SearchResultItemView {
        SearchResultItemView {
            aid: self.aid,
            bvid: self.bvid@,
            title: self.title@,
            author: self.author@,
            mid: self.mid,
            pic: self.pic@,
            play: self.play@,
            danmaku: self.danmaku@,
            pubdate: self.pubdate,
            duration: self.duration@,
            description: self.description@,
        }
    }
}

/// The video that a search hit describes: the title without highlight
/// marks, the picture address with its scheme, the counts as numbers.
pub open spec fn video_of(item: SearchResultItemView) -> VideoItemView {
    VideoItemView {
        aid: item.aid,
        bvid: item.bvid,
        title: plain_title(item.title),
        author: item.author,
        mid: item.mid,
        pic: full_pic_url(item.pic),
        play: count_of(item.play),
        danmaku: count_of(item.danmaku),
        pubdate: item.pubdate,
        duration: item.duration,
        description: item.description,
    }
}

/// Turns a search hit into a video.
pub fn video_from_item(item: SearchResultItem) -> (video: VideoItem)
    ensures
        video@ == video_of(item@),
{
    VideoItem {
        aid: item.aid,
        bvid: item.bvid,
        title: clean_html_tags(item.title.as_str()),
        author: item.author,
        mid: item.mid,
        pic: normalize_pic_url(item.pic.as_str()),
        play: value_to_u64(&item.play),
        danmaku: value_to_u64(&item.danmaku),
        pubdate: item.pubdate,
        duration: item.duration,
        description: item.description,
    }
}

/// The payload of a search answer.
#[derive(Debug)]
pub struct SearchData {
    pub num_results: u32,
    pub page: u32,
    pub pagesize: u32,
    pub result: Option<Vec<SearchResultItem>>,
}

/// The views of a list of search hits, in order.
pub open spec fn item_views(items: Seq<SearchResultItem>) -> Seq<SearchResultItemView> {
    items.map_values(|i: SearchResultItem| i@)
}

pub struct SearchDataView {
    pub num_results: u32,
    pub page: u32,
    pub pagesize: u32,
    pub result: Option<Seq<SearchResultItemView>>,
}

impl View for SearchData {
    type V = SearchDataView;

    open spec fn view(&self) -> SearchDataView {
        SearchDataView {
            num_results: self.num_results,
            page: self.page,
            pagesize: self.pagesize,
            result: match self.result {
                Some(items) => Some(item_views(items@)),
                None => None,
            },
        }
    }
}

/// The page of results that a search payload holds: its hits as videos, in
/// order; no hits where the payload has no list.
pub open spec fn result_of(data: SearchDataView) -> SearchResultView {
    SearchResultView {
        page: data.page,
        page_size: data.pagesize,
        total: data.num_results,
        items: match data.result {
            Some(items) => items.map_values(|i: SearchResultItemView| video_of(i)),
            None => Seq::<VideoItemView>::empty(),
        },
    }
}

/// Turns a search payload into a page of results.
pub fn search_result(data: SearchData) -> (page: SearchResult)
    ensures
        page@ == result_of(data@),
{
    let mut items: Vec<VideoItem> = Vec::new();
    match data.result {
        Some(hits) => {
            let ghost all = item_views(hits@);
            let ghost raw = hits@;
            for hit in it: hits
                invariant
                    it.seq() == raw,
                    all == item_views(raw),
                    video_views(items@) == all.take(it.index() as int).map_values(
                        |h: SearchResultItemView| video_of(h),
                    ),
            {
                let ghost before = video_views(items@);
                let ghost h = hit@;
                items.push(video_from_item(hit));
                proof {
                    assert(video_views(items@) =~= before.push(video_of(h)));
                    assert(video_views(items@) =~= all.take(it.index() + 1).map_values(
                        |h: SearchResultItemView| video_of(h),
                    ));
                }
            }
            assert(all.take(all.len() as int) =~= all);
        },
        None => {
            assert(video_views(items@) =~= Seq::<VideoItemView>::empty());
        },
    }
    SearchResult { page: data.page, page_size: data.pagesize, total: data.num_results, items }
}

/// What came of one search attempt.
#[derive(Debug)]
pub enum SearchEvent {
    /// The request did not get through; the text describes why.
    SendFailed(String),
    /// The answer's body could not be read; the text describes why.
    BodyFailed(String),
    /// The answer is a web page, not data.
    HtmlPage,
    /// The answer is not the data expected; the text describes why.
    Unreadable(String),
    /// The answer was read: its code, its message and its payload.
    Answer { code: i32, message: String, data: Option<SearchData> },
}

pub enum SearchEventView {
    SendFailed(Seq<char>),
    BodyFailed(Seq<char>),
    HtmlPage,
    Unreadable(Seq<char>),
    Answer { code: i32, message: Seq<char>, data: Option<SearchDataView> },
}

impl View for SearchEvent {
    type V = SearchEventView;

    open spec fn view(&self) -> SearchEventView {
        match self {
            SearchEvent::SendFailed(m) => SearchEventView::SendFailed(m@),
            SearchEvent::BodyFailed(m) => SearchEventView::BodyFailed(m@),
            SearchEvent::HtmlPage => SearchEventView::HtmlPage,
            SearchEvent::Unreadable(m) => SearchEventView::Unreadable(m@),
            SearchEvent::Answer { code, message, data } => SearchEventView::Answer {
                code: *code,
                message: message@,
                data: match data {
                    Some(d) => Some(d@),
                    None => None,
                },
            },
        }
    }
}

/// What to do after a search attempt.
#[derive(Debug)]
pub enum SearchDecision {
    /// The search is done, with this page of results.
    Done(SearchResult),
    /// Wait this long and try again.
    Retry { delay_ms: u64 },
    /// Give up, with this error.
    Fail(BiliApiError),
}

pub enum SearchDecisionView {
    Done(SearchResultView),
    Retry { delay_ms: u64 },
    Fail(BiliApiErrorView),
}

impl View for SearchDecision {
    type V = SearchDecisionView;

    open spec fn view(&self) -> SearchDecisionView {
        match self {
            SearchDecision::Done(page) => SearchDecisionView::Done(page@),
            SearchDecision::Retry { delay_ms } => SearchDecisionView::Retry { delay_ms: *delay_ms },
            SearchDecision::Fail(e) => SearchDecisionView::Fail(e@),
        }
    }
}

/// The error that a failed attempt stands for.
pub open spec fn attempt_error(event: SearchEventView) -> BiliApiErrorView {
    match event {
        SearchEventView::SendFailed(m) => BiliApiErrorView::Network(m),
        SearchEventView::BodyFailed(m) => BiliApiErrorView::ParseError("获取响应文本失败: "@ + m),
        SearchEventView::HtmlPage => BiliApiErrorView::ParseError(
            "B站返回了验证页面，请稍后重试"@,
        ),
        SearchEventView::Unreadable(m) => BiliApiErrorView::ParseError("响应解析失败: "@ + m),
        SearchEventView::Answer { code, message, data } => if code != 0 {
            BiliApiErrorView::ApiError { code, message }
        } else {
            BiliApiErrorView::ParseError(missing_data_text())
        },
    }
}

/// How long to wait after a failed attempt: twice as long after a web page
/// as after any other failure.
pub open spec fn retry_delay(event: SearchEventView) -> u64 {
    if event is HtmlPage {
        (RETRY_DELAY_MS * 2) as u64
    } else {
        RETRY_DELAY_MS
    }
}

/// What to do after attempt number `attempt`, counted from one, came to
/// `event`.
///
/// An answer with code zero and a payload ends the search with its page of
/// results. An answer with another code, or without a payload, ends it with
/// an error, whatever the attempt. Any other failure is tried again after a
/// wait, until the last attempt, whose error ends the search.
pub open spec fn decided(attempt: u32, event: SearchEventView) -> SearchDecisionView {
    match event {
        SearchEventView::Answer { code, message, data } => if code == 0 && data is Some {
            SearchDecisionView::Done(result_of(data->0))
        } else {
            SearchDecisionView::Fail(attempt_error(event))
        },
        _ => if attempt < MAX_RETRIES {
            SearchDecisionView::Retry { delay_ms: retry_delay(event) }
        } else {
            SearchDecisionView::Fail(attempt_error(event))
        },
    }
}

fn failure(attempt: u32, delay_ms: u64, error: BiliApiError) -> (d: SearchDecision)
    ensures
        d@ == if attempt < MAX_RETRIES {
            SearchDecisionView::Retry { delay_ms }
        } else {
            SearchDecisionView::Fail(error@)
        },
{
    if attempt < MAX_RETRIES {
        SearchDecision::Retry { delay_ms }
    } else {
        SearchDecision::Fail(error)
    }
}

/// Decides what to do after one search attempt.
pub fn search_step(attempt: u32, event: SearchEvent) -> (decision: SearchDecision)
    ensures
        decision@ == decided(attempt, event@),
{
    match event {
        SearchEvent::SendFailed(m) => failure(attempt, RETRY_DELAY_MS, BiliApiError::Network(m)),
        SearchEvent::BodyFailed(m) => {
            let mut text = String::from_str("获取响应文本失败: ");
            text.append(m.as_str());
            failure(attempt, RETRY_DELAY_MS, BiliApiError::ParseError(text))
        },
        SearchEvent::HtmlPage => failure(
            attempt,
            RETRY_DELAY_MS * 2,
            BiliApiError::ParseError(String::from_str("B站返回了验证页面，请稍后重试")),
        ),
        SearchEvent::Unreadable(m) => {
            let mut text = String::from_str("响应解析失败: ");
            text.append(m.as_str());
            failure(attempt, RETRY_DELAY_MS, BiliApiError::ParseError(text))
        },
        SearchEvent::Answer { code, message, data } => {
            if code != 0 {
                SearchDecision::Fail(BiliApiError::ApiError { code, message })
            } else {
                match data {
                    Some(d) => SearchDecision::Done(search_result(d)),
                    None => SearchDecision::Fail(
                        BiliApiError::ParseError(String::from_str("缺少数据")),
                    ),
                }
            }
        },
    }
}

} // verus!
